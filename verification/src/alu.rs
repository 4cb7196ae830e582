use crate::decode::{imm8, reg_x, reg_y};
use crate::machine::Core;
use crate::random::random_byte;
use vstd::prelude::*;

verus! {

impl Core {
    /// `6XNN`: sets Vx to NN.
    pub fn op_ld(&mut self, inst: u16)
        ensures
            final(self)@ == old(self)@.ld(inst),
    {
        proof {
            use_type_invariant(&*self);
        }
        let rx = reg_x(inst) as usize;
        let val = imm8(inst);

        self.registers[rx] = val;
    }

    /// `7XNN`: adds NN to Vx, wrapping at eight bits. No flag changes.
    pub fn op_add(&mut self, inst: u16)
        ensures
            final(self)@ == old(self)@.add(inst),
    {
        proof {
            use_type_invariant(&*self);
        }
        let rx = reg_x(inst) as usize;
        let val = imm8(inst);

        self.registers[rx] = self.registers[rx].wrapping_add(val);
    }

    /// `8XY0`: sets Vx to Vy.
    pub fn op_ldreg(&mut self, inst: u16)
        ensures
            final(self)@ == old(self)@.ldreg(inst),
    {
        proof {
            use_type_invariant(&*self);
        }
        let rx = reg_x(inst) as usize;
        let ry = reg_y(inst) as usize;

        self.registers[rx] = self.registers[ry];
    }

    /// `8XY1`: sets Vx to Vx OR Vy.
    pub fn op_or(&mut self, inst: u16)
        ensures
            final(self)@ == old(self)@.or(inst),
    {
        proof {
            use_type_invariant(&*self);
        }
        let rx = reg_x(inst) as usize;
        let ry = reg_y(inst) as usize;

        self.registers[rx] = self.registers[rx] | self.registers[ry];
    }

    /// `8XY2`: sets Vx to Vx AND Vy.
    pub fn op_and(&mut self, inst: u16)
        ensures
            final(self)@ == old(self)@.and(inst),
    {
        proof {
            use_type_invariant(&*self);
        }
        let rx = reg_x(inst) as usize;
        let ry = reg_y(inst) as usize;

        self.registers[rx] = self.registers[rx] & self.registers[ry];
    }

    /// `8XY3`: sets Vx to Vx XOR Vy.
    pub fn op_xor(&mut self, inst: u16)
        ensures
            final(self)@ == old(self)@.xor(inst),
    {
        proof {
            use_type_invariant(&*self);
        }
        let rx = reg_x(inst) as usize;
        let ry = reg_y(inst) as usize;

        let val = self.registers[rx] ^ self.registers[ry];
        self.registers[rx] = val;
    }

    /// `8XY4`: adds Vy to Vx, keeping the low eight bits of the sum in Vx,
    /// and then sets VF to the carry.
    pub fn op_addcarry(&mut self, inst: u16)
        ensures
            final(self)@ == old(self)@.addcarry(inst),
    {
        proof {
            use_type_invariant(&*self);
        }
        let rx = reg_x(inst) as usize;
        let ry = reg_y(inst) as usize;

        let result: u16 = self.registers[rx] as u16 + self.registers[ry] as u16;
        assert(result & 0xff == result % 256 && (result >> 8) & 0x1 == result / 256) by (bit_vector)
            requires
                result < 512,
        ;

        self.registers[rx] = (result & 0xff) as u8;
        self.registers[0xf] = ((result >> 8) & 0x1) as u8;
    }

    /// `8XY5`: subtracts Vy from Vx, wrapping at eight bits, and then sets
    /// VF to 1 if Vx was at least Vy and to 0 otherwise.
    pub fn op_sub(&mut self, inst: u16)
        ensures
            final(self)@ == old(self)@.sub(inst),
    {
        proof {
            use_type_invariant(&*self);
        }
        let rx = reg_x(inst) as usize;
        let ry = reg_y(inst) as usize;
        let vx = self.registers[rx];
        let vy = self.registers[ry];

        let flag: u8 = if vx >= vy {
            1
        } else {
            0
        };

        self.registers[rx] = vx.wrapping_sub(vy);
        self.registers[0xf] = flag;
    }

    /// `8XY6`: shifts Vx right by one bit and then sets VF to the bit that
    /// left it.
    pub fn op_shr(&mut self, inst: u16)
        ensures
            final(self)@ == old(self)@.shr(inst),
    {
        proof {
            use_type_invariant(&*self);
        }
        let rx = reg_x(inst) as usize;
        let vx = self.registers[rx];
        assert(vx >> 1 == vx / 2 && vx & 0x1 == vx % 2) by (bit_vector);

        self.registers[rx] = vx >> 1;
        self.registers[0xf] = vx & 0x1;
    }

    /// `8XY7`: sets Vx to Vy minus Vx, wrapping at eight bits, and then
    /// sets VF to 1 if Vy was at least Vx and to 0 otherwise.
    pub fn op_subn(&mut self, inst: u16)
        ensures
            final(self)@ == old(self)@.subn(inst),
    {
        proof {
            use_type_invariant(&*self);
        }
        let rx = reg_x(inst) as usize;
        let ry = reg_y(inst) as usize;
        let vx = self.registers[rx];
        let vy = self.registers[ry];

        let flag: u8 = if vy >= vx {
            1
        } else {
            0
        };

        self.registers[rx] = vy.wrapping_sub(vx);
        self.registers[0xf] = flag;
    }

    /// `8XYE`: shifts Vx left by one bit, wrapping at eight bits, and then
    /// sets VF to the bit that left it.
    pub fn op_shl(&mut self, inst: u16)
        ensures
            final(self)@ == old(self)@.shl(inst),
    {
        proof {
            use_type_invariant(&*self);
        }
        let rx = reg_x(inst) as usize;
        let vx = self.registers[rx];
        assert(vx << 1 == (vx * 2) % 256 && (vx & 0x80) >> 7 == vx / 128) by (bit_vector);

        self.registers[rx] = vx << 1;
        self.registers[0xf] = (vx & 0x80) >> 7;
    }

    /// `CXNN` with the random byte given: sets Vx to `random` AND NN.
    pub fn op_rnd_with(&mut self, inst: u16, random: u8)
        ensures
            final(self)@ == old(self)@.rnd(inst, random),
    {
        proof {
            use_type_invariant(&*self);
        }
        let rx = reg_x(inst) as usize;
        let mask = imm8(inst);

        self.registers[rx] = random & mask;
    }

    /// `CXNN`: draws a random byte and sets Vx to that byte AND NN. Which
    /// byte is drawn is not known; the result is that of `op_rnd_with` for
    /// some byte.
    pub fn op_rnd(&mut self, inst: u16)
        ensures
            exists|random: u8| final(self)@ == old(self)@.rnd(inst, random),
    {
        let rand_val = random_byte();
        self.op_rnd_with(inst, rand_val);
    }
}

} // verus!
