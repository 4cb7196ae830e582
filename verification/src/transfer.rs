use crate::decode::{addr, reg_x};
use crate::fault::{ErrorKind, Status};
use crate::machine::Core;
use crate::state::State;
use vstd::prelude::*;

verus! {

impl Core {
    /// `ANNN`: sets I to NNN.
    pub fn op_ldi(&mut self, inst: u16)
        ensures
            final(self)@ == old(self)@.ldi(inst),
    {
        proof {
            use_type_invariant(&*self);
        }
        self.i = addr(inst);
    }

    /// `FX07`: sets Vx to the delay timer.
    pub fn op_ldreg_dt(&mut self, inst: u16)
        ensures
            final(self)@ == old(self)@.ldreg_dt(inst),
    {
        proof {
            use_type_invariant(&*self);
        }
        let rx = reg_x(inst) as usize;

        self.registers[rx] = self.dt
    }

    /// `FX0A`: starts a key wait. No further instruction executes until a
    /// key goes from released to pressed; that key's index is then stored
    /// in Vx.
    pub fn op_ldreg_key(&mut self, inst: u16)
        ensures
            final(self)@ == old(self)@.ldreg_key(inst),
    {
        proof {
            use_type_invariant(&*self);
        }
        let rx = reg_x(inst);

        self.status = Status::AwaitingKey { register: rx };
    }

    /// `FX15`: sets the delay timer to Vx.
    pub fn op_lddt_reg(&mut self, inst: u16)
        ensures
            final(self)@ == old(self)@.lddt_reg(inst),
    {
        proof {
            use_type_invariant(&*self);
        }
        let rx = reg_x(inst) as usize;

        self.dt = self.registers[rx];
    }

    /// `FX18`: sets the sound timer to Vx.
    pub fn op_ldst_reg(&mut self, inst: u16)
        ensures
            final(self)@ == old(self)@.ldst_reg(inst),
    {
        proof {
            use_type_invariant(&*self);
        }
        let rx = reg_x(inst) as usize;

        self.st = self.registers[rx];
    }

    /// `FX1E`: adds Vx to I. Fails with `OutOfBoundsAccess`, changing
    /// nothing, if the sum does not fit in sixteen bits.
    pub fn op_addi_reg(&mut self, inst: u16) -> (r: Result<(), ErrorKind>)
        ensures
            old(self)@.ends_as(old(self)@.addi_reg(inst), r, final(self)@),
    {
        proof {
            use_type_invariant(&*self);
        }
        let rx = reg_x(inst) as usize;

        match self.i.checked_add(self.registers[rx] as u16) {
            Some(sum) => {
                self.i = sum;
                Ok(())
            },
            None => Err(ErrorKind::OutOfBoundsAccess),
        }
    }

    /// `FX29`: sets I to the address of the glyph for the digit in Vx.
    pub fn op_ldf(&mut self, inst: u16)
        ensures
            final(self)@ == old(self)@.ldf(inst),
    {
        proof {
            use_type_invariant(&*self);
        }
        let rx = reg_x(inst) as usize;

        self.i = self.registers[rx] as u16 * 5;
    }

    /// `FX33`: stores the three decimal digits of Vx at I, I+1 and I+2,
    /// hundreds first. Fails with `OutOfBoundsAccess`, changing nothing, if
    /// one of the three addresses lies beyond memory.
    pub fn op_ldb(&mut self, inst: u16) -> (r: Result<(), ErrorKind>)
        ensures
            old(self)@.ends_as(old(self)@.ldb(inst), r, final(self)@),
    {
        proof {
            use_type_invariant(&*self);
        }
        let rx = reg_x(inst) as usize;
        let val = self.registers[rx];
        let base = self.i as usize;

        if base + 2 >= 0x1000 {
            return Err(ErrorKind::OutOfBoundsAccess);
        }
        self.memory[base] = val / 100;
        self.memory[base + 1] = (val / 10) % 10;
        self.memory[base + 2] = val % 10;
        Ok(())
    }

    /// `FX55`: copies V0 to Vx, inclusive, into memory starting at I. Fails
    /// with `OutOfBoundsAccess`, changing nothing, if the last address lies
    /// beyond memory.
    pub fn op_ldreg_mem(&mut self, inst: u16) -> (r: Result<(), ErrorKind>)
        ensures
            old(self)@.ends_as(old(self)@.ldreg_mem(inst), r, final(self)@),
    {
        proof {
            use_type_invariant(&*self);
        }
        let rx = reg_x(inst) as usize;
        let base = self.i as usize;

        if base + rx >= 0x1000 {
            return Err(ErrorKind::OutOfBoundsAccess);
        }
        let mut k: usize = 0;
        while k < rx + 1
            invariant
                k <= rx + 1,
                rx < 16,
                base + rx < 0x1000,
                self.inv(),
                self@ == (State { memory: self.memory@, ..old(self)@ }),
                forall|a: int|
                    0 <= a < 4096 ==> self.memory@[a] == if base <= a < base + k {
                        old(self).registers@[a - base]
                    } else {
                        old(self).memory@[a]
                    },
            decreases rx + 1 - k,
        {
            self.memory[base + k] = self.registers[k];
            k += 1;
        }
        assert(self.memory@ =~= old(self)@.ldreg_mem(inst)->Ok_0.memory);
        Ok(())
    }

    /// `FX65`: fills V0 to Vx, inclusive, from memory starting at I. Fails
    /// with `OutOfBoundsAccess`, changing nothing, if the last address lies
    /// beyond memory.
    pub fn op_ldmem_reg(&mut self, inst: u16) -> (r: Result<(), ErrorKind>)
        ensures
            old(self)@.ends_as(old(self)@.ldmem_reg(inst), r, final(self)@),
    {
        proof {
            use_type_invariant(&*self);
        }
        let rx = reg_x(inst) as usize;
        let base = self.i as usize;

        if base + rx >= 0x1000 {
            return Err(ErrorKind::OutOfBoundsAccess);
        }
        let mut k: usize = 0;
        while k < rx + 1
            invariant
                k <= rx + 1,
                rx < 16,
                base + rx < 0x1000,
                self.inv(),
                self@ == (State { registers: self.registers@, ..old(self)@ }),
                forall|r: int|
                    0 <= r < 16 ==> self.registers@[r] == if r < k {
                        old(self).memory@[base + r]
                    } else {
                        old(self).registers@[r]
                    },
            decreases rx + 1 - k,
        {
            self.registers[k] = self.memory[base + k];
            k += 1;
        }
        assert(self.registers@ =~= old(self)@.ldmem_reg(inst)->Ok_0.registers);
        Ok(())
    }
}

} // verus!
