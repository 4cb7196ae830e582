use crate::decode::{addr, imm8, reg_x, reg_y};
use crate::fault::ErrorKind;
use crate::machine::Core;
use vstd::prelude::*;

verus! {

impl Core {
    /// Moves the program counter past the next instruction if `cond` holds.
    /// Fails, changing nothing, where the counter cannot hold the address.
    pub fn skip_if(&mut self, cond: bool) -> (r: Result<(), ErrorKind>)
        ensures
            old(self)@.ends_as(old(self)@.skip_if(cond), r, final(self)@),
    {
        proof {
            use_type_invariant(&*self);
        }
        if cond {
            if self.pc > 0xFFFD {
                return Err(ErrorKind::OutOfBoundsAccess);
            }
            self.pc += 2;
        }
        Ok(())
    }

    /// `00EE`: returns from a subroutine: the program counter becomes the
    /// latest return address, which leaves the stack. Fails with
    /// `StackUnderflow`, changing nothing, if no call is outstanding.
    pub fn op_ret(&mut self, _inst: u16) -> (r: Result<(), ErrorKind>)
        ensures
            old(self)@.ends_as(old(self)@.ret(), r, final(self)@),
    {
        proof {
            use_type_invariant(&*self);
        }
        if self.sp == 0 {
            return Err(ErrorKind::StackUnderflow);
        }
        self.pc = self.stack[self.sp as usize];
        self.sp -= 1;
        Ok(())
    }

    /// `1NNN`: jumps to NNN.
    pub fn op_jp(&mut self, inst: u16)
        ensures
            final(self)@ == old(self)@.jp(inst),
    {
        proof {
            use_type_invariant(&*self);
        }
        let tgt_addr = addr(inst);
        self.pc = tgt_addr;
    }

    /// `2NNN`: calls the subroutine at NNN: the program counter goes onto
    /// the stack and becomes NNN. Fails with `StackOverflow`, changing
    /// nothing, if fifteen calls are outstanding.
    pub fn op_call(&mut self, inst: u16) -> (r: Result<(), ErrorKind>)
        ensures
            old(self)@.ends_as(old(self)@.call(inst), r, final(self)@),
    {
        proof {
            use_type_invariant(&*self);
        }
        if self.sp >= 15 {
            return Err(ErrorKind::StackOverflow);
        }
        self.sp += 1;
        self.stack[self.sp as usize] = self.pc;
        self.pc = addr(inst);
        Ok(())
    }

    /// `3XNN`: skips the next instruction if Vx equals NN.
    pub fn op_se(&mut self, inst: u16) -> (r: Result<(), ErrorKind>)
        ensures
            old(self)@.ends_as(old(self)@.se(inst), r, final(self)@),
    {
        let rx = reg_x(inst) as usize;
        let comp = imm8(inst);

        self.skip_if(self.registers[rx] == comp)
    }

    /// `4XNN`: skips the next instruction if Vx differs from NN.
    pub fn op_sne(&mut self, inst: u16) -> (r: Result<(), ErrorKind>)
        ensures
            old(self)@.ends_as(old(self)@.sne(inst), r, final(self)@),
    {
        let rx = reg_x(inst) as usize;
        let comp = imm8(inst);

        self.skip_if(self.registers[rx] != comp)
    }

    /// `5XY0`: skips the next instruction if Vx equals Vy.
    pub fn op_sereg(&mut self, inst: u16) -> (r: Result<(), ErrorKind>)
        ensures
            old(self)@.ends_as(old(self)@.sereg(inst), r, final(self)@),
    {
        let rx = reg_x(inst) as usize;
        let ry = reg_y(inst) as usize;

        self.skip_if(self.registers[rx] == self.registers[ry])
    }

    /// `9XY0`: skips the next instruction if Vx differs from Vy.
    pub fn op_snereg(&mut self, inst: u16) -> (r: Result<(), ErrorKind>)
        ensures
            old(self)@.ends_as(old(self)@.snereg(inst), r, final(self)@),
    {
        let rx = reg_x(inst) as usize;
        let ry = reg_y(inst) as usize;

        self.skip_if(self.registers[rx] != self.registers[ry])
    }

    /// `BNNN`: jumps to NNN plus V0.
    pub fn op_jp_offset(&mut self, inst: u16)
        ensures
            final(self)@ == old(self)@.jp_offset(inst),
    {
        proof {
            use_type_invariant(&*self);
        }
        self.pc = addr(inst) + self.registers[0] as u16;
    }

    /// Whether the key numbered `key` is held down. A number above fifteen
    /// names no key, and no key is never down.
    pub fn key_is_down(&self, key: u8) -> (down: bool)
        ensures
            down == crate::state::key_down(self@.key_state, key),
    {
        key < 16 && self.key_state & (1u16 << key) != 0
    }

    /// `EX9E`: skips the next instruction if the key numbered Vx is down.
    pub fn op_skp(&mut self, inst: u16) -> (r: Result<(), ErrorKind>)
        ensures
            old(self)@.ends_as(old(self)@.skp(inst), r, final(self)@),
    {
        let rx = reg_x(inst) as usize;

        let down = self.key_is_down(self.registers[rx]);
        self.skip_if(down)
    }

    /// `EXA1`: skips the next instruction if the key numbered Vx is up.
    pub fn op_sknp(&mut self, inst: u16) -> (r: Result<(), ErrorKind>)
        ensures
            old(self)@.ends_as(old(self)@.sknp(inst), r, final(self)@),
    {
        let rx = reg_x(inst) as usize;

        let down = self.key_is_down(self.registers[rx]);
        self.skip_if(!down)
    }
}

} // verus!
