use crate::decode::{decode, Opcode};
use crate::fault::{ErrorKind, Fault, Status};
use crate::font::CHAR_SPRITES;
use crate::state::State;
use vstd::prelude::*;

verus! {

/// The interpreter: memory, registers, stack, timers, keys and display of
/// one machine.
pub struct Core {
    pub(crate) frame_buffer: [u8; 256],
    pub(crate) memory: [u8; 0x1000],
    pub(crate) registers: [u8; 0x10],
    pub(crate) stack: [u16; 0x10],
    pub(crate) sp: u8,
    pub(crate) i: u16,
    pub(crate) pc: u16,
    pub(crate) dt: u8,
    pub(crate) st: u8,
    pub(crate) key_state: u16,
    pub(crate) status: Status,
}

impl View for Core {
    type V = State;

    open(crate) spec fn view(&self) -> State {
        State {
            memory: self.memory@,
            registers: self.registers@,
            stack: self.stack@,
            sp: self.sp,
            i: self.i,
            pc: self.pc,
            dt: self.dt,
            st: self.st,
            key_state: self.key_state,
            frame_buffer: self.frame_buffer@,
            status: self.status,
        }
    }
}

impl Core {
    /// The stack pointer never leaves the stack, and a key wait names one of
    /// the sixteen registers.
    #[verifier::type_invariant]
    pub(crate) open spec fn inv(self) -> bool {
        &&& self.sp <= 15
        &&& (self.status matches Status::AwaitingKey { register } ==> register < 16)
    }

    /// A machine at power-on: the glyph font loaded, everything else zero,
    /// and execution about to start at the load address.
    pub fn new() -> (core: Core)
        ensures
            core@ == State::initial(),
    {
        let mut result = Core {
            frame_buffer: [0u8; 256],
            memory: [0u8; 0x1000],
            registers: [0u8; 0x10],
            stack: [0u16; 0x10],
            sp: 0,
            i: 0,
            pc: 0x200,
            dt: 0,
            st: 0,
            key_state: 0,
            status: Status::Running,
        };
        result.soft_reset();
        result.load_sprites();
        assert(result.memory@ =~= State::initial().memory);
        assert(result.registers@ =~= State::initial().registers);
        assert(result.stack@ =~= State::initial().stack);
        result
    }

    /// Copies the glyph font to the bottom of memory.
    pub fn load_sprites(&mut self)
        ensures
            final(self)@ == old(self)@.load_sprites(),
    {
        proof {
            use_type_invariant(&*self);
        }
        let mut k: usize = 0;
        while k < 80
            invariant
                k <= 80,
                self.inv(),
                self@ == (State { memory: self.memory@, ..old(self)@ }),
                forall|a: int| 0 <= a < k ==> self.memory@[a] == CHAR_SPRITES@[a],
                forall|a: int| k <= a < 4096 ==> self.memory@[a] == old(self).memory@[a],
            decreases 80 - k,
        {
            self.memory[k] = CHAR_SPRITES[k];
            k += 1;
        }
        assert(self.memory@ =~= old(self)@.load_sprites().memory);
    }

    /// The packed display: 256 bytes, column-major, for a renderer to read.
    pub fn frame_buffer(&self) -> (bytes: &[u8; 256])
        ensures
            bytes@ == self@.frame_buffer,
    {
        &self.frame_buffer
    }

    /// The 4096 bytes of memory.
    pub fn memory(&self) -> (bytes: &[u8; 0x1000])
        ensures
            bytes@ == self@.memory,
    {
        &self.memory
    }

    /// The registers V0 to VF.
    pub fn registers(&self) -> (values: &[u8; 0x10])
        ensures
            values@ == self@.registers,
    {
        &self.registers
    }

    /// The sixteen stack slots.
    pub fn stack(&self) -> (slots: &[u16; 0x10])
        ensures
            slots@ == self@.stack,
    {
        &self.stack
    }

    /// The number of calls outstanding, at most fifteen.
    pub fn sp(&self) -> (sp: u8)
        ensures
            sp == self@.sp,
            sp <= 15,
    {
        proof {
            use_type_invariant(&*self);
        }
        self.sp
    }

    /// The index register.
    pub fn i(&self) -> (i: u16)
        ensures
            i == self@.i,
    {
        self.i
    }

    /// The program counter.
    pub fn pc(&self) -> (pc: u16)
        ensures
            pc == self@.pc,
    {
        self.pc
    }

    /// The delay timer.
    pub fn dt(&self) -> (dt: u8)
        ensures
            dt == self@.dt,
    {
        self.dt
    }

    /// The sound timer.
    pub fn st(&self) -> (st: u8)
        ensures
            st == self@.st,
    {
        self.st
    }

    /// The keys held down, bit `k` for key `k`.
    pub fn key_state(&self) -> (keys: u16)
        ensures
            keys == self@.key_state,
    {
        self.key_state
    }

    /// Whether the machine runs, waits for a key, or has halted.
    pub fn status(&self) -> (status: Status)
        ensures
            status == self@.status,
    {
        self.status
    }

    /// Copies a program image into memory at the load address. Fails with
    /// `InputSizeError`, changing nothing, if the image is longer than the
    /// space from the load address to the end of memory.
    pub fn load_rom(&mut self, rom: &Vec<u8>) -> (r: Result<(), ErrorKind>)
        ensures
            old(self)@.ends_as(old(self)@.load_rom(rom@), r, final(self)@),
    {
        proof {
            use_type_invariant(&*self);
        }
        if rom.len() > 0x1000 - 0x200 {
            return Err(ErrorKind::InputSizeError);
        }
        let mut k: usize = 0;
        while k < rom.len()
            invariant
                k <= rom.len(),
                rom.len() <= 0x1000 - 0x200,
                self.inv(),
                self@ == (State { memory: self.memory@, ..old(self)@ }),
                forall|a: int|
                    0 <= a < 4096 ==> self.memory@[a] == if 0x200 <= a < 0x200 + k {
                        rom@[a - 0x200]
                    } else {
                        old(self).memory@[a]
                    },
            decreases rom.len() - k,
        {
            self.memory[0x200 + k] = rom[k];
            k += 1;
        }
        assert(self.memory@ =~= old(self)@.load_rom(rom@)->Ok_0.memory);
        Ok(())
    }

    /// Sets execution back to the start of the program and clears the
    /// display. Memory, registers, timers and keys are left as they are; a
    /// key wait or a halt is over.
    pub fn soft_reset(&mut self)
        ensures
            final(self)@ == old(self)@.soft_reset(),
    {
        proof {
            use_type_invariant(&*self);
        }
        self.pc = 0x200;
        self.i = 0x00;
        self.sp = 0x00;
        self.status = Status::Running;

        // Clear the framebuffer
        self.op_cls(0x00);
    }

    /// Records that key `key` went down. If the key was up and a key wait
    /// is in progress, the wait ends with `key` in the waiting register.
    pub fn set_key(&mut self, key: u8)
        requires
            key < 16,
        ensures
            final(self)@ == old(self)@.press(key),
    {
        proof {
            use_type_invariant(&*self);
        }
        if self.key_is_down(key) {
            return ;
        }
        self.key_state = self.key_state | (1u16 << key);
        if let Status::AwaitingKey { register } = self.status {
            self.registers[register as usize] = key;
            self.status = Status::Running;
        }
    }

    /// Records that key `key` went up.
    pub fn clear_key(&mut self, key: u8)
        requires
            key < 16,
        ensures
            final(self)@ == old(self)@.release(key),
    {
        proof {
            use_type_invariant(&*self);
        }
        self.key_state = self.key_state & !(1u16 << key);
    }

    /// Reads the big-endian instruction word at the program counter and
    /// moves the counter past it. Fails with `OutOfBoundsAccess`, changing
    /// nothing, if one of the two bytes lies beyond memory.
    pub fn fetch(&mut self) -> (r: Result<u16, ErrorKind>)
        ensures
            match r {
                Ok(inst) => old(self)@.fetch() == Ok::<(u16, State), ErrorKind>(
                    (inst, final(self)@),
                ),
                Err(kind) => old(self)@.fetch() == Err::<(u16, State), ErrorKind>(kind)
                    && final(self)@ == old(self)@,
            },
    {
        proof {
            use_type_invariant(&*self);
        }
        let at = self.pc as usize;
        if at + 1 >= 0x1000 {
            return Err(ErrorKind::OutOfBoundsAccess);
        }
        let high = self.memory[at];
        let low = self.memory[at + 1];
        assert((high as u16) << 8 | low as u16 == high * 256 + low) by (bit_vector);
        let result: u16 = (high as u16) << 8 | low as u16;

        self.pc += 2;
        Ok(result)
    }

    /// Executes one instruction word: decodes it and applies the operation
    /// it denotes. Fails with `DecodeFailure` if the word matches no opcode
    /// pattern, and with the operation's error if the operation fails; the
    /// machine is then unchanged. The random-number instruction draws its
    /// byte here, so the outcome is that of `State::execute` for some byte.
    pub fn execute(&mut self, inst: u16) -> (r: Result<(), ErrorKind>)
        ensures
            exists|random: u8|
                old(self)@.ends_as(
                    #[trigger] old(self)@.execute(inst, random),
                    r,
                    final(self)@,
                ),
    {
        let r = match decode(inst) {
            None => Err(ErrorKind::DecodeFailure),
            Some(Opcode::Cls) => {
                self.op_cls(inst);
                Ok(())
            },
            Some(Opcode::Ret) => self.op_ret(inst),
            Some(Opcode::Jp) => {
                self.op_jp(inst);
                Ok(())
            },
            Some(Opcode::Call) => self.op_call(inst),
            Some(Opcode::Se) => self.op_se(inst),
            Some(Opcode::Sne) => self.op_sne(inst),
            Some(Opcode::SeReg) => self.op_sereg(inst),
            Some(Opcode::Ld) => {
                self.op_ld(inst);
                Ok(())
            },
            Some(Opcode::Add) => {
                self.op_add(inst);
                Ok(())
            },
            Some(Opcode::LdReg) => {
                self.op_ldreg(inst);
                Ok(())
            },
            Some(Opcode::Or) => {
                self.op_or(inst);
                Ok(())
            },
            Some(Opcode::And) => {
                self.op_and(inst);
                Ok(())
            },
            Some(Opcode::Xor) => {
                self.op_xor(inst);
                Ok(())
            },
            Some(Opcode::AddCarry) => {
                self.op_addcarry(inst);
                Ok(())
            },
            Some(Opcode::Sub) => {
                self.op_sub(inst);
                Ok(())
            },
            Some(Opcode::Shr) => {
                self.op_shr(inst);
                Ok(())
            },
            Some(Opcode::Subn) => {
                self.op_subn(inst);
                Ok(())
            },
            Some(Opcode::Shl) => {
                self.op_shl(inst);
                Ok(())
            },
            Some(Opcode::SneReg) => self.op_snereg(inst),
            Some(Opcode::LdI) => {
                self.op_ldi(inst);
                Ok(())
            },
            Some(Opcode::JpOffset) => {
                self.op_jp_offset(inst);
                Ok(())
            },
            Some(Opcode::Rnd) => {
                self.op_rnd(inst);
                proof {
                    let random = choose|random: u8| self@ == old(self)@.rnd(inst, random);
                    assert(old(self)@.execute(inst, random) == Ok::<State, ErrorKind>(self@));
                }
                Ok(())
            },
            Some(Opcode::Drw) => self.op_drw(inst),
            Some(Opcode::Skp) => self.op_skp(inst),
            Some(Opcode::Sknp) => self.op_sknp(inst),
            Some(Opcode::LdRegDt) => {
                self.op_ldreg_dt(inst);
                Ok(())
            },
            Some(Opcode::LdRegKey) => {
                self.op_ldreg_key(inst);
                Ok(())
            },
            Some(Opcode::LdDtReg) => {
                self.op_lddt_reg(inst);
                Ok(())
            },
            Some(Opcode::LdStReg) => {
                self.op_ldst_reg(inst);
                Ok(())
            },
            Some(Opcode::AddIReg) => self.op_addi_reg(inst),
            Some(Opcode::LdF) => {
                self.op_ldf(inst);
                Ok(())
            },
            Some(Opcode::LdB) => self.op_ldb(inst),
            Some(Opcode::LdRegMem) => self.op_ldreg_mem(inst),
            Some(Opcode::LdMemReg) => self.op_ldmem_reg(inst),
        };
        proof {
            if !(crate::decode::spec_decode(inst) == Some(Opcode::Rnd)) {
                assert(old(self)@.ends_as(old(self)@.execute(inst, 0), r, self@));
            }
        }
        r
    }

    /// Lets both timers count down by one, unless they are at zero.
    pub fn tick_timers(&mut self)
        ensures
            final(self)@ == old(self)@.timers_ticked(),
    {
        proof {
            use_type_invariant(&*self);
        }
        if self.dt > 0 {
            self.dt -= 1;
        }
        if self.st > 0 {
            self.st -= 1;
        }
    }

    /// Advances the machine by one tick. A running machine fetches and
    /// executes the instruction at the program counter, and both timers
    /// count down; if the fetch or the instruction fails, the machine
    /// halts as it stood before the tick, with the failure, the
    /// instruction's address and its word on record. A machine that waits
    /// for a key only counts its timers down. A halted machine does not
    /// change.
    pub fn tick(&mut self)
        ensures
            exists|random: u8| final(self)@ == #[trigger] old(self)@.tick(random),
    {
        proof {
            use_type_invariant(&*self);
        }
        match self.status {
            Status::Halted { .. } => {
                assert(self@ == old(self)@.tick(0));
            },
            Status::AwaitingKey { .. } => {
                self.tick_timers();
                assert(self@ == old(self)@.tick(0));
            },
            Status::Running => {
                let address = self.pc;
                match self.fetch() {
                    Err(kind) => {
                        self.status = Status::Halted {
                            fault: Fault { kind, address, opcode: None },
                        };
                        assert(self@ == old(self)@.tick(0));
                    },
                    Ok(inst) => {
                        let ghost fetched = self@;
                        match self.execute(inst) {
                            Err(kind) => {
                                self.pc = address;
                                self.status = Status::Halted {
                                    fault: Fault { kind, address, opcode: Some(inst) },
                                };
                                proof {
                                    let random = choose|random: u8|
                                        fetched.ends_as(
                                            #[trigger] fetched.execute(inst, random),
                                            Err::<(), ErrorKind>(kind),
                                            fetched,
                                        );
                                    assert(self@ == old(self)@.tick(random));
                                }
                            },
                            Ok(()) => {
                                let ghost executed = self@;
                                self.tick_timers();
                                proof {
                                    let random = choose|random: u8|
                                        fetched.ends_as(
                                            #[trigger] fetched.execute(inst, random),
                                            Ok::<(), ErrorKind>(()),
                                            executed,
                                        );
                                    assert(self@ == old(self)@.tick(random));
                                }
                            },
                        }
                    },
                }
            },
        }
    }
}

} // verus!
