use crate::decode::{
    spec_addr, spec_decode, spec_imm4, spec_imm8, spec_reg_x, spec_reg_y, Opcode,
};
use crate::display::{blank, blit, collides};
use crate::fault::{ErrorKind, Fault, Status};
use crate::font::CHAR_SPRITES;
use vstd::prelude::*;

verus! {

/// The machine as a mathematical value: what every contract of the
/// interpreter is stated over.
pub struct State {
    /// The 4096 bytes of memory.
    pub memory: Seq<u8>,
    /// The registers V0 to VF.
    pub registers: Seq<u8>,
    /// The sixteen stack slots; slot `sp` holds the latest return address.
    pub stack: Seq<u16>,
    /// Number of calls outstanding.
    pub sp: u8,
    /// The index register.
    pub i: u16,
    /// The program counter.
    pub pc: u16,
    /// The delay timer.
    pub dt: u8,
    /// The sound timer.
    pub st: u8,
    /// One bit per key, bit `k` set while key `k` is held down.
    pub key_state: u16,
    /// The 256 bytes of the packed display.
    pub frame_buffer: Seq<u8>,
    /// Whether the machine runs, waits for a key, or has halted.
    pub status: Status,
}

/// Whether key `key` is held down in the mask `key_state`.
pub open spec fn key_down(key_state: u16, key: u8) -> bool {
    key < 16 && key_state & (1u16 << key) != 0
}

/// A timer after one tick: one less, unless it is already at zero.
pub open spec fn count_down(timer: u8) -> u8 {
    if timer > 0 {
        (timer - 1) as u8
    } else {
        0
    }
}

impl State {
    /// The shape that every machine state has.
    pub open spec fn wf(self) -> bool {
        &&& self.memory.len() == 4096
        &&& self.registers.len() == 16
        &&& self.stack.len() == 16
        &&& self.frame_buffer.len() == 256
        &&& self.sp <= 15
        &&& (self.status matches Status::AwaitingKey { register } ==> register < 16)
    }

    /// The state at power-on: the glyph font at the bottom of memory, all
    /// else zero, execution about to start at the load address.
    pub open spec fn initial() -> State {
        State {
            memory: Seq::new(
                4096,
                |a: int|
                    if a < 80 {
                        CHAR_SPRITES@[a]
                    } else {
                        0u8
                    },
            ),
            registers: Seq::new(16, |r: int| 0u8),
            stack: Seq::new(16, |d: int| 0u16),
            sp: 0,
            i: 0,
            pc: 0x200,
            dt: 0,
            st: 0,
            key_state: 0,
            frame_buffer: blank(),
            status: Status::Running,
        }
    }

    /// An operation that was to turn this state into `expected` has ended
    /// with result `r` in state `after`: where it was to succeed it has, and
    /// `after` is the state expected; where it was to fail it has failed with
    /// the error expected, and nothing has changed.
    pub open spec fn ends_as(
        self,
        expected: Result<State, ErrorKind>,
        r: Result<(), ErrorKind>,
        after: State,
    ) -> bool {
        match expected {
            Ok(next) => r is Ok && after == next,
            Err(kind) => r == Err::<(), ErrorKind>(kind) && after == self,
        }
    }

    /// The value of register X of the instruction.
    pub open spec fn vx(self, inst: u16) -> u8 {
        self.registers[spec_reg_x(inst) as int]
    }

    /// The value of register Y of the instruction.
    pub open spec fn vy(self, inst: u16) -> u8 {
        self.registers[spec_reg_y(inst) as int]
    }

    /// This state with register `r` set to `v`.
    pub open spec fn with_reg(self, r: u8, v: u8) -> State {
        State { registers: self.registers.update(r as int, v), ..self }
    }

    /// This state with VF set to `v`.
    pub open spec fn with_flag(self, v: u8) -> State {
        self.with_reg(0xF, v)
    }

    /// This state with the program counter moved past the next instruction
    /// if `cond` holds. The move fails where the counter cannot hold the
    /// new address.
    pub open spec fn skip_if(self, cond: bool) -> Result<State, ErrorKind> {
        if !cond {
            Ok(self)
        } else if self.pc + 2 > 0xFFFF {
            Err(ErrorKind::OutOfBoundsAccess)
        } else {
            Ok(State { pc: (self.pc + 2) as u16, ..self })
        }
    }

    /// The font loaded into the bottom of memory.
    pub open spec fn load_sprites(self) -> State {
        State {
            memory: Seq::new(
                4096,
                |a: int|
                    if a < 80 {
                        CHAR_SPRITES@[a]
                    } else {
                        self.memory[a]
                    },
            ),
            ..self
        }
    }

    /// A program image copied to the load address. An image that does not
    /// fit between the load address and the end of memory is refused.
    pub open spec fn load_rom(self, rom: Seq<u8>) -> Result<State, ErrorKind> {
        if rom.len() > 0x1000 - 0x200 {
            Err(ErrorKind::InputSizeError)
        } else {
            Ok(
                State {
                    memory: Seq::new(
                        4096,
                        |a: int|
                            if 0x200 <= a < 0x200 + rom.len() {
                                rom[a - 0x200]
                            } else {
                                self.memory[a]
                            },
                    ),
                    ..self
                },
            )
        }
    }

    /// Execution set back to the start of the program with a dark display.
    /// Memory, registers, timers and keys stay as they are.
    pub open spec fn soft_reset(self) -> State {
        State {
            pc: 0x200,
            i: 0,
            sp: 0,
            frame_buffer: blank(),
            status: Status::Running,
            ..self
        }
    }

    /// Key `key` going down. A key that was up is recorded as held, and a
    /// pending key wait ends with the key's index in the waiting register.
    /// A key that is already down is no press.
    pub open spec fn press(self, key: u8) -> State {
        if key_down(self.key_state, key) {
            self
        } else {
            let held = State { key_state: self.key_state | (1u16 << key), ..self };
            match self.status {
                Status::AwaitingKey { register } => State {
                    status: Status::Running,
                    ..held.with_reg(register, key)
                },
                _ => held,
            }
        }
    }

    /// Key `key` going up.
    pub open spec fn release(self, key: u8) -> State {
        State { key_state: self.key_state & !(1u16 << key), ..self }
    }

    /// Both timers after one tick.
    pub open spec fn timers_ticked(self) -> State {
        State { dt: count_down(self.dt), st: count_down(self.st), ..self }
    }

    /// The machine stopped for good, with the reason on record.
    pub open spec fn halted(self, fault: Fault) -> State {
        State { status: Status::Halted { fault }, ..self }
    }

    /// The big-endian sixteen-bit word whose first byte is at `at`.
    pub open spec fn word_at(self, at: int) -> u16 {
        (self.memory[at] * 256 + self.memory[at + 1]) as u16
    }

    /// The instruction word at the program counter, and the state with the
    /// counter moved past it. Both bytes must lie within memory.
    pub open spec fn fetch(self) -> Result<(u16, State), ErrorKind> {
        if self.pc + 1 >= 0x1000 {
            Err(ErrorKind::OutOfBoundsAccess)
        } else {
            Ok((self.word_at(self.pc as int), State { pc: (self.pc + 2) as u16, ..self }))
        }
    }

    /// `00E0`: every pixel dark.
    pub open spec fn cls(self) -> State {
        State { frame_buffer: blank(), ..self }
    }

    /// `00EE`: back to the latest return address.
    pub open spec fn ret(self) -> Result<State, ErrorKind> {
        if self.sp == 0 {
            Err(ErrorKind::StackUnderflow)
        } else {
            Ok(State { pc: self.stack[self.sp as int], sp: (self.sp - 1) as u8, ..self })
        }
    }

    /// `1NNN`: jump to NNN.
    pub open spec fn jp(self, inst: u16) -> State {
        State { pc: spec_addr(inst), ..self }
    }

    /// `2NNN`: call the subroutine at NNN.
    pub open spec fn call(self, inst: u16) -> Result<State, ErrorKind> {
        if self.sp >= 15 {
            Err(ErrorKind::StackOverflow)
        } else {
            Ok(
                State {
                    sp: (self.sp + 1) as u8,
                    stack: self.stack.update(self.sp + 1, self.pc),
                    pc: spec_addr(inst),
                    ..self
                },
            )
        }
    }

    /// `3XNN`: skip if Vx equals NN.
    pub open spec fn se(self, inst: u16) -> Result<State, ErrorKind> {
        self.skip_if(self.vx(inst) == spec_imm8(inst))
    }

    /// `4XNN`: skip if Vx differs from NN.
    pub open spec fn sne(self, inst: u16) -> Result<State, ErrorKind> {
        self.skip_if(self.vx(inst) != spec_imm8(inst))
    }

    /// `5XY0`: skip if Vx equals Vy.
    pub open spec fn sereg(self, inst: u16) -> Result<State, ErrorKind> {
        self.skip_if(self.vx(inst) == self.vy(inst))
    }

    /// `6XNN`: Vx becomes NN.
    pub open spec fn ld(self, inst: u16) -> State {
        self.with_reg(spec_reg_x(inst), spec_imm8(inst))
    }

    /// `7XNN`: Vx becomes Vx + NN modulo 256; no flag changes.
    pub open spec fn add(self, inst: u16) -> State {
        self.with_reg(spec_reg_x(inst), ((self.vx(inst) + spec_imm8(inst)) % 256) as u8)
    }

    /// `8XY0`: Vx becomes Vy.
    pub open spec fn ldreg(self, inst: u16) -> State {
        self.with_reg(spec_reg_x(inst), self.vy(inst))
    }

    /// `8XY1`: Vx becomes Vx OR Vy.
    pub open spec fn or(self, inst: u16) -> State {
        self.with_reg(spec_reg_x(inst), self.vx(inst) | self.vy(inst))
    }

    /// `8XY2`: Vx becomes Vx AND Vy.
    pub open spec fn and(self, inst: u16) -> State {
        self.with_reg(spec_reg_x(inst), self.vx(inst) & self.vy(inst))
    }

    /// `8XY3`: Vx becomes Vx XOR Vy.
    pub open spec fn xor(self, inst: u16) -> State {
        self.with_reg(spec_reg_x(inst), self.vx(inst) ^ self.vy(inst))
    }

    /// `8XY4`: Vx becomes the low eight bits of Vx + Vy, then VF the carry.
    pub open spec fn addcarry(self, inst: u16) -> State {
        let sum = self.vx(inst) + self.vy(inst);
        self.with_reg(spec_reg_x(inst), (sum % 256) as u8).with_flag(
            if sum > 255 {
                1u8
            } else {
                0u8
            },
        )
    }

    /// `8XY5`: Vx becomes Vx - Vy modulo 256, then VF is 1 if no borrow was
    /// needed, judged on the operands as they were.
    pub open spec fn sub(self, inst: u16) -> State {
        let vx = self.vx(inst);
        let vy = self.vy(inst);
        self.with_reg(spec_reg_x(inst), ((vx - vy) % 256) as u8).with_flag(
            if vx >= vy {
                1u8
            } else {
                0u8
            },
        )
    }

    /// `8XY6`: Vx is halved, then VF is the bit that was shifted out.
    pub open spec fn shr(self, inst: u16) -> State {
        let vx = self.vx(inst);
        self.with_reg(spec_reg_x(inst), vx / 2).with_flag(vx % 2)
    }

    /// `8XY7`: Vx becomes Vy - Vx modulo 256, then VF is 1 if no borrow was
    /// needed, judged on the operands as they were.
    pub open spec fn subn(self, inst: u16) -> State {
        let vx = self.vx(inst);
        let vy = self.vy(inst);
        self.with_reg(spec_reg_x(inst), ((vy - vx) % 256) as u8).with_flag(
            if vy >= vx {
                1u8
            } else {
                0u8
            },
        )
    }

    /// `8XYE`: Vx is doubled modulo 256, then VF is the bit that was shifted
    /// out.
    pub open spec fn shl(self, inst: u16) -> State {
        let vx = self.vx(inst);
        self.with_reg(spec_reg_x(inst), ((vx * 2) % 256) as u8).with_flag(vx / 128)
    }

    /// `9XY0`: skip if Vx differs from Vy.
    pub open spec fn snereg(self, inst: u16) -> Result<State, ErrorKind> {
        self.skip_if(self.vx(inst) != self.vy(inst))
    }

    /// `ANNN`: I becomes NNN.
    pub open spec fn ldi(self, inst: u16) -> State {
        State { i: spec_addr(inst), ..self }
    }

    /// `BNNN`: jump to NNN + V0.
    pub open spec fn jp_offset(self, inst: u16) -> State {
        State { pc: (spec_addr(inst) + self.registers[0]) as u16, ..self }
    }

    /// `CXNN`: Vx becomes the random byte masked by NN.
    pub open spec fn rnd(self, inst: u16, random: u8) -> State {
        self.with_reg(spec_reg_x(inst), random & spec_imm8(inst))
    }

    /// The N sprite rows that a draw instruction reads, starting at I.
    pub open spec fn sprite_rows(self, inst: u16) -> Seq<u8> {
        Seq::new(spec_imm4(inst) as nat, |k: int| self.memory[self.i + k])
    }

    /// `DXYN`: the N-row sprite at I is drawn at (Vx, Vy), then VF tells
    /// whether it collided. A sprite whose rows leave memory or the bottom
    /// of the display is refused.
    pub open spec fn drw(self, inst: u16) -> Result<State, ErrorKind> {
        let n = spec_imm4(inst);
        let x = self.vx(inst);
        let y = self.vy(inst);
        let rows = self.sprite_rows(inst);
        if n > 0 && (self.i + n > 0x1000 || y + n > 32) {
            Err(ErrorKind::OutOfBoundsAccess)
        } else {
            Ok(
                State {
                    frame_buffer: blit(self.frame_buffer, rows, x, y),
                    ..self.with_flag(
                        if collides(self.frame_buffer, rows, x, y) {
                            1u8
                        } else {
                            0u8
                        },
                    )
                },
            )
        }
    }

    /// `EX9E`: skip if the key numbered Vx is down.
    pub open spec fn skp(self, inst: u16) -> Result<State, ErrorKind> {
        self.skip_if(key_down(self.key_state, self.vx(inst)))
    }

    /// `EXA1`: skip if the key numbered Vx is up.
    pub open spec fn sknp(self, inst: u16) -> Result<State, ErrorKind> {
        self.skip_if(!key_down(self.key_state, self.vx(inst)))
    }

    /// `FX07`: Vx becomes the delay timer.
    pub open spec fn ldreg_dt(self, inst: u16) -> State {
        self.with_reg(spec_reg_x(inst), self.dt)
    }

    /// `FX0A`: the machine starts to wait for a key press, which will be
    /// stored in Vx.
    pub open spec fn ldreg_key(self, inst: u16) -> State {
        State { status: Status::AwaitingKey { register: spec_reg_x(inst) }, ..self }
    }

    /// `FX15`: the delay timer becomes Vx.
    pub open spec fn lddt_reg(self, inst: u16) -> State {
        State { dt: self.vx(inst), ..self }
    }

    /// `FX18`: the sound timer becomes Vx.
    pub open spec fn ldst_reg(self, inst: u16) -> State {
        State { st: self.vx(inst), ..self }
    }

    /// `FX1E`: I becomes I + Vx, which must fit in sixteen bits.
    pub open spec fn addi_reg(self, inst: u16) -> Result<State, ErrorKind> {
        if self.i + self.vx(inst) > 0xFFFF {
            Err(ErrorKind::OutOfBoundsAccess)
        } else {
            Ok(State { i: (self.i + self.vx(inst)) as u16, ..self })
        }
    }

    /// `FX29`: I becomes the address of the glyph for Vx, five bytes each.
    pub open spec fn ldf(self, inst: u16) -> State {
        State { i: (self.vx(inst) * 5) as u16, ..self }
    }

    /// `FX33`: the hundreds, tens and ones of Vx go to memory at I, I+1 and
    /// I+2.
    pub open spec fn ldb(self, inst: u16) -> Result<State, ErrorKind> {
        let vx = self.vx(inst);
        if self.i + 2 >= 0x1000 {
            Err(ErrorKind::OutOfBoundsAccess)
        } else {
            Ok(
                State {
                    memory: self.memory.update(self.i as int, vx / 100).update(
                        self.i + 1,
                        (vx / 10) % 10,
                    ).update(self.i + 2, vx % 10),
                    ..self
                },
            )
        }
    }

    /// `FX55`: V0 to Vx go to memory starting at I.
    pub open spec fn ldreg_mem(self, inst: u16) -> Result<State, ErrorKind> {
        let x = spec_reg_x(inst);
        if self.i + x >= 0x1000 {
            Err(ErrorKind::OutOfBoundsAccess)
        } else {
            Ok(
                State {
                    memory: Seq::new(
                        4096,
                        |a: int|
                            if self.i <= a <= self.i + x {
                                self.registers[a - self.i]
                            } else {
                                self.memory[a]
                            },
                    ),
                    ..self
                },
            )
        }
    }

    /// `FX65`: V0 to Vx are filled from memory starting at I.
    pub open spec fn ldmem_reg(self, inst: u16) -> Result<State, ErrorKind> {
        let x = spec_reg_x(inst);
        if self.i + x >= 0x1000 {
            Err(ErrorKind::OutOfBoundsAccess)
        } else {
            Ok(
                State {
                    registers: Seq::new(
                        16,
                        |r: int|
                            if r <= x {
                                self.memory[self.i + r]
                            } else {
                                self.registers[r]
                            },
                    ),
                    ..self
                },
            )
        }
    }

    /// The effect of one instruction word. `random` is the byte that the
    /// random-number instruction draws; no other instruction looks at it.
    pub open spec fn execute(self, inst: u16, random: u8) -> Result<State, ErrorKind> {
        match spec_decode(inst) {
            None => Err(ErrorKind::DecodeFailure),
            Some(Opcode::Cls) => Ok(self.cls()),
            Some(Opcode::Ret) => self.ret(),
            Some(Opcode::Jp) => Ok(self.jp(inst)),
            Some(Opcode::Call) => self.call(inst),
            Some(Opcode::Se) => self.se(inst),
            Some(Opcode::Sne) => self.sne(inst),
            Some(Opcode::SeReg) => self.sereg(inst),
            Some(Opcode::Ld) => Ok(self.ld(inst)),
            Some(Opcode::Add) => Ok(self.add(inst)),
            Some(Opcode::LdReg) => Ok(self.ldreg(inst)),
            Some(Opcode::Or) => Ok(self.or(inst)),
            Some(Opcode::And) => Ok(self.and(inst)),
            Some(Opcode::Xor) => Ok(self.xor(inst)),
            Some(Opcode::AddCarry) => Ok(self.addcarry(inst)),
            Some(Opcode::Sub) => Ok(self.sub(inst)),
            Some(Opcode::Shr) => Ok(self.shr(inst)),
            Some(Opcode::Subn) => Ok(self.subn(inst)),
            Some(Opcode::Shl) => Ok(self.shl(inst)),
            Some(Opcode::SneReg) => self.snereg(inst),
            Some(Opcode::LdI) => Ok(self.ldi(inst)),
            Some(Opcode::JpOffset) => Ok(self.jp_offset(inst)),
            Some(Opcode::Rnd) => Ok(self.rnd(inst, random)),
            Some(Opcode::Drw) => self.drw(inst),
            Some(Opcode::Skp) => self.skp(inst),
            Some(Opcode::Sknp) => self.sknp(inst),
            Some(Opcode::LdRegDt) => Ok(self.ldreg_dt(inst)),
            Some(Opcode::LdRegKey) => Ok(self.ldreg_key(inst)),
            Some(Opcode::LdDtReg) => Ok(self.lddt_reg(inst)),
            Some(Opcode::LdStReg) => Ok(self.ldst_reg(inst)),
            Some(Opcode::AddIReg) => self.addi_reg(inst),
            Some(Opcode::LdF) => Ok(self.ldf(inst)),
            Some(Opcode::LdB) => self.ldb(inst),
            Some(Opcode::LdRegMem) => self.ldreg_mem(inst),
            Some(Opcode::LdMemReg) => self.ldmem_reg(inst),
        }
    }

    /// One tick of the machine. While running, the instruction at the
    /// program counter is fetched and executed and both timers count down;
    /// a failure halts the machine where it stood, with the address and the
    /// word of the instruction on record. While waiting for a key only the
    /// timers count down. A halted machine stays as it is.
    pub open spec fn tick(self, random: u8) -> State {
        match self.status {
            Status::Halted { .. } => self,
            Status::AwaitingKey { .. } => self.timers_ticked(),
            Status::Running => match self.fetch() {
                Err(kind) => self.halted(Fault { kind, address: self.pc, opcode: None }),
                Ok((inst, fetched)) => match fetched.execute(inst, random) {
                    Err(kind) => self.halted(
                        Fault { kind, address: self.pc, opcode: Some(inst) },
                    ),
                    Ok(next) => next.timers_ticked(),
                },
            },
        }
    }
}

} // verus!
