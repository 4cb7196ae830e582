use crate::decode::{spec_addr, spec_decode, spec_reg_x, Opcode};
use crate::display::lit_between;
use crate::display_laws::{law_blit_twice, law_second_draw_collides};
use crate::fault::{ErrorKind, Status};
use crate::state::State;
use vstd::prelude::*;

verus! {

/// The state at power-on is well formed.
pub proof fn law_initial_wf()
    ensures
        State::initial().wf(),
{
}

/// Whatever the instruction, a state that it produces is well formed again.
/// In particular the stack pointer never exceeds fifteen.
pub proof fn law_execute_keeps_wf(s: State, inst: u16, random: u8)
    requires
        s.wf(),
    ensures
        s.execute(inst, random) matches Ok(next) ==> next.wf(),
{
}

/// A tick leaves a well-formed state well formed.
pub proof fn law_tick_keeps_wf(s: State, random: u8)
    requires
        s.wf(),
    ensures
        s.tick(random).wf(),
{
    if s.status == Status::Running {
        if let Ok((inst, fetched)) = s.fetch() {
            law_execute_keeps_wf(fetched, inst, random);
        }
    }
}

/// Key events, a reset and the loading of a program leave a well-formed
/// state well formed.
pub proof fn law_host_calls_keep_wf(s: State, key: u8, rom: Seq<u8>)
    requires
        s.wf(),
        key < 16,
    ensures
        s.press(key).wf(),
        s.release(key).wf(),
        s.soft_reset().wf(),
        s.load_sprites().wf(),
        s.load_rom(rom) matches Ok(loaded) ==> loaded.wf(),
{
}

/// Only the random-number instruction depends on the byte drawn.
pub proof fn law_random_matters_to_rnd_only(s: State, inst: u16, r1: u8, r2: u8)
    requires
        spec_decode(inst) != Some(Opcode::Rnd),
    ensures
        s.execute(inst, r1) == s.execute(inst, r2),
{
}

/// Add with carry: VF ends as 1 if the sum of Vx and Vy exceeds 255 and as
/// 0 if it does not, whichever register X names. Vx ends as the sum modulo
/// 256, unless X names VF itself, which holds the flag.
pub proof fn law_addcarry(s: State, inst: u16)
    requires
        s.wf(),
    ensures
        s.addcarry(inst).registers[0xF] == 1 <==> s.vx(inst) + s.vy(inst) > 255,
        s.addcarry(inst).registers[0xF] == 0 <==> s.vx(inst) + s.vy(inst) <= 255,
        spec_reg_x(inst) != 0xF ==> s.addcarry(inst).vx(inst) == (s.vx(inst) + s.vy(inst)) % 256,
{
}

/// Subtract: VF ends as 1 if Vx was at least Vy and as 0 if it was not,
/// judged on the values before the subtraction, also where X names VF. Vx
/// ends as the difference modulo 256, unless X names VF itself.
pub proof fn law_sub(s: State, inst: u16)
    requires
        s.wf(),
    ensures
        s.sub(inst).registers[0xF] == 1 <==> s.vx(inst) >= s.vy(inst),
        s.sub(inst).registers[0xF] == 0 <==> s.vx(inst) < s.vy(inst),
        spec_reg_x(inst) != 0xF ==> s.sub(inst).vx(inst) == (s.vx(inst) - s.vy(inst)) % 256,
{
}

/// Reverse subtract: VF ends as 1 if Vy was at least Vx and as 0 if it was
/// not. Vx ends as Vy minus Vx modulo 256, unless X names VF itself.
pub proof fn law_subn(s: State, inst: u16)
    requires
        s.wf(),
    ensures
        s.subn(inst).registers[0xF] == 1 <==> s.vy(inst) >= s.vx(inst),
        s.subn(inst).registers[0xF] == 0 <==> s.vy(inst) < s.vx(inst),
        spec_reg_x(inst) != 0xF ==> s.subn(inst).vx(inst) == (s.vy(inst) - s.vx(inst)) % 256,
{
}

/// The shifts set VF from the bit that is shifted out of Vx, whatever Vx
/// becomes and whichever register X names: the lowest bit for a shift to
/// the right, the highest for a shift to the left. Unless X names VF, Vx
/// ends as the shifted value.
pub proof fn law_shifts(s: State, inst: u16)
    requires
        s.wf(),
    ensures
        s.shr(inst).registers[0xF] == s.vx(inst) & 1,
        s.shl(inst).registers[0xF] == (s.vx(inst) >> 7) & 1,
        spec_reg_x(inst) != 0xF ==> s.shr(inst).vx(inst) == s.vx(inst) >> 1,
        spec_reg_x(inst) != 0xF ==> s.shl(inst).vx(inst) == s.vx(inst) << 1,
{
    let v = s.vx(inst);
    assert(v & 1 == v % 2 && (v >> 7) & 1 == v / 128 && v >> 1 == v / 2 && v << 1 == (v * 2)
        % 256) by (bit_vector);
}

/// After the display has been cleared every byte of the frame buffer is
/// zero.
pub proof fn law_cls(s: State)
    ensures
        s.cls().frame_buffer.len() == 256,
        forall|idx: int| 0 <= idx < 256 ==> s.cls().frame_buffer[idx] == 0,
{
}

/// A return that follows a call restores the program counter to what it
/// was when the call was made, the address of the instruction after the
/// call, and the stack to its former depth.
pub proof fn law_call_then_ret(s: State, inst: u16)
    requires
        s.wf(),
        s.sp < 15,
    ensures
        ({
            &&& s.call(inst) matches Ok(called)
            &&& called.ret() matches Ok(back)
            &&& back.pc == s.pc
            &&& back.sp == s.sp
        }),
{
}

/// The same over two ticks: where the instruction at the program counter
/// is a call, and the instruction at its target is a return, two ticks
/// leave a running machine at the instruction after the call.
pub proof fn law_call_then_ret_ticks(s: State, r1: u8, r2: u8)
    requires
        s.wf(),
        s.status == Status::Running,
        s.sp < 15,
        s.pc + 1 < 0x1000,
        spec_decode(s.word_at(s.pc as int)) == Some(Opcode::Call),
        spec_addr(s.word_at(s.pc as int)) + 1 < 0x1000,
        s.word_at(spec_addr(s.word_at(s.pc as int)) as int) == 0x00EE,
    ensures
        s.tick(r1).tick(r2).pc == s.pc + 2,
        s.tick(r1).tick(r2).sp == s.sp,
        s.tick(r1).tick(r2).status == Status::Running,
{
    let (inst, fetched) = s.fetch()->Ok_0;
    let called = fetched.call(inst)->Ok_0;
    assert(fetched.execute(inst, r1) == Ok::<State, ErrorKind>(called));
    let first = s.tick(r1);
    assert(first == called.timers_ticked());
    let (word, at_target) = first.fetch()->Ok_0;
    assert(word == 0x00EE);
    assert(spec_decode(0x00EE) == Some(Opcode::Ret));
    assert(at_target.execute(word, r2) == at_target.ret());
}

/// Drawing a sprite a second time, with Vx and Vy as they were for the
/// first draw, gives back the frame buffer as it was before the first
/// draw, and sets VF to 1 if the first draw lit a pixel and to 0 if it lit
/// none.
pub proof fn law_draw_twice(s: State, inst: u16)
    requires
        s.wf(),
        ({
            &&& s.drw(inst) matches Ok(once)
            &&& once.vx(inst) == s.vx(inst)
            &&& once.vy(inst) == s.vy(inst)
        }),
    ensures
        ({
            &&& s.drw(inst) matches Ok(once)
            &&& once.drw(inst) matches Ok(twice)
            &&& twice.frame_buffer == s.frame_buffer
            &&& twice.registers[0xF] == 1 <==> exists|idx: int|
                0 <= idx < 256 && #[trigger] lit_between(
                    s.frame_buffer,
                    once.frame_buffer,
                    idx,
                )
            &&& twice.registers[0xF] == 0 || twice.registers[0xF] == 1
        }),
{
    let rows = s.sprite_rows(inst);
    let once = s.drw(inst)->Ok_0;
    assert(once.sprite_rows(inst) =~= rows);
    law_blit_twice(s.frame_buffer, rows, s.vx(inst), s.vy(inst));
    law_second_draw_collides(s.frame_buffer, rows, s.vx(inst), s.vy(inst));
}

/// A program of at most 0xE00 bytes is loaded, and no other. Loading
/// leaves the bytes below the load address, the font among them, and the
/// bytes above the image as they are.
pub proof fn law_load_rom(s: State, rom: Seq<u8>)
    requires
        s.wf(),
    ensures
        s.load_rom(rom) is Ok <==> rom.len() <= 0xE00,
        s.load_rom(rom) is Err ==> s.load_rom(rom) == Err::<State, ErrorKind>(
            ErrorKind::InputSizeError,
        ),
        s.load_rom(rom) matches Ok(loaded) ==> forall|a: int|
            0 <= a < 4096 ==> #[trigger] loaded.memory[a] == if 0x200 <= a < 0x200 + rom.len() {
                rom[a - 0x200]
            } else {
                s.memory[a]
            },
        rom.len() == 0 ==> s.load_rom(rom) == Ok::<State, ErrorKind>(s),
{
    if rom.len() == 0 {
        assert(s.load_rom(rom)->Ok_0.memory =~= s.memory);
    }
}

/// A halted machine stays as it is.
pub proof fn law_halt_is_final(s: State, random: u8)
    requires
        s.status is Halted,
    ensures
        s.tick(random) == s,
{
}

/// A tick that fails changes nothing but the status: the machine halts
/// with the program counter still at the instruction that failed.
pub proof fn law_failure_halts_in_place(s: State, random: u8)
    requires
        s.status == Status::Running,
        s.tick(random).status is Halted,
    ensures
        s.tick(random) == (State { status: s.tick(random).status, ..s }),
        s.tick(random).status->fault.address == s.pc,
{
    if let Ok((inst, fetched)) = s.fetch() {
        if let Ok(next) = fetched.execute(inst, random) {
            assert(next.status !is Halted);
        }
    }
}

/// While the machine waits for a key, a tick executes nothing: only the
/// timers count down.
pub proof fn law_key_wait_freezes(s: State, random: u8)
    requires
        s.status is AwaitingKey,
    ensures
        s.tick(random) == s.timers_ticked(),
        s.tick(random).pc == s.pc,
        s.tick(random).status == s.status,
{
}

/// A key that goes from released to pressed during a key wait ends the
/// wait: the waiting register holds the key's index and the machine runs
/// again. A key that is already held ends nothing.
pub proof fn law_press_ends_key_wait(s: State, key: u8)
    requires
        s.wf(),
        key < 16,
        s.status is AwaitingKey,
    ensures
        !crate::state::key_down(s.key_state, key) ==> s.press(key).status == Status::Running
            && s.press(key).registers[s.status->register as int] == key,
        crate::state::key_down(s.key_state, key) ==> s.press(key) == s,
        crate::state::key_down(s.press(key).key_state, key),
{
    let ks = s.key_state;
    assert((ks | (1u16 << key)) & (1u16 << key) != 0) by (bit_vector)
        requires
            key < 16,
    ;
}

} // verus!
