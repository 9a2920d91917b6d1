//! Machine-level laws, proved once and for all over the step relation: the
//! arithmetic flag conventions, the flag-register exclusion quirk, the
//! wait-for-key state machine, the register-block round trip, and scroll
//! idempotence.

use vstd::prelude::*;
use crate::cpu::CPU;
use crate::cpu::Chip8Error;
use crate::cpu::StepOutcome;
use crate::decode::Instr;
use crate::decode::decode_spec;
use crate::exec::pc_plus;
use crate::exec::wrap_addr;
use crate::video::pix;
use crate::step::fetch_spec;
use crate::step::first_pressed;
use crate::step::step_rel;

verus! {

/// Arithmetic wraparound: the add-with-carry instruction leaves
/// `(VX + VY) mod 256` in the destination and raises VF exactly when the
/// true sum exceeds 255, for every pair of register values.
pub proof fn add_with_carry_wraps(
    pre: CPU,
    rand: u8,
    post: CPU,
    r: Result<StepOutcome, Chip8Error>,
    x: usize,
    y: usize,
)
    requires
        pre.wf(),
        pre.awaiting_key is None,
        decode_spec(fetch_spec(pre)) == Instr::Add(x, y),
        x < 16,
        y < 16,
        step_rel(pre, rand, post, r),
    ensures
        post.v@[15] == (if pre.v@[x as int] + pre.v@[y as int] > 255 {
            1u8
        } else {
            0u8
        }),
        x != 15 ==> post.v@[x as int] == ((pre.v@[x as int] + pre.v@[y as int]) % 256) as u8,
        r == Ok::<StepOutcome, Chip8Error>(StepOutcome::Proceed),
{
}

/// Borrow convention: subtraction raises VF exactly when no borrow occurs
/// (`VX >= VY`) and clears it exactly when one does (`VX < VY`), the inverse
/// of the usual hardware flag.
pub proof fn sub_borrow_convention(
    pre: CPU,
    rand: u8,
    post: CPU,
    r: Result<StepOutcome, Chip8Error>,
    x: usize,
    y: usize,
)
    requires
        pre.wf(),
        pre.awaiting_key is None,
        decode_spec(fetch_spec(pre)) == Instr::Sub(x, y),
        x < 16,
        y < 16,
        step_rel(pre, rand, post, r),
    ensures
        post.v@[15] == (if pre.v@[x as int] >= pre.v@[y as int] {
            1u8
        } else {
            0u8
        }),
        x != 15 ==> post.v@[x as int] == (if pre.v@[x as int] >= pre.v@[y as int] {
            pre.v@[x as int] - pre.v@[y as int]
        } else {
            pre.v@[x as int] - pre.v@[y as int] + 256
        }) as u8,
{
}

/// Shift quirk: shift-left operates on a single register, stores the
/// pre-shift high bit (the 0x80 mask of the source) in VF, and writes
/// `(value * 2) mod 256` back to the same register.
pub proof fn shl_captures_high_bit(
    pre: CPU,
    rand: u8,
    post: CPU,
    r: Result<StepOutcome, Chip8Error>,
    x: usize,
)
    requires
        pre.wf(),
        pre.awaiting_key is None,
        decode_spec(fetch_spec(pre)) == Instr::Shl(x),
        x < 16,
        x != 15,
        step_rel(pre, rand, post, r),
    ensures
        post.v@[15] == pre.v@[x as int] & 0x80,
        post.v@[x as int] == ((pre.v@[x as int] * 2) % 256) as u8,
{
    let a = pre.v@[x as int];
    assert(a & 0x80 == (if a >= 128 {
        128u8
    } else {
        0u8
    })) by (bit_vector);
}

/// The flag-register exclusion quirk for add-immediate: with X = F the
/// register file is left entirely unchanged while the program counter still
/// advances.
pub proof fn vf_add_imm_exclusion(
    pre: CPU,
    rand: u8,
    post: CPU,
    r: Result<StepOutcome, Chip8Error>,
    nn: u8,
)
    requires
        pre.wf(),
        pre.awaiting_key is None,
        decode_spec(fetch_spec(pre)) == Instr::AddImm(15, nn),
        step_rel(pre, rand, post, r),
    ensures
        post.v == pre.v,
        post.pc == pc_plus(pre.pc, 2),
{
}

/// The flag-register exclusion quirk for add-to-index: with X = F the index
/// register is left unchanged while the program counter still advances.
pub proof fn vf_add_index_exclusion(
    pre: CPU,
    rand: u8,
    post: CPU,
    r: Result<StepOutcome, Chip8Error>,
)
    requires
        pre.wf(),
        pre.awaiting_key is None,
        decode_spec(fetch_spec(pre)) == Instr::AddIndex(15),
        step_rel(pre, rand, post, r),
    ensures
        post.i == pre.i,
        post.pc == pc_plus(pre.pc, 2),
{
}

/// With no key pressed at or above index `j`, the scan finds none.
proof fn lemma_none_pressed_from(keys: Seq<bool>, j: int)
    requires
        keys.len() == 16,
        forall|k: int| 0 <= k < 16 ==> !keys[k],
        0 <= j <= 16,
    ensures
        first_pressed(keys, j) == 16,
    decreases 16 - j,
{
    if j < 16 {
        lemma_none_pressed_from(keys, j + 1);
    }
}

/// Key-wait idling: a step taken in the AwaitingKey state with no key
/// pressed changes nothing at all; in particular the program counter stays
/// on the wait instruction, however often this repeats.
pub proof fn awaiting_key_idle(
    pre: CPU,
    rand: u8,
    post: CPU,
    r: Result<StepOutcome, Chip8Error>,
    xr: u8,
)
    requires
        pre.wf(),
        pre.awaiting_key == Some(xr),
        forall|k: int| 0 <= k < 16 ==> !pre.key@[k],
        step_rel(pre, rand, post, r),
    ensures
        post == pre,
        r == Ok::<StepOutcome, Chip8Error>(StepOutcome::Proceed),
{
    lemma_none_pressed_from(pre.key@, 0);
}

/// Key-wait resumption: once some key is pressed, the very next step writes
/// the lowest pressed key's index into the captured destination register,
/// advances the program counter past the wait instruction and returns to
/// Running, all in that single step.
pub proof fn awaiting_key_resumes(
    pre: CPU,
    rand: u8,
    post: CPU,
    r: Result<StepOutcome, Chip8Error>,
    xr: u8,
    k: int,
)
    requires
        pre.wf(),
        pre.awaiting_key == Some(xr),
        0 <= k < 16,
        pre.key@[k],
        step_rel(pre, rand, post, r),
    ensures
        post.v@[xr as int] == first_pressed(pre.key@, 0) as u8,
        first_pressed(pre.key@, 0) <= k,
        post.pc == pc_plus(pre.pc, 2),
        post.awaiting_key is None,
{
    lemma_first_pressed_le(pre.key@, 0, k);
}

/// A pressed key bounds the scan result from above.
proof fn lemma_first_pressed_le(keys: Seq<bool>, j: int, k: int)
    requires
        keys.len() == 16,
        0 <= j <= k < 16,
        keys[k],
    ensures
        j <= first_pressed(keys, j) <= k,
    decreases k - j,
{
    if j < k && !keys[j] {
        lemma_first_pressed_le(keys, j + 1, k);
    }
}

/// Register-block round trip: after a block save of V0..=VX, a later load
/// of the same block restores V0..=VX exactly, whatever happened to the
/// registers in between, provided the memory image and the index register
/// are as the save left them.
pub proof fn save_load_round_trip(
    pre: CPU,
    rand1: u8,
    mid: CPU,
    r1: Result<StepOutcome, Chip8Error>,
    s2: CPU,
    rand2: u8,
    post: CPU,
    r2: Result<StepOutcome, Chip8Error>,
    x: usize,
)
    requires
        pre.wf(),
        s2.wf(),
        pre.awaiting_key is None,
        s2.awaiting_key is None,
        x < 16,
        decode_spec(fetch_spec(pre)) == Instr::SaveRegs(x),
        step_rel(pre, rand1, mid, r1),
        decode_spec(fetch_spec(s2)) == Instr::LoadRegs(x),
        s2.memory@ == mid.memory@,
        s2.i == pre.i,
        step_rel(s2, rand2, post, r2),
    ensures
        forall|j: int| 0 <= j <= x ==> post.v@[j] == pre.v@[j],
{
}

/// Scroll idempotence: scrolling left by 4 and then right by 4 restores
/// every pixel except those of the 4 columns nearest the left edge, which
/// were shifted out and stay cleared.
pub proof fn scroll_left_right_restores(
    pre: CPU,
    rand1: u8,
    mid: CPU,
    r1: Result<StepOutcome, Chip8Error>,
    rand2: u8,
    post: CPU,
    r2: Result<StepOutcome, Chip8Error>,
)
    requires
        pre.wf(),
        pre.awaiting_key is None,
        mid.awaiting_key is None,
        decode_spec(fetch_spec(pre)) == Instr::ScrollLeft,
        step_rel(pre, rand1, mid, r1),
        decode_spec(fetch_spec(mid)) == Instr::ScrollRight,
        step_rel(mid, rand2, post, r2),
    ensures
        forall|x: int, y: int|
            0 <= x < 128 && 0 <= y < 64 ==> pix(post.graphics@, x, y) == (if x >= 4 {
                pix(pre.graphics@, x, y)
            } else {
                0u8
            }),
{
    assert forall|x: int, y: int| 0 <= x < 128 && 0 <= y < 64 implies pix(post.graphics@, x, y)
        == (if x >= 4 {
        pix(pre.graphics@, x, y)
    } else {
        0u8
    }) by {
        if x >= 4 {
            assert(pix(post.graphics@, x, y) == pix(mid.graphics@, x - 4, y));
            assert(pix(mid.graphics@, x - 4, y) == pix(pre.graphics@, x, y));
        }
    }
}

} // verus!
