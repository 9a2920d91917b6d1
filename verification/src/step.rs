//! The per-step execution engine: fetch the opcode at the program counter,
//! decode it, execute exactly one instruction's effect, and report the
//! outcome. The engine has two control states: Running, and AwaitingKey
//! after the wait-for-key instruction, in which no fetch happens and the key
//! vector is scanned instead on every step.
//!
//! [`step_rel`] is the step relation: it pins, case by case over the decoded
//! instruction, the entire post-state and result of
//! [`CPU::emulate_cycle`] as a function of the pre-state and the supplied
//! random byte.

use vstd::prelude::*;
use crate::cpu::CPU;
use crate::cpu::Chip8Error;
use crate::cpu::StepOutcome;
use crate::decode::Instr;
use crate::decode::decode;
use crate::decode::decode_spec;
use crate::exec::pc_plus;
use crate::exec::wrap_addr;
use crate::exec::eq_except_pc;
use crate::exec::eq_except_v_pc;
use crate::exec::eq_except_i_pc;
use crate::exec::eq_except_mem_pc;
use crate::exec::eq_except_stack_pc;
use crate::exec::eq_except_sp_pc;
use crate::exec::eq_except_mode_pc;
use crate::exec::eq_except_delay_pc;
use crate::exec::eq_except_sound_pc;
use crate::exec::eq_except_rpl_pc;
use crate::video::pix;
use crate::video::draw_result;
use crate::video::eq_except_gfx_pc;
use crate::video::eq_except_gfx_v_draw_pc;

verus! {

/// The opcode word formed from the two bytes at the program counter; the
/// second byte's address wraps at the end of memory.
pub open spec fn fetch_spec(c: CPU) -> u16 {
    ((c.memory@[c.pc as int] * 256 + c.memory@[(c.pc + 1) % 4096]) as u16)
}

/// The lowest-indexed pressed key at or above `j`, or 16 when none is
/// pressed.
pub open spec fn first_pressed(keys: Seq<bool>, j: int) -> int
    decreases 16 - j,
{
    if j < 0 || j >= 16 {
        16
    } else if keys[j] {
        j
    } else {
        first_pressed(keys, j + 1)
    }
}

/// All fields except the wait-for-key capture agree; in particular the
/// program counter is unchanged.
pub open spec fn eq_except_wait(a: CPU, b: CPU) -> bool {
    &&& b.memory == a.memory
    &&& b.v == a.v
    &&& b.i == a.i
    &&& b.pc == a.pc
    &&& b.graphics == a.graphics
    &&& b.delay_timer == a.delay_timer
    &&& b.sound_timer == a.sound_timer
    &&& b.stack == a.stack
    &&& b.sp == a.sp
    &&& b.key == a.key
    &&& b.draw_flag == a.draw_flag
    &&& b.rpl_user_flags == a.rpl_user_flags
    &&& b.is_extended == a.is_extended
}

/// All fields except the registers, the program counter and the
/// wait-for-key capture agree.
pub open spec fn eq_except_v_pc_wait(a: CPU, b: CPU) -> bool {
    &&& b.memory == a.memory
    &&& b.i == a.i
    &&& b.graphics == a.graphics
    &&& b.delay_timer == a.delay_timer
    &&& b.sound_timer == a.sound_timer
    &&& b.stack == a.stack
    &&& b.sp == a.sp
    &&& b.key == a.key
    &&& b.draw_flag == a.draw_flag
    &&& b.rpl_user_flags == a.rpl_user_flags
    &&& b.is_extended == a.is_extended
}

/// Shorthand for the usual successful outcome.
pub open spec fn ok_proceed() -> Result<StepOutcome, Chip8Error> {
    Ok(StepOutcome::Proceed)
}

/// What one step does from an AwaitingKey state whose captured destination
/// register is `xr`: with no key pressed, nothing changes; once one is, the
/// lowest pressed key's index lands in the destination register, the program
/// counter advances and the machine returns to Running, all in this one
/// step.
pub open spec fn awaiting_rel(
    pre: CPU,
    xr: u8,
    post: CPU,
    r: Result<StepOutcome, Chip8Error>,
) -> bool {
    let k = first_pressed(pre.key@, 0);
    if k < 16 {
        &&& post.v@ == pre.v@.update(xr as int, k as u8)
        &&& post.pc == pc_plus(pre.pc, 2)
        &&& post.awaiting_key is None
        &&& eq_except_v_pc_wait(pre, post)
        &&& r == ok_proceed()
    } else {
        &&& post == pre
        &&& r == ok_proceed()
    }
}

/// What the wait-for-key instruction does when executed in the Running
/// state: with a key already down it completes at once, otherwise the
/// machine suspends, leaving the program counter on this instruction.
pub open spec fn wait_key_rel(
    pre: CPU,
    x: int,
    post: CPU,
    r: Result<StepOutcome, Chip8Error>,
) -> bool {
    let k = first_pressed(pre.key@, 0);
    if k < 16 {
        &&& post.v@ == pre.v@.update(x, k as u8)
        &&& post.pc == pc_plus(pre.pc, 2)
        &&& post.awaiting_key == pre.awaiting_key
        &&& eq_except_v_pc_wait(pre, post)
        &&& r == ok_proceed()
    } else {
        &&& post.awaiting_key == Some(x as u8)
        &&& eq_except_wait(pre, post)
        &&& r == ok_proceed()
    }
}

/// The step relation: given the pre-state and the injected random byte, the
/// post-state and result of one step. In the AwaitingKey state no fetch
/// happens; otherwise the case follows the instruction decoded from the two
/// bytes at the program counter.
pub open spec fn step_rel(
    pre: CPU,
    rand: u8,
    post: CPU,
    r: Result<StepOutcome, Chip8Error>,
) -> bool {
    match pre.awaiting_key {
        Some(xr) => awaiting_rel(pre, xr, post, r),
        None => match decode_spec(fetch_spec(pre)) {
            Instr::Cls => {
                &&& (forall|k: int| 0 <= k < 8192 ==> post.graphics@[k] == 0)
                &&& post.pc == pc_plus(pre.pc, 2)
                &&& eq_except_gfx_pc(pre, post)
                &&& r == ok_proceed()
            },
            Instr::Ret => {
                if pre.sp > 0 {
                    &&& post.sp == pre.sp - 1
                    &&& post.pc == pc_plus(pre.stack@[pre.sp - 1], 2)
                    &&& eq_except_sp_pc(pre, post)
                    &&& r == ok_proceed()
                } else {
                    &&& post == pre
                    &&& r == Err::<StepOutcome, Chip8Error>(Chip8Error::StackUnderflow)
                }
            },
            Instr::ScrollDown(n) => {
                &&& (forall|x: int, y: int|
                    0 <= x < 128 && 0 <= y < 64 ==> pix(post.graphics@, x, y) == (if y >= n {
                        pix(pre.graphics@, x, y - n)
                    } else {
                        0u8
                    }))
                &&& post.pc == pc_plus(pre.pc, 2)
                &&& eq_except_gfx_pc(pre, post)
                &&& r == ok_proceed()
            },
            Instr::ScrollRight => {
                &&& (forall|x: int, y: int|
                    0 <= x < 128 && 0 <= y < 64 ==> pix(post.graphics@, x, y) == (if x >= 4 {
                        pix(pre.graphics@, x - 4, y)
                    } else {
                        0u8
                    }))
                &&& post.pc == pc_plus(pre.pc, 2)
                &&& eq_except_gfx_pc(pre, post)
                &&& r == ok_proceed()
            },
            Instr::ScrollLeft => {
                &&& (forall|x: int, y: int|
                    0 <= x < 128 && 0 <= y < 64 ==> pix(post.graphics@, x, y) == (if x < 124 {
                        pix(pre.graphics@, x + 4, y)
                    } else {
                        0u8
                    }))
                &&& post.pc == pc_plus(pre.pc, 2)
                &&& eq_except_gfx_pc(pre, post)
                &&& r == ok_proceed()
            },
            Instr::Exit => {
                &&& post.pc == pc_plus(pre.pc, 2)
                &&& eq_except_pc(pre, post)
                &&& r == Ok::<StepOutcome, Chip8Error>(StepOutcome::Exit)
            },
            Instr::LoRes => {
                &&& post.is_extended == false
                &&& post.pc == pc_plus(pre.pc, 2)
                &&& eq_except_mode_pc(pre, post)
                &&& r == ok_proceed()
            },
            Instr::HiRes => {
                &&& post.is_extended == true
                &&& post.pc == pc_plus(pre.pc, 2)
                &&& eq_except_mode_pc(pre, post)
                &&& r == ok_proceed()
            },
            Instr::Jump(nnn) => {
                &&& post.pc == nnn
                &&& eq_except_pc(pre, post)
                &&& r == ok_proceed()
            },
            Instr::Call(nnn) => {
                if pre.sp < 16 {
                    &&& post.stack@ == pre.stack@.update(pre.sp as int, pre.pc)
                    &&& post.sp == pre.sp + 1
                    &&& post.pc == nnn
                    &&& eq_except_stack_pc(pre, post)
                    &&& r == ok_proceed()
                } else {
                    &&& post == pre
                    &&& r == Err::<StepOutcome, Chip8Error>(Chip8Error::StackOverflow)
                }
            },
            Instr::SkipEqImm(x, nn) => {
                &&& post.pc == pc_plus(pre.pc, if pre.v@[x as int] == nn { 4 } else { 2 })
                &&& eq_except_pc(pre, post)
                &&& r == ok_proceed()
            },
            Instr::SkipNeImm(x, nn) => {
                &&& post.pc == pc_plus(pre.pc, if pre.v@[x as int] != nn { 4 } else { 2 })
                &&& eq_except_pc(pre, post)
                &&& r == ok_proceed()
            },
            Instr::SkipEqReg(x, y) => {
                &&& post.pc == pc_plus(
                    pre.pc,
                    if pre.v@[x as int] == pre.v@[y as int] { 4 } else { 2 },
                )
                &&& eq_except_pc(pre, post)
                &&& r == ok_proceed()
            },
            Instr::SetImm(x, nn) => {
                &&& post.v@ == pre.v@.update(x as int, nn)
                &&& post.pc == pc_plus(pre.pc, 2)
                &&& eq_except_v_pc(pre, post)
                &&& r == ok_proceed()
            },
            Instr::AddImm(x, nn) => {
                &&& x == 15 ==> post.v == pre.v
                &&& x != 15 ==> post.v@ == pre.v@.update(
                    x as int,
                    ((pre.v@[x as int] + nn) % 256) as u8,
                )
                &&& post.pc == pc_plus(pre.pc, 2)
                &&& eq_except_v_pc(pre, post)
                &&& r == ok_proceed()
            },
            Instr::Mov(x, y) => {
                &&& post.v@ == pre.v@.update(x as int, pre.v@[y as int])
                &&& post.pc == pc_plus(pre.pc, 2)
                &&& eq_except_v_pc(pre, post)
                &&& r == ok_proceed()
            },
            Instr::Or(x, y) => {
                &&& post.v@ == pre.v@.update(x as int, pre.v@[x as int] | pre.v@[y as int])
                &&& post.pc == pc_plus(pre.pc, 2)
                &&& eq_except_v_pc(pre, post)
                &&& r == ok_proceed()
            },
            Instr::And(x, y) => {
                &&& post.v@ == pre.v@.update(x as int, pre.v@[x as int] & pre.v@[y as int])
                &&& post.pc == pc_plus(pre.pc, 2)
                &&& eq_except_v_pc(pre, post)
                &&& r == ok_proceed()
            },
            Instr::Xor(x, y) => {
                &&& post.v@ == pre.v@.update(x as int, pre.v@[x as int] ^ pre.v@[y as int])
                &&& post.pc == pc_plus(pre.pc, 2)
                &&& eq_except_v_pc(pre, post)
                &&& r == ok_proceed()
            },
            Instr::Add(x, y) => {
                &&& post.v@ == pre.v@.update(
                    x as int,
                    ((pre.v@[x as int] + pre.v@[y as int]) % 256) as u8,
                ).update(
                    15,
                    if pre.v@[x as int] + pre.v@[y as int] > 255 { 1u8 } else { 0u8 },
                )
                &&& post.pc == pc_plus(pre.pc, 2)
                &&& eq_except_v_pc(pre, post)
                &&& r == ok_proceed()
            },
            Instr::Sub(x, y) => {
                &&& post.v@ == pre.v@.update(
                    x as int,
                    (if pre.v@[x as int] >= pre.v@[y as int] {
                        pre.v@[x as int] - pre.v@[y as int]
                    } else {
                        pre.v@[x as int] - pre.v@[y as int] + 256
                    }) as u8,
                ).update(
                    15,
                    if pre.v@[x as int] >= pre.v@[y as int] { 1u8 } else { 0u8 },
                )
                &&& post.pc == pc_plus(pre.pc, 2)
                &&& eq_except_v_pc(pre, post)
                &&& r == ok_proceed()
            },
            Instr::Shr(x) => {
                &&& x != 15 ==> post.v@ == pre.v@.update(
                    15,
                    (pre.v@[x as int] % 2) as u8,
                ).update(x as int, (pre.v@[x as int] / 2) as u8)
                &&& x == 15 ==> post.v@ == pre.v@.update(15, 0u8)
                &&& post.pc == pc_plus(pre.pc, 2)
                &&& eq_except_v_pc(pre, post)
                &&& r == ok_proceed()
            },
            Instr::SubN(x, y) => {
                &&& post.v@ == pre.v@.update(
                    x as int,
                    (if pre.v@[y as int] >= pre.v@[x as int] {
                        pre.v@[y as int] - pre.v@[x as int]
                    } else {
                        pre.v@[y as int] - pre.v@[x as int] + 256
                    }) as u8,
                ).update(
                    15,
                    if pre.v@[y as int] >= pre.v@[x as int] { 1u8 } else { 0u8 },
                )
                &&& post.pc == pc_plus(pre.pc, 2)
                &&& eq_except_v_pc(pre, post)
                &&& r == ok_proceed()
            },
            Instr::Shl(x) => {
                &&& x != 15 ==> post.v@ == pre.v@.update(
                    15,
                    if pre.v@[x as int] >= 128 { 128u8 } else { 0u8 },
                ).update(x as int, ((pre.v@[x as int] * 2) % 256) as u8)
                &&& x == 15 ==> post.v@ == pre.v@.update(15, 0u8)
                &&& post.pc == pc_plus(pre.pc, 2)
                &&& eq_except_v_pc(pre, post)
                &&& r == ok_proceed()
            },
            Instr::SkipNeReg(x, y) => {
                &&& post.pc == pc_plus(
                    pre.pc,
                    if pre.v@[x as int] != pre.v@[y as int] { 4 } else { 2 },
                )
                &&& eq_except_pc(pre, post)
                &&& r == ok_proceed()
            },
            Instr::SetIndex(nnn) => {
                &&& post.i == nnn
                &&& post.pc == pc_plus(pre.pc, 2)
                &&& eq_except_i_pc(pre, post)
                &&& r == ok_proceed()
            },
            Instr::JumpV0(nnn) => {
                &&& post.pc == ((nnn + pre.v@[0]) % 4096) as u16
                &&& eq_except_pc(pre, post)
                &&& r == ok_proceed()
            },
            Instr::Rnd(x, nn) => {
                &&& post.v@ == pre.v@.update(x as int, rand & nn)
                &&& post.pc == pc_plus(pre.pc, 2)
                &&& eq_except_v_pc(pre, post)
                &&& r == ok_proceed()
            },
            Instr::Draw(x, y, n) => {
                &&& post.graphics@ == draw_result(pre, x as int, y as int, n as int).0
                &&& post.v@ == pre.v@.update(
                    15,
                    if draw_result(pre, x as int, y as int, n as int).1 { 1u8 } else { 0u8 },
                )
                &&& post.draw_flag == true
                &&& post.pc == pc_plus(pre.pc, 2)
                &&& eq_except_gfx_v_draw_pc(pre, post)
                &&& r == ok_proceed()
            },
            Instr::SkipKey(x) => {
                &&& post.pc == pc_plus(
                    pre.pc,
                    if pre.key@[pre.v@[x as int] as int % 16] { 4 } else { 2 },
                )
                &&& eq_except_pc(pre, post)
                &&& r == ok_proceed()
            },
            Instr::SkipNoKey(x) => {
                &&& post.pc == pc_plus(
                    pre.pc,
                    if !pre.key@[pre.v@[x as int] as int % 16] { 4 } else { 2 },
                )
                &&& eq_except_pc(pre, post)
                &&& r == ok_proceed()
            },
            Instr::GetDelay(x) => {
                &&& post.v@ == pre.v@.update(x as int, pre.delay_timer)
                &&& post.pc == pc_plus(pre.pc, 2)
                &&& eq_except_v_pc(pre, post)
                &&& r == ok_proceed()
            },
            Instr::WaitKey(x) => wait_key_rel(pre, x as int, post, r),
            Instr::SetDelay(x) => {
                &&& post.delay_timer == pre.v@[x as int]
                &&& post.pc == pc_plus(pre.pc, 2)
                &&& eq_except_delay_pc(pre, post)
                &&& r == ok_proceed()
            },
            Instr::SetSound(x) => {
                &&& post.sound_timer == pre.v@[x as int]
                &&& post.pc == pc_plus(pre.pc, 2)
                &&& eq_except_sound_pc(pre, post)
                &&& r == ok_proceed()
            },
            Instr::AddIndex(x) => {
                &&& x == 15 ==> post.i == pre.i
                &&& x != 15 ==> post.i == ((pre.i + pre.v@[x as int]) % 65536) as u16
                &&& post.pc == pc_plus(pre.pc, 2)
                &&& eq_except_i_pc(pre, post)
                &&& r == ok_proceed()
            },
            Instr::FontSmall(x) => {
                &&& post.i == pre.v@[x as int] * 5
                &&& post.pc == pc_plus(pre.pc, 2)
                &&& eq_except_i_pc(pre, post)
                &&& r == ok_proceed()
            },
            Instr::FontLarge(x) => {
                &&& post.i == pre.v@[x as int] * 10 + 80
                &&& post.pc == pc_plus(pre.pc, 2)
                &&& eq_except_i_pc(pre, post)
                &&& r == ok_proceed()
            },
            Instr::Bcd(x) => {
                &&& post.memory@ == pre.memory@.update(
                    wrap_addr(pre.i, 0),
                    (pre.v@[x as int] / 100) as u8,
                ).update(wrap_addr(pre.i, 1), ((pre.v@[x as int] / 10) % 10) as u8).update(
                    wrap_addr(pre.i, 2),
                    ((pre.v@[x as int] % 100) % 10) as u8,
                )
                &&& post.pc == pc_plus(pre.pc, 2)
                &&& eq_except_mem_pc(pre, post)
                &&& r == ok_proceed()
            },
            Instr::SaveRegs(x) => {
                &&& (forall|j: int| 0 <= j <= x ==> post.memory@[wrap_addr(pre.i, j)] == pre.v@[j])
                &&& (forall|k: int|
                    0 <= k < 4096 && !(exists|j: int| 0 <= j <= x && k == wrap_addr(pre.i, j))
                        ==> post.memory@[k] == pre.memory@[k])
                &&& post.pc == pc_plus(pre.pc, 2)
                &&& eq_except_mem_pc(pre, post)
                &&& r == ok_proceed()
            },
            Instr::LoadRegs(x) => {
                &&& (forall|j: int| 0 <= j <= x ==> post.v@[j] == pre.memory@[wrap_addr(pre.i, j)])
                &&& (forall|j: int| x < j < 16 ==> post.v@[j] == pre.v@[j])
                &&& post.pc == pc_plus(pre.pc, 2)
                &&& eq_except_v_pc(pre, post)
                &&& r == ok_proceed()
            },
            Instr::SaveRpl(x) => {
                &&& (forall|j: int| 0 <= j <= x && j < 8 ==> post.rpl_user_flags@[j] == pre.v@[j])
                &&& (forall|j: int| x < j < 8 ==> post.rpl_user_flags@[j] == pre.rpl_user_flags@[j])
                &&& post.pc == pc_plus(pre.pc, 2)
                &&& eq_except_rpl_pc(pre, post)
                &&& r == ok_proceed()
            },
            Instr::LoadRpl(x) => {
                &&& (forall|j: int| 0 <= j <= x && j < 8 ==> post.v@[j] == pre.rpl_user_flags@[j])
                &&& (forall|j: int| 0 <= j < 16 && !(j <= x && j < 8) ==> post.v@[j] == pre.v@[j])
                &&& post.pc == pc_plus(pre.pc, 2)
                &&& eq_except_v_pc(pre, post)
                &&& r == ok_proceed()
            },
            Instr::Unknown(opw) => {
                &&& post.pc == pc_plus(pre.pc, 2)
                &&& eq_except_pc(pre, post)
                &&& r == Ok::<StepOutcome, Chip8Error>(StepOutcome::UnknownOpcode(opw))
            },
        },
    }
}

/// Scans the key vector for the lowest-indexed pressed key.
pub fn find_first_key(key: &Vec<bool>) -> (r: Option<u8>)
    requires
        key@.len() == 16,
    ensures
        match r {
            Some(k) => k < 16 && first_pressed(key@, 0) == k,
            None => first_pressed(key@, 0) == 16,
        },
{
    let mut j: usize = 0;
    while j < 16
        invariant
            j <= 16,
            first_pressed(key@, 0) == first_pressed(key@, j as int),
        decreases 16 - j,
    {
        if key[j] {
            return Some(j as u8);
        }
        j += 1;
    }
    None
}

impl CPU {
    /// One step of the machine: in AwaitingKey, scan the keys and possibly
    /// resume; otherwise fetch, decode and execute one instruction. The
    /// caller injects the random byte consumed by the random-mask
    /// instruction, so a deterministic source can be substituted at will;
    /// timers are not touched here but by [`CPU::tick_timers`], on the
    /// driver's own cadence.
    pub fn emulate_cycle(&mut self, rand_byte: u8) -> (r: Result<StepOutcome, Chip8Error>)
        requires
            old(self).wf(),
        ensures
            final(self).wf(),
            step_rel(*old(self), rand_byte, *final(self), r),
    {
        if let Some(xr) = self.awaiting_key {
            match find_first_key(&self.key) {
                Some(k) => {
                    self.v[xr as usize] = k;
                    self.pc = (self.pc + 2) % 4096;
                    self.awaiting_key = None;
                },
                None => {},
            }
            return Ok(StepOutcome::Proceed);
        }
        let hi = self.memory[self.pc as usize];
        let lo = self.memory[((self.pc as usize) + 1) % 4096];
        let op: u16 = (hi as u16) * 256 + (lo as u16);
        let instr = decode(op);
        match instr {
            Instr::Cls => {
                self.op_cls();
                Ok(StepOutcome::Proceed)
            },
            Instr::Ret => {
                match self.op_ret() {
                    Ok(_) => Ok(StepOutcome::Proceed),
                    Err(e) => Err(e),
                }
            },
            Instr::ScrollDown(n) => {
                self.op_scroll_down(n);
                Ok(StepOutcome::Proceed)
            },
            Instr::ScrollRight => {
                self.op_scroll_right();
                Ok(StepOutcome::Proceed)
            },
            Instr::ScrollLeft => {
                self.op_scroll_left();
                Ok(StepOutcome::Proceed)
            },
            Instr::Exit => {
                self.op_advance();
                Ok(StepOutcome::Exit)
            },
            Instr::LoRes => {
                self.op_set_mode(false);
                Ok(StepOutcome::Proceed)
            },
            Instr::HiRes => {
                self.op_set_mode(true);
                Ok(StepOutcome::Proceed)
            },
            Instr::Jump(nnn) => {
                self.op_jump(nnn);
                Ok(StepOutcome::Proceed)
            },
            Instr::Call(nnn) => {
                match self.op_call(nnn) {
                    Ok(_) => Ok(StepOutcome::Proceed),
                    Err(e) => Err(e),
                }
            },
            Instr::SkipEqImm(x, nn) => {
                let cond = self.v[x] == nn;
                self.op_skip_if(cond);
                Ok(StepOutcome::Proceed)
            },
            Instr::SkipNeImm(x, nn) => {
                let cond = self.v[x] != nn;
                self.op_skip_if(cond);
                Ok(StepOutcome::Proceed)
            },
            Instr::SkipEqReg(x, y) => {
                let cond = self.v[x] == self.v[y];
                self.op_skip_if(cond);
                Ok(StepOutcome::Proceed)
            },
            Instr::SetImm(x, nn) => {
                self.op_set_v(x, nn);
                Ok(StepOutcome::Proceed)
            },
            Instr::AddImm(x, nn) => {
                self.op_add_imm(x, nn);
                Ok(StepOutcome::Proceed)
            },
            Instr::Mov(x, y) => {
                let val = self.v[y];
                self.op_set_v(x, val);
                Ok(StepOutcome::Proceed)
            },
            Instr::Or(x, y) => {
                let val = self.v[x] | self.v[y];
                self.op_set_v(x, val);
                Ok(StepOutcome::Proceed)
            },
            Instr::And(x, y) => {
                let val = self.v[x] & self.v[y];
                self.op_set_v(x, val);
                Ok(StepOutcome::Proceed)
            },
            Instr::Xor(x, y) => {
                let val = self.v[x] ^ self.v[y];
                self.op_set_v(x, val);
                Ok(StepOutcome::Proceed)
            },
            Instr::Add(x, y) => {
                self.op_add(x, y);
                Ok(StepOutcome::Proceed)
            },
            Instr::Sub(x, y) => {
                self.op_sub(x, y);
                Ok(StepOutcome::Proceed)
            },
            Instr::Shr(x) => {
                self.op_shr(x);
                Ok(StepOutcome::Proceed)
            },
            Instr::SubN(x, y) => {
                self.op_subn(x, y);
                Ok(StepOutcome::Proceed)
            },
            Instr::Shl(x) => {
                self.op_shl(x);
                Ok(StepOutcome::Proceed)
            },
            Instr::SkipNeReg(x, y) => {
                let cond = self.v[x] != self.v[y];
                self.op_skip_if(cond);
                Ok(StepOutcome::Proceed)
            },
            Instr::SetIndex(nnn) => {
                self.op_set_index(nnn);
                Ok(StepOutcome::Proceed)
            },
            Instr::JumpV0(nnn) => {
                self.op_jump_v0(nnn);
                Ok(StepOutcome::Proceed)
            },
            Instr::Rnd(x, nn) => {
                let val = rand_byte & nn;
                self.op_set_v(x, val);
                Ok(StepOutcome::Proceed)
            },
            Instr::Draw(x, y, n) => {
                self.op_draw(x, y, n);
                Ok(StepOutcome::Proceed)
            },
            Instr::SkipKey(x) => {
                let ki = (self.v[x] as usize) % 16;
                let cond = self.key[ki];
                self.op_skip_if(cond);
                Ok(StepOutcome::Proceed)
            },
            Instr::SkipNoKey(x) => {
                let ki = (self.v[x] as usize) % 16;
                let cond = !self.key[ki];
                self.op_skip_if(cond);
                Ok(StepOutcome::Proceed)
            },
            Instr::GetDelay(x) => {
                self.op_get_delay(x);
                Ok(StepOutcome::Proceed)
            },
            Instr::WaitKey(x) => {
                match find_first_key(&self.key) {
                    Some(k) => {
                        self.v[x] = k;
                        self.pc = (self.pc + 2) % 4096;
                    },
                    None => {
                        self.awaiting_key = Some(x as u8);
                    },
                }
                Ok(StepOutcome::Proceed)
            },
            Instr::SetDelay(x) => {
                self.op_set_delay(x);
                Ok(StepOutcome::Proceed)
            },
            Instr::SetSound(x) => {
                self.op_set_sound(x);
                Ok(StepOutcome::Proceed)
            },
            Instr::AddIndex(x) => {
                self.op_add_index(x);
                Ok(StepOutcome::Proceed)
            },
            Instr::FontSmall(x) => {
                self.op_font_small(x);
                Ok(StepOutcome::Proceed)
            },
            Instr::FontLarge(x) => {
                self.op_font_large(x);
                Ok(StepOutcome::Proceed)
            },
            Instr::Bcd(x) => {
                self.op_bcd(x);
                Ok(StepOutcome::Proceed)
            },
            Instr::SaveRegs(x) => {
                self.op_save_regs(x);
                Ok(StepOutcome::Proceed)
            },
            Instr::LoadRegs(x) => {
                self.op_load_regs(x);
                Ok(StepOutcome::Proceed)
            },
            Instr::SaveRpl(x) => {
                self.op_save_rpl(x);
                Ok(StepOutcome::Proceed)
            },
            Instr::LoadRpl(x) => {
                self.op_load_rpl(x);
                Ok(StepOutcome::Proceed)
            },
            Instr::Unknown(opw) => {
                self.op_advance();
                Ok(StepOutcome::UnknownOpcode(opw))
            },
        }
    }
}

} // verus!
