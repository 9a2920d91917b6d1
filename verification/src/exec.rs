//! Instruction handlers that touch registers, the call stack, the index
//! register, timers and memory. Each handler performs exactly one
//! instruction's effect, including the program-counter update, and its
//! contract pins the whole post-state. Sprite and scroll handlers live in
//! `video`; the fetch/decode/dispatch step in `step`.

use vstd::prelude::*;
use crate::cpu::CPU;
use crate::cpu::Chip8Error;
use crate::cpu::eq_except_memory;

verus! {

/// The program counter after advancing `k` bytes, kept inside the 12-bit
/// address space.
pub open spec fn pc_plus(pc: u16, k: int) -> u16 {
    ((pc + k) % 4096) as u16
}

/// The effective memory address `j` bytes above the index register `i`,
/// which is interpreted as a 12-bit address; the sum wraps at the end of
/// memory. Meaningful for `0 <= j < 4096`.
pub open spec fn wrap_addr(i: u16, j: int) -> int {
    let b = (i as int) % 4096;
    if b + j < 4096 {
        b + j
    } else {
        b + j - 4096
    }
}

/// All fields except the program counter agree.
pub open spec fn eq_except_pc(a: CPU, b: CPU) -> bool {
    &&& b.memory == a.memory
    &&& b.v == a.v
    &&& b.i == a.i
    &&& b.graphics == a.graphics
    &&& b.delay_timer == a.delay_timer
    &&& b.sound_timer == a.sound_timer
    &&& b.stack == a.stack
    &&& b.sp == a.sp
    &&& b.key == a.key
    &&& b.draw_flag == a.draw_flag
    &&& b.rpl_user_flags == a.rpl_user_flags
    &&& b.is_extended == a.is_extended
    &&& b.awaiting_key == a.awaiting_key
}

/// All fields except the general registers and the program counter agree.
pub open spec fn eq_except_v_pc(a: CPU, b: CPU) -> bool {
    &&& b.memory == a.memory
    &&& b.i == a.i
    &&& b.graphics == a.graphics
    &&& b.delay_timer == a.delay_timer
    &&& b.sound_timer == a.sound_timer
    &&& b.stack == a.stack
    &&& b.sp == a.sp
    &&& b.key == a.key
    &&& b.draw_flag == a.draw_flag
    &&& b.rpl_user_flags == a.rpl_user_flags
    &&& b.is_extended == a.is_extended
    &&& b.awaiting_key == a.awaiting_key
}

/// All fields except the index register and the program counter agree.
pub open spec fn eq_except_i_pc(a: CPU, b: CPU) -> bool {
    &&& b.memory == a.memory
    &&& b.v == a.v
    &&& b.graphics == a.graphics
    &&& b.delay_timer == a.delay_timer
    &&& b.sound_timer == a.sound_timer
    &&& b.stack == a.stack
    &&& b.sp == a.sp
    &&& b.key == a.key
    &&& b.draw_flag == a.draw_flag
    &&& b.rpl_user_flags == a.rpl_user_flags
    &&& b.is_extended == a.is_extended
    &&& b.awaiting_key == a.awaiting_key
}

/// All fields except memory and the program counter agree.
pub open spec fn eq_except_mem_pc(a: CPU, b: CPU) -> bool {
    &&& b.v == a.v
    &&& b.i == a.i
    &&& b.graphics == a.graphics
    &&& b.delay_timer == a.delay_timer
    &&& b.sound_timer == a.sound_timer
    &&& b.stack == a.stack
    &&& b.sp == a.sp
    &&& b.key == a.key
    &&& b.draw_flag == a.draw_flag
    &&& b.rpl_user_flags == a.rpl_user_flags
    &&& b.is_extended == a.is_extended
    &&& b.awaiting_key == a.awaiting_key
}

/// All fields except the call stack, the stack pointer and the program
/// counter agree.
pub open spec fn eq_except_stack_pc(a: CPU, b: CPU) -> bool {
    &&& b.memory == a.memory
    &&& b.v == a.v
    &&& b.i == a.i
    &&& b.graphics == a.graphics
    &&& b.delay_timer == a.delay_timer
    &&& b.sound_timer == a.sound_timer
    &&& b.key == a.key
    &&& b.draw_flag == a.draw_flag
    &&& b.rpl_user_flags == a.rpl_user_flags
    &&& b.is_extended == a.is_extended
    &&& b.awaiting_key == a.awaiting_key
}

/// All fields except the stack pointer and the program counter agree.
pub open spec fn eq_except_sp_pc(a: CPU, b: CPU) -> bool {
    &&& b.memory == a.memory
    &&& b.v == a.v
    &&& b.i == a.i
    &&& b.graphics == a.graphics
    &&& b.delay_timer == a.delay_timer
    &&& b.sound_timer == a.sound_timer
    &&& b.stack == a.stack
    &&& b.key == a.key
    &&& b.draw_flag == a.draw_flag
    &&& b.rpl_user_flags == a.rpl_user_flags
    &&& b.is_extended == a.is_extended
    &&& b.awaiting_key == a.awaiting_key
}

/// All fields except the display mode and the program counter agree.
pub open spec fn eq_except_mode_pc(a: CPU, b: CPU) -> bool {
    &&& b.memory == a.memory
    &&& b.v == a.v
    &&& b.i == a.i
    &&& b.graphics == a.graphics
    &&& b.delay_timer == a.delay_timer
    &&& b.sound_timer == a.sound_timer
    &&& b.stack == a.stack
    &&& b.sp == a.sp
    &&& b.key == a.key
    &&& b.draw_flag == a.draw_flag
    &&& b.rpl_user_flags == a.rpl_user_flags
    &&& b.awaiting_key == a.awaiting_key
}

/// All fields except the delay timer and the program counter agree.
pub open spec fn eq_except_delay_pc(a: CPU, b: CPU) -> bool {
    &&& b.memory == a.memory
    &&& b.v == a.v
    &&& b.i == a.i
    &&& b.graphics == a.graphics
    &&& b.sound_timer == a.sound_timer
    &&& b.stack == a.stack
    &&& b.sp == a.sp
    &&& b.key == a.key
    &&& b.draw_flag == a.draw_flag
    &&& b.rpl_user_flags == a.rpl_user_flags
    &&& b.is_extended == a.is_extended
    &&& b.awaiting_key == a.awaiting_key
}

/// All fields except the sound timer and the program counter agree.
pub open spec fn eq_except_sound_pc(a: CPU, b: CPU) -> bool {
    &&& b.memory == a.memory
    &&& b.v == a.v
    &&& b.i == a.i
    &&& b.graphics == a.graphics
    &&& b.delay_timer == a.delay_timer
    &&& b.stack == a.stack
    &&& b.sp == a.sp
    &&& b.key == a.key
    &&& b.draw_flag == a.draw_flag
    &&& b.rpl_user_flags == a.rpl_user_flags
    &&& b.is_extended == a.is_extended
    &&& b.awaiting_key == a.awaiting_key
}

/// All fields except the auxiliary flag store and the program counter agree.
pub open spec fn eq_except_rpl_pc(a: CPU, b: CPU) -> bool {
    &&& b.memory == a.memory
    &&& b.v == a.v
    &&& b.i == a.i
    &&& b.graphics == a.graphics
    &&& b.delay_timer == a.delay_timer
    &&& b.sound_timer == a.sound_timer
    &&& b.stack == a.stack
    &&& b.sp == a.sp
    &&& b.key == a.key
    &&& b.draw_flag == a.draw_flag
    &&& b.is_extended == a.is_extended
    &&& b.awaiting_key == a.awaiting_key
}

impl CPU {
    /// Advances past the current two-byte instruction.
    pub fn op_advance(&mut self)
        requires
            old(self).wf(),
        ensures
            final(self).wf(),
            final(self).pc == pc_plus(old(self).pc, 2),
            eq_except_pc(*old(self), *final(self)),
    {
        self.pc = (self.pc + 2) % 4096;
    }

    /// A conditional skip: over the next instruction when `cond` holds, else
    /// just past the current one.
    pub fn op_skip_if(&mut self, cond: bool)
        requires
            old(self).wf(),
        ensures
            final(self).wf(),
            final(self).pc == pc_plus(old(self).pc, if cond { 4 } else { 2 }),
            eq_except_pc(*old(self), *final(self)),
    {
        if cond {
            self.pc = (self.pc + 4) % 4096;
        } else {
            self.pc = (self.pc + 2) % 4096;
        }
    }

    /// Unconditional jump.
    pub fn op_jump(&mut self, nnn: u16)
        requires
            old(self).wf(),
            nnn < 4096,
        ensures
            final(self).wf(),
            final(self).pc == nnn,
            eq_except_pc(*old(self), *final(self)),
    {
        self.pc = nnn;
    }

    /// Jump to `nnn` displaced by V0.
    pub fn op_jump_v0(&mut self, nnn: u16)
        requires
            old(self).wf(),
            nnn < 4096,
        ensures
            final(self).wf(),
            final(self).pc == ((nnn + old(self).v@[0]) % 4096) as u16,
            eq_except_pc(*old(self), *final(self)),
    {
        self.pc = (nnn + self.v[0] as u16) % 4096;
    }

    /// Call: pushes the current program counter (the call instruction's own
    /// address) and jumps. With all 16 stack slots in use it fails and leaves
    /// the machine untouched.
    pub fn op_call(&mut self, nnn: u16) -> (r: Result<(), Chip8Error>)
        requires
            old(self).wf(),
            nnn < 4096,
        ensures
            final(self).wf(),
            old(self).sp < 16 ==> {
                &&& r == Ok::<(), Chip8Error>(())
                &&& final(self).stack@ == old(self).stack@.update(old(self).sp as int, old(self).pc)
                &&& final(self).sp == old(self).sp + 1
                &&& final(self).pc == nnn
                &&& eq_except_stack_pc(*old(self), *final(self))
            },
            old(self).sp == 16 ==> r == Err::<(), Chip8Error>(Chip8Error::StackOverflow)
                && *final(self) == *old(self),
    {
        if self.sp >= 16 {
            return Err(Chip8Error::StackOverflow);
        }
        let sp = self.sp as usize;
        self.stack[sp] = self.pc;
        self.sp = self.sp + 1;
        self.pc = nnn;
        Ok(())
    }

    /// Return: pops the stored address and resumes just past the call. With
    /// an empty stack it fails and leaves the machine untouched.
    pub fn op_ret(&mut self) -> (r: Result<(), Chip8Error>)
        requires
            old(self).wf(),
        ensures
            final(self).wf(),
            old(self).sp > 0 ==> {
                &&& r == Ok::<(), Chip8Error>(())
                &&& final(self).sp == old(self).sp - 1
                &&& final(self).pc == pc_plus(old(self).stack@[old(self).sp - 1], 2)
                &&& eq_except_sp_pc(*old(self), *final(self))
            },
            old(self).sp == 0 ==> r == Err::<(), Chip8Error>(Chip8Error::StackUnderflow)
                && *final(self) == *old(self),
    {
        if self.sp == 0 {
            return Err(Chip8Error::StackUnderflow);
        }
        self.sp = self.sp - 1;
        let target = self.stack[self.sp as usize];
        self.pc = (target + 2) % 4096;
        Ok(())
    }

    /// Writes `val` into VX and advances. Shared by the plain
    /// register-setting instructions, whose value the dispatcher computes
    /// from the pre-state.
    pub fn op_set_v(&mut self, x: usize, val: u8)
        requires
            old(self).wf(),
            x < 16,
        ensures
            final(self).wf(),
            final(self).v@ == old(self).v@.update(x as int, val),
            final(self).pc == pc_plus(old(self).pc, 2),
            eq_except_v_pc(*old(self), *final(self)),
    {
        self.v[x] = val;
        self.pc = (self.pc + 2) % 4096;
    }

    /// Add-immediate: VX wraps modulo 256, the carry flag is deliberately not
    /// updated, and the whole addition is skipped when X is the flag
    /// register.
    pub fn op_add_imm(&mut self, x: usize, nn: u8)
        requires
            old(self).wf(),
            x < 16,
        ensures
            final(self).wf(),
            x == 15 ==> final(self).v == old(self).v,
            x != 15 ==> final(self).v@ == old(self).v@.update(
                x as int,
                ((old(self).v@[x as int] + nn) % 256) as u8,
            ),
            final(self).pc == pc_plus(old(self).pc, 2),
            eq_except_v_pc(*old(self), *final(self)),
    {
        if x != 15 {
            let s = self.v[x] as u16 + nn as u16;
            self.v[x] = (s % 256) as u8;
        }
        self.pc = (self.pc + 2) % 4096;
    }

    /// Add with carry: VX = (VX + VY) mod 256 and VF = 1 exactly when
    /// VX + VY exceeds 255.
    pub fn op_add(&mut self, x: usize, y: usize)
        requires
            old(self).wf(),
            x < 16,
            y < 16,
        ensures
            final(self).wf(),
            final(self).v@ == old(self).v@.update(
                x as int,
                ((old(self).v@[x as int] + old(self).v@[y as int]) % 256) as u8,
            ).update(
                15,
                if old(self).v@[x as int] + old(self).v@[y as int] > 255 {
                    1u8
                } else {
                    0u8
                },
            ),
            final(self).pc == pc_plus(old(self).pc, 2),
            eq_except_v_pc(*old(self), *final(self)),
    {
        let s = self.v[x] as u16 + self.v[y] as u16;
        self.v[x] = (s % 256) as u8;
        self.v[15] = if s > 255 {
            1
        } else {
            0
        };
        self.pc = (self.pc + 2) % 4096;
    }

    /// Subtract with borrow flag: VX = (VX - VY) mod 256 and VF = 1 exactly
    /// when no borrow occurs, that is when VX >= VY.
    pub fn op_sub(&mut self, x: usize, y: usize)
        requires
            old(self).wf(),
            x < 16,
            y < 16,
        ensures
            final(self).wf(),
            final(self).v@ == old(self).v@.update(
                x as int,
                (if old(self).v@[x as int] >= old(self).v@[y as int] {
                    old(self).v@[x as int] - old(self).v@[y as int]
                } else {
                    old(self).v@[x as int] - old(self).v@[y as int] + 256
                }) as u8,
            ).update(
                15,
                if old(self).v@[x as int] >= old(self).v@[y as int] {
                    1u8
                } else {
                    0u8
                },
            ),
            final(self).pc == pc_plus(old(self).pc, 2),
            eq_except_v_pc(*old(self), *final(self)),
    {
        let a = self.v[x];
        let b = self.v[y];
        self.v[x] = if a >= b {
            a - b
        } else {
            ((a as u16 + 256) - b as u16) as u8
        };
        self.v[15] = if a >= b {
            1
        } else {
            0
        };
        self.pc = (self.pc + 2) % 4096;
    }

    /// Reversed subtract: VX = (VY - VX) mod 256 and VF = 1 exactly when no
    /// borrow occurs, that is when VY >= VX.
    pub fn op_subn(&mut self, x: usize, y: usize)
        requires
            old(self).wf(),
            x < 16,
            y < 16,
        ensures
            final(self).wf(),
            final(self).v@ == old(self).v@.update(
                x as int,
                (if old(self).v@[y as int] >= old(self).v@[x as int] {
                    old(self).v@[y as int] - old(self).v@[x as int]
                } else {
                    old(self).v@[y as int] - old(self).v@[x as int] + 256
                }) as u8,
            ).update(
                15,
                if old(self).v@[y as int] >= old(self).v@[x as int] {
                    1u8
                } else {
                    0u8
                },
            ),
            final(self).pc == pc_plus(old(self).pc, 2),
            eq_except_v_pc(*old(self), *final(self)),
    {
        let a = self.v[x];
        let b = self.v[y];
        self.v[x] = if b >= a {
            b - a
        } else {
            ((b as u16 + 256) - a as u16) as u8
        };
        self.v[15] = if b >= a {
            1
        } else {
            0
        };
        self.pc = (self.pc + 2) % 4096;
    }

    /// Shift right in place: VF takes the shifted-out low bit first, then VX
    /// is halved. The flag write happens before the shift, so with X = F the
    /// register ends up 0.
    pub fn op_shr(&mut self, x: usize)
        requires
            old(self).wf(),
            x < 16,
        ensures
            final(self).wf(),
            x != 15 ==> final(self).v@ == old(self).v@.update(
                15,
                (old(self).v@[x as int] % 2) as u8,
            ).update(x as int, (old(self).v@[x as int] / 2) as u8),
            x == 15 ==> final(self).v@ == old(self).v@.update(15, 0u8),
            final(self).pc == pc_plus(old(self).pc, 2),
            eq_except_v_pc(*old(self), *final(self)),
    {
        let a = self.v[x];
        self.v[15] = a % 2;
        let cur = self.v[x];
        self.v[x] = cur / 2;
        proof {
            if x == 15 {
                assert(self.v@ =~= old(self).v@.update(15, 0u8));
            }
        }
        self.pc = (self.pc + 2) % 4096;
    }

    /// Shift left in place: VF takes the pre-shift high bit (the 0x80 mask of
    /// VX), then VX is doubled modulo 256. The flag write happens before the
    /// shift, so with X = F the register ends up 0.
    pub fn op_shl(&mut self, x: usize)
        requires
            old(self).wf(),
            x < 16,
        ensures
            final(self).wf(),
            x != 15 ==> final(self).v@ == old(self).v@.update(
                15,
                if old(self).v@[x as int] >= 128 {
                    128u8
                } else {
                    0u8
                },
            ).update(x as int, ((old(self).v@[x as int] * 2) % 256) as u8),
            x == 15 ==> final(self).v@ == old(self).v@.update(15, 0u8),
            final(self).pc == pc_plus(old(self).pc, 2),
            eq_except_v_pc(*old(self), *final(self)),
    {
        let a = self.v[x];
        self.v[15] = if a >= 128 {
            128
        } else {
            0
        };
        let cur = self.v[x];
        self.v[x] = ((cur as u16 * 2) % 256) as u8;
        proof {
            if x == 15 {
                assert(self.v@ =~= old(self).v@.update(15, 0u8));
            }
        }
        self.pc = (self.pc + 2) % 4096;
    }

    /// Index load.
    pub fn op_set_index(&mut self, nnn: u16)
        requires
            old(self).wf(),
        ensures
            final(self).wf(),
            final(self).i == nnn,
            final(self).pc == pc_plus(old(self).pc, 2),
            eq_except_i_pc(*old(self), *final(self)),
    {
        self.i = nnn;
        self.pc = (self.pc + 2) % 4096;
    }

    /// Adds VX to the index register, wrapping in its 16-bit cell; skipped
    /// entirely when X is the flag register.
    pub fn op_add_index(&mut self, x: usize)
        requires
            old(self).wf(),
            x < 16,
        ensures
            final(self).wf(),
            x == 15 ==> final(self).i == old(self).i,
            x != 15 ==> final(self).i == ((old(self).i + old(self).v@[x as int]) % 65536) as u16,
            final(self).pc == pc_plus(old(self).pc, 2),
            eq_except_i_pc(*old(self), *final(self)),
    {
        if x != 15 {
            let s = self.i as u32 + self.v[x] as u32;
            self.i = (s % 65536) as u16;
        }
        self.pc = (self.pc + 2) % 4096;
    }

    /// Points the index register at the 5-byte font glyph for the character
    /// code in VX.
    pub fn op_font_small(&mut self, x: usize)
        requires
            old(self).wf(),
            x < 16,
        ensures
            final(self).wf(),
            final(self).i == old(self).v@[x as int] * 5,
            final(self).pc == pc_plus(old(self).pc, 2),
            eq_except_i_pc(*old(self), *final(self)),
    {
        self.i = self.v[x] as u16 * 5;
        self.pc = (self.pc + 2) % 4096;
    }

    /// Points the index register at the 10-byte font glyph for the character
    /// code in VX; the large glyphs start at offset 80.
    pub fn op_font_large(&mut self, x: usize)
        requires
            old(self).wf(),
            x < 16,
        ensures
            final(self).wf(),
            final(self).i == old(self).v@[x as int] * 10 + 80,
            final(self).pc == pc_plus(old(self).pc, 2),
            eq_except_i_pc(*old(self), *final(self)),
    {
        self.i = self.v[x] as u16 * 10 + 80;
        self.pc = (self.pc + 2) % 4096;
    }

    /// Decimal decomposition: the hundreds, tens and ones digits of VX are
    /// stored at the index address and the two following bytes.
    pub fn op_bcd(&mut self, x: usize)
        requires
            old(self).wf(),
            x < 16,
        ensures
            final(self).wf(),
            final(self).memory@ == old(self).memory@.update(
                wrap_addr(old(self).i, 0),
                (old(self).v@[x as int] / 100) as u8,
            ).update(wrap_addr(old(self).i, 1), ((old(self).v@[x as int] / 10) % 10) as u8).update(
                wrap_addr(old(self).i, 2),
                ((old(self).v@[x as int] % 100) % 10) as u8,
            ),
            final(self).pc == pc_plus(old(self).pc, 2),
            eq_except_mem_pc(*old(self), *final(self)),
    {
        let val = self.v[x];
        let a0 = wrapped_addr(self.i, 0);
        let a1 = wrapped_addr(self.i, 1);
        let a2 = wrapped_addr(self.i, 2);
        self.memory[a0] = val / 100;
        self.memory[a1] = (val / 10) % 10;
        self.memory[a2] = (val % 100) % 10;
        self.pc = (self.pc + 2) % 4096;
    }

    /// Register-block save: V0..=VX stored at consecutive addresses from the
    /// index register, which itself is left unchanged.
    pub fn op_save_regs(&mut self, x: usize)
        requires
            old(self).wf(),
            x < 16,
        ensures
            final(self).wf(),
            forall|j: int| 0 <= j <= x ==> final(self).memory@[wrap_addr(old(self).i, j)]
                == old(self).v@[j],
            forall|k: int|
                0 <= k < 4096 && !(exists|j: int| 0 <= j <= x && k == wrap_addr(old(self).i, j))
                    ==> final(self).memory@[k] == old(self).memory@[k],
            final(self).pc == pc_plus(old(self).pc, 2),
            eq_except_mem_pc(*old(self), *final(self)),
    {
        let mut j: usize = 0;
        while j <= x
            invariant
                j <= x + 1,
                self.memory@.len() == 4096,
                forall|t: int| 0 <= t < j ==> self.memory@[wrap_addr(old(self).i, t)]
                    == old(self).v@[t],
                forall|k: int|
                    0 <= k < 4096 && !(exists|t: int| 0 <= t < j && k == wrap_addr(old(self).i, t))
                        ==> self.memory@[k] == old(self).memory@[k],
                eq_except_memory(*old(self), *self),
            decreases x + 1 - j,
        {
            let a = wrapped_addr(self.i, j);
            self.memory[a] = self.v[j];
            j += 1;
        }
        self.pc = (self.pc + 2) % 4096;
    }

    /// Register-block load: V0..=VX filled from consecutive addresses from
    /// the index register, which itself is left unchanged.
    pub fn op_load_regs(&mut self, x: usize)
        requires
            old(self).wf(),
            x < 16,
        ensures
            final(self).wf(),
            forall|j: int| 0 <= j <= x ==> final(self).v@[j]
                == old(self).memory@[wrap_addr(old(self).i, j)],
            forall|j: int| x < j < 16 ==> final(self).v@[j] == old(self).v@[j],
            final(self).pc == pc_plus(old(self).pc, 2),
            eq_except_v_pc(*old(self), *final(self)),
    {
        let mut j: usize = 0;
        while j <= x
            invariant
                j <= x + 1,
                self.v@.len() == 16,
                forall|t: int| 0 <= t < j ==> self.v@[t]
                    == old(self).memory@[wrap_addr(old(self).i, t)],
                forall|t: int| j <= t < 16 ==> self.v@[t] == old(self).v@[t],
                eq_except_v_pc(*old(self), *self),
                self.pc == old(self).pc,
            decreases x + 1 - j,
        {
            let a = wrapped_addr(self.i, j);
            let b = self.memory[a];
            self.v[j] = b;
            j += 1;
        }
        self.pc = (self.pc + 2) % 4096;
    }

    /// Auxiliary-flag save: V0..=VX copied into the 8 persistent flag bytes.
    /// Only the first 8 registers can land anywhere; a longer range is cut
    /// off at the end of the flag store instead of running past it.
    pub fn op_save_rpl(&mut self, x: usize)
        requires
            old(self).wf(),
            x < 16,
        ensures
            final(self).wf(),
            forall|j: int| 0 <= j <= x && j < 8 ==> final(self).rpl_user_flags@[j]
                == old(self).v@[j],
            forall|j: int| x < j < 8 ==> final(self).rpl_user_flags@[j]
                == old(self).rpl_user_flags@[j],
            final(self).pc == pc_plus(old(self).pc, 2),
            eq_except_rpl_pc(*old(self), *final(self)),
    {
        let lim = if x < 7 {
            x
        } else {
            7
        };
        let mut j: usize = 0;
        while j <= lim
            invariant
                j <= lim + 1,
                lim < 8,
                lim == if x < 7 { x as int } else { 7 },
                self.rpl_user_flags@.len() == 8,
                forall|t: int| 0 <= t < j ==> self.rpl_user_flags@[t] == old(self).v@[t],
                forall|t: int| j <= t < 8 ==> self.rpl_user_flags@[t]
                    == old(self).rpl_user_flags@[t],
                eq_except_rpl_pc(*old(self), *self),
                self.pc == old(self).pc,
            decreases lim + 1 - j,
        {
            let b = self.v[j];
            self.rpl_user_flags[j] = b;
            j += 1;
        }
        self.pc = (self.pc + 2) % 4096;
    }

    /// Auxiliary-flag restore: V0..=VX filled from the 8 persistent flag
    /// bytes, cut off at the end of the flag store.
    pub fn op_load_rpl(&mut self, x: usize)
        requires
            old(self).wf(),
            x < 16,
        ensures
            final(self).wf(),
            forall|j: int| 0 <= j <= x && j < 8 ==> final(self).v@[j]
                == old(self).rpl_user_flags@[j],
            forall|j: int| 0 <= j < 16 && !(j <= x && j < 8) ==> final(self).v@[j]
                == old(self).v@[j],
            final(self).pc == pc_plus(old(self).pc, 2),
            eq_except_v_pc(*old(self), *final(self)),
    {
        let lim = if x < 7 {
            x
        } else {
            7
        };
        let mut j: usize = 0;
        while j <= lim
            invariant
                j <= lim + 1,
                lim < 8,
                lim == if x < 7 { x as int } else { 7 },
                self.v@.len() == 16,
                forall|t: int| 0 <= t < j ==> self.v@[t] == old(self).rpl_user_flags@[t],
                forall|t: int| j <= t < 16 ==> self.v@[t] == old(self).v@[t],
                eq_except_v_pc(*old(self), *self),
                self.pc == old(self).pc,
            decreases lim + 1 - j,
        {
            let b = self.rpl_user_flags[j];
            self.v[j] = b;
            j += 1;
        }
        self.pc = (self.pc + 2) % 4096;
    }

    /// Delay-timer load into VX.
    pub fn op_get_delay(&mut self, x: usize)
        requires
            old(self).wf(),
            x < 16,
        ensures
            final(self).wf(),
            final(self).v@ == old(self).v@.update(x as int, old(self).delay_timer),
            final(self).pc == pc_plus(old(self).pc, 2),
            eq_except_v_pc(*old(self), *final(self)),
    {
        let t = self.delay_timer;
        self.op_set_v(x, t);
    }

    /// Delay-timer store from VX.
    pub fn op_set_delay(&mut self, x: usize)
        requires
            old(self).wf(),
            x < 16,
        ensures
            final(self).wf(),
            final(self).delay_timer == old(self).v@[x as int],
            final(self).pc == pc_plus(old(self).pc, 2),
            eq_except_delay_pc(*old(self), *final(self)),
    {
        self.delay_timer = self.v[x];
        self.pc = (self.pc + 2) % 4096;
    }

    /// Sound-timer store from VX.
    pub fn op_set_sound(&mut self, x: usize)
        requires
            old(self).wf(),
            x < 16,
        ensures
            final(self).wf(),
            final(self).sound_timer == old(self).v@[x as int],
            final(self).pc == pc_plus(old(self).pc, 2),
            eq_except_sound_pc(*old(self), *final(self)),
    {
        self.sound_timer = self.v[x];
        self.pc = (self.pc + 2) % 4096;
    }

    /// Display-mode switch.
    pub fn op_set_mode(&mut self, extended: bool)
        requires
            old(self).wf(),
        ensures
            final(self).wf(),
            final(self).is_extended == extended,
            final(self).pc == pc_plus(old(self).pc, 2),
            eq_except_mode_pc(*old(self), *final(self)),
    {
        self.is_extended = extended;
        self.pc = (self.pc + 2) % 4096;
    }
}

/// The effective address `j` bytes above the index register; executable
/// counterpart of [`wrap_addr`].
pub fn wrapped_addr(i: u16, j: usize) -> (r: usize)
    requires
        j < 4096,
    ensures
        r == wrap_addr(i, j as int),
        r < 4096,
{
    let b = (i as usize) % 4096;
    if b + j < 4096 {
        b + j
    } else {
        b + j - 4096
    }
}

} // verus!
