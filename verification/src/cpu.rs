//! The machine state: memory, registers, stack, timers, key vector and
//! framebuffer, together with its well-formedness invariant, construction,
//! program loading, key input and the timer clock.

use vstd::prelude::*;

verus! {

/// Fatal conditions: a program image that does not fit below the end of
/// memory, and call-stack discipline violations. Stack violations are
/// reported as errors rather than wrapping the stack pointer, which would
/// corrupt unrelated stack slots; the machine state is left unchanged.
#[derive(Clone, Copy, PartialEq, Eq, Structural, Debug)]
pub enum Chip8Error {
    ProgramTooLarge,
    StackOverflow,
    StackUnderflow,
}

/// What a single step reports back to the driver. `Exit` is the
/// exit-interpreter instruction; `UnknownOpcode` carries an opcode that
/// matched no recognized pattern (execution has already continued past it).
#[derive(Clone, Copy, PartialEq, Eq, Structural, Debug)]
pub enum StepOutcome {
    Proceed,
    Exit,
    UnknownOpcode(u16),
}

/// The whole machine state. The framebuffer is one byte (0 or 1) per pixel,
/// stored row-major with a fixed stride of 128 columns and 64 rows; in base
/// (non-extended) mode only the top-left 64x32 region is drawn into, in
/// extended mode the full 128x64 surface.
pub struct CPU {
    /// 4096 bytes; 0x000..0x200 is reserved for font data.
    pub memory: Vec<u8>,
    /// The 16 general-purpose byte registers V0..VF. VF is the flag register.
    pub v: Vec<u8>,
    /// Index register; interpreted as a 12-bit address when memory is touched.
    pub i: u16,
    /// Program counter, always kept below 4096.
    pub pc: u16,
    /// Framebuffer: 128 * 64 pixel bytes, each 0 or 1.
    pub graphics: Vec<u8>,
    pub delay_timer: u8,
    pub sound_timer: u8,
    /// 16 return-address slots for subroutine calls.
    pub stack: Vec<u16>,
    /// Stack pointer, 0..=16; points at the first free slot.
    pub sp: u16,
    /// Key state, 16 logical keys, refreshed by the driver.
    pub key: Vec<bool>,
    /// Set when a sprite draw changed the framebuffer; the renderer clears it.
    pub draw_flag: bool,
    /// 8 auxiliary (RPL) flag bytes, touched only by the two dedicated
    /// save/restore instructions.
    pub rpl_user_flags: Vec<u8>,
    /// Extended (high-resolution) display mode.
    pub is_extended: bool,
    /// When execution is suspended inside the wait-for-key instruction, the
    /// destination register that the pressed key's index will be written to.
    pub awaiting_key: Option<u8>,
}

/// The font glyphs preloaded into low memory: 16 five-byte glyphs for the hex
/// digits, then 10 ten-byte glyphs for the decimal digits of extended mode.
pub open spec fn font_seq() -> Seq<u8> {
    seq![
        0xF0u8, 0x90, 0x90, 0x90, 0xF0, // 0
        0x20, 0x60, 0x20, 0x20, 0x70, // 1
        0xF0, 0x10, 0xF0, 0x80, 0xF0, // 2
        0xF0, 0x10, 0xF0, 0x10, 0xF0, // 3
        0x90, 0x90, 0xF0, 0x10, 0x10, // 4
        0xF0, 0x80, 0xF0, 0x10, 0xF0, // 5
        0xF0, 0x80, 0xF0, 0x90, 0xF0, // 6
        0xF0, 0x10, 0x20, 0x40, 0x40, // 7
        0xF0, 0x90, 0xF0, 0x90, 0xF0, // 8
        0xF0, 0x90, 0xF0, 0x10, 0xF0, // 9
        0xF0, 0x90, 0xF0, 0x90, 0x90, // A
        0xE0, 0x90, 0xE0, 0x90, 0xE0, // B
        0xF0, 0x80, 0x80, 0x80, 0xF0, // C
        0xE0, 0x90, 0x90, 0x90, 0xE0, // D
        0xF0, 0x80, 0xF0, 0x80, 0xF0, // E
        0xF0, 0x80, 0xF0, 0x80, 0x80, // F
        0x3C, 0x7E, 0xE7, 0xC3, 0xC3, 0xC3, 0xC3, 0xE7, 0x7E, 0x3C, // large 0
        0x18, 0x38, 0x58, 0x18, 0x18, 0x18, 0x18, 0x18, 0x18, 0x3C, // large 1
        0x3E, 0x7F, 0xC3, 0x06, 0x0C, 0x18, 0x30, 0x60, 0xFF, 0xFF, // large 2
        0x3C, 0x7E, 0xC3, 0x03, 0x0E, 0x0E, 0x03, 0xC3, 0x7E, 0x3C, // large 3
        0x06, 0x0E, 0x1E, 0x36, 0x66, 0xC6, 0xFF, 0xFF, 0x06, 0x06, // large 4
        0xFF, 0xFF, 0xC0, 0xC0, 0xFC, 0xFE, 0x03, 0xC3, 0x7E, 0x3C, // large 5
        0x3E, 0x7C, 0xC0, 0xC0, 0xFC, 0xFE, 0xC3, 0xC3, 0x7E, 0x3C, // large 6
        0xFF, 0xFF, 0x03, 0x06, 0x0C, 0x18, 0x30, 0x60, 0x60, 0x60, // large 7
        0x3C, 0x7E, 0xC3, 0xC3, 0x7E, 0x7E, 0xC3, 0xC3, 0x7E, 0x3C, // large 8
        0x3C, 0x7E, 0xC3, 0xC3, 0x7F, 0x3F, 0x03, 0x03, 0x3E, 0x7C, // large 9
    ]
}

impl CPU {
    /// Well-formedness: the fixed sizes of every component, the program
    /// counter and all stacked return addresses inside the address space, the
    /// stack pointer in range, every pixel byte 0 or 1, and a captured
    /// wait-for-key destination naming a real register.
    pub open spec fn wf(self) -> bool {
        &&& self.memory@.len() == 4096
        &&& self.v@.len() == 16
        &&& self.graphics@.len() == 8192
        &&& self.stack@.len() == 16
        &&& self.key@.len() == 16
        &&& self.rpl_user_flags@.len() == 8
        &&& self.pc < 4096
        &&& self.sp <= 16
        &&& (forall|k: int| 0 <= k < 16 ==> self.stack@[k] < 4096)
        &&& (forall|k: int| 0 <= k < 8192 ==> self.graphics@[k] <= 1)
        &&& (match self.awaiting_key {
            Some(x) => x < 16,
            None => true,
        })
    }

    /// A fresh machine: memory zeroed except for the font glyphs, all
    /// registers and timers zero, the program counter at 0x200, no keys
    /// pressed, base display mode, not waiting for a key.
    pub fn new() -> (c: CPU)
        ensures
            c.wf(),
            c.memory@.len() == 4096,
            forall|k: int| 0 <= k < 180 ==> c.memory@[k] == font_seq()[k],
            forall|k: int| 180 <= k < 4096 ==> c.memory@[k] == 0,
            forall|k: int| 0 <= k < 16 ==> c.v@[k] == 0,
            c.i == 0,
            c.pc == 0x200,
            forall|k: int| 0 <= k < 8192 ==> c.graphics@[k] == 0,
            c.delay_timer == 0,
            c.sound_timer == 0,
            forall|k: int| 0 <= k < 16 ==> c.stack@[k] == 0,
            c.sp == 0,
            forall|k: int| 0 <= k < 16 ==> c.key@[k] == false,
            c.draw_flag == false,
            forall|k: int| 0 <= k < 8 ==> c.rpl_user_flags@[k] == 0,
            c.is_extended == false,
            c.awaiting_key is None,
    {
        let font: [u8; 180] = [
            0xF0, 0x90, 0x90, 0x90, 0xF0, // 0
            0x20, 0x60, 0x20, 0x20, 0x70, // 1
            0xF0, 0x10, 0xF0, 0x80, 0xF0, // 2
            0xF0, 0x10, 0xF0, 0x10, 0xF0, // 3
            0x90, 0x90, 0xF0, 0x10, 0x10, // 4
            0xF0, 0x80, 0xF0, 0x10, 0xF0, // 5
            0xF0, 0x80, 0xF0, 0x90, 0xF0, // 6
            0xF0, 0x10, 0x20, 0x40, 0x40, // 7
            0xF0, 0x90, 0xF0, 0x90, 0xF0, // 8
            0xF0, 0x90, 0xF0, 0x10, 0xF0, // 9
            0xF0, 0x90, 0xF0, 0x90, 0x90, // A
            0xE0, 0x90, 0xE0, 0x90, 0xE0, // B
            0xF0, 0x80, 0x80, 0x80, 0xF0, // C
            0xE0, 0x90, 0x90, 0x90, 0xE0, // D
            0xF0, 0x80, 0xF0, 0x80, 0xF0, // E
            0xF0, 0x80, 0xF0, 0x80, 0x80, // F
            0x3C, 0x7E, 0xE7, 0xC3, 0xC3, 0xC3, 0xC3, 0xE7, 0x7E, 0x3C, // large 0
            0x18, 0x38, 0x58, 0x18, 0x18, 0x18, 0x18, 0x18, 0x18, 0x3C, // large 1
            0x3E, 0x7F, 0xC3, 0x06, 0x0C, 0x18, 0x30, 0x60, 0xFF, 0xFF, // large 2
            0x3C, 0x7E, 0xC3, 0x03, 0x0E, 0x0E, 0x03, 0xC3, 0x7E, 0x3C, // large 3
            0x06, 0x0E, 0x1E, 0x36, 0x66, 0xC6, 0xFF, 0xFF, 0x06, 0x06, // large 4
            0xFF, 0xFF, 0xC0, 0xC0, 0xFC, 0xFE, 0x03, 0xC3, 0x7E, 0x3C, // large 5
            0x3E, 0x7C, 0xC0, 0xC0, 0xFC, 0xFE, 0xC3, 0xC3, 0x7E, 0x3C, // large 6
            0xFF, 0xFF, 0x03, 0x06, 0x0C, 0x18, 0x30, 0x60, 0x60, 0x60, // large 7
            0x3C, 0x7E, 0xC3, 0xC3, 0x7E, 0x7E, 0xC3, 0xC3, 0x7E, 0x3C, // large 8
            0x3C, 0x7E, 0xC3, 0xC3, 0x7F, 0x3F, 0x03, 0x03, 0x3E, 0x7C, // large 9
        ];
        proof {
            assert(font@ =~= font_seq());
        }
        let mut memory: Vec<u8> = zero_bytes(4096);
        let mut j: usize = 0;
        while j < 180
            invariant
                j <= 180,
                memory@.len() == 4096,
                forall|k: int| 0 <= k < j ==> memory@[k] == font_seq()[k],
                forall|k: int| j <= k < 4096 ==> memory@[k] == 0,
            decreases 180 - j,
        {
            memory[j] = font[j];
            j += 1;
        }
        CPU {
            memory,
            v: zero_bytes(16),
            i: 0,
            pc: 0x200,
            graphics: zero_bytes(8192),
            delay_timer: 0,
            sound_timer: 0,
            stack: zero_words(16),
            sp: 0,
            key: false_flags(16),
            draw_flag: false,
            rpl_user_flags: zero_bytes(8),
            is_extended: false,
            awaiting_key: None,
        }
    }

    /// Copies a program image into memory starting at 0x200. Fails, leaving
    /// the machine untouched, exactly when the image is longer than the
    /// 4096 - 0x200 bytes that are left above the reserved region.
    pub fn load_game(&mut self, program: &Vec<u8>) -> (r: Result<(), Chip8Error>)
        requires
            old(self).wf(),
        ensures
            final(self).wf(),
            program@.len() > 3584 ==> r == Err::<(), Chip8Error>(Chip8Error::ProgramTooLarge)
                && *final(self) == *old(self),
            program@.len() <= 3584 ==> {
                &&& r == Ok::<(), Chip8Error>(())
                &&& forall|k: int|
                    0 <= k < program@.len() ==> final(self).memory@[0x200 + k] == program@[k]
                &&& forall|k: int|
                    0 <= k < 4096 && !(0x200 <= k < 0x200 + program@.len())
                        ==> final(self).memory@[k] == old(self).memory@[k]
                &&& eq_except_memory(*old(self), *final(self))
            },
    {
        if program.len() > 3584 {
            return Err(Chip8Error::ProgramTooLarge);
        }
        let n = program.len();
        let mut j: usize = 0;
        while j < n
            invariant
                j <= n,
                n == program@.len() <= 3584,
                self.memory@.len() == 4096,
                forall|k: int| 0 <= k < j ==> self.memory@[0x200 + k] == program@[k],
                forall|k: int|
                    0 <= k < 4096 && !(0x200 <= k < 0x200 + j)
                        ==> self.memory@[k] == old(self).memory@[k],
                eq_except_memory(*old(self), *self),
                old(self).wf(),
            decreases n - j,
        {
            self.memory[0x200 + j] = program[j];
            j += 1;
        }
        Ok(())
    }

    /// One byte of memory.
    pub fn read_byte(&self, addr: usize) -> (b: u8)
        requires
            self.wf(),
            addr < 4096,
        ensures
            b == self.memory@[addr as int],
    {
        self.memory[addr]
    }

    /// Stores one byte of memory; nothing else changes.
    pub fn write_byte(&mut self, addr: usize, val: u8)
        requires
            old(self).wf(),
            addr < 4096,
        ensures
            final(self).wf(),
            final(self).memory@ == old(self).memory@.update(addr as int, val),
            eq_except_memory(*old(self), *final(self)),
    {
        self.memory[addr] = val;
    }

    /// The framebuffer width the renderer should show in the current mode.
    pub fn display_width(&self) -> (w: usize)
        ensures
            w == (if self.is_extended {
                128int
            } else {
                64int
            }),
    {
        if self.is_extended {
            128
        } else {
            64
        }
    }

    /// The framebuffer height the renderer should show in the current mode.
    pub fn display_height(&self) -> (h: usize)
        ensures
            h == (if self.is_extended {
                64int
            } else {
                32int
            }),
    {
        if self.is_extended {
            64
        } else {
            32
        }
    }

    /// Replaces the key-state snapshot; everything else is untouched. The
    /// driver calls this once per iteration with its 16-entry mapping of
    /// physical keys.
    pub fn set_keys(&mut self, keys: &Vec<bool>)
        requires
            old(self).wf(),
            keys@.len() == 16,
        ensures
            final(self).wf(),
            final(self).key@ == keys@,
            eq_except_key(*old(self), *final(self)),
    {
        let mut j: usize = 0;
        while j < 16
            invariant
                j <= 16,
                keys@.len() == 16,
                self.key@.len() == 16,
                forall|k: int| 0 <= k < j ==> self.key@[k] == keys@[k],
                eq_except_key(*old(self), *self),
                old(self).wf(),
            decreases 16 - j,
        {
            let pressed = keys[j];
            self.key[j] = pressed;
            j += 1;
        }
        proof {
            assert(self.key@ =~= keys@);
        }
    }

    /// Advances the two countdown timers by one tick: each is decremented
    /// unless already zero. The driver calls this on its own cadence
    /// (canonically 60 times per second), independent of instruction
    /// throughput.
    pub fn tick_timers(&mut self)
        requires
            old(self).wf(),
        ensures
            final(self).wf(),
            final(self).delay_timer == (if old(self).delay_timer > 0 {
                (old(self).delay_timer - 1) as u8
            } else {
                0u8
            }),
            final(self).sound_timer == (if old(self).sound_timer > 0 {
                (old(self).sound_timer - 1) as u8
            } else {
                0u8
            }),
            eq_except_timers(*old(self), *final(self)),
    {
        if self.delay_timer > 0 {
            self.delay_timer = self.delay_timer - 1;
        }
        if self.sound_timer > 0 {
            self.sound_timer = self.sound_timer - 1;
        }
    }
}

/// A vector of `n` zero bytes.
pub fn zero_bytes(n: usize) -> (r: Vec<u8>)
    ensures
        r@.len() == n,
        forall|k: int| 0 <= k < n ==> r@[k] == 0,
{
    let mut r: Vec<u8> = Vec::new();
    while r.len() < n
        invariant
            r@.len() <= n,
            forall|k: int| 0 <= k < r@.len() ==> r@[k] == 0,
        decreases n - r@.len(),
    {
        r.push(0);
    }
    r
}

/// A vector of `n` zero 16-bit words.
pub fn zero_words(n: usize) -> (r: Vec<u16>)
    ensures
        r@.len() == n,
        forall|k: int| 0 <= k < n ==> r@[k] == 0,
{
    let mut r: Vec<u16> = Vec::new();
    while r.len() < n
        invariant
            r@.len() <= n,
            forall|k: int| 0 <= k < r@.len() ==> r@[k] == 0,
        decreases n - r@.len(),
    {
        r.push(0);
    }
    r
}

/// A vector of `n` cleared flags.
pub fn false_flags(n: usize) -> (r: Vec<bool>)
    ensures
        r@.len() == n,
        forall|k: int| 0 <= k < n ==> r@[k] == false,
{
    let mut r: Vec<bool> = Vec::new();
    while r.len() < n
        invariant
            r@.len() <= n,
            forall|k: int| 0 <= k < r@.len() ==> r@[k] == false,
        decreases n - r@.len(),
    {
        r.push(false);
    }
    r
}

/// All fields except `memory` agree.
pub open spec fn eq_except_memory(a: CPU, b: CPU) -> bool {
    &&& b.v == a.v
    &&& b.i == a.i
    &&& b.pc == a.pc
    &&& b.graphics == a.graphics
    &&& b.delay_timer == a.delay_timer
    &&& b.sound_timer == a.sound_timer
    &&& b.stack == a.stack
    &&& b.sp == a.sp
    &&& b.key == a.key
    &&& b.draw_flag == a.draw_flag
    &&& b.rpl_user_flags == a.rpl_user_flags
    &&& b.is_extended == a.is_extended
    &&& b.awaiting_key == a.awaiting_key
}

/// All fields except `key` agree.
pub open spec fn eq_except_key(a: CPU, b: CPU) -> bool {
    &&& b.memory == a.memory
    &&& b.v == a.v
    &&& b.i == a.i
    &&& b.pc == a.pc
    &&& b.graphics == a.graphics
    &&& b.delay_timer == a.delay_timer
    &&& b.sound_timer == a.sound_timer
    &&& b.stack == a.stack
    &&& b.sp == a.sp
    &&& b.draw_flag == a.draw_flag
    &&& b.rpl_user_flags == a.rpl_user_flags
    &&& b.is_extended == a.is_extended
    &&& b.awaiting_key == a.awaiting_key
}

/// All fields except the two timers agree.
pub open spec fn eq_except_timers(a: CPU, b: CPU) -> bool {
    &&& b.memory == a.memory
    &&& b.v == a.v
    &&& b.i == a.i
    &&& b.pc == a.pc
    &&& b.graphics == a.graphics
    &&& b.stack == a.stack
    &&& b.sp == a.sp
    &&& b.key == a.key
    &&& b.draw_flag == a.draw_flag
    &&& b.rpl_user_flags == a.rpl_user_flags
    &&& b.is_extended == a.is_extended
    &&& b.awaiting_key == a.awaiting_key
}

} // verus!
