//! A CHIP-8 interpreter: the game core shown on the games page.
//!
//! The machine is 4096 bytes of memory, sixteen 8-bit registers, an
//! address register, a 64x32 one-byte-per-pixel display, a sixteen-key
//! keypad, a sixteen-deep call stack, a delay timer and a
//! complementary-multiply-with-carry random generator.  One cycle
//! fetches the two-byte opcode at the program counter and applies it;
//! the whole transition is stated as a specification function, and the
//! interpreter is proved to follow it exactly.
//!
//! Where the classic machine would run off an edge — a call with a full
//! stack, a return with an empty one, a register dump past the end of
//! memory — this interpreter stays total: addresses wrap at the 4 KiB
//! address space and out-of-range writes are skipped, so no input, not
//! even a hostile ROM, can make a cycle fail.

use vstd::prelude::*;

verus! {

/// Bytes of machine memory.
pub const CHIP8_MEMORY_SIZE: usize = 4096;

/// Pixels of the display: 64 columns by 32 rows, one byte each.
pub const CHIP8_DISPLAY_SIZE: usize = 2048;

/// Where a loaded ROM begins.
pub const CHIP8_ROM_OFFSET: usize = 512;

/// Lag of the random generator.
pub const CMWC_CYCLE: usize = 4096;

/// The whole machine state, at the specification level.
#[verifier::ext_equal]
pub ghost struct Chip8View {
    pub memory: Seq<u8>,
    pub v: Seq<u8>,
    pub display: Seq<u8>,
    pub keys: Seq<bool>,
    pub stack: Seq<u16>,
    pub i: u16,
    pub pc: u16,
    pub dt: u8,
    pub sp: u8,
    pub rand_q: Seq<u32>,
    pub rand_c: u32,
    pub rand_i: int,
}

/// A machine state that is in shape: every array its fixed size, the
/// program counter inside memory, the stack pointer inside the stack,
/// the random index inside its lag.
pub open spec fn wf_view(s: Chip8View) -> bool {
    &&& s.memory.len() == CHIP8_MEMORY_SIZE
    &&& s.v.len() == 16
    &&& s.display.len() == CHIP8_DISPLAY_SIZE
    &&& s.keys.len() == 16
    &&& s.stack.len() == 16
    &&& s.pc < CHIP8_MEMORY_SIZE
    &&& s.sp <= 16
    &&& (forall|k: int| 0 <= k < 16 ==> (s.stack[k] as int) < CHIP8_MEMORY_SIZE as int)
    &&& s.rand_q.len() == CMWC_CYCLE
    &&& 0 <= s.rand_i < CMWC_CYCLE
}

/// One step of the random generator: the next index, carry and value of
/// the complementary multiply-with-carry sequence.
pub open spec fn spec_rand_next(s: Chip8View) -> (Chip8View, u32) {
    let ni = (s.rand_i + 1) % (CMWC_CYCLE as int);
    let t = 18782 * s.rand_q[ni] + s.rand_c;
    let c1 = t / 4294967296;
    let x0 = (t + c1) % 4294967296;
    let x1 = if x0 < c1 {
        x0 + 1
    } else {
        x0
    };
    let c2 = if x0 < c1 {
        c1 + 1
    } else {
        c1
    };
    let val = if x1 <= 0xfffffffe {
        0xfffffffe - x1
    } else {
        0xffffffff
    };
    (
        Chip8View {
            rand_q: s.rand_q.update(ni, val as u32),
            rand_c: c2 as u32,
            rand_i: ni,
            ..s
        },
        val as u32,
    )
}

/// The program counter advanced past one opcode, wrapping at the end of
/// the address space.
pub open spec fn spec_pc2(pc: u16) -> u16 {
    (((pc + 2) % (CHIP8_MEMORY_SIZE as int)) as u16)
}

/// The display with the pixel at column `px`, row `py` flipped; paired
/// with whether a lit pixel was cleared.
pub open spec fn spec_flip_pixel(disp: Seq<u8>, px: int, py: int) -> (Seq<u8>, bool) {
    let idx = py * 64 + px;
    if disp[idx] == 1 {
        (disp.update(idx, 0u8), true)
    } else {
        (disp.update(idx, 1u8), false)
    }
}

/// Draw the bits `c..8` of one sprite byte on row `py` starting at
/// column `x0`, wrapping at the display edges; the flag collects
/// collisions.
pub open spec fn spec_draw_row(disp: Seq<u8>, byte: u8, x0: int, py: int, c: int) -> (
    Seq<u8>,
    bool,
)
    decreases 8 - c,
{
    if c < 0 || c >= 8 {
        (disp, false)
    } else {
        let bit = ((byte as int) / pow2_of(7 - c)) % 2;
        if bit == 1 {
            let px = (x0 + c) % 64;
            let (d1, col1) = spec_flip_pixel(disp, px, py);
            let (d2, col2) = spec_draw_row(d1, byte, x0, py, c + 1);
            (d2, col1 || col2)
        } else {
            spec_draw_row(disp, byte, x0, py, c + 1)
        }
    }
}

/// The low powers of two, for picking sprite bits apart.
pub open spec fn pow2_of(k: int) -> int {
    if k <= 0 {
        1
    } else if k == 1 {
        2
    } else if k == 2 {
        4
    } else if k == 3 {
        8
    } else if k == 4 {
        16
    } else if k == 5 {
        32
    } else if k == 6 {
        64
    } else {
        128
    }
}

/// Draw sprite rows `r..n` read from memory at `i`, wrapping addresses
/// and display rows.
pub open spec fn spec_draw(
    disp: Seq<u8>,
    mem: Seq<u8>,
    i: int,
    x0: int,
    y0: int,
    r: int,
    n: int,
) -> (Seq<u8>, bool)
    decreases n - r,
{
    if r < 0 || r >= n {
        (disp, false)
    } else {
        let byte = mem[(i + r) % (CHIP8_MEMORY_SIZE as int)];
        let py = (y0 + r) % 32;
        let (d1, col1) = spec_draw_row(disp, byte, x0, py, 0);
        let (d2, col2) = spec_draw(d1, mem, i, x0, y0, r + 1, n);
        (d2, col1 || col2)
    }
}

/// Registers `k..=x` stored to memory at `i + k`, skipping any write
/// that would fall outside memory.
pub open spec fn spec_store_regs(mem: Seq<u8>, v: Seq<u8>, i: int, x: int, k: int) -> Seq<u8>
    decreases x - k + 1,
{
    if k < 0 || k > x {
        mem
    } else {
        let m1 = if 0 <= i + k < CHIP8_MEMORY_SIZE as int {
            mem.update(i + k, v[k])
        } else {
            mem
        };
        spec_store_regs(m1, v, i, x, k + 1)
    }
}

/// Registers `k..=x` loaded from memory at `i + k`, reads outside
/// memory leaving the register as it was.
pub open spec fn spec_load_regs(mem: Seq<u8>, v: Seq<u8>, i: int, x: int, k: int) -> Seq<u8>
    decreases x - k + 1,
{
    if k < 0 || k > x {
        v
    } else {
        let v1 = if 0 <= i + k < CHIP8_MEMORY_SIZE as int {
            v.update(k, mem[i + k])
        } else {
            v
        };
        spec_load_regs(mem, v1, i, x, k + 1)
    }
}

/// The lowest pressed key, if any: what the wait-for-key opcode reads.
pub open spec fn spec_first_key(keys: Seq<bool>, k: int) -> Option<u8>
    decreases 16 - k,
{
    if k < 0 || k >= 16 {
        None
    } else if keys[k] {
        Some(k as u8)
    } else {
        spec_first_key(keys, k + 1)
    }
}

/// One whole machine cycle: fetch the opcode at the program counter and
/// apply it.  With no room left to fetch, the machine halts in place.
pub open spec fn spec_step(s: Chip8View) -> Chip8View {
    if s.pc + 1 >= CHIP8_MEMORY_SIZE as int {
        s
    } else {
        let hi = s.memory[s.pc as int] as int;
        let lo = s.memory[s.pc + 1] as int;
        let op = hi * 256 + lo;
        let nib = op / 4096;
        let x = (op / 256) % 16;
        let y = (op / 16) % 16;
        let kk = (op % 256) as u8;
        let n = op % 16;
        let nnn = (op % 4096) as u16;
        let pc2 = spec_pc2(s.pc);
        let pc4 = spec_pc2(pc2);
        if nib == 0 {
            if op == 0x00e0 {
                Chip8View { display: Seq::new(CHIP8_DISPLAY_SIZE as nat, |k: int| 0u8), pc: pc2, ..s }
            } else if op == 0x00ee {
                if s.sp > 0 {
                    Chip8View { sp: (s.sp - 1) as u8, pc: s.stack[s.sp - 1], ..s }
                } else {
                    Chip8View { pc: pc2, ..s }
                }
            } else {
                Chip8View { pc: pc2, ..s }
            }
        } else if nib == 1 {
            Chip8View { pc: nnn, ..s }
        } else if nib == 2 {
            if s.sp < 16 {
                Chip8View { stack: s.stack.update(s.sp as int, pc2), sp: (s.sp + 1) as u8, pc: nnn, ..s }
            } else {
                Chip8View { pc: nnn, ..s }
            }
        } else if nib == 3 {
            Chip8View { pc: if s.v[x] == kk { pc4 } else { pc2 }, ..s }
        } else if nib == 4 {
            Chip8View { pc: if s.v[x] != kk { pc4 } else { pc2 }, ..s }
        } else if nib == 5 {
            if n == 0 {
                Chip8View { pc: if s.v[x] == s.v[y] { pc4 } else { pc2 }, ..s }
            } else {
                Chip8View { pc: pc2, ..s }
            }
        } else if nib == 6 {
            Chip8View { v: s.v.update(x, kk), pc: pc2, ..s }
        } else if nib == 7 {
            Chip8View { v: s.v.update(x, ((s.v[x] + kk) % 256) as u8), pc: pc2, ..s }
        } else if nib == 8 {
            spec_alu(s, x, y, n, pc2)
        } else if nib == 9 {
            Chip8View { pc: if s.v[x] != s.v[y] { pc4 } else { pc2 }, ..s }
        } else if nib == 10 {
            Chip8View { i: nnn, pc: pc2, ..s }
        } else if nib == 11 {
            Chip8View { pc: (((nnn + s.v[0int]) % 4096) as u16), ..s }
        } else if nib == 12 {
            let (s1, r) = spec_rand_next(s);
            Chip8View { v: s1.v.update(x, (r & (kk as u32)) as u8), pc: pc2, ..s1 }
        } else if nib == 13 {
            let (d, col) = spec_draw(
                s.display,
                s.memory,
                s.i as int,
                (s.v[x] % 64) as int,
                (s.v[y] % 32) as int,
                0,
                n,
            );
            Chip8View { display: d, v: s.v.update(15, if col { 1u8 } else { 0u8 }), pc: pc2, ..s }
        } else if nib == 14 {
            if kk == 0x9e {
                Chip8View { pc: if s.keys[(s.v[x] % 16) as int] { pc4 } else { pc2 }, ..s }
            } else if kk == 0xa1 {
                Chip8View { pc: if !s.keys[(s.v[x] % 16) as int] { pc4 } else { pc2 }, ..s }
            } else {
                Chip8View { pc: pc2, ..s }
            }
        } else {
            spec_fx(s, x, kk, pc2)
        }
    }
}

/// The arithmetic and logic family (opcodes `8XYn`).
pub open spec fn spec_alu(s: Chip8View, x: int, y: int, n: int, pc2: u16) -> Chip8View {
    if n == 0 {
        Chip8View { v: s.v.update(x, s.v[y]), pc: pc2, ..s }
    } else if n == 1 {
        Chip8View { v: s.v.update(x, (s.v[x] | s.v[y]) as u8), pc: pc2, ..s }
    } else if n == 2 {
        Chip8View { v: s.v.update(x, (s.v[x] & s.v[y]) as u8), pc: pc2, ..s }
    } else if n == 3 {
        Chip8View { v: s.v.update(x, (s.v[x] ^ s.v[y]) as u8), pc: pc2, ..s }
    } else if n == 4 {
        let sum = s.v[x] + s.v[y];
        Chip8View {
            v: s.v.update(x, (sum % 256) as u8).update(15, if sum >= 256 { 1u8 } else { 0u8 }),
            pc: pc2,
            ..s
        }
    } else if n == 5 {
        let flag: u8 = if s.v[x] >= s.v[y] { 1u8 } else { 0u8 };
        let diff = if s.v[x] >= s.v[y] { s.v[x] - s.v[y] } else { s.v[x] + 256 - s.v[y] };
        Chip8View { v: s.v.update(x, diff as u8).update(15, flag), pc: pc2, ..s }
    } else if n == 6 {
        let flag: u8 = (s.v[x] % 2) as u8;
        Chip8View { v: s.v.update(x, (s.v[x] / 2) as u8).update(15, flag), pc: pc2, ..s }
    } else if n == 7 {
        let flag: u8 = if s.v[y] >= s.v[x] { 1u8 } else { 0u8 };
        let diff = if s.v[y] >= s.v[x] { s.v[y] - s.v[x] } else { s.v[y] + 256 - s.v[x] };
        Chip8View { v: s.v.update(x, diff as u8).update(15, flag), pc: pc2, ..s }
    } else if n == 14 {
        let flag: u8 = (s.v[x] / 128) as u8;
        Chip8View { v: s.v.update(x, ((s.v[x] * 2) % 256) as u8).update(15, flag), pc: pc2, ..s }
    } else {
        Chip8View { pc: pc2, ..s }
    }
}

/// The timer, memory and keypad family (opcodes `FXkk`).
pub open spec fn spec_fx(s: Chip8View, x: int, kk: u8, pc2: u16) -> Chip8View {
    if kk == 0x07 {
        Chip8View { v: s.v.update(x, s.dt), pc: pc2, ..s }
    } else if kk == 0x0a {
        match spec_first_key(s.keys, 0) {
            Some(k) => Chip8View { v: s.v.update(x, k), pc: pc2, ..s },
            None => s,
        }
    } else if kk == 0x15 {
        Chip8View { dt: s.v[x], pc: pc2, ..s }
    } else if kk == 0x1e {
        Chip8View { i: (((s.i + s.v[x]) % 4096) as u16), pc: pc2, ..s }
    } else if kk == 0x29 {
        Chip8View { i: ((s.v[x] % 16) * 5) as u16, pc: pc2, ..s }
    } else if kk == 0x33 {
        let m = if s.i + 2 < CHIP8_MEMORY_SIZE as int {
            s.memory.update(s.i as int, (s.v[x] / 100) as u8).update(
                s.i + 1,
                ((s.v[x] / 10) % 10) as u8,
            ).update(s.i + 2, (s.v[x] % 10) as u8)
        } else {
            s.memory
        };
        Chip8View { memory: m, pc: pc2, ..s }
    } else if kk == 0x55 {
        Chip8View { memory: spec_store_regs(s.memory, s.v, s.i as int, x, 0), pc: pc2, ..s }
    } else if kk == 0x65 {
        Chip8View { v: spec_load_regs(s.memory, s.v, s.i as int, x, 0), pc: pc2, ..s }
    } else {
        Chip8View { pc: pc2, ..s }
    }
}

/// `n` machine cycles from `s`.
pub open spec fn spec_cycles(s: Chip8View, n: nat) -> Chip8View
    decreases n,
{
    if n == 0 {
        s
    } else {
        spec_step(spec_cycles(s, (n - 1) as nat))
    }
}

/// The delay timer after one tick.
pub open spec fn spec_tick_dt(s: Chip8View) -> Chip8View {
    Chip8View { dt: if s.dt > 0 { (s.dt - 1) as u8 } else { 0u8 }, ..s }
}

/// The machine at power-on: everything zero.
pub open spec fn spec_power_on() -> Chip8View {
    Chip8View {
        memory: Seq::new(CHIP8_MEMORY_SIZE as nat, |k: int| 0u8),
        v: Seq::new(16, |k: int| 0u8),
        display: Seq::new(CHIP8_DISPLAY_SIZE as nat, |k: int| 0u8),
        keys: Seq::new(16, |k: int| false),
        stack: Seq::new(16, |k: int| 0u16),
        i: 0,
        pc: 0,
        dt: 0,
        sp: 0,
        rand_q: Seq::new(CMWC_CYCLE as nat, |k: int| 0u32),
        rand_c: 0,
        rand_i: 0,
    }
}

/// The machine after a reset: cleared, with the program counter at the
/// ROM start.
pub open spec fn spec_reset() -> Chip8View {
    Chip8View { pc: CHIP8_ROM_OFFSET as u16, ..spec_power_on() }
}

/// Memory with a ROM image laid in at the ROM offset.
pub open spec fn spec_load_rom(mem: Seq<u8>, rom: Seq<u8>) -> Seq<u8> {
    Seq::new(
        mem.len(),
        |k: int|
            if CHIP8_ROM_OFFSET <= k < CHIP8_ROM_OFFSET + rom.len() {
                rom[k - CHIP8_ROM_OFFSET]
            } else {
                mem[k]
            },
    )
}

/// A vector of `n` zero bytes.
fn zero_u8s(n: usize) -> (v: Vec<u8>)
    ensures
        v@ == Seq::new(n as nat, |k: int| 0u8),
{
    let mut v: Vec<u8> = Vec::new();
    crate::bytes::push_repeat(&mut v, 0, n);
    proof {
        assert(v@ =~= Seq::new(n as nat, |k: int| 0u8));
    }
    v
}

/// A vector of `n` zero words.
fn zero_u16s(n: usize) -> (v: Vec<u16>)
    ensures
        v@ == Seq::new(n as nat, |k: int| 0u16),
{
    let mut v: Vec<u16> = Vec::new();
    let mut i: usize = 0;
    while i < n
        invariant
            i <= n,
            v@ == Seq::new(i as nat, |k: int| 0u16),
        decreases n - i,
    {
        v.push(0);
        proof {
            assert(v@ =~= Seq::new((i + 1) as nat, |k: int| 0u16));
        }
        i += 1;
    }
    v
}

/// A vector of `n` zero double words.
fn zero_u32s(n: usize) -> (v: Vec<u32>)
    ensures
        v@ == Seq::new(n as nat, |k: int| 0u32),
{
    let mut v: Vec<u32> = Vec::new();
    let mut i: usize = 0;
    while i < n
        invariant
            i <= n,
            v@ == Seq::new(i as nat, |k: int| 0u32),
        decreases n - i,
    {
        v.push(0);
        proof {
            assert(v@ =~= Seq::new((i + 1) as nat, |k: int| 0u32));
        }
        i += 1;
    }
    v
}

/// A vector of `n` released keys.
fn no_keys(n: usize) -> (v: Vec<bool>)
    ensures
        v@ == Seq::new(n as nat, |k: int| false),
{
    let mut v: Vec<bool> = Vec::new();
    let mut i: usize = 0;
    while i < n
        invariant
            i <= n,
            v@ == Seq::new(i as nat, |k: int| false),
        decreases n - i,
    {
        v.push(false);
        proof {
            assert(v@ =~= Seq::new((i + 1) as nat, |k: int| false));
        }
        i += 1;
    }
    v
}

/// The power of two for a sprite bit position.
fn pow2_exec(k: usize) -> (r: u8)
    requires
        k <= 7,
    ensures
        r == pow2_of(k as int),
{
    if k == 0 {
        1
    } else if k == 1 {
        2
    } else if k == 2 {
        4
    } else if k == 3 {
        8
    } else if k == 4 {
        16
    } else if k == 5 {
        32
    } else if k == 6 {
        64
    } else {
        128
    }
}

/// The interpreter.  Its behaviour is `spec_step`, one cycle at a time.
pub struct Chip8 {
    memory: Vec<u8>,
    v: Vec<u8>,
    display: Vec<u8>,
    keys: Vec<bool>,
    stack: Vec<u16>,
    i: u16,
    pc: u16,
    dt: u8,
    sp: u8,
    rand_q: Vec<u32>,
    rand_c: u32,
    rand_i: usize,
}

impl View for Chip8 {
    type V = Chip8View;

    closed spec fn view(&self) -> Chip8View {
        Chip8View {
            memory: self.memory@,
            v: self.v@,
            display: self.display@,
            keys: self.keys@,
            stack: self.stack@,
            i: self.i,
            pc: self.pc,
            dt: self.dt,
            sp: self.sp,
            rand_q: self.rand_q@,
            rand_c: self.rand_c,
            rand_i: self.rand_i as int,
        }
    }
}

impl Chip8 {
    /// A machine at power-on.
    pub fn new() -> (c: Chip8)
        ensures
            c@ == spec_power_on(),
            wf_view(c@),
    {
        let c = Chip8 {
            memory: zero_u8s(CHIP8_MEMORY_SIZE),
            v: zero_u8s(16),
            display: zero_u8s(CHIP8_DISPLAY_SIZE),
            keys: no_keys(16),
            stack: zero_u16s(16),
            i: 0,
            pc: 0,
            dt: 0,
            sp: 0,
            rand_q: zero_u32s(CMWC_CYCLE),
            rand_c: 0,
            rand_i: 0,
        };
        proof {
            assert(c@ =~= spec_power_on());
        }
        c
    }

    /// Clear the machine and park the program counter at the ROM start.
    pub fn reset(&mut self)
        ensures
            final(self)@ == spec_reset(),
            wf_view(final(self)@),
    {
        self.memory = zero_u8s(CHIP8_MEMORY_SIZE);
        self.v = zero_u8s(16);
        self.display = zero_u8s(CHIP8_DISPLAY_SIZE);
        self.keys = no_keys(16);
        self.stack = zero_u16s(16);
        self.i = 0;
        self.pc = 512;
        self.dt = 0;
        self.sp = 0;
        self.rand_q = zero_u32s(CMWC_CYCLE);
        self.rand_c = 0;
        self.rand_i = 0;
        proof {
            assert(self@ =~= spec_reset());
        }
    }

    /// Lay a ROM image into memory at the ROM offset; everything else is
    /// untouched.
    pub fn load_rom(&mut self, rom: &[u8])
        requires
            wf_view(old(self)@),
            rom@.len() <= CHIP8_MEMORY_SIZE - CHIP8_ROM_OFFSET,
        ensures
            final(self)@ == (Chip8View {
                memory: spec_load_rom(old(self)@.memory, rom@),
                ..old(self)@
            }),
            wf_view(final(self)@),
    {
        let n = rom.len();
        let mut idx: usize = 0;
        while idx < n
            invariant
                n == rom@.len(),
                n <= CHIP8_MEMORY_SIZE - CHIP8_ROM_OFFSET,
                idx <= n,
                self@.memory.len() == CHIP8_MEMORY_SIZE,
                forall|k: int|
                    CHIP8_ROM_OFFSET <= k < CHIP8_ROM_OFFSET + idx ==> self@.memory[k] == rom@[k
                        - CHIP8_ROM_OFFSET],
                forall|k: int|
                    0 <= k < CHIP8_MEMORY_SIZE && !(CHIP8_ROM_OFFSET <= k < CHIP8_ROM_OFFSET + idx)
                        ==> self@.memory[k] == old(self)@.memory[k],
                self@ == (Chip8View { memory: self@.memory, ..old(self)@ }),
            decreases n - idx,
        {
            let b = rom[idx];
            self.memory.set(CHIP8_ROM_OFFSET + idx, b);
            idx += 1;
        }
        proof {
            assert(self@.memory =~= spec_load_rom(old(self)@.memory, rom@));
            assert(self@ =~= (Chip8View {
                memory: spec_load_rom(old(self)@.memory, rom@),
                ..old(self)@
            }));
        }
    }

    /// The machine's memory.
    pub fn get_memory(&self) -> (r: &Vec<u8>)
        ensures
            r@ == self@.memory,
    {
        &self.memory
    }

    /// The display, one byte per pixel, row after row.
    pub fn get_display(&self) -> (r: &Vec<u8>)
        ensures
            r@ == self@.display,
    {
        &self.display
    }

    /// Press the numbered key.
    pub fn key_down(&mut self, i: u8)
        requires
            wf_view(old(self)@),
            i < 16,
        ensures
            final(self)@ == (Chip8View { keys: old(self)@.keys.update(i as int, true), ..old(self)@ }),
            wf_view(final(self)@),
    {
        self.keys.set(i as usize, true);
    }

    /// Release the numbered key.
    pub fn key_up(&mut self, i: u8)
        requires
            wf_view(old(self)@),
            i < 16,
        ensures
            final(self)@ == (Chip8View { keys: old(self)@.keys.update(i as int, false), ..old(self)@ }),
            wf_view(final(self)@),
    {
        self.keys.set(i as usize, false);
    }

    /// The sixteen data registers.
    pub fn get_register_v(&self) -> (r: &Vec<u8>)
        ensures
            r@ == self@.v,
    {
        &self.v
    }

    /// The address register.
    pub fn get_register_i(&self) -> (r: u16)
        ensures
            r == self@.i,
    {
        self.i
    }

    /// The program counter.
    pub fn get_register_pc(&self) -> (r: u16)
        ensures
            r == self@.pc,
    {
        self.pc
    }

    /// Tick the delay timer down.
    pub fn decrement_timers(&mut self)
        ensures
            final(self)@ == spec_tick_dt(old(self)@),
    {
        if self.dt > 0 {
            self.dt = self.dt - 1;
        }
        proof {
            assert(self@ =~= spec_tick_dt(old(self)@));
        }
    }

    /// One step of the random generator.
    fn random_u32(&mut self) -> (r: u32)
        requires
            wf_view(old(self)@),
        ensures
            final(self)@ == spec_rand_next(old(self)@).0,
            r == spec_rand_next(old(self)@).1,
            wf_view(final(self)@),
    {
        let ni = (self.rand_i + 1) % CMWC_CYCLE;
        let t: u64 = 18782u64 * (self.rand_q[ni] as u64) + (self.rand_c as u64);
        let c1: u64 = t / 4294967296u64;
        let x0: u64 = (t + c1) % 4294967296u64;
        let x1: u64 = if x0 < c1 {
            x0 + 1
        } else {
            x0
        };
        let c2: u64 = if x0 < c1 {
            c1 + 1
        } else {
            c1
        };
        let val: u32 = if x1 <= 0xfffffffe {
            (0xfffffffeu64 - x1) as u32
        } else {
            0xffffffff
        };
        self.rand_q.set(ni, val);
        self.rand_c = c2 as u32;
        self.rand_i = ni;
        proof {
            assert(self@ =~= spec_rand_next(old(self)@).0);
        }
        val
    }

    /// Flip one pixel; report whether a lit pixel was cleared.
    fn flip_pixel(&mut self, px: usize, py: usize) -> (col: bool)
        requires
            wf_view(old(self)@),
            px < 64,
            py < 32,
        ensures
            final(self)@ == (Chip8View {
                display: spec_flip_pixel(old(self)@.display, px as int, py as int).0,
                ..old(self)@
            }),
            col == spec_flip_pixel(old(self)@.display, px as int, py as int).1,
            wf_view(final(self)@),
    {
        let idx = py * 64 + px;
        if self.display[idx] == 1 {
            self.display.set(idx, 0);
            true
        } else {
            self.display.set(idx, 1);
            false
        }
    }

    /// Draw the bits `c..8` of one sprite byte.
    fn draw_row(&mut self, byte: u8, x0: usize, py: usize, c: usize) -> (col: bool)
        requires
            wf_view(old(self)@),
            x0 < 64,
            py < 32,
            c <= 8,
        ensures
            final(self)@ == (Chip8View {
                display: spec_draw_row(old(self)@.display, byte, x0 as int, py as int, c as int).0,
                ..old(self)@
            }),
            col == spec_draw_row(old(self)@.display, byte, x0 as int, py as int, c as int).1,
            wf_view(final(self)@),
        decreases 8 - c,
    {
        if c >= 8 {
            proof {
                assert(self@ =~= (Chip8View { display: self@.display, ..self@ }));
            }
            return false;
        }
        let p = pow2_exec(7 - c);
        let bit = (byte / p) % 2;
        if bit == 1 {
            let px = (x0 + c) % 64;
            let c1 = self.flip_pixel(px, py);
            let c2 = self.draw_row(byte, x0, py, c + 1);
            c1 || c2
        } else {
            self.draw_row(byte, x0, py, c + 1)
        }
    }

    /// Draw sprite rows `r..n` from memory at the address register.
    fn draw_sprite(&mut self, x0: usize, y0: usize, r: usize, n: usize) -> (col: bool)
        requires
            wf_view(old(self)@),
            x0 < 64,
            y0 < 32,
            r <= n,
            n <= 16,
        ensures
            final(self)@ == (Chip8View {
                display: spec_draw(
                    old(self)@.display,
                    old(self)@.memory,
                    old(self)@.i as int,
                    x0 as int,
                    y0 as int,
                    r as int,
                    n as int,
                ).0,
                ..old(self)@
            }),
            col == spec_draw(
                old(self)@.display,
                old(self)@.memory,
                old(self)@.i as int,
                x0 as int,
                y0 as int,
                r as int,
                n as int,
            ).1,
            wf_view(final(self)@),
        decreases n - r,
    {
        if r >= n {
            proof {
                assert(self@ =~= (Chip8View { display: self@.display, ..self@ }));
            }
            return false;
        }
        let addr = ((self.i as usize) + r) % CHIP8_MEMORY_SIZE;
        let byte = self.memory[addr];
        let py = (y0 + r) % 32;
        let c1 = self.draw_row(byte, x0, py, 0);
        let c2 = self.draw_sprite(x0, y0, r + 1, n);
        c1 || c2
    }

    /// Store registers `k..=x` into memory at the address register.
    fn store_regs(&mut self, x: usize, k: usize)
        requires
            wf_view(old(self)@),
            x < 16,
            k <= x + 1,
        ensures
            final(self)@ == (Chip8View {
                memory: spec_store_regs(
                    old(self)@.memory,
                    old(self)@.v,
                    old(self)@.i as int,
                    x as int,
                    k as int,
                ),
                ..old(self)@
            }),
            wf_view(final(self)@),
        decreases x + 1 - k,
    {
        if k > x {
            proof {
                assert(self@ =~= (Chip8View { memory: self@.memory, ..self@ }));
            }
            return ;
        }
        let addr = (self.i as usize) + k;
        if addr < CHIP8_MEMORY_SIZE {
            let b = self.v[k];
            self.memory.set(addr, b);
        }
        self.store_regs(x, k + 1);
    }

    /// Load registers `k..=x` from memory at the address register.
    fn load_regs(&mut self, x: usize, k: usize)
        requires
            wf_view(old(self)@),
            x < 16,
            k <= x + 1,
        ensures
            final(self)@ == (Chip8View {
                v: spec_load_regs(
                    old(self)@.memory,
                    old(self)@.v,
                    old(self)@.i as int,
                    x as int,
                    k as int,
                ),
                ..old(self)@
            }),
            wf_view(final(self)@),
        decreases x + 1 - k,
    {
        if k > x {
            proof {
                assert(self@ =~= (Chip8View { v: self@.v, ..self@ }));
            }
            return ;
        }
        let addr = (self.i as usize) + k;
        if addr < CHIP8_MEMORY_SIZE {
            let b = self.memory[addr];
            self.v.set(k, b);
        }
        self.load_regs(x, k + 1);
    }

    /// The lowest pressed key.
    fn first_key(&self, k: usize) -> (r: Option<u8>)
        requires
            wf_view(self@),
            k <= 16,
        ensures
            r == spec_first_key(self@.keys, k as int),
        decreases 16 - k,
    {
        if k >= 16 {
            return None;
        }
        if self.keys[k] {
            return Some(k as u8);
        }
        self.first_key(k + 1)
    }

    /// Execute one machine cycle: exactly the transition `spec_step`.
    #[verifier::rlimit(60)]
    pub fn execute_cycle(&mut self)
        requires
            wf_view(old(self)@),
        ensures
            final(self)@ == spec_step(old(self)@),
            wf_view(final(self)@),
    {
        let pc = self.pc as usize;
        if pc + 1 >= CHIP8_MEMORY_SIZE {
            return ;
        }
        let hi = self.memory[pc];
        let lo = self.memory[pc + 1];
        let op: u32 = (hi as u32) * 256 + (lo as u32);
        let nib: u32 = op / 4096;
        let x = ((op / 256) % 16) as usize;
        let y = ((op / 16) % 16) as usize;
        let kk = (op % 256) as u8;
        let n = (op % 16) as usize;
        let nnn = (op % 4096) as u16;
        let pc2 = (((self.pc as u32) + 2) % 4096) as u16;
        let pc4 = (((pc2 as u32) + 2) % 4096) as u16;
        if nib == 0 {
            if op == 0x00e0 {
                self.display = zero_u8s(CHIP8_DISPLAY_SIZE);
                self.pc = pc2;
            } else if op == 0x00ee {
                if self.sp > 0 {
                    self.sp = self.sp - 1;
                    self.pc = self.stack[self.sp as usize];
                } else {
                    self.pc = pc2;
                }
            } else {
                self.pc = pc2;
            }
        } else if nib == 1 {
            self.pc = nnn;
        } else if nib == 2 {
            if self.sp < 16 {
                self.stack.set(self.sp as usize, pc2);
                self.sp = self.sp + 1;
            }
            self.pc = nnn;
        } else if nib == 3 {
            self.pc = if self.v[x] == kk {
                pc4
            } else {
                pc2
            };
        } else if nib == 4 {
            self.pc = if self.v[x] != kk {
                pc4
            } else {
                pc2
            };
        } else if nib == 5 {
            if n == 0 {
                self.pc = if self.v[x] == self.v[y] {
                    pc4
                } else {
                    pc2
                };
            } else {
                self.pc = pc2;
            }
        } else if nib == 6 {
            self.v.set(x, kk);
            self.pc = pc2;
        } else if nib == 7 {
            let sum = ((self.v[x] as u32) + (kk as u32)) % 256;
            self.v.set(x, sum as u8);
            self.pc = pc2;
        } else if nib == 8 {
            self.alu(x, y, n, pc2);
        } else if nib == 9 {
            self.pc = if self.v[x] != self.v[y] {
                pc4
            } else {
                pc2
            };
        } else if nib == 10 {
            self.i = nnn;
            self.pc = pc2;
        } else if nib == 11 {
            self.pc = (((nnn as u32) + (self.v[0] as u32)) % 4096) as u16;
        } else if nib == 12 {
            let r = self.random_u32();
            let kg: u32 = kk as u32;
            proof {
                assert(r & kg < 256) by (bit_vector)
                    requires
                        kg < 256,
                ;
            }
            self.v.set(x, (r & kg) as u8);
            self.pc = pc2;
        } else if nib == 13 {
            let x0 = (self.v[x] as usize) % 64;
            let y0 = (self.v[y] as usize) % 32;
            let col = self.draw_sprite(x0, y0, 0, n);
            self.v.set(
                15,
                if col {
                    1
                } else {
                    0
                },
            );
            self.pc = pc2;
        } else if nib == 14 {
            if kk == 0x9e {
                self.pc = if self.keys[(self.v[x] as usize) % 16] {
                    pc4
                } else {
                    pc2
                };
            } else if kk == 0xa1 {
                self.pc = if !self.keys[(self.v[x] as usize) % 16] {
                    pc4
                } else {
                    pc2
                };
            } else {
                self.pc = pc2;
            }
        } else {
            self.fx(x, kk, pc2);
        }
        proof {
            assert(self@ =~= spec_step(old(self)@));
        }
    }

    /// The arithmetic and logic family.
    fn alu(&mut self, x: usize, y: usize, n: usize, pc2: u16)
        requires
            wf_view(old(self)@),
            x < 16,
            y < 16,
            pc2 < CHIP8_MEMORY_SIZE,
        ensures
            final(self)@ == spec_alu(old(self)@, x as int, y as int, n as int, pc2),
            wf_view(final(self)@),
    {
        if n == 0 {
            let b = self.v[y];
            self.v.set(x, b);
        } else if n == 1 {
            let b = self.v[x] | self.v[y];
            self.v.set(x, b);
        } else if n == 2 {
            let b = self.v[x] & self.v[y];
            self.v.set(x, b);
        } else if n == 3 {
            let b = self.v[x] ^ self.v[y];
            self.v.set(x, b);
        } else if n == 4 {
            let sum = (self.v[x] as u32) + (self.v[y] as u32);
            self.v.set(x, (sum % 256) as u8);
            self.v.set(
                15,
                if sum >= 256 {
                    1
                } else {
                    0
                },
            );
        } else if n == 5 {
            let vx = self.v[x];
            let vy = self.v[y];
            let flag: u8 = if vx >= vy {
                1
            } else {
                0
            };
            let diff: u32 = if vx >= vy {
                (vx as u32) - (vy as u32)
            } else {
                (vx as u32) + 256 - (vy as u32)
            };
            self.v.set(x, diff as u8);
            self.v.set(15, flag);
        } else if n == 6 {
            let vx = self.v[x];
            let flag: u8 = vx % 2;
            self.v.set(x, vx / 2);
            self.v.set(15, flag);
        } else if n == 7 {
            let vx = self.v[x];
            let vy = self.v[y];
            let flag: u8 = if vy >= vx {
                1
            } else {
                0
            };
            let diff: u32 = if vy >= vx {
                (vy as u32) - (vx as u32)
            } else {
                (vy as u32) + 256 - (vx as u32)
            };
            self.v.set(x, diff as u8);
            self.v.set(15, flag);
        } else if n == 14 {
            let vx = self.v[x];
            let flag: u8 = vx / 128;
            self.v.set(x, ((vx as u32) * 2 % 256) as u8);
            self.v.set(15, flag);
        }
        self.pc = pc2;
        proof {
            assert(self@ =~= spec_alu(old(self)@, x as int, y as int, n as int, pc2));
        }
    }

    /// The timer, memory and keypad family.
    fn fx(&mut self, x: usize, kk: u8, pc2: u16)
        requires
            wf_view(old(self)@),
            x < 16,
            pc2 < CHIP8_MEMORY_SIZE,
        ensures
            final(self)@ == spec_fx(old(self)@, x as int, kk, pc2),
            wf_view(final(self)@),
    {
        if kk == 0x07 {
            let b = self.dt;
            self.v.set(x, b);
            self.pc = pc2;
        } else if kk == 0x0a {
            match self.first_key(0) {
                Some(k) => {
                    self.v.set(x, k);
                    self.pc = pc2;
                },
                None => {},
            }
        } else if kk == 0x15 {
            self.dt = self.v[x];
            self.pc = pc2;
        } else if kk == 0x1e {
            self.i = (((self.i as u32) + (self.v[x] as u32)) % 4096) as u16;
            self.pc = pc2;
        } else if kk == 0x29 {
            self.i = ((self.v[x] % 16) as u16) * 5;
            self.pc = pc2;
        } else if kk == 0x33 {
            let ia = self.i as usize;
            if ia + 2 < CHIP8_MEMORY_SIZE {
                let vx = self.v[x];
                self.memory.set(ia, vx / 100);
                self.memory.set(ia + 1, (vx / 10) % 10);
                self.memory.set(ia + 2, vx % 10);
            }
            self.pc = pc2;
        } else if kk == 0x55 {
            self.store_regs(x, 0);
            self.pc = pc2;
        } else if kk == 0x65 {
            self.load_regs(x, 0);
            self.pc = pc2;
        } else {
            self.pc = pc2;
        }
        proof {
            assert(self@ =~= spec_fx(old(self)@, x as int, kk, pc2));
        }
    }

    /// One display frame of the games page: thirty cycles, then one tick
    /// of the delay timer.
    pub fn run(&mut self)
        requires
            wf_view(old(self)@),
        ensures
            final(self)@ == spec_tick_dt(spec_cycles(old(self)@, 30)),
            wf_view(final(self)@),
    {
        let mut c: usize = 0;
        while c < 30
            invariant
                c <= 30,
                wf_view(self@),
                self@ == spec_cycles(old(self)@, c as nat),
            decreases 30 - c,
        {
            self.execute_cycle();
            c += 1;
        }
        self.decrement_timers();
    }
}

} // verus!
