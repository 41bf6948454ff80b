use vstd::prelude::*;

use crate::math::{point, Point};
use crate::opcode::{decode, operands_in_range, parse_opcode, Opcode};
use bitvec::order::Msb0;
use bitvec::view::BitView;

verus! {

/// Size of the addressable memory, from 0x000 to 0xFFF.
pub const MEMORY_SIZE: usize = 4096;

/// First address of a loaded program; the bytes below it are reserved.
pub const START_ADDRESS: usize = 0x200;

/// Capacity of the call stack.
pub const MAX_JUMP: usize = 16;

/// Each instruction is two bytes wide.
pub const INSTR_SIZE: usize = 2;

/// The register that receives carry, borrow and overflow flags.
pub const FLAG: usize = 0xF;

/// Highest value the address register can hold.
pub const ADDRESS_MAX: usize = 0xFFF;

/// Bytes per glyph of the built-in font, which starts at address 0.
pub const GLYPH_SIZE: usize = 5;

/// What one step did to the display.
pub enum DrawInstruction {
    Unchanged,
    Clear,
    SinglePixel(Point),
    Sprite(Vec<Point>),
}

/// The machine state as mathematical values.
pub struct CpuState {
    pub v: Seq<u8>,
    pub i: usize,
    pub memory: Seq<u8>,
    pub stack: Seq<usize>,
    pub delay: u8,
    pub sound: u8,
    pub pc: usize,
}

impl CpuState {
    /// Sizes of the register file and memory, occupancy of the stack, and all
    /// addresses within memory.
    pub open spec fn wf(self) -> bool {
        &&& self.v.len() == 16
        &&& self.memory.len() == MEMORY_SIZE
        &&& self.stack.len() <= MAX_JUMP
        &&& self.pc < MEMORY_SIZE
        &&& self.i < MEMORY_SIZE
        &&& forall|k: int| 0 <= k < self.stack.len() ==> self.stack[k] < MEMORY_SIZE
    }
}

/// The address `k` bytes after `a`, wrapping around the end of memory.
pub open spec fn addr_after(a: usize, k: int) -> usize {
    ((a + k) % (MEMORY_SIZE as int)) as usize
}

/// The instruction word at the program counter, high byte first.
pub open spec fn fetch(s: CpuState) -> u16 {
    (((s.memory[s.pc as int] as u16) << 8u16) | (s.memory[addr_after(s.pc, 1) as int] as u16))
}

/// Whether key `k` is down in the key mask `keys` (bit `k` for key `k`).
pub open spec fn key_down(keys: u16, k: u8) -> bool {
    k < 16 && (keys >> (k as u16)) & 1u16 == 1u16
}

/// The lowest key at or above `k` that is down in `keys`, or 16 if none is.
pub open spec fn lowest_key_from(keys: u16, k: u8) -> u8
    decreases 16 - k,
{
    if k >= 16 {
        16
    } else if key_down(keys, k) {
        k
    } else {
        lowest_key_from(keys, (k + 1) as u8)
    }
}

/// Sum of two bytes and its carry flag: the exact sum and 0, or 255 and 1
/// when the sum exceeds 255.
pub open spec fn add_with_carry(a: u8, b: u8) -> (u8, u8) {
    if a + b > 255 {
        (255, 1)
    } else {
        ((a + b) as u8, 0)
    }
}

/// Difference of two bytes and its borrow flag: the exact difference and 0,
/// or 0 and 1 when `b` exceeds `a`.
pub open spec fn sub_with_borrow(a: u8, b: u8) -> (u8, u8) {
    if b > a {
        (0, 1)
    } else {
        ((a - b) as u8, 0)
    }
}

/// A byte shifted left by one, truncated to eight bits, and its former most
/// significant bit.
pub open spec fn shift_left(a: u8) -> (u8, u8) {
    (((a as int * 2) % 256) as u8, if a >= 128 { 1u8 } else { 0u8 })
}

/// Bit `k` of `b`, counting from the most significant bit.
pub open spec fn msb_bit(b: u8, k: int) -> bool {
    (b >> ((7 - k) as u8)) & 1u8 == 1u8
}

/// Memory after writing registers `0..count` at `i`, `i + 1`, ...
pub open spec fn store_regs(mem: Seq<u8>, v: Seq<u8>, i: usize, count: nat) -> Seq<u8>
    decreases count,
{
    if count == 0 {
        mem
    } else {
        store_regs(mem, v, i, (count - 1) as nat).update(
            addr_after(i, count - 1) as int,
            v[count - 1],
        )
    }
}

/// Registers after reading `count` of them from memory at `i`, `i + 1`, ...
pub open spec fn load_regs(v: Seq<u8>, mem: Seq<u8>, i: usize, count: nat) -> Seq<u8>
    decreases count,
{
    if count == 0 {
        v
    } else {
        load_regs(v, mem, i, (count - 1) as nat).update(
            count - 1,
            mem[addr_after(i, count - 1) as int],
        )
    }
}

/// The pixels lit by the first `k` bits of one sprite row.
pub open spec fn row_points(byte: u8, x: usize, y: usize, k: nat) -> Seq<Point>
    decreases k,
{
    if k == 0 {
        Seq::empty()
    } else {
        let before = row_points(byte, x, y, (k - 1) as nat);
        if msb_bit(byte, k - 1) {
            before.push(Point { x: (x + k - 1) as usize, y })
        } else {
            before
        }
    }
}

/// The pixels lit by the first `rows` rows of a sprite read from memory at `i`
/// and placed at (`x`, `y`).
pub open spec fn sprite_points(mem: Seq<u8>, i: usize, x: usize, y: usize, rows: nat) -> Seq<Point>
    decreases rows,
{
    if rows == 0 {
        Seq::empty()
    } else {
        sprite_points(mem, i, x, y, (rows - 1) as nat) + row_points(
            mem[addr_after(i, rows - 1) as int],
            x,
            (y + rows - 1) as usize,
            8,
        )
    }
}

/// `s` with the program counter moved past the current instruction.
pub open spec fn advanced(s: CpuState) -> CpuState {
    CpuState { pc: addr_after(s.pc, INSTR_SIZE as int), ..s }
}

/// `s` with the program counter moved past the next instruction when `cond`
/// holds, else past the current one.
pub open spec fn skip_if(s: CpuState, cond: bool) -> CpuState {
    CpuState { pc: addr_after(s.pc, if cond { 2 * INSTR_SIZE as int } else { INSTR_SIZE as int }), ..s }
}

/// `s` with register `x` set to `val`, then the program counter advanced.
pub open spec fn set_reg(s: CpuState, x: usize, val: u8) -> CpuState {
    advanced(CpuState { v: s.v.update(x as int, val), ..s })
}

/// `s` with register `x` set to the first of `r` and the flag register to the
/// second, in that order, then the program counter advanced.
pub open spec fn set_reg_flag(s: CpuState, x: usize, r: (u8, u8)) -> CpuState {
    advanced(CpuState { v: s.v.update(x as int, r.0).update(FLAG as int, r.1), ..s })
}

/// The effect of `op` on `s`, program counter included, given the random byte
/// drawn for this step and the keys that are down.
pub open spec fn exec_op(s: CpuState, op: Opcode, random: u8, keys: u16) -> CpuState {
    match op {
        Opcode::Clear => advanced(s),
        Opcode::Ret => if s.stack.len() > 0 {
            CpuState { pc: s.stack.last(), stack: s.stack.drop_last(), ..s }
        } else {
            s
        },
        Opcode::Jump(a) => CpuState { pc: a, ..s },
        Opcode::Call(a) => if s.stack.len() < MAX_JUMP {
            CpuState { pc: a, stack: s.stack.push(addr_after(s.pc, INSTR_SIZE as int)), ..s }
        } else {
            advanced(s)
        },
        Opcode::Skeq(x, nn) => skip_if(s, s.v[x as int] == nn),
        Opcode::Skne(x, nn) => skip_if(s, s.v[x as int] != nn),
        Opcode::Skreq(x, y) => skip_if(s, s.v[x as int] == s.v[y as int]),
        Opcode::Ld(x, nn) => set_reg(s, x, nn),
        Opcode::Add(x, nn) => set_reg(
            s,
            x,
            if s.v[x as int] + nn > 255 { 255 } else { (s.v[x as int] + nn) as u8 },
        ),
        Opcode::Mov(x, y) => set_reg(s, x, s.v[y as int]),
        Opcode::Or(x, y) => set_reg(s, x, s.v[x as int] | s.v[y as int]),
        Opcode::And(x, y) => set_reg(s, x, s.v[x as int] & s.v[y as int]),
        Opcode::Xor(x, y) => set_reg(s, x, s.v[x as int] ^ s.v[y as int]),
        Opcode::Addr(x, y) => set_reg_flag(s, x, add_with_carry(s.v[x as int], s.v[y as int])),
        Opcode::Sub(x, y) => set_reg_flag(s, x, sub_with_borrow(s.v[x as int], s.v[y as int])),
        Opcode::Shr(x, _) => set_reg_flag(s, x, shift_left(s.v[x as int])),
        Opcode::Skrne(x, y) => skip_if(s, s.v[x as int] != s.v[y as int]),
        Opcode::Ldi(a) => advanced(CpuState { i: a, ..s }),
        Opcode::Jmpi(a) => CpuState { pc: addr_after(a, s.v[0] as int), ..s },
        Opcode::Rnd(x, nn) => set_reg(s, x, nn & random),
        Opcode::Drw(_, _, _) => advanced(s),
        Opcode::Skpr(x) => skip_if(s, key_down(keys, s.v[x as int])),
        Opcode::Skup(x) => skip_if(s, !key_down(keys, s.v[x as int])),
        Opcode::Movdt(x) => set_reg(s, x, s.delay),
        Opcode::Kwait(x) => if keys == 0 {
            s
        } else {
            set_reg(s, x, lowest_key_from(keys, 0))
        },
        Opcode::Lddt(x) => advanced(CpuState { delay: s.v[x as int], ..s }),
        Opcode::Ldst(x) => advanced(CpuState { sound: s.v[x as int], ..s }),
        Opcode::Addi(x) => if s.i + s.v[x as int] > ADDRESS_MAX {
            advanced(CpuState { i: ADDRESS_MAX, v: s.v.update(FLAG as int, 1), ..s })
        } else {
            advanced(
                CpuState { i: (s.i + s.v[x as int]) as usize, v: s.v.update(FLAG as int, 0), ..s },
            )
        },
        Opcode::Lsdpr(x) => advanced(CpuState { i: (s.v[x as int] * GLYPH_SIZE) as usize, ..s }),
        Opcode::Bcd(x) => {
            let nb = s.v[x as int];
            advanced(
                CpuState {
                    memory: s.memory.update(s.i as int, nb % 10).update(
                        addr_after(s.i, 1) as int,
                        (nb / 10) % 10,
                    ).update(addr_after(s.i, 2) as int, nb / 100),
                    ..s
                },
            )
        },
        Opcode::Stor(x) => advanced(
            CpuState { memory: store_regs(s.memory, s.v, s.i, (x + 1) as nat), ..s },
        ),
        Opcode::Read(x) => advanced(CpuState { v: load_regs(s.v, s.memory, s.i, (x + 1) as nat), ..s }),
        Opcode::Ignore => advanced(s),
    }
}

/// Both counters after one step: each goes down by one while above zero.
pub open spec fn tick(s: CpuState) -> CpuState {
    CpuState {
        delay: if s.delay > 0 { (s.delay - 1) as u8 } else { 0 },
        sound: if s.sound > 0 { (s.sound - 1) as u8 } else { 0 },
        ..s
    }
}

/// The state after one step from `s`.
pub open spec fn step_state(s: CpuState, random: u8, keys: u16) -> CpuState {
    tick(exec_op(s, decode(fetch(s)), random, keys))
}

/// `d` is what `op` does to the display from state `s`: a full clear, the
/// pixels of a sprite, or nothing.
pub open spec fn draws(d: DrawInstruction, s: CpuState, op: Opcode) -> bool {
    match op {
        Opcode::Clear => d is Clear,
        Opcode::Drw(x, y, n) => match d {
            DrawInstruction::Sprite(ps) => ps@ == sprite_points(
                s.memory,
                s.i,
                s.v[x as int] as usize,
                s.v[y as int] as usize,
                n as nat,
            ),
            _ => false,
        },
        _ => d is Unchanged,
    }
}

/// Relies on bitvec's `BitView::view_bits` with `Msb0` ordering: a byte seen
/// as its eight bits, most significant first.
#[verifier::external_body]
fn bits_msb_first(b: u8) -> (r: Vec<bool>)
    ensures
        r@.len() == 8,
        forall|k: int| 0 <= k < 8 ==> r@[k] == msb_bit(b, k),
{
    b.view_bits::<Msb0>().iter().by_vals().collect()
}

/// Relies on `rand::random::<u8>`: some byte, drawn afresh on each call.
#[verifier::external_body]
fn random_byte() -> (r: u8) {
    rand::random::<u8>()
}

/// The machine: registers, address register, memory, call stack, counters
/// and program counter.
pub struct CPU {
    v: [u8; 16],
    i: usize,
    memory: [u8; MEMORY_SIZE],
    jump: [usize; MAX_JUMP],
    jump_nb: usize,
    sound_counter: u8,
    sys_counter: u8,
    pc: usize,
}

impl View for CPU {
    type V = CpuState;

    closed spec fn view(&self) -> CpuState {
        CpuState {
            v: self.v@,
            i: self.i,
            memory: self.memory@,
            stack: self.jump@.subrange(0, self.jump_nb as int),
            delay: self.sys_counter,
            sound: self.sound_counter,
            pc: self.pc,
        }
    }
}

impl CPU {
    pub closed spec fn wf(&self) -> bool {
        &&& self.jump_nb <= MAX_JUMP
        &&& self@.wf()
    }

    /// A machine with zeroed registers, memory and counters, an empty stack,
    /// and the program counter at the start address.
    pub fn new() -> (r: CPU)
        ensures
            r.wf(),
            r@.v == Seq::new(16, |k: int| 0u8),
            r@.memory == Seq::new(MEMORY_SIZE as nat, |k: int| 0u8),
            r@.stack.len() == 0,
            r@.i == 0,
            r@.delay == 0,
            r@.sound == 0,
            r@.pc == START_ADDRESS,
    {
        let r = CPU {
            v: [0; 16],
            i: 0,
            memory: [0; MEMORY_SIZE],
            jump: [0; MAX_JUMP],
            jump_nb: 0,
            sys_counter: 0,
            sound_counter: 0,
            pc: START_ADDRESS,
        };
        assert(r@.v =~= Seq::new(16, |k: int| 0u8));
        assert(r@.memory =~= Seq::new(MEMORY_SIZE as nat, |k: int| 0u8));
        r
    }

    /// Writes `rom` into memory from the start address on, byte for byte, and
    /// puts the program counter at the start address.
    pub fn load_rom(&mut self, rom: &[u8])
        requires
            old(self).wf(),
            rom@.len() <= MEMORY_SIZE - START_ADDRESS,
        ensures
            final(self).wf(),
            final(self)@ == (CpuState {
                memory: old(self)@.memory.subrange(0, START_ADDRESS as int) + rom@
                    + old(self)@.memory.subrange(
                    START_ADDRESS + rom@.len(),
                    MEMORY_SIZE as int,
                ),
                pc: START_ADDRESS,
                ..old(self)@
            }),
    {
        let mut k: usize = 0;
        assert(self@.memory =~= old(self)@.memory.subrange(0, START_ADDRESS as int) + rom@.subrange(
            0,
            0,
        ) + old(self)@.memory.subrange(START_ADDRESS as int, MEMORY_SIZE as int));
        while k < rom.len()
            invariant
                self.wf(),
                rom@.len() <= MEMORY_SIZE - START_ADDRESS,
                k <= rom@.len(),
                self@ == (CpuState {
                    memory: old(self)@.memory.subrange(0, START_ADDRESS as int) + rom@.subrange(
                        0,
                        k as int,
                    ) + old(self)@.memory.subrange(START_ADDRESS + k, MEMORY_SIZE as int),
                    ..old(self)@
                }),
            decreases rom@.len() - k,
        {
            self.memory[START_ADDRESS + k] = rom[k];
            k = k + 1;
            assert(self@.memory =~= old(self)@.memory.subrange(0, START_ADDRESS as int)
                + rom@.subrange(0, k as int) + old(self)@.memory.subrange(
                START_ADDRESS + k,
                MEMORY_SIZE as int,
            ));
        }
        assert(rom@.subrange(0, k as int) =~= rom@);
        self.pc = START_ADDRESS;
    }

    /// Counts both counters down by one where they are above zero.
    fn count(&mut self)
        requires
            old(self).wf(),
        ensures
            final(self).wf(),
            final(self)@ == tick(old(self)@),
    {
        if self.sys_counter > 0 {
            self.sys_counter = self.sys_counter - 1;
        }
        if self.sound_counter > 0 {
            self.sound_counter = self.sound_counter - 1;
        }
    }

    /// The instruction word at the program counter.
    fn current_word(&self) -> (r: u16)
        requires
            self.wf(),
        ensures
            r == fetch(self@),
    {
        let hi = self.memory[self.pc] as u16;
        let lo = self.memory[Self::wrap(self.pc, 1)] as u16;
        (hi << 8u16) | lo
    }

    /// Executes the instruction at the program counter, with `random` as the
    /// byte drawn for a random instruction and `keys` as the keys that are
    /// down (bit `k` for key `k`), then counts the counters down. Returns what
    /// the instruction does to the display.
    pub fn step(&mut self, random: u8, keys: u16) -> (r: DrawInstruction)
        requires
            old(self).wf(),
        ensures
            final(self).wf(),
            final(self)@ == step_state(old(self)@, random, keys),
            draws(r, old(self)@, decode(fetch(old(self)@))),
    {
        let word = self.current_word();
        let op = parse_opcode(word);
        let r = self.execute(op, random, keys);
        self.count();
        r
    }

    /// Executes the instruction at the program counter as `step` does, with a
    /// freshly drawn random byte.
    pub fn next(&mut self, keys: u16) -> (r: DrawInstruction)
        requires
            old(self).wf(),
        ensures
            final(self).wf(),
            exists|random: u8| final(self)@ == step_state(old(self)@, random, keys),
            draws(r, old(self)@, decode(fetch(old(self)@))),
    {
        let random = random_byte();
        self.step(random, keys)
    }

    /// The program counter.
    pub fn pc(&self) -> (r: usize)
        ensures
            r == self@.pc,
    {
        self.pc
    }

    /// The address register.
    pub fn address_register(&self) -> (r: usize)
        ensures
            r == self@.i,
    {
        self.i
    }

    /// Register `x`.
    pub fn register(&self, x: usize) -> (r: u8)
        requires
            x < 16,
        ensures
            r == self@.v[x as int],
    {
        self.v[x]
    }

    /// The byte at address `a`.
    pub fn memory_at(&self, a: usize) -> (r: u8)
        requires
            a < MEMORY_SIZE,
        ensures
            r == self@.memory[a as int],
    {
        self.memory[a]
    }

    /// Number of return addresses on the call stack.
    pub fn stack_depth(&self) -> (r: usize)
        requires
            self.wf(),
        ensures
            r == self@.stack.len(),
    {
        self.jump_nb
    }

    /// The delay counter.
    pub fn delay_counter(&self) -> (r: u8)
        ensures
            r == self@.delay,
    {
        self.sys_counter
    }

    /// The sound counter.
    pub fn sound_counter(&self) -> (r: u8)
        ensures
            r == self@.sound,
    {
        self.sound_counter
    }

    /// Address `k` bytes after `a`, wrapping around the end of memory.
    fn wrap(a: usize, k: usize) -> (r: usize)
        requires
            a < MEMORY_SIZE,
            k <= MEMORY_SIZE,
        ensures
            r == addr_after(a, k as int),
            r < MEMORY_SIZE,
    {
        (a + k) % MEMORY_SIZE
    }

    /// Moves the program counter past the current instruction, or past the
    /// next one too when `cond` holds.
    fn skip_when(&mut self, cond: bool)
        requires
            old(self).wf(),
        ensures
            final(self).wf(),
            final(self)@ == skip_if(old(self)@, cond),
    {
        let width = if cond { 2 * INSTR_SIZE } else { INSTR_SIZE };
        self.pc = Self::wrap(self.pc, width);
    }

    /// Sets register `x`, then moves the program counter past the current
    /// instruction.
    fn set_register(&mut self, x: usize, val: u8)
        requires
            old(self).wf(),
            x < 16,
        ensures
            final(self).wf(),
            final(self)@ == set_reg(old(self)@, x, val),
    {
        self.v[x] = val;
        self.pc = Self::wrap(self.pc, INSTR_SIZE);
    }

    /// Sets register `x` to `r.0` and then the flag register to `r.1`, then
    /// moves the program counter past the current instruction.
    fn set_register_flag(&mut self, x: usize, r: (u8, u8))
        requires
            old(self).wf(),
            x < 16,
        ensures
            final(self).wf(),
            final(self)@ == set_reg_flag(old(self)@, x, r),
    {
        self.v[x] = r.0;
        self.v[FLAG] = r.1;
        self.pc = Self::wrap(self.pc, INSTR_SIZE);
    }

    /// Index of the lowest key that is down in `keys`, or 16 if none is.
    fn lowest_key(keys: u16) -> (r: u8)
        ensures
            r == lowest_key_from(keys, 0),
    {
        let mut k: u8 = 0;
        while k < 16
            invariant
                k <= 16,
                lowest_key_from(keys, 0) == lowest_key_from(keys, k),
            decreases 16 - k,
        {
            if k < 16 && (keys >> (k as u16)) & 1u16 == 1u16 {
                return k;
            }
            k = k + 1;
        }
        16
    }

    /// The pixels lit by a sprite of `n` rows read from memory at the address
    /// register and placed at (`x`, `y`).
    fn sprite(&self, x: usize, y: usize, n: usize) -> (r: Vec<Point>)
        requires
            self.wf(),
            x < 256,
            y < 256,
            n < 16,
        ensures
            r@ == sprite_points(self@.memory, self@.i, x, y, n as nat),
    {
        let mut points: Vec<Point> = Vec::new();
        let mut row: usize = 0;
        while row < n
            invariant
                self.wf(),
                x < 256,
                y < 256,
                n < 16,
                row <= n,
                points@ == sprite_points(self@.memory, self@.i, x, y, row as nat),
            decreases n - row,
        {
            let bits = bits_msb_first(self.memory[Self::wrap(self.i, row)]);
            let ghost before = points@;
            let mut k: usize = 0;
            while k < 8
                invariant
                    self.wf(),
                    x < 256,
                    y < 256,
                    row < n < 16,
                    k <= 8,
                    bits@.len() == 8,
                    forall|j: int|
                        0 <= j < 8 ==> bits@[j] == msb_bit(
                            self@.memory[addr_after(self@.i, row as int) as int],
                            j,
                        ),
                    points@ == before + row_points(
                        self@.memory[addr_after(self@.i, row as int) as int],
                        x,
                        (y + row) as usize,
                        k as nat,
                    ),
                decreases 8 - k,
            {
                if bits[k] {
                    points.push(point(x + k, y + row));
                }
                assert(points@ =~= before + row_points(
                    self@.memory[addr_after(self@.i, row as int) as int],
                    x,
                    (y + row) as usize,
                    (k + 1) as nat,
                ));
                k = k + 1;
            }
            row = row + 1;
        }
        points
    }

    /// Applies `op` to the machine, program counter included, and reports
    /// what it does to the display.
    fn execute(&mut self, op: Opcode, random: u8, keys: u16) -> (r: DrawInstruction)
        requires
            old(self).wf(),
            operands_in_range(op),
        ensures
            final(self).wf(),
            final(self)@ == exec_op(old(self)@, op, random, keys),
            draws(r, old(self)@, op),
    {
        match op {
            Opcode::Clear => {
                self.pc = Self::wrap(self.pc, INSTR_SIZE);
                return DrawInstruction::Clear;
            },
            Opcode::Ret => {
                if self.jump_nb > 0 {
                    self.jump_nb = self.jump_nb - 1;
                    assert(old(self)@.stack[self.jump_nb as int] == self.jump@[self.jump_nb as int]);
                    self.pc = self.jump[self.jump_nb];
                    assert(self@.stack =~= old(self)@.stack.drop_last());
                }
            },
            Opcode::Jump(nnn) => {
                self.pc = nnn;
            },
            Opcode::Call(nnn) => {
                if self.jump_nb < MAX_JUMP {
                    self.jump[self.jump_nb] = Self::wrap(self.pc, INSTR_SIZE);
                    self.jump_nb = self.jump_nb + 1;
                    self.pc = nnn;
                    assert(self@.stack =~= old(self)@.stack.push(
                        addr_after(old(self)@.pc, INSTR_SIZE as int),
                    ));
                } else {
                    self.pc = Self::wrap(self.pc, INSTR_SIZE);
                }
            },
            Opcode::Skeq(x, nn) => {
                let cond = self.v[x] == nn;
                self.skip_when(cond);
            },
            Opcode::Skne(x, nn) => {
                let cond = self.v[x] != nn;
                self.skip_when(cond);
            },
            Opcode::Skreq(x, y) => {
                let cond = self.v[x] == self.v[y];
                self.skip_when(cond);
            },
            Opcode::Ld(x, nn) => {
                self.set_register(x, nn);
            },
            Opcode::Add(x, nn) => {
                let val = self.v[x].saturating_add(nn);
                self.set_register(x, val);
            },
            Opcode::Mov(x, y) => {
                let val = self.v[y];
                self.set_register(x, val);
            },
            Opcode::Or(x, y) => {
                let val = self.v[x] | self.v[y];
                self.set_register(x, val);
            },
            Opcode::And(x, y) => {
                let val = self.v[x] & self.v[y];
                self.set_register(x, val);
            },
            Opcode::Xor(x, y) => {
                let val = self.v[x] ^ self.v[y];
                self.set_register(x, val);
            },
            Opcode::Addr(x, y) => {
                let r = add_carry(self.v[x], self.v[y]);
                self.set_register_flag(x, r);
            },
            Opcode::Sub(x, y) => {
                let r = sub_borrow(self.v[x], self.v[y]);
                self.set_register_flag(x, r);
            },
            Opcode::Shr(x, _) => {
                let r = shl(self.v[x]);
                self.set_register_flag(x, r);
            },
            Opcode::Skrne(x, y) => {
                let cond = self.v[x] != self.v[y];
                self.skip_when(cond);
            },
            Opcode::Ldi(nnn) => {
                self.i = nnn;
                self.pc = Self::wrap(self.pc, INSTR_SIZE);
            },
            Opcode::Jmpi(nnn) => {
                self.pc = Self::wrap(nnn, self.v[0] as usize);
            },
            Opcode::Rnd(x, nn) => {
                self.set_register(x, nn & random);
            },
            Opcode::Drw(x, y, n) => {
                let points = self.sprite(self.v[x] as usize, self.v[y] as usize, n);
                self.pc = Self::wrap(self.pc, INSTR_SIZE);
                return DrawInstruction::Sprite(points);
            },
            Opcode::Skpr(x) => {
                let k = self.v[x];
                let cond = k < 16 && (keys >> (k as u16)) & 1u16 == 1u16;
                self.skip_when(cond);
            },
            Opcode::Skup(x) => {
                let k = self.v[x];
                let cond = !(k < 16 && (keys >> (k as u16)) & 1u16 == 1u16);
                self.skip_when(cond);
            },
            Opcode::Movdt(x) => {
                let val = self.sys_counter;
                self.set_register(x, val);
            },
            Opcode::Kwait(x) => {
                if keys != 0 {
                    let key = Self::lowest_key(keys);
                    self.set_register(x, key);
                }
            },
            Opcode::Lddt(x) => {
                self.sys_counter = self.v[x];
                self.pc = Self::wrap(self.pc, INSTR_SIZE);
            },
            Opcode::Ldst(x) => {
                self.sound_counter = self.v[x];
                self.pc = Self::wrap(self.pc, INSTR_SIZE);
            },
            Opcode::Addi(x) => {
                let add = self.v[x] as usize;
                if self.i + add > ADDRESS_MAX {
                    self.i = ADDRESS_MAX;
                    self.v[FLAG] = 1;
                } else {
                    self.i = self.i + add;
                    self.v[FLAG] = 0;
                }
                self.pc = Self::wrap(self.pc, INSTR_SIZE);
            },
            Opcode::Lsdpr(x) => {
                self.i = self.v[x] as usize * GLYPH_SIZE;
                self.pc = Self::wrap(self.pc, INSTR_SIZE);
            },
            Opcode::Bcd(x) => {
                let nb = self.v[x];
                let i = self.i;
                self.memory[i] = nb % 10;
                self.memory[Self::wrap(i, 1)] = (nb / 10) % 10;
                self.memory[Self::wrap(i, 2)] = nb / 100;
                self.pc = Self::wrap(self.pc, INSTR_SIZE);
            },
            Opcode::Stor(x) => {
                self.store_registers(x);
                self.pc = Self::wrap(self.pc, INSTR_SIZE);
            },
            Opcode::Read(x) => {
                self.load_registers(x);
                self.pc = Self::wrap(self.pc, INSTR_SIZE);
            },
            Opcode::Ignore => {
                self.pc = Self::wrap(self.pc, INSTR_SIZE);
            },
        }
        DrawInstruction::Unchanged
    }

    /// Copies registers `0..=x` to memory from the address register on.
    fn store_registers(&mut self, x: usize)
        requires
            old(self).wf(),
            x < 16,
        ensures
            final(self).wf(),
            final(self)@ == (CpuState {
                memory: store_regs(old(self)@.memory, old(self)@.v, old(self)@.i, (x + 1) as nat),
                ..old(self)@
            }),
    {
        let mut k: usize = 0;
        while k <= x
            invariant
                self.wf(),
                x < 16,
                k <= x + 1,
                self@ == (CpuState {
                    memory: store_regs(old(self)@.memory, old(self)@.v, old(self)@.i, k as nat),
                    ..old(self)@
                }),
            decreases x + 1 - k,
        {
            let a = Self::wrap(self.i, k);
            self.memory[a] = self.v[k];
            k = k + 1;
        }
    }

    /// Copies memory from the address register on into registers `0..=x`.
    fn load_registers(&mut self, x: usize)
        requires
            old(self).wf(),
            x < 16,
        ensures
            final(self).wf(),
            final(self)@ == (CpuState {
                v: load_regs(old(self)@.v, old(self)@.memory, old(self)@.i, (x + 1) as nat),
                ..old(self)@
            }),
    {
        let mut k: usize = 0;
        while k <= x
            invariant
                self.wf(),
                x < 16,
                k <= x + 1,
                self@ == (CpuState {
                    v: load_regs(old(self)@.v, old(self)@.memory, old(self)@.i, k as nat),
                    ..old(self)@
                }),
            decreases x + 1 - k,
        {
            let a = Self::wrap(self.i, k);
            self.v[k] = self.memory[a];
            k = k + 1;
        }
    }
}

/// Sum of two bytes with its carry flag.
pub fn add_carry(a: u8, b: u8) -> (r: (u8, u8))
    ensures
        r == add_with_carry(a, b),
{
    match a.checked_add(b) {
        Some(sum) => (sum, 0),
        None => (255, 1),
    }
}

/// Difference of two bytes with its borrow flag.
pub fn sub_borrow(a: u8, b: u8) -> (r: (u8, u8))
    ensures
        r == sub_with_borrow(a, b),
{
    if b > a {
        (0, 1)
    } else {
        (a - b, 0)
    }
}

/// A byte shifted left by one, with its former most significant bit.
pub fn shl(a: u8) -> (r: (u8, u8))
    ensures
        r == shift_left(a),
{
    let msb = (a & 0x80u8) >> 7u8;
    let shifted = a << 1u8;
    assert(shifted == ((a as int * 2) % 256) as u8) by (bit_vector)
        requires
            shifted == a << 1u8,
    ;
    assert(msb == if a >= 128 { 1u8 } else { 0u8 }) by (bit_vector)
        requires
            msb == (a & 0x80u8) >> 7u8,
    ;
    (shifted, msb)
}

} // verus!
