use vstd::prelude::*;

use crate::instruction_set::{append_hex, hex_text, size_bits, ArgumentSize};

verus! {

/// Number of bytes of the flat memory store.
pub const MEMORY_SIZE: usize = 1000000000;

/// First address of the text-mode display window.
pub const DISPLAY_START: u64 = 0xB8000;

/// Last address of the text-mode display window: 80 columns, 25 rows, two
/// bytes per cell.
pub const DISPLAY_END: u64 = 0xB8000 + 80 * 25 * 2;

/// Condition flags of the flags register.
#[derive(Clone, Copy, Debug, PartialEq, Eq, Structural)]
pub enum Flags {
    Carry,
    Parity,
    Zero,
    Sign,
    Direction,
    Overflow,
}

/// Bit position of a flag in the flags register.
pub open spec fn flag_bit(f: Flags) -> u64 {
    match f {
        Flags::Carry => 0,
        Flags::Parity => 2,
        Flags::Zero => 6,
        Flags::Sign => 7,
        Flags::Direction => 10,
        Flags::Overflow => 11,
    }
}

/// Whether a flag's bit is set in a flags register value.
pub open spec fn flag_of(rflags: u64, f: Flags) -> bool {
    (rflags >> flag_bit(f)) & 1 == 1
}

/// A flags register value with one flag's bit set to `value`, the others kept.
pub open spec fn with_flag(rflags: u64, f: Flags, value: bool) -> u64 {
    if value {
        rflags | (1u64 << flag_bit(f))
    } else {
        rflags & !(1u64 << flag_bit(f))
    }
}

/// Number of one bits of a number.
pub open spec fn bit_count(n: nat) -> nat
    decreases n,
{
    if n == 0 {
        0
    } else {
        n % 2 + bit_count(n / 2)
    }
}

/// Even parity: an even number of one bits.
pub open spec fn even_parity(b: u8) -> bool {
    bit_count(b as nat) % 2 == 0
}

/// The most significant bit of `result` cut to `size` bits.
pub open spec fn sign_of(result: i64, size: ArgumentSize) -> bool {
    ((result as u64) >> ((size_bits(size) - 1) as u64)) & 1 == 1
}

/// The flags register after `compute_flags`: Zero, Sign and Parity derived
/// from the result, the other bits kept.
pub open spec fn flags_after(rflags: u64, result: i64, size: ArgumentSize) -> u64 {
    with_flag(
        with_flag(with_flag(rflags, Flags::Zero, result == 0), Flags::Sign, sign_of(result, size)),
        Flags::Parity,
        even_parity(result as u8),
    )
}

/// Whether a write at `address` goes to the display instead of memory.
pub open spec fn in_display_window(address: u64) -> bool {
    DISPLAY_START <= address <= DISPLAY_END && address % 2 == 0
}

/// Memory after `data` is written from `address` on.
pub open spec fn written(memory: Seq<u8>, address: int, data: Seq<u8>) -> Seq<u8> {
    memory.subrange(0, address) + data + memory.subrange(address + data.len(), memory.len() as int)
}

/// Register file, flags register and memory of the emulated machine.
pub struct MachineState {
    pub rip: i64,
    pub rax: i64,
    pub rbx: i64,
    pub rcx: i64,
    pub rdx: i64,
    pub rsp: i64,
    pub rbp: i64,
    pub rsi: i64,
    pub rdi: i64,
    pub r8: i64,
    pub r9: i64,
    pub r10: i64,
    pub r11: i64,
    pub r12: i64,
    pub r13: i64,
    pub r14: i64,
    pub r15: i64,
    pub rflags: u64,
    pub memory: Vec<u8>,
}

/// A fresh machine: all registers, the flags and all `MEMORY_SIZE` bytes of
/// memory are zero.
pub open spec fn zeroed(s: MachineState) -> bool {
    &&& s.rip == 0
    &&& s.rax == 0
    &&& s.rbx == 0
    &&& s.rcx == 0
    &&& s.rdx == 0
    &&& s.rsp == 0
    &&& s.rbp == 0
    &&& s.rsi == 0
    &&& s.rdi == 0
    &&& s.r8 == 0
    &&& s.r9 == 0
    &&& s.r10 == 0
    &&& s.r11 == 0
    &&& s.r12 == 0
    &&& s.r13 == 0
    &&& s.r14 == 0
    &&& s.r15 == 0
    &&& s.rflags == 0
    &&& s.memory@.len() == MEMORY_SIZE
    &&& forall|i: int| 0 <= i < MEMORY_SIZE ==> s.memory@[i] == 0
}

/// Two states hold the same registers, the stack pointer aside.
pub open spec fn same_registers_but_rsp(a: MachineState, b: MachineState) -> bool {
    &&& a.rip == b.rip
    &&& a.rax == b.rax
    &&& a.rbx == b.rbx
    &&& a.rcx == b.rcx
    &&& a.rdx == b.rdx
    &&& a.rbp == b.rbp
    &&& a.rsi == b.rsi
    &&& a.rdi == b.rdi
    &&& a.r8 == b.r8
    &&& a.r9 == b.r9
    &&& a.r10 == b.r10
    &&& a.r11 == b.r11
    &&& a.r12 == b.r12
    &&& a.r13 == b.r13
    &&& a.r14 == b.r14
    &&& a.r15 == b.r15
}

/// Two states hold the same registers.
pub open spec fn same_registers(a: MachineState, b: MachineState) -> bool {
    &&& same_registers_but_rsp(a, b)
    &&& a.rsp == b.rsp
}

/// The register dump: one line per register, its name padded to fifteen
/// columns and its value in hexadecimal.
pub open spec fn dump_text(s: MachineState) -> Seq<char> {
    "rax            0x"@ + hex_text(s.rax as u64 as nat) + "\nrbx            0x"@ + hex_text(s.rbx as u64 as nat) + "\nrcx            0x"@ + hex_text(s.rcx as u64 as nat) + "\nrdx            0x"@ + hex_text(s.rdx as u64 as nat) + "\nrsi            0x"@ + hex_text(s.rsi as u64 as nat) + "\nrdi            0x"@ + hex_text(s.rdi as u64 as nat) + "\nrbp            0x"@ + hex_text(s.rbp as u64 as nat) + "\nrsp            0x"@ + hex_text(s.rsp as u64 as nat) + "\nr8             0x"@ + hex_text(s.r8 as u64 as nat) + "\nr9             0x"@ + hex_text(s.r9 as u64 as nat) + "\nr10            0x"@ + hex_text(s.r10 as u64 as nat) + "\nr11            0x"@ + hex_text(s.r11 as u64 as nat) + "\nr12            0x"@ + hex_text(s.r12 as u64 as nat) + "\nr13            0x"@ + hex_text(s.r13 as u64 as nat) + "\nr14            0x"@ + hex_text(s.r14 as u64 as nat) + "\nr15            0x"@ + hex_text(s.r15 as u64 as nat) + "\nrip            0x"@ + hex_text(s.rip as u64 as nat)
}

impl Flags {
    /// The flag's single-bit mask.
    pub fn mask(&self) -> (r: u64)
        ensures
            r == 1u64 << flag_bit(*self),
    {
        let r: u64 = match *self {
            Flags::Carry => 1,
            Flags::Parity => 4,
            Flags::Zero => 64,
            Flags::Sign => 128,
            Flags::Direction => 1024,
            Flags::Overflow => 2048,
        };
        assert(1u64 << 0u64 == 1 && 1u64 << 2u64 == 4 && 1u64 << 6u64 == 64 && 1u64 << 7u64 == 128
            && 1u64 << 10u64 == 1024 && 1u64 << 11u64 == 2048) by (bit_vector);
        r
    }
}

proof fn lemma_mask_test(r: u64, k: u64)
    requires
        k < 64,
    ensures
        (r & (1u64 << k) == (1u64 << k)) == ((r >> k) & 1 == 1),
{
    assert((r & (1u64 << k) == (1u64 << k)) == ((r >> k) & 1 == 1)) by (bit_vector)
        requires
            k < 64,
    ;
}

proof fn lemma_bit_count_bound(n: nat)
    ensures
        bit_count(n) <= n,
    decreases n,
{
    if n > 0 {
        lemma_bit_count_bound(n / 2);
    }
}

fn parity_even(byte: u8) -> (r: bool)
    ensures
        r == even_parity(byte),
{
    let mut b: u8 = byte;
    let mut ones: u8 = 0;
    proof {
        lemma_bit_count_bound(byte as nat);
    }
    while b > 0
        invariant
            ones as nat + bit_count(b as nat) == bit_count(byte as nat),
            bit_count(byte as nat) <= 255,
        decreases b,
    {
        ones = ones + b % 2;
        b = b / 2;
    }
    ones % 2 == 0
}

impl MachineState {
    /// A machine with every register, the flags and all memory zeroed.
    pub fn new() -> (r: MachineState)
        ensures
            zeroed(r),
    {
        MachineState {
            rip: 0,
            rax: 0,
            rbx: 0,
            rcx: 0,
            rdx: 0,
            rsp: 0,
            rbp: 0,
            rsi: 0,
            rdi: 0,
            r8: 0,
            r9: 0,
            r10: 0,
            r11: 0,
            r12: 0,
            r13: 0,
            r14: 0,
            r15: 0,
            rflags: 0,
            memory: vec![0u8; MEMORY_SIZE],
        }
    }

    /// The register dump of `dump_text`.
    pub fn to_string(&self) -> (r: String)
        ensures
            r@ == dump_text(*self),
    {
        let mut s = String::new();
        s.append("rax            0x");
        append_hex(&mut s, #[verifier::truncate] (self.rax as u64));
        s.append("\nrbx            0x");
        append_hex(&mut s, #[verifier::truncate] (self.rbx as u64));
        s.append("\nrcx            0x");
        append_hex(&mut s, #[verifier::truncate] (self.rcx as u64));
        s.append("\nrdx            0x");
        append_hex(&mut s, #[verifier::truncate] (self.rdx as u64));
        s.append("\nrsi            0x");
        append_hex(&mut s, #[verifier::truncate] (self.rsi as u64));
        s.append("\nrdi            0x");
        append_hex(&mut s, #[verifier::truncate] (self.rdi as u64));
        s.append("\nrbp            0x");
        append_hex(&mut s, #[verifier::truncate] (self.rbp as u64));
        s.append("\nrsp            0x");
        append_hex(&mut s, #[verifier::truncate] (self.rsp as u64));
        s.append("\nr8             0x");
        append_hex(&mut s, #[verifier::truncate] (self.r8 as u64));
        s.append("\nr9             0x");
        append_hex(&mut s, #[verifier::truncate] (self.r9 as u64));
        s.append("\nr10            0x");
        append_hex(&mut s, #[verifier::truncate] (self.r10 as u64));
        s.append("\nr11            0x");
        append_hex(&mut s, #[verifier::truncate] (self.r11 as u64));
        s.append("\nr12            0x");
        append_hex(&mut s, #[verifier::truncate] (self.r12 as u64));
        s.append("\nr13            0x");
        append_hex(&mut s, #[verifier::truncate] (self.r13 as u64));
        s.append("\nr14            0x");
        append_hex(&mut s, #[verifier::truncate] (self.r14 as u64));
        s.append("\nr15            0x");
        append_hex(&mut s, #[verifier::truncate] (self.r15 as u64));
        s.append("\nrip            0x");
        append_hex(&mut s, #[verifier::truncate] (self.rip as u64));
        assert(s@ =~= dump_text(*self));
        s
    }

    /// The byte at `address`.
    pub fn mem_read_byte(&self, address: u64) -> (r: u8)
        requires
            address < self.memory@.len(),
        ensures
            r == self.memory@[address as int],
    {
        let _size: usize = self.memory.len();
        self.memory[address as usize]
    }

    /// The `length` bytes from `address` on.
    pub fn mem_read(&self, address: u64, length: u64) -> (r: Vec<u8>)
        requires
            address + length <= self.memory@.len(),
        ensures
            r@ == self.memory@.subrange(address as int, address + length),
    {
        let _size: usize = self.memory.len();
        let start = address as usize;
        let end = start + length as usize;
        let mut r: Vec<u8> = Vec::new();
        let mut i: usize = start;
        while i < end
            invariant
                start <= i <= end,
                end == address + length,
                end <= self.memory@.len(),
                r@ == self.memory@.subrange(start as int, i as int),
            decreases end - i,
        {
            r.push(self.memory[i]);
            i = i + 1;
            assert(r@ =~= self.memory@.subrange(start as int, i as int));
        }
        r
    }

    /// Writes `data` from `address` on. A write at an even address of the
    /// display window goes to the display: memory is left as it is and the
    /// first byte is returned as the character shown.
    pub fn mem_write(&mut self, address: u64, data: &[u8]) -> (shown: Option<u8>)
        requires
            in_display_window(address) ==> data@.len() > 0,
            !in_display_window(address) ==> address + data@.len() <= old(self).memory@.len(),
        ensures
            same_registers(*final(self), *old(self)),
            final(self).rflags == old(self).rflags,
            in_display_window(address) ==> shown == Some(data@[0]) && final(self).memory@
                == old(self).memory@,
            !in_display_window(address) ==> shown is None && final(self).memory@ == written(
                old(self).memory@,
                address as int,
                data@,
            ),
    {
        if address >= DISPLAY_START && address <= DISPLAY_END && address % 2 == 0 {
            return Some(data[0]);
        }
        let len = data.len();
        let size: usize = self.memory.len();
        let start = address as usize;
        let mut i: usize = 0;
        while i < len
            invariant
                i <= len,
                len == data@.len(),
                start == address,
                start + len <= self.memory@.len(),
                self.memory@.len() == old(self).memory@.len(),
                self.memory@.len() == size,
                same_registers(*self, *old(self)),
                self.rflags == old(self).rflags,
                self.memory@ == written(old(self).memory@, start as int, data@.subrange(0, i as int)),
            decreases len - i,
        {
            self.memory.set(start + i, data[i]);
            i = i + 1;
            assert(self.memory@ =~= written(old(self).memory@, start as int, data@.subrange(0, i as int)));
        }
        assert(data@.subrange(0, len as int) =~= data@);
        None
    }

    /// Whether `flag` is set.
    pub fn get_flag(&self, flag: Flags) -> (r: bool)
        ensures
            r == flag_of(self.rflags, flag),
    {
        let f = flag.mask();
        proof {
            lemma_mask_test(self.rflags, flag_bit(flag));
        }
        self.rflags & f == f
    }

    /// Sets `flag` to `value`, leaving the other bits of the flags register.
    pub fn set_flag(&mut self, flag: Flags, value: bool)
        ensures
            final(self).rflags == with_flag(old(self).rflags, flag, value),
            same_registers(*final(self), *old(self)),
            final(self).memory@ == old(self).memory@,
    {
        if value {
            self.rflags = self.rflags | flag.mask();
        } else {
            self.rflags = self.rflags & !flag.mask();
        }
    }

    /// Derives Zero, Sign and Parity from an arithmetic result of the given
    /// width: Zero when the result is zero, Sign from its top bit at that
    /// width, Parity when its low byte has an even number of one bits. The
    /// other flags are left as they are.
    pub fn compute_flags(&mut self, result: i64, argument_size: ArgumentSize)
        ensures
            final(self).rflags == flags_after(old(self).rflags, result, argument_size),
            same_registers(*final(self), *old(self)),
            final(self).memory@ == old(self).memory@,
    {
        self.set_flag(Flags::Zero, result == 0);
        let u = result as u64;
        let sign = match argument_size {
            ArgumentSize::Bit8 => u & 0x80 != 0,
            ArgumentSize::Bit16 => u & 0x8000 != 0,
            ArgumentSize::Bit32 => u & 0x8000_0000 != 0,
            ArgumentSize::Bit64 => u & 0x8000_0000_0000_0000 != 0,
        };
        assert(((u & 0x80 != 0) == ((u >> 7u64) & 1 == 1)) && ((u & 0x8000 != 0) == ((u >> 15u64)
            & 1 == 1)) && ((u & 0x8000_0000 != 0) == ((u >> 31u64) & 1 == 1)) && ((u
            & 0x8000_0000_0000_0000 != 0) == ((u >> 63u64) & 1 == 1))) by (bit_vector);
        self.set_flag(Flags::Sign, sign);
        let parity = parity_even(result as u8);
        self.set_flag(Flags::Parity, parity);
    }
}


/// Setting a flag changes that flag to the value given and no other flag.
pub proof fn lemma_set_flag_effect(rflags: u64, f: Flags, g: Flags, value: bool)
    ensures
        flag_of(with_flag(rflags, f, value), g) == if f == g {
            value
        } else {
            flag_of(rflags, g)
        },
{
    let a = flag_bit(f);
    let b = flag_bit(g);
    assert(f == g <==> a == b);
    if value {
        assert((((rflags | (1u64 << a)) >> b) & 1 == 1) == (a == b || ((rflags >> b) & 1 == 1)))
            by (bit_vector)
            requires
                a < 64,
                b < 64,
        ;
    } else {
        assert((((rflags & !(1u64 << a)) >> b) & 1 == 1) == (a != b && ((rflags >> b) & 1 == 1)))
            by (bit_vector)
            requires
                a < 64,
                b < 64,
        ;
    }
}

/// After `compute_flags`: Zero is set exactly for a zero result, Sign is the
/// top bit at the given width, Parity is the even parity of the low byte, and
/// every other flag keeps its value.
pub proof fn lemma_flags_after(rflags: u64, result: i64, size: ArgumentSize, g: Flags)
    ensures
        flag_of(flags_after(rflags, result, size), Flags::Zero) == (result == 0),
        flag_of(flags_after(rflags, result, size), Flags::Sign) == sign_of(result, size),
        flag_of(flags_after(rflags, result, size), Flags::Parity) == even_parity(result as u8),
        g != Flags::Zero && g != Flags::Sign && g != Flags::Parity ==> flag_of(
            flags_after(rflags, result, size),
            g,
        ) == flag_of(rflags, g),
{
    let r1 = with_flag(rflags, Flags::Zero, result == 0);
    let r2 = with_flag(r1, Flags::Sign, sign_of(result, size));
    lemma_set_flag_effect(r2, Flags::Parity, Flags::Zero, even_parity(result as u8));
    lemma_set_flag_effect(r1, Flags::Sign, Flags::Zero, sign_of(result, size));
    lemma_set_flag_effect(rflags, Flags::Zero, Flags::Zero, result == 0);
    lemma_set_flag_effect(r2, Flags::Parity, Flags::Sign, even_parity(result as u8));
    lemma_set_flag_effect(r1, Flags::Sign, Flags::Sign, sign_of(result, size));
    lemma_set_flag_effect(r2, Flags::Parity, Flags::Parity, even_parity(result as u8));
    lemma_set_flag_effect(r2, Flags::Parity, g, even_parity(result as u8));
    lemma_set_flag_effect(r1, Flags::Sign, g, sign_of(result, size));
    lemma_set_flag_effect(rflags, Flags::Zero, g, result == 0);
}

/// A zero result sets Zero at every width; a result of -1 at 8 bits sets Sign
/// and, its low byte having eight one bits, Parity.
pub proof fn lemma_flags_of_zero_and_minus_one(rflags: u64, size: ArgumentSize)
    ensures
        flag_of(flags_after(rflags, 0, size), Flags::Zero),
        flag_of(flags_after(rflags, -1i64, ArgumentSize::Bit8), Flags::Sign),
        flag_of(flags_after(rflags, -1i64, ArgumentSize::Bit8), Flags::Parity),
{
    lemma_flags_after(rflags, 0, size, Flags::Zero);
    lemma_flags_after(rflags, -1i64, ArgumentSize::Bit8, Flags::Zero);
    let m: i64 = -1i64;
    assert(((m as u64) >> 7u64) & 1 == 1 && m as u8 == 255) by (bit_vector)
        requires
            m == -1i64,
    ;
    reveal_with_fuel(bit_count, 10);
    assert(bit_count(255) == 8);
}

} // verus!
