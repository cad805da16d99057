use vstd::prelude::*;

verus! {

/// Width class of an architectural register.
#[derive(Clone, Copy, Debug, PartialEq, Eq, Structural)]
pub enum RegisterSize {
    Bit8,
    Bit32,
    Bit64,
    Segment,
}

/// Architectural register names. Registers own no storage: they name slots of
/// the machine state, and a 32-bit alias denotes the low half of its 64-bit
/// parent.
#[derive(Clone, Copy, Debug, PartialEq, Eq, Structural)]
pub enum Register {
    RAX,
    RBX,
    RCX,
    RDX,
    RSP,
    RBP,
    RSI,
    RDI,

    R8,
    R9,
    R10,
    R11,
    R12,
    R13,
    R14,
    R15,

    RIP,

    EAX,
    EBX,
    ECX,
    EDX,
    ESP,
    EBP,
    ESI,
    EDI,

    R8D,
    R9D,
    R10D,
    R11D,
    R12D,
    R13D,
    R14D,
    R15D,

    AL,
    CL,
    DL,
    BL,
    AH,
    CH,
    DH,
    BH,

    SPL,
    BPL,
    SIL,
    DIL,

    R8B,
    R9B,
    R10B,
    R11B,
    R12B,
    R13B,
    R14B,
    R15B,

    ES,
    CS,
    SS,
    DS,
    FS,
    GS,
}

/// Width of an operand or of a memory access.
#[derive(Clone, Copy, Debug, PartialEq, Eq, Structural)]
pub enum ArgumentSize {
    Bit64,
    Bit32,
    Bit16,
    Bit8,
}

/// Number of bits of a width.
pub open spec fn size_bits(s: ArgumentSize) -> nat {
    match s {
        ArgumentSize::Bit64 => 64,
        ArgumentSize::Bit32 => 32,
        ArgumentSize::Bit16 => 16,
        ArgumentSize::Bit8 => 8,
    }
}

/// The general-purpose 64-bit registers, without the instruction pointer.
pub open spec fn is_gpr64(r: Register) -> bool {
    matches!(r, Register::RAX | Register::RBX | Register::RCX | Register::RDX | Register::RSP | Register::RBP | Register::RSI | Register::RDI | Register::R8 | Register::R9 | Register::R10 | Register::R11 | Register::R12 | Register::R13 | Register::R14 | Register::R15)
}

/// The 32-bit aliases of the general-purpose registers.
pub open spec fn is_alias32(r: Register) -> bool {
    matches!(r, Register::EAX | Register::EBX | Register::ECX | Register::EDX | Register::ESP | Register::EBP | Register::ESI | Register::EDI | Register::R8D | Register::R9D | Register::R10D | Register::R11D | Register::R12D | Register::R13D | Register::R14D | Register::R15D)
}

/// The 8-bit byte registers.
pub open spec fn is_byte_register(r: Register) -> bool {
    matches!(r, Register::AL | Register::CL | Register::DL | Register::BL | Register::AH | Register::CH | Register::DH | Register::BH | Register::SPL | Register::BPL | Register::SIL | Register::DIL | Register::R8B | Register::R9B | Register::R10B | Register::R11B | Register::R12B | Register::R13B | Register::R14B | Register::R15B)
}

/// The segment selectors.
pub open spec fn is_segment(r: Register) -> bool {
    matches!(r, Register::ES | Register::CS | Register::SS | Register::DS | Register::FS | Register::GS)
}

/// The architectural width of each register.
pub open spec fn width_of(r: Register) -> ArgumentSize {
    if is_gpr64(r) || r == Register::RIP {
        ArgumentSize::Bit64
    } else if is_alias32(r) {
        ArgumentSize::Bit32
    } else if is_segment(r) {
        ArgumentSize::Bit16
    } else {
        ArgumentSize::Bit8
    }
}

/// Width of a register; total and without side effects.
pub fn get_register_size(reg: &Register) -> (r: ArgumentSize)
    ensures
        r == width_of(*reg),
{
    match *reg {
        Register::RAX | Register::RBX | Register::RCX | Register::RDX | Register::RSP | Register::RBP | Register::RSI | Register::RDI | Register::R8 | Register::R9 | Register::R10 | Register::R11 | Register::R12 | Register::R13 | Register::R14 | Register::R15 | Register::RIP => ArgumentSize::Bit64,
        Register::EAX | Register::EBX | Register::ECX | Register::EDX | Register::ESP | Register::EBP | Register::ESI | Register::EDI | Register::R8D | Register::R9D | Register::R10D | Register::R11D | Register::R12D | Register::R13D | Register::R14D | Register::R15D => ArgumentSize::Bit32,
        Register::ES | Register::CS | Register::SS | Register::DS | Register::FS | Register::GS => ArgumentSize::Bit16,
        Register::AL | Register::CL | Register::DL | Register::BL | Register::AH | Register::CH | Register::DH | Register::BH | Register::SPL | Register::BPL | Register::SIL | Register::DIL | Register::R8B | Register::R9B | Register::R10B | Register::R11B | Register::R12B | Register::R13B | Register::R14B | Register::R15B => ArgumentSize::Bit8,
    }
}

/// Lower-case assembler name of a register.
pub open spec fn register_name(r: Register) -> Seq<char> {
    match r {
        Register::RAX => "rax"@,
        Register::RBX => "rbx"@,
        Register::RCX => "rcx"@,
        Register::RDX => "rdx"@,
        Register::RSP => "rsp"@,
        Register::RBP => "rbp"@,
        Register::RSI => "rsi"@,
        Register::RDI => "rdi"@,
        Register::R8 => "r8"@,
        Register::R9 => "r9"@,
        Register::R10 => "r10"@,
        Register::R11 => "r11"@,
        Register::R12 => "r12"@,
        Register::R13 => "r13"@,
        Register::R14 => "r14"@,
        Register::R15 => "r15"@,
        Register::RIP => "rip"@,
        Register::EAX => "eax"@,
        Register::EBX => "ebx"@,
        Register::ECX => "ecx"@,
        Register::EDX => "edx"@,
        Register::ESP => "esp"@,
        Register::EBP => "ebp"@,
        Register::ESI => "esi"@,
        Register::EDI => "edi"@,
        Register::R8D => "r8d"@,
        Register::R9D => "r9d"@,
        Register::R10D => "r10d"@,
        Register::R11D => "r11d"@,
        Register::R12D => "r12d"@,
        Register::R13D => "r13d"@,
        Register::R14D => "r14d"@,
        Register::R15D => "r15d"@,
        Register::AL => "al"@,
        Register::CL => "cl"@,
        Register::DL => "dl"@,
        Register::BL => "bl"@,
        Register::AH => "ah"@,
        Register::CH => "ch"@,
        Register::DH => "dh"@,
        Register::BH => "bh"@,
        Register::SPL => "spl"@,
        Register::BPL => "bpl"@,
        Register::SIL => "sil"@,
        Register::DIL => "dil"@,
        Register::R8B => "r8b"@,
        Register::R9B => "r9b"@,
        Register::R10B => "r10b"@,
        Register::R11B => "r11b"@,
        Register::R12B => "r12b"@,
        Register::R13B => "r13b"@,
        Register::R14B => "r14b"@,
        Register::R15B => "r15b"@,
        Register::ES => "es"@,
        Register::CS => "cs"@,
        Register::SS => "ss"@,
        Register::DS => "ds"@,
        Register::FS => "fs"@,
        Register::GS => "gs"@,
    }
}

impl Register {
    /// Lower-case assembler name of the register.
    pub fn name(&self) -> (r: &'static str)
        ensures
            r@ == register_name(*self),
    {
        match *self {
            Register::RAX => "rax",
            Register::RBX => "rbx",
            Register::RCX => "rcx",
            Register::RDX => "rdx",
            Register::RSP => "rsp",
            Register::RBP => "rbp",
            Register::RSI => "rsi",
            Register::RDI => "rdi",
            Register::R8 => "r8",
            Register::R9 => "r9",
            Register::R10 => "r10",
            Register::R11 => "r11",
            Register::R12 => "r12",
            Register::R13 => "r13",
            Register::R14 => "r14",
            Register::R15 => "r15",
            Register::RIP => "rip",
            Register::EAX => "eax",
            Register::EBX => "ebx",
            Register::ECX => "ecx",
            Register::EDX => "edx",
            Register::ESP => "esp",
            Register::EBP => "ebp",
            Register::ESI => "esi",
            Register::EDI => "edi",
            Register::R8D => "r8d",
            Register::R9D => "r9d",
            Register::R10D => "r10d",
            Register::R11D => "r11d",
            Register::R12D => "r12d",
            Register::R13D => "r13d",
            Register::R14D => "r14d",
            Register::R15D => "r15d",
            Register::AL => "al",
            Register::CL => "cl",
            Register::DL => "dl",
            Register::BL => "bl",
            Register::AH => "ah",
            Register::CH => "ch",
            Register::DH => "dh",
            Register::BH => "bh",
            Register::SPL => "spl",
            Register::BPL => "bpl",
            Register::SIL => "sil",
            Register::DIL => "dil",
            Register::R8B => "r8b",
            Register::R9B => "r9b",
            Register::R10B => "r10b",
            Register::R11B => "r11b",
            Register::R12B => "r12b",
            Register::R13B => "r13b",
            Register::R14B => "r14b",
            Register::R15B => "r15b",
            Register::ES => "es",
            Register::CS => "cs",
            Register::SS => "ss",
            Register::DS => "ds",
            Register::FS => "fs",
            Register::GS => "gs",
        }
    }
}


/// A decoded instruction operand.
///
/// Immediates are stored sign-extended to 64 bits together with the width they
/// were encoded with. A register pair carries the direction bit: when
/// `reverse_direction` is set, `register2` is the first logical operand and
/// `register1` the second.
#[derive(Clone, Copy, Debug)]
pub enum InstructionArgument {
    Immediate { immediate: i64, size: ArgumentSize },
    Register { register: Register },
    TwoRegister { register1: Register, register2: Register, reverse_direction: bool },
    EffectiveAddress {
        base: Register,
        index: Option<Register>,
        scale: Option<u8>,
        displacement: i32,
    },
    ImmediateRegister { immediate: i64, size: ArgumentSize, register: Register },
}

/// Why an operand container did not have the expected number of operands.
#[derive(Clone, Copy, Debug, PartialEq, Eq, Structural)]
pub enum ArgumentCountError {
    /// The instruction takes one operand, and a second one is present.
    UnexpectedSecondArgument,
    /// The instruction takes two operands, and the second one is missing.
    MissingSecondArgument,
}

/// One or two operands of an instruction, with an optional opcode byte and an
/// optional explicit operand size.
#[derive(Debug)]
pub struct InstructionArguments {
    pub first_argument: InstructionArgument,
    pub second_argument: Option<InstructionArgument>,
    pub opcode: Option<u8>,
    pub explicit_size: Option<ArgumentSize>,
}

/// Size of an operand pair: the explicit size if one was given, else the width
/// of the first bare register operand, else 64 bits.
pub open spec fn inferred_size(
    first: InstructionArgument,
    second: Option<InstructionArgument>,
    explicit: Option<ArgumentSize>,
) -> ArgumentSize {
    match explicit {
        Some(s) => s,
        None => match first {
            InstructionArgument::Register { register } => width_of(register),
            _ => match second {
                Some(InstructionArgument::Register { register }) => width_of(register),
                _ => ArgumentSize::Bit64,
            },
        },
    }
}

impl InstructionArguments {
    /// Succeeds exactly when there is no second operand.
    pub fn assert_one_argument(&self) -> (r: Result<(), ArgumentCountError>)
        ensures
            r is Ok <==> self.second_argument is None,
            r is Err ==> r == Err::<(), _>(ArgumentCountError::UnexpectedSecondArgument),
    {
        match self.second_argument {
            Some(_) => Err(ArgumentCountError::UnexpectedSecondArgument),
            None => Ok(()),
        }
    }

    /// Succeeds exactly when there is a second operand.
    pub fn assert_two_arguments(&self) -> (r: Result<(), ArgumentCountError>)
        ensures
            r is Ok <==> self.second_argument is Some,
            r is Err ==> r == Err::<(), _>(ArgumentCountError::MissingSecondArgument),
    {
        match self.second_argument {
            Some(_) => Ok(()),
            None => Err(ArgumentCountError::MissingSecondArgument),
        }
    }

    /// Operand size of the instruction, by the priority rule of `inferred_size`.
    pub fn size(&self) -> (r: ArgumentSize)
        ensures
            r == inferred_size(self.first_argument, self.second_argument, self.explicit_size),
    {
        match self.explicit_size {
            Some(explicit_size) => explicit_size,
            None => match self.first_argument {
                InstructionArgument::Register { ref register } => get_register_size(register),
                _ => match self.second_argument {
                    Some(InstructionArgument::Register { ref register }) => get_register_size(
                        register,
                    ),
                    _ => ArgumentSize::Bit64,
                },
            },
        }
    }
}

/// Collects the parts of an `InstructionArguments` value.
pub struct InstructionArgumentsBuilder {
    first_argument: InstructionArgument,
    second_argument: Option<InstructionArgument>,
    opcode: Option<u8>,
    explicit_size: Option<ArgumentSize>,
}

impl InstructionArgumentsBuilder {
    /// The first operand collected so far.
    pub closed spec fn first(&self) -> InstructionArgument {
        self.first_argument
    }

    /// The second operand collected so far.
    pub closed spec fn second(&self) -> Option<InstructionArgument> {
        self.second_argument
    }

    /// The opcode byte collected so far.
    pub closed spec fn opcode_byte(&self) -> Option<u8> {
        self.opcode
    }

    /// The explicit size collected so far.
    pub closed spec fn size_override(&self) -> Option<ArgumentSize> {
        self.explicit_size
    }

    /// A builder holding only the first operand.
    pub fn new(argument: InstructionArgument) -> (r: InstructionArgumentsBuilder)
        ensures
            r.first() == argument,
            r.second() is None,
            r.opcode_byte() is None,
            r.size_override() is None,
    {
        InstructionArgumentsBuilder {
            first_argument: argument,
            second_argument: None,
            opcode: None,
            explicit_size: None,
        }
    }

    /// Adds the second operand.
    pub fn second_argument(self, second_argument: InstructionArgument) -> (r:
        InstructionArgumentsBuilder)
        ensures
            r.first() == self.first(),
            r.second() == Some(second_argument),
            r.opcode_byte() == self.opcode_byte(),
            r.size_override() == self.size_override(),
    {
        InstructionArgumentsBuilder { second_argument: Some(second_argument), ..self }
    }

    /// Adds the opcode byte.
    pub fn opcode(self, opcode: u8) -> (r: InstructionArgumentsBuilder)
        ensures
            r.first() == self.first(),
            r.second() == self.second(),
            r.opcode_byte() == Some(opcode),
            r.size_override() == self.size_override(),
    {
        InstructionArgumentsBuilder { opcode: Some(opcode), ..self }
    }

    /// Adds an explicit operand size, which takes precedence over inference.
    pub fn explicit_size(self, explicit_size: ArgumentSize) -> (r: InstructionArgumentsBuilder)
        ensures
            r.first() == self.first(),
            r.second() == self.second(),
            r.opcode_byte() == self.opcode_byte(),
            r.size_override() == Some(explicit_size),
    {
        InstructionArgumentsBuilder { explicit_size: Some(explicit_size), ..self }
    }

    /// The operands collected, as an immutable value.
    pub fn finalize(self) -> (r: InstructionArguments)
        ensures
            r.first_argument == self.first(),
            r.second_argument == self.second(),
            r.opcode == self.opcode_byte(),
            r.explicit_size == self.size_override(),
    {
        InstructionArguments {
            first_argument: self.first_argument,
            second_argument: self.second_argument,
            opcode: self.opcode,
            explicit_size: self.explicit_size,
        }
    }
}


/// The hexadecimal digit of a value below 16, in lower case.
pub open spec fn hex_digit(d: nat) -> Seq<char> {
    if d == 0 {
        "0"@
    } else if d == 1 {
        "1"@
    } else if d == 2 {
        "2"@
    } else if d == 3 {
        "3"@
    } else if d == 4 {
        "4"@
    } else if d == 5 {
        "5"@
    } else if d == 6 {
        "6"@
    } else if d == 7 {
        "7"@
    } else if d == 8 {
        "8"@
    } else if d == 9 {
        "9"@
    } else if d == 10 {
        "a"@
    } else if d == 11 {
        "b"@
    } else if d == 12 {
        "c"@
    } else if d == 13 {
        "d"@
    } else if d == 14 {
        "e"@
    } else {
        "f"@
    }
}

/// Hexadecimal text of a number, lower case, without leading zeros.
pub open spec fn hex_text(n: nat) -> Seq<char>
    decreases n,
{
    if n < 16 {
        hex_digit(n)
    } else {
        hex_text(n / 16) + hex_digit(n % 16)
    }
}

/// Decimal text of a number, without leading zeros.
pub open spec fn dec_text(n: nat) -> Seq<char>
    decreases n,
{
    if n < 10 {
        hex_digit(n)
    } else {
        dec_text(n / 10) + hex_digit(n % 10)
    }
}

/// `%` followed by the register's lower-case name.
pub open spec fn render_register(r: Register) -> Seq<char> {
    "%"@ + register_name(r)
}

/// A displacement in hexadecimal: a leading `-` and the magnitude when it is
/// negative; zero is `0x0`.
pub open spec fn render_displacement(d: i32) -> Seq<char> {
    if d < 0 {
        "-0x"@ + hex_text((-d) as nat)
    } else {
        "0x"@ + hex_text(d as nat)
    }
}

/// An immediate as `$0x` and the hexadecimal digits of its 64-bit two's
/// complement pattern.
pub open spec fn render_immediate(v: i64) -> Seq<char> {
    "$0x"@ + hex_text(v as u64 as nat)
}

/// The `(base,index,scale)` part of an effective address; without an index
/// register only the base stands between the parentheses, and an index without
/// a scale is written without one.
pub open spec fn render_address_registers(
    base: Register,
    index: Option<Register>,
    scale: Option<u8>,
) -> Seq<char> {
    match (index, scale) {
        (Some(i), Some(k)) => "("@ + render_register(base) + ","@ + render_register(i) + ","@
            + dec_text(k as nat) + ")"@,
        (Some(i), None) => "("@ + render_register(base) + ","@ + render_register(i) + ")"@,
        (None, _) => "("@ + render_register(base) + ")"@,
    }
}

/// Assembler (AT&T) syntax of an operand.
pub open spec fn render_argument(a: InstructionArgument) -> Seq<char> {
    match a {
        InstructionArgument::Immediate { immediate, .. } => render_immediate(immediate),
        InstructionArgument::Register { register } => render_register(register),
        InstructionArgument::TwoRegister { register1, register2, .. } => render_register(
            register1,
        ) + ","@ + render_register(register2),
        InstructionArgument::EffectiveAddress { base, index, scale, displacement } =>
            render_displacement(displacement) + render_address_registers(base, index, scale),
        InstructionArgument::ImmediateRegister { immediate, register, .. } => render_immediate(
            immediate,
        ) + ","@ + render_register(register),
    }
}

/// Assembler syntax of an operand list: the operands separated by a comma.
pub open spec fn render_arguments(
    first: InstructionArgument,
    second: Option<InstructionArgument>,
) -> Seq<char> {
    match second {
        Some(b) => render_argument(first) + ","@ + render_argument(b),
        None => render_argument(first),
    }
}

fn hex_digit_str(d: u64) -> (r: &'static str)
    requires
        d < 16,
    ensures
        r@ == hex_digit(d as nat),
{
    match d {
        0 => "0",
        1 => "1",
        2 => "2",
        3 => "3",
        4 => "4",
        5 => "5",
        6 => "6",
        7 => "7",
        8 => "8",
        9 => "9",
        10 => "a",
        11 => "b",
        12 => "c",
        13 => "d",
        14 => "e",
        _ => "f",
    }
}

pub(crate) fn append_hex(s: &mut String, n: u64)
    ensures
        final(s)@ == old(s)@ + hex_text(n as nat),
    decreases n,
{
    if n < 16 {
        s.append(hex_digit_str(n));
    } else {
        append_hex(s, n / 16);
        s.append(hex_digit_str(n % 16));
        assert(final(s)@ =~= old(s)@ + hex_text(n as nat));
    }
}

fn append_dec(s: &mut String, n: u64)
    ensures
        final(s)@ == old(s)@ + dec_text(n as nat),
    decreases n,
{
    if n < 10 {
        s.append(hex_digit_str(n));
    } else {
        append_dec(s, n / 10);
        s.append(hex_digit_str(n % 10));
        assert(final(s)@ =~= old(s)@ + dec_text(n as nat));
    }
}

fn append_register(s: &mut String, r: Register)
    ensures
        final(s)@ == old(s)@ + render_register(r),
{
    s.append("%");
    s.append(r.name());
    assert(final(s)@ =~= old(s)@ + render_register(r));
}

fn append_immediate(s: &mut String, v: i64)
    ensures
        final(s)@ == old(s)@ + render_immediate(v),
{
    s.append("$0x");
    append_hex(s, #[verifier::truncate] (v as u64));
    assert(final(s)@ =~= old(s)@ + render_immediate(v));
}

fn append_displacement(s: &mut String, d: i32)
    ensures
        final(s)@ == old(s)@ + render_displacement(d),
{
    if d < 0 {
        s.append("-0x");
        append_hex(s, (-(d as i64)) as u64);
    } else {
        s.append("0x");
        append_hex(s, d as u64);
    }
    assert(final(s)@ =~= old(s)@ + render_displacement(d));
}

fn append_address_registers(s: &mut String, base: Register, index: Option<Register>, scale: Option<u8>)
    ensures
        final(s)@ == old(s)@ + render_address_registers(base, index, scale),
{
    s.append("(");
    append_register(s, base);
    match (index, scale) {
        (Some(i), Some(k)) => {
            s.append(",");
            append_register(s, i);
            s.append(",");
            append_dec(s, k as u64);
        },
        (Some(i), None) => {
            s.append(",");
            append_register(s, i);
        },
        (None, _) => {},
    }
    s.append(")");
    assert(final(s)@ =~= old(s)@ + render_address_registers(base, index, scale));
}

fn append_argument(s: &mut String, a: &InstructionArgument)
    ensures
        final(s)@ == old(s)@ + render_argument(*a),
{
    match *a {
        InstructionArgument::Immediate { immediate, .. } => append_immediate(s, immediate),
        InstructionArgument::Register { register } => append_register(s, register),
        InstructionArgument::TwoRegister { register1, register2, .. } => {
            append_register(s, register1);
            s.append(",");
            append_register(s, register2);
            assert(final(s)@ =~= old(s)@ + render_argument(*a));
        },
        InstructionArgument::EffectiveAddress { base, index, scale, displacement } => {
            append_displacement(s, displacement);
            append_address_registers(s, base, index, scale);
            assert(final(s)@ =~= old(s)@ + render_argument(*a));
        },
        InstructionArgument::ImmediateRegister { immediate, register, .. } => {
            append_immediate(s, immediate);
            s.append(",");
            append_register(s, register);
            assert(final(s)@ =~= old(s)@ + render_argument(*a));
        },
    }
}

impl Register {
    /// Assembler syntax: `%` and the lower-case name.
    pub fn to_string(&self) -> (r: String)
        ensures
            r@ == render_register(*self),
    {
        let mut s = String::new();
        append_register(&mut s, *self);
        s
    }
}

impl InstructionArgument {
    /// Assembler syntax of the operand.
    pub fn to_string(&self) -> (r: String)
        ensures
            r@ == render_argument(*self),
    {
        let mut s = String::new();
        append_argument(&mut s, self);
        s
    }
}

impl InstructionArguments {
    /// Assembler syntax of the operands, separated by a comma.
    pub fn to_string(&self) -> (r: String)
        ensures
            r@ == render_arguments(self.first_argument, self.second_argument),
    {
        let mut s = String::new();
        append_argument(&mut s, &self.first_argument);
        match self.second_argument {
            Some(ref b) => {
                s.append(",");
                append_argument(&mut s, b);
            },
            None => {},
        }
        s
    }
}


/// Each register is in exactly one width class: 64 bits for the general
/// registers and the instruction pointer, 32 for their aliases, 16 for the
/// segment selectors, 8 for the byte registers.
pub proof fn lemma_register_width_classes(r: Register)
    ensures
        (width_of(r) == ArgumentSize::Bit64) == (is_gpr64(r) || r == Register::RIP),
        (width_of(r) == ArgumentSize::Bit32) == is_alias32(r),
        (width_of(r) == ArgumentSize::Bit16) == is_segment(r),
        (width_of(r) == ArgumentSize::Bit8) == is_byte_register(r),
{
}

/// A register renders as `%` and its name; the immediate 0x2a as `$0x2a`; an
/// effective address with a base only as its displacement and the base in
/// parentheses, `0x0(...)` for no displacement and `-0x8(...)` for -8.
pub proof fn lemma_render_shapes(r: Register, base: Register, scale: Option<u8>, size: ArgumentSize)
    ensures
        render_argument(InstructionArgument::Register { register: r }) == "%"@ + register_name(r),
        render_argument(InstructionArgument::Immediate { immediate: 0x2a, size }) == "$0x2a"@,
        render_argument(
            InstructionArgument::EffectiveAddress { base, index: None, scale, displacement: 0 },
        ) == "0x0("@ + render_register(base) + ")"@,
        render_argument(
            InstructionArgument::EffectiveAddress { base, index: None, scale, displacement: -8i32 },
        ) == "-0x8("@ + render_register(base) + ")"@,
{
    reveal_strlit("$0x");
    reveal_strlit("$0x2a");
    reveal_strlit("2");
    reveal_strlit("a");
    reveal_strlit("0x");
    reveal_strlit("0");
    reveal_strlit("0x0(");
    reveal_strlit("(");
    reveal_strlit("-0x");
    reveal_strlit("8");
    reveal_strlit("-0x8(");
    reveal_strlit("0x0");
    reveal_strlit("-0x8");
    assert(hex_text(0) == hex_digit(0));
    assert(hex_text(8) == hex_digit(8));
    assert(hex_text(42) == hex_text(2) + hex_digit(10));
    assert(render_immediate(0x2a) =~= "$0x2a"@);
    assert(render_displacement(0) =~= "0x0"@);
    assert(render_displacement(-8i32) =~= "-0x8"@);
    assert(render_argument(
        InstructionArgument::EffectiveAddress { base, index: None, scale, displacement: 0 },
    ) =~= "0x0("@ + render_register(base) + ")"@);
    assert(render_argument(
        InstructionArgument::EffectiveAddress { base, index: None, scale, displacement: -8i32 },
    ) =~= "-0x8("@ + render_register(base) + ")"@);
}

} // verus!
