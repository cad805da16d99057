use vstd::prelude::*;

use crate::instruction_set::{
    get_register_size, inferred_size, is_alias32, is_byte_register, is_gpr64, is_segment, width_of,
    ArgumentSize, InstructionArgument, Register,
};
use crate::machine_state::{same_registers_but_rsp, written, zeroed, MachineState};

verus! {

/// Why an operand value or size could not be produced.
#[derive(Clone, Copy, Debug, PartialEq, Eq, Structural)]
pub enum OperandError {
    /// A second operand was asked of a shape that has only one.
    SingleOperand,
    /// This extraction path is not implemented.
    NotSupported,
    /// The register cannot be read at the requested width.
    WidthMismatch,
}

/// The processor: operand evaluation and stack operations over a machine state.
pub struct CPU {
    pub machine_state: MachineState,
}

/// The 64-bit slot that a general-purpose register or its 32-bit alias names,
/// or the instruction pointer; zero for the other registers.
pub open spec fn slot_value(s: MachineState, r: Register) -> i64 {
    match r {
        Register::RAX | Register::EAX => s.rax,
        Register::RBX | Register::EBX => s.rbx,
        Register::RCX | Register::ECX => s.rcx,
        Register::RDX | Register::EDX => s.rdx,
        Register::RSP | Register::ESP => s.rsp,
        Register::RBP | Register::EBP => s.rbp,
        Register::RSI | Register::ESI => s.rsi,
        Register::RDI | Register::EDI => s.rdi,
        Register::R8 | Register::R8D => s.r8,
        Register::R9 | Register::R9D => s.r9,
        Register::R10 | Register::R10D => s.r10,
        Register::R11 | Register::R11D => s.r11,
        Register::R12 | Register::R12D => s.r12,
        Register::R13 | Register::R13D => s.r13,
        Register::R14 | Register::R14D => s.r14,
        Register::R15 | Register::R15D => s.r15,
        Register::RIP => s.rip,
        _ => 0,
    }
}

/// The 32-bit alias of a general-purpose 64-bit register.
pub open spec fn alias32_of(r: Register) -> Register {
    match r {
        Register::RAX => Register::EAX,
        Register::RBX => Register::EBX,
        Register::RCX => Register::ECX,
        Register::RDX => Register::EDX,
        Register::RSP => Register::ESP,
        Register::RBP => Register::EBP,
        Register::RSI => Register::ESI,
        Register::RDI => Register::EDI,
        Register::R8 => Register::R8D,
        Register::R9 => Register::R9D,
        Register::R10 => Register::R10D,
        Register::R11 => Register::R11D,
        Register::R12 => Register::R12D,
        Register::R13 => Register::R13D,
        Register::R14 => Register::R14D,
        _ => Register::R15D,
    }
}

/// A register can be read as a 32-bit value: a 32-bit alias, the instruction
/// pointer or a segment selector.
pub open spec fn readable_i32(r: Register) -> bool {
    !is_gpr64(r) && !is_byte_register(r)
}

/// A register can be read as a 64-bit value: all but the byte registers.
pub open spec fn readable_i64(r: Register) -> bool {
    !is_byte_register(r)
}

/// The 32-bit value of a register: the low half of its slot; segment selectors
/// read as zero.
pub open spec fn register_value_i32(s: MachineState, r: Register) -> i32 {
    if is_segment(r) {
        0
    } else {
        slot_value(s, r) as i32
    }
}

/// The 64-bit value of a register. A 32-bit alias is the low half of its slot,
/// sign-extended; segment selectors read as zero.
pub open spec fn register_value_i64(s: MachineState, r: Register) -> i64 {
    if is_alias32(r) {
        slot_value(s, r) as i32 as i64
    } else if is_segment(r) {
        0
    } else {
        slot_value(s, r)
    }
}

/// The register that is the first logical operand of a register pair.
pub open spec fn first_of_pair(register1: Register, register2: Register, reverse_direction: bool) -> Register {
    if reverse_direction {
        register2
    } else {
        register1
    }
}

/// The register that is the second logical operand of a register pair.
pub open spec fn second_of_pair(register1: Register, register2: Register, reverse_direction: bool) -> Register {
    if reverse_direction {
        register1
    } else {
        register2
    }
}

/// Size of the first operand: a register's width, the encoded width of an
/// immediate; a memory operand does not describe its width and counts as 64
/// bits.
pub open spec fn first_operand_size(a: InstructionArgument) -> ArgumentSize {
    match a {
        InstructionArgument::Immediate { size, .. } => size,
        InstructionArgument::Register { register } => width_of(register),
        InstructionArgument::TwoRegister { register1, register2, reverse_direction } => width_of(
            first_of_pair(register1, register2, reverse_direction),
        ),
        InstructionArgument::EffectiveAddress { .. } => ArgumentSize::Bit64,
        InstructionArgument::ImmediateRegister { size, .. } => size,
    }
}

/// Size of the second operand, for the shapes that have one.
pub open spec fn second_operand_size(a: InstructionArgument) -> Option<ArgumentSize> {
    match a {
        InstructionArgument::TwoRegister { register1, register2, reverse_direction } => Some(
            width_of(second_of_pair(register1, register2, reverse_direction)),
        ),
        InstructionArgument::ImmediateRegister { register, .. } => Some(width_of(register)),
        _ => None,
    }
}

/// The first operand's value as a 32-bit integer.
pub open spec fn first_value_i32(s: MachineState, a: InstructionArgument) -> Result<i32, OperandError> {
    match a {
        InstructionArgument::Immediate { immediate, .. } => Ok(immediate as i32),
        InstructionArgument::ImmediateRegister { immediate, .. } => Ok(immediate as i32),
        InstructionArgument::Register { register } => if readable_i32(register) {
            Ok(register_value_i32(s, register))
        } else {
            Err(OperandError::WidthMismatch)
        },
        InstructionArgument::TwoRegister { register1, register2, reverse_direction } => {
            let r = first_of_pair(register1, register2, reverse_direction);
            if readable_i32(r) {
                Ok(register_value_i32(s, r))
            } else {
                Err(OperandError::WidthMismatch)
            }
        },
        InstructionArgument::EffectiveAddress { .. } => Err(OperandError::NotSupported),
    }
}

/// The first operand's value as a 64-bit integer.
pub open spec fn first_value_i64(s: MachineState, a: InstructionArgument) -> Result<i64, OperandError> {
    match a {
        InstructionArgument::Immediate { immediate, .. } => Ok(immediate),
        InstructionArgument::ImmediateRegister { immediate, .. } => Ok(immediate),
        InstructionArgument::Register { register } => if readable_i64(register) {
            Ok(register_value_i64(s, register))
        } else {
            Err(OperandError::WidthMismatch)
        },
        InstructionArgument::TwoRegister { register1, register2, reverse_direction } => {
            let r = first_of_pair(register1, register2, reverse_direction);
            if readable_i64(r) {
                Ok(register_value_i64(s, r))
            } else {
                Err(OperandError::WidthMismatch)
            }
        },
        InstructionArgument::EffectiveAddress { .. } => Err(OperandError::NotSupported),
    }
}

impl CPU {
    /// A processor over a zeroed machine.
    pub fn new() -> (r: CPU)
        ensures
            zeroed(r.machine_state),
    {
        CPU { machine_state: MachineState::new() }
    }

    /// The slot a register names, or zero.
    fn slot(&self, register: Register) -> (r: i64)
        ensures
            r == slot_value(self.machine_state, register),
    {
        let s = &self.machine_state;
        match register {
            Register::RAX | Register::EAX => s.rax,
            Register::RBX | Register::EBX => s.rbx,
            Register::RCX | Register::ECX => s.rcx,
            Register::RDX | Register::EDX => s.rdx,
            Register::RSP | Register::ESP => s.rsp,
            Register::RBP | Register::EBP => s.rbp,
            Register::RSI | Register::ESI => s.rsi,
            Register::RDI | Register::EDI => s.rdi,
            Register::R8 | Register::R8D => s.r8,
            Register::R9 | Register::R9D => s.r9,
            Register::R10 | Register::R10D => s.r10,
            Register::R11 | Register::R11D => s.r11,
            Register::R12 | Register::R12D => s.r12,
            Register::R13 | Register::R13D => s.r13,
            Register::R14 | Register::R14D => s.r14,
            Register::R15 | Register::R15D => s.r15,
            Register::RIP => s.rip,
            _ => 0,
        }
    }

    fn get_register_value_i32(&self, register: Register) -> (r: i32)
        requires
            readable_i32(register),
        ensures
            r == register_value_i32(self.machine_state, register),
    {
        if matches!(register, Register::ES | Register::CS | Register::SS | Register::DS | Register::FS | Register::GS) {
            0
        } else {
            #[verifier::truncate]
            (self.slot(register) as i32)
        }
    }

    fn get_register_value_i64(&self, register: Register) -> (r: i64)
        requires
            readable_i64(register),
        ensures
            r == register_value_i64(self.machine_state, register),
    {
        match get_register_size(&register) {
            ArgumentSize::Bit32 => {
                let low = #[verifier::truncate] (self.slot(register) as i32);
                low as i64
            },
            ArgumentSize::Bit16 => 0,
            _ => self.slot(register),
        }
    }

    /// Size of the first operand.
    pub fn first_argument_size(&self, arg: &InstructionArgument) -> (r: ArgumentSize)
        ensures
            r == first_operand_size(*arg),
    {
        match *arg {
            InstructionArgument::Immediate { size, .. } => size,
            InstructionArgument::Register { ref register } => get_register_size(register),
            InstructionArgument::TwoRegister { ref register1, ref register2, reverse_direction } => {
                if reverse_direction {
                    get_register_size(register2)
                } else {
                    get_register_size(register1)
                }
            },
            InstructionArgument::EffectiveAddress { .. } => ArgumentSize::Bit64,
            InstructionArgument::ImmediateRegister { size, .. } => size,
        }
    }

    /// Size of the second operand; fails on the shapes with one operand.
    pub fn second_argument_size(&self, arg: &InstructionArgument) -> (r: Result<ArgumentSize, OperandError>)
        ensures
            second_operand_size(*arg) matches Some(s) ==> r == Ok::<_, OperandError>(s),
            second_operand_size(*arg) is None ==> r == Err::<ArgumentSize, _>(OperandError::SingleOperand),
    {
        match *arg {
            InstructionArgument::TwoRegister { ref register1, ref register2, reverse_direction } => {
                if reverse_direction {
                    Ok(get_register_size(register1))
                } else {
                    Ok(get_register_size(register2))
                }
            },
            InstructionArgument::ImmediateRegister { ref register, .. } => Ok(get_register_size(register)),
            _ => Err(OperandError::SingleOperand),
        }
    }

    /// 8-bit extraction is not implemented.
    pub fn first_argument_i8(&self, arg: InstructionArgument) -> (r: Result<i8, OperandError>)
        ensures
            r == Err::<i8, _>(OperandError::NotSupported),
    {
        Err(OperandError::NotSupported)
    }

    /// 16-bit extraction is not implemented.
    pub fn first_argument_i16(&self, arg: InstructionArgument) -> (r: Result<i16, OperandError>)
        ensures
            r == Err::<i16, _>(OperandError::NotSupported),
    {
        Err(OperandError::NotSupported)
    }

    /// The first operand's value as a 32-bit integer: a register read through
    /// its 32-bit view, an immediate cut to 32 bits.
    pub fn first_argument_i32(&self, arg: InstructionArgument) -> (r: Result<i32, OperandError>)
        ensures
            r == first_value_i32(self.machine_state, arg),
    {
        match arg {
            InstructionArgument::Immediate { immediate, .. } => Ok(#[verifier::truncate] (immediate as i32)),
            InstructionArgument::ImmediateRegister { immediate, .. } => Ok(#[verifier::truncate] (immediate as i32)),
            InstructionArgument::Register { register } => self.read_i32(register),
            InstructionArgument::TwoRegister { register1, register2, reverse_direction } => {
                if reverse_direction {
                    self.read_i32(register2)
                } else {
                    self.read_i32(register1)
                }
            },
            InstructionArgument::EffectiveAddress { .. } => Err(OperandError::NotSupported),
        }
    }

    /// The first operand's value as a 64-bit integer.
    pub fn first_argument_i64(&self, arg: InstructionArgument) -> (r: Result<i64, OperandError>)
        ensures
            r == first_value_i64(self.machine_state, arg),
    {
        match arg {
            InstructionArgument::Immediate { immediate, .. } => Ok(immediate),
            InstructionArgument::ImmediateRegister { immediate, .. } => Ok(immediate),
            InstructionArgument::Register { register } => self.read_i64(register),
            InstructionArgument::TwoRegister { register1, register2, reverse_direction } => {
                if reverse_direction {
                    self.read_i64(register2)
                } else {
                    self.read_i64(register1)
                }
            },
            InstructionArgument::EffectiveAddress { .. } => Err(OperandError::NotSupported),
        }
    }

    /// Second-operand extraction is not implemented.
    pub fn second_argument_i8(&self, arg: InstructionArgument) -> (r: Result<i8, OperandError>)
        ensures
            r == Err::<i8, _>(OperandError::NotSupported),
    {
        Err(OperandError::NotSupported)
    }

    /// Second-operand extraction is not implemented.
    pub fn second_argument_i16(&self, arg: InstructionArgument) -> (r: Result<i16, OperandError>)
        ensures
            r == Err::<i16, _>(OperandError::NotSupported),
    {
        Err(OperandError::NotSupported)
    }

    /// Second-operand extraction is not implemented.
    pub fn second_argument_i32(&self, arg: InstructionArgument) -> (r: Result<i32, OperandError>)
        ensures
            r == Err::<i32, _>(OperandError::NotSupported),
    {
        Err(OperandError::NotSupported)
    }

    /// Second-operand extraction is not implemented.
    pub fn second_argument_i64(&self, arg: InstructionArgument) -> (r: Result<i64, OperandError>)
        ensures
            r == Err::<i64, _>(OperandError::NotSupported),
    {
        Err(OperandError::NotSupported)
    }

    fn read_i32(&self, register: Register) -> (r: Result<i32, OperandError>)
        ensures
            readable_i32(register) ==> r == Ok::<_, OperandError>(register_value_i32(self.machine_state, register)),
            !readable_i32(register) ==> r == Err::<i32, _>(OperandError::WidthMismatch),
    {
        match get_register_size(&register) {
            ArgumentSize::Bit64 if !matches!(register, Register::RIP) => Err(OperandError::WidthMismatch),
            ArgumentSize::Bit8 => Err(OperandError::WidthMismatch),
            _ => Ok(self.get_register_value_i32(register)),
        }
    }

    fn read_i64(&self, register: Register) -> (r: Result<i64, OperandError>)
        ensures
            readable_i64(register) ==> r == Ok::<_, OperandError>(register_value_i64(self.machine_state, register)),
            !readable_i64(register) ==> r == Err::<i64, _>(OperandError::WidthMismatch),
    {
        match get_register_size(&register) {
            ArgumentSize::Bit8 => Err(OperandError::WidthMismatch),
            _ => Ok(self.get_register_value_i64(register)),
        }
    }

    /// Pushes `data`: the stack pointer goes down by its length, one byte at a
    /// time, and the bytes stand in the order given from the new stack pointer
    /// on. The stack is addressed directly in memory, outside the display
    /// window's interception.
    pub fn stack_push(&mut self, data: Vec<u8>)
        requires
            data@.len() <= old(self).machine_state.rsp,
            old(self).machine_state.rsp <= old(self).machine_state.memory@.len(),
        ensures
            final(self).machine_state.rsp == old(self).machine_state.rsp - data@.len(),
            final(self).machine_state.memory@ == written(
                old(self).machine_state.memory@,
                final(self).machine_state.rsp as int,
                data@,
            ),
            same_registers_but_rsp(final(self).machine_state, old(self).machine_state),
            final(self).machine_state.rflags == old(self).machine_state.rflags,
    {
        let mut i: usize = data.len();
        while i > 0
            invariant
                i <= data@.len(),
                data@.len() <= old(self).machine_state.rsp,
                old(self).machine_state.rsp <= old(self).machine_state.memory@.len(),
                self.machine_state.rsp == old(self).machine_state.rsp - (data@.len() - i),
                self.machine_state.memory@.len() == old(self).machine_state.memory@.len(),
                self.machine_state.memory@ == written(
                    old(self).machine_state.memory@,
                    self.machine_state.rsp as int,
                    data@.subrange(i as int, data@.len() as int),
                ),
                same_registers_but_rsp(self.machine_state, old(self).machine_state),
                self.machine_state.rflags == old(self).machine_state.rflags,
            decreases i,
        {
            i = i - 1;
            let size: usize = self.machine_state.memory.len();
            self.machine_state.rsp = self.machine_state.rsp - 1;
            let address = self.machine_state.rsp as usize;
            self.machine_state.memory.set(address, data[i]);
            assert(self.machine_state.memory@ =~= written(
                old(self).machine_state.memory@,
                self.machine_state.rsp as int,
                data@.subrange(i as int, data@.len() as int),
            ));
        }
        assert(data@.subrange(0, data@.len() as int) =~= data@);
    }
}

/// The `n` low bytes of `x`, least significant first: byte `i` is `x` shifted
/// right by `8 * i` bits and cut to 8 bits.
pub open spec fn le_bytes(x: u64, n: nat) -> Seq<u8> {
    Seq::new(n, |i: int| (x >> (8 * i) as u64) as u8)
}

/// The 16-bit value of two bytes, least significant first.
pub open spec fn le_u16(b: Seq<u8>) -> u16 {
    ((b[0] as u16) | ((b[1] as u16) << 8u16)) as u16
}

/// The 32-bit value of four bytes, least significant first.
pub open spec fn le_u32(b: Seq<u8>) -> u32 {
    ((b[0] as u32) | ((b[1] as u32) << 8u32) | ((b[2] as u32) << 16u32) | ((b[3] as u32) << 24u32)) as u32
}

/// The 64-bit value of eight bytes, least significant first.
pub open spec fn le_u64(b: Seq<u8>) -> u64 {
    ((b[0] as u64) | ((b[1] as u64) << 8u64) | ((b[2] as u64) << 16u64) | ((b[3] as u64) << 24u64)
        | ((b[4] as u64) << 32u64) | ((b[5] as u64) << 40u64) | ((b[6] as u64) << 48u64) | ((b[7] as u64)
        << 56u64)) as u64
}

/// The `n` low bytes of `x`, least significant first.
fn le_vec(x: u64, n: u64) -> (r: Vec<u8>)
    requires
        n <= 8,
    ensures
        r@ == le_bytes(x, n as nat),
{
    let mut r: Vec<u8> = Vec::new();
    let mut k: u64 = 0;
    while k < n
        invariant
            k <= n <= 8,
            r@ == le_bytes(x, k as nat),
        decreases n - k,
    {
        r.push(#[verifier::truncate] ((x >> (8 * k)) as u8));
        k = k + 1;
        assert(r@ =~= le_bytes(x, k as nat));
    }
    r
}

/// The byte of an 8-bit value.
pub fn convert_i8_to_u8vec(value: i8) -> (r: Vec<u8>)
    ensures
        r@ == le_bytes(value as u8 as u64, 1),
{
    le_vec(#[verifier::truncate] (value as u8) as u64, 1)
}

/// The two bytes of a 16-bit value, least significant first.
pub fn convert_i16_to_u8vec(value: i16) -> (r: Vec<u8>)
    ensures
        r@ == le_bytes(value as u16 as u64, 2),
{
    le_vec(#[verifier::truncate] (value as u16) as u64, 2)
}

/// The four bytes of a 32-bit value, least significant first.
pub fn convert_i32_to_u8vec(value: i32) -> (r: Vec<u8>)
    ensures
        r@ == le_bytes(value as u32 as u64, 4),
{
    le_vec(#[verifier::truncate] (value as u32) as u64, 4)
}

/// The eight bytes of a 64-bit value, least significant first.
pub fn convert_i64_to_u8vec(value: i64) -> (r: Vec<u8>)
    ensures
        r@ == le_bytes(value as u64, 8),
{
    le_vec(#[verifier::truncate] (value as u64), 8)
}


/// The 8-bit value of one byte.
pub fn convert_u8vec_to_i8(bytes: &[u8]) -> (r: i8)
    requires
        bytes@.len() == 1,
    ensures
        r == bytes@[0] as i8,
{
    #[verifier::truncate] (bytes[0] as i8)
}

/// The 16-bit value of two bytes, least significant first.
pub fn convert_u8vec_to_i16(bytes: &[u8]) -> (r: i16)
    requires
        bytes@.len() == 2,
    ensures
        r == le_u16(bytes@) as i16,
{
    let x: u16 = (bytes[0] as u16) | ((bytes[1] as u16) << 8u16);
    #[verifier::truncate] (x as i16)
}

/// The 32-bit value of four bytes, least significant first.
pub fn convert_u8vec_to_i32(bytes: &[u8]) -> (r: i32)
    requires
        bytes@.len() == 4,
    ensures
        r == le_u32(bytes@) as i32,
{
    let x: u32 = (bytes[0] as u32) | ((bytes[1] as u32) << 8u32) | ((bytes[2] as u32) << 16u32) | ((
    bytes[3] as u32) << 24u32);
    #[verifier::truncate] (x as i32)
}

/// The 64-bit value of eight bytes, least significant first.
pub fn convert_u8vec_to_i64(bytes: &[u8]) -> (r: i64)
    requires
        bytes@.len() == 8,
    ensures
        r == le_u64(bytes@) as i64,
{
    let x: u64 = (bytes[0] as u64) | ((bytes[1] as u64) << 8u64) | ((bytes[2] as u64) << 16u64) | ((
    bytes[3] as u64) << 24u64) | ((bytes[4] as u64) << 32u64) | ((bytes[5] as u64) << 40u64) | ((
    bytes[6] as u64) << 48u64) | ((bytes[7] as u64) << 56u64);
    #[verifier::truncate] (x as i64)
}

/// Reading back the byte of an 8-bit value gives the value.
pub proof fn lemma_i8_round_trip(v: i8)
    ensures
        le_bytes(v as u8 as u64, 1)[0] as i8 == v,
{
    let x = v as u8 as u64;
    assert(((x >> 0u64) as u8) as i8 == v) by (bit_vector)
        requires
            x == v as u8 as u64,
    ;
}

/// Reading back the bytes of a 16-bit value gives the value.
pub proof fn lemma_i16_round_trip(v: i16)
    ensures
        le_u16(le_bytes(v as u16 as u64, 2)) as i16 == v,
{
    let x = v as u16 as u64;
    let b = le_bytes(x, 2);
    assert(b[0] == (x >> 0u64) as u8 && b[1] == (x >> 8u64) as u8);
    assert((((((x >> 0u64) as u8) as u16) | ((((x >> 8u64) as u8) as u16) << 8u16)) as u16) as i16
        == v) by (bit_vector)
        requires
            x == v as u16 as u64,
    ;
}

/// Reading back the bytes of a 32-bit value gives the value.
pub proof fn lemma_i32_round_trip(v: i32)
    ensures
        le_u32(le_bytes(v as u32 as u64, 4)) as i32 == v,
{
    let x = v as u32 as u64;
    let b = le_bytes(x, 4);
    assert(b[0] == (x >> 0u64) as u8 && b[1] == (x >> 8u64) as u8 && b[2] == (x >> 16u64) as u8
        && b[3] == (x >> 24u64) as u8);
    assert((((((x >> 0u64) as u8) as u32) | ((((x >> 8u64) as u8) as u32) << 8u32) | ((((x
        >> 16u64) as u8) as u32) << 16u32) | ((((x >> 24u64) as u8) as u32) << 24u32)) as u32) as i32
        == v) by (bit_vector)
        requires
            x == v as u32 as u64,
    ;
}

/// Reading back the bytes of a 64-bit value gives the value.
pub proof fn lemma_i64_round_trip(v: i64)
    ensures
        le_u64(le_bytes(v as u64, 8)) as i64 == v,
{
    let x = v as u64;
    let b = le_bytes(x, 8);
    assert(b[0] == (x >> 0u64) as u8 && b[1] == (x >> 8u64) as u8 && b[2] == (x >> 16u64) as u8
        && b[3] == (x >> 24u64) as u8 && b[4] == (x >> 32u64) as u8 && b[5] == (x >> 40u64) as u8
        && b[6] == (x >> 48u64) as u8 && b[7] == (x >> 56u64) as u8);
    assert((((((x >> 0u64) as u8) as u64) | ((((x >> 8u64) as u8) as u64) << 8u64) | ((((x
        >> 16u64) as u8) as u64) << 16u64) | ((((x >> 24u64) as u8) as u64) << 24u64) | ((((x
        >> 32u64) as u8) as u64) << 32u64) | ((((x >> 40u64) as u8) as u64) << 40u64) | ((((x
        >> 48u64) as u8) as u64) << 48u64) | ((((x >> 56u64) as u8) as u64) << 56u64)) as u64) as i64
        == v) by (bit_vector)
        requires
            x == v as u64,
    ;
}

/// Byte `i` of the encoding of a 64-bit value is the value shifted right by
/// `8 * i` bits and masked to its low eight bits.
pub proof fn lemma_i64_bytes_are_shifts(v: i64, i: u64)
    requires
        i < 8,
    ensures
        le_bytes(v as u64, 8)[i as int] == ((v >> (8 * i)) & 0xFF) as u8,
{
    let x = v as u64;
    assert(((x >> (8 * i)) as u8) == ((v >> (8 * i)) & 0xFF) as u8) by (bit_vector)
        requires
            x == v as u64,
            i < 8,
    ;
}


/// Byte `i` of the encoding of a 32-bit value is the value shifted right by
/// `8 * i` bits and masked to its low eight bits.
pub proof fn lemma_i32_bytes_are_shifts(v: i32, i: u32)
    requires
        i < 4,
    ensures
        le_bytes(v as u32 as u64, 4)[i as int] == ((v >> (8 * i)) & 0xFF) as u8,
{
    let x = v as u32 as u64;
    let k = i as u64;
    assert(((x >> (8 * k)) as u8) == ((v >> (8 * i)) & 0xFF) as u8) by (bit_vector)
        requires
            x == v as u32 as u64,
            k == i as u64,
            i < 4,
    ;
}

/// Byte `i` of the encoding of a 16-bit value is the value shifted right by
/// `8 * i` bits and masked to its low eight bits.
pub proof fn lemma_i16_bytes_are_shifts(v: i16, i: u16)
    requires
        i < 2,
    ensures
        le_bytes(v as u16 as u64, 2)[i as int] == ((v >> (8 * i)) & 0xFF) as u8,
{
    let x = v as u16 as u64;
    let k = i as u64;
    assert(((x >> (8 * k)) as u8) == ((v >> (8 * i)) & 0xFF) as u8) by (bit_vector)
        requires
            x == v as u16 as u64,
            k == i as u64,
            i < 2,
    ;
}

/// Reading the 32-bit alias of a general 64-bit register gives the register's
/// value cut to its low 32 bits.
pub proof fn lemma_alias_read(s: MachineState, r: Register)
    requires
        is_gpr64(r),
    ensures
        is_alias32(alias32_of(r)),
        first_value_i64(s, InstructionArgument::Register { register: r }) == Ok::<i64, OperandError>(
            slot_value(s, r),
        ),
        first_value_i32(s, InstructionArgument::Register { register: alias32_of(r) }) == Ok::<
            i32,
            OperandError,
        >(slot_value(s, r) as i32),
{
}

/// Operand sizes: a bare register gives its width wherever it stands, the
/// direction bit swaps which register of a pair is first and which second, and
/// an immediate has the width it was encoded with.
pub proof fn lemma_operand_size_rules(
    r: Register,
    other: InstructionArgument,
    register1: Register,
    register2: Register,
    immediate: i64,
    size: ArgumentSize,
)
    ensures
        first_operand_size(InstructionArgument::Register { register: r }) == width_of(r),
        inferred_size(InstructionArgument::Register { register: r }, Some(other), None) == width_of(
            r,
        ),
        inferred_size(InstructionArgument::Register { register: r }, None, None) == width_of(r),
        !(other is Register) ==> inferred_size(
            other,
            Some(InstructionArgument::Register { register: r }),
            None,
        ) == width_of(r),
        first_operand_size(
            InstructionArgument::TwoRegister { register1, register2, reverse_direction: false },
        ) == width_of(register1),
        second_operand_size(
            InstructionArgument::TwoRegister { register1, register2, reverse_direction: false },
        ) == Some(width_of(register2)),
        first_operand_size(
            InstructionArgument::TwoRegister { register1, register2, reverse_direction: true },
        ) == width_of(register2),
        second_operand_size(
            InstructionArgument::TwoRegister { register1, register2, reverse_direction: true },
        ) == Some(width_of(register1)),
        first_operand_size(InstructionArgument::Immediate { immediate, size }) == size,
{
}

} // verus!
