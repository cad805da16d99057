use x86emu::execution::{
    convert_i16_to_u8vec, convert_i32_to_u8vec, convert_i64_to_u8vec, convert_i8_to_u8vec,
    convert_u8vec_to_i16, convert_u8vec_to_i32, convert_u8vec_to_i64, convert_u8vec_to_i8,
    OperandError, CPU,
};
use x86emu::instruction_set::{ArgumentSize, InstructionArgument, Register};

fn reg(register: Register) -> InstructionArgument {
    InstructionArgument::Register { register }
}

#[test]
fn register_operand_size_is_its_width() {
    let cpu = CPU::new();
    assert_eq!(cpu.first_argument_size(&reg(Register::RAX)), ArgumentSize::Bit64);
    assert_eq!(cpu.first_argument_size(&reg(Register::ECX)), ArgumentSize::Bit32);
    assert_eq!(cpu.first_argument_size(&reg(Register::DS)), ArgumentSize::Bit16);
    assert_eq!(cpu.first_argument_size(&reg(Register::DL)), ArgumentSize::Bit8);
    assert_eq!(cpu.second_argument_size(&reg(Register::RAX)), Err(OperandError::SingleOperand));
}

#[test]
fn direction_bit_swaps_pair_sizes() {
    let cpu = CPU::new();
    let plain = InstructionArgument::TwoRegister {
        register1: Register::RAX,
        register2: Register::EBX,
        reverse_direction: false,
    };
    assert_eq!(cpu.first_argument_size(&plain), ArgumentSize::Bit64);
    assert_eq!(cpu.second_argument_size(&plain), Ok(ArgumentSize::Bit32));
    let reversed = InstructionArgument::TwoRegister {
        register1: Register::RAX,
        register2: Register::EBX,
        reverse_direction: true,
    };
    assert_eq!(cpu.first_argument_size(&reversed), ArgumentSize::Bit32);
    assert_eq!(cpu.second_argument_size(&reversed), Ok(ArgumentSize::Bit64));
}

#[test]
fn immediate_size_is_encoded_width() {
    let cpu = CPU::new();
    let imm8 = InstructionArgument::Immediate { immediate: -3, size: ArgumentSize::Bit8 };
    let imm32 = InstructionArgument::Immediate { immediate: 70000, size: ArgumentSize::Bit32 };
    assert_eq!(cpu.first_argument_size(&imm8), ArgumentSize::Bit8);
    assert_eq!(cpu.first_argument_size(&imm32), ArgumentSize::Bit32);
    assert_eq!(cpu.second_argument_size(&imm8), Err(OperandError::SingleOperand));
    let with_reg = InstructionArgument::ImmediateRegister {
        immediate: 4,
        size: ArgumentSize::Bit8,
        register: Register::R10D,
    };
    assert_eq!(cpu.first_argument_size(&with_reg), ArgumentSize::Bit8);
    assert_eq!(cpu.second_argument_size(&with_reg), Ok(ArgumentSize::Bit32));
    let mem = InstructionArgument::EffectiveAddress {
        base: Register::RAX,
        index: None,
        scale: None,
        displacement: 0,
    };
    assert_eq!(cpu.first_argument_size(&mem), ArgumentSize::Bit64);
    assert_eq!(cpu.second_argument_size(&mem), Err(OperandError::SingleOperand));
}

#[test]
fn alias_read_truncates_to_low_32_bits() {
    let mut cpu = CPU::new();
    for v in [0i64, 1, -1, 0x1_2345_6789, i64::MIN, i64::MAX, 0x0000_0000_8000_0000] {
        cpu.machine_state.rax = v;
        cpu.machine_state.r12 = v;
        assert_eq!(cpu.first_argument_i64(reg(Register::RAX)), Ok(v));
        assert_eq!(cpu.first_argument_i32(reg(Register::EAX)), Ok(v as i32));
        assert_eq!(cpu.first_argument_i32(reg(Register::R12D)), Ok(v as i32));
    }
    cpu.machine_state.rbx = 0x1_2345_6789;
    assert_eq!(cpu.first_argument_i32(reg(Register::EBX)), Ok(0x2345_6789));
}

#[test]
fn alias_read_as_64_bits_sign_extends() {
    let mut cpu = CPU::new();
    cpu.machine_state.rcx = 0x1_FFFF_FFFE;
    assert_eq!(cpu.first_argument_i64(reg(Register::ECX)), Ok(-2));
    cpu.machine_state.rcx = 0x7FFF_0000_0000_0005;
    assert_eq!(cpu.first_argument_i64(reg(Register::ECX)), Ok(5));
}

#[test]
fn register_width_mismatch_is_reported() {
    let cpu = CPU::new();
    assert_eq!(cpu.first_argument_i32(reg(Register::RAX)), Err(OperandError::WidthMismatch));
    assert_eq!(cpu.first_argument_i32(reg(Register::R9)), Err(OperandError::WidthMismatch));
    assert_eq!(cpu.first_argument_i32(reg(Register::AL)), Err(OperandError::WidthMismatch));
    assert_eq!(cpu.first_argument_i64(reg(Register::AH)), Err(OperandError::WidthMismatch));
}

#[test]
fn segments_read_zero_and_rip_is_cast() {
    let mut cpu = CPU::new();
    cpu.machine_state.rip = 0x1_0000_0010;
    assert_eq!(cpu.first_argument_i32(reg(Register::FS)), Ok(0));
    assert_eq!(cpu.first_argument_i64(reg(Register::CS)), Ok(0));
    assert_eq!(cpu.first_argument_i64(reg(Register::RIP)), Ok(0x1_0000_0010));
    assert_eq!(cpu.first_argument_i32(reg(Register::RIP)), Ok(0x10));
}

#[test]
fn pair_reads_first_logical_register() {
    let mut cpu = CPU::new();
    cpu.machine_state.rax = 7;
    cpu.machine_state.rbx = 9;
    let plain = InstructionArgument::TwoRegister {
        register1: Register::RAX,
        register2: Register::RBX,
        reverse_direction: false,
    };
    let reversed = InstructionArgument::TwoRegister {
        register1: Register::RAX,
        register2: Register::RBX,
        reverse_direction: true,
    };
    assert_eq!(cpu.first_argument_i64(plain), Ok(7));
    assert_eq!(cpu.first_argument_i64(reversed), Ok(9));
    assert_eq!(cpu.first_argument_i32(plain), Err(OperandError::WidthMismatch));
}

#[test]
fn immediates_are_sign_extended() {
    let cpu = CPU::new();
    let imm = InstructionArgument::Immediate { immediate: -5, size: ArgumentSize::Bit8 };
    assert_eq!(cpu.first_argument_i32(imm), Ok(-5));
    assert_eq!(cpu.first_argument_i64(imm), Ok(-5));
    let with_reg = InstructionArgument::ImmediateRegister {
        immediate: 0x7FFF_FFFF,
        size: ArgumentSize::Bit32,
        register: Register::EAX,
    };
    assert_eq!(cpu.first_argument_i32(with_reg), Ok(0x7FFF_FFFF));
    assert_eq!(cpu.first_argument_i64(with_reg), Ok(0x7FFF_FFFF));
}

#[test]
fn unsupported_extractions_fail() {
    let cpu = CPU::new();
    let r = reg(Register::EAX);
    let mem = InstructionArgument::EffectiveAddress {
        base: Register::RAX,
        index: None,
        scale: None,
        displacement: 8,
    };
    assert_eq!(cpu.first_argument_i32(mem), Err(OperandError::NotSupported));
    assert_eq!(cpu.first_argument_i64(mem), Err(OperandError::NotSupported));
    assert_eq!(cpu.first_argument_i8(r), Err(OperandError::NotSupported));
    assert_eq!(cpu.first_argument_i16(r), Err(OperandError::NotSupported));
    assert_eq!(cpu.second_argument_i8(r), Err(OperandError::NotSupported));
    assert_eq!(cpu.second_argument_i16(r), Err(OperandError::NotSupported));
    assert_eq!(cpu.second_argument_i32(r), Err(OperandError::NotSupported));
    assert_eq!(cpu.second_argument_i64(r), Err(OperandError::NotSupported));
}

#[test]
fn push_two_bytes() {
    let mut cpu = CPU::new();
    cpu.machine_state.rsp = 100;
    cpu.machine_state.rax = 3;
    cpu.stack_push(vec![0xAA, 0xBB]);
    assert_eq!(cpu.machine_state.rsp, 98);
    assert_eq!(cpu.machine_state.mem_read_byte(98), 0xAA);
    assert_eq!(cpu.machine_state.mem_read_byte(99), 0xBB);
    assert_eq!(cpu.machine_state.mem_read_byte(97), 0);
    assert_eq!(cpu.machine_state.mem_read_byte(100), 0);
    assert_eq!(cpu.machine_state.rax, 3);
}

#[test]
fn push_serialized_value_reads_back() {
    let mut cpu = CPU::new();
    cpu.machine_state.rsp = 0x2000;
    cpu.stack_push(convert_i64_to_u8vec(0x0102030405060708));
    assert_eq!(cpu.machine_state.rsp, 0x1FF8);
    let bytes = cpu.machine_state.mem_read(0x1FF8, 8);
    assert_eq!(bytes, vec![8, 7, 6, 5, 4, 3, 2, 1]);
    assert_eq!(convert_u8vec_to_i64(&bytes), 0x0102030405060708);
    cpu.stack_push(Vec::new());
    assert_eq!(cpu.machine_state.rsp, 0x1FF8);
}

#[test]
fn serialize_i8_round_trip() {
    for v in [0i8, 1, -1, i8::MIN, i8::MAX, 0x08] {
        let b = convert_i8_to_u8vec(v);
        assert_eq!(b, vec![v as u8]);
        assert_eq!(convert_u8vec_to_i8(&b), v);
    }
}

#[test]
fn serialize_i16_round_trip() {
    for v in [0i16, 1, -1, i16::MIN, i16::MAX, 0x0708] {
        let b = convert_i16_to_u8vec(v);
        assert_eq!(b.len(), 2);
        for i in 0..2 {
            assert_eq!(b[i], ((v >> (8 * i)) & 0xFF) as u8);
        }
        assert_eq!(convert_u8vec_to_i16(&b), v);
    }
    assert_eq!(convert_i16_to_u8vec(0x0708), vec![0x08, 0x07]);
}

#[test]
fn serialize_i32_round_trip() {
    for v in [0i32, 1, -1, i32::MIN, i32::MAX, 0x05060708] {
        let b = convert_i32_to_u8vec(v);
        assert_eq!(b.len(), 4);
        for i in 0..4 {
            assert_eq!(b[i], ((v >> (8 * i)) & 0xFF) as u8);
        }
        assert_eq!(convert_u8vec_to_i32(&b), v);
    }
    assert_eq!(convert_i32_to_u8vec(0x05060708), vec![0x08, 0x07, 0x06, 0x05]);
    assert_eq!(convert_i32_to_u8vec(-1), vec![0xFF, 0xFF, 0xFF, 0xFF]);
}

#[test]
fn serialize_i64_round_trip() {
    for v in [0i64, 1, -1, i64::MIN, i64::MAX, 0x0102030405060708] {
        let b = convert_i64_to_u8vec(v);
        assert_eq!(b.len(), 8);
        for i in 0..8 {
            assert_eq!(b[i], ((v >> (8 * i)) & 0xFF) as u8);
        }
        assert_eq!(convert_u8vec_to_i64(&b), v);
    }
    assert_eq!(convert_i64_to_u8vec(i64::MIN), vec![0, 0, 0, 0, 0, 0, 0, 0x80]);
}
