use x86emu::instruction_set::{
    get_register_size, ArgumentCountError, ArgumentSize, InstructionArgument,
    InstructionArgumentsBuilder, Register,
};

#[test]
fn register_widths_follow_the_table() {
    let cases = [
        (Register::RAX, ArgumentSize::Bit64),
        (Register::R15, ArgumentSize::Bit64),
        (Register::RIP, ArgumentSize::Bit64),
        (Register::EAX, ArgumentSize::Bit32),
        (Register::R8D, ArgumentSize::Bit32),
        (Register::ES, ArgumentSize::Bit16),
        (Register::GS, ArgumentSize::Bit16),
        (Register::AL, ArgumentSize::Bit8),
        (Register::BH, ArgumentSize::Bit8),
        (Register::SPL, ArgumentSize::Bit8),
        (Register::R15B, ArgumentSize::Bit8),
    ];
    for (r, w) in cases.iter() {
        assert_eq!(get_register_size(r), *w);
        assert_eq!(get_register_size(r), get_register_size(r));
    }
}

#[test]
fn register_renders_with_percent_and_lowercase_name() {
    assert_eq!(Register::RAX.to_string(), "%rax");
    assert_eq!(Register::R15D.to_string(), "%r15d");
    assert_eq!(Register::SIL.to_string(), "%sil");
    let arg = InstructionArgument::Register { register: Register::R9B };
    assert_eq!(arg.to_string(), "%r9b");
}

#[test]
fn immediate_renders_in_hex() {
    let arg = InstructionArgument::Immediate { immediate: 0x2A, size: ArgumentSize::Bit32 };
    assert_eq!(arg.to_string(), "$0x2a");
    let zero = InstructionArgument::Immediate { immediate: 0, size: ArgumentSize::Bit8 };
    assert_eq!(zero.to_string(), "$0x0");
    let minus_one = InstructionArgument::Immediate { immediate: -1, size: ArgumentSize::Bit8 };
    assert_eq!(minus_one.to_string(), "$0xffffffffffffffff");
}

#[test]
fn effective_address_renders_displacement_and_registers() {
    let base_only = |d: i32| InstructionArgument::EffectiveAddress {
        base: Register::RBP,
        index: None,
        scale: None,
        displacement: d,
    };
    assert_eq!(base_only(0).to_string(), "0x0(%rbp)");
    assert_eq!(base_only(-8).to_string(), "-0x8(%rbp)");
    assert_eq!(base_only(0x10).to_string(), "0x10(%rbp)");
    assert_eq!(base_only(i32::MIN).to_string(), "-0x80000000(%rbp)");
    let indexed = InstructionArgument::EffectiveAddress {
        base: Register::RAX,
        index: Some(Register::RBX),
        scale: Some(4),
        displacement: 0x1c,
    };
    assert_eq!(indexed.to_string(), "0x1c(%rax,%rbx,4)");
    let no_scale = InstructionArgument::EffectiveAddress {
        base: Register::RAX,
        index: Some(Register::RCX),
        scale: None,
        displacement: 0,
    };
    assert_eq!(no_scale.to_string(), "0x0(%rax,%rcx)");
}

#[test]
fn operand_list_renders_comma_separated() {
    let args = InstructionArgumentsBuilder::new(InstructionArgument::Immediate {
        immediate: 1,
        size: ArgumentSize::Bit8,
    })
    .second_argument(InstructionArgument::Register { register: Register::RAX })
    .finalize();
    assert_eq!(args.to_string(), "$0x1,%rax");
    let single = InstructionArgumentsBuilder::new(InstructionArgument::Register {
        register: Register::RSP,
    })
    .finalize();
    assert_eq!(single.to_string(), "%rsp");
}

#[test]
fn size_prefers_explicit_override() {
    let args = InstructionArgumentsBuilder::new(InstructionArgument::Register {
        register: Register::RAX,
    })
    .explicit_size(ArgumentSize::Bit16)
    .finalize();
    assert_eq!(args.size(), ArgumentSize::Bit16);
}

#[test]
fn size_takes_register_width_in_either_position() {
    let first = InstructionArgumentsBuilder::new(InstructionArgument::Register {
        register: Register::EAX,
    })
    .second_argument(InstructionArgument::Immediate { immediate: 5, size: ArgumentSize::Bit8 })
    .finalize();
    assert_eq!(first.size(), ArgumentSize::Bit32);
    let second = InstructionArgumentsBuilder::new(InstructionArgument::EffectiveAddress {
        base: Register::RBP,
        index: None,
        scale: None,
        displacement: -4,
    })
    .second_argument(InstructionArgument::Register { register: Register::AL })
    .finalize();
    assert_eq!(second.size(), ArgumentSize::Bit8);
}

#[test]
fn size_defaults_to_64_bits() {
    let imm = InstructionArgumentsBuilder::new(InstructionArgument::Immediate {
        immediate: 5,
        size: ArgumentSize::Bit8,
    })
    .finalize();
    assert_eq!(imm.size(), ArgumentSize::Bit64);
    let pair = InstructionArgumentsBuilder::new(InstructionArgument::Immediate {
        immediate: 5,
        size: ArgumentSize::Bit32,
    })
    .second_argument(InstructionArgument::EffectiveAddress {
        base: Register::RAX,
        index: None,
        scale: None,
        displacement: 0,
    })
    .finalize();
    assert_eq!(pair.size(), ArgumentSize::Bit64);
}

#[test]
fn argument_count_checks() {
    let one = InstructionArgumentsBuilder::new(InstructionArgument::Register {
        register: Register::RAX,
    })
    .opcode(0x50)
    .finalize();
    assert_eq!(one.opcode, Some(0x50));
    assert_eq!(one.assert_one_argument(), Ok(()));
    assert_eq!(one.assert_two_arguments(), Err(ArgumentCountError::MissingSecondArgument));
    let two = InstructionArgumentsBuilder::new(InstructionArgument::Register {
        register: Register::RAX,
    })
    .second_argument(InstructionArgument::Register { register: Register::RBX })
    .finalize();
    assert_eq!(two.opcode, None);
    assert_eq!(two.assert_two_arguments(), Ok(()));
    assert_eq!(two.assert_one_argument(), Err(ArgumentCountError::UnexpectedSecondArgument));
}
