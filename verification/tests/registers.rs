use micro16::fault::Fault;
use micro16::registers::{
    RegisterKind, RegisterSet, CONSTANT_COUNT, MAR_REGISTER_IDX, MBR_REGISTER_IDX, REGISTER_COUNT,
};

#[test]
fn new_register_file_holds_constants_and_zeros() {
    let regs = RegisterSet::new();
    assert_eq!(regs.get(0), 0);
    assert_eq!(regs.get(1), 1);
    assert_eq!(regs.get(2), -1);
    for i in 3..16u8 {
        assert_eq!(regs.get(i), 0, "register {}", i);
    }
}

#[test]
fn set_then_get_reads_the_value_back() {
    for i in 3..16u8 {
        let mut regs = RegisterSet::new();
        let value = 100 + i as i16;
        regs.set(i, value);
        assert_eq!(regs.get(i), value, "register {}", i);
    }
}

#[test]
fn set_reads_back_extreme_values() {
    let mut regs = RegisterSet::new();
    regs.set(7, i16::MIN);
    assert_eq!(regs.get(7), i16::MIN);
    regs.set(7, i16::MAX);
    assert_eq!(regs.get(7), i16::MAX);
    regs.set(7, -1);
    assert_eq!(regs.get(7), -1);
}

#[test]
fn set_leaves_the_other_registers_alone() {
    let mut regs = RegisterSet::new();
    for i in 3..16u8 {
        regs.set(i, i as i16 * 11);
    }
    regs.set(9, -42);
    for i in 3..16u8 {
        let expected = if i == 9 { -42 } else { i as i16 * 11 };
        assert_eq!(regs.get(i), expected, "register {}", i);
    }
    assert_eq!(regs.get(0), 0);
    assert_eq!(regs.get(1), 1);
    assert_eq!(regs.get(2), -1);
}

#[test]
fn constants_survive_every_write() {
    let mut regs = RegisterSet::new();
    for round in 0..5i16 {
        for i in 3..16u8 {
            regs.set(i, round * 1000 - i as i16);
            assert_eq!(regs.get(0), 0);
            assert_eq!(regs.get(1), 1);
            assert_eq!(regs.get(2), -1);
        }
    }
}

#[test]
fn try_set_refuses_the_constants() {
    for i in 0..3u8 {
        let mut regs = RegisterSet::new();
        regs.set(5, 55);
        assert_eq!(regs.try_set(i, 77), Err(Fault::ReadOnlyRegisterWrite));
        assert_eq!(regs.get(0), 0);
        assert_eq!(regs.get(1), 1);
        assert_eq!(regs.get(2), -1);
        assert_eq!(regs.get(5), 55);
    }
}

#[test]
fn try_set_refuses_the_constants_whatever_the_state() {
    let mut regs = RegisterSet::new();
    for i in 3..16u8 {
        regs.set(i, -(i as i16));
    }
    assert_eq!(regs.try_set(0, 0), Err(Fault::ReadOnlyRegisterWrite));
    assert_eq!(regs.try_set(1, 1), Err(Fault::ReadOnlyRegisterWrite));
    assert_eq!(regs.try_set(2, -1), Err(Fault::ReadOnlyRegisterWrite));
}

#[test]
fn try_set_refuses_indices_past_the_end() {
    let mut regs = RegisterSet::new();
    assert_eq!(regs.try_set(16, 1), Err(Fault::InvalidRegisterIndex));
    assert_eq!(regs.try_set(17, 1), Err(Fault::InvalidRegisterIndex));
    assert_eq!(regs.try_set(255, 1), Err(Fault::InvalidRegisterIndex));
    for i in 3..16u8 {
        assert_eq!(regs.get(i), 0);
    }
}

#[test]
fn try_set_writes_the_writable_registers() {
    let mut regs = RegisterSet::new();
    for i in 3..16u8 {
        assert_eq!(regs.try_set(i, i as i16 + 1), Ok(()));
    }
    for i in 3..16u8 {
        assert_eq!(regs.get(i), i as i16 + 1);
    }
}

#[test]
fn try_get_reads_every_register() {
    let mut regs = RegisterSet::new();
    regs.set(MAR_REGISTER_IDX, 300);
    regs.set(MBR_REGISTER_IDX, -300);
    assert_eq!(regs.try_get(0), Ok(0));
    assert_eq!(regs.try_get(1), Ok(1));
    assert_eq!(regs.try_get(2), Ok(-1));
    assert_eq!(regs.try_get(3), Ok(300));
    assert_eq!(regs.try_get(4), Ok(0));
    assert_eq!(regs.try_get(15), Ok(-300));
}

#[test]
fn try_get_refuses_indices_past_the_end() {
    let regs = RegisterSet::new();
    assert_eq!(regs.try_get(16), Err(Fault::InvalidRegisterIndex));
    assert_eq!(regs.try_get(200), Err(Fault::InvalidRegisterIndex));
    assert_eq!(regs.try_get(255), Err(Fault::InvalidRegisterIndex));
}

#[test]
fn register_kinds_follow_the_index() {
    assert_eq!(RegisterKind::of(0), Some(RegisterKind::Constant));
    assert_eq!(RegisterKind::of(1), Some(RegisterKind::Constant));
    assert_eq!(RegisterKind::of(2), Some(RegisterKind::Constant));
    assert_eq!(RegisterKind::of(3), Some(RegisterKind::Address));
    for i in 4..15u8 {
        assert_eq!(RegisterKind::of(i), Some(RegisterKind::General), "register {}", i);
    }
    assert_eq!(RegisterKind::of(15), Some(RegisterKind::Buffer));
    assert_eq!(RegisterKind::of(16), None);
    assert_eq!(RegisterKind::of(255), None);
}

#[test]
fn only_constants_are_read_only() {
    assert!(!RegisterKind::Constant.writable());
    assert!(RegisterKind::Address.writable());
    assert!(RegisterKind::General.writable());
    assert!(RegisterKind::Buffer.writable());
}

#[test]
fn register_file_constants_have_their_values() {
    assert_eq!(REGISTER_COUNT, 16);
    assert_eq!(CONSTANT_COUNT, 3);
    assert_eq!(MAR_REGISTER_IDX, 3);
    assert_eq!(MBR_REGISTER_IDX, 15);
}
