use ruspiro_uart::register::{Access, FieldValue, RegisterField, RegisterOp};

#[test]
fn field_is_made_only_inside_the_register() {
    assert_eq!(
        RegisterField::new(0x10, 3, 3, Access::ReadWrite),
        Some(RegisterField { register: 0x10, shift: 3, width: 3, access: Access::ReadWrite })
    );
    assert_eq!(
        RegisterField::new(0x10, 0, 32, Access::ReadOnly),
        Some(RegisterField { register: 0x10, shift: 0, width: 32, access: Access::ReadOnly })
    );
    assert_eq!(RegisterField::new(0x10, 31, 1, Access::ReadWrite).map(|f| f.shift), Some(31));
    assert_eq!(RegisterField::new(0x10, 0, 0, Access::ReadWrite), None);
    assert_eq!(RegisterField::new(0x10, 31, 2, Access::ReadWrite), None);
    assert_eq!(RegisterField::new(0x10, 32, 1, Access::ReadWrite), None);
    assert_eq!(RegisterField::new(0x10, 0, 33, Access::ReadWrite), None);
    assert_eq!(RegisterField::new(0x10, u32::MAX, 1, Access::ReadWrite), None);
    assert_eq!(RegisterField::new(0x10, 1, u32::MAX, Access::ReadWrite), None);
}

#[test]
fn field_validity_is_told() {
    assert!(RegisterField::bits(0, 30, 2).is_valid());
    assert!(!RegisterField::bits(0, 31, 2).is_valid());
    assert!(!RegisterField::bits(0, 4, 0).is_valid());
    assert!(RegisterField::bit(0, 31).is_valid());
    assert!(!RegisterField::bit(0, 32).is_valid());
}

#[test]
fn mask_stands_at_the_field() {
    assert_eq!(RegisterField::bit(0, 0).mask(), 0x0000_0001);
    assert_eq!(RegisterField::bit(0, 5).mask(), 0x0000_0020);
    assert_eq!(RegisterField::bit(0, 31).mask(), 0x8000_0000);
    assert_eq!(RegisterField::bits(0, 5, 2).mask(), 0x0000_0060);
    assert_eq!(RegisterField::bits(0, 3, 3).mask(), 0x0000_0038);
    assert_eq!(RegisterField::bits(0, 0, 32).mask(), 0xFFFF_FFFF);
    assert_eq!(RegisterField::bits(0, 16, 16).mask(), 0xFFFF_0000);
}

#[test]
fn value_is_placed_at_the_field() {
    assert_eq!(
        RegisterField::bits(0, 5, 2).with_value(3),
        FieldValue { mask: 0x60, bits: 0x60 }
    );
    assert_eq!(
        RegisterField::bits(0, 5, 2).with_value(2),
        FieldValue { mask: 0x60, bits: 0x40 }
    );
    assert_eq!(RegisterField::bit(0, 9).with_value(1), FieldValue { mask: 0x200, bits: 0x200 });
    assert_eq!(RegisterField::bit(0, 9).with_value(0), FieldValue { mask: 0x200, bits: 0 });
    assert_eq!(
        RegisterField::bits(0, 0, 32).with_value(0xDEAD_BEEF),
        FieldValue { mask: 0xFFFF_FFFF, bits: 0xDEAD_BEEF }
    );
}

#[test]
fn value_too_wide_is_cut() {
    assert_eq!(
        RegisterField::bits(0, 5, 2).with_value(0xFF),
        FieldValue { mask: 0x60, bits: 0x60 }
    );
    assert_eq!(RegisterField::bits(0, 5, 2).with_value(4), FieldValue { mask: 0x60, bits: 0 });
    assert_eq!(RegisterField::bit(0, 0).with_value(2), FieldValue { mask: 1, bits: 0 });
    assert_eq!(RegisterField::bits(4, 8, 4).write(0, 0x1F), 0x0000_0F00);
}

#[test]
fn read_takes_the_field_out() {
    assert_eq!(RegisterField::bit(0, 5).read(0x0000_0020), 1);
    assert_eq!(RegisterField::bit(0, 5).read(0xFFFF_FFDF), 0);
    assert_eq!(RegisterField::bits(0, 1, 2).read(0b0000_0100), 0b10);
    assert_eq!(RegisterField::bits(0, 6, 2).read(0xC6), 0b11);
    assert_eq!(RegisterField::bits(0, 0, 32).read(0x1234_5678), 0x1234_5678);
    assert_eq!(RegisterField::bits(0, 28, 4).read(0xA000_0001), 0xA);
}

#[test]
fn write_keeps_the_other_bits() {
    let field = RegisterField::bits(0x44, 4, 4);
    assert_eq!(field.write(0xFFFF_FFFF, 0), 0xFFFF_FF0F);
    assert_eq!(field.write(0x0000_0000, 0xF), 0x0000_00F0);
    assert_eq!(field.write(0x1234_5678, 0xA), 0x1234_56A8);
    assert_eq!(field.write(0x1234_5678, 0x7), 0x1234_5678);
}

#[test]
fn read_after_write_gives_the_value_cut_to_the_width() {
    let field = RegisterField::bits(0x44, 7, 3);
    for raw in [0u32, 0xFFFF_FFFF, 0x1234_5678, 0x8000_0001] {
        for value in [0u32, 1, 5, 7, 8, 0xFF, 0xFFFF_FFFF] {
            let written = field.write(raw, value);
            assert_eq!(field.read(written), value & 0b111);
            assert_eq!(written & !field.mask(), raw & !field.mask());
            assert_eq!(field.write(written, value), written);
        }
    }
}

#[test]
fn write_to_a_read_only_field_changes_nothing() {
    let field = RegisterField::bit(0x54, 0).read_only();
    assert_eq!(field.access, Access::ReadOnly);
    assert_eq!(field.write(0, 1), 0);
    assert_eq!(field.write(0xFFFF_FFFF, 0), 0xFFFF_FFFF);
    assert_eq!(field.read(0xFFFF_FFFF), 1);
    let op = RegisterOp::field(field, 1);
    assert_eq!(op.address(), 0x54);
    assert_eq!(op.result(0x1234), 0x1234);
}

#[test]
fn field_values_are_combined() {
    let word_length = RegisterField::bits(0, 5, 2).with_value(3);
    let fifo = RegisterField::bit(0, 4).with_value(1);
    assert_eq!(word_length.or(fifo), FieldValue { mask: 0x70, bits: 0x70 });
    let off = RegisterField::bit(0, 0).with_value(0);
    assert_eq!(off.or(fifo), FieldValue { mask: 0x11, bits: 0x10 });
    assert_eq!(fifo.or(off), FieldValue { mask: 0x11, bits: 0x10 });
}

#[test]
fn combining_drops_bits_outside_the_masks() {
    let a = FieldValue { mask: 0x0F, bits: 0xFF };
    let b = FieldValue { mask: 0xF00, bits: 0xABC };
    assert_eq!(a.or(b), FieldValue { mask: 0xF0F, bits: 0xA0F });
}

#[test]
fn field_value_is_merged_into_a_register() {
    let value = FieldValue { mask: 0x0F0, bits: 0x0A0 };
    assert_eq!(value.apply(0xFFFF_FFFF), 0xFFFF_FFAF);
    assert_eq!(value.apply(0), 0x0A0);
    let none = FieldValue { mask: 0, bits: 0 };
    assert_eq!(none.apply(0x1234), 0x1234);
}

#[test]
fn register_op_tells_address_and_result() {
    let store = RegisterOp::Store { address: 0x3F20_1030, value: 0x301 };
    assert_eq!(store.address(), 0x3F20_1030);
    assert_eq!(store.result(0xFFFF_FFFF), 0x301);
    let merge = RegisterOp::field(RegisterField::bit(0x3F21_5004, 0), 1);
    assert_eq!(
        merge,
        RegisterOp::Merge { address: 0x3F21_5004, fields: FieldValue { mask: 1, bits: 1 } }
    );
    assert_eq!(merge.address(), 0x3F21_5004);
    assert_eq!(merge.result(0b110), 0b111);
    assert_eq!(merge.result(0b111), 0b111);
}

#[test]
fn field_outside_the_register_takes_and_gives_nothing() {
    for field in [
        RegisterField::bits(0x10, 31, 2),
        RegisterField::bits(0x10, 4, 0),
        RegisterField::bit(0x10, 32),
        RegisterField::bits(0x10, 40, 40),
        RegisterField::bits(0x10, u32::MAX, u32::MAX),
    ] {
        assert_eq!(field.mask(), 0);
        assert_eq!(field.with_value(0xFFFF_FFFF), FieldValue { mask: 0, bits: 0 });
        assert_eq!(field.read(0xFFFF_FFFF), 0);
        assert_eq!(field.write(0x1234_5678, 0xFFFF_FFFF), 0x1234_5678);
        let op = RegisterOp::field(field, 1);
        assert_eq!(op, RegisterOp::Merge { address: 0x10, fields: FieldValue { mask: 0, bits: 0 } });
        assert_eq!(op.result(0xABCD), 0xABCD);
    }
}
