use rjvm::constant_pool::{
    ConstantPool, ConstantPoolEntry, ConstantPoolFormattingError, InvalidConstantPoolIndexError,
    InvalidMethodHandleKindError,
};
use rjvm::text::{bit_pattern_text, FloatBits};

/// Renders floating-point constants as the standard library does.
fn std_numbers(n: FloatBits) -> String {
    match n {
        FloatBits::Single(bits) => f32::from_bits(bits).to_string(),
        FloatBits::Double(bits) => f64::from_bits(bits).to_string(),
    }
}

#[test]
fn constant_pool_works() {
    let mut cp = ConstantPool::new();
    cp.add(ConstantPoolEntry::Utf8("hey".to_string()));
    cp.add(ConstantPoolEntry::Integer(1));
    cp.add(ConstantPoolEntry::Float(2.1f32.to_bits()));
    cp.add(ConstantPoolEntry::Long(123));
    cp.add(ConstantPoolEntry::Double(3.56f64.to_bits()));
    cp.add(ConstantPoolEntry::ClassReference(1));
    cp.add(ConstantPoolEntry::StringReference(1));
    cp.add(ConstantPoolEntry::Utf8("joe".to_string()));
    cp.add(ConstantPoolEntry::FieldReference(1, 10));
    cp.add(ConstantPoolEntry::MethodReference(1, 10));
    cp.add(ConstantPoolEntry::InterfaceMethodReference(1, 10));
    cp.add(ConstantPoolEntry::NameAndTypeDescriptor(1, 10));

    assert_eq!(
        ConstantPoolEntry::Utf8("hey".to_string()),
        *cp.get(1).unwrap()
    );
    assert_eq!(ConstantPoolEntry::Integer(1), *cp.get(2).unwrap());
    assert_eq!(
        ConstantPoolEntry::Float(2.1f32.to_bits()),
        *cp.get(3).unwrap()
    );
    assert_eq!(ConstantPoolEntry::Long(123i64), *cp.get(4).unwrap());
    assert_eq!(Err(InvalidConstantPoolIndexError::new(5)), cp.get(5));
    assert_eq!(
        ConstantPoolEntry::Double(3.56f64.to_bits()),
        *cp.get(6).unwrap()
    );
    assert_eq!(Err(InvalidConstantPoolIndexError::new(7)), cp.get(7));
    assert_eq!(ConstantPoolEntry::ClassReference(1), *cp.get(8).unwrap());
    assert_eq!(ConstantPoolEntry::StringReference(1), *cp.get(9).unwrap());
    assert_eq!(
        ConstantPoolEntry::Utf8("joe".to_string()),
        *cp.get(10).unwrap()
    );
    assert_eq!(
        ConstantPoolEntry::FieldReference(1, 10),
        *cp.get(11).unwrap()
    );
    assert_eq!(
        ConstantPoolEntry::MethodReference(1, 10),
        *cp.get(12).unwrap()
    );
    assert_eq!(
        ConstantPoolEntry::InterfaceMethodReference(1, 10),
        *cp.get(13).unwrap()
    );
    assert_eq!(
        ConstantPoolEntry::NameAndTypeDescriptor(1, 10),
        *cp.get(14).unwrap()
    );

    assert_eq!("hey", cp.text_of(1, &std_numbers).unwrap());
    assert_eq!("1", cp.text_of(2, &std_numbers).unwrap());
    assert_eq!("2.1", cp.text_of(3, &std_numbers).unwrap());
    assert_eq!("123", cp.text_of(4, &std_numbers).unwrap());
    assert_eq!(
        Err(ConstantPoolFormattingError::PoolIndex(
            InvalidConstantPoolIndexError::new(5)
        )),
        cp.text_of(5, &std_numbers)
    );
    assert_eq!("3.56", cp.text_of(6, &std_numbers).unwrap());
    assert_eq!(
        Err(ConstantPoolFormattingError::PoolIndex(
            InvalidConstantPoolIndexError::new(7)
        )),
        cp.text_of(7, &std_numbers)
    );
    assert_eq!("hey", cp.text_of(8, &std_numbers).unwrap());
    assert_eq!("hey", cp.text_of(9, &std_numbers).unwrap());
    assert_eq!("joe", cp.text_of(10, &std_numbers).unwrap());
    assert_eq!("hey.joe", cp.text_of(11, &std_numbers).unwrap());
    assert_eq!("hey.joe", cp.text_of(12, &std_numbers).unwrap());
    assert_eq!("hey.joe", cp.text_of(13, &std_numbers).unwrap());
    assert_eq!("hey: joe", cp.text_of(14, &std_numbers).unwrap());
}

fn sample_pool() -> ConstantPool {
    let mut cp = ConstantPool::new();
    cp.add(ConstantPoolEntry::Utf8("hey".to_string()));
    cp.add(ConstantPoolEntry::Integer(1));
    cp.add(ConstantPoolEntry::Long(123));
    cp.add(ConstantPoolEntry::ClassReference(1));
    cp
}

#[test]
fn index_zero_is_always_invalid() {
    let cp = sample_pool();
    assert_eq!(Err(InvalidConstantPoolIndexError { index: 0 }), cp.get(0));
    assert_eq!(
        Err(ConstantPoolFormattingError::PoolIndex(
            InvalidConstantPoolIndexError { index: 0 }
        )),
        cp.text_of(0, &std_numbers)
    );
    let empty = ConstantPool::new();
    assert_eq!(Err(InvalidConstantPoolIndexError { index: 0 }), empty.get(0));
    assert_eq!(Err(InvalidConstantPoolIndexError { index: 1 }), empty.get(1));
}

#[test]
fn long_takes_two_slots_and_the_next_entry_follows() {
    let cp = sample_pool();
    assert_eq!(5, cp.slot_count());
    assert_eq!(ConstantPoolEntry::Long(123), *cp.get(3).unwrap());
    assert_eq!(Err(InvalidConstantPoolIndexError { index: 4 }), cp.get(4));
    assert_eq!(ConstantPoolEntry::ClassReference(1), *cp.get(5).unwrap());
    assert_eq!(Err(InvalidConstantPoolIndexError { index: 6 }), cp.get(6));
    assert_eq!("hey", cp.text_of(5, &std_numbers).unwrap());
}

#[test]
fn pool_with_text_integer_long_and_class_reference() {
    // Behind a float at index 3, the long stands at index 4 and takes slot
    // 5 as well.
    let mut cp = ConstantPool::new();
    cp.add(ConstantPoolEntry::Utf8("hey".to_string()));
    cp.add(ConstantPoolEntry::Integer(1));
    cp.add(ConstantPoolEntry::Float(2.1f32.to_bits()));
    cp.add(ConstantPoolEntry::Long(123));
    cp.add(ConstantPoolEntry::ClassReference(1));
    assert_eq!(ConstantPoolEntry::Long(123), *cp.get(4).unwrap());
    assert_eq!(Err(InvalidConstantPoolIndexError::new(5)), cp.get(5));
    assert_eq!(ConstantPoolEntry::ClassReference(1), *cp.get(6).unwrap());
    assert_eq!("hey", cp.text_of(6, &std_numbers).unwrap());
}

#[test]
fn text_of_numbers_is_decimal() {
    let mut cp = ConstantPool::new();
    cp.add(ConstantPoolEntry::Integer(-2147483648));
    cp.add(ConstantPoolEntry::Integer(0));
    cp.add(ConstantPoolEntry::Long(i64::MIN));
    cp.add(ConstantPoolEntry::Long(i64::MAX));
    cp.add(ConstantPoolEntry::Float(1.5f32.to_bits()));
    cp.add(ConstantPoolEntry::Double((-0.25f64).to_bits()));
    assert_eq!("-2147483648", cp.text_of(1, &std_numbers).unwrap());
    assert_eq!("0", cp.text_of(2, &std_numbers).unwrap());
    assert_eq!("-9223372036854775808", cp.text_of(3, &std_numbers).unwrap());
    assert_eq!("9223372036854775807", cp.text_of(5, &std_numbers).unwrap());
    assert_eq!("1.5", cp.text_of(7, &std_numbers).unwrap());
    assert_eq!("-0.25", cp.text_of(8, &std_numbers).unwrap());
}

#[test]
fn text_of_follows_every_kind_of_reference() {
    let mut cp = ConstantPool::new();
    cp.add(ConstantPoolEntry::Utf8("java/lang/Object".to_string())); // 1
    cp.add(ConstantPoolEntry::Utf8("toString".to_string())); // 2
    cp.add(ConstantPoolEntry::Utf8("()Ljava/lang/String;".to_string())); // 3
    cp.add(ConstantPoolEntry::ClassReference(1)); // 4
    cp.add(ConstantPoolEntry::NameAndTypeDescriptor(2, 3)); // 5
    cp.add(ConstantPoolEntry::MethodReference(4, 5)); // 6
    cp.add(ConstantPoolEntry::MethodHandle(5, 6)); // 7
    cp.add(ConstantPoolEntry::MethodType(3)); // 8
    cp.add(ConstantPoolEntry::DynamicInfo(2, 5)); // 9
    cp.add(ConstantPoolEntry::InvokeDynamicInfo(2, 5)); // 10
    cp.add(ConstantPoolEntry::ModuleInfo(1)); // 11
    cp.add(ConstantPoolEntry::PackageInfo(1)); // 12
    cp.add(ConstantPoolEntry::MethodHandle(10, 6)); // 13
    cp.add(ConstantPoolEntry::MethodHandle(0, 99)); // 14
    cp.add(ConstantPoolEntry::MethodHandle(9, 99)); // 15

    assert_eq!("java/lang/Object", cp.text_of(4, &std_numbers).unwrap());
    assert_eq!(
        "toString: ()Ljava/lang/String;",
        cp.text_of(5, &std_numbers).unwrap()
    );
    assert_eq!(
        "java/lang/Object.toString: ()Ljava/lang/String;",
        cp.text_of(6, &std_numbers).unwrap()
    );
    assert_eq!(
        "invokeVirtual(java/lang/Object.toString: ()Ljava/lang/String;)",
        cp.text_of(7, &std_numbers).unwrap()
    );
    assert_eq!("()Ljava/lang/String;", cp.text_of(8, &std_numbers).unwrap());
    assert_eq!(
        "toString: toString: ()Ljava/lang/String;",
        cp.text_of(9, &std_numbers).unwrap()
    );
    assert_eq!(
        "toString: toString: ()Ljava/lang/String;",
        cp.text_of(10, &std_numbers).unwrap()
    );
    assert_eq!("java/lang/Object", cp.text_of(11, &std_numbers).unwrap());
    assert_eq!("java/lang/Object", cp.text_of(12, &std_numbers).unwrap());
    assert_eq!(
        Err(ConstantPoolFormattingError::MethodHandleKind(
            InvalidMethodHandleKindError { kind: 10 }
        )),
        cp.text_of(13, &std_numbers)
    );
    // The kind is looked at before the target.
    assert_eq!(
        Err(ConstantPoolFormattingError::MethodHandleKind(
            InvalidMethodHandleKindError { kind: 0 }
        )),
        cp.text_of(14, &std_numbers)
    );
    assert_eq!(
        Err(ConstantPoolFormattingError::PoolIndex(
            InvalidConstantPoolIndexError { index: 99 }
        )),
        cp.text_of(15, &std_numbers)
    );
}

#[test]
fn text_of_reports_the_first_error_of_a_pair() {
    let mut cp = ConstantPool::new();
    cp.add(ConstantPoolEntry::FieldReference(7, 8)); // 1
    cp.add(ConstantPoolEntry::Utf8("a".to_string())); // 2
    cp.add(ConstantPoolEntry::FieldReference(2, 9)); // 3
    assert_eq!(
        Err(ConstantPoolFormattingError::PoolIndex(
            InvalidConstantPoolIndexError { index: 7 }
        )),
        cp.text_of(1, &std_numbers)
    );
    assert_eq!(
        Err(ConstantPoolFormattingError::PoolIndex(
            InvalidConstantPoolIndexError { index: 9 }
        )),
        cp.text_of(3, &std_numbers)
    );
}

#[test]
fn references_in_a_circle_exceed_the_depth() {
    let mut cp = ConstantPool::new();
    cp.add(ConstantPoolEntry::ClassReference(2)); // 1
    cp.add(ConstantPoolEntry::ClassReference(1)); // 2
    cp.add(ConstantPoolEntry::StringReference(3)); // 3
    assert_eq!(
        Err(ConstantPoolFormattingError::ReferenceDepthExceeded(2)),
        cp.text_of(1, &std_numbers)
    );
    assert_eq!(
        Err(ConstantPoolFormattingError::ReferenceDepthExceeded(3)),
        cp.text_of(3, &std_numbers)
    );
    assert_eq!(
        Err(ConstantPoolFormattingError::ReferenceDepthExceeded(3)),
        cp.fmt_entry(3, &std_numbers)
    );
}

#[test]
fn a_chain_as_long_as_the_pool_is_resolved() {
    let mut cp = ConstantPool::new();
    cp.add(ConstantPoolEntry::ClassReference(2)); // 1
    cp.add(ConstantPoolEntry::StringReference(3)); // 2
    cp.add(ConstantPoolEntry::MethodType(4)); // 3
    cp.add(ConstantPoolEntry::Utf8("end".to_string())); // 4
    assert_eq!("end", cp.text_of(1, &std_numbers).unwrap());
    assert_eq!(
        "ClassReference: 2 => (StringReference: 3 => (MethodType: 4 => (String: \"end\")))",
        cp.fmt_entry(1, &std_numbers).unwrap()
    );
}

#[test]
fn method_handle_kinds_have_names() {
    let cp = ConstantPool::new();
    let names = [
        "getField",
        "getStatic",
        "putField",
        "putStatic",
        "invokeVirtual",
        "invokeStatic",
        "invokeSpecial",
        "newInvokeSpecial",
        "invokeInterface",
    ];
    for kind in 1..=9u8 {
        assert_eq!(
            names[(kind - 1) as usize],
            cp.method_handle_kind(kind).unwrap()
        );
    }
    assert_eq!(
        Err(InvalidMethodHandleKindError { kind: 0 }),
        cp.method_handle_kind(0)
    );
    assert_eq!(
        Err(InvalidMethodHandleKindError { kind: 10 }),
        cp.method_handle_kind(10)
    );
    assert_eq!(
        Err(InvalidMethodHandleKindError { kind: 255 }),
        cp.method_handle_kind(255)
    );
}

#[test]
fn fmt_entry_shows_indices_and_targets() {
    let mut cp = ConstantPool::new();
    cp.add(ConstantPoolEntry::Utf8("hey".to_string())); // 1
    cp.add(ConstantPoolEntry::Integer(-5)); // 2
    cp.add(ConstantPoolEntry::Float(2.1f32.to_bits())); // 3
    cp.add(ConstantPoolEntry::Long(123)); // 4
    cp.add(ConstantPoolEntry::Double(3.56f64.to_bits())); // 6
    cp.add(ConstantPoolEntry::ClassReference(1)); // 8
    cp.add(ConstantPoolEntry::StringReference(1)); // 9
    cp.add(ConstantPoolEntry::Utf8("joe".to_string())); // 10
    cp.add(ConstantPoolEntry::FieldReference(8, 14)); // 11
    cp.add(ConstantPoolEntry::MethodReference(8, 14)); // 12
    cp.add(ConstantPoolEntry::InterfaceMethodReference(8, 14)); // 13
    cp.add(ConstantPoolEntry::NameAndTypeDescriptor(1, 10)); // 14
    cp.add(ConstantPoolEntry::MethodHandle(6, 12)); // 15
    cp.add(ConstantPoolEntry::MethodType(10)); // 16
    cp.add(ConstantPoolEntry::DynamicInfo(1, 14)); // 17
    cp.add(ConstantPoolEntry::InvokeDynamicInfo(1, 14)); // 18
    cp.add(ConstantPoolEntry::ModuleInfo(1)); // 19
    cp.add(ConstantPoolEntry::PackageInfo(1)); // 20

    assert_eq!("String: \"hey\"", cp.fmt_entry(1, &std_numbers).unwrap());
    assert_eq!("Integer: -5", cp.fmt_entry(2, &std_numbers).unwrap());
    assert_eq!("Float: 2.1", cp.fmt_entry(3, &std_numbers).unwrap());
    assert_eq!("Long: 123", cp.fmt_entry(4, &std_numbers).unwrap());
    assert_eq!("Double: 3.56", cp.fmt_entry(6, &std_numbers).unwrap());
    assert_eq!(
        "ClassReference: 1 => (String: \"hey\")",
        cp.fmt_entry(8, &std_numbers).unwrap()
    );
    assert_eq!(
        "StringReference: 1 => (String: \"hey\")",
        cp.fmt_entry(9, &std_numbers).unwrap()
    );
    let nat = "NameAndTypeDescriptor: 1, 10 => (String: \"hey\"), (String: \"joe\")";
    assert_eq!(nat, cp.fmt_entry(14, &std_numbers).unwrap());
    let class = "ClassReference: 1 => (String: \"hey\")";
    assert_eq!(
        format!("FieldReference: 8, 14 => ({class}), ({nat})"),
        cp.fmt_entry(11, &std_numbers).unwrap()
    );
    let method = format!("MethodReference: 8, 14 => ({class}), ({nat})");
    assert_eq!(method, cp.fmt_entry(12, &std_numbers).unwrap());
    assert_eq!(
        format!("InterfaceMethodReference: 8, 14 => ({class}), ({nat})"),
        cp.fmt_entry(13, &std_numbers).unwrap()
    );
    assert_eq!(
        format!("MethodHandle: 6, 12 => (invokeStatic), ({method})"),
        cp.fmt_entry(15, &std_numbers).unwrap()
    );
    assert_eq!(
        "MethodType: 10 => (String: \"joe\")",
        cp.fmt_entry(16, &std_numbers).unwrap()
    );
    assert_eq!(
        format!("DynamicInfo: 1, 14 => (String: \"hey\"), ({nat})"),
        cp.fmt_entry(17, &std_numbers).unwrap()
    );
    assert_eq!(
        format!("InvokeDynamicInfo: 1, 14 => (String: \"hey\"), ({nat})"),
        cp.fmt_entry(18, &std_numbers).unwrap()
    );
    assert_eq!(
        "ModuleInfo: 1 => (String: \"hey\")",
        cp.fmt_entry(19, &std_numbers).unwrap()
    );
    assert_eq!(
        "PackageInfo: 1 => (String: \"hey\")",
        cp.fmt_entry(20, &std_numbers).unwrap()
    );
    assert_eq!(
        Err(ConstantPoolFormattingError::PoolIndex(
            InvalidConstantPoolIndexError { index: 5 }
        )),
        cp.fmt_entry(5, &std_numbers)
    );
}

#[test]
fn listing_has_a_line_for_every_slot() {
    let mut cp = ConstantPool::new();
    assert_eq!(
        "Constant pool: (size: 0)\n",
        cp.to_text(&std_numbers).unwrap()
    );
    cp.add(ConstantPoolEntry::Utf8("hey".to_string()));
    cp.add(ConstantPoolEntry::ClassReference(1));
    cp.add(ConstantPoolEntry::Float(0.5f32.to_bits()));
    assert_eq!(
        "Constant pool: (size: 3)\n    1, String: \"hey\"\n    2, ClassReference: 1 => (String: \"hey\")\n    3, Float: 0.5\n",
        cp.to_text(&std_numbers).unwrap()
    );
}

#[test]
fn listing_has_no_line_for_a_tombstone() {
    let mut cp = ConstantPool::new();
    cp.add(ConstantPoolEntry::Long(1));
    cp.add(ConstantPoolEntry::Double(0.5f64.to_bits()));
    cp.add(ConstantPoolEntry::Integer(7));
    assert_eq!(
        "Constant pool: (size: 5)\n    1, Long: 1\n    3, Double: 0.5\n    5, Integer: 7\n",
        cp.to_text(&std_numbers).unwrap()
    );
}

#[test]
fn listing_fails_where_a_constant_cannot_be_expanded() {
    let mut cp = ConstantPool::new();
    cp.add(ConstantPoolEntry::Utf8("a".to_string()));
    cp.add(ConstantPoolEntry::ClassReference(9));
    cp.add(ConstantPoolEntry::MethodHandle(0, 1));
    assert_eq!(
        Err(ConstantPoolFormattingError::PoolIndex(
            InvalidConstantPoolIndexError { index: 9 }
        )),
        cp.to_text(&std_numbers)
    );
}

#[test]
fn bit_patterns_can_stand_for_floats() {
    let mut cp = ConstantPool::new();
    cp.add(ConstantPoolEntry::Float(2.1f32.to_bits()));
    cp.add(ConstantPoolEntry::Double(1.0f64.to_bits()));
    assert_eq!("0x40066666", cp.text_of(1, &bit_pattern_text).unwrap());
    assert_eq!(
        "0x3FF0000000000000",
        cp.text_of(2, &bit_pattern_text).unwrap()
    );
    assert_eq!("0x0", bit_pattern_text(FloatBits::Single(0)));
}

#[test]
fn pool_errors_have_messages() {
    assert_eq!(
        "invalid constant pool index: 5",
        InvalidConstantPoolIndexError::new(5).to_text()
    );
    assert_eq!(
        "invalid method handle kind: 12",
        InvalidMethodHandleKindError { kind: 12 }.to_text()
    );
    assert_eq!(
        "invalid constant pool index: 65535",
        ConstantPoolFormattingError::PoolIndex(InvalidConstantPoolIndexError { index: 65535 })
            .to_text()
    );
    assert_eq!(
        "invalid method handle kind: 0",
        ConstantPoolFormattingError::MethodHandleKind(InvalidMethodHandleKindError { kind: 0 })
            .to_text()
    );
    assert_eq!(
        "constant pool reference depth exceeded at index: 3",
        ConstantPoolFormattingError::ReferenceDepthExceeded(3).to_text()
    );
}

#[test]
fn constants_show_as_values() {
    assert_eq!(
        "Utf8(\"he\\\"y\\n\")",
        ConstantPoolEntry::Utf8("he\"y\n".to_string()).debug_text()
    );
    assert_eq!(
        "ClassReference(1)",
        ConstantPoolEntry::ClassReference(1).debug_text()
    );
    assert_eq!(
        "FieldReference(1, 10)",
        ConstantPoolEntry::FieldReference(1, 10).debug_text()
    );
    assert_eq!(
        "MethodHandle(9, 65535)",
        ConstantPoolEntry::MethodHandle(9, 65535).debug_text()
    );
    assert_eq!("Integer(-3)", ConstantPoolEntry::Integer(-3).debug_text());
    assert_eq!(
        format!("{:?}", ConstantPoolEntry::NameAndTypeDescriptor(3, 4)),
        ConstantPoolEntry::NameAndTypeDescriptor(3, 4).debug_text()
    );
    assert_eq!(
        format!("{:?}", ConstantPoolEntry::Utf8("a\tb\u{7f}é".to_string())),
        ConstantPoolEntry::Utf8("a\tb\u{7f}é".to_string()).debug_text()
    );
}

#[test]
fn a_new_pool_is_empty() {
    let empty = ConstantPool::new();
    assert_eq!(0, empty.slot_count());
    assert_eq!(0, ConstantPool::default().slot_count());
    assert_eq!(Err(InvalidConstantPoolIndexError::new(1)), empty.get(1));
    assert_eq!(
        Err(InvalidConstantPoolIndexError::new(65535)),
        empty.get(65535)
    );
}
