use rjvm::class_path::ClassLoadingError;
use rjvm::flags::{ClassAccessFlags, FieldFlags, MethodFlags};

#[test]
fn class_flags_hold_known_bits_only() {
    assert_eq!(0xF631, ClassAccessFlags::ALL);
    let flags = ClassAccessFlags::from_bits(ClassAccessFlags::PUBLIC | ClassAccessFlags::SUPER);
    let flags = flags.unwrap();
    assert_eq!(0x0021, flags.bits());
    assert!(flags.contains(ClassAccessFlags::PUBLIC));
    assert!(flags.contains(ClassAccessFlags::SUPER));
    assert!(flags.contains(ClassAccessFlags::PUBLIC | ClassAccessFlags::SUPER));
    assert!(!flags.contains(ClassAccessFlags::FINAL));
    assert!(!flags.contains(ClassAccessFlags::PUBLIC | ClassAccessFlags::FINAL));
    assert_eq!(0, ClassAccessFlags::empty().bits());
    assert_eq!(Some(ClassAccessFlags::empty()), ClassAccessFlags::from_bits(0));
    for bits in [0x0002u16, 0x0004, 0x0008, 0x0040, 0x0080, 0x0100, 0x0800, 0x0023, 0xFFFF] {
        assert_eq!(None, ClassAccessFlags::from_bits(bits));
    }
    for bits in 0..=0xFFFFu16 {
        assert_eq!(
            bits & !ClassAccessFlags::ALL == 0,
            ClassAccessFlags::from_bits(bits).is_some()
        );
    }
    assert_eq!(
        Some(0xF631),
        ClassAccessFlags::from_bits(0xF631).map(|flags| flags.bits())
    );
}

#[test]
fn field_flags_hold_known_bits_only() {
    assert_eq!(0x50DF, FieldFlags::ALL);
    let flags = FieldFlags::from_bits(FieldFlags::PRIVATE | FieldFlags::FINAL).unwrap();
    assert_eq!(0x0012, flags.bits());
    assert!(flags.contains(FieldFlags::PRIVATE));
    assert!(!flags.contains(FieldFlags::STATIC));
    assert_eq!(0, FieldFlags::empty().bits());
    for bits in [0x0020u16, 0x0100, 0x0200, 0x0400, 0x0800, 0x2000, 0x8000] {
        assert_eq!(None, FieldFlags::from_bits(bits));
    }
    for bits in 0..=0xFFFFu16 {
        assert_eq!(
            bits & !FieldFlags::ALL == 0,
            FieldFlags::from_bits(bits).is_some()
        );
    }
}

#[test]
fn method_flags_hold_known_bits_only() {
    assert_eq!(0x1DFF, MethodFlags::ALL);
    let flags = MethodFlags::from_bits(MethodFlags::PUBLIC | MethodFlags::NATIVE).unwrap();
    assert_eq!(0x0101, flags.bits());
    assert!(flags.contains(MethodFlags::NATIVE));
    assert!(!flags.contains(MethodFlags::ABSTRACT));
    assert_eq!(0, MethodFlags::empty().bits());
    for bits in [0x0200u16, 0x2000, 0x4000, 0x8000] {
        assert_eq!(None, MethodFlags::from_bits(bits));
    }
    for bits in 0..=0xFFFFu16 {
        assert_eq!(
            bits & !MethodFlags::ALL == 0,
            MethodFlags::from_bits(bits).is_some()
        );
    }
}

#[test]
fn class_loading_error_keeps_its_message() {
    let error = ClassLoadingError::new("no such archive".to_string());
    assert_eq!("no such archive", error.to_text());
}
