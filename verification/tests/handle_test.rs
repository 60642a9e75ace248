use rjvm::class_file_version::ClassFileVersion;
use rjvm::constant_pool::{ConstantPool, ConstantPoolEntry};
use rjvm::handle::{MethodHandle, VmError};

/// A field reference at 1, a method reference at 2, an interface method
/// reference at 3, a long at 4 and text at 6.
fn pool() -> ConstantPool {
    let mut constants = ConstantPool::new();
    constants.add(ConstantPoolEntry::FieldReference(10, 11));
    constants.add(ConstantPoolEntry::MethodReference(20, 21));
    constants.add(ConstantPoolEntry::InterfaceMethodReference(30, 31));
    constants.add(ConstantPoolEntry::Long(5));
    constants.add(ConstantPoolEntry::Utf8("text".to_string()));
    constants
}

const FAILS: Result<MethodHandle, VmError> = Err(VmError::ValidationException);

#[test]
fn interface_method_handle_needs_version_52() {
    let constants = pool();
    let expected = Ok(MethodHandle::InterfaceMethodRef(30, 31));
    assert_eq!(
        expected,
        MethodHandle::resolve(&ClassFileVersion::Jdk8, &constants, 6, 3)
    );
    assert_eq!(
        FAILS,
        MethodHandle::resolve(&ClassFileVersion::Jdk7, &constants, 6, 3)
    );
    assert_eq!(
        expected,
        MethodHandle::resolve(&ClassFileVersion::Jdk8, &constants, 7, 3)
    );
    assert_eq!(
        FAILS,
        MethodHandle::resolve(&ClassFileVersion::Jdk7, &constants, 7, 3)
    );
    assert_eq!(
        expected,
        MethodHandle::resolve(&ClassFileVersion::Jdk25, &constants, 6, 3)
    );
    assert_eq!(
        FAILS,
        MethodHandle::resolve(&ClassFileVersion::Jdk1_1, &constants, 6, 3)
    );
}

#[test]
fn field_kinds_take_a_field_reference() {
    let constants = pool();
    for version in [ClassFileVersion::Jdk6, ClassFileVersion::Jdk11] {
        for kind in 1..=4u8 {
            assert_eq!(
                Ok(MethodHandle::FieldRef(10, 11)),
                MethodHandle::resolve(&version, &constants, kind, 1)
            );
            assert_eq!(FAILS, MethodHandle::resolve(&version, &constants, kind, 2));
            assert_eq!(FAILS, MethodHandle::resolve(&version, &constants, kind, 3));
            assert_eq!(FAILS, MethodHandle::resolve(&version, &constants, kind, 6));
        }
    }
}

#[test]
fn method_kinds_take_a_method_reference() {
    let constants = pool();
    for version in [ClassFileVersion::Jdk6, ClassFileVersion::Jdk11] {
        for kind in [5u8, 6, 7, 8] {
            assert_eq!(
                Ok(MethodHandle::MethodRef(20, 21)),
                MethodHandle::resolve(&version, &constants, kind, 2)
            );
            assert_eq!(FAILS, MethodHandle::resolve(&version, &constants, kind, 1));
            assert_eq!(FAILS, MethodHandle::resolve(&version, &constants, kind, 6));
        }
        for kind in [5u8, 8] {
            assert_eq!(FAILS, MethodHandle::resolve(&version, &constants, kind, 3));
        }
    }
}

#[test]
fn invoke_interface_takes_an_interface_method_reference() {
    let constants = pool();
    for version in [ClassFileVersion::Jdk1_1, ClassFileVersion::Jdk6, ClassFileVersion::Jdk11] {
        assert_eq!(
            Ok(MethodHandle::InterfaceMethodRef(30, 31)),
            MethodHandle::resolve(&version, &constants, 9, 3)
        );
        assert_eq!(FAILS, MethodHandle::resolve(&version, &constants, 9, 1));
        assert_eq!(FAILS, MethodHandle::resolve(&version, &constants, 9, 2));
    }
}

#[test]
fn other_kinds_and_missing_constants_fail() {
    let constants = pool();
    let version = ClassFileVersion::Jdk17;
    for kind in [0u8, 10, 11, 100, 255] {
        for index in 1..=3u16 {
            assert_eq!(FAILS, MethodHandle::resolve(&version, &constants, kind, index));
        }
    }
    for kind in 0..=10u8 {
        // Index zero, the second slot of the long, and past the end.
        assert_eq!(FAILS, MethodHandle::resolve(&version, &constants, kind, 0));
        assert_eq!(FAILS, MethodHandle::resolve(&version, &constants, kind, 5));
        assert_eq!(FAILS, MethodHandle::resolve(&version, &constants, kind, 7));
        assert_eq!(FAILS, MethodHandle::resolve(&version, &constants, kind, 4));
    }
}
