//! Method handles: what the kind of a handle and the constant it points at
//! resolve to.

use crate::class_file_version::ClassFileVersion;
use crate::constant_pool::{entry_at, Constant, ConstantPool, ConstantPoolEntry};
use vstd::prelude::*;

verus! {

/// The first version of the class-file format, by its major number, in
/// which a handle that invokes a static or a special method may point at a
/// method of an interface.
pub const INTERFACE_HANDLE_MAJOR_VERSION: u16 = 52;

/// A resolved method handle: the kind of member it refers to, with the
/// indices of the class and of the name and type.
#[derive(Debug, Clone, Copy, PartialEq, Eq, PartialOrd, Ord, Hash, Structural)]
pub enum MethodHandle {
    FieldRef(u16, u16),
    MethodRef(u16, u16),
    InterfaceMethodRef(u16, u16),
}

/// The errors raised while a class is linked.
#[derive(Debug, Clone, Copy, PartialEq, Eq, Structural)]
pub enum VmError {
    /// The class file does not satisfy a constraint of the format.
    ValidationException,
}

/// What a handle of the given kind resolves to, when the constant it points
/// at is `entry`, in a class file with the given major version.
///
/// The kinds one to four take a field reference; five and eight a method
/// reference; nine an interface method reference. Six and seven take a
/// method reference and, from major version 52 on, an interface method
/// reference as well. Everything else is a validation error.
pub open spec fn resolved_handle(major: u16, entry: Option<Constant>, kind: u8) -> Result<
    MethodHandle,
    VmError,
> {
    match entry {
        None => Err(VmError::ValidationException),
        Some(c) => if 1 <= kind <= 4 {
            match c {
                Constant::FieldReference(i, j) => Ok(MethodHandle::FieldRef(i, j)),
                _ => Err(VmError::ValidationException),
            }
        } else if kind == 5 || kind == 8 {
            match c {
                Constant::MethodReference(i, j) => Ok(MethodHandle::MethodRef(i, j)),
                _ => Err(VmError::ValidationException),
            }
        } else if kind == 6 || kind == 7 {
            match c {
                Constant::MethodReference(i, j) => Ok(MethodHandle::MethodRef(i, j)),
                Constant::InterfaceMethodReference(i, j) => if major
                    >= INTERFACE_HANDLE_MAJOR_VERSION {
                    Ok(MethodHandle::InterfaceMethodRef(i, j))
                } else {
                    Err(VmError::ValidationException)
                },
                _ => Err(VmError::ValidationException),
            }
        } else if kind == 9 {
            match c {
                Constant::InterfaceMethodReference(i, j) => Ok(
                    MethodHandle::InterfaceMethodRef(i, j),
                ),
                _ => Err(VmError::ValidationException),
            }
        } else {
            Err(VmError::ValidationException)
        },
    }
}

impl MethodHandle {
    /// Resolves the handle of the given kind that points at the constant
    /// with the given index.
    ///
    /// The names of the methods are not looked at: that a handle must not
    /// point at an instance initializer or a class initializer is not
    /// checked here.
    pub fn resolve(version: &ClassFileVersion, pool: &ConstantPool, kind: u8, index: u16) -> (r:
        Result<MethodHandle, VmError>)
        ensures
            r == resolved_handle(version.major(), entry_at(pool@, index), kind),
    {
        let entry = match pool.get(index) {
            Ok(entry) => entry,
            Err(_) => {
                return Err(VmError::ValidationException);
            },
        };
        match kind {
            1 | 2 | 3 | 4 => {
                if let ConstantPoolEntry::FieldReference(i, j) = entry {
                    Ok(MethodHandle::FieldRef(*i, *j))
                } else {
                    Err(VmError::ValidationException)
                }
            },
            5 | 8 => {
                if let ConstantPoolEntry::MethodReference(i, j) = entry {
                    Ok(MethodHandle::MethodRef(*i, *j))
                } else {
                    Err(VmError::ValidationException)
                }
            },
            6 | 7 => {
                if version.major_version() < INTERFACE_HANDLE_MAJOR_VERSION {
                    if let ConstantPoolEntry::MethodReference(i, j) = entry {
                        Ok(MethodHandle::MethodRef(*i, *j))
                    } else {
                        Err(VmError::ValidationException)
                    }
                } else {
                    if let ConstantPoolEntry::MethodReference(i, j) = entry {
                        Ok(MethodHandle::MethodRef(*i, *j))
                    } else if let ConstantPoolEntry::InterfaceMethodReference(i, j) = entry {
                        Ok(MethodHandle::InterfaceMethodRef(*i, *j))
                    } else {
                        Err(VmError::ValidationException)
                    }
                }
            },
            9 => {
                if let ConstantPoolEntry::InterfaceMethodReference(i, j) = entry {
                    Ok(MethodHandle::InterfaceMethodRef(*i, *j))
                } else {
                    Err(VmError::ValidationException)
                }
            },
            _ => Err(VmError::ValidationException),
        }
    }
}

/// A handle that invokes a static method and points at an interface method
/// reference resolves from major version 52 on, and fails before it, all
/// else being equal.
pub proof fn interface_handle_needs_version(major: u16, i: u16, j: u16)
    ensures
        major >= 52 ==> resolved_handle(major, Some(Constant::InterfaceMethodReference(i, j)), 6)
            == Ok::<MethodHandle, VmError>(MethodHandle::InterfaceMethodRef(i, j)),
        major < 52 ==> resolved_handle(major, Some(Constant::InterfaceMethodReference(i, j)), 6)
            == Err::<MethodHandle, VmError>(VmError::ValidationException),
{
}

} // verus!
