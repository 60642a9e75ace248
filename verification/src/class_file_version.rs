//! The versions of the class-file format.

use crate::class_reader_error::{ClassReaderError, ClassReaderErrorView};
use vstd::prelude::*;

verus! {

/// The least major version of the class-file format that is read.
pub const MIN_MAJOR_VERSION: u16 = 45;

/// The greatest major version of the class-file format that is read.
pub const MAX_MAJOR_VERSION: u16 = 69;

/// A version of the class-file format, named by the release that brought
/// it. Each stands for one major version number, from 45 upwards in the
/// order written here.
#[derive(Debug, Clone, Copy, PartialEq, Eq, Structural)]
pub enum ClassFileVersion {
    Jdk1_1,
    Jdk1_2,
    Jdk1_3,
    Jdk1_4,
    Jdk1_5,
    Jdk6,
    Jdk7,
    Jdk8,
    Jdk9,
    Jdk10,
    Jdk11,
    Jdk12,
    Jdk13,
    Jdk14,
    Jdk15,
    Jdk16,
    Jdk17,
    Jdk18,
    Jdk19,
    Jdk20,
    Jdk21,
    Jdk22,
    Jdk23,
    Jdk24,
    Jdk25,
}

impl DeepView for ClassFileVersion {
    type V = ClassFileVersion;

    open spec fn deep_view(&self) -> ClassFileVersion {
        *self
    }
}

/// Whether class files with this major version number are read.
pub open spec fn is_supported(major: u16) -> bool {
    MIN_MAJOR_VERSION <= major <= MAX_MAJOR_VERSION
}

/// The version that a supported major version number stands for.
pub open spec fn version_of(major: u16) -> ClassFileVersion
    recommends
        is_supported(major),
{
    if major == 45 {
        ClassFileVersion::Jdk1_1
    } else     if major == 46 {
        ClassFileVersion::Jdk1_2
    } else     if major == 47 {
        ClassFileVersion::Jdk1_3
    } else     if major == 48 {
        ClassFileVersion::Jdk1_4
    } else     if major == 49 {
        ClassFileVersion::Jdk1_5
    } else     if major == 50 {
        ClassFileVersion::Jdk6
    } else     if major == 51 {
        ClassFileVersion::Jdk7
    } else     if major == 52 {
        ClassFileVersion::Jdk8
    } else     if major == 53 {
        ClassFileVersion::Jdk9
    } else     if major == 54 {
        ClassFileVersion::Jdk10
    } else     if major == 55 {
        ClassFileVersion::Jdk11
    } else     if major == 56 {
        ClassFileVersion::Jdk12
    } else     if major == 57 {
        ClassFileVersion::Jdk13
    } else     if major == 58 {
        ClassFileVersion::Jdk14
    } else     if major == 59 {
        ClassFileVersion::Jdk15
    } else     if major == 60 {
        ClassFileVersion::Jdk16
    } else     if major == 61 {
        ClassFileVersion::Jdk17
    } else     if major == 62 {
        ClassFileVersion::Jdk18
    } else     if major == 63 {
        ClassFileVersion::Jdk19
    } else     if major == 64 {
        ClassFileVersion::Jdk20
    } else     if major == 65 {
        ClassFileVersion::Jdk21
    } else     if major == 66 {
        ClassFileVersion::Jdk22
    } else     if major == 67 {
        ClassFileVersion::Jdk23
    } else     if major == 68 {
        ClassFileVersion::Jdk24
    } else {
        ClassFileVersion::Jdk25
    }
}

impl ClassFileVersion {
    /// The major version number that the version stands for.
    pub open spec fn major(self) -> u16 {
        match self {
            ClassFileVersion::Jdk1_1 => 45,
            ClassFileVersion::Jdk1_2 => 46,
            ClassFileVersion::Jdk1_3 => 47,
            ClassFileVersion::Jdk1_4 => 48,
            ClassFileVersion::Jdk1_5 => 49,
            ClassFileVersion::Jdk6 => 50,
            ClassFileVersion::Jdk7 => 51,
            ClassFileVersion::Jdk8 => 52,
            ClassFileVersion::Jdk9 => 53,
            ClassFileVersion::Jdk10 => 54,
            ClassFileVersion::Jdk11 => 55,
            ClassFileVersion::Jdk12 => 56,
            ClassFileVersion::Jdk13 => 57,
            ClassFileVersion::Jdk14 => 58,
            ClassFileVersion::Jdk15 => 59,
            ClassFileVersion::Jdk16 => 60,
            ClassFileVersion::Jdk17 => 61,
            ClassFileVersion::Jdk18 => 62,
            ClassFileVersion::Jdk19 => 63,
            ClassFileVersion::Jdk20 => 64,
            ClassFileVersion::Jdk21 => 65,
            ClassFileVersion::Jdk22 => 66,
            ClassFileVersion::Jdk23 => 67,
            ClassFileVersion::Jdk24 => 68,
            ClassFileVersion::Jdk25 => 69,
        }
    }

    /// Creates a version from the major and minor version numbers that the
    /// class file gives. Only the major number decides; one that is not
    /// supported is rejected with both numbers.
    pub fn from(major: u16, minor: u16) -> (r: Result<ClassFileVersion, ClassReaderError>)
        ensures
            is_supported(major) ==> (r matches Ok(version) && version == version_of(major)),
            !is_supported(major) ==> (r matches Err(e) && e@
                == ClassReaderErrorView::UnsupportedVersion(major, minor)),
    {
        match major {
            45 => Ok(ClassFileVersion::Jdk1_1),
            46 => Ok(ClassFileVersion::Jdk1_2),
            47 => Ok(ClassFileVersion::Jdk1_3),
            48 => Ok(ClassFileVersion::Jdk1_4),
            49 => Ok(ClassFileVersion::Jdk1_5),
            50 => Ok(ClassFileVersion::Jdk6),
            51 => Ok(ClassFileVersion::Jdk7),
            52 => Ok(ClassFileVersion::Jdk8),
            53 => Ok(ClassFileVersion::Jdk9),
            54 => Ok(ClassFileVersion::Jdk10),
            55 => Ok(ClassFileVersion::Jdk11),
            56 => Ok(ClassFileVersion::Jdk12),
            57 => Ok(ClassFileVersion::Jdk13),
            58 => Ok(ClassFileVersion::Jdk14),
            59 => Ok(ClassFileVersion::Jdk15),
            60 => Ok(ClassFileVersion::Jdk16),
            61 => Ok(ClassFileVersion::Jdk17),
            62 => Ok(ClassFileVersion::Jdk18),
            63 => Ok(ClassFileVersion::Jdk19),
            64 => Ok(ClassFileVersion::Jdk20),
            65 => Ok(ClassFileVersion::Jdk21),
            66 => Ok(ClassFileVersion::Jdk22),
            67 => Ok(ClassFileVersion::Jdk23),
            68 => Ok(ClassFileVersion::Jdk24),
            69 => Ok(ClassFileVersion::Jdk25),
            _ => Err(ClassReaderError::UnsupportedVersion(major, minor)),
        }
    }

    /// The major version number that the version stands for.
    pub fn major_version(&self) -> (major: u16)
        ensures
            major == self.major(),
            is_supported(major),
    {
        match self {
            ClassFileVersion::Jdk1_1 => 45,
            ClassFileVersion::Jdk1_2 => 46,
            ClassFileVersion::Jdk1_3 => 47,
            ClassFileVersion::Jdk1_4 => 48,
            ClassFileVersion::Jdk1_5 => 49,
            ClassFileVersion::Jdk6 => 50,
            ClassFileVersion::Jdk7 => 51,
            ClassFileVersion::Jdk8 => 52,
            ClassFileVersion::Jdk9 => 53,
            ClassFileVersion::Jdk10 => 54,
            ClassFileVersion::Jdk11 => 55,
            ClassFileVersion::Jdk12 => 56,
            ClassFileVersion::Jdk13 => 57,
            ClassFileVersion::Jdk14 => 58,
            ClassFileVersion::Jdk15 => 59,
            ClassFileVersion::Jdk16 => 60,
            ClassFileVersion::Jdk17 => 61,
            ClassFileVersion::Jdk18 => 62,
            ClassFileVersion::Jdk19 => 63,
            ClassFileVersion::Jdk20 => 64,
            ClassFileVersion::Jdk21 => 65,
            ClassFileVersion::Jdk22 => 66,
            ClassFileVersion::Jdk23 => 67,
            ClassFileVersion::Jdk24 => 68,
            ClassFileVersion::Jdk25 => 69,
        }
    }
}

/// A version and its major version number stand for each other.
pub proof fn version_and_major_agree(version: ClassFileVersion, major: u16)
    ensures
        is_supported(version.major()),
        version_of(version.major()) == version,
        is_supported(major) ==> version_of(major).major() == major,
{
}

} // verus!
