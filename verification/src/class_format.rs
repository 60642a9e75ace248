//! The class-file format, stated as functions on the bytes of a class file:
//! each says what stands at a position and where the next thing begins, or
//! with which error reading stops.

use crate::buffer::{be_u16, be_u32, be_u64, has_bytes, java_cesu8_text, signed_32, signed_64};
use crate::class_file::{
    AttributeView, ClassFileView, FieldConstantValueView, FieldView, MethodView,
};
use crate::class_file_version::{is_supported, version_of, ClassFileVersion};
use crate::class_reader_error::{
    formatting_failure, index_failure, invalid_data, ClassReaderErrorView,
};
use crate::constant_pool::{
    adding_keeps_the_invariant, debug_text, entry_at, resolved_text, slots_of, well_formed,
    Constant, InvalidConstantPoolIndexError, Slot,
};
use crate::flags::{ClassAccessFlags, FieldFlags, MethodFlags};
use crate::text::{decimal_text, upper_hex_digits, NumberTexts};
use vstd::prelude::*;

verus! {

/// The number with which every class file begins.
pub const MAGIC_NUMBER: u32 = 0xCAFEBABE;

/// What reading at a position gives: the value with the position behind
/// it, or the error with which reading stops.
pub type Parsed<T> = Result<(T, int), ClassReaderErrorView>;

/// One byte.
pub open spec fn parsed_u8(bytes: Seq<u8>, at: int) -> Parsed<u8> {
    if has_bytes(bytes, at, 1) {
        Ok((bytes[at], at + 1))
    } else {
        Err(ClassReaderErrorView::UnexpectedEndOfData)
    }
}

/// A number of two bytes, most significant first.
pub open spec fn parsed_u16(bytes: Seq<u8>, at: int) -> Parsed<u16> {
    if has_bytes(bytes, at, 2) {
        Ok((be_u16(bytes, at), at + 2))
    } else {
        Err(ClassReaderErrorView::UnexpectedEndOfData)
    }
}

/// A number of four bytes, most significant first.
pub open spec fn parsed_u32(bytes: Seq<u8>, at: int) -> Parsed<u32> {
    if has_bytes(bytes, at, 4) {
        Ok((be_u32(bytes, at), at + 4))
    } else {
        Err(ClassReaderErrorView::UnexpectedEndOfData)
    }
}

/// A number of eight bytes, most significant first.
pub open spec fn parsed_u64(bytes: Seq<u8>, at: int) -> Parsed<u64> {
    if has_bytes(bytes, at, 8) {
        Ok((be_u64(bytes, at), at + 8))
    } else {
        Err(ClassReaderErrorView::UnexpectedEndOfData)
    }
}

/// Two numbers of two bytes each.
pub open spec fn parsed_pair(bytes: Seq<u8>, at: int) -> Parsed<(u16, u16)> {
    if has_bytes(bytes, at, 4) {
        Ok(((be_u16(bytes, at), be_u16(bytes, at + 2)), at + 4))
    } else {
        Err(ClassReaderErrorView::UnexpectedEndOfData)
    }
}

/// The magic number: four bytes that hold `0xCAFEBABE`.
pub open spec fn parsed_magic(bytes: Seq<u8>, at: int) -> Parsed<()> {
    match parsed_u32(bytes, at) {
        Err(e) => Err(e),
        Ok((magic, next)) => if magic == MAGIC_NUMBER {
            Ok(((), next))
        } else {
            Err(invalid_data("invalid magic number"@))
        },
    }
}

/// The version: the minor number, then the major number, which must be
/// supported.
pub open spec fn parsed_version(bytes: Seq<u8>, at: int) -> Parsed<ClassFileVersion> {
    match parsed_pair(bytes, at) {
        Err(e) => Err(e),
        Ok(((minor, major), next)) => if is_supported(major) {
            Ok((version_of(major), next))
        } else {
            Err(ClassReaderErrorView::UnsupportedVersion(major, minor))
        },
    }
}

/// Whether a tag stands for a kind of constant.
pub open spec fn is_constant_tag(tag: u8) -> bool {
    tag == 1 || 3 <= tag <= 12 || 15 <= tag <= 20
}

/// The details of the error for a tag that stands for no kind of constant:
/// the tag in hexadecimal and the index of the constant that it begins.
pub open spec fn unknown_tag_details(tag: u8, index: int) -> Seq<char> {
    "Unknown constant type: 0x"@ + upper_hex_digits(tag as nat) + " at index "@ + decimal_text(
        index,
    )
}

/// A constant that holds text: the length in two bytes, then that many
/// bytes of modified UTF-8.
pub open spec fn parsed_utf8_constant(bytes: Seq<u8>, at: int) -> Parsed<Constant> {
    match parsed_u16(bytes, at) {
        Err(e) => Err(e),
        Ok((len, start)) => if !has_bytes(bytes, start, len as int) {
            Err(ClassReaderErrorView::UnexpectedEndOfData)
        } else {
            match java_cesu8_text(bytes.subrange(start, start + len)) {
                None => Err(ClassReaderErrorView::InvalidTextEncoding),
                Some(text) => Ok((Constant::Utf8(text), start + len)),
            }
        },
    }
}

/// The constant with one index that a tag stands for.
pub open spec fn index_constant(tag: u8, index: u16) -> Constant {
    if tag == 7 {
        Constant::ClassReference(index)
    } else if tag == 8 {
        Constant::StringReference(index)
    } else if tag == 16 {
        Constant::MethodType(index)
    } else if tag == 19 {
        Constant::ModuleInfo(index)
    } else {
        Constant::PackageInfo(index)
    }
}

/// The constant with two indices that a tag stands for.
pub open spec fn pair_constant(tag: u8, first: u16, second: u16) -> Constant {
    if tag == 9 {
        Constant::FieldReference(first, second)
    } else if tag == 10 {
        Constant::MethodReference(first, second)
    } else if tag == 11 {
        Constant::InterfaceMethodReference(first, second)
    } else if tag == 12 {
        Constant::NameAndTypeDescriptor(first, second)
    } else if tag == 17 {
        Constant::DynamicInfo(first, second)
    } else {
        Constant::InvokeDynamicInfo(first, second)
    }
}

/// The constant that stands behind its tag.
///
/// Tag 1 is text; 3 an integer; 4 a float; 5 a long; 6 a double; 7 a class
/// reference; 8 a string reference; 9, 10 and 11 references to a field, a
/// method and an interface method; 12 a name with its type; 15 a method
/// handle; 16 a method type; 17 and 18 dynamic constants; 19 a module; 20 a
/// package.
pub open spec fn parsed_constant_body(bytes: Seq<u8>, at: int, tag: u8) -> Parsed<Constant>
    recommends
        is_constant_tag(tag),
{
    if tag == 1 {
        parsed_utf8_constant(bytes, at)
    } else if tag == 3 {
        match parsed_u32(bytes, at) {
            Err(e) => Err(e),
            Ok((bits, next)) => Ok((Constant::Integer(signed_32(bits)), next)),
        }
    } else if tag == 4 {
        match parsed_u32(bytes, at) {
            Err(e) => Err(e),
            Ok((bits, next)) => Ok((Constant::Float(bits), next)),
        }
    } else if tag == 5 {
        match parsed_u64(bytes, at) {
            Err(e) => Err(e),
            Ok((bits, next)) => Ok((Constant::Long(signed_64(bits)), next)),
        }
    } else if tag == 6 {
        match parsed_u64(bytes, at) {
            Err(e) => Err(e),
            Ok((bits, next)) => Ok((Constant::Double(bits), next)),
        }
    } else if tag == 7 || tag == 8 || tag == 16 || tag == 19 || tag == 20 {
        match parsed_u16(bytes, at) {
            Err(e) => Err(e),
            Ok((index, next)) => Ok((index_constant(tag, index), next)),
        }
    } else if tag == 15 {
        match parsed_u8(bytes, at) {
            Err(e) => Err(e),
            Ok((kind, next)) => match parsed_u16(bytes, next) {
                Err(e) => Err(e),
                Ok((index, next)) => Ok((Constant::MethodHandle(kind, index), next)),
            },
        }
    } else {
        match parsed_pair(bytes, at) {
            Err(e) => Err(e),
            Ok(((first, second), next)) => Ok((pair_constant(tag, first, second), next)),
        }
    }
}

/// A constant: its tag, then what the tag stands for. `slots` is the number
/// of slots that the constants before it take.
#[verifier::opaque]
pub open spec fn parsed_constant(bytes: Seq<u8>, at: int, slots: int) -> Parsed<Constant> {
    match parsed_u8(bytes, at) {
        Err(e) => Err(e),
        Ok((tag, next)) => if is_constant_tag(tag) {
            parsed_constant_body(bytes, next, tag)
        } else {
            Err(invalid_data(unknown_tag_details(tag, slots + 1)))
        },
    }
}

/// The constants that follow those of `pool`, until the pool has `count`
/// slots or more. A long or a double counts for two.
pub open spec fn parsed_constants(bytes: Seq<u8>, at: int, count: int, pool: Seq<Slot>) -> Parsed<
    Seq<Slot>,
>
    decreases count + 1 - pool.len(),
{
    if pool.len() >= count {
        Ok((pool, at))
    } else {
        match parsed_constant(bytes, at, pool.len() as int) {
            Err(e) => Err(e),
            Ok((constant, next)) => {
                proof {
                    assert((pool + slots_of(constant)).len() > pool.len());
                }
                parsed_constants(bytes, next, count, pool + slots_of(constant))
            },
        }
    }
}

/// The constant pool: a count in two bytes, which is one more than the
/// number of slots, then the constants. A count of zero is invalid.
pub open spec fn parsed_pool(bytes: Seq<u8>, at: int) -> Parsed<Seq<Slot>> {
    match parsed_u16(bytes, at) {
        Err(e) => Err(e),
        Ok((declared, next)) => if declared == 0 {
            Err(invalid_data("invalid constant pool count: 0"@))
        } else {
            parsed_constants(bytes, next, declared - 1, Seq::empty())
        },
    }
}

/// The access flags of the class: two bytes with known bits only.
pub open spec fn parsed_class_flags(bytes: Seq<u8>, at: int) -> Parsed<u16> {
    match parsed_u16(bytes, at) {
        Err(e) => Err(e),
        Ok((bits, next)) => if ClassAccessFlags::known(bits) {
            Ok((bits, next))
        } else {
            Err(invalid_data("invalid class flags: "@ + decimal_text(bits as int)))
        },
    }
}

/// The access flags of a field.
pub open spec fn parsed_field_flags(bytes: Seq<u8>, at: int) -> Parsed<u16> {
    match parsed_u16(bytes, at) {
        Err(e) => Err(e),
        Ok((bits, next)) => if FieldFlags::known(bits) {
            Ok((bits, next))
        } else {
            Err(invalid_data("invalid field flags: "@ + decimal_text(bits as int)))
        },
    }
}

/// The access flags of a method.
pub open spec fn parsed_method_flags(bytes: Seq<u8>, at: int) -> Parsed<u16> {
    match parsed_u16(bytes, at) {
        Err(e) => Err(e),
        Ok((bits, next)) => if MethodFlags::known(bits) {
            Ok((bits, next))
        } else {
            Err(invalid_data("invalid method flags: "@ + decimal_text(bits as int)))
        },
    }
}

/// The text of the constant with the given index, as the reader takes it:
/// a constant that cannot be rendered makes the class data invalid.
pub open spec fn constant_text(pool: Seq<Slot>, numbers: NumberTexts, index: u16) -> Result<
    Seq<char>,
    ClassReaderErrorView,
> {
    match resolved_text(pool, numbers, index, pool.len()) {
        Ok(text) => Ok(text),
        Err(e) => Err(formatting_failure(e)),
    }
}

/// A name: the index of a constant in two bytes, resolved to its text.
pub open spec fn parsed_name(bytes: Seq<u8>, at: int, pool: Seq<Slot>, numbers: NumberTexts)
    -> Parsed<Seq<char>> {
    match parsed_u16(bytes, at) {
        Err(e) => Err(e),
        Ok((index, next)) => match constant_text(pool, numbers, index) {
            Err(e) => Err(e),
            Ok(text) => Ok((text, next)),
        },
    }
}

/// A name that may be missing: index zero stands for none.
pub open spec fn parsed_optional_name(
    bytes: Seq<u8>,
    at: int,
    pool: Seq<Slot>,
    numbers: NumberTexts,
) -> Parsed<Option<Seq<char>>> {
    match parsed_u16(bytes, at) {
        Err(e) => Err(e),
        Ok((index, next)) => if index == 0 {
            Ok((None, next))
        } else {
            match constant_text(pool, numbers, index) {
                Err(e) => Err(e),
                Ok(text) => Ok((Some(text), next)),
            }
        },
    }
}

/// `remaining` names, behind those already read.
pub open spec fn parsed_names(
    bytes: Seq<u8>,
    at: int,
    pool: Seq<Slot>,
    numbers: NumberTexts,
    remaining: nat,
    done: Seq<Seq<char>>,
) -> Parsed<Seq<Seq<char>>>
    decreases remaining,
{
    if remaining == 0 {
        Ok((done, at))
    } else {
        match parsed_name(bytes, at, pool, numbers) {
            Err(e) => Err(e),
            Ok((name, next)) => parsed_names(
                bytes,
                next,
                pool,
                numbers,
                (remaining - 1) as nat,
                done.push(name),
            ),
        }
    }
}

/// The interfaces: a count in two bytes, then that many names of classes,
/// in the order of the file.
pub open spec fn parsed_interfaces(
    bytes: Seq<u8>,
    at: int,
    pool: Seq<Slot>,
    numbers: NumberTexts,
) -> Parsed<Seq<Seq<char>>> {
    match parsed_u16(bytes, at) {
        Err(e) => Err(e),
        Ok((count, next)) => parsed_names(bytes, next, pool, numbers, count as nat, Seq::empty()),
    }
}

/// An attribute: its name, the length of its bytes in four bytes, and the
/// bytes.
pub open spec fn parsed_attribute(bytes: Seq<u8>, at: int, pool: Seq<Slot>, numbers: NumberTexts)
    -> Parsed<AttributeView> {
    match parsed_name(bytes, at, pool, numbers) {
        Err(e) => Err(e),
        Ok((name, next)) => match parsed_u32(bytes, next) {
            Err(e) => Err(e),
            Ok((len, start)) => if !has_bytes(bytes, start, len as int) {
                Err(ClassReaderErrorView::UnexpectedEndOfData)
            } else {
                Ok((AttributeView { name, info: bytes.subrange(start, start + len) }, start + len))
            },
        },
    }
}

/// `remaining` attributes, behind those already read.
pub open spec fn parsed_attribute_list(
    bytes: Seq<u8>,
    at: int,
    pool: Seq<Slot>,
    numbers: NumberTexts,
    remaining: nat,
    done: Seq<AttributeView>,
) -> Parsed<Seq<AttributeView>>
    decreases remaining,
{
    if remaining == 0 {
        Ok((done, at))
    } else {
        match parsed_attribute(bytes, at, pool, numbers) {
            Err(e) => Err(e),
            Ok((attribute, next)) => parsed_attribute_list(
                bytes,
                next,
                pool,
                numbers,
                (remaining - 1) as nat,
                done.push(attribute),
            ),
        }
    }
}

/// A list of attributes: a count in two bytes, then that many attributes.
pub open spec fn parsed_attributes(
    bytes: Seq<u8>,
    at: int,
    pool: Seq<Slot>,
    numbers: NumberTexts,
) -> Parsed<Seq<AttributeView>> {
    match parsed_u16(bytes, at) {
        Err(e) => Err(e),
        Ok((count, next)) => parsed_attribute_list(
            bytes,
            next,
            pool,
            numbers,
            count as nat,
            Seq::empty(),
        ),
    }
}

/// The position of the first attribute from `from` on that is named
/// `ConstantValue`, or the number of attributes if there is none.
pub open spec fn constant_value_position(attributes: Seq<AttributeView>, from: int) -> int
    decreases attributes.len() - from,
{
    if from < 0 || from >= attributes.len() {
        attributes.len() as int
    } else if attributes[from].name == "ConstantValue"@ {
        from
    } else {
        constant_value_position(attributes, from + 1)
    }
}

/// The constant value that an attribute named `ConstantValue` gives.
///
/// Its bytes must be exactly the two of an index. The constant at the index
/// decides the type: an integer, a float, a long or a double gives its
/// value; a string reference gives the text it refers to; any other
/// constant is invalid.
pub open spec fn constant_value_of(pool: Seq<Slot>, numbers: NumberTexts, info: Seq<u8>) -> Result<
    FieldConstantValueView,
    ClassReaderErrorView,
> {
    if info.len() != 2 {
        Err(invalid_data("invalid attribute of type ConstantValue"@))
    } else {
        let index = be_u16(info, 0);
        match entry_at(pool, index) {
            None => Err(index_failure(InvalidConstantPoolIndexError { index })),
            Some(Constant::StringReference(text)) => match constant_text(pool, numbers, text) {
                Err(e) => Err(e),
                Ok(text) => Ok(FieldConstantValueView::String(text)),
            },
            Some(Constant::Integer(n)) => Ok(FieldConstantValueView::Int(n)),
            Some(Constant::Float(n)) => Ok(FieldConstantValueView::Float(n)),
            Some(Constant::Long(n)) => Ok(FieldConstantValueView::Long(n)),
            Some(Constant::Double(n)) => Ok(FieldConstantValueView::Double(n)),
            Some(other) => Err(
                invalid_data("invalid type for ConstantValue: "@ + debug_text(other)),
            ),
        }
    }
}

/// The constant value of a field with the given attributes: that of the
/// first attribute named `ConstantValue`, or none if there is no such
/// attribute.
pub open spec fn constant_value_among(
    pool: Seq<Slot>,
    numbers: NumberTexts,
    attributes: Seq<AttributeView>,
) -> Result<Option<FieldConstantValueView>, ClassReaderErrorView> {
    let position = constant_value_position(attributes, 0);
    if position >= attributes.len() {
        Ok(None)
    } else {
        match constant_value_of(pool, numbers, attributes[position].info) {
            Err(e) => Err(e),
            Ok(value) => Ok(Some(value)),
        }
    }
}

/// A field: its flags, its name, its type descriptor and its attributes,
/// of which the constant value is kept.
pub open spec fn parsed_field(bytes: Seq<u8>, at: int, pool: Seq<Slot>, numbers: NumberTexts)
    -> Parsed<FieldView> {
    match parsed_field_flags(bytes, at) {
        Err(e) => Err(e),
        Ok((flags, next)) => match parsed_name(bytes, next, pool, numbers) {
            Err(e) => Err(e),
            Ok((name, next)) => match parsed_name(bytes, next, pool, numbers) {
                Err(e) => Err(e),
                Ok((type_descriptor, next)) => match parsed_attributes(bytes, next, pool, numbers) {
                    Err(e) => Err(e),
                    Ok((attributes, next)) => match constant_value_among(
                        pool,
                        numbers,
                        attributes,
                    ) {
                        Err(e) => Err(e),
                        Ok(constant_value) => Ok(
                            (FieldView { flags, name, type_descriptor, constant_value }, next),
                        ),
                    },
                },
            },
        },
    }
}

/// `remaining` fields, behind those already read.
pub open spec fn parsed_field_list(
    bytes: Seq<u8>,
    at: int,
    pool: Seq<Slot>,
    numbers: NumberTexts,
    remaining: nat,
    done: Seq<FieldView>,
) -> Parsed<Seq<FieldView>>
    decreases remaining,
{
    if remaining == 0 {
        Ok((done, at))
    } else {
        match parsed_field(bytes, at, pool, numbers) {
            Err(e) => Err(e),
            Ok((field, next)) => parsed_field_list(
                bytes,
                next,
                pool,
                numbers,
                (remaining - 1) as nat,
                done.push(field),
            ),
        }
    }
}

/// The fields: a count in two bytes, then that many fields, in the order
/// of the file.
pub open spec fn parsed_fields(bytes: Seq<u8>, at: int, pool: Seq<Slot>, numbers: NumberTexts)
    -> Parsed<Seq<FieldView>> {
    match parsed_u16(bytes, at) {
        Err(e) => Err(e),
        Ok((count, next)) => parsed_field_list(
            bytes,
            next,
            pool,
            numbers,
            count as nat,
            Seq::empty(),
        ),
    }
}

/// A method: its flags, its name, its type descriptor and its attributes,
/// which are kept as they are.
pub open spec fn parsed_method(bytes: Seq<u8>, at: int, pool: Seq<Slot>, numbers: NumberTexts)
    -> Parsed<MethodView> {
    match parsed_method_flags(bytes, at) {
        Err(e) => Err(e),
        Ok((flags, next)) => match parsed_name(bytes, next, pool, numbers) {
            Err(e) => Err(e),
            Ok((name, next)) => match parsed_name(bytes, next, pool, numbers) {
                Err(e) => Err(e),
                Ok((type_descriptor, next)) => match parsed_attributes(bytes, next, pool, numbers) {
                    Err(e) => Err(e),
                    Ok((attributes, next)) => Ok(
                        (MethodView { flags, name, type_descriptor, attributes }, next),
                    ),
                },
            },
        },
    }
}

/// `remaining` methods, behind those already read.
pub open spec fn parsed_method_list(
    bytes: Seq<u8>,
    at: int,
    pool: Seq<Slot>,
    numbers: NumberTexts,
    remaining: nat,
    done: Seq<MethodView>,
) -> Parsed<Seq<MethodView>>
    decreases remaining,
{
    if remaining == 0 {
        Ok((done, at))
    } else {
        match parsed_method(bytes, at, pool, numbers) {
            Err(e) => Err(e),
            Ok((method, next)) => parsed_method_list(
                bytes,
                next,
                pool,
                numbers,
                (remaining - 1) as nat,
                done.push(method),
            ),
        }
    }
}

/// The methods: a count in two bytes, then that many methods, in the order
/// of the file.
pub open spec fn parsed_methods(bytes: Seq<u8>, at: int, pool: Seq<Slot>, numbers: NumberTexts)
    -> Parsed<Seq<MethodView>> {
    match parsed_u16(bytes, at) {
        Err(e) => Err(e),
        Ok((count, next)) => parsed_method_list(
            bytes,
            next,
            pool,
            numbers,
            count as nat,
            Seq::empty(),
        ),
    }
}

/// What stands behind the constant pool: the flags of the class, its name,
/// the name of its superclass, its interfaces, its fields and its methods.
/// Nothing in these marks a class as deprecated or names its source file.
pub open spec fn parsed_members(
    bytes: Seq<u8>,
    at: int,
    version: ClassFileVersion,
    pool: Seq<Slot>,
    numbers: NumberTexts,
) -> Parsed<ClassFileView> {
    match parsed_class_flags(bytes, at) {
        Err(e) => Err(e),
        Ok((flags, next)) => match parsed_name(bytes, next, pool, numbers) {
            Err(e) => Err(e),
            Ok((name, next)) => match parsed_optional_name(bytes, next, pool, numbers) {
                Err(e) => Err(e),
                Ok((superclass, next)) => match parsed_interfaces(bytes, next, pool, numbers) {
                    Err(e) => Err(e),
                    Ok((interfaces, next)) => match parsed_fields(bytes, next, pool, numbers) {
                        Err(e) => Err(e),
                        Ok((fields, next)) => match parsed_methods(bytes, next, pool, numbers) {
                            Err(e) => Err(e),
                            Ok((methods, next)) => Ok(
                                (
                                    ClassFileView {
                                        version,
                                        constants: pool,
                                        flags,
                                        name,
                                        superclass,
                                        interfaces,
                                        fields,
                                        methods,
                                        deprecated: false,
                                        source_file: None,
                                    },
                                    next,
                                ),
                            ),
                        },
                    },
                },
            },
        },
    }
}

/// The class that stands at the start of the bytes, with the position at
/// which it ends: the magic number, the version, the constant pool, and
/// then the members with their names resolved against the pool.
pub open spec fn parsed_class_with_end(bytes: Seq<u8>, numbers: NumberTexts) -> Parsed<
    ClassFileView,
> {
    match parsed_magic(bytes, 0) {
        Err(e) => Err(e),
        Ok((_, next)) => match parsed_version(bytes, next) {
            Err(e) => Err(e),
            Ok((version, next)) => match parsed_pool(bytes, next) {
                Err(e) => Err(e),
                Ok((pool, next)) => parsed_members(bytes, next, version, pool, numbers),
            },
        },
    }
}

/// The class that the bytes of a class file hold, or the first error that
/// reading them meets. Whatever follows the methods is not read.
pub open spec fn parsed_class(bytes: Seq<u8>, numbers: NumberTexts) -> Result<
    ClassFileView,
    ClassReaderErrorView,
> {
    match parsed_class_with_end(bytes, numbers) {
        Err(e) => Err(e),
        Ok((class, _)) => Ok(class),
    }
}

/// Reading constants keeps the invariant of the pool, keeps what the pool
/// held, and ends with as many slots as asked for, or with one more where
/// the last constant takes two.
pub proof fn parsed_constants_keep_the_invariant(
    bytes: Seq<u8>,
    at: int,
    count: int,
    pool: Seq<Slot>,
)
    requires
        well_formed(pool),
        pool.len() <= count + 1,
    ensures
        parsed_constants(bytes, at, count, pool) matches Ok((all, _)) ==> {
            &&& well_formed(all)
            &&& count <= all.len() <= count + 1
            &&& pool.len() <= all.len()
            &&& all.subrange(0, pool.len() as int) == pool
        },
    decreases count + 1 - pool.len(),
{
    if pool.len() < count {
        if let Ok((constant, next)) = parsed_constant(bytes, at, pool.len() as int) {
            let longer = pool + slots_of(constant);
            adding_keeps_the_invariant(pool, constant);
            assert(longer.len() > pool.len());
            parsed_constants_keep_the_invariant(bytes, next, count, longer);
            if let Ok((all, _)) = parsed_constants(bytes, next, count, longer) {
                assert(all.subrange(0, pool.len() as int) =~= all.subrange(
                    0,
                    longer.len() as int,
                ).subrange(0, pool.len() as int));
                assert(longer.subrange(0, pool.len() as int) =~= pool);
            }
        }
    } else {
        assert(pool.subrange(0, pool.len() as int) =~= pool);
    }
}

/// A constant pool that is read keeps the invariant: tombstones stand
/// exactly behind the longs and doubles. It has one slot less than the
/// count in the file says, or as many where its last constant takes two.
pub proof fn parsed_pool_keeps_the_invariant(bytes: Seq<u8>, at: int)
    ensures
        parsed_pool(bytes, at) matches Ok((pool, _)) ==> {
            &&& well_formed(pool)
            &&& parsed_u16(bytes, at) matches Ok((declared, _))
            &&& declared - 1 <= pool.len() <= declared
        },
{
    if let Ok((declared, next)) = parsed_u16(bytes, at) {
        if declared != 0 {
            adding_keeps_the_invariant(Seq::empty(), Constant::Integer(0));
            parsed_constants_keep_the_invariant(bytes, next, declared - 1, Seq::empty());
        }
    }
}

/// Names that are read stand behind those read before, in the order of
/// the file, and there are as many of them as were asked for.
pub proof fn names_keep_their_order(
    bytes: Seq<u8>,
    at: int,
    pool: Seq<Slot>,
    numbers: NumberTexts,
    remaining: nat,
    done: Seq<Seq<char>>,
)
    ensures
        parsed_names(bytes, at, pool, numbers, remaining, done) matches Ok((all, _)) ==> {
            &&& all.len() == done.len() + remaining
            &&& all.subrange(0, done.len() as int) == done
        },
    decreases remaining,
{
    if remaining == 0 {
        assert(done.subrange(0, done.len() as int) =~= done);
    } else if let Ok((one, next)) = parsed_name(bytes, at, pool, numbers) {
        let longer = done.push(one);
        names_keep_their_order(bytes, next, pool, numbers, (remaining - 1) as nat, longer);
        if let Ok((all, _)) = parsed_names(
            bytes,
            next,
            pool,
            numbers,
            (remaining - 1) as nat,
            longer,
        ) {
            assert(all.subrange(0, done.len() as int) =~= all.subrange(
                0,
                longer.len() as int,
            ).subrange(0, done.len() as int));
            assert(longer.subrange(0, done.len() as int) =~= done);
        }
    }
}

/// Attributes that are read stand behind those read before, in the order of
/// the file, and there are as many of them as were asked for.
pub proof fn attributes_keep_their_order(
    bytes: Seq<u8>,
    at: int,
    pool: Seq<Slot>,
    numbers: NumberTexts,
    remaining: nat,
    done: Seq<AttributeView>,
)
    ensures
        parsed_attribute_list(bytes, at, pool, numbers, remaining, done) matches Ok((all, _)) ==> {
            &&& all.len() == done.len() + remaining
            &&& all.subrange(0, done.len() as int) == done
        },
    decreases remaining,
{
    if remaining == 0 {
        assert(done.subrange(0, done.len() as int) =~= done);
    } else if let Ok((one, next)) = parsed_attribute(bytes, at, pool, numbers) {
        let longer = done.push(one);
        attributes_keep_their_order(bytes, next, pool, numbers, (remaining - 1) as nat, longer);
        if let Ok((all, _)) = parsed_attribute_list(
            bytes,
            next,
            pool,
            numbers,
            (remaining - 1) as nat,
            longer,
        ) {
            assert(all.subrange(0, done.len() as int) =~= all.subrange(
                0,
                longer.len() as int,
            ).subrange(0, done.len() as int));
            assert(longer.subrange(0, done.len() as int) =~= done);
        }
    }
}

/// Fields that are read stand behind those read before, in the order of
/// the file, and there are as many of them as were asked for.
pub proof fn fields_keep_their_order(
    bytes: Seq<u8>,
    at: int,
    pool: Seq<Slot>,
    numbers: NumberTexts,
    remaining: nat,
    done: Seq<FieldView>,
)
    ensures
        parsed_field_list(bytes, at, pool, numbers, remaining, done) matches Ok((all, _)) ==> {
            &&& all.len() == done.len() + remaining
            &&& all.subrange(0, done.len() as int) == done
        },
    decreases remaining,
{
    if remaining == 0 {
        assert(done.subrange(0, done.len() as int) =~= done);
    } else if let Ok((one, next)) = parsed_field(bytes, at, pool, numbers) {
        let longer = done.push(one);
        fields_keep_their_order(bytes, next, pool, numbers, (remaining - 1) as nat, longer);
        if let Ok((all, _)) = parsed_field_list(
            bytes,
            next,
            pool,
            numbers,
            (remaining - 1) as nat,
            longer,
        ) {
            assert(all.subrange(0, done.len() as int) =~= all.subrange(
                0,
                longer.len() as int,
            ).subrange(0, done.len() as int));
            assert(longer.subrange(0, done.len() as int) =~= done);
        }
    }
}

/// Methods that are read stand behind those read before, in the order of
/// the file, and there are as many of them as were asked for.
pub proof fn methods_keep_their_order(
    bytes: Seq<u8>,
    at: int,
    pool: Seq<Slot>,
    numbers: NumberTexts,
    remaining: nat,
    done: Seq<MethodView>,
)
    ensures
        parsed_method_list(bytes, at, pool, numbers, remaining, done) matches Ok((all, _)) ==> {
            &&& all.len() == done.len() + remaining
            &&& all.subrange(0, done.len() as int) == done
        },
    decreases remaining,
{
    if remaining == 0 {
        assert(done.subrange(0, done.len() as int) =~= done);
    } else if let Ok((one, next)) = parsed_method(bytes, at, pool, numbers) {
        let longer = done.push(one);
        methods_keep_their_order(bytes, next, pool, numbers, (remaining - 1) as nat, longer);
        if let Ok((all, _)) = parsed_method_list(
            bytes,
            next,
            pool,
            numbers,
            (remaining - 1) as nat,
            longer,
        ) {
            assert(all.subrange(0, done.len() as int) =~= all.subrange(
                0,
                longer.len() as int,
            ).subrange(0, done.len() as int));
            assert(longer.subrange(0, done.len() as int) =~= done);
        }
    }
}

/// The bytes hold a class exactly if they begin with the magic number, a
/// supported version follows, the constant pool can be read behind it, and
/// the members can be read behind the pool.
pub proof fn class_is_read_iff_its_parts_are(bytes: Seq<u8>, numbers: NumberTexts)
    ensures
        parsed_class(bytes, numbers) is Ok <==> {
            &&& has_bytes(bytes, 0, 8)
            &&& be_u32(bytes, 0) == MAGIC_NUMBER
            &&& is_supported(be_u16(bytes, 6))
            &&& parsed_pool(bytes, 8) matches Ok((pool, next))
            &&& parsed_members(bytes, next, version_of(be_u16(bytes, 6)), pool, numbers) is Ok
        },
{
}

/// Bytes that do not begin with the magic number hold no class: with fewer
/// than four bytes the data ends too early, with four others the magic
/// number is invalid.
pub proof fn magic_number_is_needed(bytes: Seq<u8>, numbers: NumberTexts)
    ensures
        bytes.len() < 4 ==> parsed_class(bytes, numbers) == Err::<ClassFileView, _>(
            ClassReaderErrorView::UnexpectedEndOfData,
        ),
        bytes.len() >= 4 && be_u32(bytes, 0) != MAGIC_NUMBER ==> parsed_class(bytes, numbers)
            == Err::<ClassFileView, _>(invalid_data("invalid magic number"@)),
{
}

/// A class file of a version that is not supported is rejected with its
/// major and minor version numbers.
pub proof fn version_is_needed(bytes: Seq<u8>, numbers: NumberTexts)
    requires
        bytes.len() >= 8,
        be_u32(bytes, 0) == MAGIC_NUMBER,
        !is_supported(be_u16(bytes, 6)),
    ensures
        parsed_class(bytes, numbers) == Err::<ClassFileView, _>(
            ClassReaderErrorView::UnsupportedVersion(be_u16(bytes, 6), be_u16(bytes, 4)),
        ),
{
}

/// Bytes that begin with the magic number and end before the version is
/// complete fail with the error for the end of the data.
pub proof fn truncated_header_ends_unexpectedly(bytes: Seq<u8>, numbers: NumberTexts)
    requires
        4 <= bytes.len() < 8,
        be_u32(bytes, 0) == MAGIC_NUMBER,
    ensures
        parsed_class(bytes, numbers) == Err::<ClassFileView, _>(
            ClassReaderErrorView::UnexpectedEndOfData,
        ),
{
}

} // verus!
