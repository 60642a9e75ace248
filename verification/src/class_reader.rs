//! The reader of class files: it walks the bytes in the order that the
//! format fixes, and stops at the first error.

use crate::buffer::Buffer;
use crate::class_file::{
    Attribute, AttributeView, ClassFile, ClassFileField, ClassFileMethod, FieldConstantValue,
    FieldView, MethodView,
};
use crate::class_file_version::ClassFileVersion;
use crate::class_format::{
    constant_text, constant_value_among, constant_value_of, constant_value_position,
    parsed_attribute, parsed_attribute_list, parsed_attributes, parsed_class, parsed_class_flags,
    parsed_constant, parsed_constant_body, parsed_constants, parsed_field, parsed_field_flags,
    parsed_field_list, parsed_fields, parsed_interfaces, parsed_magic, parsed_method,
    parsed_method_flags, parsed_method_list, parsed_methods, parsed_name, parsed_names,
    parsed_optional_name, parsed_pair, parsed_pool, parsed_u16, parsed_u32, parsed_u8,
    parsed_version, unknown_tag_details, Parsed, MAGIC_NUMBER,
};
use crate::class_reader_error::{invalid_data, ClassReaderError, ClassReaderErrorView};
use crate::constant_pool::{well_formed, ConstantPool, ConstantPoolEntry};
use crate::flags::{ClassAccessFlags, FieldFlags, MethodFlags};
use crate::text::{
    join2, number_texts, renders, unsigned_to_text, unsigned_to_upper_hex, FloatBits,
};
use vstd::prelude::*;
use vstd::slice::slice_to_vec;

verus! {

/// Whether the outcome of a read agrees with what the format says stands
/// at the place: the same value with the cursor behind it, or the same
/// error.
pub open spec fn agrees<T: DeepView>(
    r: Result<T, ClassReaderError>,
    position: int,
    expected: Parsed<T::V>,
) -> bool {
    match expected {
        Ok((value, next)) => r matches Ok(v) && v.deep_view() == value && position == next,
        Err(e) => r matches Err(error) && error@ == e,
    }
}

/// Whether a result agrees with what the format says: the same value, or
/// the same error.
pub open spec fn agrees_on_value<T: DeepView>(
    r: Result<T, ClassReaderError>,
    expected: Result<T::V, ClassReaderErrorView>,
) -> bool {
    match expected {
        Ok(value) => r matches Ok(v) && v.deep_view() == value,
        Err(e) => r matches Err(error) && error@ == e,
    }
}

/// A nested option and result, turned inside out.
pub open spec fn inverted<T, E>(nested: Option<Result<T, E>>) -> Result<Option<T>, E> {
    match nested {
        Some(Err(e)) => Err(e),
        Some(Ok(v)) => Ok(Some(v)),
        None => Ok(None),
    }
}

/// Turns an optional result into the result of an option, with
/// `result::ResultOptionExt::invert`: nothing becomes success with nothing,
/// a value becomes success with the value, an error stays the error.
#[verifier::external_body]
fn invert<T, E>(nested: Option<Result<T, E>>) -> (r: Result<Option<T>, E>)
    ensures
        r == inverted(nested),
{
    result::ResultOptionExt::invert(nested)
}

/// Reads one byte.
fn read_u8(buffer: &mut Buffer) -> (r: Result<u8, ClassReaderError>)
    ensures
        final(buffer)@.bytes == old(buffer)@.bytes,
        agrees(r, final(buffer)@.position, parsed_u8(old(buffer)@.bytes, old(buffer)@.position)),
{
    match buffer.read_u8() {
        Ok(value) => Ok(value),
        Err(e) => Err(ClassReaderError::from(e)),
    }
}

/// Reads a number of two bytes.
fn read_u16(buffer: &mut Buffer) -> (r: Result<u16, ClassReaderError>)
    ensures
        final(buffer)@.bytes == old(buffer)@.bytes,
        agrees(r, final(buffer)@.position, parsed_u16(old(buffer)@.bytes, old(buffer)@.position)),
{
    match buffer.read_u16() {
        Ok(value) => Ok(value),
        Err(e) => Err(ClassReaderError::from(e)),
    }
}

/// Reads a number of four bytes.
fn read_u32(buffer: &mut Buffer) -> (r: Result<u32, ClassReaderError>)
    ensures
        final(buffer)@.bytes == old(buffer)@.bytes,
        agrees(r, final(buffer)@.position, parsed_u32(old(buffer)@.bytes, old(buffer)@.position)),
{
    match buffer.read_u32() {
        Ok(value) => Ok(value),
        Err(e) => Err(ClassReaderError::from(e)),
    }
}

/// Checks that the magic number stands at the cursor.
fn check_magic_number(buffer: &mut Buffer) -> (r: Result<(), ClassReaderError>)
    ensures
        final(buffer)@.bytes == old(buffer)@.bytes,
        agrees(r, final(buffer)@.position, parsed_magic(old(buffer)@.bytes, old(buffer)@.position)),
{
    match read_u32(buffer) {
        Ok(magic) => {
            if magic == MAGIC_NUMBER {
                Ok(())
            } else {
                Err(ClassReaderError::invalid_class_data(String::from_str("invalid magic number")))
            }
        },
        Err(e) => Err(e),
    }
}

/// Reads the version of the class file: the minor number, then the major
/// number.
fn read_version(buffer: &mut Buffer) -> (r: Result<ClassFileVersion, ClassReaderError>)
    ensures
        final(buffer)@.bytes == old(buffer)@.bytes,
        agrees(
            r,
            final(buffer)@.position,
            parsed_version(old(buffer)@.bytes, old(buffer)@.position),
        ),
{
    let minor_version = match read_u16(buffer) {
        Ok(value) => value,
        Err(e) => {
            return Err(e);
        },
    };
    let major_version = match read_u16(buffer) {
        Ok(value) => value,
        Err(e) => {
            return Err(e);
        },
    };
    ClassFileVersion::from(major_version, minor_version)
}

/// Reads what stands behind the tag of each kind of constant.
fn read_utf8_constant(buffer: &mut Buffer) -> (r: Result<ConstantPoolEntry, ClassReaderError>)
    ensures
        final(buffer)@.bytes == old(buffer)@.bytes,
        agrees(
            r,
            final(buffer)@.position,
            parsed_constant_body(old(buffer)@.bytes, old(buffer)@.position, 1),
        ),
{
    let len = match read_u16(buffer) {
        Ok(value) => value,
        Err(e) => {
            return Err(e);
        },
    };
    match buffer.read_utf8(len as usize) {
        Ok(text) => Ok(ConstantPoolEntry::Utf8(text)),
        Err(e) => Err(ClassReaderError::from(e)),
    }
}

fn read_int_constant(buffer: &mut Buffer) -> (r: Result<ConstantPoolEntry, ClassReaderError>)
    ensures
        final(buffer)@.bytes == old(buffer)@.bytes,
        agrees(
            r,
            final(buffer)@.position,
            parsed_constant_body(old(buffer)@.bytes, old(buffer)@.position, 3),
        ),
{
    match buffer.read_i32() {
        Ok(value) => Ok(ConstantPoolEntry::Integer(value)),
        Err(e) => Err(ClassReaderError::from(e)),
    }
}

fn read_float_constant(buffer: &mut Buffer) -> (r: Result<ConstantPoolEntry, ClassReaderError>)
    ensures
        final(buffer)@.bytes == old(buffer)@.bytes,
        agrees(
            r,
            final(buffer)@.position,
            parsed_constant_body(old(buffer)@.bytes, old(buffer)@.position, 4),
        ),
{
    match buffer.read_float_bits() {
        Ok(value) => Ok(ConstantPoolEntry::Float(value)),
        Err(e) => Err(ClassReaderError::from(e)),
    }
}

fn read_long_constant(buffer: &mut Buffer) -> (r: Result<ConstantPoolEntry, ClassReaderError>)
    ensures
        final(buffer)@.bytes == old(buffer)@.bytes,
        agrees(
            r,
            final(buffer)@.position,
            parsed_constant_body(old(buffer)@.bytes, old(buffer)@.position, 5),
        ),
{
    match buffer.read_i64() {
        Ok(value) => Ok(ConstantPoolEntry::Long(value)),
        Err(e) => Err(ClassReaderError::from(e)),
    }
}

fn read_double_constant(buffer: &mut Buffer) -> (r: Result<ConstantPoolEntry, ClassReaderError>)
    ensures
        final(buffer)@.bytes == old(buffer)@.bytes,
        agrees(
            r,
            final(buffer)@.position,
            parsed_constant_body(old(buffer)@.bytes, old(buffer)@.position, 6),
        ),
{
    match buffer.read_double_bits() {
        Ok(value) => Ok(ConstantPoolEntry::Double(value)),
        Err(e) => Err(ClassReaderError::from(e)),
    }
}

/// Reads the two indices of a constant that holds two.
fn read_index_pair(buffer: &mut Buffer) -> (r: Result<(u16, u16), ClassReaderError>)
    ensures
        final(buffer)@.bytes == old(buffer)@.bytes,
        agrees(r, final(buffer)@.position, parsed_pair(old(buffer)@.bytes, old(buffer)@.position)),
{
    let first = match read_u16(buffer) {
        Ok(value) => value,
        Err(e) => {
            return Err(e);
        },
    };
    match read_u16(buffer) {
        Ok(second) => Ok((first, second)),
        Err(e) => Err(e),
    }
}

fn read_class_reference_constant(buffer: &mut Buffer) -> (r: Result<
    ConstantPoolEntry,
    ClassReaderError,
>)
    ensures
        final(buffer)@.bytes == old(buffer)@.bytes,
        agrees(
            r,
            final(buffer)@.position,
            parsed_constant_body(old(buffer)@.bytes, old(buffer)@.position, 7),
        ),
{
    match read_u16(buffer) {
        Ok(fqn_string_index) => Ok(ConstantPoolEntry::ClassReference(fqn_string_index)),
        Err(e) => Err(e),
    }
}

fn read_string_reference_constant(buffer: &mut Buffer) -> (r: Result<
    ConstantPoolEntry,
    ClassReaderError,
>)
    ensures
        final(buffer)@.bytes == old(buffer)@.bytes,
        agrees(
            r,
            final(buffer)@.position,
            parsed_constant_body(old(buffer)@.bytes, old(buffer)@.position, 8),
        ),
{
    match read_u16(buffer) {
        Ok(string_index) => Ok(ConstantPoolEntry::StringReference(string_index)),
        Err(e) => Err(e),
    }
}

fn read_field_reference_constant(buffer: &mut Buffer) -> (r: Result<
    ConstantPoolEntry,
    ClassReaderError,
>)
    ensures
        final(buffer)@.bytes == old(buffer)@.bytes,
        agrees(
            r,
            final(buffer)@.position,
            parsed_constant_body(old(buffer)@.bytes, old(buffer)@.position, 9),
        ),
{
    match read_index_pair(buffer) {
        Ok((class_reference, name_and_type)) => Ok(
            ConstantPoolEntry::FieldReference(class_reference, name_and_type),
        ),
        Err(e) => Err(e),
    }
}

fn read_method_reference_constant(buffer: &mut Buffer) -> (r: Result<
    ConstantPoolEntry,
    ClassReaderError,
>)
    ensures
        final(buffer)@.bytes == old(buffer)@.bytes,
        agrees(
            r,
            final(buffer)@.position,
            parsed_constant_body(old(buffer)@.bytes, old(buffer)@.position, 10),
        ),
{
    match read_index_pair(buffer) {
        Ok((class_reference, name_and_type)) => Ok(
            ConstantPoolEntry::MethodReference(class_reference, name_and_type),
        ),
        Err(e) => Err(e),
    }
}

fn read_interface_method_reference_constant(buffer: &mut Buffer) -> (r: Result<
    ConstantPoolEntry,
    ClassReaderError,
>)
    ensures
        final(buffer)@.bytes == old(buffer)@.bytes,
        agrees(
            r,
            final(buffer)@.position,
            parsed_constant_body(old(buffer)@.bytes, old(buffer)@.position, 11),
        ),
{
    match read_index_pair(buffer) {
        Ok((class_reference, name_and_type)) => Ok(
            ConstantPoolEntry::InterfaceMethodReference(class_reference, name_and_type),
        ),
        Err(e) => Err(e),
    }
}

fn read_name_and_type_constant(buffer: &mut Buffer) -> (r: Result<
    ConstantPoolEntry,
    ClassReaderError,
>)
    ensures
        final(buffer)@.bytes == old(buffer)@.bytes,
        agrees(
            r,
            final(buffer)@.position,
            parsed_constant_body(old(buffer)@.bytes, old(buffer)@.position, 12),
        ),
{
    match read_index_pair(buffer) {
        Ok((name, type_descriptor)) => Ok(
            ConstantPoolEntry::NameAndTypeDescriptor(name, type_descriptor),
        ),
        Err(e) => Err(e),
    }
}

fn read_method_handle_constant(buffer: &mut Buffer) -> (r: Result<
    ConstantPoolEntry,
    ClassReaderError,
>)
    ensures
        final(buffer)@.bytes == old(buffer)@.bytes,
        agrees(
            r,
            final(buffer)@.position,
            parsed_constant_body(old(buffer)@.bytes, old(buffer)@.position, 15),
        ),
{
    let kind = match read_u8(buffer) {
        Ok(value) => value,
        Err(e) => {
            return Err(e);
        },
    };
    match read_u16(buffer) {
        Ok(reference) => Ok(ConstantPoolEntry::MethodHandle(kind, reference)),
        Err(e) => Err(e),
    }
}

fn read_method_type_constant(buffer: &mut Buffer) -> (r: Result<
    ConstantPoolEntry,
    ClassReaderError,
>)
    ensures
        final(buffer)@.bytes == old(buffer)@.bytes,
        agrees(
            r,
            final(buffer)@.position,
            parsed_constant_body(old(buffer)@.bytes, old(buffer)@.position, 16),
        ),
{
    match read_u16(buffer) {
        Ok(descriptor) => Ok(ConstantPoolEntry::MethodType(descriptor)),
        Err(e) => Err(e),
    }
}

fn read_dynamic_constant(buffer: &mut Buffer) -> (r: Result<ConstantPoolEntry, ClassReaderError>)
    ensures
        final(buffer)@.bytes == old(buffer)@.bytes,
        agrees(
            r,
            final(buffer)@.position,
            parsed_constant_body(old(buffer)@.bytes, old(buffer)@.position, 17),
        ),
{
    match read_index_pair(buffer) {
        Ok((bootstrap_method, name_and_type)) => Ok(
            ConstantPoolEntry::DynamicInfo(bootstrap_method, name_and_type),
        ),
        Err(e) => Err(e),
    }
}

fn read_invoke_dynamic_constant(buffer: &mut Buffer) -> (r: Result<
    ConstantPoolEntry,
    ClassReaderError,
>)
    ensures
        final(buffer)@.bytes == old(buffer)@.bytes,
        agrees(
            r,
            final(buffer)@.position,
            parsed_constant_body(old(buffer)@.bytes, old(buffer)@.position, 18),
        ),
{
    match read_index_pair(buffer) {
        Ok((bootstrap_method, name_and_type)) => Ok(
            ConstantPoolEntry::InvokeDynamicInfo(bootstrap_method, name_and_type),
        ),
        Err(e) => Err(e),
    }
}

fn read_module_constant(buffer: &mut Buffer) -> (r: Result<ConstantPoolEntry, ClassReaderError>)
    ensures
        final(buffer)@.bytes == old(buffer)@.bytes,
        agrees(
            r,
            final(buffer)@.position,
            parsed_constant_body(old(buffer)@.bytes, old(buffer)@.position, 19),
        ),
{
    match read_u16(buffer) {
        Ok(name) => Ok(ConstantPoolEntry::ModuleInfo(name)),
        Err(e) => Err(e),
    }
}

fn read_package_constant(buffer: &mut Buffer) -> (r: Result<ConstantPoolEntry, ClassReaderError>)
    ensures
        final(buffer)@.bytes == old(buffer)@.bytes,
        agrees(
            r,
            final(buffer)@.position,
            parsed_constant_body(old(buffer)@.bytes, old(buffer)@.position, 20),
        ),
{
    match read_u16(buffer) {
        Ok(name) => Ok(ConstantPoolEntry::PackageInfo(name)),
        Err(e) => Err(e),
    }
}

/// The error for a tag that stands for no kind of constant.
fn unknown_tag_error(tag: u8, index: usize) -> (error: ClassReaderError)
    requires
        index <= u64::MAX,
    ensures
        error@ == invalid_data(unknown_tag_details(tag, index as int)),
{
    let tag_text = unsigned_to_upper_hex(tag as u64);
    let mut details = join2("Unknown constant type: 0x", tag_text.as_str());
    details.append(" at index ");
    let index_text = unsigned_to_text(index as u64);
    details.append(index_text.as_str());
    ClassReaderError::invalid_class_data(details)
}

/// Reads one constant: its tag, then what the tag stands for. `slots` is
/// the number of slots that the constants before it take.
fn read_constant(buffer: &mut Buffer, slots: usize) -> (r: Result<
    ConstantPoolEntry,
    ClassReaderError,
>)
    requires
        slots < usize::MAX,
    ensures
        final(buffer)@.bytes == old(buffer)@.bytes,
        agrees(
            r,
            final(buffer)@.position,
            parsed_constant(old(buffer)@.bytes, old(buffer)@.position, slots as int),
        ),
{
    proof {
        reveal(parsed_constant);
    }
    let tag = match read_u8(buffer) {
        Ok(value) => value,
        Err(e) => {
            return Err(e);
        },
    };
    match tag {
        1 => read_utf8_constant(buffer),
        3 => read_int_constant(buffer),
        4 => read_float_constant(buffer),
        5 => read_long_constant(buffer),
        6 => read_double_constant(buffer),
        7 => read_class_reference_constant(buffer),
        8 => read_string_reference_constant(buffer),
        9 => read_field_reference_constant(buffer),
        10 => read_method_reference_constant(buffer),
        11 => read_interface_method_reference_constant(buffer),
        12 => read_name_and_type_constant(buffer),
        15 => read_method_handle_constant(buffer),
        16 => read_method_type_constant(buffer),
        17 => read_dynamic_constant(buffer),
        18 => read_invoke_dynamic_constant(buffer),
        19 => read_module_constant(buffer),
        20 => read_package_constant(buffer),
        _ => Err(unknown_tag_error(tag, slots + 1)),
    }
}

/// Reads the constant pool: the count, then constants until the pool has
/// one slot less than the count says, or one more where the last constant
/// is a long or a double.
pub fn read_constants(buffer: &mut Buffer) -> (r: Result<ConstantPool, ClassReaderError>)
    ensures
        final(buffer)@.bytes == old(buffer)@.bytes,
        agrees(r, final(buffer)@.position, parsed_pool(old(buffer)@.bytes, old(buffer)@.position)),
        r matches Ok(pool) ==> well_formed(pool@),
{
    let declared = match read_u16(buffer) {
        Ok(value) => value,
        Err(e) => {
            return Err(e);
        },
    };
    if declared == 0 {
        return Err(
            ClassReaderError::invalid_class_data(
                String::from_str("invalid constant pool count: 0"),
            ),
        );
    }
    let constants_count = (declared - 1) as usize;
    let mut constants = ConstantPool::new();
    while constants.slot_count() < constants_count
        invariant
            buffer@.bytes == old(buffer)@.bytes,
            well_formed(constants@),
            constants_count < 0x1_0000,
            constants@.len() <= constants_count + 1,
            parsed_constants(
                buffer@.bytes,
                buffer@.position,
                constants_count as int,
                constants@,
            ) == parsed_pool(old(buffer)@.bytes, old(buffer)@.position),
        decreases constants_count + 1 - constants@.len(),
    {
        let constant = match read_constant(buffer, constants.slot_count()) {
            Ok(constant) => constant,
            Err(e) => {
                return Err(e);
            },
        };
        constants.add(constant);
    }
    Ok(constants)
}

/// Reads the access flags of the class.
pub fn read_access_flags(buffer: &mut Buffer) -> (r: Result<ClassAccessFlags, ClassReaderError>)
    ensures
        final(buffer)@.bytes == old(buffer)@.bytes,
        agrees(
            r,
            final(buffer)@.position,
            parsed_class_flags(old(buffer)@.bytes, old(buffer)@.position),
        ),
{
    let num = match read_u16(buffer) {
        Ok(value) => value,
        Err(e) => {
            return Err(e);
        },
    };
    match ClassAccessFlags::from_bits(num) {
        Some(flags) => Ok(flags),
        None => {
            let number = unsigned_to_text(num as u64);
            Err(
                ClassReaderError::invalid_class_data(
                    join2("invalid class flags: ", number.as_str()),
                ),
            )
        },
    }
}

/// Resolves the constant with the given index to its text.
pub fn read_string_reference<F: Fn(FloatBits) -> String>(
    constants: &ConstantPool,
    index: u16,
    render: &F,
) -> (r: Result<String, ClassReaderError>)
    requires
        renders(*render),
    ensures
        agrees_on_value(r, constant_text(constants@, number_texts(*render), index)),
{
    match constants.text_of(index, render) {
        Ok(text) => Ok(text),
        Err(e) => Err(ClassReaderError::from(e)),
    }
}

/// Reads the index of a constant and resolves it to the name of a class.
fn read_class_reference<F: Fn(FloatBits) -> String>(
    buffer: &mut Buffer,
    constants: &ConstantPool,
    render: &F,
) -> (r: Result<String, ClassReaderError>)
    requires
        renders(*render),
    ensures
        final(buffer)@.bytes == old(buffer)@.bytes,
        agrees(
            r,
            final(buffer)@.position,
            parsed_name(
                old(buffer)@.bytes,
                old(buffer)@.position,
                constants@,
                number_texts(*render),
            ),
        ),
{
    let class_constant_idx = match read_u16(buffer) {
        Ok(value) => value,
        Err(e) => {
            return Err(e);
        },
    };
    read_string_reference(constants, class_constant_idx, render)
}

/// Reads the index of a constant and resolves it to the name of a class,
/// unless the index is zero, which stands for no class.
fn read_class_reference_optional<F: Fn(FloatBits) -> String>(
    buffer: &mut Buffer,
    constants: &ConstantPool,
    render: &F,
) -> (r: Result<Option<String>, ClassReaderError>)
    requires
        renders(*render),
    ensures
        final(buffer)@.bytes == old(buffer)@.bytes,
        agrees(
            r,
            final(buffer)@.position,
            parsed_optional_name(
                old(buffer)@.bytes,
                old(buffer)@.position,
                constants@,
                number_texts(*render),
            ),
        ),
{
    let super_constant_idx = match read_u16(buffer) {
        Ok(value) => value,
        Err(e) => {
            return Err(e);
        },
    };
    if super_constant_idx == 0 {
        Ok(None)
    } else {
        match read_string_reference(constants, super_constant_idx, render) {
            Ok(name) => Ok(Some(name)),
            Err(e) => Err(e),
        }
    }
}

/// Reads the interfaces that the class implements.
fn read_interfaces<F: Fn(FloatBits) -> String>(
    buffer: &mut Buffer,
    constants: &ConstantPool,
    render: &F,
) -> (r: Result<Vec<String>, ClassReaderError>)
    requires
        renders(*render),
    ensures
        final(buffer)@.bytes == old(buffer)@.bytes,
        agrees(
            r,
            final(buffer)@.position,
            parsed_interfaces(
                old(buffer)@.bytes,
                old(buffer)@.position,
                constants@,
                number_texts(*render),
            ),
        ),
{
    let interfaces_count = match read_u16(buffer) {
        Ok(value) => value,
        Err(e) => {
            return Err(e);
        },
    };
    let mut interfaces: Vec<String> = Vec::new();
    assert(interfaces.deep_view() =~= Seq::<Seq<char>>::empty());
    let mut i: u16 = 0;
    while i < interfaces_count
        invariant
            renders(*render),
            buffer@.bytes == old(buffer)@.bytes,
            i <= interfaces_count,
            parsed_names(
                buffer@.bytes,
                buffer@.position,
                constants@,
                number_texts(*render),
                (interfaces_count - i) as nat,
                interfaces.deep_view(),
            ) == parsed_interfaces(
                old(buffer)@.bytes,
                old(buffer)@.position,
                constants@,
                number_texts(*render),
            ),
        decreases interfaces_count - i,
    {
        let name = match read_class_reference(buffer, constants, render) {
            Ok(name) => name,
            Err(e) => {
                return Err(e);
            },
        };
        let ghost done = interfaces.deep_view();
        interfaces.push(name);
        assert(interfaces.deep_view() =~= done.push(name@));
        i = i + 1;
    }
    Ok(interfaces)
}

/// Reads one attribute: its name and its bytes.
fn read_raw_attribute<F: Fn(FloatBits) -> String>(
    buffer: &mut Buffer,
    constants: &ConstantPool,
    render: &F,
) -> (r: Result<Attribute, ClassReaderError>)
    requires
        renders(*render),
    ensures
        final(buffer)@.bytes == old(buffer)@.bytes,
        agrees(
            r,
            final(buffer)@.position,
            parsed_attribute(
                old(buffer)@.bytes,
                old(buffer)@.position,
                constants@,
                number_texts(*render),
            ),
        ),
{
    let name = match read_class_reference(buffer, constants, render) {
        Ok(name) => name,
        Err(e) => {
            return Err(e);
        },
    };
    let len = match read_u32(buffer) {
        Ok(value) => value,
        Err(e) => {
            return Err(e);
        },
    };
    match buffer.read_bytes(len as usize) {
        Ok(bytes) => Ok(Attribute { name, info: slice_to_vec(bytes) }),
        Err(e) => Err(ClassReaderError::from(e)),
    }
}

/// Reads a list of attributes.
fn read_raw_attributes<F: Fn(FloatBits) -> String>(
    buffer: &mut Buffer,
    constants: &ConstantPool,
    render: &F,
) -> (r: Result<Vec<Attribute>, ClassReaderError>)
    requires
        renders(*render),
    ensures
        final(buffer)@.bytes == old(buffer)@.bytes,
        agrees(
            r,
            final(buffer)@.position,
            parsed_attributes(
                old(buffer)@.bytes,
                old(buffer)@.position,
                constants@,
                number_texts(*render),
            ),
        ),
{
    let attributes_count = match read_u16(buffer) {
        Ok(value) => value,
        Err(e) => {
            return Err(e);
        },
    };
    let mut attributes: Vec<Attribute> = Vec::new();
    assert(attributes.deep_view() =~= Seq::<AttributeView>::empty());
    let mut i: u16 = 0;
    while i < attributes_count
        invariant
            renders(*render),
            buffer@.bytes == old(buffer)@.bytes,
            i <= attributes_count,
            parsed_attribute_list(
                buffer@.bytes,
                buffer@.position,
                constants@,
                number_texts(*render),
                (attributes_count - i) as nat,
                attributes.deep_view(),
            ) == parsed_attributes(
                old(buffer)@.bytes,
                old(buffer)@.position,
                constants@,
                number_texts(*render),
            ),
        decreases attributes_count - i,
    {
        let attribute = match read_raw_attribute(buffer, constants, render) {
            Ok(attribute) => attribute,
            Err(e) => {
                return Err(e);
            },
        };
        let ghost done = attributes.deep_view();
        let ghost added = attribute.deep_view();
        attributes.push(attribute);
        assert(attributes.deep_view() =~= done.push(added));
        i = i + 1;
    }
    Ok(attributes)
}

/// Reads the access flags of a field.
fn read_field_flags(buffer: &mut Buffer) -> (r: Result<FieldFlags, ClassReaderError>)
    ensures
        final(buffer)@.bytes == old(buffer)@.bytes,
        agrees(
            r,
            final(buffer)@.position,
            parsed_field_flags(old(buffer)@.bytes, old(buffer)@.position),
        ),
{
    let field_flags_bits = match read_u16(buffer) {
        Ok(value) => value,
        Err(e) => {
            return Err(e);
        },
    };
    match FieldFlags::from_bits(field_flags_bits) {
        Some(flags) => Ok(flags),
        None => {
            let number = unsigned_to_text(field_flags_bits as u64);
            Err(
                ClassReaderError::invalid_class_data(
                    join2("invalid field flags: ", number.as_str()),
                ),
            )
        },
    }
}

/// Reads the access flags of a method.
fn read_method_flags(buffer: &mut Buffer) -> (r: Result<MethodFlags, ClassReaderError>)
    ensures
        final(buffer)@.bytes == old(buffer)@.bytes,
        agrees(
            r,
            final(buffer)@.position,
            parsed_method_flags(old(buffer)@.bytes, old(buffer)@.position),
        ),
{
    let method_flags_bits = match read_u16(buffer) {
        Ok(value) => value,
        Err(e) => {
            return Err(e);
        },
    };
    match MethodFlags::from_bits(method_flags_bits) {
        Some(flags) => Ok(flags),
        None => {
            let number = unsigned_to_text(method_flags_bits as u64);
            Err(
                ClassReaderError::invalid_class_data(
                    join2("invalid method flags: ", number.as_str()),
                ),
            )
        },
    }
}

/// The position of the first attribute named `ConstantValue`, or the
/// number of attributes if there is none.
fn find_constant_value(attributes: &Vec<Attribute>) -> (position: usize)
    ensures
        position == constant_value_position(attributes.deep_view(), 0),
        position <= attributes.len(),
{
    let wanted = String::from_str("ConstantValue");
    let mut i: usize = 0;
    while i < attributes.len()
        invariant
            i <= attributes.len(),
            wanted@ == "ConstantValue"@,
            constant_value_position(attributes.deep_view(), i as int) == constant_value_position(
                attributes.deep_view(),
                0,
            ),
        decreases attributes.len() - i,
    {
        if attributes[i].name == wanted {
            return i;
        }
        i = i + 1;
    }
    i
}

/// The constant value that an attribute named `ConstantValue` gives. The
/// constant that it points at decides the type.
pub fn constant_value_of_attribute<F: Fn(FloatBits) -> String>(
    constants: &ConstantPool,
    attribute: &Attribute,
    render: &F,
) -> (r: Result<FieldConstantValue, ClassReaderError>)
    requires
        renders(*render),
    ensures
        agrees_on_value(r, constant_value_of(constants@, number_texts(*render), attribute.info@)),
{
    if attribute.info.len() != 2 {
        return Err(
            ClassReaderError::invalid_class_data(
                String::from_str("invalid attribute of type ConstantValue"),
            ),
        );
    }
    let constant_index = (attribute.info[0] as u16) * 0x100 + (attribute.info[1] as u16);
    let entry = match constants.get(constant_index) {
        Ok(entry) => entry,
        Err(e) => {
            return Err(ClassReaderError::from(e));
        },
    };
    match entry {
        ConstantPoolEntry::StringReference(v) => {
            match read_string_reference(constants, *v, render) {
                Ok(referred_string) => Ok(FieldConstantValue::String(referred_string)),
                Err(e) => Err(e),
            }
        },
        ConstantPoolEntry::Integer(v) => Ok(FieldConstantValue::Int(*v)),
        ConstantPoolEntry::Float(v) => Ok(FieldConstantValue::Float(*v)),
        ConstantPoolEntry::Long(v) => Ok(FieldConstantValue::Long(*v)),
        ConstantPoolEntry::Double(v) => Ok(FieldConstantValue::Double(*v)),
        v => {
            let shown = v.debug_text();
            Err(
                ClassReaderError::invalid_class_data(
                    join2("invalid type for ConstantValue: ", shown.as_str()),
                ),
            )
        },
    }
}

/// The constant value of a field with the given attributes: that of the
/// first attribute named `ConstantValue`, if there is one.
pub fn extract_constant_value<F: Fn(FloatBits) -> String>(
    constants: &ConstantPool,
    raw_attributes: Vec<Attribute>,
    render: &F,
) -> (r: Result<Option<FieldConstantValue>, ClassReaderError>)
    requires
        renders(*render),
    ensures
        agrees_on_value(
            r,
            constant_value_among(constants@, number_texts(*render), raw_attributes.deep_view()),
        ),
{
    let position = find_constant_value(&raw_attributes);
    let found = if position < raw_attributes.len() {
        Some(constant_value_of_attribute(constants, &raw_attributes[position], render))
    } else {
        None
    };
    invert(found)
}

/// Reads one field.
fn read_field<F: Fn(FloatBits) -> String>(
    buffer: &mut Buffer,
    constants: &ConstantPool,
    render: &F,
) -> (r: Result<ClassFileField, ClassReaderError>)
    requires
        renders(*render),
    ensures
        final(buffer)@.bytes == old(buffer)@.bytes,
        agrees(
            r,
            final(buffer)@.position,
            parsed_field(
                old(buffer)@.bytes,
                old(buffer)@.position,
                constants@,
                number_texts(*render),
            ),
        ),
{
    let flags = match read_field_flags(buffer) {
        Ok(flags) => flags,
        Err(e) => {
            return Err(e);
        },
    };
    let name = match read_class_reference(buffer, constants, render) {
        Ok(name) => name,
        Err(e) => {
            return Err(e);
        },
    };
    let type_descriptor = match read_class_reference(buffer, constants, render) {
        Ok(type_descriptor) => type_descriptor,
        Err(e) => {
            return Err(e);
        },
    };
    let raw_attributes = match read_raw_attributes(buffer, constants, render) {
        Ok(raw_attributes) => raw_attributes,
        Err(e) => {
            return Err(e);
        },
    };
    match extract_constant_value(constants, raw_attributes, render) {
        Ok(constant_value) => Ok(ClassFileField { flags, name, type_descriptor, constant_value }),
        Err(e) => Err(e),
    }
}

/// Reads the fields of the class.
fn read_fields<F: Fn(FloatBits) -> String>(
    buffer: &mut Buffer,
    constants: &ConstantPool,
    render: &F,
) -> (r: Result<Vec<ClassFileField>, ClassReaderError>)
    requires
        renders(*render),
    ensures
        final(buffer)@.bytes == old(buffer)@.bytes,
        agrees(
            r,
            final(buffer)@.position,
            parsed_fields(
                old(buffer)@.bytes,
                old(buffer)@.position,
                constants@,
                number_texts(*render),
            ),
        ),
{
    let fields_count = match read_u16(buffer) {
        Ok(value) => value,
        Err(e) => {
            return Err(e);
        },
    };
    let mut fields: Vec<ClassFileField> = Vec::new();
    assert(fields.deep_view() =~= Seq::<FieldView>::empty());
    let mut i: u16 = 0;
    while i < fields_count
        invariant
            renders(*render),
            buffer@.bytes == old(buffer)@.bytes,
            i <= fields_count,
            parsed_field_list(
                buffer@.bytes,
                buffer@.position,
                constants@,
                number_texts(*render),
                (fields_count - i) as nat,
                fields.deep_view(),
            ) == parsed_fields(
                old(buffer)@.bytes,
                old(buffer)@.position,
                constants@,
                number_texts(*render),
            ),
        decreases fields_count - i,
    {
        let field = match read_field(buffer, constants, render) {
            Ok(field) => field,
            Err(e) => {
                return Err(e);
            },
        };
        let ghost done = fields.deep_view();
        let ghost added = field.deep_view();
        fields.push(field);
        assert(fields.deep_view() =~= done.push(added));
        i = i + 1;
    }
    Ok(fields)
}

/// Reads one method.
fn read_method<F: Fn(FloatBits) -> String>(
    buffer: &mut Buffer,
    constants: &ConstantPool,
    render: &F,
) -> (r: Result<ClassFileMethod, ClassReaderError>)
    requires
        renders(*render),
    ensures
        final(buffer)@.bytes == old(buffer)@.bytes,
        agrees(
            r,
            final(buffer)@.position,
            parsed_method(
                old(buffer)@.bytes,
                old(buffer)@.position,
                constants@,
                number_texts(*render),
            ),
        ),
{
    let flags = match read_method_flags(buffer) {
        Ok(flags) => flags,
        Err(e) => {
            return Err(e);
        },
    };
    let name = match read_class_reference(buffer, constants, render) {
        Ok(name) => name,
        Err(e) => {
            return Err(e);
        },
    };
    let type_descriptor = match read_class_reference(buffer, constants, render) {
        Ok(type_descriptor) => type_descriptor,
        Err(e) => {
            return Err(e);
        },
    };
    match read_raw_attributes(buffer, constants, render) {
        Ok(attributes) => Ok(ClassFileMethod { flags, name, type_descriptor, attributes }),
        Err(e) => Err(e),
    }
}

/// Reads the methods of the class.
fn read_methods<F: Fn(FloatBits) -> String>(
    buffer: &mut Buffer,
    constants: &ConstantPool,
    render: &F,
) -> (r: Result<Vec<ClassFileMethod>, ClassReaderError>)
    requires
        renders(*render),
    ensures
        final(buffer)@.bytes == old(buffer)@.bytes,
        agrees(
            r,
            final(buffer)@.position,
            parsed_methods(
                old(buffer)@.bytes,
                old(buffer)@.position,
                constants@,
                number_texts(*render),
            ),
        ),
{
    let methods_count = match read_u16(buffer) {
        Ok(value) => value,
        Err(e) => {
            return Err(e);
        },
    };
    let mut methods: Vec<ClassFileMethod> = Vec::new();
    assert(methods.deep_view() =~= Seq::<MethodView>::empty());
    let mut i: u16 = 0;
    while i < methods_count
        invariant
            renders(*render),
            buffer@.bytes == old(buffer)@.bytes,
            i <= methods_count,
            parsed_method_list(
                buffer@.bytes,
                buffer@.position,
                constants@,
                number_texts(*render),
                (methods_count - i) as nat,
                methods.deep_view(),
            ) == parsed_methods(
                old(buffer)@.bytes,
                old(buffer)@.position,
                constants@,
                number_texts(*render),
            ),
        decreases methods_count - i,
    {
        let method = match read_method(buffer, constants, render) {
            Ok(method) => method,
            Err(e) => {
                return Err(e);
            },
        };
        let ghost done = methods.deep_view();
        let ghost added = method.deep_view();
        methods.push(method);
        assert(methods.deep_view() =~= done.push(added));
        i = i + 1;
    }
    Ok(methods)
}

/// Reads a class file from its bytes.
///
/// The magic number, the version and the constant pool come first; then
/// the flags of the class, its name, the name of its superclass, its
/// interfaces, its fields and its methods, with every name resolved
/// against the pool. Reading stops at the first error, and whatever
/// follows the methods is not read. Floating-point constants are rendered,
/// where a name leads to one, with `render`.
pub fn read_buffer<F: Fn(FloatBits) -> String>(buf: &[u8], render: &F) -> (r: Result<
    ClassFile,
    ClassReaderError,
>)
    requires
        renders(*render),
    ensures
        agrees_on_value(r, parsed_class(buf@, number_texts(*render))),
        r matches Ok(class) ==> well_formed(class.constants@),
{
    let mut buffer = Buffer::new(buf);
    match check_magic_number(&mut buffer) {
        Ok(_) => {},
        Err(e) => {
            return Err(e);
        },
    }
    let version = match read_version(&mut buffer) {
        Ok(version) => version,
        Err(e) => {
            return Err(e);
        },
    };
    let constants = match read_constants(&mut buffer) {
        Ok(constants) => constants,
        Err(e) => {
            return Err(e);
        },
    };
    let flags = match read_access_flags(&mut buffer) {
        Ok(flags) => flags,
        Err(e) => {
            return Err(e);
        },
    };
    let name = match read_class_reference(&mut buffer, &constants, render) {
        Ok(name) => name,
        Err(e) => {
            return Err(e);
        },
    };
    let superclass = match read_class_reference_optional(&mut buffer, &constants, render) {
        Ok(superclass) => superclass,
        Err(e) => {
            return Err(e);
        },
    };
    let interfaces = match read_interfaces(&mut buffer, &constants, render) {
        Ok(interfaces) => interfaces,
        Err(e) => {
            return Err(e);
        },
    };
    let fields = match read_fields(&mut buffer, &constants, render) {
        Ok(fields) => fields,
        Err(e) => {
            return Err(e);
        },
    };
    let methods = match read_methods(&mut buffer, &constants, render) {
        Ok(methods) => methods,
        Err(e) => {
            return Err(e);
        },
    };
    Ok(
        ClassFile {
            version,
            constants,
            flags,
            name,
            superclass,
            interfaces,
            fields,
            methods,
            deprecated: false,
            source_file: None,
        },
    )
}

} // verus!
