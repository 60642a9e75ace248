//! What happens to a class file that is cut short: reading it meets the end
//! of the data, and nothing else, as soon as it needs a byte that is gone.

use crate::class_file::{AttributeView, ClassFileView, FieldView, MethodView};
use crate::class_file_version::ClassFileVersion;
use crate::class_format::{
    parsed_attribute, parsed_attribute_list, parsed_attributes, parsed_class, parsed_class_flags,
    parsed_class_with_end, parsed_constant, parsed_constants, parsed_field, parsed_field_flags,
    parsed_field_list, parsed_fields, parsed_interfaces, parsed_magic, parsed_members,
    parsed_method, parsed_method_flags, parsed_method_list, parsed_methods, parsed_name,
    parsed_names, parsed_optional_name, parsed_pool, parsed_u16, parsed_u32,
    parsed_utf8_constant, parsed_version, Parsed,
};
use crate::class_reader_error::ClassReaderErrorView;
use crate::constant_pool::{slots_of, Slot};
use crate::text::NumberTexts;
use vstd::prelude::*;

verus! {

/// The first `count` of the bytes.
pub open spec fn cut(bytes: Seq<u8>, count: int) -> Seq<u8> {
    bytes.subrange(0, count)
}

/// How a read at `at` of bytes cut to `count` relates to the same read of
/// all the bytes, where that succeeds: it does not go backwards; it gives
/// the same where it ends within the cut; and it fails for the end of the
/// data where it does not.
pub open spec fn reads_alike<T>(whole: Parsed<T>, short: Parsed<T>, at: int, count: int) -> bool {
    whole matches Ok((_, next)) ==> {
        &&& at <= next
        &&& at <= count ==> if next <= count {
            short == whole
        } else {
            short == Err::<(T, int), _>(ClassReaderErrorView::UnexpectedEndOfData)
        }
    }
}

proof fn utf8_constant_reads_alike(bytes: Seq<u8>, at: int, count: int)
    requires
        0 <= at,
        0 <= count <= bytes.len(),
    ensures
        reads_alike(
            parsed_utf8_constant(bytes, at),
            parsed_utf8_constant(cut(bytes, count), at),
            at,
            count,
        ),
{
    if let Ok((len, start)) = parsed_u16(bytes, at) {
        if start + len <= count {
            assert(cut(bytes, count).subrange(start, start + len) =~= bytes.subrange(
                start,
                start + len,
            ));
        }
    }
}

proof fn constant_reads_alike(bytes: Seq<u8>, at: int, slots: int, count: int)
    requires
        0 <= at,
        0 <= count <= bytes.len(),
    ensures
        reads_alike(
            parsed_constant(bytes, at, slots),
            parsed_constant(cut(bytes, count), at, slots),
            at,
            count,
        ),
{
    reveal(parsed_constant);
    utf8_constant_reads_alike(bytes, at + 1, count);
}

proof fn constants_read_alike(bytes: Seq<u8>, at: int, limit: int, pool: Seq<Slot>, count: int)
    requires
        0 <= at,
        0 <= count <= bytes.len(),
    ensures
        reads_alike(
            parsed_constants(bytes, at, limit, pool),
            parsed_constants(cut(bytes, count), at, limit, pool),
            at,
            count,
        ),
    decreases limit + 1 - pool.len(),
{
    if pool.len() < limit {
        constant_reads_alike(bytes, at, pool.len() as int, count);
        if let Ok((constant, next)) = parsed_constant(bytes, at, pool.len() as int) {
            assert((pool + slots_of(constant)).len() > pool.len());
            constants_read_alike(bytes, next, limit, pool + slots_of(constant), count);
        }
    }
}

proof fn pool_reads_alike(bytes: Seq<u8>, at: int, count: int)
    requires
        0 <= at,
        0 <= count <= bytes.len(),
    ensures
        reads_alike(parsed_pool(bytes, at), parsed_pool(cut(bytes, count), at), at, count),
{
    if let Ok((declared, next)) = parsed_u16(bytes, at) {
        if declared != 0 {
            constants_read_alike(bytes, next, declared - 1, Seq::empty(), count);
        }
    }
}

proof fn names_read_alike(
    bytes: Seq<u8>,
    at: int,
    pool: Seq<Slot>,
    numbers: NumberTexts,
    remaining: nat,
    done: Seq<Seq<char>>,
    count: int,
)
    requires
        0 <= at,
        0 <= count <= bytes.len(),
    ensures
        reads_alike(
            parsed_names(bytes, at, pool, numbers, remaining, done),
            parsed_names(cut(bytes, count), at, pool, numbers, remaining, done),
            at,
            count,
        ),
    decreases remaining,
{
    if remaining > 0 {
        if let Ok((name, next)) = parsed_name(bytes, at, pool, numbers) {
            names_read_alike(
                bytes,
                next,
                pool,
                numbers,
                (remaining - 1) as nat,
                done.push(name),
                count,
            );
        }
    }
}

proof fn attribute_reads_alike(
    bytes: Seq<u8>,
    at: int,
    pool: Seq<Slot>,
    numbers: NumberTexts,
    count: int,
)
    requires
        0 <= at,
        0 <= count <= bytes.len(),
    ensures
        reads_alike(
            parsed_attribute(bytes, at, pool, numbers),
            parsed_attribute(cut(bytes, count), at, pool, numbers),
            at,
            count,
        ),
{
    if let Ok((name, next)) = parsed_name(bytes, at, pool, numbers) {
        if let Ok((len, start)) = parsed_u32(bytes, next) {
            if start + len <= count {
                assert(cut(bytes, count).subrange(start, start + len) =~= bytes.subrange(
                    start,
                    start + len,
                ));
            }
        }
    }
}

proof fn attribute_list_reads_alike(
    bytes: Seq<u8>,
    at: int,
    pool: Seq<Slot>,
    numbers: NumberTexts,
    remaining: nat,
    done: Seq<AttributeView>,
    count: int,
)
    requires
        0 <= at,
        0 <= count <= bytes.len(),
    ensures
        reads_alike(
            parsed_attribute_list(bytes, at, pool, numbers, remaining, done),
            parsed_attribute_list(cut(bytes, count), at, pool, numbers, remaining, done),
            at,
            count,
        ),
    decreases remaining,
{
    if remaining > 0 {
        attribute_reads_alike(bytes, at, pool, numbers, count);
        if let Ok((attribute, next)) = parsed_attribute(bytes, at, pool, numbers) {
            attribute_list_reads_alike(
                bytes,
                next,
                pool,
                numbers,
                (remaining - 1) as nat,
                done.push(attribute),
                count,
            );
        }
    }
}

proof fn attributes_read_alike(
    bytes: Seq<u8>,
    at: int,
    pool: Seq<Slot>,
    numbers: NumberTexts,
    count: int,
)
    requires
        0 <= at,
        0 <= count <= bytes.len(),
    ensures
        reads_alike(
            parsed_attributes(bytes, at, pool, numbers),
            parsed_attributes(cut(bytes, count), at, pool, numbers),
            at,
            count,
        ),
{
    if let Ok((size, next)) = parsed_u16(bytes, at) {
        attribute_list_reads_alike(bytes, next, pool, numbers, size as nat, Seq::empty(), count);
    }
}

proof fn field_reads_alike(
    bytes: Seq<u8>,
    at: int,
    pool: Seq<Slot>,
    numbers: NumberTexts,
    count: int,
)
    requires
        0 <= at,
        0 <= count <= bytes.len(),
    ensures
        reads_alike(
            parsed_field(bytes, at, pool, numbers),
            parsed_field(cut(bytes, count), at, pool, numbers),
            at,
            count,
        ),
{
    if let Ok((flags, next)) = parsed_field_flags(bytes, at) {
        if let Ok((name, next)) = parsed_name(bytes, next, pool, numbers) {
            if let Ok((descriptor, next)) = parsed_name(bytes, next, pool, numbers) {
                attributes_read_alike(bytes, next, pool, numbers, count);
            }
        }
    }
}

proof fn field_list_reads_alike(
    bytes: Seq<u8>,
    at: int,
    pool: Seq<Slot>,
    numbers: NumberTexts,
    remaining: nat,
    done: Seq<FieldView>,
    count: int,
)
    requires
        0 <= at,
        0 <= count <= bytes.len(),
    ensures
        reads_alike(
            parsed_field_list(bytes, at, pool, numbers, remaining, done),
            parsed_field_list(cut(bytes, count), at, pool, numbers, remaining, done),
            at,
            count,
        ),
    decreases remaining,
{
    if remaining > 0 {
        field_reads_alike(bytes, at, pool, numbers, count);
        if let Ok((field, next)) = parsed_field(bytes, at, pool, numbers) {
            field_list_reads_alike(
                bytes,
                next,
                pool,
                numbers,
                (remaining - 1) as nat,
                done.push(field),
                count,
            );
        }
    }
}

proof fn method_reads_alike(
    bytes: Seq<u8>,
    at: int,
    pool: Seq<Slot>,
    numbers: NumberTexts,
    count: int,
)
    requires
        0 <= at,
        0 <= count <= bytes.len(),
    ensures
        reads_alike(
            parsed_method(bytes, at, pool, numbers),
            parsed_method(cut(bytes, count), at, pool, numbers),
            at,
            count,
        ),
{
    if let Ok((flags, next)) = parsed_method_flags(bytes, at) {
        if let Ok((name, next)) = parsed_name(bytes, next, pool, numbers) {
            if let Ok((descriptor, next)) = parsed_name(bytes, next, pool, numbers) {
                attributes_read_alike(bytes, next, pool, numbers, count);
            }
        }
    }
}

proof fn method_list_reads_alike(
    bytes: Seq<u8>,
    at: int,
    pool: Seq<Slot>,
    numbers: NumberTexts,
    remaining: nat,
    done: Seq<MethodView>,
    count: int,
)
    requires
        0 <= at,
        0 <= count <= bytes.len(),
    ensures
        reads_alike(
            parsed_method_list(bytes, at, pool, numbers, remaining, done),
            parsed_method_list(cut(bytes, count), at, pool, numbers, remaining, done),
            at,
            count,
        ),
    decreases remaining,
{
    if remaining > 0 {
        method_reads_alike(bytes, at, pool, numbers, count);
        if let Ok((method, next)) = parsed_method(bytes, at, pool, numbers) {
            method_list_reads_alike(
                bytes,
                next,
                pool,
                numbers,
                (remaining - 1) as nat,
                done.push(method),
                count,
            );
        }
    }
}

proof fn interfaces_read_alike(
    bytes: Seq<u8>,
    at: int,
    pool: Seq<Slot>,
    numbers: NumberTexts,
    count: int,
)
    requires
        0 <= at,
        0 <= count <= bytes.len(),
    ensures
        reads_alike(
            parsed_interfaces(bytes, at, pool, numbers),
            parsed_interfaces(cut(bytes, count), at, pool, numbers),
            at,
            count,
        ),
{
    if let Ok((size, next)) = parsed_u16(bytes, at) {
        names_read_alike(bytes, next, pool, numbers, size as nat, Seq::empty(), count);
    }
}

proof fn fields_read_alike(
    bytes: Seq<u8>,
    at: int,
    pool: Seq<Slot>,
    numbers: NumberTexts,
    count: int,
)
    requires
        0 <= at,
        0 <= count <= bytes.len(),
    ensures
        reads_alike(
            parsed_fields(bytes, at, pool, numbers),
            parsed_fields(cut(bytes, count), at, pool, numbers),
            at,
            count,
        ),
{
    if let Ok((size, next)) = parsed_u16(bytes, at) {
        field_list_reads_alike(bytes, next, pool, numbers, size as nat, Seq::empty(), count);
    }
}

proof fn methods_read_alike(
    bytes: Seq<u8>,
    at: int,
    pool: Seq<Slot>,
    numbers: NumberTexts,
    count: int,
)
    requires
        0 <= at,
        0 <= count <= bytes.len(),
    ensures
        reads_alike(
            parsed_methods(bytes, at, pool, numbers),
            parsed_methods(cut(bytes, count), at, pool, numbers),
            at,
            count,
        ),
{
    if let Ok((size, next)) = parsed_u16(bytes, at) {
        method_list_reads_alike(bytes, next, pool, numbers, size as nat, Seq::empty(), count);
    }
}

/// The names of the class and of its superclass.
spec fn parsed_own_names(bytes: Seq<u8>, at: int, pool: Seq<Slot>, numbers: NumberTexts)
    -> Parsed<(u16, Seq<char>, Option<Seq<char>>)> {
    match parsed_class_flags(bytes, at) {
        Err(e) => Err(e),
        Ok((flags, next)) => match parsed_name(bytes, next, pool, numbers) {
            Err(e) => Err(e),
            Ok((name, next)) => match parsed_optional_name(bytes, next, pool, numbers) {
                Err(e) => Err(e),
                Ok((superclass, next)) => Ok(((flags, name, superclass), next)),
            },
        },
    }
}

proof fn own_names_read_alike(
    bytes: Seq<u8>,
    at: int,
    pool: Seq<Slot>,
    numbers: NumberTexts,
    count: int,
)
    requires
        0 <= at,
        0 <= count <= bytes.len(),
    ensures
        reads_alike(
            parsed_own_names(bytes, at, pool, numbers),
            parsed_own_names(cut(bytes, count), at, pool, numbers),
            at,
            count,
        ),
{
}

proof fn members_read_alike(
    bytes: Seq<u8>,
    at: int,
    version: ClassFileVersion,
    pool: Seq<Slot>,
    numbers: NumberTexts,
    count: int,
)
    requires
        0 <= at,
        0 <= count <= bytes.len(),
    ensures
        reads_alike(
            parsed_members(bytes, at, version, pool, numbers),
            parsed_members(cut(bytes, count), at, version, pool, numbers),
            at,
            count,
        ),
{
    own_names_read_alike(bytes, at, pool, numbers, count);
    if let Ok((_, next)) = parsed_own_names(bytes, at, pool, numbers) {
        interfaces_read_alike(bytes, next, pool, numbers, count);
        if let Ok((_, next)) = parsed_interfaces(bytes, next, pool, numbers) {
            fields_read_alike(bytes, next, pool, numbers, count);
            if let Ok((_, next)) = parsed_fields(bytes, next, pool, numbers) {
                methods_read_alike(bytes, next, pool, numbers, count);
            }
        }
    }
}

/// Reading the first `count` bytes of a class file relates to reading all
/// of it as every read does.
pub proof fn class_reads_alike(bytes: Seq<u8>, numbers: NumberTexts, count: int)
    requires
        0 <= count <= bytes.len(),
    ensures
        reads_alike(
            parsed_class_with_end(bytes, numbers),
            parsed_class_with_end(cut(bytes, count), numbers),
            0,
            count,
        ),
{
    if let Ok((_, next)) = parsed_magic(bytes, 0) {
        if let Ok((version, next)) = parsed_version(bytes, next) {
            pool_reads_alike(bytes, next, count);
            if let Ok((pool, next)) = parsed_pool(bytes, next) {
                members_read_alike(bytes, next, version, pool, numbers, count);
            }
        }
    }
}

/// A class file that is cut short before its end fails with the error for
/// the end of the data, wherever it is cut.
pub proof fn truncated_class_ends_unexpectedly(bytes: Seq<u8>, numbers: NumberTexts, count: int)
    requires
        0 <= count <= bytes.len(),
        parsed_class_with_end(bytes, numbers) matches Ok((_, end)) && count < end,
    ensures
        parsed_class(cut(bytes, count), numbers) == Err::<ClassFileView, _>(
            ClassReaderErrorView::UnexpectedEndOfData,
        ),
{
    class_reads_alike(bytes, numbers, count);
}

/// What follows the end of a class in the bytes does not matter: the bytes
/// up to the end, or to anywhere behind it, hold the same class.
pub proof fn bytes_behind_the_class_do_not_matter(bytes: Seq<u8>, numbers: NumberTexts, count: int)
    requires
        0 <= count <= bytes.len(),
        parsed_class_with_end(bytes, numbers) matches Ok((_, end)) && end <= count,
    ensures
        parsed_class(cut(bytes, count), numbers) == parsed_class(bytes, numbers),
{
    class_reads_alike(bytes, numbers, count);
}

} // verus!
