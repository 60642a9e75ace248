//! The constant pool of a class: a table of typed constants, addressed from
//! one, in which eight-byte constants take two slots, and the resolution of
//! its symbolic references to text.

use crate::text::{
    decimal_digits, decimal_text, join2, join3, number_texts, rendered, renders, signed_to_text,
    unsigned_to_text, FloatBits, NumberTexts,
};
use vstd::prelude::*;

verus! {

/// A constant of the pool. A floating-point constant is held as its IEEE 754
/// bit pattern. Every other number that is not a value is an index into the
/// same pool.
#[derive(Debug, PartialEq)]
pub enum ConstantPoolEntry {
    Utf8(String),
    Integer(i32),
    Float(u32),
    Long(i64),
    Double(u64),
    ClassReference(u16),
    StringReference(u16),
    FieldReference(u16, u16),
    MethodReference(u16, u16),
    InterfaceMethodReference(u16, u16),
    NameAndTypeDescriptor(u16, u16),
    MethodHandle(u8, u16),
    MethodType(u16),
    DynamicInfo(u16, u16),
    InvokeDynamicInfo(u16, u16),
    ModuleInfo(u16),
    PackageInfo(u16),
}

/// The mathematical value of a constant: text is a sequence of characters.
pub enum Constant {
    Utf8(Seq<char>),
    Integer(i32),
    Float(u32),
    Long(i64),
    Double(u64),
    ClassReference(u16),
    StringReference(u16),
    FieldReference(u16, u16),
    MethodReference(u16, u16),
    InterfaceMethodReference(u16, u16),
    NameAndTypeDescriptor(u16, u16),
    MethodHandle(u8, u16),
    MethodType(u16),
    DynamicInfo(u16, u16),
    InvokeDynamicInfo(u16, u16),
    ModuleInfo(u16),
    PackageInfo(u16),
}

impl View for ConstantPoolEntry {
    type V = Constant;

    open spec fn view(&self) -> Constant {
        match self {
            ConstantPoolEntry::Utf8(s) => Constant::Utf8(s@),
            ConstantPoolEntry::Integer(n) => Constant::Integer(*n),
            ConstantPoolEntry::Float(n) => Constant::Float(*n),
            ConstantPoolEntry::Long(n) => Constant::Long(*n),
            ConstantPoolEntry::Double(n) => Constant::Double(*n),
            ConstantPoolEntry::ClassReference(n) => Constant::ClassReference(*n),
            ConstantPoolEntry::StringReference(n) => Constant::StringReference(*n),
            ConstantPoolEntry::FieldReference(i, j) => Constant::FieldReference(*i, *j),
            ConstantPoolEntry::MethodReference(i, j) => Constant::MethodReference(*i, *j),
            ConstantPoolEntry::InterfaceMethodReference(i, j) => Constant::InterfaceMethodReference(
                *i,
                *j,
            ),
            ConstantPoolEntry::NameAndTypeDescriptor(i, j) => Constant::NameAndTypeDescriptor(
                *i,
                *j,
            ),
            ConstantPoolEntry::MethodHandle(k, j) => Constant::MethodHandle(*k, *j),
            ConstantPoolEntry::MethodType(n) => Constant::MethodType(*n),
            ConstantPoolEntry::DynamicInfo(i, j) => Constant::DynamicInfo(*i, *j),
            ConstantPoolEntry::InvokeDynamicInfo(i, j) => Constant::InvokeDynamicInfo(*i, *j),
            ConstantPoolEntry::ModuleInfo(n) => Constant::ModuleInfo(*n),
            ConstantPoolEntry::PackageInfo(n) => Constant::PackageInfo(*n),
        }
    }
}

/// One slot of the table: a constant, or the second slot of an eight-byte
/// constant, which holds nothing.
pub enum Slot {
    Entry(Constant),
    Tombstone,
}

/// Constants generally take one slot, but long and double take two. The
/// second one is never read, and is marked so that the indexes match.
#[derive(Debug)]
enum ConstantPoolPhysicalEntry {
    Entry(ConstantPoolEntry),
    MultiByteEntryTombstone,
}

/// What a physical entry stands for.
spec fn slot_of(entry: ConstantPoolPhysicalEntry) -> Slot {
    match entry {
        ConstantPoolPhysicalEntry::Entry(entry) => Slot::Entry(entry@),
        ConstantPoolPhysicalEntry::MultiByteEntryTombstone => Slot::Tombstone,
    }
}

/// The constant pool of a class. Its view is the sequence of its slots; the
/// slot at position `i` of the view has index `i + 1`.
#[derive(Debug)]
pub struct ConstantPool {
    entries: Vec<ConstantPoolPhysicalEntry>,
}

/// Signals an attempt to access a constant that does not exist: index zero,
/// an index past the last slot, or the second slot of an eight-byte constant.
#[derive(Debug, Clone, Copy, PartialEq, Eq, Structural)]
pub struct InvalidConstantPoolIndexError {
    pub index: u16,
}

/// Signals a method-handle kind outside one to nine.
#[derive(Debug, Clone, Copy, PartialEq, Eq, Structural)]
pub struct InvalidMethodHandleKindError {
    pub kind: u8,
}

/// Why a constant could not be rendered as text.
#[derive(Debug, Clone, Copy, PartialEq, Eq, Structural)]
pub enum ConstantPoolFormattingError {
    PoolIndex(InvalidConstantPoolIndexError),
    MethodHandleKind(InvalidMethodHandleKindError),
    /// The references that start at the constant with this index go deeper
    /// than the pool has slots, which happens only if they run in a circle.
    ReferenceDepthExceeded(u16),
}

/// Whether a constant takes two slots.
pub open spec fn is_wide(c: Constant) -> bool {
    c is Long || c is Double
}

/// The slots that a constant takes.
pub open spec fn slots_of(c: Constant) -> Seq<Slot> {
    if is_wide(c) {
        seq![Slot::Entry(c), Slot::Tombstone]
    } else {
        seq![Slot::Entry(c)]
    }
}

/// The constant with the given index, if the index is from one to the
/// number of slots and the slot is not a tombstone.
pub open spec fn entry_at(pool: Seq<Slot>, index: u16) -> Option<Constant> {
    if 1 <= index <= pool.len() {
        match pool[index - 1] {
            Slot::Entry(c) => Some(c),
            Slot::Tombstone => None,
        }
    } else {
        None
    }
}

/// The invariant of a pool: tombstones stand exactly behind the eight-byte
/// constants.
#[verifier::opaque]
pub open spec fn well_formed(pool: Seq<Slot>) -> bool {
    &&& forall|i: int|
        0 <= i < pool.len() && #[trigger] pool[i] is Tombstone ==> i > 0 && (pool[i
            - 1] matches Slot::Entry(c) && is_wide(c))
    &&& forall|i: int|
        0 <= i < pool.len() && (#[trigger] pool[i] matches Slot::Entry(c) && is_wide(c)) ==> i + 1
            < pool.len() && pool[i + 1] is Tombstone
}

/// The name of a method-handle kind, for the kinds one to nine.
pub open spec fn method_handle_kind_name(kind: u8) -> Option<Seq<char>> {
    if kind == 1 {
        Some("getField"@)
    } else if kind == 2 {
        Some("getStatic"@)
    } else if kind == 3 {
        Some("putField"@)
    } else if kind == 4 {
        Some("putStatic"@)
    } else if kind == 5 {
        Some("invokeVirtual"@)
    } else if kind == 6 {
        Some("invokeStatic"@)
    } else if kind == 7 {
        Some("invokeSpecial"@)
    } else if kind == 8 {
        Some("newInvokeSpecial"@)
    } else if kind == 9 {
        Some("invokeInterface"@)
    } else {
        None
    }
}

/// The error for an index at which no constant stands.
pub open spec fn index_error(index: u16) -> ConstantPoolFormattingError {
    ConstantPoolFormattingError::PoolIndex(InvalidConstantPoolIndexError { index })
}

/// The error for a method-handle kind that has no name.
pub open spec fn kind_error(kind: u8) -> ConstantPoolFormattingError {
    ConstantPoolFormattingError::MethodHandleKind(InvalidMethodHandleKindError { kind })
}

/// Two texts with a separator between them, or the first error.
pub open spec fn joined(
    first: Result<Seq<char>, ConstantPoolFormattingError>,
    separator: Seq<char>,
    second: Result<Seq<char>, ConstantPoolFormattingError>,
) -> Result<Seq<char>, ConstantPoolFormattingError> {
    match first {
        Err(e) => Err(e),
        Ok(a) => match second {
            Err(e) => Err(e),
            Ok(b) => Ok(a + separator + b),
        },
    }
}

/// A text between two others, or its error.
pub open spec fn wrapped(
    before: Seq<char>,
    inner: Result<Seq<char>, ConstantPoolFormattingError>,
    after: Seq<char>,
) -> Result<Seq<char>, ConstantPoolFormattingError> {
    match inner {
        Err(e) => Err(e),
        Ok(t) => Ok(before + t + after),
    }
}

/// The text of the constant with the given index, following references at
/// most `depth` deep.
///
/// Text constants stand for themselves, numbers for their decimal text. A
/// reference to a class, a string, a method type, a module or a package
/// stands for what it refers to. A reference to a member is rendered as
/// owner, dot, member; a name with its type, and a dynamic constant, as the
/// two texts with a colon and a blank between them; a method handle as the
/// name of its kind and, in round brackets, its target. The first error on
/// the way is the outcome. Where a reference has to be followed and no
/// depth is left, that is the error for the depth, with the index at which
/// it ran out.
pub open spec fn resolved_text(
    pool: Seq<Slot>,
    numbers: NumberTexts,
    index: u16,
    depth: nat,
) -> Result<Seq<char>, ConstantPoolFormattingError>
    decreases depth,
{
    let exhausted = Err(ConstantPoolFormattingError::ReferenceDepthExceeded(index));
    let below = (depth - 1) as nat;
    match entry_at(pool, index) {
        None => Err(index_error(index)),
        Some(Constant::Utf8(s)) => Ok(s),
        Some(Constant::Integer(n)) => Ok(decimal_text(n as int)),
        Some(Constant::Float(bits)) => Ok(numbers(FloatBits::Single(bits))),
        Some(Constant::Long(n)) => Ok(decimal_text(n as int)),
        Some(Constant::Double(bits)) => Ok(numbers(FloatBits::Double(bits))),
        Some(Constant::ClassReference(n))
        | Some(Constant::StringReference(n))
        | Some(Constant::MethodType(n))
        | Some(Constant::ModuleInfo(n))
        | Some(Constant::PackageInfo(n)) => if depth == 0 {
            exhausted
        } else {
            resolved_text(pool, numbers, n, below)
        },
        Some(Constant::FieldReference(i, j))
        | Some(Constant::MethodReference(i, j))
        | Some(Constant::InterfaceMethodReference(i, j)) => if depth == 0 {
            exhausted
        } else {
            joined(
                resolved_text(pool, numbers, i, below),
                "."@,
                resolved_text(pool, numbers, j, below),
            )
        },
        Some(Constant::NameAndTypeDescriptor(i, j))
        | Some(Constant::DynamicInfo(i, j))
        | Some(Constant::InvokeDynamicInfo(i, j)) => if depth == 0 {
            exhausted
        } else {
            joined(
                resolved_text(pool, numbers, i, below),
                ": "@,
                resolved_text(pool, numbers, j, below),
            )
        },
        Some(Constant::MethodHandle(kind, j)) => match method_handle_kind_name(kind) {
            None => Err(kind_error(kind)),
            Some(name) => if depth == 0 {
                exhausted
            } else {
                wrapped(name + "("@, resolved_text(pool, numbers, j, below), ")"@)
            },
        },
    }
}

/// The name of the kind of a constant.
pub open spec fn label(c: Constant) -> Seq<char> {
    match c {
        Constant::Utf8(_) => "String"@,
        Constant::Integer(_) => "Integer"@,
        Constant::Float(_) => "Float"@,
        Constant::Long(_) => "Long"@,
        Constant::Double(_) => "Double"@,
        Constant::ClassReference(_) => "ClassReference"@,
        Constant::StringReference(_) => "StringReference"@,
        Constant::FieldReference(_, _) => "FieldReference"@,
        Constant::MethodReference(_, _) => "MethodReference"@,
        Constant::InterfaceMethodReference(_, _) => "InterfaceMethodReference"@,
        Constant::NameAndTypeDescriptor(_, _) => "NameAndTypeDescriptor"@,
        Constant::MethodHandle(_, _) => "MethodHandle"@,
        Constant::MethodType(_) => "MethodType"@,
        Constant::DynamicInfo(_, _) => "DynamicInfo"@,
        Constant::InvokeDynamicInfo(_, _) => "InvokeDynamicInfo"@,
        Constant::ModuleInfo(_) => "ModuleInfo"@,
        Constant::PackageInfo(_) => "PackageInfo"@,
    }
}

/// A constant with one reference, expanded: the name of its kind, the raw
/// index, and in round brackets what stands there.
pub open spec fn one_reference(kind: Seq<char>, n: int, target: Seq<char>) -> Seq<char> {
    kind + ": "@ + decimal_text(n) + " => ("@ + target + ")"@
}

/// A constant with two references, expanded: the name of its kind, the two
/// raw numbers, and in round brackets what each stands for.
pub open spec fn two_references(
    kind: Seq<char>,
    i: int,
    j: int,
    first: Seq<char>,
    second: Seq<char>,
) -> Seq<char> {
    kind + ": "@ + decimal_text(i) + ", "@ + decimal_text(j) + " => ("@ + first + "), ("@ + second
        + ")"@
}

/// The fully expanded text of the constant with the given index, for
/// diagnostics: it shows the raw indices and what they resolve to, following
/// references at most `depth` deep.
pub open spec fn expanded_text(
    pool: Seq<Slot>,
    numbers: NumberTexts,
    index: u16,
    depth: nat,
) -> Result<Seq<char>, ConstantPoolFormattingError>
    decreases depth,
{
    let exhausted = Err(ConstantPoolFormattingError::ReferenceDepthExceeded(index));
    let below = (depth - 1) as nat;
    match entry_at(pool, index) {
        None => Err(index_error(index)),
        Some(c) => match c {
            Constant::Utf8(s) => Ok("String: \""@ + s + "\""@),
            Constant::Integer(n) => Ok("Integer: "@ + decimal_text(n as int)),
            Constant::Float(bits) => Ok("Float: "@ + numbers(FloatBits::Single(bits))),
            Constant::Long(n) => Ok("Long: "@ + decimal_text(n as int)),
            Constant::Double(bits) => Ok("Double: "@ + numbers(FloatBits::Double(bits))),
            Constant::ClassReference(n)
            | Constant::StringReference(n)
            | Constant::MethodType(n)
            | Constant::ModuleInfo(n)
            | Constant::PackageInfo(n) => if depth == 0 {
                exhausted
            } else {
                match expanded_text(pool, numbers, n, below) {
                    Err(e) => Err(e),
                    Ok(target) => Ok(one_reference(label(c), n as int, target)),
                }
            },
            Constant::FieldReference(i, j)
            | Constant::MethodReference(i, j)
            | Constant::InterfaceMethodReference(i, j)
            | Constant::NameAndTypeDescriptor(i, j)
            | Constant::DynamicInfo(i, j)
            | Constant::InvokeDynamicInfo(i, j) => if depth == 0 {
                exhausted
            } else {
                match expanded_text(pool, numbers, i, below) {
                    Err(e) => Err(e),
                    Ok(first) => match expanded_text(pool, numbers, j, below) {
                        Err(e) => Err(e),
                        Ok(second) => Ok(
                            two_references(label(c), i as int, j as int, first, second),
                        ),
                    },
                }
            },
            Constant::MethodHandle(kind, j) => match method_handle_kind_name(kind) {
                None => Err(kind_error(kind)),
                Some(name) => if depth == 0 {
                    exhausted
                } else {
                    match expanded_text(pool, numbers, j, below) {
                        Err(e) => Err(e),
                        Ok(target) => Ok(
                            two_references(label(c), kind as int, j as int, name, target),
                        ),
                    }
                },
            },
        },
    }
}

/// The text of a piece of text as a string literal, between double quotes
/// and with escapes. This is what formatting a string slice with `{:?}`
/// returns.
pub uninterp spec fn debug_quoted_text(text: Seq<char>) -> Seq<char>;

/// The name of the variant of a constant.
pub open spec fn variant_name(c: Constant) -> Seq<char> {
    if c is Utf8 {
        "Utf8"@
    } else {
        label(c)
    }
}

/// The text of a constant as a value: the name of its variant and, in round
/// brackets, what it holds, with a comma and a blank between two numbers.
pub open spec fn debug_text(c: Constant) -> Seq<char> {
    let inside = match c {
        Constant::Utf8(s) => debug_quoted_text(s),
        Constant::Integer(n) => decimal_text(n as int),
        Constant::Float(n) => decimal_text(n as int),
        Constant::Long(n) => decimal_text(n as int),
        Constant::Double(n) => decimal_text(n as int),
        Constant::ClassReference(n)
        | Constant::StringReference(n)
        | Constant::MethodType(n)
        | Constant::ModuleInfo(n)
        | Constant::PackageInfo(n) => decimal_text(n as int),
        Constant::FieldReference(i, j)
        | Constant::MethodReference(i, j)
        | Constant::InterfaceMethodReference(i, j)
        | Constant::NameAndTypeDescriptor(i, j)
        | Constant::DynamicInfo(i, j)
        | Constant::InvokeDynamicInfo(i, j) => decimal_text(i as int) + ", "@ + decimal_text(
            j as int,
        ),
        Constant::MethodHandle(kind, j) => decimal_text(kind as int) + ", "@ + decimal_text(
            j as int,
        ),
    };
    variant_name(c) + "("@ + inside + ")"@
}

/// The index of the slot at position `i`, as the listing shows it: the
/// position plus one, cut to sixteen bits.
pub open spec fn listed_index(i: int) -> u16 {
    ((i + 1) % 0x10000) as u16
}

/// One line of the listing of a pool.
pub open spec fn listing_line(index: u16, expanded: Seq<char>) -> Seq<char> {
    "    "@ + decimal_text(index as int) + ", "@ + expanded + "\n"@
}

/// The listing of a pool from the slot at position `i` on, behind what has
/// been written so far. A tombstone has no line.
pub open spec fn listing_from(
    pool: Seq<Slot>,
    numbers: NumberTexts,
    i: nat,
    written: Seq<char>,
) -> Result<Seq<char>, ConstantPoolFormattingError>
    decreases pool.len() - i,
{
    if i >= pool.len() {
        Ok(written)
    } else if pool[i as int] is Tombstone {
        listing_from(pool, numbers, i + 1, written)
    } else {
        match expanded_text(pool, numbers, listed_index(i as int), pool.len()) {
            Err(e) => Err(e),
            Ok(expanded) => listing_from(
                pool,
                numbers,
                i + 1,
                written + listing_line(listed_index(i as int), expanded),
            ),
        }
    }
}

/// The listing of a pool, for diagnostics: a heading with the number of
/// slots, then one line per constant with its index and its expanded text.
/// A constant that cannot be expanded makes the whole listing fail with
/// its error.
pub open spec fn listing(pool: Seq<Slot>, numbers: NumberTexts) -> Result<
    Seq<char>,
    ConstantPoolFormattingError,
> {
    listing_from(
        pool,
        numbers,
        0,
        "Constant pool: (size: "@ + decimal_digits(pool.len()) + ")\n"@,
    )
}

/// Index zero is never valid: no constant stands there, and the text of
/// the constant with index zero is the error for that index.
pub proof fn index_zero_is_invalid(pool: Seq<Slot>, numbers: NumberTexts, depth: nat)
    ensures
        entry_at(pool, 0) is None,
        resolved_text(pool, numbers, 0, depth) == Err::<Seq<char>, _>(index_error(0)),
        expanded_text(pool, numbers, 0, depth) == Err::<Seq<char>, _>(index_error(0)),
{
}

/// The empty pool keeps the invariant, and so does adding a constant to a
/// pool that keeps it.
pub proof fn adding_keeps_the_invariant(pool: Seq<Slot>, c: Constant)
    ensures
        well_formed(Seq::<Slot>::empty()),
        well_formed(pool) ==> well_formed(pool + slots_of(c)),
{
    reveal(well_formed);
}

/// A constant that is added gets the index behind the last slot. A long or
/// a double takes that slot and the next, which answers no index: the
/// constant added behind it stands two indices further on.
pub proof fn added_constants_keep_their_indices(pool: Seq<Slot>, first: Constant, second: Constant)
    requires
        pool.len() + 4 <= u16::MAX,
    ensures
        ({
            let n = pool.len();
            let one = pool + slots_of(first);
            let two = one + slots_of(second);
            &&& entry_at(one, (n + 1) as u16) == Some(first)
            &&& entry_at(two, (n + 1) as u16) == Some(first)
            &&& is_wide(first) ==> one.len() == n + 2 && entry_at(two, (n + 2) as u16) is None
                && entry_at(two, (n + 3) as u16) == Some(second)
            &&& !is_wide(first) ==> one.len() == n + 1 && entry_at(two, (n + 2) as u16) == Some(
                second,
            )
            &&& forall|index: u16| 1 <= index <= n ==> entry_at(two, index) == entry_at(pool, index)
        }),
{
}

/// The text of a text constant is the text that it holds.
pub proof fn text_constant_is_its_text(
    pool: Seq<Slot>,
    numbers: NumberTexts,
    index: u16,
    depth: nat,
)
    requires
        entry_at(pool, index) is Some,
        entry_at(pool, index)->Some_0 is Utf8,
    ensures
        resolved_text(pool, numbers, index, depth) == Ok::<Seq<char>, ConstantPoolFormattingError>(
            entry_at(pool, index)->Some_0->Utf8_0,
        ),
{
}

/// The text of a class reference is the text of the constant that it
/// refers to: where that is a text constant, the text that it holds.
pub proof fn class_reference_is_its_name(
    pool: Seq<Slot>,
    numbers: NumberTexts,
    index: u16,
    name: u16,
    text: Seq<char>,
)
    requires
        entry_at(pool, index) == Some(Constant::ClassReference(name)),
        entry_at(pool, name) == Some(Constant::Utf8(text)),
    ensures
        resolved_text(pool, numbers, index, pool.len()) == Ok::<
            Seq<char>,
            ConstantPoolFormattingError,
        >(text),
{
    assert(pool.len() >= 1);
    text_constant_is_its_text(pool, numbers, name, (pool.len() - 1) as nat);
}

/// The expanded text of a constant fails exactly where its text fails, and
/// with the same error.
pub proof fn expanded_text_fails_as_the_text_does(
    pool: Seq<Slot>,
    numbers: NumberTexts,
    index: u16,
    depth: nat,
)
    ensures
        expanded_text(pool, numbers, index, depth) is Err <==> resolved_text(
            pool,
            numbers,
            index,
            depth,
        ) is Err,
        expanded_text(pool, numbers, index, depth) matches Err(e) ==> resolved_text(
            pool,
            numbers,
            index,
            depth,
        ) == Err::<Seq<char>, _>(e),
    decreases depth,
{
    let below = (depth - 1) as nat;
    if depth > 0 {
        match entry_at(pool, index) {
            Some(Constant::ClassReference(n))
            | Some(Constant::StringReference(n))
            | Some(Constant::MethodType(n))
            | Some(Constant::ModuleInfo(n))
            | Some(Constant::PackageInfo(n)) => {
                expanded_text_fails_as_the_text_does(pool, numbers, n, below);
            },
            Some(Constant::FieldReference(i, j))
            | Some(Constant::MethodReference(i, j))
            | Some(Constant::InterfaceMethodReference(i, j))
            | Some(Constant::NameAndTypeDescriptor(i, j))
            | Some(Constant::DynamicInfo(i, j))
            | Some(Constant::InvokeDynamicInfo(i, j)) => {
                expanded_text_fails_as_the_text_does(pool, numbers, i, below);
                expanded_text_fails_as_the_text_does(pool, numbers, j, below);
            },
            Some(Constant::MethodHandle(_, j)) => {
                expanded_text_fails_as_the_text_does(pool, numbers, j, below);
            },
            _ => {},
        }
    }
}

/// Whether an outcome is the error for references that go too deep.
pub open spec fn is_depth_error(r: Result<Seq<char>, ConstantPoolFormattingError>) -> bool {
    r matches Err(ConstantPoolFormattingError::ReferenceDepthExceeded(_))
}

/// Whether a constant refers to the constant with index `target`.
pub open spec fn refers_to(c: Constant, target: u16) -> bool {
    match c {
        Constant::ClassReference(n)
        | Constant::StringReference(n)
        | Constant::MethodType(n)
        | Constant::ModuleInfo(n)
        | Constant::PackageInfo(n) => target == n,
        Constant::FieldReference(i, j)
        | Constant::MethodReference(i, j)
        | Constant::InterfaceMethodReference(i, j)
        | Constant::NameAndTypeDescriptor(i, j)
        | Constant::DynamicInfo(i, j)
        | Constant::InvokeDynamicInfo(i, j) => target == i || target == j,
        Constant::MethodHandle(_, j) => target == j,
        _ => false,
    }
}

/// Whether every reference of the pool leads from a constant to one of
/// lower rank, so that the references cannot run in a circle.
pub open spec fn descends(pool: Seq<Slot>, rank: spec_fn(u16) -> nat) -> bool {
    forall|index: u16, target: u16|
        #![trigger rank(index), rank(target)]
        (entry_at(pool, index) matches Some(c) && refers_to(c, target)) ==> rank(target) < rank(
            index,
        )
}

/// The depth only bounds the work: once a text or an error other than that
/// for the depth has come out, more depth gives the same.
pub proof fn more_depth_keeps_the_text(
    pool: Seq<Slot>,
    numbers: NumberTexts,
    index: u16,
    depth: nat,
    more: nat,
)
    requires
        depth <= more,
        !is_depth_error(resolved_text(pool, numbers, index, depth)),
    ensures
        resolved_text(pool, numbers, index, more) == resolved_text(pool, numbers, index, depth),
    decreases depth,
{
    let below = (depth - 1) as nat;
    let more_below = (more - 1) as nat;
    match entry_at(pool, index) {
        Some(Constant::ClassReference(n))
        | Some(Constant::StringReference(n))
        | Some(Constant::MethodType(n))
        | Some(Constant::ModuleInfo(n))
        | Some(Constant::PackageInfo(n)) => {
            more_depth_keeps_the_text(pool, numbers, n, below, more_below);
        },
        Some(Constant::FieldReference(i, j))
        | Some(Constant::MethodReference(i, j))
        | Some(Constant::InterfaceMethodReference(i, j))
        | Some(Constant::NameAndTypeDescriptor(i, j))
        | Some(Constant::DynamicInfo(i, j))
        | Some(Constant::InvokeDynamicInfo(i, j)) => {
            more_depth_keeps_the_text(pool, numbers, i, below, more_below);
            if resolved_text(pool, numbers, i, below) is Ok {
                more_depth_keeps_the_text(pool, numbers, j, below, more_below);
            }
        },
        Some(Constant::MethodHandle(kind, j)) => {
            if method_handle_kind_name(kind) is Some {
                more_depth_keeps_the_text(pool, numbers, j, below, more_below);
            }
        },
        _ => {},
    }
}

/// The same holds of the expanded text.
pub proof fn more_depth_keeps_the_expanded_text(
    pool: Seq<Slot>,
    numbers: NumberTexts,
    index: u16,
    depth: nat,
    more: nat,
)
    requires
        depth <= more,
        !is_depth_error(expanded_text(pool, numbers, index, depth)),
    ensures
        expanded_text(pool, numbers, index, more) == expanded_text(pool, numbers, index, depth),
    decreases depth,
{
    let below = (depth - 1) as nat;
    let more_below = (more - 1) as nat;
    match entry_at(pool, index) {
        Some(Constant::ClassReference(n))
        | Some(Constant::StringReference(n))
        | Some(Constant::MethodType(n))
        | Some(Constant::ModuleInfo(n))
        | Some(Constant::PackageInfo(n)) => {
            more_depth_keeps_the_expanded_text(pool, numbers, n, below, more_below);
        },
        Some(Constant::FieldReference(i, j))
        | Some(Constant::MethodReference(i, j))
        | Some(Constant::InterfaceMethodReference(i, j))
        | Some(Constant::NameAndTypeDescriptor(i, j))
        | Some(Constant::DynamicInfo(i, j))
        | Some(Constant::InvokeDynamicInfo(i, j)) => {
            more_depth_keeps_the_expanded_text(pool, numbers, i, below, more_below);
            if expanded_text(pool, numbers, i, below) is Ok {
                more_depth_keeps_the_expanded_text(pool, numbers, j, below, more_below);
            }
        },
        Some(Constant::MethodHandle(kind, j)) => {
            if method_handle_kind_name(kind) is Some {
                more_depth_keeps_the_expanded_text(pool, numbers, j, below, more_below);
            }
        },
        _ => {},
    }
}

/// Where every reference leads to a constant of lower rank, a depth of at
/// least the rank of a constant is enough for its text: the error for the
/// depth comes only where references run in a circle.
pub proof fn ranked_references_stay_within_depth(
    pool: Seq<Slot>,
    numbers: NumberTexts,
    rank: spec_fn(u16) -> nat,
    index: u16,
    depth: nat,
)
    requires
        descends(pool, rank),
        rank(index) <= depth,
    ensures
        !is_depth_error(resolved_text(pool, numbers, index, depth)),
        !is_depth_error(expanded_text(pool, numbers, index, depth)),
    decreases depth,
{
    let below = (depth - 1) as nat;
    match entry_at(pool, index) {
        Some(c) => {
            match c {
                Constant::ClassReference(n)
                | Constant::StringReference(n)
                | Constant::MethodType(n)
                | Constant::ModuleInfo(n)
                | Constant::PackageInfo(n) => {
                    assert(refers_to(c, n));
                    assert(rank(n) < rank(index));
                    ranked_references_stay_within_depth(pool, numbers, rank, n, below);
                },
                Constant::FieldReference(i, j)
                | Constant::MethodReference(i, j)
                | Constant::InterfaceMethodReference(i, j)
                | Constant::NameAndTypeDescriptor(i, j)
                | Constant::DynamicInfo(i, j)
                | Constant::InvokeDynamicInfo(i, j) => {
                    assert(refers_to(c, i) && refers_to(c, j));
                    assert(rank(i) < rank(index));
                    assert(rank(j) < rank(index));
                    ranked_references_stay_within_depth(pool, numbers, rank, i, below);
                    ranked_references_stay_within_depth(pool, numbers, rank, j, below);
                },
                Constant::MethodHandle(_, j) => {
                    assert(refers_to(c, j));
                    assert(rank(j) < rank(index));
                    ranked_references_stay_within_depth(pool, numbers, rank, j, below);
                },
                _ => {},
            }
        },
        None => {},
    }
}

/// In a pool whose references all lead to constants with lower indices, as
/// they do where every constant refers to those added before it, no text
/// fails for the depth.
pub proof fn backward_references_are_always_resolved(
    pool: Seq<Slot>,
    numbers: NumberTexts,
    index: u16,
)
    requires
        descends(pool, |i: u16| i as nat),
    ensures
        !is_depth_error(resolved_text(pool, numbers, index, pool.len())),
        !is_depth_error(expanded_text(pool, numbers, index, pool.len())),
{
    if index <= pool.len() {
        ranked_references_stay_within_depth(pool, numbers, |i: u16| i as nat, index, pool.len());
    }
}

/// The view of a result that holds text.
pub open spec fn text_view<E>(r: Result<String, E>) -> Result<Seq<char>, E> {
    match r {
        Ok(text) => Ok(text@),
        Err(e) => Err(e),
    }
}

impl View for ConstantPool {
    type V = Seq<Slot>;

    closed spec fn view(&self) -> Seq<Slot> {
        self.entries@.map_values(|entry: ConstantPoolPhysicalEntry| slot_of(entry))
    }
}

impl DeepView for ConstantPool {
    type V = Seq<Slot>;

    open spec fn deep_view(&self) -> Seq<Slot> {
        self@
    }
}

impl InvalidConstantPoolIndexError {
    pub fn new(index: u16) -> (error: Self)
        ensures
            error == (InvalidConstantPoolIndexError { index }),
    {
        InvalidConstantPoolIndexError { index }
    }

    /// The message of the error.
    pub open spec fn text(self) -> Seq<char> {
        "invalid constant pool index: "@ + decimal_text(self.index as int)
    }

    pub fn to_text(&self) -> (text: String)
        ensures
            text@ == self.text(),
    {
        let number = unsigned_to_text(self.index as u64);
        join2("invalid constant pool index: ", number.as_str())
    }
}

impl InvalidMethodHandleKindError {
    /// The message of the error.
    pub open spec fn text(self) -> Seq<char> {
        "invalid method handle kind: "@ + decimal_text(self.kind as int)
    }

    pub fn to_text(&self) -> (text: String)
        ensures
            text@ == self.text(),
    {
        let number = unsigned_to_text(self.kind as u64);
        join2("invalid method handle kind: ", number.as_str())
    }
}

impl ConstantPoolFormattingError {
    /// The message of the error: that of the error inside, where there is
    /// one.
    pub open spec fn text(self) -> Seq<char> {
        match self {
            ConstantPoolFormattingError::PoolIndex(e) => e.text(),
            ConstantPoolFormattingError::MethodHandleKind(e) => e.text(),
            ConstantPoolFormattingError::ReferenceDepthExceeded(index) =>
                "constant pool reference depth exceeded at index: "@ + decimal_text(index as int),
        }
    }

    pub fn to_text(&self) -> (text: String)
        ensures
            text@ == self.text(),
    {
        match self {
            ConstantPoolFormattingError::PoolIndex(e) => e.to_text(),
            ConstantPoolFormattingError::MethodHandleKind(e) => e.to_text(),
            ConstantPoolFormattingError::ReferenceDepthExceeded(index) => {
                let number = unsigned_to_text(*index as u64);
                join2("constant pool reference depth exceeded at index: ", number.as_str())
            },
        }
    }
}

/// The name of the kind of a constant, as the expanded text shows it.
fn label_of(entry: &ConstantPoolEntry) -> (name: &'static str)
    ensures
        name@ == label(entry@),
{
    match entry {
        ConstantPoolEntry::Utf8(_) => "String",
        ConstantPoolEntry::Integer(_) => "Integer",
        ConstantPoolEntry::Float(_) => "Float",
        ConstantPoolEntry::Long(_) => "Long",
        ConstantPoolEntry::Double(_) => "Double",
        ConstantPoolEntry::ClassReference(_) => "ClassReference",
        ConstantPoolEntry::StringReference(_) => "StringReference",
        ConstantPoolEntry::FieldReference(_, _) => "FieldReference",
        ConstantPoolEntry::MethodReference(_, _) => "MethodReference",
        ConstantPoolEntry::InterfaceMethodReference(_, _) => "InterfaceMethodReference",
        ConstantPoolEntry::NameAndTypeDescriptor(_, _) => "NameAndTypeDescriptor",
        ConstantPoolEntry::MethodHandle(_, _) => "MethodHandle",
        ConstantPoolEntry::MethodType(_) => "MethodType",
        ConstantPoolEntry::DynamicInfo(_, _) => "DynamicInfo",
        ConstantPoolEntry::InvokeDynamicInfo(_, _) => "InvokeDynamicInfo",
        ConstantPoolEntry::ModuleInfo(_) => "ModuleInfo",
        ConstantPoolEntry::PackageInfo(_) => "PackageInfo",
    }
}

/// Formats text with `format!("{:?}", ..)`, which runs the standard
/// library's `Debug` for a string slice. The contract names the result:
/// what that format makes of this text. Nothing else is claimed of it.
#[verifier::external_body]
fn debug_quoted(text: &str) -> (quoted: String)
    ensures
        quoted@ == debug_quoted_text(text@),
{
    format!("{:?}", text)
}

impl DeepView for ConstantPoolEntry {
    type V = Constant;

    open spec fn deep_view(&self) -> Constant {
        self@
    }
}

impl ConstantPoolEntry {
    /// The text of the constant as a value, for error messages.
    pub fn debug_text(&self) -> (text: String)
        ensures
            text@ == debug_text(self@),
    {
        let name = match self {
            ConstantPoolEntry::Utf8(_) => "Utf8",
            _ => label_of(self),
        };
        let inside = match self {
            ConstantPoolEntry::Utf8(s) => debug_quoted(s.as_str()),
            ConstantPoolEntry::Integer(n) => signed_to_text(*n as i64),
            ConstantPoolEntry::Float(n) => unsigned_to_text(*n as u64),
            ConstantPoolEntry::Long(n) => signed_to_text(*n),
            ConstantPoolEntry::Double(n) => unsigned_to_text(*n),
            ConstantPoolEntry::ClassReference(n)
            | ConstantPoolEntry::StringReference(n)
            | ConstantPoolEntry::MethodType(n)
            | ConstantPoolEntry::ModuleInfo(n)
            | ConstantPoolEntry::PackageInfo(n) => unsigned_to_text(*n as u64),
            ConstantPoolEntry::FieldReference(i, j)
            | ConstantPoolEntry::MethodReference(i, j)
            | ConstantPoolEntry::InterfaceMethodReference(i, j)
            | ConstantPoolEntry::NameAndTypeDescriptor(i, j)
            | ConstantPoolEntry::DynamicInfo(i, j)
            | ConstantPoolEntry::InvokeDynamicInfo(i, j) => {
                let first = unsigned_to_text(*i as u64);
                let second = unsigned_to_text(*j as u64);
                join3(first.as_str(), ", ", second.as_str())
            },
            ConstantPoolEntry::MethodHandle(kind, j) => {
                let first = unsigned_to_text(*kind as u64);
                let second = unsigned_to_text(*j as u64);
                join3(first.as_str(), ", ", second.as_str())
            },
        };
        let mut text = join3(name, "(", inside.as_str());
        text.append(")");
        text
    }
}

fn one_reference_text(kind: &str, n: u16, target: &str) -> (text: String)
    ensures
        text@ == one_reference(kind@, n as int, target@),
{
    let number = unsigned_to_text(n as u64);
    let mut text = join3(kind, ": ", number.as_str());
    text.append(" => (");
    text.append(target);
    text.append(")");
    text
}

fn two_references_text(kind: &str, i: u16, j: u16, first: &str, second: &str) -> (text: String)
    ensures
        text@ == two_references(kind@, i as int, j as int, first@, second@),
{
    let number = unsigned_to_text(i as u64);
    let mut text = join3(kind, ": ", number.as_str());
    text.append(", ");
    let number = unsigned_to_text(j as u64);
    text.append(number.as_str());
    text.append(" => (");
    text.append(first);
    text.append("), (");
    text.append(second);
    text.append(")");
    text
}

impl Default for ConstantPool {
    fn default() -> (pool: ConstantPool)
        ensures
            pool@ == Seq::<Slot>::empty(),
    {
        ConstantPool::new()
    }
}

impl ConstantPool {
    /// The empty pool.
    pub fn new() -> (pool: ConstantPool)
        ensures
            pool@ == Seq::<Slot>::empty(),
            well_formed(pool@),
    {
        let pool = ConstantPool { entries: Vec::new() };
        assert(pool@ =~= Seq::<Slot>::empty());
        proof {
            reveal(well_formed);
        }
        pool
    }

    /// Adds a new entry behind the others. It gets the index that is one
    /// more than the number of slots so far, and takes two slots if it is a
    /// long or a double.
    pub fn add(&mut self, entry: ConstantPoolEntry)
        ensures
            final(self)@ == old(self)@ + slots_of(entry@),
            well_formed(old(self)@) ==> well_formed(final(self)@),
    {
        let add_tombstone = match &entry {
            ConstantPoolEntry::Long(_) => true,
            ConstantPoolEntry::Double(_) => true,
            _ => false,
        };
        let ghost constant = entry@;
        self.entries.push(ConstantPoolPhysicalEntry::Entry(entry));
        if add_tombstone {
            self.entries.push(ConstantPoolPhysicalEntry::MultiByteEntryTombstone);
        }
        assert(self@ =~= old(self)@ + slots_of(constant));
        proof {
            reveal(well_formed);
        }
    }

    /// Accesses an entry given its index, which counts from one.
    pub fn get(&self, input_index: u16) -> (r: Result<
        &ConstantPoolEntry,
        InvalidConstantPoolIndexError,
    >)
        ensures
            match entry_at(self@, input_index) {
                Some(c) => r matches Ok(entry) && entry@ == c,
                None => r == Err::<&ConstantPoolEntry, _>(
                    InvalidConstantPoolIndexError { index: input_index },
                ),
            },
            input_index == 0 ==> r == Err::<&ConstantPoolEntry, _>(
                InvalidConstantPoolIndexError { index: 0 },
            ),
    {
        if input_index == 0 || input_index as usize > self.entries.len() {
            Err(InvalidConstantPoolIndexError::new(input_index))
        } else {
            let i = (input_index - 1) as usize;
            match &self.entries[i] {
                ConstantPoolPhysicalEntry::Entry(entry) => Ok(entry),
                ConstantPoolPhysicalEntry::MultiByteEntryTombstone => Err(
                    InvalidConstantPoolIndexError::new(input_index),
                ),
            }
        }
    }

    /// The number of slots, tombstones included.
    pub fn slot_count(&self) -> (n: usize)
        ensures
            n == self@.len(),
    {
        self.entries.len()
    }

    /// The name of a method-handle kind.
    pub fn method_handle_kind(&self, kind: u8) -> (r: Result<String, InvalidMethodHandleKindError>)
        ensures
            match method_handle_kind_name(kind) {
                Some(name) => r matches Ok(text) && text@ == name,
                None => r == Err::<String, _>(InvalidMethodHandleKindError { kind }),
            },
    {
        let name = match kind {
            1 => "getField",
            2 => "getStatic",
            3 => "putField",
            4 => "putStatic",
            5 => "invokeVirtual",
            6 => "invokeStatic",
            7 => "invokeSpecial",
            8 => "newInvokeSpecial",
            9 => "invokeInterface",
            _ => {
                return Err(InvalidMethodHandleKindError { kind });
            },
        };
        Ok(String::from_str(name))
    }

    /// The text of the constant with the given index. References are
    /// followed as deep as the pool has slots.
    pub fn text_of<F: Fn(FloatBits) -> String>(&self, idx: u16, render: &F) -> (r: Result<
        String,
        ConstantPoolFormattingError,
    >)
        requires
            renders(*render),
        ensures
            text_view(r) == resolved_text(self@, number_texts(*render), idx, self@.len()),
    {
        self.text_within(idx, render, self.entries.len())
    }

    fn text_within<F: Fn(FloatBits) -> String>(&self, idx: u16, render: &F, depth: usize) -> (r:
        Result<String, ConstantPoolFormattingError>)
        requires
            renders(*render),
        ensures
            text_view(r) == resolved_text(self@, number_texts(*render), idx, depth as nat),
        decreases depth, 0nat,
    {
        let entry = match self.get(idx) {
            Ok(entry) => entry,
            Err(e) => {
                return Err(ConstantPoolFormattingError::PoolIndex(e));
            },
        };
        match entry {
            ConstantPoolEntry::Utf8(s) => Ok(s.clone()),
            ConstantPoolEntry::Integer(n) => Ok(signed_to_text(*n as i64)),
            ConstantPoolEntry::Float(bits) => Ok(rendered(render, FloatBits::Single(*bits))),
            ConstantPoolEntry::Long(n) => Ok(signed_to_text(*n)),
            ConstantPoolEntry::Double(bits) => Ok(rendered(render, FloatBits::Double(*bits))),
            ConstantPoolEntry::ClassReference(n)
            | ConstantPoolEntry::StringReference(n)
            | ConstantPoolEntry::MethodType(n)
            | ConstantPoolEntry::ModuleInfo(n)
            | ConstantPoolEntry::PackageInfo(n) => {
                if depth == 0 {
                    Err(ConstantPoolFormattingError::ReferenceDepthExceeded(idx))
                } else {
                    self.text_within(*n, render, depth - 1)
                }
            },
            ConstantPoolEntry::FieldReference(i, j)
            | ConstantPoolEntry::MethodReference(i, j)
            | ConstantPoolEntry::InterfaceMethodReference(i, j) => {
                if depth == 0 {
                    Err(ConstantPoolFormattingError::ReferenceDepthExceeded(idx))
                } else {
                    self.pair_within(*i, ".", *j, render, depth - 1)
                }
            },
            ConstantPoolEntry::NameAndTypeDescriptor(i, j)
            | ConstantPoolEntry::DynamicInfo(i, j)
            | ConstantPoolEntry::InvokeDynamicInfo(i, j) => {
                if depth == 0 {
                    Err(ConstantPoolFormattingError::ReferenceDepthExceeded(idx))
                } else {
                    self.pair_within(*i, ": ", *j, render, depth - 1)
                }
            },
            ConstantPoolEntry::MethodHandle(kind, j) => {
                let name = match self.method_handle_kind(*kind) {
                    Ok(name) => name,
                    Err(e) => {
                        return Err(ConstantPoolFormattingError::MethodHandleKind(e));
                    },
                };
                if depth == 0 {
                    Err(ConstantPoolFormattingError::ReferenceDepthExceeded(idx))
                } else {
                    match self.text_within(*j, render, depth - 1) {
                        Err(e) => Err(e),
                        Ok(target) => {
                            let mut text = join3(name.as_str(), "(", target.as_str());
                            text.append(")");
                            Ok(text)
                        },
                    }
                }
            },
        }
    }

    /// The fully expanded text of the constant with the given index, for
    /// diagnostics: the raw indices together with what they resolve to.
    /// References are followed as deep as the pool has slots.
    pub fn fmt_entry<F: Fn(FloatBits) -> String>(&self, idx: u16, render: &F) -> (r: Result<
        String,
        ConstantPoolFormattingError,
    >)
        requires
            renders(*render),
        ensures
            text_view(r) == expanded_text(self@, number_texts(*render), idx, self@.len()),
    {
        self.expanded_within(idx, render, self.entries.len())
    }

    fn expanded_within<F: Fn(FloatBits) -> String>(
        &self,
        idx: u16,
        render: &F,
        depth: usize,
    ) -> (r: Result<String, ConstantPoolFormattingError>)
        requires
            renders(*render),
        ensures
            text_view(r) == expanded_text(self@, number_texts(*render), idx, depth as nat),
        decreases depth,
    {
        let entry = match self.get(idx) {
            Ok(entry) => entry,
            Err(e) => {
                return Err(ConstantPoolFormattingError::PoolIndex(e));
            },
        };
        let kind = label_of(entry);
        match entry {
            ConstantPoolEntry::Utf8(s) => Ok(join3("String: \"", s.as_str(), "\"")),
            ConstantPoolEntry::Integer(n) => {
                let number = signed_to_text(*n as i64);
                Ok(join2("Integer: ", number.as_str()))
            },
            ConstantPoolEntry::Float(bits) => {
                let number = rendered(render, FloatBits::Single(*bits));
                Ok(join2("Float: ", number.as_str()))
            },
            ConstantPoolEntry::Long(n) => {
                let number = signed_to_text(*n);
                Ok(join2("Long: ", number.as_str()))
            },
            ConstantPoolEntry::Double(bits) => {
                let number = rendered(render, FloatBits::Double(*bits));
                Ok(join2("Double: ", number.as_str()))
            },
            ConstantPoolEntry::ClassReference(n)
            | ConstantPoolEntry::StringReference(n)
            | ConstantPoolEntry::MethodType(n)
            | ConstantPoolEntry::ModuleInfo(n)
            | ConstantPoolEntry::PackageInfo(n) => {
                if depth == 0 {
                    Err(ConstantPoolFormattingError::ReferenceDepthExceeded(idx))
                } else {
                    match self.expanded_within(*n, render, depth - 1) {
                        Err(e) => Err(e),
                        Ok(target) => Ok(one_reference_text(kind, *n, target.as_str())),
                    }
                }
            },
            ConstantPoolEntry::FieldReference(i, j)
            | ConstantPoolEntry::MethodReference(i, j)
            | ConstantPoolEntry::InterfaceMethodReference(i, j)
            | ConstantPoolEntry::NameAndTypeDescriptor(i, j)
            | ConstantPoolEntry::DynamicInfo(i, j)
            | ConstantPoolEntry::InvokeDynamicInfo(i, j) => {
                if depth == 0 {
                    Err(ConstantPoolFormattingError::ReferenceDepthExceeded(idx))
                } else {
                    let first = match self.expanded_within(*i, render, depth - 1) {
                        Ok(text) => text,
                        Err(e) => {
                            return Err(e);
                        },
                    };
                    match self.expanded_within(*j, render, depth - 1) {
                        Err(e) => Err(e),
                        Ok(second) => Ok(
                            two_references_text(kind, *i, *j, first.as_str(), second.as_str()),
                        ),
                    }
                }
            },
            ConstantPoolEntry::MethodHandle(handle_kind, j) => {
                let name = match self.method_handle_kind(*handle_kind) {
                    Ok(name) => name,
                    Err(e) => {
                        return Err(ConstantPoolFormattingError::MethodHandleKind(e));
                    },
                };
                if depth == 0 {
                    Err(ConstantPoolFormattingError::ReferenceDepthExceeded(idx))
                } else {
                    match self.expanded_within(*j, render, depth - 1) {
                        Err(e) => Err(e),
                        Ok(target) => Ok(
                            two_references_text(
                                kind,
                                *handle_kind as u16,
                                *j,
                                name.as_str(),
                                target.as_str(),
                            ),
                        ),
                    }
                }
            },
        }
    }

    /// The listing of the pool, for diagnostics.
    pub fn to_text<F: Fn(FloatBits) -> String>(&self, render: &F) -> (r: Result<
        String,
        ConstantPoolFormattingError,
    >)
        requires
            renders(*render),
        ensures
            text_view(r) == listing(self@, number_texts(*render)),
    {
        let count = self.entries.len();
        let size = unsigned_to_text(count as u64);
        let mut text = join3("Constant pool: (size: ", size.as_str(), ")\n");
        let mut raw_idx: usize = 0;
        while raw_idx < count
            invariant
                renders(*render),
                count == self@.len(),
                raw_idx <= count,
                listing_from(self@, number_texts(*render), raw_idx as nat, text@) == listing(
                    self@,
                    number_texts(*render),
                ),
            decreases count - raw_idx,
        {
            match &self.entries[raw_idx] {
                ConstantPoolPhysicalEntry::MultiByteEntryTombstone => {},
                ConstantPoolPhysicalEntry::Entry(_) => {
                    let index = ((raw_idx + 1) % 0x10000) as u16;
                    let entry_text = match self.fmt_entry(index, render) {
                        Ok(entry_text) => entry_text,
                        Err(e) => {
                            return Err(e);
                        },
                    };
                    let number = unsigned_to_text(index as u64);
                    let ghost written = text@;
                    text.append("    ");
                    text.append(number.as_str());
                    text.append(", ");
                    text.append(entry_text.as_str());
                    text.append("\n");
                    assert(text@ =~= written + listing_line(index, entry_text@));
                },
            }
            raw_idx = raw_idx + 1;
        }
        Ok(text)
    }

    /// The texts of two constants with a separator between them.
    fn pair_within<F: Fn(FloatBits) -> String>(
        &self,
        i: u16,
        separator: &str,
        j: u16,
        render: &F,
        depth: usize,
    ) -> (r: Result<String, ConstantPoolFormattingError>)
        requires
            renders(*render),
        ensures
            text_view(r) == joined(
                resolved_text(self@, number_texts(*render), i, depth as nat),
                separator@,
                resolved_text(self@, number_texts(*render), j, depth as nat),
            ),
        decreases depth, 1nat,
    {
        let first = match self.text_within(i, render, depth) {
            Ok(text) => text,
            Err(e) => {
                return Err(e);
            },
        };
        match self.text_within(j, render, depth) {
            Err(e) => Err(e),
            Ok(second) => Ok(join3(first.as_str(), separator, second.as_str())),
        }
    }
}

} // verus!
