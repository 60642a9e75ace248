//! The content of a class file: the class with its fields, its methods and
//! their attributes, as plain data.

use crate::class_file_version::ClassFileVersion;
use crate::constant_pool::{ConstantPool, Slot};
use crate::flags::{ClassAccessFlags, FieldFlags, MethodFlags};
use vstd::prelude::*;

verus! {

/// An attribute of a field or a method: its name and its bytes, which are
/// not interpreted here.
#[derive(Debug, PartialEq, Eq)]
pub struct Attribute {
    pub name: String,
    pub info: Vec<u8>,
}

/// The mathematical value of an attribute.
pub struct AttributeView {
    pub name: Seq<char>,
    pub info: Seq<u8>,
}

impl DeepView for Attribute {
    type V = AttributeView;

    open spec fn deep_view(&self) -> AttributeView {
        AttributeView { name: self.name@, info: self.info@ }
    }
}

/// The constant value of a field. A floating-point value is held as its
/// IEEE 754 bit pattern.
#[derive(Debug, PartialEq, Eq)]
pub enum FieldConstantValue {
    Int(i32),
    Float(u32),
    Long(i64),
    Double(u64),
    String(String),
}

/// The mathematical value of the constant value of a field.
pub enum FieldConstantValueView {
    Int(i32),
    Float(u32),
    Long(i64),
    Double(u64),
    String(Seq<char>),
}

impl DeepView for FieldConstantValue {
    type V = FieldConstantValueView;

    open spec fn deep_view(&self) -> FieldConstantValueView {
        match self {
            FieldConstantValue::Int(n) => FieldConstantValueView::Int(*n),
            FieldConstantValue::Float(n) => FieldConstantValueView::Float(*n),
            FieldConstantValue::Long(n) => FieldConstantValueView::Long(*n),
            FieldConstantValue::Double(n) => FieldConstantValueView::Double(*n),
            FieldConstantValue::String(s) => FieldConstantValueView::String(s@),
        }
    }
}

/// A field of a class. The type descriptor is kept as the text that the
/// class file holds.
#[derive(Debug, PartialEq, Eq)]
pub struct ClassFileField {
    pub flags: FieldFlags,
    pub name: String,
    pub type_descriptor: String,
    pub constant_value: Option<FieldConstantValue>,
}

/// The mathematical value of a field.
pub struct FieldView {
    pub flags: u16,
    pub name: Seq<char>,
    pub type_descriptor: Seq<char>,
    pub constant_value: Option<FieldConstantValueView>,
}

impl DeepView for ClassFileField {
    type V = FieldView;

    open spec fn deep_view(&self) -> FieldView {
        FieldView {
            flags: self.flags@,
            name: self.name@,
            type_descriptor: self.type_descriptor@,
            constant_value: self.constant_value.deep_view(),
        }
    }
}

/// A method of a class, with its attributes as the class file holds them.
#[derive(Debug, PartialEq, Eq)]
pub struct ClassFileMethod {
    pub flags: MethodFlags,
    pub name: String,
    pub type_descriptor: String,
    pub attributes: Vec<Attribute>,
}

/// The mathematical value of a method.
pub struct MethodView {
    pub flags: u16,
    pub name: Seq<char>,
    pub type_descriptor: Seq<char>,
    pub attributes: Seq<AttributeView>,
}

impl DeepView for ClassFileMethod {
    type V = MethodView;

    open spec fn deep_view(&self) -> MethodView {
        MethodView {
            flags: self.flags@,
            name: self.name@,
            type_descriptor: self.type_descriptor@,
            attributes: self.attributes.deep_view(),
        }
    }
}

/// Represents the content of a class file. Interfaces, fields and methods
/// stand in the order in which the class file declares them.
#[derive(Debug)]
pub struct ClassFile {
    pub version: ClassFileVersion,
    pub constants: ConstantPool,
    pub flags: ClassAccessFlags,
    pub name: String,
    pub superclass: Option<String>,
    pub interfaces: Vec<String>,
    pub fields: Vec<ClassFileField>,
    pub methods: Vec<ClassFileMethod>,
    pub deprecated: bool,
    pub source_file: Option<String>,
}

/// The mathematical value of a class file.
pub struct ClassFileView {
    pub version: ClassFileVersion,
    pub constants: Seq<Slot>,
    pub flags: u16,
    pub name: Seq<char>,
    pub superclass: Option<Seq<char>>,
    pub interfaces: Seq<Seq<char>>,
    pub fields: Seq<FieldView>,
    pub methods: Seq<MethodView>,
    pub deprecated: bool,
    pub source_file: Option<Seq<char>>,
}

impl DeepView for ClassFile {
    type V = ClassFileView;

    open spec fn deep_view(&self) -> ClassFileView {
        ClassFileView {
            version: self.version,
            constants: self.constants@,
            flags: self.flags@,
            name: self.name@,
            superclass: self.superclass.deep_view(),
            interfaces: self.interfaces.deep_view(),
            fields: self.fields.deep_view(),
            methods: self.methods.deep_view(),
            deprecated: self.deprecated,
            source_file: self.source_file.deep_view(),
        }
    }
}

} // verus!
