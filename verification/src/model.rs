//! The abstract syntax tree produced by a successful parse, together with
//! the mathematical models (`Spec*` types) that contracts speak about.
//!
//! Every node is built once, during a single reduction pass, and is
//! immutable afterwards; sequence fields preserve source order.
use vstd::prelude::*;

verus! {

broadcast use vstd::std_specs::vec::axiom_vec_decreases_to_view;

// ---------------------------------------------------------------------
// Comments and identifiers
// ---------------------------------------------------------------------
/// A single decoded comment body (line or block).
#[derive(Debug, Clone, PartialEq)]
pub struct Comment(pub String);

impl View for Comment {
    type V = Seq<char>;

    open spec fn view(&self) -> Seq<char> {
        self.0@
    }
}

impl DeepView for Comment {
    type V = Seq<char>;

    open spec fn deep_view(&self) -> Seq<char> {
        self.view()
    }
}

impl Comment {
    pub fn new(value: String) -> (r: Self)
        ensures
            r@ == value@,
    {
        Comment(value)
    }

    pub fn value(&self) -> (r: &str)
        ensures
            r@ == self@,
    {
        self.0.as_str()
    }
}

/// The model of an [`Ident`].
pub struct SpecIdent {
    pub relative: bool,
    pub value: Seq<char>,
}

/// A name, with a flag marking a leading dot (a fully-qualified
/// reference context).
#[derive(Debug, Clone, PartialEq)]
pub struct Ident {
    pub relative: bool,
    pub value: String,
}

impl View for Ident {
    type V = SpecIdent;

    open spec fn view(&self) -> SpecIdent {
        SpecIdent { relative: self.relative, value: self.value@ }
    }
}

impl DeepView for Ident {
    type V = SpecIdent;

    open spec fn deep_view(&self) -> SpecIdent {
        self.view()
    }
}

impl Ident {
    pub fn new(relative: bool, value: String) -> (r: Self)
        ensures
            r@ == (SpecIdent { relative, value: value@ }),
    {
        Ident { relative, value }
    }

    pub fn relative(&self) -> (r: bool)
        ensures
            r == self@.relative,
    {
        self.relative
    }

    pub fn set_relative(&mut self, relative: bool)
        ensures
            final(self)@ == (SpecIdent { relative, ..old(self)@ }),
    {
        self.relative = relative;
    }

    pub fn value(&self) -> (r: &str)
        ensures
            r@ == self@.value,
    {
        self.value.as_str()
    }

    pub fn set_value(&mut self, value: String)
        ensures
            final(self)@ == (SpecIdent { value: value@, ..old(self)@ }),
    {
        self.value = value;
    }

    /// The textual form: a leading dot when the name is relative,
    /// then the name itself.
    pub fn display_string(&self) -> (r: String)
        ensures
            r@ == (if self@.relative {
                seq!['.'] + self@.value
            } else {
                self@.value
            }),
    {
        let mut out = String::new();
        if self.relative {
            crate::text::push_char(&mut out, '.');
        }
        out.append(self.value.as_str());
        proof {
            if self.relative {
                assert(out@ =~= seq!['.'] + self@.value);
            } else {
                assert(out@ =~= self@.value);
            }
        }
        out
    }
}

/// A reference to a message type, as used by service rpc fields.
#[derive(Debug, Clone, PartialEq)]
pub struct MessageReference(pub String);

impl View for MessageReference {
    type V = Seq<char>;

    open spec fn view(&self) -> Seq<char> {
        self.0@
    }
}

impl DeepView for MessageReference {
    type V = Seq<char>;

    open spec fn deep_view(&self) -> Seq<char> {
        self.view()
    }
}

impl MessageReference {
    pub fn new(value: String) -> (r: Self)
        ensures
            r@ == value@,
    {
        MessageReference(value)
    }

    pub fn value(&self) -> (r: &str)
        ensures
            r@ == self@,
    {
        self.0.as_str()
    }
}

// ---------------------------------------------------------------------
// Header declarations
// ---------------------------------------------------------------------
/// The model of a [`Syntax`].
pub struct SpecSyntax {
    pub value: Seq<char>,
    pub comments: Seq<Seq<char>>,
}

/// The declared dialect name, e.g. `proto3`, plus leading comments.
#[derive(Debug, Clone, PartialEq)]
pub struct Syntax {
    pub value: String,
    pub comments: Vec<Comment>,
}

impl View for Syntax {
    type V = SpecSyntax;

    open spec fn view(&self) -> SpecSyntax {
        SpecSyntax { value: self.value@, comments: self.comments.deep_view() }
    }
}

impl DeepView for Syntax {
    type V = SpecSyntax;

    open spec fn deep_view(&self) -> SpecSyntax {
        self.view()
    }
}

impl Syntax {
    pub fn new(value: String, comments: Vec<Comment>) -> (r: Self)
        ensures
            r@ == (SpecSyntax { value: value@, comments: comments.deep_view() }),
    {
        Syntax { value, comments }
    }

    pub fn value(&self) -> (r: &str)
        ensures
            r@ == self@.value,
    {
        self.value.as_str()
    }

    pub fn comments(&self) -> (r: &Vec<Comment>)
        ensures
            r.deep_view() == self@.comments,
    {
        &self.comments
    }
}

/// The model of a [`Package`].
pub struct SpecPackage {
    pub value: Seq<char>,
    pub comments: Seq<Seq<char>>,
}

/// The package declaration: a dotted name plus comments.
#[derive(Debug, Clone, PartialEq)]
pub struct Package {
    pub value: String,
    pub comments: Vec<Comment>,
}

impl View for Package {
    type V = SpecPackage;

    open spec fn view(&self) -> SpecPackage {
        SpecPackage { value: self.value@, comments: self.comments.deep_view() }
    }
}

impl DeepView for Package {
    type V = SpecPackage;

    open spec fn deep_view(&self) -> SpecPackage {
        self.view()
    }
}

impl Package {
    pub fn value(&self) -> (r: &str)
        ensures
            r@ == self@.value,
    {
        self.value.as_str()
    }

    pub fn comments(&self) -> (r: &Vec<Comment>)
        ensures
            r.deep_view() == self@.comments,
    {
        &self.comments
    }
}

/// The model of an [`Import`].
pub struct SpecImport {
    pub weak: bool,
    pub public: bool,
    pub value: Seq<char>,
    pub comments: Seq<Seq<char>>,
}

/// An import declaration: a string path and its modifier flags.
#[derive(Debug, Clone, PartialEq)]
pub struct Import {
    pub weak: bool,
    pub public: bool,
    pub value: String,
    pub comments: Vec<Comment>,
}

impl View for Import {
    type V = SpecImport;

    open spec fn view(&self) -> SpecImport {
        SpecImport {
            weak: self.weak,
            public: self.public,
            value: self.value@,
            comments: self.comments.deep_view(),
        }
    }
}

impl DeepView for Import {
    type V = SpecImport;

    open spec fn deep_view(&self) -> SpecImport {
        self.view()
    }
}

impl Import {
    pub fn weak(&self) -> (r: bool)
        ensures
            r == self@.weak,
    {
        self.weak
    }

    pub fn public(&self) -> (r: bool)
        ensures
            r == self@.public,
    {
        self.public
    }

    pub fn value(&self) -> (r: &str)
        ensures
            r@ == self@.value,
    {
        self.value.as_str()
    }

    pub fn comments(&self) -> (r: &Vec<Comment>)
        ensures
            r.deep_view() == self@.comments,
    {
        &self.comments
    }
}

// ---------------------------------------------------------------------
// Constants and types
// ---------------------------------------------------------------------
/// The model of a [`Constant`].
pub enum SpecConstant {
    Ident(SpecIdent),
    Int(i64),
    Float(Seq<char>),
    String(Seq<char>),
    Bool(bool),
}

/// The decoded value of an option or enum-value assignment.  A float
/// constant keeps its literal text (sign included); turning it into a
/// machine float is left to the caller.
#[derive(Debug, Clone, PartialEq)]
pub enum Constant {
    Ident(Ident),
    Int(i64),
    Float(String),
    String(String),
    Bool(bool),
}

impl View for Constant {
    type V = SpecConstant;

    open spec fn view(&self) -> SpecConstant {
        match self {
            Constant::Ident(i) => SpecConstant::Ident(i@),
            Constant::Int(v) => SpecConstant::Int(*v),
            Constant::Float(t) => SpecConstant::Float(t@),
            Constant::String(s) => SpecConstant::String(s@),
            Constant::Bool(b) => SpecConstant::Bool(*b),
        }
    }
}

impl DeepView for Constant {
    type V = SpecConstant;

    open spec fn deep_view(&self) -> SpecConstant {
        self.view()
    }
}

/// The model of a [`Type`].
pub enum SpecType {
    Double,
    Float,
    Int32,
    Int64,
    UInt32,
    UInt64,
    SInt32,
    SInt64,
    Fixed32,
    Fixed64,
    SFixed32,
    SFixed64,
    Bool,
    String,
    Bytes,
    Reference(Seq<char>),
}

/// A field type: one of the fixed scalar kinds, or a reference to a
/// user-defined message or enum type.
#[derive(Debug, Clone, PartialEq)]
pub enum Type {
    Double,
    Float,
    Int32,
    Int64,
    UInt32,
    UInt64,
    SInt32,
    SInt64,
    Fixed32,
    Fixed64,
    SFixed32,
    SFixed64,
    Bool,
    String,
    Bytes,
    Reference(String),
}

impl View for Type {
    type V = SpecType;

    open spec fn view(&self) -> SpecType {
        match self {
            Type::Double => SpecType::Double,
            Type::Float => SpecType::Float,
            Type::Int32 => SpecType::Int32,
            Type::Int64 => SpecType::Int64,
            Type::UInt32 => SpecType::UInt32,
            Type::UInt64 => SpecType::UInt64,
            Type::SInt32 => SpecType::SInt32,
            Type::SInt64 => SpecType::SInt64,
            Type::Fixed32 => SpecType::Fixed32,
            Type::Fixed64 => SpecType::Fixed64,
            Type::SFixed32 => SpecType::SFixed32,
            Type::SFixed64 => SpecType::SFixed64,
            Type::Bool => SpecType::Bool,
            Type::String => SpecType::String,
            Type::Bytes => SpecType::Bytes,
            Type::Reference(name) => SpecType::Reference(name@),
        }
    }
}

impl DeepView for Type {
    type V = SpecType;

    open spec fn deep_view(&self) -> SpecType {
        self.view()
    }
}

/// The scalar kinds allowed as a map field key; floating-point kinds,
/// `bytes` and message types are not valid keys.
#[derive(Debug, Clone, Copy, PartialEq, Eq, Structural)]
pub enum MapFieldKeyType {
    Int32,
    Int64,
    UInt32,
    UInt64,
    SInt32,
    SInt64,
    Fixed32,
    Fixed64,
    SFixed32,
    SFixed64,
    Bool,
    String,
}

impl View for MapFieldKeyType {
    type V = MapFieldKeyType;

    open spec fn view(&self) -> MapFieldKeyType {
        *self
    }
}

impl DeepView for MapFieldKeyType {
    type V = MapFieldKeyType;

    open spec fn deep_view(&self) -> MapFieldKeyType {
        *self
    }
}

// ---------------------------------------------------------------------
// Options
// ---------------------------------------------------------------------
/// The model of a [`ProtoOption`].
pub struct SpecProtoOption {
    pub name: SpecIdent,
    pub value: SpecConstant,
    pub comments: Seq<Seq<char>>,
}

/// An option declaration: a (possibly extension-style) name and a
/// constant value.  Both are required.
#[derive(Debug, Clone, PartialEq)]
pub struct ProtoOption {
    pub name: Ident,
    pub value: Constant,
    pub comments: Vec<Comment>,
}

impl View for ProtoOption {
    type V = SpecProtoOption;

    open spec fn view(&self) -> SpecProtoOption {
        SpecProtoOption {
            name: self.name@,
            value: self.value@,
            comments: self.comments.deep_view(),
        }
    }
}

impl DeepView for ProtoOption {
    type V = SpecProtoOption;

    open spec fn deep_view(&self) -> SpecProtoOption {
        self.view()
    }
}

impl ProtoOption {
    pub fn name(&self) -> (r: &Ident)
        ensures
            r@ == self@.name,
    {
        &self.name
    }

    pub fn value(&self) -> (r: &Constant)
        ensures
            r@ == self@.value,
    {
        &self.value
    }

    pub fn comments(&self) -> (r: &Vec<Comment>)
        ensures
            r.deep_view() == self@.comments,
    {
        &self.comments
    }
}

// ---------------------------------------------------------------------
// Message fields
// ---------------------------------------------------------------------
/// The model of a [`NormalField`].
pub struct SpecNormalField {
    pub repeated: bool,
    pub optional: bool,
    pub ty: SpecType,
    pub name: SpecIdent,
    pub number: u64,
    pub options: Seq<SpecProtoOption>,
    pub comments: Seq<Seq<char>>,
}

/// An ordinary message field.  Type, name and number are required;
/// the `repeated` and `optional` flags default to false.
#[derive(Debug, Clone, PartialEq)]
pub struct NormalField {
    pub repeated: bool,
    pub optional: bool,
    pub ty: Type,
    pub name: Ident,
    pub number: u64,
    pub options: Vec<ProtoOption>,
    pub comments: Vec<Comment>,
}

impl View for NormalField {
    type V = SpecNormalField;

    open spec fn view(&self) -> SpecNormalField {
        SpecNormalField {
            repeated: self.repeated,
            optional: self.optional,
            ty: self.ty@,
            name: self.name@,
            number: self.number,
            options: self.options.deep_view(),
            comments: self.comments.deep_view(),
        }
    }
}

impl DeepView for NormalField {
    type V = SpecNormalField;

    open spec fn deep_view(&self) -> SpecNormalField {
        self.view()
    }
}

impl NormalField {
    pub fn repeated(&self) -> (r: bool)
        ensures
            r == self@.repeated,
    {
        self.repeated
    }

    pub fn optional(&self) -> (r: bool)
        ensures
            r == self@.optional,
    {
        self.optional
    }

    pub fn ty(&self) -> (r: &Type)
        ensures
            r@ == self@.ty,
    {
        &self.ty
    }

    pub fn name(&self) -> (r: &Ident)
        ensures
            r@ == self@.name,
    {
        &self.name
    }

    pub fn number(&self) -> (r: u64)
        ensures
            r == self@.number,
    {
        self.number
    }

    pub fn options(&self) -> (r: &Vec<ProtoOption>)
        ensures
            r.deep_view() == self@.options,
    {
        &self.options
    }

    pub fn comments(&self) -> (r: &Vec<Comment>)
        ensures
            r.deep_view() == self@.comments,
    {
        &self.comments
    }
}

/// The model of a [`OneOfFieldItem`].
pub struct SpecOneOfFieldItem {
    pub ty: SpecType,
    pub name: SpecIdent,
    pub number: u64,
    pub options: Seq<SpecProtoOption>,
    pub comments: Seq<Seq<char>>,
}

/// One alternative inside a one-of group.  Type, name and number are
/// required.
#[derive(Debug, Clone, PartialEq)]
pub struct OneOfFieldItem {
    pub ty: Type,
    pub name: Ident,
    pub number: u64,
    pub options: Vec<ProtoOption>,
    pub comments: Vec<Comment>,
}

impl View for OneOfFieldItem {
    type V = SpecOneOfFieldItem;

    open spec fn view(&self) -> SpecOneOfFieldItem {
        SpecOneOfFieldItem {
            ty: self.ty@,
            name: self.name@,
            number: self.number,
            options: self.options.deep_view(),
            comments: self.comments.deep_view(),
        }
    }
}

impl DeepView for OneOfFieldItem {
    type V = SpecOneOfFieldItem;

    open spec fn deep_view(&self) -> SpecOneOfFieldItem {
        self.view()
    }
}

impl OneOfFieldItem {
    pub fn ty(&self) -> (r: &Type)
        ensures
            r@ == self@.ty,
    {
        &self.ty
    }

    pub fn name(&self) -> (r: &Ident)
        ensures
            r@ == self@.name,
    {
        &self.name
    }

    pub fn number(&self) -> (r: u64)
        ensures
            r == self@.number,
    {
        self.number
    }

    pub fn options(&self) -> (r: &Vec<ProtoOption>)
        ensures
            r.deep_view() == self@.options,
    {
        &self.options
    }

    pub fn comments(&self) -> (r: &Vec<Comment>)
        ensures
            r.deep_view() == self@.comments,
    {
        &self.comments
    }
}

/// The model of a [`OneOfField`].
pub struct SpecOneOfField {
    pub name: SpecIdent,
    pub fields: Seq<SpecOneOfFieldItem>,
    pub options: Seq<SpecProtoOption>,
    pub comments: Seq<Seq<char>>,
}

/// A one-of group: a name and its ordered alternatives.
#[derive(Debug, Clone, PartialEq)]
pub struct OneOfField {
    pub name: Ident,
    pub fields: Vec<OneOfFieldItem>,
    pub options: Vec<ProtoOption>,
    pub comments: Vec<Comment>,
}

impl View for OneOfField {
    type V = SpecOneOfField;

    open spec fn view(&self) -> SpecOneOfField {
        SpecOneOfField {
            name: self.name@,
            fields: self.fields.deep_view(),
            options: self.options.deep_view(),
            comments: self.comments.deep_view(),
        }
    }
}

impl DeepView for OneOfField {
    type V = SpecOneOfField;

    open spec fn deep_view(&self) -> SpecOneOfField {
        self.view()
    }
}

impl OneOfField {
    pub fn name(&self) -> (r: &Ident)
        ensures
            r@ == self@.name,
    {
        &self.name
    }

    pub fn fields(&self) -> (r: &Vec<OneOfFieldItem>)
        ensures
            r.deep_view() == self@.fields,
    {
        &self.fields
    }

    pub fn options(&self) -> (r: &Vec<ProtoOption>)
        ensures
            r.deep_view() == self@.options,
    {
        &self.options
    }

    pub fn comments(&self) -> (r: &Vec<Comment>)
        ensures
            r.deep_view() == self@.comments,
    {
        &self.comments
    }
}

/// The model of a [`MapField`].
pub struct SpecMapField {
    pub key_ty: MapFieldKeyType,
    pub value_ty: SpecType,
    pub name: SpecIdent,
    pub number: u64,
    pub options: Seq<SpecProtoOption>,
    pub comments: Seq<Seq<char>>,
}

/// A map field.  Key type, value type, name and number are required.
#[derive(Debug, Clone, PartialEq)]
pub struct MapField {
    pub key_ty: MapFieldKeyType,
    pub value_ty: Type,
    pub name: Ident,
    pub number: u64,
    pub options: Vec<ProtoOption>,
    pub comments: Vec<Comment>,
}

impl View for MapField {
    type V = SpecMapField;

    open spec fn view(&self) -> SpecMapField {
        SpecMapField {
            key_ty: self.key_ty,
            value_ty: self.value_ty@,
            name: self.name@,
            number: self.number,
            options: self.options.deep_view(),
            comments: self.comments.deep_view(),
        }
    }
}

impl DeepView for MapField {
    type V = SpecMapField;

    open spec fn deep_view(&self) -> SpecMapField {
        self.view()
    }
}

impl MapField {
    pub fn key_ty(&self) -> (r: MapFieldKeyType)
        ensures
            r == self@.key_ty,
    {
        self.key_ty
    }

    pub fn value_ty(&self) -> (r: &Type)
        ensures
            r@ == self@.value_ty,
    {
        &self.value_ty
    }

    pub fn name(&self) -> (r: &Ident)
        ensures
            r@ == self@.name,
    {
        &self.name
    }

    pub fn number(&self) -> (r: u64)
        ensures
            r == self@.number,
    {
        self.number
    }

    pub fn options(&self) -> (r: &Vec<ProtoOption>)
        ensures
            r.deep_view() == self@.options,
    {
        &self.options
    }

    pub fn comments(&self) -> (r: &Vec<Comment>)
        ensures
            r.deep_view() == self@.comments,
    {
        &self.comments
    }
}

/// The model of a [`Field`].
pub enum SpecField {
    Normal(SpecNormalField),
    OneOf(SpecOneOfField),
    Mapping(SpecMapField),
}

/// A message field: ordinary, one-of group, or map.
#[derive(Debug, Clone, PartialEq)]
pub enum Field {
    Normal(NormalField),
    OneOf(OneOfField),
    Mapping(MapField),
}

impl View for Field {
    type V = SpecField;

    open spec fn view(&self) -> SpecField {
        match self {
            Field::Normal(f) => SpecField::Normal(f@),
            Field::OneOf(f) => SpecField::OneOf(f@),
            Field::Mapping(f) => SpecField::Mapping(f@),
        }
    }
}

impl DeepView for Field {
    type V = SpecField;

    open spec fn deep_view(&self) -> SpecField {
        self.view()
    }
}

// ---------------------------------------------------------------------
// Reserved declarations
// ---------------------------------------------------------------------
/// The model of a [`ReservedData`].
pub enum SpecReservedData {
    Range(i64, i64),
    Field(SpecIdent),
}

/// One reserved entry: an inclusive number range or a field name.
#[derive(Debug, Clone, PartialEq)]
pub enum ReservedData {
    Range(i64, i64),
    Field(Ident),
}

impl View for ReservedData {
    type V = SpecReservedData;

    open spec fn view(&self) -> SpecReservedData {
        match self {
            ReservedData::Range(lo, hi) => SpecReservedData::Range(*lo, *hi),
            ReservedData::Field(name) => SpecReservedData::Field(name@),
        }
    }
}

impl DeepView for ReservedData {
    type V = SpecReservedData;

    open spec fn deep_view(&self) -> SpecReservedData {
        self.view()
    }
}

/// The model of a [`ReservedItems`].
pub struct SpecReservedItems {
    pub items: Seq<SpecReservedData>,
    pub comments: Seq<Seq<char>>,
}

/// One `reserved` declaration: its ordered entries plus comments.
#[derive(Debug, Clone, PartialEq)]
pub struct ReservedItems {
    pub items: Vec<ReservedData>,
    pub comments: Vec<Comment>,
}

impl View for ReservedItems {
    type V = SpecReservedItems;

    open spec fn view(&self) -> SpecReservedItems {
        SpecReservedItems { items: self.items.deep_view(), comments: self.comments.deep_view() }
    }
}

impl DeepView for ReservedItems {
    type V = SpecReservedItems;

    open spec fn deep_view(&self) -> SpecReservedItems {
        self.view()
    }
}

impl ReservedItems {
    pub fn items(&self) -> (r: &Vec<ReservedData>)
        ensures
            r.deep_view() == self@.items,
    {
        &self.items
    }

    pub fn comments(&self) -> (r: &Vec<Comment>)
        ensures
            r.deep_view() == self@.comments,
    {
        &self.comments
    }
}

// ---------------------------------------------------------------------
// Enums
// ---------------------------------------------------------------------
/// The model of an [`EnumItem`].
pub struct SpecEnumItem {
    pub name: SpecIdent,
    pub number: i64,
    pub options: Seq<SpecProtoOption>,
    pub comments: Seq<Seq<char>>,
}

/// One enum value: a name and a signed number.
#[derive(Debug, Clone, PartialEq)]
pub struct EnumItem {
    pub name: Ident,
    pub number: i64,
    pub options: Vec<ProtoOption>,
    pub comments: Vec<Comment>,
}

impl View for EnumItem {
    type V = SpecEnumItem;

    open spec fn view(&self) -> SpecEnumItem {
        SpecEnumItem {
            name: self.name@,
            number: self.number,
            options: self.options.deep_view(),
            comments: self.comments.deep_view(),
        }
    }
}

impl DeepView for EnumItem {
    type V = SpecEnumItem;

    open spec fn deep_view(&self) -> SpecEnumItem {
        self.view()
    }
}

impl EnumItem {
    pub fn name(&self) -> (r: &Ident)
        ensures
            r@ == self@.name,
    {
        &self.name
    }

    pub fn number(&self) -> (r: i64)
        ensures
            r == self@.number,
    {
        self.number
    }

    pub fn options(&self) -> (r: &Vec<ProtoOption>)
        ensures
            r.deep_view() == self@.options,
    {
        &self.options
    }

    pub fn comments(&self) -> (r: &Vec<Comment>)
        ensures
            r.deep_view() == self@.comments,
    {
        &self.comments
    }
}

/// The model of an [`Enum`].
pub struct SpecEnum {
    pub name: SpecIdent,
    pub fields: Seq<SpecEnumItem>,
    pub reserved: Seq<SpecReservedItems>,
    pub options: Seq<SpecProtoOption>,
    pub comments: Seq<Seq<char>>,
}

/// An enum declaration.
#[derive(Debug, Clone, PartialEq)]
pub struct Enum {
    pub name: Ident,
    pub fields: Vec<EnumItem>,
    pub reserved: Vec<ReservedItems>,
    pub options: Vec<ProtoOption>,
    pub comments: Vec<Comment>,
}

impl View for Enum {
    type V = SpecEnum;

    open spec fn view(&self) -> SpecEnum {
        SpecEnum {
            name: self.name@,
            fields: self.fields.deep_view(),
            reserved: self.reserved.deep_view(),
            options: self.options.deep_view(),
            comments: self.comments.deep_view(),
        }
    }
}

impl DeepView for Enum {
    type V = SpecEnum;

    open spec fn deep_view(&self) -> SpecEnum {
        self.view()
    }
}

impl Enum {
    pub fn name(&self) -> (r: &Ident)
        ensures
            r@ == self@.name,
    {
        &self.name
    }

    pub fn fields(&self) -> (r: &Vec<EnumItem>)
        ensures
            r.deep_view() == self@.fields,
    {
        &self.fields
    }

    pub fn reserved(&self) -> (r: &Vec<ReservedItems>)
        ensures
            r.deep_view() == self@.reserved,
    {
        &self.reserved
    }

    pub fn options(&self) -> (r: &Vec<ProtoOption>)
        ensures
            r.deep_view() == self@.options,
    {
        &self.options
    }

    pub fn comments(&self) -> (r: &Vec<Comment>)
        ensures
            r.deep_view() == self@.comments,
    {
        &self.comments
    }
}

// ---------------------------------------------------------------------
// Messages
// ---------------------------------------------------------------------
/// The model of a [`Message`].
pub struct SpecMessage {
    pub name: SpecIdent,
    pub fields: Seq<SpecField>,
    pub enums: Seq<SpecEnum>,
    pub messages: Seq<SpecMessage>,
    pub options: Seq<SpecProtoOption>,
    pub reserved: Seq<SpecReservedItems>,
    pub comments: Seq<Seq<char>>,
}

/// A message declaration; nested messages make the type recursive.
#[derive(Debug)]
pub struct Message {
    pub name: Ident,
    pub fields: Vec<Field>,
    pub enums: Vec<Enum>,
    pub messages: Vec<Message>,
    pub options: Vec<ProtoOption>,
    pub reserved: Vec<ReservedItems>,
    pub comments: Vec<Comment>,
}

/// The model of a [`Message`], written as a recursive function because
/// nested messages make the type recursive.
pub open spec fn spec_message_view(m: Message) -> SpecMessage
    decreases m,
{
    SpecMessage {
        name: m.name@,
        fields: m.fields.deep_view(),
        enums: m.enums.deep_view(),
        messages: spec_messages_view(m.messages@),
        options: m.options.deep_view(),
        reserved: m.reserved.deep_view(),
        comments: m.comments.deep_view(),
    }
}

/// The models of a sequence of messages, in order.
pub open spec fn spec_messages_view(ms: Seq<Message>) -> Seq<SpecMessage>
    decreases ms,
{
    if ms.len() == 0 {
        Seq::empty()
    } else {
        seq![spec_message_view(ms[0])] + spec_messages_view(ms.subrange(1, ms.len() as int))
    }
}

impl View for Message {
    type V = SpecMessage;

    open spec fn view(&self) -> SpecMessage {
        spec_message_view(*self)
    }
}

/// The view of a message sequence is the sequence of the views, in
/// order.
pub proof fn lemma_messages_view_props(ms: Seq<Message>)
    ensures
        spec_messages_view(ms).len() == ms.len(),
        forall|i: int|
            0 <= i < ms.len() ==> #[trigger] spec_messages_view(ms)[i] == spec_message_view(
                ms[i],
            ),
    decreases ms,
{
    if ms.len() > 0 {
        lemma_messages_view_props(ms.subrange(1, ms.len() as int));
    }
}

/// Appending a message appends its view.
pub proof fn lemma_messages_view_push(ms: Seq<Message>, m: Message)
    ensures
        spec_messages_view(ms.push(m)) == spec_messages_view(ms).push(spec_message_view(m)),
    decreases ms,
{
    let whole = ms.push(m);
    if ms.len() == 0 {
        assert(whole[0] == m);
        assert(whole.subrange(1, whole.len() as int) =~= Seq::<Message>::empty());
        assert(spec_messages_view(whole.subrange(1, whole.len() as int))
            == Seq::<SpecMessage>::empty());
        assert(spec_messages_view(ms) == Seq::<SpecMessage>::empty());
        assert(seq![spec_message_view(m)] + Seq::<SpecMessage>::empty()
            =~= Seq::<SpecMessage>::empty().push(spec_message_view(m)));
    } else {
        let rest = ms.subrange(1, ms.len() as int);
        lemma_messages_view_push(rest, m);
        assert(whole.subrange(1, whole.len() as int) =~= rest.push(m));
        assert(seq![spec_message_view(ms[0])] + spec_messages_view(rest).push(
            spec_message_view(m),
        ) =~= (seq![spec_message_view(ms[0])] + spec_messages_view(rest)).push(
            spec_message_view(m),
        ));
    }
}

impl DeepView for Message {
    type V = SpecMessage;

    open spec fn deep_view(&self) -> SpecMessage {
        self.view()
    }
}

impl Message {
    pub fn name(&self) -> (r: &Ident)
        ensures
            r@ == self@.name,
    {
        &self.name
    }

    pub fn fields(&self) -> (r: &Vec<Field>)
        ensures
            r.deep_view() == self@.fields,
    {
        &self.fields
    }

    pub fn enums(&self) -> (r: &Vec<Enum>)
        ensures
            r.deep_view() == self@.enums,
    {
        &self.enums
    }

    pub fn messages(&self) -> (r: &Vec<Message>)
        ensures
            spec_messages_view(r@) == self@.messages,
    {
        &self.messages
    }

    pub fn options(&self) -> (r: &Vec<ProtoOption>)
        ensures
            r.deep_view() == self@.options,
    {
        &self.options
    }

    pub fn reserved(&self) -> (r: &Vec<ReservedItems>)
        ensures
            r.deep_view() == self@.reserved,
    {
        &self.reserved
    }

    pub fn comments(&self) -> (r: &Vec<Comment>)
        ensures
            r.deep_view() == self@.comments,
    {
        &self.comments
    }
}

// ---------------------------------------------------------------------
// Services
// ---------------------------------------------------------------------
/// The model of a [`ServiceRpcField`].
pub struct SpecServiceRpcField {
    pub value: Seq<char>,
    pub stream: bool,
}

/// The input or output of an rpc: a message-type reference and a
/// `stream` flag (default false).
#[derive(Debug, Clone, PartialEq)]
pub struct ServiceRpcField {
    pub value: MessageReference,
    pub stream: bool,
}

impl View for ServiceRpcField {
    type V = SpecServiceRpcField;

    open spec fn view(&self) -> SpecServiceRpcField {
        SpecServiceRpcField { value: self.value@, stream: self.stream }
    }
}

impl DeepView for ServiceRpcField {
    type V = SpecServiceRpcField;

    open spec fn deep_view(&self) -> SpecServiceRpcField {
        self.view()
    }
}

impl ServiceRpcField {
    pub fn value(&self) -> (r: &MessageReference)
        ensures
            r@ == self@.value,
    {
        &self.value
    }

    pub fn stream(&self) -> (r: bool)
        ensures
            r == self@.stream,
    {
        self.stream
    }
}

/// The model of a [`ServiceRpc`].
pub struct SpecServiceRpc {
    pub name: SpecIdent,
    pub input: SpecServiceRpcField,
    pub output: SpecServiceRpcField,
    pub options: Seq<SpecProtoOption>,
    pub comments: Seq<Seq<char>>,
}

/// One rpc of a service.  Name, input and output are required.
#[derive(Debug, Clone, PartialEq)]
pub struct ServiceRpc {
    pub name: Ident,
    pub input: ServiceRpcField,
    pub output: ServiceRpcField,
    pub options: Vec<ProtoOption>,
    pub comments: Vec<Comment>,
}

impl View for ServiceRpc {
    type V = SpecServiceRpc;

    open spec fn view(&self) -> SpecServiceRpc {
        SpecServiceRpc {
            name: self.name@,
            input: self.input@,
            output: self.output@,
            options: self.options.deep_view(),
            comments: self.comments.deep_view(),
        }
    }
}

impl DeepView for ServiceRpc {
    type V = SpecServiceRpc;

    open spec fn deep_view(&self) -> SpecServiceRpc {
        self.view()
    }
}

impl ServiceRpc {
    pub fn name(&self) -> (r: &Ident)
        ensures
            r@ == self@.name,
    {
        &self.name
    }

    pub fn input(&self) -> (r: &ServiceRpcField)
        ensures
            r@ == self@.input,
    {
        &self.input
    }

    pub fn output(&self) -> (r: &ServiceRpcField)
        ensures
            r@ == self@.output,
    {
        &self.output
    }

    pub fn options(&self) -> (r: &Vec<ProtoOption>)
        ensures
            r.deep_view() == self@.options,
    {
        &self.options
    }

    pub fn comments(&self) -> (r: &Vec<Comment>)
        ensures
            r.deep_view() == self@.comments,
    {
        &self.comments
    }
}

/// The model of a [`Service`].
pub struct SpecService {
    pub name: SpecIdent,
    pub rpcs: Seq<SpecServiceRpc>,
    pub options: Seq<SpecProtoOption>,
    pub comments: Seq<Seq<char>>,
}

/// A service declaration and its ordered rpcs.
#[derive(Debug, Clone, PartialEq)]
pub struct Service {
    pub name: Ident,
    pub rpcs: Vec<ServiceRpc>,
    pub options: Vec<ProtoOption>,
    pub comments: Vec<Comment>,
}

impl View for Service {
    type V = SpecService;

    open spec fn view(&self) -> SpecService {
        SpecService {
            name: self.name@,
            rpcs: self.rpcs.deep_view(),
            options: self.options.deep_view(),
            comments: self.comments.deep_view(),
        }
    }
}

impl DeepView for Service {
    type V = SpecService;

    open spec fn deep_view(&self) -> SpecService {
        self.view()
    }
}

impl Service {
    pub fn name(&self) -> (r: &Ident)
        ensures
            r@ == self@.name,
    {
        &self.name
    }

    pub fn rpcs(&self) -> (r: &Vec<ServiceRpc>)
        ensures
            r.deep_view() == self@.rpcs,
    {
        &self.rpcs
    }

    pub fn options(&self) -> (r: &Vec<ProtoOption>)
        ensures
            r.deep_view() == self@.options,
    {
        &self.options
    }

    pub fn comments(&self) -> (r: &Vec<Comment>)
        ensures
            r.deep_view() == self@.comments,
    {
        &self.comments
    }
}

// ---------------------------------------------------------------------
// The root
// ---------------------------------------------------------------------
/// The model of a [`Proto`].
pub struct SpecProto {
    pub syntax: SpecSyntax,
    pub package: SpecPackage,
    pub imports: Seq<SpecImport>,
    pub options: Seq<SpecProtoOption>,
    pub messages: Seq<SpecMessage>,
    pub enums: Seq<SpecEnum>,
    pub services: Seq<SpecService>,
}

/// The root of a parsed file.
#[derive(Debug)]
pub struct Proto {
    pub syntax: Syntax,
    pub package: Package,
    pub imports: Vec<Import>,
    pub options: Vec<ProtoOption>,
    pub messages: Vec<Message>,
    pub enums: Vec<Enum>,
    pub services: Vec<Service>,
}

impl View for Proto {
    type V = SpecProto;

    open spec fn view(&self) -> SpecProto {
        SpecProto {
            syntax: self.syntax@,
            package: self.package@,
            imports: self.imports.deep_view(),
            options: self.options.deep_view(),
            messages: spec_messages_view(self.messages@),
            enums: self.enums.deep_view(),
            services: self.services.deep_view(),
        }
    }
}

impl DeepView for Proto {
    type V = SpecProto;

    open spec fn deep_view(&self) -> SpecProto {
        self.view()
    }
}

impl Proto {
    pub fn syntax(&self) -> (r: &Syntax)
        ensures
            r@ == self@.syntax,
    {
        &self.syntax
    }

    pub fn package(&self) -> (r: &Package)
        ensures
            r@ == self@.package,
    {
        &self.package
    }

    pub fn imports(&self) -> (r: &Vec<Import>)
        ensures
            r.deep_view() == self@.imports,
    {
        &self.imports
    }

    pub fn options(&self) -> (r: &Vec<ProtoOption>)
        ensures
            r.deep_view() == self@.options,
    {
        &self.options
    }

    pub fn messages(&self) -> (r: &Vec<Message>)
        ensures
            spec_messages_view(r@) == self@.messages,
    {
        &self.messages
    }

    pub fn enums(&self) -> (r: &Vec<Enum>)
        ensures
            r.deep_view() == self@.enums,
    {
        &self.enums
    }

    pub fn services(&self) -> (r: &Vec<Service>)
        ensures
            r.deep_view() == self@.services,
    {
        &self.services
    }
}

} // verus!
