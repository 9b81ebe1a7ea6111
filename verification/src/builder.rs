//! The builder layer: one accumulator per node kind that has required
//! fields.  Set operations overwrite (last write wins), add operations
//! append in call order, and finalize either produces the node or
//! fails naming every required field still unset.
use vstd::prelude::*;
use crate::error::{Error, NodeKind, RequiredField, SpecError};
use crate::model::{
    Comment, Constant, Enum, Field, Ident, MapField, MapFieldKeyType, Message, MessageReference,
    NormalField, OneOfFieldItem, ProtoOption, ReservedItems, ServiceRpc, ServiceRpcField,
    SpecConstant, SpecEnum, SpecField, SpecIdent, SpecMapField, SpecMessage, SpecNormalField,
    SpecOneOfFieldItem, SpecProtoOption, SpecReservedItems, SpecServiceRpc, SpecServiceRpcField,
    SpecType, Type, spec_message_view, spec_messages_view,
};

verus! {

/// The model of a [`ProtoOptionBuilder`].
pub struct SpecProtoOptionBuilder {
    pub name: Option<SpecIdent>,
    pub value: Option<SpecConstant>,
    pub comments: Seq<Seq<char>>,
}

/// Accumulates a [`ProtoOption`].
#[derive(Debug)]
pub struct ProtoOptionBuilder {
    pub name: Option<Ident>,
    pub value: Option<Constant>,
    pub comments: Vec<Comment>,
}

impl View for ProtoOptionBuilder {
    type V = SpecProtoOptionBuilder;

    open spec fn view(&self) -> SpecProtoOptionBuilder {
        SpecProtoOptionBuilder {
            name: match self.name { Some(v) => Some(v@), None => None },
            value: match self.value { Some(v) => Some(v@), None => None },
            comments: self.comments.deep_view(),
        }
    }
}

/// The empty state of a [`ProtoOptionBuilder`].
pub open spec fn sp_proto_option_builder_empty() -> SpecProtoOptionBuilder {
    SpecProtoOptionBuilder {
        name: None,
        value: None,
        comments: Seq::<Seq<char>>::empty(),
    }
}

/// What finalizing a [`ProtoOptionBuilder`] yields: the node when every
/// required field is set, else the missing fields in declaration order.
pub open spec fn sp_build_proto_option(b: SpecProtoOptionBuilder) -> Result<SpecProtoOption, SpecError> {
    if b.name is None || b.value is None {
        Err(SpecError::MissingRequiredField(NodeKind::ProtoOption, (if b.name is None { seq![RequiredField::Name] } else { Seq::empty() }) + (if b.value is None { seq![RequiredField::Value] } else { Seq::empty() })))
    } else {
        Ok(SpecProtoOption {
            name: b.name->0,
            value: b.value->0,
            comments: b.comments,
        })
    }
}

impl ProtoOptionBuilder {
    pub fn new() -> (r: Self)
        ensures
            r@ == sp_proto_option_builder_empty(),
    {
        let r = ProtoOptionBuilder {
            name: None,
            value: None,
            comments: Vec::new(),
        };
        proof {
            assert(r.comments.deep_view() =~= Seq::<Seq<char>>::empty());
        }
        r
    }

    pub fn set_name(&mut self, name: Ident)
        ensures
            final(self)@ == (SpecProtoOptionBuilder { name: Some(name@), ..old(self)@ }),
    {
        self.name = Some(name);
    }

    pub fn set_value(&mut self, value: Constant)
        ensures
            final(self)@ == (SpecProtoOptionBuilder { value: Some(value@), ..old(self)@ }),
    {
        self.value = Some(value);
    }

    /// Appends one comment.
    pub fn with_comment(&mut self, item: Comment)
        ensures
            final(self)@ == (SpecProtoOptionBuilder { comments: old(self)@.comments.push(item.deep_view()), ..old(self)@ }),
    {
        let ghost prev = self@.comments;
        self.comments.push(item);
        proof {
            assert(self.comments.deep_view() =~= prev.push(item.deep_view()));
        }
    }

    pub fn build(self) -> (r: Result<ProtoOption, Error>)
        ensures
            match (r, sp_build_proto_option(self@)) {
                (Ok(v), Ok(sv)) => v@ == sv,
                (Err(e), Err(se)) => e@ == se,
                _ => false,
            },
    {
        let mut missing: Vec<RequiredField> = Vec::new();
        if self.name.is_none() {
            missing.push(RequiredField::Name);
        }
        if self.value.is_none() {
            missing.push(RequiredField::Value);
        }
        if missing.len() > 0 {
            proof {
                assert(missing.deep_view() =~= (if self@.name is None { seq![RequiredField::Name] } else { Seq::empty() }) + (if self@.value is None { seq![RequiredField::Value] } else { Seq::empty() }));
            }
            return Err(Error::MissingRequiredField(NodeKind::ProtoOption, missing));
        }
        match (self.name, self.value) {
            (Some(name), Some(value)) => Ok(ProtoOption {
                name,
                value,
                comments: self.comments,
            }),
            _ => Err(Error::MissingRequiredField(NodeKind::ProtoOption, missing)),
        }
    }
}

/// The model of a [`NormalFieldBuilder`].
pub struct SpecNormalFieldBuilder {
    pub ty: Option<SpecType>,
    pub name: Option<SpecIdent>,
    pub number: Option<u64>,
    pub repeated: bool,
    pub optional: bool,
    pub options: Seq<SpecProtoOption>,
    pub comments: Seq<Seq<char>>,
}

/// Accumulates a [`NormalField`].
#[derive(Debug)]
pub struct NormalFieldBuilder {
    pub ty: Option<Type>,
    pub name: Option<Ident>,
    pub number: Option<u64>,
    pub repeated: bool,
    pub optional: bool,
    pub options: Vec<ProtoOption>,
    pub comments: Vec<Comment>,
}

impl View for NormalFieldBuilder {
    type V = SpecNormalFieldBuilder;

    open spec fn view(&self) -> SpecNormalFieldBuilder {
        SpecNormalFieldBuilder {
            ty: match self.ty { Some(v) => Some(v@), None => None },
            name: match self.name { Some(v) => Some(v@), None => None },
            number: self.number,
            repeated: self.repeated,
            optional: self.optional,
            options: self.options.deep_view(),
            comments: self.comments.deep_view(),
        }
    }
}

/// The empty state of a [`NormalFieldBuilder`].
pub open spec fn sp_normal_field_builder_empty() -> SpecNormalFieldBuilder {
    SpecNormalFieldBuilder {
        ty: None,
        name: None,
        number: None,
        repeated: false,
        optional: false,
        options: Seq::<SpecProtoOption>::empty(),
        comments: Seq::<Seq<char>>::empty(),
    }
}

/// What finalizing a [`NormalFieldBuilder`] yields: the node when every
/// required field is set, else the missing fields in declaration order.
pub open spec fn sp_build_normal_field(b: SpecNormalFieldBuilder) -> Result<SpecNormalField, SpecError> {
    if b.ty is None || b.name is None || b.number is None {
        Err(SpecError::MissingRequiredField(NodeKind::NormalField, (if b.ty is None { seq![RequiredField::Ty] } else { Seq::empty() }) + (if b.name is None { seq![RequiredField::Name] } else { Seq::empty() }) + (if b.number is None { seq![RequiredField::Number] } else { Seq::empty() })))
    } else {
        Ok(SpecNormalField {
            ty: b.ty->0,
            name: b.name->0,
            number: b.number->0,
            repeated: b.repeated,
            optional: b.optional,
            options: b.options,
            comments: b.comments,
        })
    }
}

impl NormalFieldBuilder {
    pub fn new() -> (r: Self)
        ensures
            r@ == sp_normal_field_builder_empty(),
    {
        let r = NormalFieldBuilder {
            ty: None,
            name: None,
            number: None,
            repeated: false,
            optional: false,
            options: Vec::new(),
            comments: Vec::new(),
        };
        proof {
            assert(r.options.deep_view() =~= Seq::<SpecProtoOption>::empty());
            assert(r.comments.deep_view() =~= Seq::<Seq<char>>::empty());
        }
        r
    }

    pub fn set_ty(&mut self, ty: Type)
        ensures
            final(self)@ == (SpecNormalFieldBuilder { ty: Some(ty@), ..old(self)@ }),
    {
        self.ty = Some(ty);
    }

    pub fn set_name(&mut self, name: Ident)
        ensures
            final(self)@ == (SpecNormalFieldBuilder { name: Some(name@), ..old(self)@ }),
    {
        self.name = Some(name);
    }

    pub fn set_number(&mut self, number: u64)
        ensures
            final(self)@ == (SpecNormalFieldBuilder { number: Some(number), ..old(self)@ }),
    {
        self.number = Some(number);
    }

    pub fn set_repeated(&mut self, repeated: bool)
        ensures
            final(self)@ == (SpecNormalFieldBuilder { repeated, ..old(self)@ }),
    {
        self.repeated = repeated;
    }

    pub fn set_optional(&mut self, optional: bool)
        ensures
            final(self)@ == (SpecNormalFieldBuilder { optional, ..old(self)@ }),
    {
        self.optional = optional;
    }

    /// Appends one option.
    pub fn with_option(&mut self, item: ProtoOption)
        ensures
            final(self)@ == (SpecNormalFieldBuilder { options: old(self)@.options.push(item.deep_view()), ..old(self)@ }),
    {
        let ghost prev = self@.options;
        self.options.push(item);
        proof {
            assert(self.options.deep_view() =~= prev.push(item.deep_view()));
        }
    }

    /// Appends one comment.
    pub fn with_comment(&mut self, item: Comment)
        ensures
            final(self)@ == (SpecNormalFieldBuilder { comments: old(self)@.comments.push(item.deep_view()), ..old(self)@ }),
    {
        let ghost prev = self@.comments;
        self.comments.push(item);
        proof {
            assert(self.comments.deep_view() =~= prev.push(item.deep_view()));
        }
    }

    pub fn build(self) -> (r: Result<NormalField, Error>)
        ensures
            match (r, sp_build_normal_field(self@)) {
                (Ok(v), Ok(sv)) => v@ == sv,
                (Err(e), Err(se)) => e@ == se,
                _ => false,
            },
    {
        let mut missing: Vec<RequiredField> = Vec::new();
        if self.ty.is_none() {
            missing.push(RequiredField::Ty);
        }
        if self.name.is_none() {
            missing.push(RequiredField::Name);
        }
        if self.number.is_none() {
            missing.push(RequiredField::Number);
        }
        if missing.len() > 0 {
            proof {
                assert(missing.deep_view() =~= (if self@.ty is None { seq![RequiredField::Ty] } else { Seq::empty() }) + (if self@.name is None { seq![RequiredField::Name] } else { Seq::empty() }) + (if self@.number is None { seq![RequiredField::Number] } else { Seq::empty() }));
            }
            return Err(Error::MissingRequiredField(NodeKind::NormalField, missing));
        }
        match (self.ty, self.name, self.number) {
            (Some(ty), Some(name), Some(number)) => Ok(NormalField {
                ty,
                name,
                number,
                repeated: self.repeated,
                optional: self.optional,
                options: self.options,
                comments: self.comments,
            }),
            _ => Err(Error::MissingRequiredField(NodeKind::NormalField, missing)),
        }
    }
}

/// The model of a [`OneOfFieldItemBuilder`].
pub struct SpecOneOfFieldItemBuilder {
    pub ty: Option<SpecType>,
    pub name: Option<SpecIdent>,
    pub number: Option<u64>,
    pub options: Seq<SpecProtoOption>,
    pub comments: Seq<Seq<char>>,
}

/// Accumulates a [`OneOfFieldItem`].
#[derive(Debug)]
pub struct OneOfFieldItemBuilder {
    pub ty: Option<Type>,
    pub name: Option<Ident>,
    pub number: Option<u64>,
    pub options: Vec<ProtoOption>,
    pub comments: Vec<Comment>,
}

impl View for OneOfFieldItemBuilder {
    type V = SpecOneOfFieldItemBuilder;

    open spec fn view(&self) -> SpecOneOfFieldItemBuilder {
        SpecOneOfFieldItemBuilder {
            ty: match self.ty { Some(v) => Some(v@), None => None },
            name: match self.name { Some(v) => Some(v@), None => None },
            number: self.number,
            options: self.options.deep_view(),
            comments: self.comments.deep_view(),
        }
    }
}

/// The empty state of a [`OneOfFieldItemBuilder`].
pub open spec fn sp_one_of_field_item_builder_empty() -> SpecOneOfFieldItemBuilder {
    SpecOneOfFieldItemBuilder {
        ty: None,
        name: None,
        number: None,
        options: Seq::<SpecProtoOption>::empty(),
        comments: Seq::<Seq<char>>::empty(),
    }
}

/// What finalizing a [`OneOfFieldItemBuilder`] yields: the node when every
/// required field is set, else the missing fields in declaration order.
pub open spec fn sp_build_one_of_field_item(b: SpecOneOfFieldItemBuilder) -> Result<SpecOneOfFieldItem, SpecError> {
    if b.ty is None || b.name is None || b.number is None {
        Err(SpecError::MissingRequiredField(NodeKind::OneOfFieldItem, (if b.ty is None { seq![RequiredField::Ty] } else { Seq::empty() }) + (if b.name is None { seq![RequiredField::Name] } else { Seq::empty() }) + (if b.number is None { seq![RequiredField::Number] } else { Seq::empty() })))
    } else {
        Ok(SpecOneOfFieldItem {
            ty: b.ty->0,
            name: b.name->0,
            number: b.number->0,
            options: b.options,
            comments: b.comments,
        })
    }
}

impl OneOfFieldItemBuilder {
    pub fn new() -> (r: Self)
        ensures
            r@ == sp_one_of_field_item_builder_empty(),
    {
        let r = OneOfFieldItemBuilder {
            ty: None,
            name: None,
            number: None,
            options: Vec::new(),
            comments: Vec::new(),
        };
        proof {
            assert(r.options.deep_view() =~= Seq::<SpecProtoOption>::empty());
            assert(r.comments.deep_view() =~= Seq::<Seq<char>>::empty());
        }
        r
    }

    pub fn set_ty(&mut self, ty: Type)
        ensures
            final(self)@ == (SpecOneOfFieldItemBuilder { ty: Some(ty@), ..old(self)@ }),
    {
        self.ty = Some(ty);
    }

    pub fn set_name(&mut self, name: Ident)
        ensures
            final(self)@ == (SpecOneOfFieldItemBuilder { name: Some(name@), ..old(self)@ }),
    {
        self.name = Some(name);
    }

    pub fn set_number(&mut self, number: u64)
        ensures
            final(self)@ == (SpecOneOfFieldItemBuilder { number: Some(number), ..old(self)@ }),
    {
        self.number = Some(number);
    }

    /// Appends one option.
    pub fn with_option(&mut self, item: ProtoOption)
        ensures
            final(self)@ == (SpecOneOfFieldItemBuilder { options: old(self)@.options.push(item.deep_view()), ..old(self)@ }),
    {
        let ghost prev = self@.options;
        self.options.push(item);
        proof {
            assert(self.options.deep_view() =~= prev.push(item.deep_view()));
        }
    }

    /// Appends one comment.
    pub fn with_comment(&mut self, item: Comment)
        ensures
            final(self)@ == (SpecOneOfFieldItemBuilder { comments: old(self)@.comments.push(item.deep_view()), ..old(self)@ }),
    {
        let ghost prev = self@.comments;
        self.comments.push(item);
        proof {
            assert(self.comments.deep_view() =~= prev.push(item.deep_view()));
        }
    }

    pub fn build(self) -> (r: Result<OneOfFieldItem, Error>)
        ensures
            match (r, sp_build_one_of_field_item(self@)) {
                (Ok(v), Ok(sv)) => v@ == sv,
                (Err(e), Err(se)) => e@ == se,
                _ => false,
            },
    {
        let mut missing: Vec<RequiredField> = Vec::new();
        if self.ty.is_none() {
            missing.push(RequiredField::Ty);
        }
        if self.name.is_none() {
            missing.push(RequiredField::Name);
        }
        if self.number.is_none() {
            missing.push(RequiredField::Number);
        }
        if missing.len() > 0 {
            proof {
                assert(missing.deep_view() =~= (if self@.ty is None { seq![RequiredField::Ty] } else { Seq::empty() }) + (if self@.name is None { seq![RequiredField::Name] } else { Seq::empty() }) + (if self@.number is None { seq![RequiredField::Number] } else { Seq::empty() }));
            }
            return Err(Error::MissingRequiredField(NodeKind::OneOfFieldItem, missing));
        }
        match (self.ty, self.name, self.number) {
            (Some(ty), Some(name), Some(number)) => Ok(OneOfFieldItem {
                ty,
                name,
                number,
                options: self.options,
                comments: self.comments,
            }),
            _ => Err(Error::MissingRequiredField(NodeKind::OneOfFieldItem, missing)),
        }
    }
}

/// The model of a [`MapFieldBuilder`].
pub struct SpecMapFieldBuilder {
    pub key_ty: Option<MapFieldKeyType>,
    pub value_ty: Option<SpecType>,
    pub name: Option<SpecIdent>,
    pub number: Option<u64>,
    pub options: Seq<SpecProtoOption>,
    pub comments: Seq<Seq<char>>,
}

/// Accumulates a [`MapField`].
#[derive(Debug)]
pub struct MapFieldBuilder {
    pub key_ty: Option<MapFieldKeyType>,
    pub value_ty: Option<Type>,
    pub name: Option<Ident>,
    pub number: Option<u64>,
    pub options: Vec<ProtoOption>,
    pub comments: Vec<Comment>,
}

impl View for MapFieldBuilder {
    type V = SpecMapFieldBuilder;

    open spec fn view(&self) -> SpecMapFieldBuilder {
        SpecMapFieldBuilder {
            key_ty: self.key_ty,
            value_ty: match self.value_ty { Some(v) => Some(v@), None => None },
            name: match self.name { Some(v) => Some(v@), None => None },
            number: self.number,
            options: self.options.deep_view(),
            comments: self.comments.deep_view(),
        }
    }
}

/// The empty state of a [`MapFieldBuilder`].
pub open spec fn sp_map_field_builder_empty() -> SpecMapFieldBuilder {
    SpecMapFieldBuilder {
        key_ty: None,
        value_ty: None,
        name: None,
        number: None,
        options: Seq::<SpecProtoOption>::empty(),
        comments: Seq::<Seq<char>>::empty(),
    }
}

/// What finalizing a [`MapFieldBuilder`] yields: the node when every
/// required field is set, else the missing fields in declaration order.
pub open spec fn sp_build_map_field(b: SpecMapFieldBuilder) -> Result<SpecMapField, SpecError> {
    if b.key_ty is None || b.value_ty is None || b.name is None || b.number is None {
        Err(SpecError::MissingRequiredField(NodeKind::MapField, (if b.key_ty is None { seq![RequiredField::KeyTy] } else { Seq::empty() }) + (if b.value_ty is None { seq![RequiredField::ValueTy] } else { Seq::empty() }) + (if b.name is None { seq![RequiredField::Name] } else { Seq::empty() }) + (if b.number is None { seq![RequiredField::Number] } else { Seq::empty() })))
    } else {
        Ok(SpecMapField {
            key_ty: b.key_ty->0,
            value_ty: b.value_ty->0,
            name: b.name->0,
            number: b.number->0,
            options: b.options,
            comments: b.comments,
        })
    }
}

impl MapFieldBuilder {
    pub fn new() -> (r: Self)
        ensures
            r@ == sp_map_field_builder_empty(),
    {
        let r = MapFieldBuilder {
            key_ty: None,
            value_ty: None,
            name: None,
            number: None,
            options: Vec::new(),
            comments: Vec::new(),
        };
        proof {
            assert(r.options.deep_view() =~= Seq::<SpecProtoOption>::empty());
            assert(r.comments.deep_view() =~= Seq::<Seq<char>>::empty());
        }
        r
    }

    pub fn set_key_ty(&mut self, key_ty: MapFieldKeyType)
        ensures
            final(self)@ == (SpecMapFieldBuilder { key_ty: Some(key_ty), ..old(self)@ }),
    {
        self.key_ty = Some(key_ty);
    }

    pub fn set_value_ty(&mut self, value_ty: Type)
        ensures
            final(self)@ == (SpecMapFieldBuilder { value_ty: Some(value_ty@), ..old(self)@ }),
    {
        self.value_ty = Some(value_ty);
    }

    pub fn set_name(&mut self, name: Ident)
        ensures
            final(self)@ == (SpecMapFieldBuilder { name: Some(name@), ..old(self)@ }),
    {
        self.name = Some(name);
    }

    pub fn set_number(&mut self, number: u64)
        ensures
            final(self)@ == (SpecMapFieldBuilder { number: Some(number), ..old(self)@ }),
    {
        self.number = Some(number);
    }

    /// Appends one option.
    pub fn with_option(&mut self, item: ProtoOption)
        ensures
            final(self)@ == (SpecMapFieldBuilder { options: old(self)@.options.push(item.deep_view()), ..old(self)@ }),
    {
        let ghost prev = self@.options;
        self.options.push(item);
        proof {
            assert(self.options.deep_view() =~= prev.push(item.deep_view()));
        }
    }

    /// Appends one comment.
    pub fn with_comment(&mut self, item: Comment)
        ensures
            final(self)@ == (SpecMapFieldBuilder { comments: old(self)@.comments.push(item.deep_view()), ..old(self)@ }),
    {
        let ghost prev = self@.comments;
        self.comments.push(item);
        proof {
            assert(self.comments.deep_view() =~= prev.push(item.deep_view()));
        }
    }

    pub fn build(self) -> (r: Result<MapField, Error>)
        ensures
            match (r, sp_build_map_field(self@)) {
                (Ok(v), Ok(sv)) => v@ == sv,
                (Err(e), Err(se)) => e@ == se,
                _ => false,
            },
    {
        let mut missing: Vec<RequiredField> = Vec::new();
        if self.key_ty.is_none() {
            missing.push(RequiredField::KeyTy);
        }
        if self.value_ty.is_none() {
            missing.push(RequiredField::ValueTy);
        }
        if self.name.is_none() {
            missing.push(RequiredField::Name);
        }
        if self.number.is_none() {
            missing.push(RequiredField::Number);
        }
        if missing.len() > 0 {
            proof {
                assert(missing.deep_view() =~= (if self@.key_ty is None { seq![RequiredField::KeyTy] } else { Seq::empty() }) + (if self@.value_ty is None { seq![RequiredField::ValueTy] } else { Seq::empty() }) + (if self@.name is None { seq![RequiredField::Name] } else { Seq::empty() }) + (if self@.number is None { seq![RequiredField::Number] } else { Seq::empty() }));
            }
            return Err(Error::MissingRequiredField(NodeKind::MapField, missing));
        }
        match (self.key_ty, self.value_ty, self.name, self.number) {
            (Some(key_ty), Some(value_ty), Some(name), Some(number)) => Ok(MapField {
                key_ty,
                value_ty,
                name,
                number,
                options: self.options,
                comments: self.comments,
            }),
            _ => Err(Error::MissingRequiredField(NodeKind::MapField, missing)),
        }
    }
}

/// The model of a [`ServiceRpcFieldBuilder`].
pub struct SpecServiceRpcFieldBuilder {
    pub value: Option<Seq<char>>,
    pub stream: bool,
}

/// Accumulates a [`ServiceRpcField`].
#[derive(Debug)]
pub struct ServiceRpcFieldBuilder {
    pub value: Option<MessageReference>,
    pub stream: bool,
}

impl View for ServiceRpcFieldBuilder {
    type V = SpecServiceRpcFieldBuilder;

    open spec fn view(&self) -> SpecServiceRpcFieldBuilder {
        SpecServiceRpcFieldBuilder {
            value: match self.value { Some(v) => Some(v@), None => None },
            stream: self.stream,
        }
    }
}

/// The empty state of a [`ServiceRpcFieldBuilder`].
pub open spec fn sp_service_rpc_field_builder_empty() -> SpecServiceRpcFieldBuilder {
    SpecServiceRpcFieldBuilder {
        value: None,
        stream: false,
    }
}

/// What finalizing a [`ServiceRpcFieldBuilder`] yields: the node when every
/// required field is set, else the missing fields in declaration order.
pub open spec fn sp_build_service_rpc_field(b: SpecServiceRpcFieldBuilder) -> Result<SpecServiceRpcField, SpecError> {
    if b.value is None {
        Err(SpecError::MissingRequiredField(NodeKind::ServiceRpcField, (if b.value is None { seq![RequiredField::Value] } else { Seq::empty() })))
    } else {
        Ok(SpecServiceRpcField {
            value: b.value->0,
            stream: b.stream,
        })
    }
}

impl ServiceRpcFieldBuilder {
    pub fn new() -> (r: Self)
        ensures
            r@ == sp_service_rpc_field_builder_empty(),
    {
        let r = ServiceRpcFieldBuilder {
            value: None,
            stream: false,
        };
        r
    }

    pub fn set_value(&mut self, value: MessageReference)
        ensures
            final(self)@ == (SpecServiceRpcFieldBuilder { value: Some(value@), ..old(self)@ }),
    {
        self.value = Some(value);
    }

    pub fn set_stream(&mut self, stream: bool)
        ensures
            final(self)@ == (SpecServiceRpcFieldBuilder { stream, ..old(self)@ }),
    {
        self.stream = stream;
    }

    pub fn build(self) -> (r: Result<ServiceRpcField, Error>)
        ensures
            match (r, sp_build_service_rpc_field(self@)) {
                (Ok(v), Ok(sv)) => v@ == sv,
                (Err(e), Err(se)) => e@ == se,
                _ => false,
            },
    {
        let mut missing: Vec<RequiredField> = Vec::new();
        if self.value.is_none() {
            missing.push(RequiredField::Value);
        }
        if missing.len() > 0 {
            proof {
                assert(missing.deep_view() =~= (if self@.value is None { seq![RequiredField::Value] } else { Seq::empty() }));
            }
            return Err(Error::MissingRequiredField(NodeKind::ServiceRpcField, missing));
        }
        match (self.value) {
            (Some(value)) => Ok(ServiceRpcField {
                value,
                stream: self.stream,
            }),
            _ => Err(Error::MissingRequiredField(NodeKind::ServiceRpcField, missing)),
        }
    }
}

/// The model of a [`ServiceRpcBuilder`].
pub struct SpecServiceRpcBuilder {
    pub name: Option<SpecIdent>,
    pub input: Option<SpecServiceRpcField>,
    pub output: Option<SpecServiceRpcField>,
    pub options: Seq<SpecProtoOption>,
    pub comments: Seq<Seq<char>>,
}

/// Accumulates a [`ServiceRpc`].
#[derive(Debug)]
pub struct ServiceRpcBuilder {
    pub name: Option<Ident>,
    pub input: Option<ServiceRpcField>,
    pub output: Option<ServiceRpcField>,
    pub options: Vec<ProtoOption>,
    pub comments: Vec<Comment>,
}

impl View for ServiceRpcBuilder {
    type V = SpecServiceRpcBuilder;

    open spec fn view(&self) -> SpecServiceRpcBuilder {
        SpecServiceRpcBuilder {
            name: match self.name { Some(v) => Some(v@), None => None },
            input: match self.input { Some(v) => Some(v@), None => None },
            output: match self.output { Some(v) => Some(v@), None => None },
            options: self.options.deep_view(),
            comments: self.comments.deep_view(),
        }
    }
}

/// The empty state of a [`ServiceRpcBuilder`].
pub open spec fn sp_service_rpc_builder_empty() -> SpecServiceRpcBuilder {
    SpecServiceRpcBuilder {
        name: None,
        input: None,
        output: None,
        options: Seq::<SpecProtoOption>::empty(),
        comments: Seq::<Seq<char>>::empty(),
    }
}

/// What finalizing a [`ServiceRpcBuilder`] yields: the node when every
/// required field is set, else the missing fields in declaration order.
pub open spec fn sp_build_service_rpc(b: SpecServiceRpcBuilder) -> Result<SpecServiceRpc, SpecError> {
    if b.name is None || b.input is None || b.output is None {
        Err(SpecError::MissingRequiredField(NodeKind::ServiceRpc, (if b.name is None { seq![RequiredField::Name] } else { Seq::empty() }) + (if b.input is None { seq![RequiredField::Input] } else { Seq::empty() }) + (if b.output is None { seq![RequiredField::Output] } else { Seq::empty() })))
    } else {
        Ok(SpecServiceRpc {
            name: b.name->0,
            input: b.input->0,
            output: b.output->0,
            options: b.options,
            comments: b.comments,
        })
    }
}

impl ServiceRpcBuilder {
    pub fn new() -> (r: Self)
        ensures
            r@ == sp_service_rpc_builder_empty(),
    {
        let r = ServiceRpcBuilder {
            name: None,
            input: None,
            output: None,
            options: Vec::new(),
            comments: Vec::new(),
        };
        proof {
            assert(r.options.deep_view() =~= Seq::<SpecProtoOption>::empty());
            assert(r.comments.deep_view() =~= Seq::<Seq<char>>::empty());
        }
        r
    }

    pub fn set_name(&mut self, name: Ident)
        ensures
            final(self)@ == (SpecServiceRpcBuilder { name: Some(name@), ..old(self)@ }),
    {
        self.name = Some(name);
    }

    pub fn set_input(&mut self, input: ServiceRpcField)
        ensures
            final(self)@ == (SpecServiceRpcBuilder { input: Some(input@), ..old(self)@ }),
    {
        self.input = Some(input);
    }

    pub fn set_output(&mut self, output: ServiceRpcField)
        ensures
            final(self)@ == (SpecServiceRpcBuilder { output: Some(output@), ..old(self)@ }),
    {
        self.output = Some(output);
    }

    /// Appends one option.
    pub fn with_option(&mut self, item: ProtoOption)
        ensures
            final(self)@ == (SpecServiceRpcBuilder { options: old(self)@.options.push(item.deep_view()), ..old(self)@ }),
    {
        let ghost prev = self@.options;
        self.options.push(item);
        proof {
            assert(self.options.deep_view() =~= prev.push(item.deep_view()));
        }
    }

    /// Appends one comment.
    pub fn with_comment(&mut self, item: Comment)
        ensures
            final(self)@ == (SpecServiceRpcBuilder { comments: old(self)@.comments.push(item.deep_view()), ..old(self)@ }),
    {
        let ghost prev = self@.comments;
        self.comments.push(item);
        proof {
            assert(self.comments.deep_view() =~= prev.push(item.deep_view()));
        }
    }

    pub fn build(self) -> (r: Result<ServiceRpc, Error>)
        ensures
            match (r, sp_build_service_rpc(self@)) {
                (Ok(v), Ok(sv)) => v@ == sv,
                (Err(e), Err(se)) => e@ == se,
                _ => false,
            },
    {
        let mut missing: Vec<RequiredField> = Vec::new();
        if self.name.is_none() {
            missing.push(RequiredField::Name);
        }
        if self.input.is_none() {
            missing.push(RequiredField::Input);
        }
        if self.output.is_none() {
            missing.push(RequiredField::Output);
        }
        if missing.len() > 0 {
            proof {
                assert(missing.deep_view() =~= (if self@.name is None { seq![RequiredField::Name] } else { Seq::empty() }) + (if self@.input is None { seq![RequiredField::Input] } else { Seq::empty() }) + (if self@.output is None { seq![RequiredField::Output] } else { Seq::empty() }));
            }
            return Err(Error::MissingRequiredField(NodeKind::ServiceRpc, missing));
        }
        match (self.name, self.input, self.output) {
            (Some(name), Some(input), Some(output)) => Ok(ServiceRpc {
                name,
                input,
                output,
                options: self.options,
                comments: self.comments,
            }),
            _ => Err(Error::MissingRequiredField(NodeKind::ServiceRpc, missing)),
        }
    }
}

/// The model of a [`MessageBuilder`].
pub struct SpecMessageBuilder {
    pub name: Option<SpecIdent>,
    pub fields: Seq<SpecField>,
    pub enums: Seq<SpecEnum>,
    pub messages: Seq<SpecMessage>,
    pub options: Seq<SpecProtoOption>,
    pub reserved: Seq<SpecReservedItems>,
    pub comments: Seq<Seq<char>>,
}

/// Accumulates a [`Message`].
#[derive(Debug)]
pub struct MessageBuilder {
    pub name: Option<Ident>,
    pub fields: Vec<Field>,
    pub enums: Vec<Enum>,
    pub messages: Vec<Message>,
    pub options: Vec<ProtoOption>,
    pub reserved: Vec<ReservedItems>,
    pub comments: Vec<Comment>,
}

impl View for MessageBuilder {
    type V = SpecMessageBuilder;

    open spec fn view(&self) -> SpecMessageBuilder {
        SpecMessageBuilder {
            name: match self.name { Some(v) => Some(v@), None => None },
            fields: self.fields.deep_view(),
            enums: self.enums.deep_view(),
            messages: spec_messages_view(self.messages@),
            options: self.options.deep_view(),
            reserved: self.reserved.deep_view(),
            comments: self.comments.deep_view(),
        }
    }
}

/// The empty state of a [`MessageBuilder`].
pub open spec fn sp_message_builder_empty() -> SpecMessageBuilder {
    SpecMessageBuilder {
        name: None,
        fields: Seq::<SpecField>::empty(),
        enums: Seq::<SpecEnum>::empty(),
        messages: Seq::<SpecMessage>::empty(),
        options: Seq::<SpecProtoOption>::empty(),
        reserved: Seq::<SpecReservedItems>::empty(),
        comments: Seq::<Seq<char>>::empty(),
    }
}

/// What finalizing a [`MessageBuilder`] yields: the node when every
/// required field is set, else the missing fields in declaration order.
pub open spec fn sp_build_message(b: SpecMessageBuilder) -> Result<SpecMessage, SpecError> {
    if b.name is None {
        Err(SpecError::MissingRequiredField(NodeKind::Message, (if b.name is None { seq![RequiredField::Name] } else { Seq::empty() })))
    } else {
        Ok(SpecMessage {
            name: b.name->0,
            fields: b.fields,
            enums: b.enums,
            messages: b.messages,
            options: b.options,
            reserved: b.reserved,
            comments: b.comments,
        })
    }
}

impl MessageBuilder {
    pub fn new() -> (r: Self)
        ensures
            r@ == sp_message_builder_empty(),
    {
        let r = MessageBuilder {
            name: None,
            fields: Vec::new(),
            enums: Vec::new(),
            messages: Vec::new(),
            options: Vec::new(),
            reserved: Vec::new(),
            comments: Vec::new(),
        };
        proof {
            assert(r.fields.deep_view() =~= Seq::<SpecField>::empty());
            assert(r.enums.deep_view() =~= Seq::<SpecEnum>::empty());
            assert(spec_messages_view(r.messages@) =~= Seq::<SpecMessage>::empty());
            assert(r.options.deep_view() =~= Seq::<SpecProtoOption>::empty());
            assert(r.reserved.deep_view() =~= Seq::<SpecReservedItems>::empty());
            assert(r.comments.deep_view() =~= Seq::<Seq<char>>::empty());
        }
        r
    }

    pub fn set_name(&mut self, name: Ident)
        ensures
            final(self)@ == (SpecMessageBuilder { name: Some(name@), ..old(self)@ }),
    {
        self.name = Some(name);
    }

    /// Appends one field.
    pub fn with_field(&mut self, item: Field)
        ensures
            final(self)@ == (SpecMessageBuilder { fields: old(self)@.fields.push(item.deep_view()), ..old(self)@ }),
    {
        let ghost prev = self@.fields;
        self.fields.push(item);
        proof {
            assert(self.fields.deep_view() =~= prev.push(item.deep_view()));
        }
    }

    /// Appends one enum declaration.
    pub fn with_enum(&mut self, item: Enum)
        ensures
            final(self)@ == (SpecMessageBuilder { enums: old(self)@.enums.push(item.deep_view()), ..old(self)@ }),
    {
        let ghost prev = self@.enums;
        self.enums.push(item);
        proof {
            assert(self.enums.deep_view() =~= prev.push(item.deep_view()));
        }
    }

    /// Appends one nested message.
    pub fn with_message(&mut self, item: Message)
        ensures
            final(self)@ == (SpecMessageBuilder { messages: old(self)@.messages.push(spec_message_view(item)), ..old(self)@ }),
    {
        let ghost prev = self.messages@;
        self.messages.push(item);
        proof {
            assert(self.messages@ =~= prev.push(item));
            crate::model::lemma_messages_view_push(prev, item);
        }
    }

    /// Appends one option.
    pub fn with_option(&mut self, item: ProtoOption)
        ensures
            final(self)@ == (SpecMessageBuilder { options: old(self)@.options.push(item.deep_view()), ..old(self)@ }),
    {
        let ghost prev = self@.options;
        self.options.push(item);
        proof {
            assert(self.options.deep_view() =~= prev.push(item.deep_view()));
        }
    }

    /// Appends one reserved declaration.
    pub fn with_reserved(&mut self, item: ReservedItems)
        ensures
            final(self)@ == (SpecMessageBuilder { reserved: old(self)@.reserved.push(item.deep_view()), ..old(self)@ }),
    {
        let ghost prev = self@.reserved;
        self.reserved.push(item);
        proof {
            assert(self.reserved.deep_view() =~= prev.push(item.deep_view()));
        }
    }

    /// Appends one comment.
    pub fn with_comment(&mut self, item: Comment)
        ensures
            final(self)@ == (SpecMessageBuilder { comments: old(self)@.comments.push(item.deep_view()), ..old(self)@ }),
    {
        let ghost prev = self@.comments;
        self.comments.push(item);
        proof {
            assert(self.comments.deep_view() =~= prev.push(item.deep_view()));
        }
    }

    pub fn build(self) -> (r: Result<Message, Error>)
        ensures
            match (r, sp_build_message(self@)) {
                (Ok(v), Ok(sv)) => v@ == sv,
                (Err(e), Err(se)) => e@ == se,
                _ => false,
            },
    {
        let mut missing: Vec<RequiredField> = Vec::new();
        if self.name.is_none() {
            missing.push(RequiredField::Name);
        }
        if missing.len() > 0 {
            proof {
                assert(missing.deep_view() =~= (if self@.name is None { seq![RequiredField::Name] } else { Seq::empty() }));
            }
            return Err(Error::MissingRequiredField(NodeKind::Message, missing));
        }
        match (self.name) {
            (Some(name)) => Ok(Message {
                name,
                fields: self.fields,
                enums: self.enums,
                messages: self.messages,
                options: self.options,
                reserved: self.reserved,
                comments: self.comments,
            }),
            _ => Err(Error::MissingRequiredField(NodeKind::Message, missing)),
        }
    }
}

} // verus!
