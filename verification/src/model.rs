//! The description of an annotated type as the library sees it: the type's
//! name, its variants, and for each variant its attributes and field shape.
//! Each type carries a mathematical view (`deep_view`) over which all
//! contracts are stated.

use vstd::prelude::*;

verus! {

/// One argument inside an attribute's parenthesized list.
#[derive(Clone, Debug)]
pub enum ArgToken {
    /// A single simple identifier, such as `Warn`.
    Ident(String),
    /// A literal, such as `"text"` or `3`.
    Lit,
    /// Anything else: a nested list, a path of several segments, a
    /// `name = value` pair, and so on.
    Compound,
}

pub enum ArgTokenView {
    Ident(Seq<char>),
    Lit,
    Compound,
}

impl DeepView for ArgToken {
    type V = ArgTokenView;

    open spec fn deep_view(&self) -> ArgTokenView {
        match self {
            ArgToken::Ident(s) => ArgTokenView::Ident(s@),
            ArgToken::Lit => ArgTokenView::Lit,
            ArgToken::Compound => ArgTokenView::Compound,
        }
    }
}

/// One attribute attached to a variant: its name and, when it is written in
/// list form `name(args)`, its arguments. An attribute whose path is not a
/// single identifier has no name the tag reader could recognize, so any name
/// other than `level` describes it.
#[derive(Clone, Debug)]
pub struct Attr {
    pub name: String,
    /// `Some(args)` for the list form `name(...)`; `None` for a bare `name`
    /// or a `name = value` attribute.
    pub args: Option<Vec<ArgToken>>,
}

pub struct AttrView {
    pub name: Seq<char>,
    pub args: Option<Seq<ArgTokenView>>,
}

impl DeepView for Attr {
    type V = AttrView;

    open spec fn deep_view(&self) -> AttrView {
        AttrView { name: self.name@, args: self.args.deep_view() }
    }
}

/// The declared type of one unnamed field, as far as delegation cares: a
/// simple named type, a reference to one, or anything else.
#[derive(Clone, Debug)]
pub enum FieldType {
    /// A named type such as `OuterError` or `example_mod::Error`.
    Named(String),
    /// A reference to a named type, such as `&OuterError`.
    NamedRef(String),
    /// Any other shape: a tuple, a generic application, a slice, and so on.
    Opaque,
}

pub enum FieldTypeView {
    Named(Seq<char>),
    NamedRef(Seq<char>),
    Opaque,
}

impl DeepView for FieldType {
    type V = FieldTypeView;

    open spec fn deep_view(&self) -> FieldTypeView {
        match self {
            FieldType::Named(s) => FieldTypeView::Named(s@),
            FieldType::NamedRef(s) => FieldTypeView::NamedRef(s@),
            FieldType::Opaque => FieldTypeView::Opaque,
        }
    }
}

/// The field shape of one variant.
#[derive(Clone, Debug)]
pub enum FieldsDesc {
    /// No fields at all.
    Unit,
    /// Unnamed (tuple-style) fields, with the declared type of each.
    Unnamed(Vec<FieldType>),
    /// Struct-style named fields; their types play no role.
    Named,
}

pub enum FieldsDescView {
    Unit,
    Unnamed(Seq<FieldTypeView>),
    Named,
}

impl DeepView for FieldsDesc {
    type V = FieldsDescView;

    open spec fn deep_view(&self) -> FieldsDescView {
        match self {
            FieldsDesc::Unit => FieldsDescView::Unit,
            FieldsDesc::Unnamed(ts) => FieldsDescView::Unnamed(ts.deep_view()),
            FieldsDesc::Named => FieldsDescView::Named,
        }
    }
}

/// One variant of the annotated enumeration: its identifier, its attributes
/// in source order, and its field shape.
#[derive(Clone, Debug)]
pub struct VariantDesc {
    pub ident: String,
    pub attrs: Vec<Attr>,
    pub fields: FieldsDesc,
}

pub struct VariantDescView {
    pub ident: Seq<char>,
    pub attrs: Seq<AttrView>,
    pub fields: FieldsDescView,
}

impl DeepView for VariantDesc {
    type V = VariantDescView;

    open spec fn deep_view(&self) -> VariantDescView {
        VariantDescView {
            ident: self.ident@,
            attrs: self.attrs.deep_view(),
            fields: self.fields.deep_view(),
        }
    }
}

/// The underlying shape of the annotated item: an enumeration with its
/// variants, or any other shape, which generation rejects outright.
#[derive(Clone, Debug)]
pub enum DataDesc {
    Enum(Vec<VariantDesc>),
    NotEnum,
}

pub enum DataDescView {
    Enum(Seq<VariantDescView>),
    NotEnum,
}

impl DeepView for DataDesc {
    type V = DataDescView;

    open spec fn deep_view(&self) -> DataDescView {
        match self {
            DataDesc::Enum(vs) => DataDescView::Enum(vs.deep_view()),
            DataDesc::NotEnum => DataDescView::NotEnum,
        }
    }
}

/// The annotated type: its name and its shape.
#[derive(Clone, Debug)]
pub struct TypeDesc {
    pub ident: String,
    pub data: DataDesc,
}

pub struct TypeDescView {
    pub ident: Seq<char>,
    pub data: DataDescView,
}

impl DeepView for TypeDesc {
    type V = TypeDescView;

    open spec fn deep_view(&self) -> TypeDescView {
        TypeDescView { ident: self.ident@, data: self.data.deep_view() }
    }
}

} // verus!
