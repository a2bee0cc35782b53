//! The declaration that a title implementation is derived for, held as plain values.
//!
//! The types here follow the shape of a parsed `derive` input and keep of it what the derivation
//! reads: names, the kind of each variant's fields, and each attribute's path and arguments.

use vstd::prelude::*;

verus! {

/// The name of the attribute that carries a variant's title.
pub const TITLE_ATTR_IDENT: &'static str = "title";

/// One attribute of a variant, such as `#[title("Home")]`.
#[derive(Debug, PartialEq, Eq)]
pub struct Attribute {
    /// The identifier that the attribute's path consists of, as written; `None` where the path
    /// is anything but one identifier.
    pub ident: Option<String>,
    /// The source text between the delimiters that follow the path; `None` where no delimited
    /// list of arguments follows it.
    pub arguments: Option<String>,
}

/// The fields of a variant.
#[derive(Debug, PartialEq, Eq)]
pub enum Fields {
    /// Named fields, `Item { id: u32 }`: their names in the order of declaration.
    Named(Vec<String>),
    /// Positional fields, `Item(u32)`.
    Unnamed,
    /// No fields, `Home`.
    Unit,
}

/// One variant of an enum.
#[derive(Debug, PartialEq, Eq)]
pub struct Variant {
    /// The attributes on the variant, in the order written.
    pub attrs: Vec<Attribute>,
    /// The name of the variant.
    pub ident: String,
    /// The fields of the variant.
    pub fields: Fields,
}

/// What kind of type a declaration declares, with the variants of an enum.
#[derive(Debug, PartialEq, Eq)]
pub enum Data {
    /// A struct.
    Struct,
    /// An enum, with its variants in the order of declaration.
    Enum(Vec<Variant>),
    /// A union.
    Union,
}

/// A type declaration handed to the derivation.
#[derive(Debug, PartialEq, Eq)]
pub struct DeriveInput {
    /// The name of the declared type.
    pub ident: String,
    /// Its kind and content.
    pub data: Data,
}

/// The mathematical value of an [`Attribute`].
pub struct AttributeView {
    pub ident: Option<Seq<char>>,
    pub arguments: Option<Seq<char>>,
}

/// The mathematical value of [`Fields`].
pub enum FieldsView {
    Named(Seq<Seq<char>>),
    Unnamed,
    Unit,
}

/// The mathematical value of a [`Variant`].
pub struct VariantView {
    pub attrs: Seq<AttributeView>,
    pub ident: Seq<char>,
    pub fields: FieldsView,
}

/// The mathematical value of [`Data`].
pub enum DataView {
    Struct,
    Enum(Seq<VariantView>),
    Union,
}

/// The mathematical value of a [`DeriveInput`].
pub struct DeriveInputView {
    pub ident: Seq<char>,
    pub data: DataView,
}

impl DeepView for Attribute {
    type V = AttributeView;

    open spec fn deep_view(&self) -> AttributeView {
        AttributeView { ident: self.ident.deep_view(), arguments: self.arguments.deep_view() }
    }
}

impl DeepView for Fields {
    type V = FieldsView;

    open spec fn deep_view(&self) -> FieldsView {
        match self {
            Fields::Named(names) => FieldsView::Named(names.deep_view()),
            Fields::Unnamed => FieldsView::Unnamed,
            Fields::Unit => FieldsView::Unit,
        }
    }
}

impl DeepView for Variant {
    type V = VariantView;

    open spec fn deep_view(&self) -> VariantView {
        VariantView {
            attrs: self.attrs.deep_view(),
            ident: self.ident.deep_view(),
            fields: self.fields.deep_view(),
        }
    }
}

impl DeepView for Data {
    type V = DataView;

    open spec fn deep_view(&self) -> DataView {
        match self {
            Data::Struct => DataView::Struct,
            Data::Enum(variants) => DataView::Enum(variants.deep_view()),
            Data::Union => DataView::Union,
        }
    }
}

impl DeepView for DeriveInput {
    type V = DeriveInputView;

    open spec fn deep_view(&self) -> DeriveInputView {
        DeriveInputView { ident: self.ident.deep_view(), data: self.data.deep_view() }
    }
}

/// Whether `attribute` is a title attribute: its path is the one identifier `title`.
pub open spec fn is_title(attribute: AttributeView) -> bool {
    attribute.ident == Some(TITLE_ATTR_IDENT@)
}

/// The positions of the title attributes among `attrs`, in rising order.
pub open spec fn title_positions(attrs: Seq<AttributeView>) -> Seq<nat>
    decreases attrs.len(),
{
    if attrs.len() == 0 {
        Seq::empty()
    } else {
        let earlier = title_positions(attrs.drop_last());
        if is_title(attrs.last()) {
            earlier.push((attrs.len() - 1) as nat)
        } else {
            earlier
        }
    }
}

} // verus!
