//! Why a derivation was refused.

use crate::input::TITLE_ATTR_IDENT;
use vstd::prelude::*;
use vstd::string::StringExecFns;

verus! {

/// The reason a declaration gets no title implementation. Each reason names the place it is
/// about: variants by their position in the enum, attributes by their position on the variant.
#[derive(Debug, PartialEq, Eq)]
pub enum DeriveError {
    /// The declaration is a struct, not an enum.
    FoundStruct,
    /// The declaration is a union, not an enum.
    FoundUnion,
    /// The variant has positional fields.
    UnnamedFields { variant: usize },
    /// The variant has no title attribute.
    MissingTitle { variant: usize },
    /// The variant has several title attributes, at the positions `attributes`.
    DuplicateTitle { variant: usize, attributes: Vec<usize> },
    /// The arguments of the variant's title attribute are not one string literal.
    BadLiteral { variant: usize, attribute: usize },
}

/// The mathematical value of a [`DeriveError`].
pub enum DeriveErrorView {
    FoundStruct,
    FoundUnion,
    UnnamedFields { variant: nat },
    MissingTitle { variant: nat },
    DuplicateTitle { variant: nat, attributes: Seq<nat> },
    BadLiteral { variant: nat, attribute: nat },
}

impl DeepView for DeriveError {
    type V = DeriveErrorView;

    open spec fn deep_view(&self) -> DeriveErrorView {
        match self {
            DeriveError::FoundStruct => DeriveErrorView::FoundStruct,
            DeriveError::FoundUnion => DeriveErrorView::FoundUnion,
            DeriveError::UnnamedFields { variant } => DeriveErrorView::UnnamedFields {
                variant: *variant as nat,
            },
            DeriveError::MissingTitle { variant } => DeriveErrorView::MissingTitle {
                variant: *variant as nat,
            },
            DeriveError::DuplicateTitle { variant, attributes } => DeriveErrorView::DuplicateTitle {
                variant: *variant as nat,
                attributes: attributes@.map_values(|position: usize| position as nat),
            },
            DeriveError::BadLiteral { variant, attribute } => DeriveErrorView::BadLiteral {
                variant: *variant as nat,
                attribute: *attribute as nat,
            },
        }
    }
}

/// The mathematical value of an outcome: that of what was made, or that of the reason against it.
pub open spec fn result_view<T: DeepView, E: DeepView>(outcome: Result<T, E>) -> Result<T::V, E::V> {
    match outcome {
        Ok(made) => Ok(made.deep_view()),
        Err(reason) => Err(reason.deep_view()),
    }
}

impl DeriveErrorView {
    /// The text of the diagnostic for this reason.
    pub open spec fn message(self) -> Seq<char> {
        match self {
            DeriveErrorView::FoundStruct => "expected enum, found struct"@,
            DeriveErrorView::FoundUnion => "expected enum, found union"@,
            DeriveErrorView::UnnamedFields { .. } => "only named fields are supported"@,
            DeriveErrorView::MissingTitle { .. } => TITLE_ATTR_IDENT@
                + " attribute must be present on every variant"@,
            DeriveErrorView::DuplicateTitle { .. } => "only one "@ + TITLE_ATTR_IDENT@
                + " attribute must be present"@,
            DeriveErrorView::BadLiteral { .. } => "expected string literal"@,
        }
    }
}

impl DeriveError {
    /// The text of the diagnostic for this reason.
    pub fn message(&self) -> (text: String)
        ensures
            text@ == self.deep_view().message(),
    {
        match self {
            DeriveError::FoundStruct => String::from_str("expected enum, found struct"),
            DeriveError::FoundUnion => String::from_str("expected enum, found union"),
            DeriveError::UnnamedFields { .. } => String::from_str("only named fields are supported"),
            DeriveError::MissingTitle { .. } => String::from_str(TITLE_ATTR_IDENT).concat(
                " attribute must be present on every variant",
            ),
            DeriveError::DuplicateTitle { .. } => String::from_str("only one ").concat(
                TITLE_ATTR_IDENT,
            ).concat(" attribute must be present"),
            DeriveError::BadLiteral { .. } => String::from_str("expected string literal"),
        }
    }
}

} // verus!
