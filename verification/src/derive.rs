//! From a route enum to the arms of its `title` method.
//!
//! A derivation reads each variant's title attribute, rewrites the placeholders of the title
//! for the variant's fields, and gives one match arm per variant. It gives either the whole
//! implementation or the first reason against it, never a part.

use crate::error::{result_view, DeriveError, DeriveErrorView};
use crate::input::{
    is_title, title_positions, Attribute, Data, DataView, DeriveInput,
    DeriveInputView, Fields, FieldsView, Variant, VariantView, TITLE_ATTR_IDENT,
};
use crate::literal::{parse_title, title_literal};
use crate::derive_laws::lemma_titles_of_ok;
use crate::template::{rewrite_template, rewritten};
use vstd::prelude::*;
use vstd::string::StringExecFns;

verus! {

/// An enum whose variants all carry a title.
pub struct TitledRoutable {
    ident: String,
    titles: Vec<String>,
    variants: Vec<Variant>,
}

/// The mathematical value of a [`TitledRoutable`]: the enum's name, its variants, and the title
/// of each variant at the variant's position.
pub struct TitledRoutableView {
    pub ident: Seq<char>,
    pub titles: Seq<Seq<char>>,
    pub variants: Seq<VariantView>,
}

/// One arm of the `title` method.
#[derive(Debug, PartialEq, Eq)]
pub enum TitleArm {
    /// `Self::variant => title`, the title as it is, for a variant without fields.
    Verbatim { variant: String, title: String },
    /// `Self::variant { fields } => format!(template, fields)`, each slot `{field}` of the
    /// template filled with the value of that field, for a variant with named fields.
    Formatted { variant: String, fields: Vec<String>, template: String },
}

/// The mathematical value of a [`TitleArm`].
pub enum TitleArmView {
    Verbatim { variant: Seq<char>, title: Seq<char> },
    Formatted { variant: Seq<char>, fields: Seq<Seq<char>>, template: Seq<char> },
}

/// The implementation of `title` for one enum: a match with one arm for each variant, in the
/// order of the variants.
#[derive(Debug, PartialEq, Eq)]
pub struct TitleImpl {
    /// The name of the enum.
    pub ident: String,
    /// The arms of the match.
    pub arms: Vec<TitleArm>,
}

/// The mathematical value of a [`TitleImpl`].
pub struct TitleImplView {
    pub ident: Seq<char>,
    pub arms: Seq<TitleArmView>,
}

impl DeepView for TitleArm {
    type V = TitleArmView;

    open spec fn deep_view(&self) -> TitleArmView {
        match self {
            TitleArm::Verbatim { variant, title } => TitleArmView::Verbatim {
                variant: variant.deep_view(),
                title: title.deep_view(),
            },
            TitleArm::Formatted { variant, fields, template } => TitleArmView::Formatted {
                variant: variant.deep_view(),
                fields: fields.deep_view(),
                template: template.deep_view(),
            },
        }
    }
}

impl DeepView for TitleImpl {
    type V = TitleImplView;

    open spec fn deep_view(&self) -> TitleImplView {
        TitleImplView { ident: self.ident.deep_view(), arms: self.arms.deep_view() }
    }
}

/// The title of the variant at position `index`, or the reason it has none. Positional fields
/// are refused first; then the variant must have exactly one title attribute, whose arguments
/// must be one string literal.
pub open spec fn title_of_variant(variant: VariantView, index: nat) -> Result<
    Seq<char>,
    DeriveErrorView,
> {
    let found = title_positions(variant.attrs);
    if variant.fields is Unnamed {
        Err(DeriveErrorView::UnnamedFields { variant: index })
    } else if found.len() == 0 {
        Err(DeriveErrorView::MissingTitle { variant: index })
    } else if found.len() > 1 {
        Err(DeriveErrorView::DuplicateTitle { variant: index, attributes: found })
    } else {
        match title_literal(variant.attrs[found[0] as int].arguments) {
            Some(title) => Ok(title),
            None => Err(DeriveErrorView::BadLiteral { variant: index, attribute: found[0] }),
        }
    }
}

/// The titles of `variants`, one for each in order, or the reason against the first variant that
/// has none.
pub open spec fn titles_of(variants: Seq<VariantView>) -> Result<Seq<Seq<char>>, DeriveErrorView>
    decreases variants.len(),
{
    if variants.len() == 0 {
        Ok(Seq::empty())
    } else {
        match titles_of(variants.drop_last()) {
            Ok(titles) => match title_of_variant(variants.last(), (variants.len() - 1) as nat) {
                Ok(title) => Ok(titles.push(title)),
                Err(reason) => Err(reason),
            },
            Err(reason) => Err(reason),
        }
    }
}

/// What parsing makes of a declaration: an enum with its titles, or the reason against it.
pub open spec fn parsed(input: DeriveInputView) -> Result<TitledRoutableView, DeriveErrorView> {
    match input.data {
        DataView::Struct => Err(DeriveErrorView::FoundStruct),
        DataView::Union => Err(DeriveErrorView::FoundUnion),
        DataView::Enum(variants) => match titles_of(variants) {
            Ok(titles) => Ok(TitledRoutableView { ident: input.ident, titles, variants }),
            Err(reason) => Err(reason),
        },
    }
}

/// The arm for `variant`, whose title is `title`: the title as it is where the variant has no
/// fields, and the title rewritten for the fields where it has named ones.
pub open spec fn arm_of(variant: VariantView, title: Seq<char>) -> TitleArmView
    recommends
        !(variant.fields is Unnamed),
{
    match variant.fields {
        FieldsView::Named(fields) => TitleArmView::Formatted {
            variant: variant.ident,
            fields,
            template: rewritten(title, fields),
        },
        _ => TitleArmView::Verbatim { variant: variant.ident, title },
    }
}

impl TitledRoutableView {
    /// The titles are those of the variants.
    pub open spec fn wf(self) -> bool {
        titles_of(self.variants) == Ok::<Seq<Seq<char>>, DeriveErrorView>(self.titles)
    }

    /// The arms of the `title` method, one for each variant in order.
    pub open spec fn arms(self) -> Seq<TitleArmView> {
        Seq::new(self.variants.len(), |i: int| arm_of(self.variants[i], self.titles[i]))
    }

    /// The implementation of `title` for the enum.
    pub open spec fn title_impl(self) -> TitleImplView {
        TitleImplView { ident: self.ident, arms: self.arms() }
    }
}

/// What a derivation gives for a declaration: the implementation of `title`, or the reason
/// against it.
pub open spec fn derived(input: DeriveInputView) -> Result<TitleImplView, DeriveErrorView> {
    match parsed(input) {
        Ok(routable) => Ok(routable.title_impl()),
        Err(reason) => Err(reason),
    }
}

/// Once the titles of the first variants have failed, those of more variants fail alike.
proof fn lemma_titles_of_err_stays(variants: Seq<VariantView>, n: int)
    requires
        0 <= n <= variants.len(),
        titles_of(variants.take(n)) is Err,
    ensures
        titles_of(variants) == titles_of(variants.take(n)),
    decreases variants.len() - n,
{
    if n < variants.len() {
        assert(variants.take(n + 1).drop_last() =~= variants.take(n));
        lemma_titles_of_err_stays(variants, n + 1);
    } else {
        assert(variants.take(n) =~= variants);
    }
}

fn clone_names(names: &Vec<String>) -> (copy: Vec<String>)
    ensures
        copy.deep_view() == names.deep_view(),
{
    let mut copy: Vec<String> = Vec::new();
    let mut i: usize = 0;
    while i < names.len()
        invariant
            i <= names.len(),
            copy.deep_view() == names.deep_view().take(i as int),
        decreases names.len() - i,
    {
        let ghost before = copy.deep_view();
        copy.push(names[i].clone());
        assert(copy.deep_view() =~= before.push(names[i as int]@));
        assert(before.push(names[i as int]@) =~= names.deep_view().take(i + 1));
        i += 1;
    }
    assert(names.deep_view().take(names.len() as int) =~= names.deep_view());
    copy
}

fn title_attributes(attrs: &Vec<Attribute>) -> (found: Vec<usize>)
    ensures
        found@.map_values(|position: usize| position as nat) == title_positions(
            attrs.deep_view(),
        ),
        forall|k: int| 0 <= k < found.len() ==> found[k] < attrs.len(),
{
    let title = String::from_str(TITLE_ATTR_IDENT);
    let mut found: Vec<usize> = Vec::new();
    let mut i: usize = 0;
    while i < attrs.len()
        invariant
            i <= attrs.len(),
            title@ == TITLE_ATTR_IDENT@,
            found@.map_values(|position: usize| position as nat) == title_positions(
                attrs.deep_view().take(i as int),
            ),
            forall|k: int| 0 <= k < found.len() ==> found[k] < i,
        decreases attrs.len() - i,
    {
        let ghost seen = attrs.deep_view().take(i + 1);
        assert(seen.drop_last() =~= attrs.deep_view().take(i as int));
        assert(seen.last() == attrs[i as int].deep_view());
        let at_title = match &attrs[i].ident {
            Some(ident) => *ident == title,
            None => false,
        };
        assert(at_title == is_title(seen.last()));
        if at_title {
            let ghost before = found@;
            found.push(i);
            assert(found@.map_values(|position: usize| position as nat) =~= before.map_values(
                |position: usize| position as nat,
            ).push(i as nat));
        }
        i += 1;
    }
    assert(attrs.deep_view().take(attrs.len() as int) =~= attrs.deep_view());
    found
}

fn read_variant_title(variant: &Variant, index: usize) -> (title: Result<String, DeriveError>)
    ensures
        result_view(title) == title_of_variant(variant.deep_view(), index as nat),
{
    if let Fields::Unnamed = variant.fields {
        return Err(DeriveError::UnnamedFields { variant: index });
    }
    let at_attrs = title_attributes(&variant.attrs);
    if at_attrs.len() == 0 {
        Err(DeriveError::MissingTitle { variant: index })
    } else if at_attrs.len() > 1 {
        Err(DeriveError::DuplicateTitle { variant: index, attributes: at_attrs })
    } else {
        let position = at_attrs[0];
        assert(at_attrs@.map_values(|position: usize| position as nat)[0] == position as nat);
        match parse_title(&variant.attrs[position].arguments) {
            Some(title) => Ok(title),
            None => Err(DeriveError::BadLiteral { variant: index, attribute: position }),
        }
    }
}

/// Reads the title of each variant off its attributes.
///
/// Gives the titles in the order of the variants, or the reason against the first variant that
/// has none: positional fields, no title attribute, several of them, or arguments that are not
/// one string literal.
pub fn parse_variants_attributes(variants: &Vec<Variant>) -> (titles: Result<
    Vec<String>,
    DeriveError,
>)
    ensures
        result_view(titles) == titles_of(variants.deep_view()),
{
    let mut titles: Vec<String> = Vec::new();
    let mut i: usize = 0;
    assert(titles.deep_view() =~= Seq::empty());
    while i < variants.len()
        invariant
            i <= variants.len(),
            titles_of(variants.deep_view().take(i as int)) == Ok::<
                Seq<Seq<char>>,
                DeriveErrorView,
            >(titles.deep_view()),
        decreases variants.len() - i,
    {
        let ghost seen = variants.deep_view().take(i + 1);
        assert(seen.drop_last() =~= variants.deep_view().take(i as int));
        assert(seen.last() == variants[i as int].deep_view());
        match read_variant_title(&variants[i], i) {
            Ok(title) => {
                let ghost before = titles.deep_view();
                titles.push(title);
                assert(titles.deep_view() =~= before.push(title@));
            },
            Err(reason) => {
                proof {
                    lemma_titles_of_err_stays(variants.deep_view(), i + 1);
                }
                return Err(reason);
            },
        }
        i += 1;
    }
    assert(variants.deep_view().take(variants.len() as int) =~= variants.deep_view());
    Ok(titles)
}

impl DeepView for TitledRoutable {
    type V = TitledRoutableView;

    closed spec fn deep_view(&self) -> TitledRoutableView {
        TitledRoutableView {
            ident: self.ident.deep_view(),
            titles: self.titles.deep_view(),
            variants: self.variants.deep_view(),
        }
    }
}

impl TitledRoutable {
    #[verifier::type_invariant]
    spec fn titles_belong(&self) -> bool {
        self.deep_view().wf()
    }

    /// Takes a declaration for derivation.
    ///
    /// Succeeds on an enum whose variants all have a title, and keeps the enum's name, its
    /// variants and their titles. Refuses a struct and a union, and an enum with a variant
    /// that has no title, for the reason against the first such variant.
    pub fn parse(input: DeriveInput) -> (routable: Result<TitledRoutable, DeriveError>)
        ensures
            result_view(routable) == parsed(input.deep_view()),
    {
        let DeriveInput { ident, data } = input;
        let variants = match data {
            Data::Enum(variants) => variants,
            Data::Struct => {
                return Err(DeriveError::FoundStruct);
            },
            Data::Union => {
                return Err(DeriveError::FoundUnion);
            },
        };
        match parse_variants_attributes(&variants) {
            Ok(titles) => Ok(TitledRoutable { ident, titles, variants }),
            Err(reason) => Err(reason),
        }
    }

    /// The arms of the `title` method: one for each variant, in the order of the variants.
    ///
    /// The arm of a variant without fields gives the variant's title as it is. The arm of a
    /// variant with named fields binds the fields and formats the title, in which every
    /// `:field` and `*field` has become the slot `{field}`.
    pub fn build_title(&self) -> (arms: Vec<TitleArm>)
        ensures
            arms.deep_view() == self.deep_view().arms(),
    {
        proof {
            use_type_invariant(self);
            lemma_titles_of_ok(self.variants.deep_view());
        }
        let mut arms: Vec<TitleArm> = Vec::new();
        let mut i: usize = 0;
        while i < self.variants.len()
            invariant
                i <= self.variants.len(),
                self.titles.len() == self.variants.len(),
                forall|k: int|
                    0 <= k < self.variants.len() ==> !(#[trigger] self.variants.deep_view()[k].fields
                        is Unnamed),
                arms.deep_view() == self.deep_view().arms().take(i as int),
            decreases self.variants.len() - i,
        {
            let variant = &self.variants[i];
            let right = &self.titles[i];
            assert(self.variants.deep_view()[i as int] == variant.deep_view());
            let arm = match &variant.fields {
                Fields::Unit => TitleArm::Verbatim {
                    variant: variant.ident.clone(),
                    title: right.clone(),
                },
                Fields::Named(fields) => TitleArm::Formatted {
                    variant: variant.ident.clone(),
                    fields: clone_names(fields),
                    template: rewrite_template(right.as_str(), fields),
                },
                Fields::Unnamed => {
                    assert(false);
                    vstd::pervasive::unreached()
                },
            };
            assert(arm.deep_view() == arm_of(variant.deep_view(), right@));
            let ghost before = arms.deep_view();
            arms.push(arm);
            assert(arms.deep_view() =~= before.push(arm.deep_view()));
            assert(before.push(arm.deep_view()) =~= self.deep_view().arms().take(i + 1));
            i += 1;
        }
        assert(self.deep_view().arms().take(self.variants.len() as int) =~= self.deep_view().arms());
        arms
    }
}

/// The implementation of `title` for the enum `input`: the enum's name, and the arms of
/// [`TitledRoutable::build_title`].
pub fn titled_routable_derive_impl(input: TitledRoutable) -> (title_impl: TitleImpl)
    ensures
        title_impl.deep_view() == input.deep_view().title_impl(),
{
    let title = input.build_title();
    let TitledRoutable { ident, .. } = input;
    TitleImpl { ident, arms: title }
}

/// Derives the implementation of `title` for a declaration.
///
/// Gives the whole implementation, or the reason against it and nothing of an implementation.
pub fn routable_derive(input: DeriveInput) -> (title_impl: Result<TitleImpl, DeriveError>)
    ensures
        result_view(title_impl) == derived(input.deep_view()),
{
    match TitledRoutable::parse(input) {
        Ok(input) => Ok(titled_routable_derive_impl(input)),
        Err(reason) => Err(reason),
    }
}

} // verus!
