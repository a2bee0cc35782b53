//! What holds of derivations.
//!
//! The titles are read variant by variant and the first variant without one decides. From that
//! follow the cases that a derivation must refuse, and what it gives for an enum of variants
//! without fields.

use crate::derive::{
    derived, parsed, title_of_variant, titles_of, TitleArmView, TitleImplView,
};
use crate::error::DeriveErrorView;
use crate::input::{is_title, title_positions, AttributeView, DeriveInputView, VariantView};
use crate::literal::title_literal;
use crate::source::impl_source;
use vstd::prelude::*;

verus! {

/// The positions found are those of the title attributes and of no others, each once and in
/// rising order.
pub proof fn lemma_title_positions(attrs: Seq<AttributeView>)
    ensures
        forall|position: nat|
            title_positions(attrs).contains(position) <==> position < attrs.len() && is_title(
                attrs[position as int],
            ),
        forall|i: int, j: int|
            0 <= i < j < title_positions(attrs).len() ==> title_positions(attrs)[i]
                < title_positions(attrs)[j],
    decreases attrs.len(),
{
    let found = title_positions(attrs);
    if attrs.len() > 0 {
        let earlier = attrs.drop_last();
        let before = title_positions(earlier);
        let last = (attrs.len() - 1) as nat;
        lemma_title_positions(earlier);
        assert forall|position: nat| found.contains(position) <==> position < attrs.len()
            && is_title(attrs[position as int]) by {
            if position < last {
                assert(earlier[position as int] == attrs[position as int]);
            }
            if found.contains(position) {
                let k = choose|k: int| 0 <= k < found.len() && found[k] == position;
                if k < before.len() {
                    assert(before[k] == position);
                    assert(before.contains(position));
                }
            }
            if position < attrs.len() && is_title(attrs[position as int]) {
                if position == last {
                    assert(found[found.len() - 1] == position);
                } else {
                    assert(before.contains(position));
                    let k = choose|k: int| 0 <= k < before.len() && before[k] == position;
                    assert(found[k] == position);
                }
            }
        }
        assert forall|i: int, j: int| 0 <= i < j < found.len() implies found[i] < found[j] by {
            if j == before.len() {
                assert(before.contains(before[i]));
            }
        }
    }
}

/// The titles come to exactly the variants' own: there is one for each variant, and it is that
/// variant's title.
pub proof fn lemma_titles_of_ok(variants: Seq<VariantView>)
    ensures
        titles_of(variants) matches Ok(titles) ==> {
            &&& titles.len() == variants.len()
            &&& forall|i: int|
                0 <= i < variants.len() ==> title_of_variant(#[trigger] variants[i], i as nat)
                    == Ok::<Seq<char>, DeriveErrorView>(titles[i])
        },
        (forall|i: int|
            0 <= i < variants.len() ==> title_of_variant(#[trigger] variants[i], i as nat) is Ok)
            ==> titles_of(variants) is Ok,
    decreases variants.len(),
{
    if variants.len() > 0 {
        let earlier = variants.drop_last();
        lemma_titles_of_ok(earlier);
        assert forall|i: int| 0 <= i < earlier.len() implies earlier[i] == variants[i] by {}
        if forall|i: int|
            0 <= i < variants.len() ==> title_of_variant(#[trigger] variants[i], i as nat) is Ok {
            assert forall|i: int| 0 <= i < earlier.len() implies title_of_variant(
                #[trigger] earlier[i],
                i as nat,
            ) is Ok by {
                assert(earlier[i] == variants[i]);
            }
            assert(variants.last() == variants[variants.len() - 1]);
        }
    }
}

/// The first variant without a title decides: where every variant before position `k` has a
/// title and the one at `k` has none, the reason against that variant is the outcome.
pub proof fn lemma_titles_of_first_failure(variants: Seq<VariantView>, k: int)
    requires
        0 <= k < variants.len(),
        title_of_variant(variants[k], k as nat) is Err,
        forall|i: int| 0 <= i < k ==> title_of_variant(#[trigger] variants[i], i as nat) is Ok,
    ensures
        titles_of(variants) == Err::<Seq<Seq<char>>, DeriveErrorView>(
            title_of_variant(variants[k], k as nat)->Err_0,
        ),
    decreases variants.len(),
{
    let earlier = variants.drop_last();
    assert forall|i: int| 0 <= i < earlier.len() implies earlier[i] == variants[i] by {}
    if k == variants.len() - 1 {
        assert forall|i: int| 0 <= i < earlier.len() implies title_of_variant(
            #[trigger] earlier[i],
            i as nat,
        ) is Ok by {
            assert(earlier[i] == variants[i]);
        }
        lemma_titles_of_ok(earlier);
    } else {
        assert(earlier[k] == variants[k]);
        assert forall|i: int| 0 <= i < k implies title_of_variant(
            #[trigger] earlier[i],
            i as nat,
        ) is Ok by {
            assert(earlier[i] == variants[i]);
        }
        lemma_titles_of_first_failure(earlier, k);
    }
}

/// An enum whose variants have no fields and carry one title each, written as a string literal,
/// gets an implementation, and the arm of each variant gives the value of that variant's
/// literal unchanged, whatever the literal holds.
pub proof fn lemma_unit_variants_give_their_titles(input: DeriveInputView)
    requires
        input.data is Enum,
        forall|i: int|
            0 <= i < input.data->Enum_0.len() ==> {
                let variant = #[trigger] input.data->Enum_0[i];
                &&& variant.fields is Unit
                &&& title_positions(variant.attrs).len() == 1
                &&& title_literal(
                    variant.attrs[title_positions(variant.attrs)[0] as int].arguments,
                ) is Some
            },
    ensures
        derived(input) matches Ok(title_impl) && {
            &&& title_impl.ident == input.ident
            &&& title_impl.arms.len() == input.data->Enum_0.len()
            &&& forall|i: int|
                0 <= i < title_impl.arms.len() ==> {
                    let variant = input.data->Enum_0[i];
                    #[trigger] title_impl.arms[i] == TitleArmView::Verbatim {
                        variant: variant.ident,
                        title: title_literal(
                            variant.attrs[title_positions(variant.attrs)[0] as int].arguments,
                        )->Some_0,
                    }
                }
        },
{
    let variants = input.data->Enum_0;
    assert forall|i: int| 0 <= i < variants.len() implies title_of_variant(
        #[trigger] variants[i],
        i as nat,
    ) is Ok by {}
    lemma_titles_of_ok(variants);
}

/// An enum without variants gets an implementation without arms, and its source is a method
/// with an empty match on `*self`, whatever literals are at hand.
pub proof fn lemma_enum_without_variants(input: DeriveInputView, literals: Seq<Seq<char>>)
    requires
        input.data is Enum,
        input.data->Enum_0.len() == 0,
    ensures
        derived(input) matches Ok(title_impl) && {
            &&& title_impl.ident == input.ident
            &&& title_impl.arms.len() == 0
            &&& title_impl.source(literals) == impl_source(
                input.ident,
                "fn title(&self) -> ::std::string::String { match *self { } }"@,
            )
        },
{
}

/// A variant that has no title attribute, or more than one, leaves the enum without an
/// implementation: the derivation gives a reason and nothing else.
pub proof fn lemma_title_count_must_be_one(input: DeriveInputView, k: int)
    requires
        input.data is Enum,
        0 <= k < input.data->Enum_0.len(),
        title_positions(input.data->Enum_0[k].attrs).len() != 1,
    ensures
        parsed(input) is Err,
        derived(input) is Err,
{
    let variants = input.data->Enum_0;
    lemma_titles_of_ok(variants);
    assert(title_of_variant(variants[k], k as nat) is Err);
}

/// A struct is refused, and the diagnostic says what was expected and what was found.
pub proof fn lemma_struct_is_refused(input: DeriveInputView)
    requires
        input.data is Struct,
    ensures
        derived(input) == Err::<TitleImplView, DeriveErrorView>(DeriveErrorView::FoundStruct),
        DeriveErrorView::FoundStruct.message() == "expected enum, found struct"@,
{
}

/// A variant with positional fields leaves the enum without an implementation. Where every
/// variant before it has a title, the reason given is that variant's positional fields.
pub proof fn lemma_positional_fields_are_refused(input: DeriveInputView, k: int)
    requires
        input.data is Enum,
        0 <= k < input.data->Enum_0.len(),
        input.data->Enum_0[k].fields is Unnamed,
    ensures
        derived(input) is Err,
        (forall|i: int|
            0 <= i < k ==> title_of_variant(#[trigger] input.data->Enum_0[i], i as nat) is Ok)
            ==> derived(input) == Err::<TitleImplView, DeriveErrorView>(
            DeriveErrorView::UnnamedFields { variant: k as nat },
        ),
        (DeriveErrorView::UnnamedFields { variant: k as nat }).message()
            == "only named fields are supported"@,
{
    let variants = input.data->Enum_0;
    lemma_titles_of_ok(variants);
    assert(title_of_variant(variants[k], k as nat) is Err);
    if forall|i: int|
        0 <= i < k ==> title_of_variant(#[trigger] input.data->Enum_0[i], i as nat) is Ok {
        lemma_titles_of_first_failure(variants, k);
    }
}

} // verus!
