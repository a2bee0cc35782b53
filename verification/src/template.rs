//! Title templates and the placeholders in them.
//!
//! A template names a field of its variant as `:field` or `*field`. Rewriting turns both forms
//! into the format slot `{field}`, by plain substitution of text.

use crate::text::{chars_of, string_of};
use vstd::prelude::*;

verus! {

/// The placeholder that `marker` opens for `field`: `:field` or `*field`.
pub open spec fn placeholder(marker: char, field: Seq<char>) -> Seq<char> {
    seq![marker] + field
}

/// The format slot bound to `field`: `{field}`.
pub open spec fn slot(field: Seq<char>) -> Seq<char> {
    seq!['{'] + field + seq!['}']
}

/// Whether `pattern` stands in `text` at position `at`.
pub open spec fn occurs_at(text: Seq<char>, pattern: Seq<char>, at: int) -> bool {
    &&& 0 <= at
    &&& at + pattern.len() <= text.len()
    &&& text.subrange(at, at + pattern.len()) == pattern
}

/// `text` with the occurrences of `pattern` replaced by `with`: the text is read from left to
/// right, and reading resumes behind each occurrence that was replaced.
pub open spec fn replaced(text: Seq<char>, pattern: Seq<char>, with: Seq<char>) -> Seq<char>
    recommends
        pattern.len() > 0,
    decreases text.len(),
{
    if pattern.len() == 0 || text.len() < pattern.len() {
        text
    } else if occurs_at(text, pattern, 0) {
        with + replaced(text.skip(pattern.len() as int), pattern, with)
    } else {
        text.take(1) + replaced(text.skip(1), pattern, with)
    }
}

/// `template` with both placeholders of `field` turned into its slot: first every `:field`,
/// then every `*field`.
pub open spec fn rewritten_for(template: Seq<char>, field: Seq<char>) -> Seq<char> {
    replaced(
        replaced(template, placeholder(':', field), slot(field)),
        placeholder('*', field),
        slot(field),
    )
}

/// `template` rewritten for each of `fields` in turn, the first field first.
pub open spec fn rewritten(template: Seq<char>, fields: Seq<Seq<char>>) -> Seq<char>
    decreases fields.len(),
{
    if fields.len() == 0 {
        template
    } else {
        rewritten_for(rewritten(template, fields.drop_last()), fields.last())
    }
}

fn occurs_here(text: &Vec<char>, pattern: &Vec<char>, at: usize) -> (found: bool)
    requires
        at <= text.len(),
    ensures
        found == occurs_at(text@, pattern@, at as int),
{
    if text.len() - at < pattern.len() {
        return false;
    }
    let mut k: usize = 0;
    while k < pattern.len()
        invariant
            k <= pattern.len(),
            at + pattern.len() <= text.len(),
            forall|j: int| 0 <= j < k ==> text@[at + j] == pattern@[j],
        decreases pattern.len() - k,
    {
        if text[at + k] != pattern[k] {
            assert(text@.subrange(at as int, at + pattern.len())[k as int] == text@[at + k]);
            return false;
        }
        k += 1;
    }
    assert(text@.subrange(at as int, at + pattern.len()) =~= pattern@);
    true
}

fn append_chars(out: &mut Vec<char>, more: &Vec<char>)
    ensures
        final(out)@ == old(out)@ + more@,
{
    let mut k: usize = 0;
    while k < more.len()
        invariant
            k <= more.len(),
            out@ == old(out)@ + more@.take(k as int),
        decreases more.len() - k,
    {
        out.push(more[k]);
        k += 1;
    }
}

fn replace_all(text: &Vec<char>, pattern: &Vec<char>, with: &Vec<char>) -> (out: Vec<char>)
    requires
        pattern.len() > 0,
    ensures
        out@ == replaced(text@, pattern@, with@),
{
    let mut out: Vec<char> = Vec::new();
    let mut at: usize = 0;
    assert(text@.skip(0) =~= text@ && out@ + text@ =~= text@);
    assert(out@ + replaced(text@, pattern@, with@) =~= replaced(text@, pattern@, with@));
    while at < text.len()
        invariant
            at <= text.len(),
            pattern.len() > 0,
            replaced(text@, pattern@, with@) == out@ + replaced(
                text@.skip(at as int),
                pattern@,
                with@,
            ),
        decreases text.len() - at,
    {
        let ghost rest = text@.skip(at as int);
        if occurs_here(text, pattern, at) {
            assert(rest.subrange(0, pattern.len() as int) =~= text@.subrange(
                at as int,
                at + pattern.len(),
            ));
            assert(rest.skip(pattern.len() as int) =~= text@.skip(at + pattern.len()));
            append_chars(&mut out, with);
            at += pattern.len();
        } else {
            assert(rest.len() >= pattern.len() ==> rest.subrange(0, pattern.len() as int)
                =~= text@.subrange(at as int, at + pattern.len()));
            assert(rest.skip(1) =~= text@.skip(at + 1));
            assert(rest =~= rest.take(1) + rest.skip(1));
            assert(rest.take(1) =~= seq![text@[at as int]]);
            out.push(text[at]);
            at += 1;
        }
    }
    out
}

fn placeholder_of(marker: char, field: &Vec<char>) -> (pattern: Vec<char>)
    ensures
        pattern@ == placeholder(marker, field@),
{
    let mut pattern: Vec<char> = Vec::new();
    pattern.push(marker);
    append_chars(&mut pattern, field);
    pattern
}

fn slot_of(field: &Vec<char>) -> (with: Vec<char>)
    ensures
        with@ == slot(field@),
{
    let mut with: Vec<char> = Vec::new();
    with.push('{');
    append_chars(&mut with, field);
    with.push('}');
    with
}

/// Rewrites the placeholders of `template`: for each of `fields` in turn, every `:field` and
/// then every `*field` becomes `{field}`.
pub fn rewrite_template(template: &str, fields: &Vec<String>) -> (rewritten_template: String)
    ensures
        rewritten_template@ == rewritten(template@, fields.deep_view()),
{
    let mut right = chars_of(template);
    let mut i: usize = 0;
    while i < fields.len()
        invariant
            i <= fields.len(),
            right@ == rewritten(template@, fields.deep_view().take(i as int)),
        decreases fields.len() - i,
    {
        let field = chars_of(fields[i].as_str());
        let with = slot_of(&field);
        let colon = placeholder_of(':', &field);
        let star = placeholder_of('*', &field);
        right = replace_all(&right, &colon, &with);
        right = replace_all(&right, &star, &with);
        proof {
            let done = fields.deep_view().take(i + 1);
            assert(done.drop_last() =~= fields.deep_view().take(i as int));
            assert(done.last() == field@);
        }
        i += 1;
    }
    assert(fields.deep_view().take(fields.len() as int) =~= fields.deep_view());
    string_of(&right)
}

} // verus!
