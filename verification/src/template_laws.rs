//! What holds of rewritten templates.
//!
//! A template without placeholders is rewritten to itself, and the two forms of a placeholder,
//! `:field` and `*field`, are rewritten alike.

use crate::template::{occurs_at, placeholder, replaced, rewritten, rewritten_for, slot};
use vstd::prelude::*;

verus! {

/// Whether `pattern` stands somewhere in `text`.
pub open spec fn occurs(text: Seq<char>, pattern: Seq<char>) -> bool {
    exists|at: int| occurs_at(text, pattern, at)
}

/// Whether `c` is one of the characters that placeholders and slots are written with.
pub open spec fn is_markup(c: char) -> bool {
    c == ':' || c == '*' || c == '{' || c == '}'
}

/// Whether `name` holds no markup. Every identifier is plain.
pub open spec fn is_plain(name: Seq<char>) -> bool {
    forall|i: int| 0 <= i < name.len() ==> !is_markup(#[trigger] name[i])
}

/// Whether `text` begins with `head`.
pub open spec fn begins_with(text: Seq<char>, head: Seq<char>) -> bool {
    head.len() <= text.len() && text.take(head.len() as int) == head
}

/// Replacing a pattern that stands nowhere in the text changes nothing.
pub proof fn lemma_replaced_without_occurrence(
    text: Seq<char>,
    pattern: Seq<char>,
    with: Seq<char>,
)
    requires
        !occurs(text, pattern),
    ensures
        replaced(text, pattern, with) == text,
    decreases text.len(),
{
    if pattern.len() > 0 && text.len() >= pattern.len() {
        assert(!occurs_at(text, pattern, 0));
        let rest = text.skip(1);
        assert forall|at: int| !occurs_at(rest, pattern, at) by {
            if occurs_at(rest, pattern, at) {
                assert(rest.subrange(at, at + pattern.len()) =~= text.subrange(
                    at + 1,
                    at + 1 + pattern.len(),
                ));
                assert(occurs_at(text, pattern, at + 1));
            }
        }
        lemma_replaced_without_occurrence(rest, pattern, with);
        assert(text =~= text.take(1) + rest);
    }
}

/// A template in which no placeholder of any field stands is rewritten to itself.
pub proof fn lemma_rewrite_without_placeholders(template: Seq<char>, fields: Seq<Seq<char>>)
    requires
        forall|i: int|
            0 <= i < fields.len() ==> !occurs(template, #[trigger] placeholder(':', fields[i]))
                && !occurs(template, placeholder('*', fields[i])),
    ensures
        rewritten(template, fields) == template,
    decreases fields.len(),
{
    if fields.len() > 0 {
        let field = fields.last();
        let earlier = fields.drop_last();
        assert forall|i: int| 0 <= i < earlier.len() implies !occurs(
            template,
            #[trigger] placeholder(':', earlier[i]),
        ) && !occurs(template, placeholder('*', earlier[i])) by {
            assert(earlier[i] == fields[i]);
        }
        lemma_rewrite_without_placeholders(template, earlier);
        assert(field == fields[fields.len() - 1]);
        assert(!occurs(template, placeholder(':', field)));
        lemma_replaced_without_occurrence(template, placeholder(':', field), slot(field));
        lemma_replaced_without_occurrence(template, placeholder('*', field), slot(field));
    }
}

proof fn lemma_first_char_kept(text: Seq<char>, pattern: Seq<char>, with: Seq<char>)
    requires
        pattern.len() > 0,
        text.len() > 0,
        text[0] != pattern[0],
    ensures
        replaced(text, pattern, with) == text.take(1) + replaced(text.skip(1), pattern, with),
{
    if text.len() < pattern.len() {
        assert(text =~= text.take(1) + text.skip(1));
    } else {
        assert(text.subrange(0, pattern.len() as int)[0] == text[0]);
    }
}

proof fn lemma_head_kept(head: Seq<char>, rest: Seq<char>, pattern: Seq<char>, with: Seq<char>)
    requires
        pattern.len() > 0,
        forall|i: int| 0 <= i < head.len() ==> head[i] != pattern[0],
    ensures
        replaced(head + rest, pattern, with) == head + replaced(rest, pattern, with),
    decreases head.len(),
{
    let text = head + rest;
    if head.len() == 0 {
        assert(text =~= rest);
        assert(head + replaced(rest, pattern, with) =~= replaced(rest, pattern, with));
    } else {
        assert(text[0] == head[0]);
        lemma_first_char_kept(text, pattern, with);
        assert(text.skip(1) =~= head.skip(1) + rest);
        lemma_head_kept(head.skip(1), rest, pattern, with);
        assert(text.take(1) + (head.skip(1) + replaced(rest, pattern, with)) =~= head + replaced(
            rest,
            pattern,
            with,
        ));
    }
}

/// Replacement goes through a text piece by piece where the second piece opens with a character
/// that the pattern holds nowhere behind its first position.
proof fn lemma_replaced_in_pieces(
    left: Seq<char>,
    right: Seq<char>,
    pattern: Seq<char>,
    with: Seq<char>,
)
    requires
        pattern.len() > 0,
        right.len() > 0 ==> forall|j: int| 1 <= j < pattern.len() ==> pattern[j] != right[0],
    ensures
        replaced(left + right, pattern, with) == replaced(left, pattern, with) + replaced(
            right,
            pattern,
            with,
        ),
    decreases left.len(),
{
    let text = left + right;
    let n = pattern.len() as int;
    if left.len() == 0 {
        assert(text =~= right);
        assert(left + replaced(right, pattern, with) =~= replaced(right, pattern, with));
    } else if text.len() < n {
        // nothing is long enough to hold the pattern
    } else if occurs_at(text, pattern, 0) {
        if left.len() < n {
            assert(text.subrange(0, n)[left.len() as int] == right[0]);
            assert(false);
        }
        assert(left.subrange(0, n) =~= text.subrange(0, n));
        assert(text.skip(n) =~= left.skip(n) + right);
        lemma_replaced_in_pieces(left.skip(n), right, pattern, with);
        assert(with + (replaced(left.skip(n), pattern, with) + replaced(right, pattern, with))
            =~= (with + replaced(left.skip(n), pattern, with)) + replaced(right, pattern, with));
    } else {
        assert(text.take(1) =~= left.take(1));
        assert(text.skip(1) =~= left.skip(1) + right);
        lemma_replaced_in_pieces(left.skip(1), right, pattern, with);
        if left.len() < n {
            assert(left =~= left.take(1) + left.skip(1));
        } else {
            assert(left.subrange(0, n) =~= text.subrange(0, n));
        }
        assert(left.take(1) + (replaced(left.skip(1), pattern, with) + replaced(
            right,
            pattern,
            with,
        )) =~= (left.take(1) + replaced(left.skip(1), pattern, with)) + replaced(
            right,
            pattern,
            with,
        ));
    }
}

proof fn lemma_begins_with_step(text: Seq<char>, head: Seq<char>)
    requires
        text.len() > 0,
        head.len() > 0,
    ensures
        begins_with(text, head) <==> text[0] == head[0] && begins_with(
            text.skip(1),
            head.skip(1),
        ),
{
    let n = head.len() as int;
    if begins_with(text, head) {
        assert(text.take(n)[0] == head[0]);
        assert(text.skip(1).take(n - 1) =~= text.take(n).skip(1));
    }
    if text[0] == head[0] && begins_with(text.skip(1), head.skip(1)) {
        assert forall|i: int| 0 <= i < n implies text.take(n)[i] == head[i] by {
            if i > 0 {
                assert(text.skip(1).take(n - 1)[i - 1] == head.skip(1)[i - 1]);
            }
        }
        assert(text.take(n) =~= head);
    }
}

/// Replacement does not make a text begin with `head` where it did not, as long as `head` holds
/// neither the first character of the pattern nor that of what replaces it.
proof fn lemma_head_not_made(
    text: Seq<char>,
    head: Seq<char>,
    pattern: Seq<char>,
    with: Seq<char>,
)
    requires
        pattern.len() > 0,
        with.len() > 0,
        forall|i: int| 0 <= i < head.len() ==> head[i] != pattern[0] && head[i] != with[0],
        !begins_with(text, head),
    ensures
        !begins_with(replaced(text, pattern, with), head),
    decreases text.len(),
{
    let out = replaced(text, pattern, with);
    if head.len() == 0 {
        assert(text.take(0) =~= head);
    } else if text.len() == 0 {
    } else if text[0] == pattern[0] {
        assert(out.len() > 0 && (out[0] == text[0] || out[0] == with[0]));
        lemma_begins_with_step(out, head);
    } else {
        lemma_first_char_kept(text, pattern, with);
        let tail = replaced(text.skip(1), pattern, with);
        assert(out.len() > 0 && out[0] == text[0]);
        assert(out.skip(1) =~= tail);
        lemma_begins_with_step(out, head);
        lemma_begins_with_step(text, head);
        if text[0] == head[0] {
            lemma_head_not_made(text.skip(1), head.skip(1), pattern, with);
        }
    }
}

/// A plain name at the head of a text is not touched by rewriting for any field.
proof fn lemma_plain_head_kept(head: Seq<char>, rest: Seq<char>, field: Seq<char>)
    requires
        is_plain(head),
    ensures
        rewritten_for(head + rest, field) == head + rewritten_for(rest, field),
{
    let with = slot(field);
    assert forall|i: int| 0 <= i < head.len() implies head[i] != placeholder(':', field)[0]
        && head[i] != placeholder('*', field)[0] by {
        assert(!is_markup(head[i]));
    }
    lemma_head_kept(head, rest, placeholder(':', field), with);
    lemma_head_kept(head, replaced(rest, placeholder(':', field), with), placeholder('*', field), with);
}

/// One replacement of the placeholder that `lead` opens, in a text around one character of
/// markup: that character and the field name behind it are replaced where they are the
/// placeholder, and the character stays where they are not.
proof fn lemma_replaced_around_markup(
    before: Seq<char>,
    markup: char,
    after: Seq<char>,
    lead: char,
    field: Seq<char>,
    with: Seq<char>,
)
    requires
        is_markup(markup),
        is_plain(field),
    ensures
        replaced(before + seq![markup] + after, placeholder(lead, field), with) == replaced(
            before,
            placeholder(lead, field),
            with,
        ) + if markup == lead && begins_with(after, field) {
            with + replaced(after.skip(field.len() as int), placeholder(lead, field), with)
        } else {
            seq![markup] + replaced(after, placeholder(lead, field), with)
        },
{
    let pattern = placeholder(lead, field);
    let n = field.len() as int;
    let tail = seq![markup] + after;
    assert(before + seq![markup] + after =~= before + tail);
    assert forall|j: int| 1 <= j < pattern.len() implies pattern[j] != tail[0] by {
        assert(pattern[j] == field[j - 1]);
        assert(!is_markup(field[j - 1]));
    }
    lemma_replaced_in_pieces(before, tail, pattern, with);
    assert(tail.skip(1) =~= after);
    assert(tail.take(1) =~= seq![markup]);
    if markup != lead {
        lemma_first_char_kept(tail, pattern, with);
    } else if begins_with(after, field) {
        assert(tail.subrange(0, n + 1) =~= pattern);
        assert(tail.skip(n + 1) =~= after.skip(n));
    } else {
        if occurs_at(tail, pattern, 0) {
            assert(after.take(n) =~= tail.subrange(0, n + 1).skip(1));
            assert(pattern.skip(1) =~= field);
        }
    }
}

/// What rewriting for `field` makes of a text around one marker: the marker and the field name
/// behind it become the slot, or the marker stays where no such name follows.
proof fn lemma_rewritten_around_marker(
    before: Seq<char>,
    marker: char,
    after: Seq<char>,
    field: Seq<char>,
)
    requires
        marker == ':' || marker == '*',
        is_plain(field),
    ensures
        rewritten_for(before + seq![marker] + after, field) == if begins_with(after, field) {
            rewritten_for(before, field) + slot(field) + rewritten_for(
                after.skip(field.len() as int),
                field,
            )
        } else {
            rewritten_for(before, field) + seq![marker] + rewritten_for(after, field)
        },
{
    let colon = placeholder(':', field);
    let star = placeholder('*', field);
    let with = slot(field);
    let n = field.len() as int;
    let first_before = replaced(before, colon, with);
    let first_after = replaced(after, colon, with);
    let second_before = replaced(first_before, star, with);
    lemma_replaced_around_markup(before, marker, after, ':', field, with);
    if begins_with(after, field) {
        let behind = after.skip(n);
        let first_behind = replaced(behind, colon, with);
        let second_behind = replaced(first_behind, star, with);
        if marker == ':' {
            // `{field}` now stands there, and the second pass leaves it alone
            let inner = field + seq!['}'] + first_behind;
            assert(first_before + (with + first_behind) =~= first_before + seq!['{'] + inner);
            lemma_replaced_around_markup(first_before, '{', inner, '*', field, with);
            assert forall|i: int| 0 <= i < field.len() implies field[i] != star[0] by {
                assert(!is_markup(field[i]));
            }
            assert(inner =~= field + (seq!['}'] + first_behind));
            lemma_head_kept(field, seq!['}'] + first_behind, star, with);
            lemma_first_char_kept(seq!['}'] + first_behind, star, with);
            assert((seq!['}'] + first_behind).skip(1) =~= first_behind);
            assert((seq!['}'] + first_behind).take(1) =~= seq!['}']);
            assert(second_before + (seq!['{'] + (field + (seq!['}'] + second_behind)))
                =~= second_before + with + second_behind);
        } else {
            // `*field` still stands there, and the second pass replaces it
            assert(after =~= field + behind);
            assert forall|i: int| 0 <= i < field.len() implies field[i] != colon[0] by {
                assert(!is_markup(field[i]));
            }
            lemma_head_kept(field, behind, colon, with);
            lemma_replaced_around_markup(first_before, '*', first_after, '*', field, with);
            assert(first_after.take(n) =~= field);
            assert(first_after.skip(n) =~= first_behind);
            assert(first_before + (seq![marker] + first_after) =~= first_before + seq![marker]
                + first_after);
            assert(second_before + (with + second_behind) =~= second_before + with
                + second_behind);
        }
    } else {
        assert(first_before + (seq![marker] + first_after) =~= first_before + seq![marker]
            + first_after);
        lemma_replaced_around_markup(first_before, marker, first_after, '*', field, with);
        if marker == '*' {
            assert forall|i: int| 0 <= i < field.len() implies field[i] != colon[0] && field[i]
                != with[0] by {
                assert(!is_markup(field[i]));
            }
            lemma_head_not_made(after, field, colon, with);
        }
        assert(second_before + (seq![marker] + replaced(first_after, star, with))
            =~= second_before + seq![marker] + replaced(first_after, star, with));
    }
}

/// After any number of the fields, the two forms have either met, or still differ in the one
/// marker only.
proof fn lemma_forms_after(
    before: Seq<char>,
    field: Seq<char>,
    after: Seq<char>,
    fields: Seq<Seq<char>>,
    n: int,
)
    requires
        is_plain(field),
        forall|i: int| 0 <= i < fields.len() ==> is_plain(#[trigger] fields[i]),
        0 <= n <= fields.len(),
    ensures
        ({
            let done = fields.take(n);
            let colon_form = rewritten(before + placeholder(':', field) + after, done);
            let star_form = rewritten(before + placeholder('*', field) + after, done);
            &&& colon_form == star_form || (colon_form == rewritten(before, done) + seq![':']
                + (field + rewritten(after, done)) && star_form == rewritten(before, done)
                + seq!['*'] + (field + rewritten(after, done)))
            &&& done.contains(field) ==> colon_form == star_form
        }),
    decreases n,
{
    let done = fields.take(n);
    let colon_text = before + placeholder(':', field) + after;
    let star_text = before + placeholder('*', field) + after;
    if n == 0 {
        assert(colon_text =~= before + seq![':'] + (field + after));
        assert(star_text =~= before + seq!['*'] + (field + after));
    } else {
        let earlier = fields.take(n - 1);
        let next = fields[n - 1];
        assert(done.drop_last() =~= earlier);
        assert(done.last() == next);
        lemma_forms_after(before, field, after, fields, n - 1);
        let colon_form = rewritten(colon_text, earlier);
        let star_form = rewritten(star_text, earlier);
        if done.contains(field) && !earlier.contains(field) {
            let j = choose|j: int| 0 <= j < done.len() && done[j] == field;
            if j < n - 1 {
                assert(earlier[j] == field);
            }
            assert(next == field);
        }
        if earlier.contains(field) {
            let j = choose|j: int| 0 <= j < earlier.len() && earlier[j] == field;
            assert(done[j] == field);
        }
        if colon_form != star_form {
            let left = rewritten(before, earlier);
            let right = rewritten(after, earlier);
            lemma_rewritten_around_marker(left, ':', field + right, next);
            lemma_rewritten_around_marker(left, '*', field + right, next);
            if !begins_with(field + right, next) {
                lemma_plain_head_kept(field, right, next);
                if next == field {
                    assert((field + right).take(field.len() as int) =~= field);
                }
            }
        }
    }
}

/// In a template, `*field` and `:field` are the same placeholder: whichever of the two stands
/// at a place, the rewritten template is the same, given that `field` is one of the fields and
/// that the names of the fields are plain.
pub proof fn lemma_star_form_equals_colon_form(
    before: Seq<char>,
    field: Seq<char>,
    after: Seq<char>,
    fields: Seq<Seq<char>>,
)
    requires
        fields.contains(field),
        forall|i: int| 0 <= i < fields.len() ==> is_plain(#[trigger] fields[i]),
    ensures
        rewritten(before + placeholder('*', field) + after, fields) == rewritten(
            before + placeholder(':', field) + after,
            fields,
        ),
{
    lemma_forms_after(before, field, after, fields, fields.len() as int);
    assert(fields.take(fields.len() as int) =~= fields);
}

} // verus!
