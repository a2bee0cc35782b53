//! The implementation of `title` as source text.
//!
//! The text is laid out on one line, its tokens set apart by single spaces. Each title stands
//! in it as a string literal; how a literal is spelled is left to `proc_macro2`.

use crate::derive::{TitleArm, TitleArmView, TitleImpl, TitleImplView};
use crate::literal::title_literal;
use vstd::prelude::*;
use vstd::string::StringExecFns;

verus! {

/// `parts` one after another, with `separator` between each two of them.
pub open spec fn joined(parts: Seq<Seq<char>>, separator: Seq<char>) -> Seq<char>
    decreases parts.len(),
{
    if parts.len() == 0 {
        Seq::empty()
    } else if parts.len() == 1 {
        parts[0]
    } else {
        joined(parts.drop_last(), separator) + separator + parts.last()
    }
}

/// The argument that hands a field to `format!` under its own name: `field = field`.
pub open spec fn binding(field: Seq<char>) -> Seq<char> {
    field + " = "@ + field
}

/// The method `title`, whose match has the arms `arms`, a comma behind each of them.
///
/// Without arms the match is empty and stands on `*self`: an enum without variants has no
/// value, and a match without arms is exhaustive on the enum itself, not on a reference to it.
pub open spec fn method_source(arms: Seq<Seq<char>>) -> Seq<char> {
    if arms.len() == 0 {
        "fn title(&self) -> ::std::string::String { match *self { } }"@
    } else {
        "fn title(&self) -> ::std::string::String { match self { "@ + joined(arms, ", "@)
            + ", } }"@
    }
}

/// The implementation of the trait for the enum `ident`, holding `method`.
pub open spec fn impl_source(ident: Seq<char>, method: Seq<char>) -> Seq<char> {
    "#[automatically_derived] impl ::yew_router_extra::TitledRoutable for "@ + ident + " { "@
        + method + " }"@
}

impl TitleArmView {
    /// The string that the arm's literal stands for: the title, or the rewritten template.
    pub open spec fn text(self) -> Seq<char> {
        match self {
            TitleArmView::Verbatim { title, .. } => title,
            TitleArmView::Formatted { template, .. } => template,
        }
    }

    /// The source of the arm, in which `literal` stands for the arm's title or template.
    pub open spec fn source(self, literal: Seq<char>) -> Seq<char> {
        match self {
            TitleArmView::Verbatim { variant, .. } => "Self::"@ + variant
                + " => ::std::string::ToString::to_string("@ + literal + ")"@,
            TitleArmView::Formatted { variant, fields, .. } => "Self::"@ + variant + " { "@
                + joined(fields, ", "@) + " } => ::std::format!("@ + literal + ", "@ + joined(
                fields.map_values(|field: Seq<char>| binding(field)),
                ", "@,
            ) + ")"@,
        }
    }
}

impl TitleImplView {
    /// Whether `literals` are string literals for the arms: one for each arm, which stands for
    /// that arm's title or template.
    pub open spec fn spelled_by(self, literals: Seq<Seq<char>>) -> bool {
        &&& literals.len() == self.arms.len()
        &&& forall|i: int|
            0 <= i < self.arms.len() ==> title_literal(Some(#[trigger] literals[i])) == Some(
                self.arms[i].text(),
            )
    }

    /// The source of the implementation, in which `literals` stand for the titles and templates
    /// of the arms.
    pub open spec fn source(self, literals: Seq<Seq<char>>) -> Seq<char> {
        impl_source(
            self.ident,
            method_source(Seq::new(self.arms.len(), |i: int| self.arms[i].source(literals[i]))),
        )
    }
}

/// Writes `value` as a string literal.
///
/// Trusted: the body is `proc_macro2::Literal::string`, whose result is printed. It makes the
/// string literal for the given string: one literal token that opens with `"`, escapes what
/// needs escaping, and stands for that very string when it is read back.
#[verifier::external_body]
fn string_literal(value: &str) -> (literal: String)
    ensures
        title_literal(Some(literal@)) == Some(value@),
{
    proc_macro2::Literal::string(value).to_string()
}

fn join(parts: &Vec<String>, separator: &str) -> (text: String)
    ensures
        text@ == joined(parts.deep_view(), separator@),
{
    let mut text = String::new();
    let mut i: usize = 0;
    while i < parts.len()
        invariant
            i <= parts.len(),
            text@ == joined(parts.deep_view().take(i as int), separator@),
        decreases parts.len() - i,
    {
        let ghost seen = parts.deep_view().take(i + 1);
        assert(seen.drop_last() =~= parts.deep_view().take(i as int));
        assert(seen.last() == parts[i as int]@);
        if i > 0 {
            text.append(separator);
        } else {
            assert(Seq::<char>::empty() + parts[i as int]@ =~= parts[i as int]@);
        }
        text.append(parts[i].as_str());
        i += 1;
    }
    assert(parts.deep_view().take(parts.len() as int) =~= parts.deep_view());
    text
}

fn bindings(fields: &Vec<String>) -> (arguments: Vec<String>)
    ensures
        arguments.deep_view() == fields.deep_view().map_values(|field: Seq<char>| binding(field)),
{
    let mut arguments: Vec<String> = Vec::new();
    let mut i: usize = 0;
    while i < fields.len()
        invariant
            i <= fields.len(),
            arguments.deep_view() == fields.deep_view().take(i as int).map_values(
                |field: Seq<char>| binding(field),
            ),
        decreases fields.len() - i,
    {
        let mut argument = fields[i].clone();
        argument.append(" = ");
        argument.append(fields[i].as_str());
        let ghost before = arguments.deep_view();
        arguments.push(argument);
        assert(arguments.deep_view() =~= before.push(binding(fields[i as int]@)));
        assert(before.push(binding(fields[i as int]@)) =~= fields.deep_view().take(
            i + 1,
        ).map_values(|field: Seq<char>| binding(field)));
        i += 1;
    }
    assert(fields.deep_view().take(fields.len() as int) =~= fields.deep_view());
    arguments
}

impl TitleArm {
    /// The title or template of the arm, which its literal stands for.
    pub fn text(&self) -> (text: &String)
        ensures
            text@ == self.deep_view().text(),
    {
        match self {
            TitleArm::Verbatim { title, .. } => title,
            TitleArm::Formatted { template, .. } => template,
        }
    }

    /// Writes the arm: `Self::Variant => ::std::string::ToString::to_string(literal)` for a
    /// title taken as it is, and `Self::Variant { fields } => ::std::format!(literal, field =
    /// field, ..)` for a template, with `literal` in the place of the title or template.
    pub fn source(&self, literal: &str) -> (text: String)
        ensures
            text@ == self.deep_view().source(literal@),
    {
        match self {
            TitleArm::Verbatim { variant, .. } => {
                let mut text = String::from_str("Self::");
                text.append(variant.as_str());
                text.append(" => ::std::string::ToString::to_string(");
                text.append(literal);
                text.append(")");
                text
            },
            TitleArm::Formatted { variant, fields, .. } => {
                let mut text = String::from_str("Self::");
                text.append(variant.as_str());
                text.append(" { ");
                text.append(join(fields, ", ").as_str());
                text.append(" } => ::std::format!(");
                text.append(literal);
                text.append(", ");
                text.append(join(&bindings(fields), ", ").as_str());
                text.append(")");
                text
            },
        }
    }
}

/// Writes the method `title` around the arms of its match, each given as source: a match on
/// `self` with a comma behind each arm, or, without arms, the empty match on `*self`.
pub fn write_method(arms: &Vec<String>) -> (text: String)
    ensures
        text@ == method_source(arms.deep_view()),
{
    if arms.len() == 0 {
        return String::from_str("fn title(&self) -> ::std::string::String { match *self { } }");
    }
    let mut text = String::from_str("fn title(&self) -> ::std::string::String { match self { ");
    text.append(join(arms, ", ").as_str());
    text.append(", } }");
    text
}

/// Writes the implementation of the trait for the enum `ident` around the method, given as
/// source.
pub fn write_impl(ident: &str, method: &str) -> (text: String)
    ensures
        text@ == impl_source(ident@, method@),
{
    let mut text = String::from_str(
        "#[automatically_derived] impl ::yew_router_extra::TitledRoutable for ",
    );
    text.append(ident);
    text.append(" { ");
    text.append(method);
    text.append(" }");
    text
}

impl TitleImpl {
    /// Writes the implementation as source text: the trait implemented for the enum, with the
    /// one method `title`, whose match has the arms in their order, and none for an enum
    /// without variants.
    ///
    /// Each title and template is written as a string literal that stands for it. The text is
    /// stated up to the spelling of those literals.
    pub fn source(&self) -> (text: String)
        ensures
            exists|literals: Seq<Seq<char>>|
                #![trigger self.deep_view().source(literals)]
                self.deep_view().spelled_by(literals) && text@ == self.deep_view().source(
                    literals,
                ),
    {
        let mut arms: Vec<String> = Vec::new();
        let ghost mut literals: Seq<Seq<char>> = Seq::empty();
        let mut i: usize = 0;
        while i < self.arms.len()
            invariant
                i <= self.arms.len(),
                literals.len() == i,
                forall|k: int|
                    0 <= k < i ==> title_literal(Some(#[trigger] literals[k])) == Some(
                        self.arms.deep_view()[k].text(),
                    ),
                arms.deep_view() == Seq::new(
                    i as nat,
                    |k: int| self.arms.deep_view()[k].source(literals[k]),
                ),
            decreases self.arms.len() - i,
        {
            let arm = &self.arms[i];
            let literal = string_literal(arm.text().as_str());
            let written = arm.source(literal.as_str());
            let ghost before = arms.deep_view();
            arms.push(written);
            proof {
                literals = literals.push(literal@);
                assert(arms.deep_view() =~= before.push(written@));
                assert(before.push(written@) =~= Seq::new(
                    (i + 1) as nat,
                    |k: int| self.arms.deep_view()[k].source(literals[k]),
                ));
            }
            i += 1;
        }
        let method = write_method(&arms);
        let text = write_impl(self.ident.as_str(), method.as_str());
        assert(self.deep_view().spelled_by(literals));
        assert(text@ == self.deep_view().source(literals));
        text
    }
}

} // verus!
