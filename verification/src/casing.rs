//! The cases in which generated names can be written.

use convert_case::{Case as Style, Casing};
use vstd::prelude::*;

verus! {

/// A way of writing a name that is made of several words.
#[derive(Debug, Clone, Copy, PartialEq, Eq, Structural)]
pub enum Case {
    /// `snake_case`
    Snake,
    /// `CONSTANT_CASE`
    Constant,
    /// `UPPER_SNAKE_CASE`, written as `Constant` is.
    UpperSnake,
    /// `Ada_Case`
    Ada,
    /// `kebab-case`
    Kebab,
    /// `COBOL-CASE`
    Cobol,
    /// `UPPER-KEBAB-CASE`, written as `Cobol` is.
    UpperKebab,
    /// `Train-Case`
    Train,
    /// `flatcase`
    Flat,
    /// `UPPERFLATCASE`
    UpperFlat,
    /// `PascalCase`
    Pascal,
    /// `UpperCamelCase`, written as `Pascal` is.
    UpperCamel,
    /// `camelCase`
    Camel,
    /// `lower case`
    Lower,
    /// `UPPER CASE`
    Upper,
    /// `Title Case`
    Title,
    /// `Sentence case`
    Sentence,
}

/// How the names of one kind are written in generated code: as the schema
/// has them, or in a case.
#[derive(Debug, Clone, Copy, PartialEq, Eq, Structural)]
pub enum NameCase {
    Unchanged,
    Other(Case),
}

impl Default for NameCase {
    fn default() -> (case: Self)
        ensures
            case == NameCase::Unchanged,
    {
        NameCase::Unchanged
    }
}

/// A text rewritten in a case: its words are found, each is rewritten as the
/// case asks, and they are joined by the delimiter of the case.
pub uninterp spec fn converted(text: Seq<char>, case: Case) -> Seq<char>;

/// `convert_case::Casing::to_case`: the result depends on the text and the
/// case alone and is the one that [`converted`] names.
#[verifier::external_body]
pub(crate) fn convert(text: &str, case: Case) -> (result: String)
    ensures
        result@ == converted(text@, case),
{
    text.to_case(match case {
        Case::Snake => Style::Snake, Case::Constant => Style::Constant,
        Case::UpperSnake => Style::UpperSnake, Case::Ada => Style::Ada,
        Case::Kebab => Style::Kebab, Case::Cobol => Style::Cobol,
        Case::UpperKebab => Style::UpperKebab, Case::Train => Style::Train,
        Case::Flat => Style::Flat, Case::UpperFlat => Style::UpperFlat,
        Case::Pascal => Style::Pascal, Case::UpperCamel => Style::UpperCamel,
        Case::Camel => Style::Camel, Case::Lower => Style::Lower,
        Case::Upper => Style::Upper, Case::Title => Style::Title,
        Case::Sentence => Style::Sentence,
    })
}

/// A name as generated code writes it under a policy.
pub open spec fn name_in_case(name: Seq<char>, case: NameCase) -> Seq<char> {
    match case {
        NameCase::Unchanged => name,
        NameCase::Other(case) => converted(name, case),
    }
}

/// Texts that can be written in a case.
pub trait NameCasing {
    /// The text as generated code writes it under the policy `case`.
    fn to_name_case(&self, case: NameCase) -> (name: String);
}

impl NameCasing for str {
    fn to_name_case(&self, case: NameCase) -> (name: String)
        ensures
            name@ == name_in_case(self@, case),
    {
        match case {
            NameCase::Unchanged => self.to_string(),
            NameCase::Other(case) => convert(self, case),
        }
    }
}

impl NameCasing for String {
    fn to_name_case(&self, case: NameCase) -> (name: String)
        ensures
            name@ == name_in_case(self@, case),
    {
        self.as_str().to_name_case(case)
    }
}

} // verus!
