//! Naming styles and the case converter.

use convert_case::{Case, Casing};
use vstd::prelude::*;

use crate::text::same_text;

verus! {

/// The naming style that a record declares for its fields with
/// `#[serde(rename_all = "..")]`.
#[derive(Clone, Copy, Debug, PartialEq, Eq, Structural)]
pub enum NamingStyle {
    /// No style: names stay as they were written.
    Unchanged,
    /// `lowercase`: words in lower case, nothing between them.
    Lower,
    /// `UPPERCASE`: words in upper case, nothing between them.
    Upper,
    /// `PascalCase`: each word capitalized, nothing between them.
    Pascal,
    /// `camelCase`: as `PascalCase`, but the first word in lower case.
    Camel,
    /// `snake_case`: words in lower case, joined by `_`.
    Snake,
    /// `SCREAMING_SNAKE_CASE`: words in upper case, joined by `_`.
    ScreamingSnake,
    /// `kebab-case`: words in lower case, joined by `-`.
    Kebab,
    /// `SCREAMING-KEBAB-CASE`: words in upper case, joined by `-`.
    ScreamingKebab,
}

/// The cases of `convert_case` that the naming styles are written in. Each
/// variant stands for the variant of `convert_case::Case` of the same name.
#[derive(Clone, Copy, Debug, PartialEq, Eq, Structural)]
pub enum TargetCase {
    Flat,
    UpperFlat,
    Pascal,
    Camel,
    Snake,
    ScreamingSnake,
    Kebab,
    Cobol,
}

/// The string that `convert_case` makes of `identifier` in the case `case`:
/// the identifier split into words at `convert_case`'s default boundaries, the
/// words recased and joined as `case` asks.
pub uninterp spec fn recased(identifier: Seq<char>, case: TargetCase) -> Seq<char>;

/// The style that a `rename_all` value names; a value that names none is
/// `NamingStyle::Unchanged`.
pub open spec fn style_named(value: Seq<char>) -> NamingStyle {
    if value == "lowercase"@ {
        NamingStyle::Lower
    } else if value == "UPPERCASE"@ {
        NamingStyle::Upper
    } else if value == "PascalCase"@ {
        NamingStyle::Pascal
    } else if value == "camelCase"@ {
        NamingStyle::Camel
    } else if value == "snake_case"@ {
        NamingStyle::Snake
    } else if value == "SCREAMING_SNAKE_CASE"@ {
        NamingStyle::ScreamingSnake
    } else if value == "kebab-case"@ {
        NamingStyle::Kebab
    } else if value == "SCREAMING-KEBAB-CASE"@ {
        NamingStyle::ScreamingKebab
    } else {
        NamingStyle::Unchanged
    }
}

/// What `convert` makes of an identifier: the identifier itself without a
/// style, else the identifier recased in the style's target case.
pub open spec fn converted(identifier: Seq<char>, style: NamingStyle) -> Seq<char> {
    match style.target() {
        Some(case) => recased(identifier, case),
        None => identifier,
    }
}

impl NamingStyle {
    /// The case of `convert_case` that writes this style; `None` for the style
    /// that changes nothing.
    pub open spec fn target(self) -> Option<TargetCase> {
        match self {
            NamingStyle::Unchanged => None,
            NamingStyle::Lower => Some(TargetCase::Flat),
            NamingStyle::Upper => Some(TargetCase::UpperFlat),
            NamingStyle::Pascal => Some(TargetCase::Pascal),
            NamingStyle::Camel => Some(TargetCase::Camel),
            NamingStyle::Snake => Some(TargetCase::Snake),
            NamingStyle::ScreamingSnake => Some(TargetCase::ScreamingSnake),
            NamingStyle::Kebab => Some(TargetCase::Kebab),
            NamingStyle::ScreamingKebab => Some(TargetCase::Cobol),
        }
    }

    /// The target case, computed.
    pub fn target_case(self) -> (res: Option<TargetCase>)
        ensures
            res == self.target(),
    {
        match self {
            NamingStyle::Unchanged => None,
            NamingStyle::Lower => Some(TargetCase::Flat),
            NamingStyle::Upper => Some(TargetCase::UpperFlat),
            NamingStyle::Pascal => Some(TargetCase::Pascal),
            NamingStyle::Camel => Some(TargetCase::Camel),
            NamingStyle::Snake => Some(TargetCase::Snake),
            NamingStyle::ScreamingSnake => Some(TargetCase::ScreamingSnake),
            NamingStyle::Kebab => Some(TargetCase::Kebab),
            NamingStyle::ScreamingKebab => Some(TargetCase::Cobol),
        }
    }

    /// Reads a `rename_all` value. The eight style names of serde are
    /// recognized, letter for letter; any other value is no style.
    pub fn named(value: &str) -> (res: NamingStyle)
        ensures
            res == style_named(value@),
    {
        if same_text(value, "lowercase") {
            NamingStyle::Lower
        } else if same_text(value, "UPPERCASE") {
            NamingStyle::Upper
        } else if same_text(value, "PascalCase") {
            NamingStyle::Pascal
        } else if same_text(value, "camelCase") {
            NamingStyle::Camel
        } else if same_text(value, "snake_case") {
            NamingStyle::Snake
        } else if same_text(value, "SCREAMING_SNAKE_CASE") {
            NamingStyle::ScreamingSnake
        } else if same_text(value, "kebab-case") {
            NamingStyle::Kebab
        } else if same_text(value, "SCREAMING-KEBAB-CASE") {
            NamingStyle::ScreamingKebab
        } else {
            NamingStyle::Unchanged
        }
    }
}

/// `Casing::to_case` of `convert_case`, on a string slice.
///
/// Trusted: the result is a function of the identifier and the case alone, so
/// it is given the name `recased`. `to_case` splits at the default boundaries
/// and returns for every input; it reads no state but its arguments.
#[verifier::external_body]
fn to_case(identifier: &str, case: TargetCase) -> (res: String)
    ensures
        res@ == recased(identifier@, case),
{
    let case = match case {
        TargetCase::Flat => Case::Flat,
        TargetCase::UpperFlat => Case::UpperFlat,
        TargetCase::Pascal => Case::Pascal,
        TargetCase::Camel => Case::Camel,
        TargetCase::Snake => Case::Snake,
        TargetCase::ScreamingSnake => Case::ScreamingSnake,
        TargetCase::Kebab => Case::Kebab,
        TargetCase::Cobol => Case::Cobol,
    };
    identifier.to_case(case)
}

/// Writes `identifier` in the naming style `style`.
///
/// Without a style the identifier comes back unchanged; with one it is split
/// into words and the words are recased and joined as the style asks.
pub fn convert(identifier: &str, style: NamingStyle) -> (res: String)
    ensures
        res@ == converted(identifier@, style),
{
    match style.target_case() {
        Some(case) => to_case(identifier, case),
        None => identifier.to_owned(),
    }
}

} // verus!
