//! Directives and the reader that interprets them.
//!
//! A directive is one item of an attribute such as `#[serde(rename = "id")]`:
//! the attribute's namespace (`serde`), the item's key (`rename`) and, where
//! the item carries one, its string value (`id`). The reader looks at the
//! `serde` namespace only and at three keys in it; every other directive is
//! passed over, whatever it holds.

use vstd::prelude::*;

use crate::seq_facts::{lemma_filter_first, lemma_filter_none, lemma_filter_step};
use crate::text::same_text;

verus! {

/// One declared directive.
#[derive(Clone, Debug, PartialEq, Eq)]
pub struct Directive {
    /// The namespace of the attribute that the directive stands in.
    pub namespace: String,
    /// The directive's key.
    pub key: String,
    /// The directive's string value, where it has one.
    pub value: Option<String>,
}

/// The mathematical view of a [`Directive`].
pub struct DirectiveView {
    pub namespace: Seq<char>,
    pub key: Seq<char>,
    pub value: Option<Seq<char>>,
}

/// The characters of an optional string.
pub open spec fn text_of(text: Option<String>) -> Option<Seq<char>> {
    match text {
        Some(t) => Some(t@),
        None => None,
    }
}

impl View for Directive {
    type V = DirectiveView;

    open spec fn view(&self) -> DirectiveView {
        DirectiveView { namespace: self.namespace@, key: self.key@, value: text_of(self.value) }
    }
}

/// The views of a list of directives, in the same order.
pub open spec fn views(directives: Seq<Directive>) -> Seq<DirectiveView> {
    directives.map_values(|d: Directive| d@)
}

impl DirectiveView {
    /// The directive stands in the namespace that the reader recognizes.
    pub open spec fn recognized(self) -> bool {
        self.namespace == "serde"@
    }

    /// The directive names a record's naming style: `rename_all = ".."`.
    pub open spec fn names_style(self) -> bool {
        self.recognized() && self.key == "rename_all"@ && self.value is Some
    }

    /// The directive gives a field its name: `rename = ".."`.
    pub open spec fn renames(self) -> bool {
        self.recognized() && self.key == "rename"@ && self.value is Some
    }

    /// The directive excludes a field: `skip`.
    pub open spec fn skips(self) -> bool {
        self.recognized() && self.key == "skip"@
    }
}

/// The value of the first directive that names a style, if there is one.
pub open spec fn rename_all_of(directives: Seq<DirectiveView>) -> Option<Seq<char>> {
    let naming = directives.filter(|d: DirectiveView| d.names_style());
    if naming.len() > 0 {
        naming.first().value
    } else {
        None
    }
}

/// The value of the last directive that renames, if there is one.
pub open spec fn rename_of(directives: Seq<DirectiveView>) -> Option<Seq<char>> {
    let renaming = directives.filter(|d: DirectiveView| d.renames());
    if renaming.len() > 0 {
        renaming.last().value
    } else {
        None
    }
}

/// Some directive excludes the field.
pub open spec fn skipped(directives: Seq<DirectiveView>) -> bool {
    exists|i: int| 0 <= i < directives.len() && #[trigger] directives[i].skips()
}

/// The name a field is serialized under: the name its directives give it,
/// else the default name.
pub open spec fn resolved_name(directives: Seq<DirectiveView>, default_name: Seq<char>) -> Seq<
    char,
> {
    match rename_of(directives) {
        Some(name) => name,
        None => default_name,
    }
}

impl Directive {
    /// A directive without a value, such as `skip`.
    pub fn flag(namespace: &str, key: &str) -> (res: Directive)
        ensures
            res@ == (DirectiveView { namespace: namespace@, key: key@, value: None }),
    {
        Directive { namespace: namespace.to_owned(), key: key.to_owned(), value: None }
    }

    /// A directive with a string value, such as `rename = "id"`.
    pub fn valued(namespace: &str, key: &str, value: &str) -> (res: Directive)
        ensures
            res@ == (DirectiveView { namespace: namespace@, key: key@, value: Some(value@) }),
    {
        Directive {
            namespace: namespace.to_owned(),
            key: key.to_owned(),
            value: Some(value.to_owned()),
        }
    }

    /// Whether the directive stands in the `serde` namespace under `key`.
    fn is_serde(&self, key: &str) -> (res: bool)
        ensures
            res == (self@.recognized() && self@.key == key@),
    {
        same_text(self.namespace.as_str(), "serde") && same_text(self.key.as_str(), key)
    }
}

/// Reads a record's naming style directive.
///
/// Returns the value of the first `serde` directive `rename_all = ".."`, as it
/// was written, and `None` where the record has none. Directives of other
/// namespaces, other keys, and a `rename_all` without a value are passed over.
pub fn parse_serde_rename_all(directives: &[Directive]) -> (res: Option<String>)
    ensures
        text_of(res) == rename_all_of(views(directives@)),
{
    let ghost all = views(directives@);
    let ghost naming = |d: DirectiveView| d.names_style();
    let mut i: usize = 0;
    while i < directives.len()
        invariant
            i <= directives.len(),
            all == views(directives@),
            naming == |d: DirectiveView| d.names_style(),
            forall|j: int| 0 <= j < i ==> !all[j].names_style(),
        decreases directives.len() - i,
    {
        let directive = &directives[i];
        if directive.is_serde("rename_all") {
            match &directive.value {
                Some(value) => {
                    proof {
                        lemma_filter_first(all, naming, i as int);
                    }
                    return Some(value.clone());
                },
                None => {},
            }
        }
        i += 1;
    }
    proof {
        lemma_filter_none(all, naming);
    }
    None
}

/// Reads a field's directives.
///
/// Returns the name the field is serialized under and whether the field is
/// excluded. The name is the value of the field's last `serde` directive
/// `rename = ".."`, and `default_name` where it has none: an explicit name
/// always wins over the default. The field is excluded exactly when one of its
/// `serde` directives is `skip`. Everything else is passed over.
pub fn parse_field_serde_name_and_skip(directives: &[Directive], default_name: &str) -> (res: (
    String,
    bool,
))
    ensures
        res.0@ == resolved_name(views(directives@), default_name@),
        res.1 == skipped(views(directives@)),
{
    let ghost all = views(directives@);
    let ghost renaming = |d: DirectiveView| d.renames();
    let mut rename: Option<String> = None;
    let mut skip = false;
    let mut i: usize = 0;
    proof {
        lemma_filter_none(all.take(0), renaming);
    }
    while i < directives.len()
        invariant
            i <= directives.len(),
            all == views(directives@),
            renaming == |d: DirectiveView| d.renames(),
            text_of(rename) == rename_of(all.take(i as int)),
            skip == skipped(all.take(i as int)),
        decreases directives.len() - i,
    {
        let directive = &directives[i];
        proof {
            reveal_strlit("rename");
            reveal_strlit("skip");
            assert("rename"@.len() != "skip"@.len());
            lemma_filter_step(all, renaming, i as int);
            let before = all.take(i as int);
            let after = all.take(i + 1);
            if skipped(before) {
                let k = choose|k: int| 0 <= k < before.len() && #[trigger] before[k].skips();
                assert(after[k].skips());
            }
            if skipped(after) && !all[i as int].skips() {
                let k = choose|k: int| 0 <= k < after.len() && #[trigger] after[k].skips();
                assert(before[k].skips());
            }
            if all[i as int].skips() {
                assert(after[i as int].skips());
            }
        }
        if directive.is_serde("rename") {
            match &directive.value {
                Some(value) => {
                    rename = Some(value.clone());
                },
                None => {},
            }
        } else if directive.is_serde("skip") {
            skip = true;
        }
        i += 1;
    }
    assert(all.take(i as int) =~= all);
    let name = match rename {
        Some(name) => name,
        None => default_name.to_owned(),
    };
    (name, skip)
}

} // verus!
