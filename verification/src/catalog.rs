//! The output: a record's field catalog and the conversions over it.

use vstd::prelude::*;

use crate::text::same_text;

verus! {

/// One serialized field: the identifier of its variant and the name it is
/// serialized under.
#[derive(Clone, Debug, PartialEq, Eq)]
pub struct CatalogEntry {
    /// The variant's identifier.
    pub identifier: String,
    /// The field's serialized name.
    pub name: String,
}

/// The mathematical view of a [`CatalogEntry`].
pub struct EntryView {
    pub identifier: Seq<char>,
    pub name: Seq<char>,
}

impl View for CatalogEntry {
    type V = EntryView;

    open spec fn view(&self) -> EntryView {
        EntryView { identifier: self.identifier@, name: self.name@ }
    }
}

/// The views of a list of entries, in the same order.
pub open spec fn entry_views(entries: Seq<CatalogEntry>) -> Seq<EntryView> {
    entries.map_values(|e: CatalogEntry| e@)
}

/// The characters of each string of a list, in the same order.
pub open spec fn texts(strings: Seq<String>) -> Seq<Seq<char>> {
    strings.map_values(|s: String| s@)
}

/// A variant of a catalog: the handle of one of its entries. Variants are told
/// apart by the position of their entry, so two variants of one catalog are
/// equal exactly when they stand for the same entry.
#[derive(Clone, Copy, Debug, PartialEq, Eq, Structural)]
pub struct Variant {
    /// The position of the variant's entry in its catalog.
    pub position: usize,
}

/// The error of a failed lookup. It carries the string that was looked up.
#[derive(Clone, Debug, PartialEq, Eq)]
pub struct InvalidSerdeFieldName(pub String);

/// The catalog of a record: its serialized fields in declaration order.
#[derive(Clone, Debug, PartialEq, Eq)]
pub struct Catalog {
    enum_name: String,
    entries: Vec<CatalogEntry>,
}

/// The mathematical view of a [`Catalog`].
pub struct CatalogView {
    /// The name of the variant type.
    pub enum_name: Seq<char>,
    /// The entries, in order.
    pub entries: Seq<EntryView>,
}

impl View for Catalog {
    type V = CatalogView;

    closed spec fn view(&self) -> CatalogView {
        CatalogView { enum_name: self.enum_name@, entries: entry_views(self.entries@) }
    }
}

impl CatalogView {
    /// The serialized names, in entry order.
    pub open spec fn names(self) -> Seq<Seq<char>> {
        self.entries.map_values(|e: EntryView| e.name)
    }

    /// The variant identifiers, in entry order.
    pub open spec fn identifiers(self) -> Seq<Seq<char>> {
        self.entries.map_values(|e: EntryView| e.identifier)
    }

    /// `position` is the position of one of the catalog's variants.
    pub open spec fn has(self, position: int) -> bool {
        0 <= position < self.entries.len()
    }

    /// The position of the first entry serialized under `name`, if there is one.
    pub open spec fn position_of(self, name: Seq<char>) -> Option<int> {
        self.names().index_of_first(name)
    }

    /// The position of the first entry whose variant has `identifier`, if there
    /// is one.
    pub open spec fn position_named(self, identifier: Seq<char>) -> Option<int> {
        self.identifiers().index_of_first(identifier)
    }
}

/// The first position at which `needle` stands in `items` is `Some(i)` when
/// `needle` stands at `i` and nowhere before, and `None` when it stands nowhere.
pub proof fn lemma_first_position<A>(items: Seq<A>, needle: A, found: Option<int>)
    requires
        match found {
            Some(i) => 0 <= i < items.len() && items[i] == needle && forall|j: int|
                0 <= j < i ==> items[j] != needle,
            None => forall|j: int| 0 <= j < items.len() ==> items[j] != needle,
        },
    ensures
        items.index_of_first(needle) == found,
        found is None <==> !items.contains(needle),
{
    items.index_of_first_ensures(needle);
    match found {
        Some(i) => {
            assert(items.contains(needle));
        },
        None => {},
    }
}

impl InvalidSerdeFieldName {
    /// The error as a message: `invalid serde field name: ` and the string that
    /// was looked up.
    pub fn message(&self) -> (res: String)
        ensures
            res@ == "invalid serde field name: "@ + self.0@,
    {
        "invalid serde field name: ".to_owned().concat(self.0.as_str())
    }
}

impl Catalog {
    /// A catalog of the given entries, whose variant type has the given name.
    pub fn new(enum_name: String, entries: Vec<CatalogEntry>) -> (res: Catalog)
        ensures
            res@ == (CatalogView { enum_name: enum_name@, entries: entry_views(entries@) }),
    {
        Catalog { enum_name, entries }
    }

    /// The name of the variant type.
    pub fn enum_name(&self) -> (res: &str)
        ensures
            res@ == self@.enum_name,
    {
        self.enum_name.as_str()
    }

    /// The entries, in order.
    pub fn entries(&self) -> (res: &[CatalogEntry])
        ensures
            entry_views(res@) == self@.entries,
    {
        self.entries.as_slice()
    }

    /// The number of entries, which is the number of variants.
    pub fn len(&self) -> (res: usize)
        ensures
            res == self@.entries.len(),
    {
        self.entries.len()
    }

    /// The serialized names of all entries, in entry order.
    pub fn serde_fields(&self) -> (res: Vec<String>)
        ensures
            texts(res@) == self@.names(),
    {
        let mut names: Vec<String> = Vec::new();
        let mut i: usize = 0;
        while i < self.entries.len()
            invariant
                i <= self.entries.len(),
                names.len() == i,
                forall|j: int| 0 <= j < i ==> names[j]@ == self.entries[j].name@,
            decreases self.entries.len() - i,
        {
            names.push(self.entries[i].name.clone());
            i += 1;
        }
        assert(texts(names@) =~= self@.names());
        names
    }

    /// All variants, in entry order.
    pub fn variants(&self) -> (res: Vec<Variant>)
        ensures
            res.len() == self@.entries.len(),
            forall|i: int| 0 <= i < res.len() ==> res[i].position == i,
    {
        let mut variants: Vec<Variant> = Vec::new();
        let mut i: usize = 0;
        while i < self.entries.len()
            invariant
                i <= self.entries.len(),
                variants.len() == i,
                forall|j: int| 0 <= j < i ==> variants[j].position == j,
            decreases self.entries.len() - i,
        {
            variants.push(Variant { position: i });
            i += 1;
        }
        variants
    }

    /// The variant with the given identifier: the first, where several entries
    /// share it, and `None` where no entry has it.
    pub fn variant(&self, identifier: &str) -> (res: Option<Variant>)
        ensures
            match res {
                Some(variant) => self@.position_named(identifier@) == Some(variant.position as int),
                None => self@.position_named(identifier@) is None,
            },
            res is None <==> !self@.identifiers().contains(identifier@),
    {
        let ghost identifiers = self@.identifiers();
        let mut i: usize = 0;
        while i < self.entries.len()
            invariant
                i <= self.entries.len(),
                identifiers == self@.identifiers(),
                forall|j: int| 0 <= j < i ==> identifiers[j] != identifier@,
            decreases self.entries.len() - i,
        {
            if same_text(self.entries[i].identifier.as_str(), identifier) {
                proof {
                    lemma_first_position(identifiers, identifier@, Some(i as int));
                }
                return Some(Variant { position: i });
            }
            i += 1;
        }
        proof {
            lemma_first_position(identifiers, identifier@, None);
        }
        None
    }

    /// The identifier of a variant.
    pub fn identifier_of(&self, variant: Variant) -> (res: &str)
        requires
            self@.has(variant.position as int),
        ensures
            res@ == self@.entries[variant.position as int].identifier,
    {
        self.entries[variant.position].identifier.as_str()
    }

    /// The serialized name of a variant.
    pub fn name_of(&self, variant: Variant) -> (res: &str)
        requires
            self@.has(variant.position as int),
        ensures
            res@ == self@.entries[variant.position as int].name,
    {
        self.entries[variant.position].name.as_str()
    }

    /// A variant as text: its serialized name, never its identifier.
    pub fn render(&self, variant: Variant) -> (res: String)
        requires
            self@.has(variant.position as int),
        ensures
            res@ == self@.entries[variant.position as int].name,
    {
        self.name_of(variant).to_owned()
    }

    /// Looks a serialized name up.
    ///
    /// Succeeds exactly when `input` is, letter for letter, the serialized name
    /// of an entry, and then returns the variant of the first such entry.
    /// Otherwise the error carries `input` as it was given.
    pub fn from_name(&self, input: &str) -> (res: Result<Variant, InvalidSerdeFieldName>)
        ensures
            match res {
                Ok(variant) => self@.position_of(input@) == Some(variant.position as int),
                Err(error) => self@.position_of(input@) is None && error.0@ == input@,
            },
            res is Err <==> !self@.names().contains(input@),
    {
        let ghost names = self@.names();
        let mut i: usize = 0;
        while i < self.entries.len()
            invariant
                i <= self.entries.len(),
                names == self@.names(),
                forall|j: int| 0 <= j < i ==> names[j] != input@,
            decreases self.entries.len() - i,
        {
            if same_text(self.entries[i].name.as_str(), input) {
                proof {
                    lemma_first_position(names, input@, Some(i as int));
                }
                return Ok(Variant { position: i });
            }
            i += 1;
        }
        proof {
            lemma_first_position(names, input@, None);
        }
        Err(InvalidSerdeFieldName(input.to_owned()))
    }
}

} // verus!
