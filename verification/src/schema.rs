//! The input: a record, its directives and its fields.

use vstd::prelude::*;

use crate::directive::{
    parse_serde_rename_all, rename_all_of, rename_of, skipped, views, Directive, DirectiveView,
};
use crate::style::{style_named, NamingStyle};

verus! {

/// One declared field of a record.
#[derive(Clone, Debug, PartialEq, Eq)]
pub struct FieldDecl {
    /// The field's identifier, as written in the record.
    pub ident: String,
    /// The field's directives, in the order they were written.
    pub directives: Vec<Directive>,
}

/// The mathematical view of a [`FieldDecl`].
pub struct FieldDeclView {
    pub ident: Seq<char>,
    pub directives: Seq<DirectiveView>,
}

impl View for FieldDecl {
    type V = FieldDeclView;

    open spec fn view(&self) -> FieldDeclView {
        FieldDeclView { ident: self.ident@, directives: views(self.directives@) }
    }
}

/// The views of a list of fields, in the same order.
pub open spec fn field_views(fields: Seq<FieldDecl>) -> Seq<FieldDeclView> {
    fields.map_values(|f: FieldDecl| f@)
}

impl FieldDeclView {
    /// The field carries the exclusion flag.
    pub open spec fn excluded(self) -> bool {
        skipped(self.directives)
    }

    /// The name that the field's directives give it, if they give one.
    pub open spec fn rename(self) -> Option<Seq<char>> {
        rename_of(self.directives)
    }
}

/// A record declaration.
#[derive(Clone, Debug, PartialEq, Eq)]
pub struct Schema {
    /// The record's name.
    pub name: String,
    /// The record's own directives, in the order they were written.
    pub directives: Vec<Directive>,
    /// The record's fields, in declaration order.
    pub fields: Vec<FieldDecl>,
}

/// The mathematical view of a [`Schema`].
pub struct SchemaView {
    pub name: Seq<char>,
    pub directives: Seq<DirectiveView>,
    pub fields: Seq<FieldDeclView>,
}

impl View for Schema {
    type V = SchemaView;

    open spec fn view(&self) -> SchemaView {
        SchemaView {
            name: self.name@,
            directives: views(self.directives@),
            fields: field_views(self.fields@),
        }
    }
}

impl SchemaView {
    /// The record's naming style: the style that its first `rename_all`
    /// directive names, and no style where it has no such directive or the
    /// directive names none.
    pub open spec fn style(self) -> NamingStyle {
        match rename_all_of(self.directives) {
            Some(value) => style_named(value),
            None => NamingStyle::Unchanged,
        }
    }
}

/// The shape of a declaration, as far as deriving a catalog depends on it.
#[derive(Clone, Copy, Debug, PartialEq, Eq, Structural)]
pub enum RecordShape {
    /// A struct whose fields have names: the one shape that has a catalog.
    NamedFields,
    /// A struct without named fields: a tuple struct or a unit struct.
    UnnamedFields,
    /// Anything but a struct.
    NotAStruct,
}

/// Why a declaration has no catalog.
#[derive(Clone, Copy, Debug, PartialEq, Eq, Structural)]
pub enum UnsupportedShape {
    /// The declaration is a struct, but its fields have no names.
    FieldsNotNamed,
    /// The declaration is not a struct.
    NotAStruct,
}

/// Whether a shape has a catalog, and why not where it has none.
pub open spec fn shape_verdict(shape: RecordShape) -> Result<(), UnsupportedShape> {
    match shape {
        RecordShape::NamedFields => Ok(()),
        RecordShape::UnnamedFields => Err(UnsupportedShape::FieldsNotNamed),
        RecordShape::NotAStruct => Err(UnsupportedShape::NotAStruct),
    }
}

/// Decides whether a catalog can be derived from a declaration of the given
/// shape. Only a struct with named fields is a record; for every other shape
/// the derivation must stop before anything is produced.
pub fn check_shape(shape: RecordShape) -> (res: Result<(), UnsupportedShape>)
    ensures
        res == shape_verdict(shape),
        res is Ok <==> shape == RecordShape::NamedFields,
{
    match shape {
        RecordShape::NamedFields => Ok(()),
        RecordShape::UnnamedFields => Err(UnsupportedShape::FieldsNotNamed),
        RecordShape::NotAStruct => Err(UnsupportedShape::NotAStruct),
    }
}

impl UnsupportedShape {
    /// The message that the derivation stops with.
    pub open spec fn message_text(self) -> Seq<char> {
        match self {
            UnsupportedShape::FieldsNotNamed => "SerdeField only supports structs with named fields"@,
            UnsupportedShape::NotAStruct => "SerdeField only supports structs"@,
        }
    }

    /// The message that the derivation stops with.
    pub fn message(&self) -> (res: String)
        ensures
            res@ == self.message_text(),
    {
        match self {
            UnsupportedShape::FieldsNotNamed => {
                "SerdeField only supports structs with named fields".to_owned()
            },
            UnsupportedShape::NotAStruct => "SerdeField only supports structs".to_owned(),
        }
    }
}

impl FieldDecl {
    /// A field without directives.
    pub fn new(ident: &str) -> (res: FieldDecl)
        ensures
            res@ == (FieldDeclView { ident: ident@, directives: Seq::empty() }),
    {
        let res = FieldDecl { ident: ident.to_owned(), directives: Vec::new() };
        assert(res@.directives =~= Seq::empty());
        res
    }

    /// The field with one directive more, after those it has.
    pub fn with(self, directive: Directive) -> (res: FieldDecl)
        ensures
            res@ == (FieldDeclView {
                ident: self@.ident,
                directives: self@.directives.push(directive@),
            }),
    {
        let mut directives = self.directives;
        directives.push(directive);
        let res = FieldDecl { ident: self.ident, directives };
        assert(res@.directives =~= self@.directives.push(directive@));
        res
    }
}

impl Schema {
    /// A record without directives and without fields.
    pub fn new(name: &str) -> (res: Schema)
        ensures
            res@ == (SchemaView {
                name: name@,
                directives: Seq::empty(),
                fields: Seq::empty(),
            }),
    {
        let res = Schema { name: name.to_owned(), directives: Vec::new(), fields: Vec::new() };
        assert(res@.directives =~= Seq::empty());
        assert(res@.fields =~= Seq::empty());
        res
    }

    /// The record with one directive more, after those it has.
    pub fn with(self, directive: Directive) -> (res: Schema)
        ensures
            res@ == (SchemaView { directives: self@.directives.push(directive@), ..self@ }),
    {
        let mut directives = self.directives;
        directives.push(directive);
        let res = Schema { name: self.name, directives, fields: self.fields };
        assert(res@.directives =~= self@.directives.push(directive@));
        res
    }

    /// The record with one field more, after those it has.
    pub fn field(self, field: FieldDecl) -> (res: Schema)
        ensures
            res@ == (SchemaView { fields: self@.fields.push(field@), ..self@ }),
    {
        let mut fields = self.fields;
        fields.push(field);
        let res = Schema { name: self.name, directives: self.directives, fields };
        assert(res@.fields =~= self@.fields.push(field@));
        res
    }

    /// Reads the record's naming style from its directives.
    pub fn style(&self) -> (res: NamingStyle)
        ensures
            res == self@.style(),
    {
        match parse_serde_rename_all(self.directives.as_slice()) {
            Some(value) => NamingStyle::named(value.as_str()),
            None => NamingStyle::Unchanged,
        }
    }
}

} // verus!
