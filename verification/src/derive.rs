//! The collector: from a record to its catalog.

use vstd::prelude::*;

use crate::catalog::{entry_views, Catalog, CatalogEntry, CatalogView, EntryView};
use crate::directive::{parse_field_serde_name_and_skip, resolved_name};
use crate::schema::{field_views, FieldDecl, FieldDeclView, Schema, SchemaView};
use crate::seq_facts::{lemma_filter_none, lemma_filter_step};
use crate::style::{convert, converted, NamingStyle};

verus! {

/// The entry of a field in a record of the given style.
///
/// The identifier is the field's identifier in Pascal case, whatever the
/// record's style is. The name is the one the field's directives give it, and
/// the field's identifier in the record's style where they give none.
pub open spec fn entry_of(field: FieldDeclView, style: NamingStyle) -> EntryView {
    EntryView {
        identifier: converted(field.ident, NamingStyle::Pascal),
        name: resolved_name(field.directives, converted(field.ident, style)),
    }
}

/// The fields that are serialized: those without the exclusion flag, in
/// declaration order.
pub open spec fn retained(fields: Seq<FieldDeclView>) -> Seq<FieldDeclView> {
    fields.filter(|f: FieldDeclView| !f.excluded())
}

/// The positions of the fields that are serialized, in ascending order.
pub open spec fn kept_positions(fields: Seq<FieldDeclView>) -> Seq<int> {
    Seq::new(fields.len(), |i: int| i).filter(|i: int| !fields[i].excluded())
}

/// The number of fields that carry the exclusion flag.
pub open spec fn excluded_count(fields: Seq<FieldDeclView>) -> nat {
    fields.filter(|f: FieldDeclView| f.excluded()).len()
}

/// The entries of a list of fields: one for each retained field, in
/// declaration order.
pub open spec fn collected(fields: Seq<FieldDeclView>, style: NamingStyle) -> Seq<EntryView> {
    retained(fields).map_values(|f: FieldDeclView| entry_of(f, style))
}

/// The catalog of a record. Its variant type is named after the record, with
/// `SerdeField` behind the record's name.
pub open spec fn catalog_of(schema: SchemaView) -> CatalogView {
    CatalogView {
        enum_name: schema.name + "SerdeField"@,
        entries: collected(schema.fields, schema.style()),
    }
}

/// Resolves the fields of a record of the given style into catalog entries.
///
/// Walks the fields in declaration order. An excluded field yields nothing;
/// every other field yields one entry, so the entries stand in declaration
/// order with the excluded fields left out.
pub fn collect(fields: &[FieldDecl], style: NamingStyle) -> (res: Vec<CatalogEntry>)
    ensures
        entry_views(res@) == collected(field_views(fields@), style),
{
    let ghost all = field_views(fields@);
    let ghost keep = |f: FieldDeclView| !f.excluded();
    let mut entries: Vec<CatalogEntry> = Vec::new();
    let mut i: usize = 0;
    proof {
        lemma_filter_none(all.take(0), keep);
        assert(entry_views(entries@) =~= collected(all.take(0), style));
    }
    while i < fields.len()
        invariant
            i <= fields.len(),
            all == field_views(fields@),
            keep == |f: FieldDeclView| !f.excluded(),
            entry_views(entries@) == collected(all.take(i as int), style),
        decreases fields.len() - i,
    {
        let field = &fields[i];
        let default_name = convert(field.ident.as_str(), style);
        let (name, skip) = parse_field_serde_name_and_skip(
            field.directives.as_slice(),
            default_name.as_str(),
        );
        proof {
            lemma_filter_step(all, keep, i as int);
        }
        if !skip {
            let identifier = convert(field.ident.as_str(), NamingStyle::Pascal);
            let ghost before = entry_views(entries@);
            entries.push(CatalogEntry { identifier, name });
            assert(entry_views(entries@) =~= before.push(entry_of(all[i as int], style)));
            assert(collected(all.take(i + 1), style) =~= collected(all.take(i as int), style).push(
                entry_of(all[i as int], style),
            ));
        }
        i += 1;
    }
    assert(all.take(i as int) =~= all);
    entries
}

/// Derives the catalog of a record.
///
/// Reads the record's naming style from its directives, resolves its fields
/// under that style and names the variant type after the record.
pub fn derive_serde_field(schema: &Schema) -> (res: Catalog)
    ensures
        res@ == catalog_of(schema@),
{
    let enum_name = schema.name.clone().concat("SerdeField");
    let style = schema.style();
    let entries = collect(schema.fields.as_slice(), style);
    Catalog::new(enum_name, entries)
}

} // verus!
