//! What holds of every record and every catalog.
//!
//! The contracts of the executable functions say what each call returns.
//! The lemmas here say what follows for their composition: how long a catalog
//! is and in which order its entries stand, that a lookup undoes a rendering,
//! that an explicit name wins over every style, that an excluded field is out
//! of reach, and that a variant's identifier does not depend on the style.

use vstd::prelude::*;

use crate::catalog::{CatalogView, EntryView};
use crate::derive::{
    catalog_of, collected, entry_of, excluded_count, kept_positions, retained,
};
use crate::schema::{FieldDeclView, SchemaView};
use crate::seq_facts::{lemma_filter_none, lemma_filter_partition};
use crate::style::{converted, NamingStyle};

verus! {

/// The first `m` fields: their kept positions and their retained fields run in
/// step, the positions ascend, and they are exactly the positions of the
/// fields without the exclusion flag.
proof fn lemma_kept_prefix(fields: Seq<FieldDeclView>, m: int)
    requires
        0 <= m <= fields.len(),
    ensures
        ({
            let kept = Seq::new(m as nat, |i: int| i).filter(|i: int| !fields[i].excluded());
            let kept_fields = retained(fields.take(m));
            &&& kept.len() == kept_fields.len()
            &&& forall|k: int|
                0 <= k < kept.len() ==> 0 <= #[trigger] kept[k] < m && !fields[kept[k]].excluded()
                    && kept_fields[k] == fields[kept[k]]
            &&& forall|k: int, l: int| 0 <= k < l < kept.len() ==> kept[k] < kept[l]
            &&& forall|i: int| 0 <= i < m && !fields[i].excluded() ==> kept.contains(i)
        }),
    decreases m,
{
    let keep_at = |i: int| !fields[i].excluded();
    let keep = |f: FieldDeclView| !f.excluded();
    let kept = Seq::new(m as nat, |i: int| i).filter(keep_at);
    let kept_fields = fields.take(m).filter(keep);
    if m == 0 {
        lemma_filter_none(Seq::new(0nat, |i: int| i), keep_at);
        lemma_filter_none(fields.take(0), keep);
    } else {
        lemma_kept_prefix(fields, m - 1);
        let shorter = Seq::new((m - 1) as nat, |i: int| i);
        let kept_before = shorter.filter(keep_at);
        let fields_before = fields.take(m - 1).filter(keep);
        assert(Seq::new(m as nat, |i: int| i) =~= shorter.push(m - 1));
        shorter.lemma_filter_push(m - 1, keep_at);
        assert(fields.take(m) =~= fields.take(m - 1).push(fields[m - 1]));
        fields.take(m - 1).lemma_filter_push(fields[m - 1], keep);
        if fields[m - 1].excluded() {
            assert(kept == kept_before);
            assert(kept_fields == fields_before);
            assert forall|i: int| 0 <= i < m && !fields[i].excluded() implies kept.contains(i) by {
                assert(kept_before.contains(i));
            }
        } else {
            assert(kept == kept_before.push(m - 1));
            assert(kept_fields == fields_before.push(fields[m - 1]));
            assert forall|i: int| 0 <= i < m && !fields[i].excluded() implies kept.contains(i) by {
                if i < m - 1 {
                    assert(kept_before.contains(i));
                    let k = choose|k: int| 0 <= k < kept_before.len() && kept_before[k] == i;
                    assert(kept[k] == i);
                } else {
                    assert(kept[kept.len() - 1] == i);
                }
            }
        }
    }
}

/// A catalog has one entry for each field of the record that does not carry
/// the exclusion flag: its length is the number of fields less the number of
/// excluded fields.
pub proof fn lemma_catalog_length(schema: SchemaView)
    ensures
        catalog_of(schema).entries.len() == schema.fields.len() - excluded_count(schema.fields),
        catalog_of(schema).entries.len() <= schema.fields.len(),
{
    lemma_filter_partition(
        schema.fields,
        |f: FieldDeclView| !f.excluded(),
        |f: FieldDeclView| f.excluded(),
    );
}

/// The entries of a catalog stand in declaration order with the excluded
/// fields left out: the entry at `k` is the entry of the field at the `k`-th
/// kept position, the kept positions ascend, no kept position is that of an
/// excluded field, and every other field's position is kept.
pub proof fn lemma_catalog_order(schema: SchemaView)
    ensures
        ({
            let fields = schema.fields;
            let kept = kept_positions(fields);
            let entries = catalog_of(schema).entries;
            &&& kept.len() == entries.len()
            &&& forall|k: int|
                0 <= k < kept.len() ==> 0 <= #[trigger] kept[k] < fields.len()
                    && !fields[kept[k]].excluded() && entries[k] == entry_of(
                    fields[kept[k]],
                    schema.style(),
                )
            &&& forall|k: int, l: int| 0 <= k < l < kept.len() ==> kept[k] < kept[l]
            &&& forall|i: int| 0 <= i < fields.len() && !fields[i].excluded() ==> kept.contains(i)
        }),
{
    let fields = schema.fields;
    lemma_kept_prefix(fields, fields.len() as int);
    assert(fields.take(fields.len() as int) =~= fields);
}

/// Looking up the serialized name of an entry gives the entry back, unless an
/// earlier entry is serialized under the same name: a lookup finds the first
/// entry of a name.
pub proof fn lemma_round_trip(catalog: CatalogView, position: int)
    requires
        catalog.has(position),
        forall|j: int|
            0 <= j < position ==> catalog.entries[j].name != catalog.entries[position].name,
    ensures
        catalog.position_of(catalog.entries[position].name) == Some(position),
{
    let names = catalog.names();
    let name = catalog.entries[position].name;
    names.index_of_first_ensures(name);
    assert(names[position] == name);
    assert(names.contains(name));
}

/// A lookup that succeeds is undone by the name of what it found: the entry at
/// the position that `name` is found at is serialized under `name`.
pub proof fn lemma_lookup_names(catalog: CatalogView, name: Seq<char>)
    ensures
        match catalog.position_of(name) {
            Some(position) => catalog.has(position) && catalog.entries[position].name == name,
            None => forall|i: int| 0 <= i < catalog.entries.len() ==> catalog.entries[i].name != name,
        },
{
    let names = catalog.names();
    names.index_of_first_ensures(name);
    if catalog.position_of(name) is None {
        assert forall|i: int| 0 <= i < catalog.entries.len() implies catalog.entries[i].name
            != name by {
            if catalog.entries[i].name == name {
                assert(names[i] == name);
                assert(names.contains(name));
            }
        }
    }
}

/// An explicit name wins over the style: a field that its directives rename is
/// serialized under that name in a record of any style.
pub proof fn lemma_rename_wins(field: FieldDeclView, style: NamingStyle)
    requires
        field.rename() is Some,
    ensures
        entry_of(field, style).name == field.rename().unwrap(),
{
}

/// Without an explicit name a field is serialized under its identifier in the
/// record's style.
pub proof fn lemma_default_name(field: FieldDeclView, style: NamingStyle)
    requires
        field.rename() is None,
    ensures
        entry_of(field, style).name == converted(field.ident, style),
{
}

/// An excluded field is out of reach: its position is not kept, so no entry of
/// the catalog stands for it, and whatever a lookup finds stands for another
/// field.
pub proof fn lemma_excluded_absent(schema: SchemaView, i: int, input: Seq<char>)
    requires
        0 <= i < schema.fields.len(),
        schema.fields[i].excluded(),
    ensures
        !kept_positions(schema.fields).contains(i),
        match catalog_of(schema).position_of(input) {
            Some(k) => 0 <= k < kept_positions(schema.fields).len() && kept_positions(
                schema.fields,
            )[k] != i,
            None => true,
        },
{
    lemma_catalog_order(schema);
    lemma_lookup_names(catalog_of(schema), input);
    let kept = kept_positions(schema.fields);
    if kept.contains(i) {
        let k = choose|k: int| 0 <= k < kept.len() && kept[k] == i;
        assert(!schema.fields[kept[k]].excluded());
    }
}

/// A variant's identifier is its field's identifier in Pascal case, whatever
/// style the record has: records that differ in their style alone have
/// catalogs of one length with the same identifiers at every position.
pub proof fn lemma_identifier_independent(
    fields: Seq<FieldDeclView>,
    style: NamingStyle,
    other: NamingStyle,
)
    ensures
        collected(fields, style).len() == collected(fields, other).len(),
        forall|k: int|
            0 <= k < collected(fields, style).len() ==> (#[trigger] collected(
                fields,
                style,
            )[k]).identifier == collected(fields, other)[k].identifier,
        forall|k: int|
            0 <= k < collected(fields, style).len() ==> (#[trigger] collected(
                fields,
                style,
            )[k]).identifier == converted(retained(fields)[k].ident, NamingStyle::Pascal),
{
}

} // verus!
