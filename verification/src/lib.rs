//! Field catalogs for serde records.
//!
//! A [`Schema`] describes a record: its name, its `#[serde(..)]` directives and
//! its fields in declaration order. [`derive_serde_field`] resolves it into a
//! [`Catalog`]: one entry per serialized field, holding the identifier of the
//! field's variant and the name the field has on the wire. The catalog then
//! answers the two questions callers have: which name belongs to a variant
//! ([`Catalog::name_of`]) and which variant belongs to a name
//! ([`Catalog::from_name`]).
//!
//! Every executable function carries a contract over the mathematical views of
//! these types, and the module `laws` proves what holds of their composition.

pub mod catalog;
pub mod derive;
pub mod directive;
pub mod laws;
pub mod schema;
pub mod seq_facts;
pub mod style;
pub mod text;

pub use catalog::{Catalog, CatalogEntry, InvalidSerdeFieldName, Variant};
pub use derive::{collect, derive_serde_field};
pub use directive::{parse_field_serde_name_and_skip, parse_serde_rename_all, Directive};
pub use schema::{check_shape, FieldDecl, RecordShape, Schema, UnsupportedShape};
pub use style::{convert, NamingStyle, TargetCase};
