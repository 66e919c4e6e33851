use serde_fields::{derive_serde_field, Catalog, Directive, FieldDecl, Schema};

fn record(name: &str, fields: &[&str]) -> Schema {
    let mut schema = Schema::new(name);
    for field in fields {
        schema = schema.field(FieldDecl::new(field));
    }
    schema
}

fn styled(name: &str, style: &str) -> Catalog {
    let schema = record(name, &["first_field", "second_field"])
        .with(Directive::valued("serde", "rename_all", style));
    derive_serde_field(&schema)
}

fn name_of(catalog: &Catalog, identifier: &str) -> String {
    let variant = catalog.variant(identifier).unwrap();
    catalog.name_of(variant).to_string()
}

fn renamed() -> Catalog {
    let schema = Schema::new("Renamed")
        .field(FieldDecl::new("a").with(Directive::valued("serde", "rename", "x")));
    derive_serde_field(&schema)
}

fn with_skip() -> Catalog {
    let schema = Schema::new("WithSkip")
        .field(FieldDecl::new("a"))
        .field(FieldDecl::new("skipped").with(Directive::flag("serde", "skip")));
    derive_serde_field(&schema)
}

#[test]
fn should_return_str_when_as_ref_is_used() {
    let catalog = derive_serde_field(&record("AsRefTest", &["my_field"]));
    let variant = catalog.variant("MyField").unwrap();
    let s: &str = catalog.name_of(variant);
    assert_eq!(s, "my_field");
}

#[test]
fn should_return_serde_name_when_as_str_called() {
    let catalog = derive_serde_field(&record("TestAsStr", &["foo_bar"]));
    assert_eq!(catalog.name_of(catalog.variant("FooBar").unwrap()), "foo_bar");
}

#[test]
fn should_generate_field_list_when_struct_is_basic() {
    let catalog = derive_serde_field(&record("Basic", &["a", "b"]));
    assert_eq!(catalog.serde_fields(), &["a", "b"]);
}

#[test]
fn should_generate_enum_variants_when_struct_is_basic() {
    let catalog = derive_serde_field(&record("Basic", &["a", "b"]));
    assert_eq!(catalog.name_of(catalog.variant("A").unwrap()), "a");
    assert_eq!(catalog.name_of(catalog.variant("B").unwrap()), "b");
}

#[test]
fn should_display_serde_field_name_when_display_is_called() {
    let catalog = derive_serde_field(&record("DisplayTest", &["val"]));
    let val = catalog.variant("Val").unwrap();
    assert_eq!(format!("{}", catalog.render(val)), "val");
}

#[test]
fn should_store_input_string_in_error_when_invalid_field_name_provided() {
    let catalog = derive_serde_field(&record("ErrorTest", &["x", "foo"]));
    let err = catalog.from_name("unknown").unwrap_err();
    assert_eq!(err.0, "unknown");
}

#[test]
fn should_foo() {
    let schema = record("Foo", &["bar", "baz_bat"])
        .with(Directive::valued("serde", "rename_all", "camelCase"));
    let catalog = derive_serde_field(&schema);
    let baz_bat = catalog.variant("BazBat").unwrap();
    assert_eq!("bazBat", catalog.name_of(baz_bat));
    assert_eq!("bazBat", catalog.render(baz_bat));
}

#[test]
fn should_parse_enum_when_using_from_str_for_valid_name() {
    let catalog = derive_serde_field(&record("FromStrTest", &["has_thing"]));
    let parsed = catalog.from_name("has_thing").unwrap();
    assert_eq!(parsed, catalog.variant("HasThing").unwrap());
}

#[test]
fn should_fail_parsing_when_using_from_str_for_invalid_name() {
    let catalog = derive_serde_field(&record("FromStrTest", &["has_thing"]));
    let parsed = catalog.from_name("nope");
    assert!(parsed.is_err());
}

#[test]
fn should_convert_enum_into_str_when_using_from_trait() {
    let catalog = derive_serde_field(&record("IntoStrTest", &["h"]));
    let s: &str = catalog.name_of(catalog.variant("H").unwrap());
    assert_eq!(s, "h");
}

#[test]
fn should_use_explicit_serde_rename_when_present() {
    assert_eq!(renamed().serde_fields(), &["x"]);
}

#[test]
fn should_generate_variant_with_renamed_value_when_field_is_renamed() {
    assert_eq!(name_of(&renamed(), "A"), "x");
}

#[test]
fn should_respect_rename_all_camel() {
    assert_eq!(name_of(&styled("Camel", "camelCase"), "FirstField"), "firstField");
}

#[test]
fn should_respect_rename_all_snake() {
    assert_eq!(name_of(&styled("Snake", "snake_case"), "FirstField"), "first_field");
}

#[test]
fn should_respect_rename_all_kebab() {
    assert_eq!(name_of(&styled("Kebab", "kebab-case"), "FirstField"), "first-field");
}

#[test]
fn should_respect_rename_all_scream_snake() {
    assert_eq!(
        name_of(&styled("ScreamSnake", "SCREAMING_SNAKE_CASE"), "FirstField"),
        "FIRST_FIELD"
    );
}

#[test]
fn should_respect_rename_all_scream_kebab() {
    assert_eq!(
        name_of(&styled("ScreamKebab", "SCREAMING-KEBAB-CASE"), "FirstField"),
        "FIRST-FIELD"
    );
}

#[test]
fn should_respect_rename_all_lower() {
    assert_eq!(name_of(&styled("Lower", "lowercase"), "FirstField"), "firstfield");
}

#[test]
fn should_respect_rename_all_upper() {
    assert_eq!(name_of(&styled("Upper", "UPPERCASE"), "FirstField"), "FIRSTFIELD");
}

#[test]
fn should_skip_field_when_serde_skip_is_present() {
    assert_eq!(with_skip().serde_fields(), &["a"]);
}

#[test]
fn should_not_generate_enum_variant_when_field_is_skipped() {
    let catalog = with_skip();
    assert_eq!(name_of(&catalog, "A"), "a");
    assert!(catalog.variant("Skipped").is_none());
}

#[test]
fn should_convert_from_str_when_value_is_valid() {
    let catalog = derive_serde_field(&record("TryFromTest", &["value"]));
    let result = catalog.from_name("value");
    assert_eq!(result.unwrap(), catalog.variant("Value").unwrap());
}

#[test]
fn should_return_error_when_try_from_receives_invalid_name() {
    let catalog = derive_serde_field(&record("TryFromTest", &["value"]));
    let result = catalog.from_name("invalid");
    assert!(result.is_err());
}
