use msi_schema::category::{resolve_category, storage_width, ColumnWidth};
use msi_schema::dao::{generate_dao_tokens, values_equal};
use msi_schema::identifier::generate_identifier_tokens;
use msi_schema::naming::{
    capitalize, dao_from_name, identifier_from_name, identifier_generator_from_name,
    snake_case_to_pascal_case, table_from_name,
};
use msi_schema::schema::{
    find_primary_identifier, primary_key_indices, CompileError, EntityDescriptor, FieldDescriptor,
    IdentifierOptions, SchemaInput,
};
use msi_schema::table::{generate_column, generate_finish_build_for_field, generate_table_tokens};
use msi_schema::tables::{gen_tables_for_enum, gen_tables_for_fields, gen_tables_impl};

fn field(name: &str, value_type: &str, category: &str, length: Option<usize>) -> FieldDescriptor {
    FieldDescriptor {
        name: name.to_string(),
        value_type: value_type.to_string(),
        optional: false,
        category: category.to_string(),
        length,
        column_name: None,
        primary_key: false,
        identifier_options: None,
        localizable: false,
    }
}

fn identifier(generated: bool, foreign_key: Option<&str>) -> Option<IdentifierOptions> {
    Some(IdentifierOptions { generated, foreign_key: foreign_key.map(|s| s.to_string()) })
}

fn directory_fields() -> Vec<FieldDescriptor> {
    let mut directory = field("directory", "DirectoryIdentifier", "Identifier", Some(72));
    directory.primary_key = true;
    directory.identifier_options = identifier(true, None);
    let mut parent = field("parent_directory", "Option<DirectoryIdentifier>", "Identifier", Some(72));
    parent.optional = true;
    parent.identifier_options = identifier(false, Some("Directory"));
    parent.column_name = Some("Directory_Parent".to_string());
    let mut default_dir = field("default_dir", "DefaultDir", "DefaultDir", Some(255));
    default_dir.localizable = true;
    vec![directory, parent, default_dir]
}

fn feature_component_fields() -> Vec<FieldDescriptor> {
    let mut feature = field("feature_", "FeatureIdentifier", "Identifier", Some(72));
    feature.primary_key = true;
    feature.identifier_options = identifier(false, Some("Feature"));
    let mut component = field("component_", "ComponentIdentifier", "Identifier", Some(72));
    component.primary_key = true;
    component.identifier_options = identifier(false, Some("Component"));
    vec![feature, component]
}

fn text(s: &str) -> msi::Value {
    msi::Value::Str(s.to_string())
}

#[test]
fn test_msi_table_with_generated_identifier() {
    let entity = gen_tables_for_fields("Directory", &directory_fields()).unwrap();
    assert_eq!(entity.name, "Directory");

    let identifier = entity.identifier.as_ref().unwrap();
    assert_eq!(identifier.type_ident, "DirectoryIdentifier");
    assert_eq!(identifier.table_ident, "DirectoryTable");
    let generator = identifier.generator.as_ref().unwrap();
    assert_eq!(generator.type_ident, "DirectoryIdentifierGenerator");
    assert_eq!(generator.id_prefix, "DIRECTORY");

    let dao = &entity.dao;
    assert_eq!(dao.type_ident, "DirectoryDao");
    let names: Vec<&str> = dao.fields.iter().map(|f| f.name.as_str()).collect();
    assert_eq!(names, vec!["directory", "parent_directory", "default_dir"]);
    assert_eq!(dao.fields[1].value_type, "Option<DirectoryIdentifier>");
    assert_eq!(dao.primary_identifier.as_deref(), Some("directory"));
    assert_eq!(dao.conflict_fields, vec![0usize]);
    assert_eq!(dao.row_fields, vec!["directory", "parent_directory", "default_dir"]);

    let table = &entity.table;
    assert_eq!(table.type_ident, "DirectoryTable");
    assert_eq!(table.name, "Directory");
    assert_eq!(table.dao_type, "DirectoryDao");
    assert_eq!(table.generator_type.as_deref(), Some("DirectoryIdentifierGenerator"));
    assert_eq!(table.primary_key_indices, vec![0usize]);
    assert_eq!(table.columns.len(), 3);

    let c = &table.columns[0];
    assert_eq!(c.name, "Directory");
    assert!(c.primary_key && !c.nullable && !c.localizable && c.foreign_key.is_none());
    assert_eq!(c.category, msi::Category::Identifier);
    assert_eq!(c.width, ColumnWidth::Text(72));

    let c = &table.columns[1];
    assert_eq!(c.name, "Directory_Parent");
    assert!(!c.primary_key && c.nullable && !c.localizable);
    let fk = c.foreign_key.as_ref().unwrap();
    assert_eq!((fk.table.as_str(), fk.column), ("Directory", 0));
    assert_eq!(c.category, msi::Category::Identifier);
    assert_eq!(c.width, ColumnWidth::Text(72));

    let c = &table.columns[2];
    assert_eq!(c.name, "DefaultDir");
    assert!(!c.primary_key && !c.nullable && c.localizable && c.foreign_key.is_none());
    assert_eq!(c.category, msi::Category::DefaultDir);
    assert_eq!(c.width, ColumnWidth::Text(255));
}

#[test]
fn test_msi_table_without_generated_identifier() {
    let entity = gen_tables_for_fields("FeatureComponent", &feature_component_fields()).unwrap();
    assert!(entity.identifier.is_none());
    assert_eq!(entity.dao.type_ident, "FeatureComponentDao");
    assert_eq!(entity.dao.primary_identifier, None);
    assert_eq!(entity.dao.conflict_fields, vec![0usize, 1usize]);
    assert_eq!(entity.table.type_ident, "FeatureComponentTable");
    assert_eq!(entity.table.name, "FeatureComponent");
    assert_eq!(entity.table.generator_type, None);
    assert_eq!(entity.table.primary_key_indices, vec![0usize, 1usize]);

    let c = &entity.table.columns[0];
    assert_eq!(c.name, "Feature_");
    assert!(c.primary_key && !c.nullable);
    let fk = c.foreign_key.as_ref().unwrap();
    assert_eq!((fk.table.as_str(), fk.column), ("Feature", 0));
    assert_eq!(c.width, ColumnWidth::Text(72));

    let c = &entity.table.columns[1];
    assert_eq!(c.name, "Component_");
    assert!(c.primary_key && !c.nullable);
    let fk = c.foreign_key.as_ref().unwrap();
    assert_eq!((fk.table.as_str(), fk.column), ("Component", 0));
    assert_eq!(c.width, ColumnWidth::Text(72));

    // The conflict predicate is the conjunction of both key equalities.
    let dao = &entity.dao;
    let a = vec![text("F1"), text("C1")];
    assert!(dao.conflicts_with(&a, &vec![text("F1"), text("C1")]));
    assert!(!dao.conflicts_with(&a, &vec![text("F1"), text("C2")]));
    assert!(!dao.conflicts_with(&a, &vec![text("F2"), text("C1")]));
}

#[test]
fn test_msi_tables_enum() {
    let variants = vec![
        EntityDescriptor { name: "Directory".to_string(), fields: directory_fields() },
        EntityDescriptor { name: "FeatureComponent".to_string(), fields: feature_component_fields() },
    ];
    let schema = gen_tables_impl(&SchemaInput::Variants { name: "MsiTables".to_string(), variants })
        .unwrap();
    let union = schema.union.as_ref().unwrap();
    assert_eq!(union.type_ident, "MsiTables");
    assert_eq!(union.dao_type, "MsiTablesDao");
    assert_eq!(union.cases.len(), 2);
    assert_eq!(union.cases[0].variant, "Directory");
    assert_eq!(union.cases[0].table_type, "DirectoryTable");
    assert_eq!(union.cases[0].dao_type, "DirectoryDao");
    assert_eq!(union.cases[1].variant, "FeatureComponent");
    assert_eq!(union.cases[1].table_type, "FeatureComponentTable");
    assert_eq!(union.cases[1].dao_type, "FeatureComponentDao");

    assert_eq!(schema.entities.len(), 2);
    let directory = &schema.entities[0];
    assert_eq!(directory.table.type_ident, "DirectoryTable");
    assert_eq!(directory.table.columns.len(), 3);
    assert_eq!(directory.table.primary_key_indices, vec![0usize]);
    assert!(directory.identifier.as_ref().unwrap().generator.is_some());
    let feature_component = &schema.entities[1];
    assert_eq!(feature_component.table.type_ident, "FeatureComponentTable");
    assert_eq!(feature_component.table.columns.len(), 2);
    assert_eq!(feature_component.table.primary_key_indices, vec![0usize, 1usize]);
    assert!(feature_component.identifier.is_none());
}

#[test]
fn variant_group_matches_each_entity_compiled_alone() {
    let variants = vec![
        EntityDescriptor { name: "Directory".to_string(), fields: directory_fields() },
        EntityDescriptor { name: "FeatureComponent".to_string(), fields: feature_component_fields() },
    ];
    let schema = gen_tables_for_enum("MsiTables", &variants).unwrap();
    let alone_a = gen_tables_for_fields("Directory", &directory_fields()).unwrap();
    let alone_b = gen_tables_for_fields("FeatureComponent", &feature_component_fields()).unwrap();
    assert_eq!(format!("{:?}", schema.entities[0]), format!("{:?}", alone_a));
    assert_eq!(format!("{:?}", schema.entities[1]), format!("{:?}", alone_b));
}

#[test]
fn variant_group_case_refers_to_capitalized_table() {
    let variants = vec![EntityDescriptor { name: "shortcut".to_string(), fields: feature_component_fields() }];
    let schema = gen_tables_for_enum("Tables", &variants).unwrap();
    let union = schema.union.unwrap();
    assert_eq!(union.cases[0].variant, "shortcut");
    assert_eq!(union.cases[0].table_type, "ShortcutTable");
    assert_eq!(schema.entities[0].table.type_ident, "ShortcutTable");
}

#[test]
fn variant_group_fails_on_first_invalid_variant() {
    let mut bad = directory_fields();
    bad[2].category = "Nonsense".to_string();
    let mut worse = feature_component_fields();
    worse[0].length = None;
    let variants = vec![
        EntityDescriptor { name: "FeatureComponent".to_string(), fields: feature_component_fields() },
        EntityDescriptor { name: "Directory".to_string(), fields: bad },
        EntityDescriptor { name: "Other".to_string(), fields: worse },
    ];
    let r = gen_tables_for_enum("MsiTables", &variants);
    assert_eq!(r.err(), Some(CompileError::InvalidCategory { field: 2 }));
}

#[test]
fn single_entity_schema_has_no_union() {
    let entity = EntityDescriptor { name: "directory".to_string(), fields: directory_fields() };
    let schema = gen_tables_impl(&SchemaInput::Entity(entity)).unwrap();
    assert!(schema.union.is_none());
    assert_eq!(schema.entities.len(), 1);
    assert_eq!(schema.entities[0].name, "Directory");
    assert_eq!(schema.entities[0].table.name, "Directory");
    assert_eq!(schema.entities[0].dao.type_ident, "DirectoryDao");
}

#[test]
fn entity_without_primary_key_always_conflicts() {
    let fields = vec![
        field("property", "String", "Identifier", Some(72)),
        field("value", "String", "Text", Some(0)),
    ];
    let entity = gen_tables_for_fields("Property", &fields).unwrap();
    assert!(entity.identifier.is_none());
    assert_eq!(entity.dao.primary_identifier, None);
    assert!(entity.dao.conflict_fields.is_empty());
    assert!(entity.table.primary_key_indices.is_empty());
    let a = vec![text("A"), text("1")];
    let b = vec![text("B"), msi::Value::Null];
    assert!(entity.dao.conflicts_with(&a, &b));
    assert!(entity.dao.conflicts_with(&b, &a));
}

#[test]
fn compiling_twice_gives_identical_artifacts() {
    let first = gen_tables_for_fields("Directory", &directory_fields());
    let second = gen_tables_for_fields("Directory", &directory_fields());
    assert_eq!(format!("{:?}", first), format!("{:?}", second));
}

#[test]
fn primary_key_indices_follow_declaration_order() {
    let mut fields = vec![
        field("a", "String", "Text", Some(1)),
        field("b", "i16", "Integer", None),
        field("c", "String", "Text", Some(1)),
        field("d", "i32", "DoubleInteger", None),
    ];
    fields[1].primary_key = true;
    fields[3].primary_key = true;
    assert_eq!(primary_key_indices(&fields), vec![1usize, 3usize]);
    let table = generate_table_tokens("Thing", None, &fields).unwrap();
    assert_eq!(table.primary_key_indices, vec![1usize, 3usize]);
    assert!(table.columns[1].primary_key && table.columns[3].primary_key);
    assert!(!table.columns[0].primary_key && !table.columns[2].primary_key);
}

#[test]
fn two_primary_identifiers_are_ambiguous() {
    let mut fields = directory_fields();
    fields[2].primary_key = true;
    fields[2].identifier_options = identifier(false, None);
    assert_eq!(find_primary_identifier(&fields), Err(CompileError::AmbiguousPrimaryIdentifier));
    let r = gen_tables_for_fields("Directory", &fields);
    assert_eq!(r.err(), Some(CompileError::AmbiguousPrimaryIdentifier));
}

#[test]
fn foreign_key_fields_are_not_primary_identifiers() {
    assert_eq!(find_primary_identifier(&feature_component_fields()), Ok(None));
    assert_eq!(find_primary_identifier(&directory_fields()), Ok(Some(0)));
}

#[test]
fn nullable_follows_optional_type() {
    let mut fields = vec![field("a", "String", "Text", Some(5)), field("b", "Option<String>", "Text", Some(5))];
    fields[1].optional = true;
    let table = generate_table_tokens("Thing", None, &fields).unwrap();
    assert!(!table.columns[0].nullable);
    assert!(table.columns[1].nullable);
}

#[test]
fn category_widths() {
    let fields = vec![
        field("small", "i16", "Integer", None),
        field("large", "i32", "DoubleInteger", Some(9)),
        field("guid", "String", "GUID", Some(38)),
    ];
    let table = generate_table_tokens("Thing", None, &fields).unwrap();
    assert_eq!(table.columns[0].width, ColumnWidth::Int16);
    assert_eq!(table.columns[1].width, ColumnWidth::Int32);
    assert_eq!(table.columns[2].width, ColumnWidth::Text(38));
    assert_eq!(table.columns[2].category, msi::Category::Guid);
}

#[test]
fn string_category_without_length_fails() {
    let fields = vec![field("a", "i16", "Integer", None), field("b", "String", "Text", None)];
    let r = generate_table_tokens("Thing", None, &fields);
    assert_eq!(r.err(), Some(CompileError::MissingLength { field: 1 }));
    let r = gen_tables_for_fields("Thing", &fields);
    assert_eq!(r.err(), Some(CompileError::MissingLength { field: 1 }));
    assert_eq!(
        generate_finish_build_for_field(&fields[1], 1),
        Err(CompileError::MissingLength { field: 1 })
    );
}

#[test]
fn unknown_category_fails() {
    let fields = vec![field("a", "String", "Words", Some(3))];
    let r = gen_tables_for_fields("Thing", &fields);
    assert_eq!(r.err(), Some(CompileError::InvalidCategory { field: 0 }));
    assert!(generate_column(&fields[0], 0).is_err());
}

#[test]
fn first_failing_field_decides_the_error() {
    let fields = vec![
        field("a", "String", "Text", Some(3)),
        field("b", "String", "Text", None),
        field("c", "String", "Nope", Some(3)),
    ];
    let r = generate_table_tokens("Thing", None, &fields);
    assert_eq!(r.err(), Some(CompileError::MissingLength { field: 1 }));
}

#[test]
fn category_names_resolve() {
    assert_eq!(resolve_category("Integer"), Some(msi::Category::Integer));
    assert_eq!(resolve_category("FormattedSDDLText"), Some(msi::Category::FormattedSddlText));
    assert_eq!(resolve_category("Guid"), Some(msi::Category::Guid));
    assert_eq!(resolve_category("integer"), None);
    assert_eq!(resolve_category(""), None);
    assert_eq!(storage_width(msi::Category::Integer, Some(4)), Some(ColumnWidth::Int16));
    assert_eq!(storage_width(msi::Category::Text, None), None);
    assert_eq!(storage_width(msi::Category::Text, Some(0)), Some(ColumnWidth::Text(0)));
}

#[test]
fn conflict_predicate_compares_only_key_fields() {
    let mut fields = directory_fields();
    fields[1].primary_key = true;
    let dao = generate_dao_tokens("Directory", None, &fields);
    assert_eq!(dao.conflict_fields, vec![0usize, 1usize]);
    let a = vec![text("D"), msi::Value::Null, text("x")];
    assert!(dao.conflicts_with(&a, &vec![text("D"), msi::Value::Null, text("y")]));
    assert!(!dao.conflicts_with(&a, &vec![text("D"), text("P"), text("x")]));
    assert!(!dao.conflicts_with(&a, &vec![text("E"), msi::Value::Null, text("x")]));
}

#[test]
fn row_values_compare_by_kind_and_content() {
    assert!(values_equal(&msi::Value::Null, &msi::Value::Null));
    assert!(values_equal(&msi::Value::Int(3), &msi::Value::Int(3)));
    assert!(!values_equal(&msi::Value::Int(3), &msi::Value::Int(4)));
    assert!(values_equal(&text("a"), &text("a")));
    assert!(!values_equal(&text("a"), &text("b")));
    assert!(!values_equal(&text("3"), &msi::Value::Int(3)));
    assert!(!values_equal(&msi::Value::Null, &text("")));
}

#[test]
fn identifier_needs_identifier_options() {
    let plain = field("name", "String", "Text", Some(5));
    assert_eq!(
        generate_identifier_tokens("Thing", &plain).err(),
        Some(CompileError::InconsistentIdentifierConfiguration)
    );
    let mut named = plain.clone();
    named.identifier_options = identifier(false, None);
    let artifact = generate_identifier_tokens("Thing", &named).unwrap();
    assert_eq!(artifact.type_ident, "ThingIdentifier");
    assert!(artifact.generator.is_none());
}

#[test]
fn generator_prefix_is_upper_cased_name() {
    let mut f = field("id", "FeatureIdentifier", "Identifier", Some(38));
    f.identifier_options = identifier(true, None);
    let artifact = generate_identifier_tokens("Feature", &f).unwrap();
    let generator = artifact.generator.unwrap();
    assert_eq!(generator.id_prefix, "FEATURE");
    assert_eq!(generator.type_ident, "FeatureIdentifierGenerator");
}

#[test]
fn capitalize_first_character() {
    assert_eq!(capitalize("directory"), "Directory");
    assert_eq!(capitalize(""), "");
    assert_eq!(capitalize("Directory"), "Directory");
    assert_eq!(capitalize("éa"), "Éa");
    assert_eq!(capitalize("_a"), "_a");
}

#[test]
fn snake_case_becomes_pascal_case() {
    assert_eq!(snake_case_to_pascal_case("parent_directory").as_deref(), Some("ParentDirectory"));
    assert_eq!(snake_case_to_pascal_case("default_dir").as_deref(), Some("DefaultDir"));
    assert_eq!(snake_case_to_pascal_case("feature_").as_deref(), Some("Feature_"));
    assert_eq!(snake_case_to_pascal_case("_a_b").as_deref(), Some("_aB"));
    assert_eq!(snake_case_to_pascal_case("a__b").as_deref(), Some("AB"));
    assert_eq!(snake_case_to_pascal_case("").as_deref(), Some(""));
    assert_eq!(snake_case_to_pascal_case("_").as_deref(), Some("_"));
}

#[test]
fn derived_type_names() {
    assert_eq!(dao_from_name("Directory"), "DirectoryDao");
    assert_eq!(table_from_name("Directory"), "DirectoryTable");
    assert_eq!(identifier_from_name("Directory"), "DirectoryIdentifier");
    assert_eq!(identifier_generator_from_name("Directory"), "DirectoryIdentifierGenerator");
}

#[test]
fn error_messages() {
    assert_eq!(CompileError::AmbiguousPrimaryIdentifier.message(), "ambiguous primary identifier");
    assert_eq!(
        CompileError::InconsistentIdentifierConfiguration.message(),
        "inconsistent identifier configuration"
    );
    assert_eq!(CompileError::InvalidCategory { field: 0 }.message(), "invalid category");
    assert_eq!(CompileError::MissingLength { field: 0 }.message(), "missing required length");
    assert_eq!(CompileError::InvalidColumnName { field: 0 }.message(), "invalid column name");
}
