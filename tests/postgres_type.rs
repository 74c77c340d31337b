use pgx_utils::postgres_type::{
    ident_is_acceptable_to_postgres, DataKind, DeriveInput, GenericParam, Generics, ItemStruct, LifetimeParam, ToSqlConfig,
};
use pgx_utils::{PostgresType, TypeEntityError};

fn no_generics() -> Generics {
    Generics { params: vec![], where_clause: None }
}

fn derive(name: &str, data: DataKind, to_sql_config: Option<ToSqlConfig>) -> DeriveInput {
    DeriveInput { ident: name.to_string(), generics: no_generics(), data, to_sql_config }
}

fn overriding() -> ToSqlConfig {
    ToSqlConfig { enabled: false, callback: None, content: None }
}

#[test]
fn example_without_override_is_refused() {
    let r = PostgresType::from_derive_input(derive("Example", DataKind::Struct, None));
    match r {
        Err(TypeEntityError::NamingError(name)) => assert_eq!(name, "Example"),
        other => panic!("unexpected: {:?}", other),
    }
}

#[test]
fn example_with_override_names_its_functions() {
    let r = PostgresType::from_derive_input(derive("Example", DataKind::Struct, Some(overriding())))
        .unwrap();
    assert_eq!(r.name(), "Example");
    assert_eq!(r.in_fn(), "example_in");
    assert_eq!(r.out_fn(), "example_out");
    assert!(!r.to_sql_config().enabled);
}

#[test]
fn lowercase_name_is_accepted_without_override() {
    let r = PostgresType::from_item_struct(ItemStruct {
        ident: "example".to_string(),
        generics: no_generics(),
        to_sql_config: None,
    })
    .unwrap();
    assert_eq!(r.in_fn(), "example_in");
    assert_eq!(r.out_fn(), "example_out");
    assert!(r.to_sql_config().enabled);
    assert_eq!(r.entity_fn_name(), "__pgx_internals_type_example");
}

#[test]
fn hyphenated_name_needs_override() {
    let refused = PostgresType::from_derive_input(derive("my-type", DataKind::Struct, None));
    assert!(matches!(refused, Err(TypeEntityError::NamingError(_))));
    let callback = ToSqlConfig { enabled: true, callback: Some("f".to_string()), content: None };
    let accepted = PostgresType::from_derive_input(derive("my-type", DataKind::Struct, Some(callback)));
    assert!(accepted.is_ok());
    let content = ToSqlConfig { enabled: true, callback: None, content: Some("x".to_string()) };
    let accepted = PostgresType::from_derive_input(derive("MyType", DataKind::Struct, Some(content)));
    assert!(accepted.is_ok());
}

#[test]
fn enums_and_unions_are_rejected() {
    for data in [DataKind::Enum, DataKind::Union] {
        match PostgresType::from_derive_input(derive("thing", data, None)) {
            Err(TypeEntityError::UnsupportedDeclarationKind(name)) => assert_eq!(name, "thing"),
            other => panic!("unexpected: {:?}", other),
        }
    }
}

#[test]
fn generics_in_static_and_staticless_forms() {
    let generics = Generics {
        params: vec![
            GenericParam::Lifetime(LifetimeParam { ident: "a".to_string(), bounds: vec![] }),
            GenericParam::Type("T".to_string()),
            GenericParam::Lifetime(LifetimeParam {
                ident: "b".to_string(),
                bounds: vec!["'a".to_string()],
            }),
            GenericParam::Const("const N: usize".to_string()),
        ],
        where_clause: Some("where T: Clone".to_string()),
    };
    let t = PostgresType::new(
        "pair".to_string(),
        generics,
        "pair_in".to_string(),
        "pair_out".to_string(),
        ToSqlConfig::default(),
    )
    .unwrap();
    let s = t.static_generics();
    assert_eq!(s.params.len(), 4);
    assert!(matches!(&s.params[0], GenericParam::Lifetime(l) if l.ident == "static" && l.bounds.is_empty()));
    assert!(matches!(&s.params[1], GenericParam::Type(x) if x == "T"));
    assert!(matches!(&s.params[2], GenericParam::Lifetime(l) if l.ident == "static" && l.bounds == vec!["'a".to_string()]));
    assert!(matches!(&s.params[3], GenericParam::Const(x) if x == "const N: usize"));
    assert_eq!(s.where_clause.as_deref(), Some("where T: Clone"));
    let l = t.staticless_generics();
    assert_eq!(l.params.len(), 2);
    assert!(matches!(&l.params[0], GenericParam::Type(x) if x == "T"));
    assert!(matches!(&l.params[1], GenericParam::Const(x) if x == "const N: usize"));
    assert_eq!(t.generics().params.len(), 4);
}

#[test]
fn new_checks_the_name_itself() {
    let r = PostgresType::new(
        "Bad".to_string(),
        no_generics(),
        "bad_in".to_string(),
        "bad_out".to_string(),
        ToSqlConfig::default(),
    );
    assert!(matches!(r, Err(TypeEntityError::NamingError(n)) if n == "Bad"));
    let empty = PostgresType::new(
        String::new(),
        no_generics(),
        "_in".to_string(),
        "_out".to_string(),
        ToSqlConfig::default(),
    );
    assert!(empty.is_err());
}

#[test]
fn acceptable_identifiers() {
    assert!(ident_is_acceptable_to_postgres("abc_123"));
    assert!(!ident_is_acceptable_to_postgres("Abc"));
    assert!(!ident_is_acceptable_to_postgres("a-b"));
    assert!(!ident_is_acceptable_to_postgres(""));
}
