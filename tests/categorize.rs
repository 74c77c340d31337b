use pgx_utils::categorize::{
    categorize_return_type, categorize_type, CategorizedType, GenericArgument, PathArguments,
    PathSegment, ReturnType, TypeExpr, TypeKind, TypeParamBound, UnsupportedReturnShape,
};

fn seg(ident: &str, arguments: PathArguments) -> PathSegment {
    PathSegment { ident: ident.to_string(), arguments }
}

fn named(name: &str) -> TypeExpr {
    TypeExpr {
        text: name.to_string(),
        kind: TypeKind::Path(vec![seg(name, PathArguments::Empty)]),
    }
}

fn tuple(names: &[&str]) -> TypeExpr {
    TypeExpr {
        text: format!("({})", names.join(", ")),
        kind: TypeKind::Tuple(names.iter().map(|n| named(n)).collect()),
    }
}

fn option(inner: TypeExpr) -> TypeExpr {
    TypeExpr {
        text: format!("Option < {} >", inner.text),
        kind: TypeKind::Path(vec![seg(
            "Option",
            PathArguments::AngleBracketed(vec![GenericArgument::Type(inner)]),
        )]),
    }
}

fn item(t: TypeExpr) -> GenericArgument {
    GenericArgument::Binding("Item".to_string(), t)
}

fn impl_of(bounds: Vec<TypeParamBound>) -> TypeExpr {
    TypeExpr { text: "impl ..".to_string(), kind: TypeKind::ImplTrait(bounds) }
}

fn iterator_with(arguments: PathArguments) -> TypeExpr {
    impl_of(vec![TypeParamBound::Trait(vec![seg("Iterator", arguments)])])
}

fn iterator_of(t: TypeExpr) -> TypeExpr {
    iterator_with(PathArguments::AngleBracketed(vec![item(t)]))
}

fn columns(names: &[&str]) -> Vec<String> {
    names.iter().map(|n| n.to_string()).collect()
}

fn iterator_columns(r: Result<CategorizedType, UnsupportedReturnShape>) -> Option<Vec<String>> {
    match r {
        Ok(CategorizedType::Iterator(c)) => Some(c),
        _ => None,
    }
}

fn optional_iterator_columns(
    r: Result<CategorizedType, UnsupportedReturnShape>,
) -> Option<Vec<String>> {
    match r {
        Ok(CategorizedType::OptionalIterator(c)) => Some(c),
        _ => None,
    }
}

#[test]
fn no_return_type_is_default() {
    let r = categorize_return_type(&ReturnType::Default);
    assert!(matches!(r, Ok(CategorizedType::Default)));
}

#[test]
fn scalar_is_default() {
    assert!(matches!(categorize_type(&named("i32")), Ok(CategorizedType::Default)));
    let r = categorize_return_type(&ReturnType::Type(named("String")));
    assert!(matches!(r, Ok(CategorizedType::Default)));
}

#[test]
fn optional_scalar_is_default() {
    assert!(matches!(categorize_type(&option(named("i32"))), Ok(CategorizedType::Default)));
}

#[test]
fn tuple_and_other_types_are_default() {
    assert!(matches!(categorize_type(&tuple(&["A", "B"])), Ok(CategorizedType::Default)));
    let other = TypeExpr { text: "&str".to_string(), kind: TypeKind::Other };
    assert!(matches!(categorize_type(&other), Ok(CategorizedType::Default)));
}

#[test]
fn iterator_of_single_type() {
    let r = categorize_type(&iterator_of(named("T")));
    assert_eq!(iterator_columns(r), Some(columns(&["T"])));
}

#[test]
fn iterator_of_tuple_expands_columns() {
    let r = categorize_type(&iterator_of(tuple(&["A", "B", "C"])));
    assert_eq!(iterator_columns(r), Some(columns(&["A", "B", "C"])));
}

#[test]
fn full_iterator_path_is_accepted() {
    let t = impl_of(vec![TypeParamBound::Trait(vec![
        seg("std", PathArguments::Empty),
        seg("iter", PathArguments::Empty),
        seg(
            "Iterator",
            PathArguments::AngleBracketed(vec![item(named("i64"))]),
        ),
    ])]);
    assert_eq!(iterator_columns(categorize_type(&t)), Some(columns(&["i64"])));
}

#[test]
fn optional_iterator_keeps_columns() {
    let r = categorize_type(&option(iterator_of(tuple(&["A", "B"]))));
    assert_eq!(optional_iterator_columns(r), Some(columns(&["A", "B"])));
    let r = categorize_return_type(&ReturnType::Type(option(iterator_of(named("T")))));
    assert_eq!(optional_iterator_columns(r), Some(columns(&["T"])));
}

#[test]
fn iterator_with_two_arguments_is_rejected() {
    let t = iterator_with(PathArguments::AngleBracketed(vec![
        item(named("A")),
        item(named("B")),
    ]));
    assert!(matches!(
        categorize_type(&t),
        Err(UnsupportedReturnShape::TooManyGenericArguments)
    ));
}

#[test]
fn iterator_without_arguments_is_rejected() {
    assert!(matches!(
        categorize_type(&iterator_with(PathArguments::Empty)),
        Err(UnsupportedReturnShape::MissingGenericArgument)
    ));
    assert!(matches!(
        categorize_type(&iterator_with(PathArguments::AngleBracketed(vec![]))),
        Err(UnsupportedReturnShape::MissingGenericArgument)
    ));
}

#[test]
fn iterator_with_lifetime_bound_is_rejected() {
    let t = impl_of(vec![
        TypeParamBound::Trait(vec![seg(
            "Iterator",
            PathArguments::AngleBracketed(vec![item(named("T"))]),
        )]),
        TypeParamBound::Lifetime("a".to_string()),
    ]);
    assert!(matches!(categorize_type(&t), Err(UnsupportedReturnShape::LifetimeBound)));
    let only = impl_of(vec![TypeParamBound::Lifetime("a".to_string())]);
    assert!(matches!(categorize_type(&only), Err(UnsupportedReturnShape::LifetimeBound)));
}

#[test]
fn other_iterator_misuses_are_rejected() {
    assert!(matches!(
        categorize_type(&iterator_with(PathArguments::Parenthesized)),
        Err(UnsupportedReturnShape::ParenthesizedArguments)
    ));
    let t = iterator_with(PathArguments::AngleBracketed(vec![GenericArgument::Type(named("T"))]));
    assert!(matches!(categorize_type(&t), Err(UnsupportedReturnShape::NotABinding)));
    let display = impl_of(vec![TypeParamBound::Trait(vec![seg("Display", PathArguments::Empty)])]);
    assert!(matches!(categorize_type(&display), Err(UnsupportedReturnShape::UnsupportedTrait)));
    assert!(matches!(categorize_type(&impl_of(vec![])), Err(UnsupportedReturnShape::BoundCount)));
}

#[test]
fn rejection_inside_option_is_kept() {
    let t = option(iterator_with(PathArguments::Empty));
    assert!(matches!(
        categorize_type(&t),
        Err(UnsupportedReturnShape::MissingGenericArgument)
    ));
}
