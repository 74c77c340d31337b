//! The result shape of a function: a single value, a set of rows, or an
//! optional set of rows, decided from the declared return type.

use vstd::prelude::*;

use crate::text::{str_eq, texts};

verus! {

/// A type expression as written in a declaration, with its canonical text.
#[derive(Debug)]
pub struct TypeExpr {
    /// The type rendered as source text.
    pub text: String,
    pub kind: TypeKind,
}

/// The structural forms of a type expression that the analysis tells apart.
#[derive(Debug)]
pub enum TypeKind {
    /// A named type such as `a::b::C<T>`.
    Path(Vec<PathSegment>),
    /// An opaque `impl Bound + ...` type.
    ImplTrait(Vec<TypeParamBound>),
    /// A tuple type `(A, B, ...)`.
    Tuple(Vec<TypeExpr>),
    /// Any other form.
    Other,
}

/// One segment of a path, with its generic arguments.
#[derive(Debug)]
pub struct PathSegment {
    pub ident: String,
    pub arguments: PathArguments,
}

/// The arguments that follow a path segment.
#[derive(Debug)]
pub enum PathArguments {
    Empty,
    /// `<...>`
    AngleBracketed(Vec<GenericArgument>),
    /// `(...) -> ...`
    Parenthesized,
}

/// One argument between angle brackets.
#[derive(Debug)]
pub enum GenericArgument {
    /// A type argument `T`.
    Type(TypeExpr),
    /// An associated type binding `Name = T`.
    Binding(String, TypeExpr),
    /// A lifetime, constant or constraint.
    Other,
}

/// One bound of an `impl` type.
#[derive(Debug)]
pub enum TypeParamBound {
    /// A trait bound, given by its path.
    Trait(Vec<PathSegment>),
    /// A lifetime bound such as `'a`.
    Lifetime(String),
}

/// The declared output of a function.
#[derive(Debug)]
pub enum ReturnType {
    /// No declared return type.
    Default,
    Type(TypeExpr),
}

/// The shape of a function's result.
#[derive(Debug)]
pub enum CategorizedType {
    /// A set of rows, with the type text of each column.
    Iterator(Vec<String>),
    /// A set of rows that may be absent as a whole.
    OptionalIterator(Vec<String>),
    /// A single value.
    Default,
}

/// Why a return type was rejected.
#[derive(Debug, Clone, Copy, PartialEq, Eq, Structural)]
pub enum UnsupportedReturnShape {
    /// An `impl` type with no bound, or with more than one.
    BoundCount,
    /// An `impl` type bounded by a lifetime.
    LifetimeBound,
    /// An `impl` type whose bound is not the iterator trait.
    UnsupportedTrait,
    /// An iterator bound with no generic argument.
    MissingGenericArgument,
    /// An iterator bound with parenthesized arguments.
    ParenthesizedArguments,
    /// An iterator bound with more than one generic argument.
    TooManyGenericArguments,
    /// An iterator bound whose argument is not an `Item = T` binding.
    NotABinding,
}

/// The mathematical form of a result shape: column types as character sequences.
pub ghost enum Shape {
    Default,
    Iterator(Seq<Seq<char>>),
    OptionalIterator(Seq<Seq<char>>),
}

impl View for CategorizedType {
    type V = Shape;

    open spec fn view(&self) -> Shape {
        match self {
            CategorizedType::Iterator(c) => Shape::Iterator(texts(c@)),
            CategorizedType::OptionalIterator(c) => Shape::OptionalIterator(texts(c@)),
            CategorizedType::Default => Shape::Default,
        }
    }
}

/// The outcome of a categorization, seen through the view of its shape.
pub open spec fn shape_view(r: Result<CategorizedType, UnsupportedReturnShape>) -> Result<
    Shape,
    UnsupportedReturnShape,
> {
    match r {
        Ok(c) => Ok(c@),
        Err(e) => Err(e),
    }
}

/// A result wrapped in `Option`: a set of rows becomes an optional set of
/// rows; every other outcome is kept.
pub open spec fn optional(r: Result<Shape, UnsupportedReturnShape>) -> Result<
    Shape,
    UnsupportedReturnShape,
> {
    match r {
        Ok(Shape::Iterator(c)) => Ok(Shape::OptionalIterator(c)),
        _ => r,
    }
}

/// The shape of a type expression.
pub open spec fn type_shape(ty: TypeExpr) -> Result<Shape, UnsupportedReturnShape>
    decreases ty,
{
    match ty.kind {
        TypeKind::Path(segs) => path_shape(segs@),
        TypeKind::ImplTrait(bounds) => impl_trait_shape(bounds@),
        _ => Ok(Shape::Default),
    }
}

/// A path is decided by its first segment named `Option`: with exactly one
/// type argument, the shape of that argument made optional; otherwise, and
/// where no such segment exists, a single value.
pub open spec fn path_shape(segs: Seq<PathSegment>) -> Result<Shape, UnsupportedReturnShape>
    decreases segs,
{
    if segs.len() == 0 {
        Ok(Shape::Default)
    } else if segs[0].ident@ == "Option"@ {
        match segs[0].arguments {
            PathArguments::AngleBracketed(args) => {
                if args@.len() == 1 {
                    match args@[0] {
                        GenericArgument::Type(inner) => optional(type_shape(inner)),
                        _ => Ok(Shape::Default),
                    }
                } else {
                    Ok(Shape::Default)
                }
            },
            _ => Ok(Shape::Default),
        }
    } else {
        path_shape(segs.subrange(1, segs.len() as int))
    }
}

/// The column types of an iterator item: the members of a tuple, or the item
/// type itself.
pub open spec fn columns_of(ty: TypeExpr) -> Seq<Seq<char>> {
    match ty.kind {
        TypeKind::Tuple(elems) => elems@.map_values(|e: TypeExpr| e.text@),
        _ => seq![ty.text@],
    }
}

/// The segments of a path joined by `::`.
pub open spec fn joined_from(acc: Seq<char>, segs: Seq<PathSegment>) -> Seq<char>
    decreases segs.len(),
{
    if segs.len() == 0 {
        acc
    } else {
        let sep = if acc.len() > 0 {
            acc + "::"@
        } else {
            acc
        };
        joined_from(sep + segs[0].ident@, segs.subrange(1, segs.len() as int))
    }
}

pub open spec fn is_iterator_path(segs: Seq<PathSegment>) -> bool {
    let p = joined_from(Seq::empty(), segs);
    p == "Iterator"@ || p == "std::iter::Iterator"@
}

/// The shape given by a single trait bound.
pub open spec fn trait_bound_shape(segs: Seq<PathSegment>) -> Result<Shape, UnsupportedReturnShape> {
    if segs.len() == 0 || !is_iterator_path(segs) {
        Err(UnsupportedReturnShape::UnsupportedTrait)
    } else {
        match segs[segs.len() - 1].arguments {
            PathArguments::Empty => Err(UnsupportedReturnShape::MissingGenericArgument),
            PathArguments::Parenthesized => Err(UnsupportedReturnShape::ParenthesizedArguments),
            PathArguments::AngleBracketed(args) => {
                if args@.len() > 1 {
                    Err(UnsupportedReturnShape::TooManyGenericArguments)
                } else if args@.len() == 0 {
                    Err(UnsupportedReturnShape::MissingGenericArgument)
                } else {
                    match args@[0] {
                        GenericArgument::Binding(_, item) => Ok(Shape::Iterator(columns_of(item))),
                        _ => Err(UnsupportedReturnShape::NotABinding),
                    }
                }
            },
        }
    }
}

/// An `impl` type must carry exactly one bound, a trait bound.
pub open spec fn impl_trait_shape(bounds: Seq<TypeParamBound>) -> Result<
    Shape,
    UnsupportedReturnShape,
> {
    if exists|i: int| 0 <= i < bounds.len() && bounds[i] is Lifetime {
        Err(UnsupportedReturnShape::LifetimeBound)
    } else if bounds.len() != 1 {
        Err(UnsupportedReturnShape::BoundCount)
    } else {
        trait_bound_shape(bounds[0]->Trait_0@)
    }
}

/// The shape of a declared return type; no return type is a single value.
pub open spec fn return_shape(rt: ReturnType) -> Result<Shape, UnsupportedReturnShape> {
    match rt {
        ReturnType::Default => Ok(Shape::Default),
        ReturnType::Type(ty) => type_shape(ty),
    }
}

/// Joins the segments of a path with `::`.
fn joined_path(segs: &Vec<PathSegment>) -> (r: String)
    ensures
        r@ == joined_from(Seq::empty(), segs@),
{
    let mut acc = String::new();
    let mut i: usize = 0;
    assert(segs@.subrange(0, segs@.len() as int) =~= segs@);
    while i < segs.len()
        invariant
            0 <= i <= segs@.len(),
            joined_from(acc@, segs@.subrange(i as int, segs@.len() as int)) == joined_from(
                Seq::empty(),
                segs@,
            ),
        decreases segs.len() - i,
    {
        let ghost rest = segs@.subrange(i as int, segs@.len() as int);
        assert(rest.subrange(1, rest.len() as int) =~= segs@.subrange(
            i + 1,
            segs@.len() as int,
        ));
        if !acc.as_str().is_empty() {
            acc.append("::");
        }
        acc.append(segs[i].ident.as_str());
        i = i + 1;
    }
    assert(segs@.subrange(i as int, segs@.len() as int) =~= Seq::<PathSegment>::empty());
    acc
}

/// The column types of an iterator item.
fn item_columns(item: &TypeExpr) -> (r: Vec<String>)
    ensures
        texts(r@) == columns_of(*item),
{
    match &item.kind {
        TypeKind::Tuple(elems) => {
            let mut cols: Vec<String> = Vec::new();
            let mut i: usize = 0;
            while i < elems.len()
                invariant
                    0 <= i <= elems@.len(),
                    cols@.len() == i,
                    forall|k: int| 0 <= k < i ==> #[trigger] cols@[k]@ == elems@[k].text@,
                decreases elems.len() - i,
            {
                cols.push(elems[i].text.clone());
                i = i + 1;
            }
            assert(texts(cols@) =~= elems@.map_values(|e: TypeExpr| e.text@));
            cols
        },
        _ => {
            let cols = vec![item.text.clone()];
            assert(texts(cols@) =~= seq![item.text@]);
            cols
        },
    }
}

/// The shape given by the trait bound of an `impl` type.
fn categorize_trait_bound(segs: &Vec<PathSegment>) -> (r: Result<
    CategorizedType,
    UnsupportedReturnShape,
>)
    ensures
        shape_view(r) == trait_bound_shape(segs@),
{
    if segs.len() == 0 {
        return Err(UnsupportedReturnShape::UnsupportedTrait);
    }
    let path = joined_path(segs);
    if !(str_eq(path.as_str(), "Iterator") || str_eq(path.as_str(), "std::iter::Iterator")) {
        return Err(UnsupportedReturnShape::UnsupportedTrait);
    }
    match &segs[segs.len() - 1].arguments {
        PathArguments::Empty => Err(UnsupportedReturnShape::MissingGenericArgument),
        PathArguments::Parenthesized => Err(UnsupportedReturnShape::ParenthesizedArguments),
        PathArguments::AngleBracketed(args) => {
            if args.len() > 1 {
                Err(UnsupportedReturnShape::TooManyGenericArguments)
            } else if args.len() == 0 {
                Err(UnsupportedReturnShape::MissingGenericArgument)
            } else {
                match &args[0] {
                    GenericArgument::Binding(_, item) => Ok(
                        CategorizedType::Iterator(item_columns(item)),
                    ),
                    _ => Err(UnsupportedReturnShape::NotABinding),
                }
            }
        },
    }
}

/// The shape of an `impl` type from its bounds.
fn categorize_impl_trait(bounds: &Vec<TypeParamBound>) -> (r: Result<
    CategorizedType,
    UnsupportedReturnShape,
>)
    ensures
        shape_view(r) == impl_trait_shape(bounds@),
{
    let mut i: usize = 0;
    while i < bounds.len()
        invariant
            0 <= i <= bounds@.len(),
            forall|k: int| 0 <= k < i ==> !(#[trigger] bounds@[k] is Lifetime),
        decreases bounds.len() - i,
    {
        if let TypeParamBound::Lifetime(_) = &bounds[i] {
            return Err(UnsupportedReturnShape::LifetimeBound);
        }
        i = i + 1;
    }
    if bounds.len() != 1 {
        return Err(UnsupportedReturnShape::BoundCount);
    }
    match &bounds[0] {
        TypeParamBound::Trait(segs) => categorize_trait_bound(segs),
        TypeParamBound::Lifetime(_) => Err(UnsupportedReturnShape::LifetimeBound),
    }
}

/// Decides the shape of a type expression.
///
/// A path whose first `Option` segment has a single type argument takes the
/// shape of that argument, a set of rows becoming an optional set of rows.
/// An `impl` type must be bounded by the iterator trait alone, with one
/// `Item = T` binding: a tuple item gives one column per member, any other
/// item a single column. Every other type is a single value.
pub fn categorize_type(ty: &TypeExpr) -> (r: Result<CategorizedType, UnsupportedReturnShape>)
    ensures
        shape_view(r) == type_shape(*ty),
    decreases ty,
{
    match &ty.kind {
        TypeKind::Path(segs) => {
            let mut i: usize = 0;
            assert(segs@.subrange(0, segs@.len() as int) =~= segs@);
            while i < segs.len()
                invariant
                    0 <= i <= segs@.len(),
                    ty.kind == TypeKind::Path(*segs),
                    path_shape(segs@.subrange(i as int, segs@.len() as int)) == path_shape(segs@),
                decreases segs.len() - i,
            {
                let ghost rest = segs@.subrange(i as int, segs@.len() as int);
                assert(rest[0] == segs@[i as int]);
                let seg = &segs[i];
                if str_eq(seg.ident.as_str(), "Option") {
                    match &seg.arguments {
                        PathArguments::AngleBracketed(args) => {
                            if args.len() == 1 {
                                match &args[0] {
                                    GenericArgument::Type(inner) => {
                                        let r = categorize_type(inner);
                                        return match r {
                                            Ok(CategorizedType::Iterator(c)) => Ok(
                                                CategorizedType::OptionalIterator(c),
                                            ),
                                            other => other,
                                        };
                                    },
                                    _ => {
                                        return Ok(CategorizedType::Default);
                                    },
                                }
                            } else {
                                return Ok(CategorizedType::Default);
                            }
                        },
                        _ => {
                            return Ok(CategorizedType::Default);
                        },
                    }
                }
                assert(rest.subrange(1, rest.len() as int) =~= segs@.subrange(
                    i + 1,
                    segs@.len() as int,
                ));
                i = i + 1;
            }
            Ok(CategorizedType::Default)
        },
        TypeKind::ImplTrait(bounds) => categorize_impl_trait(bounds),
        _ => Ok(CategorizedType::Default),
    }
}

/// Decides the shape of a function's declared return type; a function that
/// declares none returns a single value.
pub fn categorize_return_type(rt: &ReturnType) -> (r: Result<
    CategorizedType,
    UnsupportedReturnShape,
>)
    ensures
        shape_view(r) == return_shape(*rt),
{
    match rt {
        ReturnType::Default => Ok(CategorizedType::Default),
        ReturnType::Type(ty) => categorize_type(ty),
    }
}

/// The bound `Iterator<Item = item>` written as a single-segment path.
pub open spec fn iterator_bound_over(b: TypeParamBound, item: TypeExpr) -> bool {
    match b {
        TypeParamBound::Trait(segs) => {
            &&& segs@.len() == 1
            &&& segs@[0].ident@ == "Iterator"@
            &&& match segs@[0].arguments {
                PathArguments::AngleBracketed(args) => {
                    &&& args@.len() == 1
                    &&& args@[0] is Binding
                    &&& args@[0]->Binding_1 == item
                },
                _ => false,
            }
        },
        _ => false,
    }
}

/// `ty` is `impl Iterator<Item = item>`.
pub open spec fn is_iterator_of(ty: TypeExpr, item: TypeExpr) -> bool {
    match ty.kind {
        TypeKind::ImplTrait(bounds) => bounds@.len() == 1 && iterator_bound_over(bounds@[0], item),
        _ => false,
    }
}

/// `ty` is `Option<inner>`.
pub open spec fn is_option_of(ty: TypeExpr, inner: TypeExpr) -> bool {
    match ty.kind {
        TypeKind::Path(segs) => {
            &&& segs@.len() == 1
            &&& segs@[0].ident@ == "Option"@
            &&& match segs@[0].arguments {
                PathArguments::AngleBracketed(args) => {
                    &&& args@.len() == 1
                    &&& args@[0] == GenericArgument::Type(inner)
                },
                _ => false,
            }
        },
        _ => false,
    }
}

/// The type expressions that are meant to be accepted: anything but an
/// `impl` type or an `Option` around one, the single-bound
/// `impl Iterator<Item = T>` (or `std::iter::Iterator`), and `Option` around
/// any of these.
pub open spec fn supported(ty: TypeExpr) -> bool
    decreases ty,
{
    match ty.kind {
        TypeKind::Path(segs) => supported_path(segs@),
        TypeKind::ImplTrait(bounds) => {
            &&& bounds@.len() == 1
            &&& bounds@[0] is Trait
            &&& supported_iterator_bound(bounds@[0]->Trait_0@)
        },
        _ => true,
    }
}

pub open spec fn supported_path(segs: Seq<PathSegment>) -> bool
    decreases segs,
{
    if segs.len() == 0 {
        true
    } else if segs[0].ident@ == "Option"@ {
        match segs[0].arguments {
            PathArguments::AngleBracketed(args) => {
                if args@.len() == 1 {
                    match args@[0] {
                        GenericArgument::Type(inner) => supported(inner),
                        _ => true,
                    }
                } else {
                    true
                }
            },
            _ => true,
        }
    } else {
        supported_path(segs.subrange(1, segs.len() as int))
    }
}

pub open spec fn supported_iterator_bound(segs: Seq<PathSegment>) -> bool {
    &&& segs.len() > 0
    &&& is_iterator_path(segs)
    &&& match segs[segs.len() - 1].arguments {
        PathArguments::AngleBracketed(args) => args@.len() == 1 && args@[0] is Binding,
        _ => false,
    }
}

/// Every supported return type is given a shape (a single value, a set of
/// rows or an optional set of rows), and none of them is rejected.
pub proof fn lemma_supported_types_have_a_shape(ty: TypeExpr)
    requires
        supported(ty),
    ensures
        type_shape(ty) is Ok,
    decreases ty,
{
    match ty.kind {
        TypeKind::Path(segs) => lemma_supported_paths_have_a_shape(segs@),
        _ => {},
    }
}

/// The path case of `lemma_supported_types_have_a_shape`.
pub proof fn lemma_supported_paths_have_a_shape(segs: Seq<PathSegment>)
    requires
        supported_path(segs),
    ensures
        path_shape(segs) is Ok,
    decreases segs,
{
    if segs.len() == 0 {
    } else if segs[0].ident@ == "Option"@ {
        match segs[0].arguments {
            PathArguments::AngleBracketed(args) => {
                if args@.len() == 1 {
                    match args@[0] {
                        GenericArgument::Type(inner) => lemma_supported_types_have_a_shape(inner),
                        _ => {},
                    }
                }
            },
            _ => {},
        }
    } else {
        lemma_supported_paths_have_a_shape(segs.subrange(1, segs.len() as int));
    }
}

proof fn lemma_single_segment_path(seg: PathSegment)
    ensures
        joined_from(Seq::empty(), seq![seg]) == seg.ident@,
{
    let segs = seq![seg];
    assert(Seq::<char>::empty() + seg.ident@ =~= seg.ident@);
    assert(segs.subrange(1, 1) =~= Seq::<PathSegment>::empty());
    assert(joined_from(Seq::empty(), segs) == joined_from(seg.ident@, segs.subrange(1, 1)));
}

/// An iterator over a tuple item gives one column per tuple member, in order;
/// an iterator over any other item gives the item type as its only column.
pub proof fn lemma_iterator_columns(ty: TypeExpr, item: TypeExpr)
    requires
        is_iterator_of(ty, item),
    ensures
        type_shape(ty) == Ok::<Shape, UnsupportedReturnShape>(Shape::Iterator(columns_of(item))),
        item.kind is Tuple ==> columns_of(item) == item.kind->Tuple_0@.map_values(
            |e: TypeExpr| e.text@,
        ),
        !(item.kind is Tuple) ==> columns_of(item) == seq![item.text@],
{
    let bounds = ty.kind->ImplTrait_0@;
    let segs = bounds[0]->Trait_0@;
    assert(segs =~= seq![segs[0]]);
    lemma_single_segment_path(segs[0]);
    reveal_strlit("Iterator");
    assert(!(bounds[0] is Lifetime));
}

/// `Option` around a type keeps its shape, except that a set of rows becomes
/// an optional set of rows with the same columns; `Option` around a single
/// value is a single value.
pub proof fn lemma_option_wrapping(ty: TypeExpr, inner: TypeExpr)
    requires
        is_option_of(ty, inner),
    ensures
        type_shape(ty) == optional(type_shape(inner)),
        forall|c: Seq<Seq<char>>|
            type_shape(inner) == Ok::<Shape, UnsupportedReturnShape>(Shape::Iterator(c)) ==> type_shape(ty)
                == Ok::<Shape, UnsupportedReturnShape>(Shape::OptionalIterator(c)),
        type_shape(inner) == Ok::<Shape, UnsupportedReturnShape>(Shape::Default) ==> type_shape(ty)
            == Ok::<Shape, UnsupportedReturnShape>(Shape::Default),
{
}

/// The iterator bound as a single segment path `Iterator<...>` with the given
/// arguments.
pub open spec fn is_iterator_with_arguments(ty: TypeExpr, arguments: PathArguments) -> bool {
    match ty.kind {
        TypeKind::ImplTrait(bounds) => {
            &&& bounds@.len() == 1
            &&& match bounds@[0] {
                TypeParamBound::Trait(segs) => {
                    &&& segs@.len() == 1
                    &&& segs@[0].ident@ == "Iterator"@
                    &&& segs@[0].arguments == arguments
                },
                _ => false,
            }
        },
        _ => false,
    }
}

/// An iterator bound with two or more generic arguments, with none, or an
/// `impl` type that carries a lifetime bound, is rejected.
pub proof fn lemma_rejected_iterator_bounds(ty: TypeExpr, arguments: PathArguments)
    ensures
        is_iterator_with_arguments(ty, arguments) && arguments is AngleBracketed
            && arguments->AngleBracketed_0@.len() >= 2 ==> type_shape(ty) == Err::<
            Shape,
            UnsupportedReturnShape,
        >(UnsupportedReturnShape::TooManyGenericArguments),
        is_iterator_with_arguments(ty, arguments) && (arguments is Empty || (
        arguments is AngleBracketed && arguments->AngleBracketed_0@.len() == 0))
            ==> type_shape(ty) == Err::<Shape, UnsupportedReturnShape>(
            UnsupportedReturnShape::MissingGenericArgument,
        ),
        ty.kind is ImplTrait && (exists|i: int|
            0 <= i < ty.kind->ImplTrait_0@.len() && #[trigger] ty.kind->ImplTrait_0@[i] is Lifetime)
            ==> type_shape(ty) == Err::<Shape, UnsupportedReturnShape>(
            UnsupportedReturnShape::LifetimeBound,
        ),
{
    if is_iterator_with_arguments(ty, arguments) {
        let bounds = ty.kind->ImplTrait_0@;
        let segs = bounds[0]->Trait_0@;
        assert(segs =~= seq![segs[0]]);
        lemma_single_segment_path(segs[0]);
        reveal_strlit("Iterator");
        assert(!(bounds[0] is Lifetime));
    }
}

} // verus!
