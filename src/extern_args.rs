//! The option list attached to a function declaration, parsed into a set of
//! behavioural flags.

use vstd::prelude::*;

use crate::text::str_eq;

verus! {

/// A token of an option list; groups hold a nested list.
#[derive(Debug)]
pub enum TokenTree {
    /// A delimited group `( ... )`, `[ ... ]` or `{ ... }`.
    Group(Vec<TokenTree>),
    Ident(String),
    Punct(char),
    /// A literal as written in the source, quotes and escapes included.
    Literal(String),
}

/// One option of a function declaration.
#[derive(Debug, Clone, Hash, Ord, PartialOrd, Eq, PartialEq)]
pub enum ExternArgs {
    Immutable,
    Strict,
    Stable,
    Volatile,
    Raw,
    NoGuard,
    ParallelSafe,
    ParallelUnsafe,
    ParallelRestricted,
    /// A custom error message.
    Error(String),
}

/// The `error` option's payload did not follow the `error = "message"` form.
#[derive(Debug, Clone, Copy, PartialEq, Eq, Structural)]
pub struct MalformedOptionPayload;

/// The mathematical form of an option.
pub ghost enum ArgModel {
    Immutable,
    Strict,
    Stable,
    Volatile,
    Raw,
    NoGuard,
    ParallelSafe,
    ParallelUnsafe,
    ParallelRestricted,
    Error(Seq<char>),
}

impl View for ExternArgs {
    type V = ArgModel;

    open spec fn view(&self) -> ArgModel {
        match self {
            ExternArgs::Immutable => ArgModel::Immutable,
            ExternArgs::Strict => ArgModel::Strict,
            ExternArgs::Stable => ArgModel::Stable,
            ExternArgs::Volatile => ArgModel::Volatile,
            ExternArgs::Raw => ArgModel::Raw,
            ExternArgs::NoGuard => ArgModel::NoGuard,
            ExternArgs::ParallelSafe => ArgModel::ParallelSafe,
            ExternArgs::ParallelUnsafe => ArgModel::ParallelUnsafe,
            ExternArgs::ParallelRestricted => ArgModel::ParallelRestricted,
            ExternArgs::Error(m) => ArgModel::Error(m@),
        }
    }
}

pub open spec fn models(v: Seq<ExternArgs>) -> Seq<ArgModel> {
    v.map_values(|a: ExternArgs| a@)
}

/// The variant of an option, without its payload.
pub open spec fn arg_tag(a: ArgModel) -> nat {
    match a {
        ArgModel::Immutable => 0,
        ArgModel::Strict => 1,
        ArgModel::Stable => 2,
        ArgModel::Volatile => 3,
        ArgModel::Raw => 4,
        ArgModel::NoGuard => 5,
        ArgModel::ParallelSafe => 6,
        ArgModel::ParallelUnsafe => 7,
        ArgModel::ParallelRestricted => 8,
        ArgModel::Error(_) => 9,
    }
}

/// The flag that an identifier names, if any (`error` is handled apart).
pub open spec fn keyword_arg(name: Seq<char>) -> Option<ArgModel> {
    if name == "immutable"@ {
        Some(ArgModel::Immutable)
    } else if name == "strict"@ {
        Some(ArgModel::Strict)
    } else if name == "stable"@ {
        Some(ArgModel::Stable)
    } else if name == "volatile"@ {
        Some(ArgModel::Volatile)
    } else if name == "raw"@ {
        Some(ArgModel::Raw)
    } else if name == "no_guard"@ {
        Some(ArgModel::NoGuard)
    } else if name == "parallel_safe"@ {
        Some(ArgModel::ParallelSafe)
    } else if name == "parallel_unsafe"@ {
        Some(ArgModel::ParallelUnsafe)
    } else if name == "parallel_restricted"@ {
        Some(ArgModel::ParallelRestricted)
    } else {
        None
    }
}

/// What `unescape::unescape` returns for a text.
pub uninterp spec fn unescaped(s: Seq<char>) -> Option<Seq<char>>;

/// The text between a leading and a trailing double quote.
pub open spec fn quoted_inner(u: Seq<char>) -> Option<Seq<char>> {
    if u.len() >= 2 && u[0] == '"' && u[u.len() - 1] == '"' {
        Some(u.subrange(1, u.len() - 1))
    } else {
        None
    }
}

/// The message of an `error` option from its literal: the literal unescaped,
/// which must then start and end with a double quote, both removed.
pub open spec fn error_payload(lit: Seq<char>) -> Option<Seq<char>> {
    match unescaped(lit) {
        Some(u) => quoted_inner(u),
        None => None,
    }
}

/// The options that a token list names, in order, nested groups flattened in
/// place; `None` where an `error` option is malformed.
///
/// `error` takes the next token whatever it is as its separator, and the
/// one after it, which must be a literal, as its payload. Other tokens that
/// name no option are skipped.
pub open spec fn emitted(toks: Seq<TokenTree>) -> Option<Seq<ArgModel>>
    decreases toks,
{
    if toks.len() == 0 {
        Some(Seq::empty())
    } else {
        let rest = toks.subrange(1, toks.len() as int);
        match toks[0] {
            TokenTree::Group(g) => match (emitted(g@), emitted(rest)) {
                (Some(a), Some(b)) => Some(a + b),
                _ => None,
            },
            TokenTree::Ident(name) => {
                if name@ == "error"@ {
                    if toks.len() >= 3 && toks[2] is Literal {
                        match (
                            error_payload(toks[2]->Literal_0@),
                            emitted(toks.subrange(3, toks.len() as int)),
                        ) {
                            (Some(m), Some(b)) => Some(seq![ArgModel::Error(m)] + b),
                            _ => None,
                        }
                    } else {
                        None
                    }
                } else {
                    match (keyword_arg(name@), emitted(rest)) {
                        (Some(a), Some(b)) => Some(seq![a] + b),
                        (None, b) => b,
                        _ => None,
                    }
                }
            },
            _ => emitted(rest),
        }
    }
}

/// Some option of `s` has the variant of `a`.
pub open spec fn has_tag(s: Seq<ArgModel>, a: ArgModel) -> bool {
    exists|i: int| 0 <= i < s.len() && arg_tag(s[i]) == arg_tag(a)
}

/// Set insertion by variant: an option whose variant is present is dropped.
pub open spec fn insert_arg(s: Seq<ArgModel>, a: ArgModel) -> Seq<ArgModel> {
    if has_tag(s, a) {
        s
    } else {
        s.push(a)
    }
}

pub open spec fn insert_all(s: Seq<ArgModel>, items: Seq<ArgModel>) -> Seq<ArgModel>
    decreases items.len(),
{
    if items.len() == 0 {
        s
    } else {
        insert_all(insert_arg(s, items[0]), items.subrange(1, items.len() as int))
    }
}

/// No two options share a variant.
pub open spec fn distinct_tags(s: Seq<ArgModel>) -> bool {
    forall|i: int, j: int| 0 <= i < j < s.len() ==> arg_tag(s[i]) != arg_tag(s[j])
}

/// The option set of a token list: each option inserted in order.
pub open spec fn parsed(toks: Seq<TokenTree>) -> Option<Seq<ArgModel>> {
    match emitted(toks) {
        Some(e) => Some(insert_all(Seq::empty(), e)),
        None => None,
    }
}

/// The option set that results from inserting the options of `e` into `acc`.
pub open spec fn after(acc: Seq<ArgModel>, e: Option<Seq<ArgModel>>) -> Option<Seq<ArgModel>> {
    match e {
        Some(x) => Some(insert_all(acc, x)),
        None => None,
    }
}

/// Inserting a concatenation inserts its two parts in turn.
pub proof fn lemma_insert_all_concat(s: Seq<ArgModel>, a: Seq<ArgModel>, b: Seq<ArgModel>)
    ensures
        insert_all(s, a + b) == insert_all(insert_all(s, a), b),
    decreases a.len(),
{
    if a.len() == 0 {
        assert(a + b =~= b);
    } else {
        assert((a + b)[0] == a[0]);
        assert((a + b).subrange(1, (a + b).len() as int) =~= a.subrange(1, a.len() as int) + b);
        lemma_insert_all_concat(insert_arg(s, a[0]), a.subrange(1, a.len() as int), b);
    }
}

proof fn lemma_insert_one(s: Seq<ArgModel>, a: ArgModel)
    ensures
        insert_all(s, seq![a]) == insert_arg(s, a),
{
    let one = seq![a];
    assert(one[0] == a);
    assert(one.subrange(1, 1) =~= Seq::<ArgModel>::empty());
    assert(insert_all(insert_arg(s, a), Seq::empty()) == insert_arg(s, a));
}

/// Relies on `unescape::unescape`: the text with its backslash escapes
/// replaced, `None` where an escape is malformed.
#[verifier::external_body]
fn unescape_text(s: &str) -> (r: Option<String>)
    ensures
        r is Some ==> unescaped(s@) == Some(r->0@),
        r is None ==> unescaped(s@) is None,
{
    unescape::unescape(s)
}

/// The text of an unescaped string literal without its surrounding double
/// quotes; `None` where it is not so quoted.
pub fn strip_quotes(u: &str) -> (r: Option<String>)
    ensures
        r is Some ==> quoted_inner(u@) == Some(r->0@),
        r is None ==> quoted_inner(u@) is None,
{
    let n = u.unicode_len();
    if n >= 2 && u.get_char(0) == '"' && u.get_char(n - 1) == '"' {
        Some(u.substring_char(1, n - 1).to_string())
    } else {
        None
    }
}

/// The message of an `error` option from its literal.
fn error_message(lit: &String) -> (r: Option<String>)
    ensures
        r is Some ==> error_payload(lit@) == Some(r->0@),
        r is None ==> error_payload(lit@) is None,
{
    match unescape_text(lit.as_str()) {
        Some(u) => strip_quotes(u.as_str()),
        None => None,
    }
}

/// The flag that an identifier names, if any.
fn keyword(name: &str) -> (r: Option<ExternArgs>)
    ensures
        r is Some ==> keyword_arg(name@) == Some(r->0@),
        r is None ==> keyword_arg(name@) is None,
{
    if str_eq(name, "immutable") {
        Some(ExternArgs::Immutable)
    } else if str_eq(name, "strict") {
        Some(ExternArgs::Strict)
    } else if str_eq(name, "stable") {
        Some(ExternArgs::Stable)
    } else if str_eq(name, "volatile") {
        Some(ExternArgs::Volatile)
    } else if str_eq(name, "raw") {
        Some(ExternArgs::Raw)
    } else if str_eq(name, "no_guard") {
        Some(ExternArgs::NoGuard)
    } else if str_eq(name, "parallel_safe") {
        Some(ExternArgs::ParallelSafe)
    } else if str_eq(name, "parallel_unsafe") {
        Some(ExternArgs::ParallelUnsafe)
    } else if str_eq(name, "parallel_restricted") {
        Some(ExternArgs::ParallelRestricted)
    } else {
        None
    }
}

impl ExternArgs {
    /// The variant of this option as a number.
    fn tag(&self) -> (r: u8)
        ensures
            r as nat == arg_tag(self@),
    {
        match self {
            ExternArgs::Immutable => 0,
            ExternArgs::Strict => 1,
            ExternArgs::Stable => 2,
            ExternArgs::Volatile => 3,
            ExternArgs::Raw => 4,
            ExternArgs::NoGuard => 5,
            ExternArgs::ParallelSafe => 6,
            ExternArgs::ParallelUnsafe => 7,
            ExternArgs::ParallelRestricted => 8,
            ExternArgs::Error(_) => 9,
        }
    }
}

/// Adds an option unless one of its variant is present.
fn insert(args: &mut Vec<ExternArgs>, a: ExternArgs)
    ensures
        models(final(args)@) == insert_arg(models(old(args)@), a@),
{
    let t = a.tag();
    let mut i: usize = 0;
    while i < args.len()
        invariant
            0 <= i <= args@.len(),
            args@ == old(args)@,
            t as nat == arg_tag(a@),
            forall|k: int| 0 <= k < i ==> arg_tag(#[trigger] args@[k]@) != arg_tag(a@),
        decreases args.len() - i,
    {
        if args[i].tag() == t {
            assert(models(args@)[i as int] == args@[i as int]@);
            return;
        }
        i = i + 1;
    }
    assert(!has_tag(models(args@), a@)) by {
        assert forall|k: int| 0 <= k < models(args@).len() implies arg_tag(models(args@)[k])
            != arg_tag(a@) by {
            assert(models(args@)[k] == args@[k]@);
        }
    }
    args.push(a);
    assert(models(args@) =~= models(old(args)@).push(a@));
}

/// Inserts the options of `toks` into `args`, in order; false where an
/// `error` option is malformed.
fn parse_into(toks: &Vec<TokenTree>, args: &mut Vec<ExternArgs>) -> (ok: bool)
    ensures
        ok == emitted(toks@) is Some,
        ok ==> models(final(args)@) == insert_all(models(old(args)@), emitted(toks@)->0),
    decreases toks@,
{
    let n = toks.len();
    let mut i: usize = 0;
    assert(toks@.subrange(0, n as int) =~= toks@);
    while i < n
        invariant
            n == toks@.len(),
            0 <= i <= n,
            after(models(args@), emitted(toks@.subrange(i as int, n as int))) == after(
                models(old(args)@),
                emitted(toks@),
            ),
        decreases n - i,
    {
        let ghost rest = toks@.subrange(i as int, n as int);
        let ghost acc = models(args@);
        assert(rest[0] == toks@[i as int]);
        assert(rest.subrange(1, rest.len() as int) =~= toks@.subrange(i + 1, n as int));
        match &toks[i] {
            TokenTree::Group(g) => {
                let ghost before = models(args@);
                if !parse_into(g, args) {
                    return false;
                }
                proof {
                    let eg = emitted(g@)->0;
                    let er = emitted(toks@.subrange(i + 1, n as int));
                    if er is Some {
                        lemma_insert_all_concat(before, eg, er->0);
                    }
                }
                i = i + 1;
            },
            TokenTree::Ident(name) => {
                if str_eq(name.as_str(), "error") {
                    if n - i < 3 {
                        return false;
                    }
                    assert(rest[2] == toks@[i + 2]);
                    assert(rest.subrange(3, rest.len() as int) =~= toks@.subrange(
                        i + 3,
                        n as int,
                    ));
                    match &toks[i + 2] {
                        TokenTree::Literal(lit) => match error_message(lit) {
                            Some(m) => {
                                let ghost e = ArgModel::Error(m@);
                                insert(args, ExternArgs::Error(m));
                                proof {
                                    let er = emitted(toks@.subrange(i + 3, n as int));
                                    if er is Some {
                                        lemma_insert_all_concat(acc, seq![e], er->0);
                                        lemma_insert_one(acc, e);
                                    }
                                }
                                i = i + 3;
                            },
                            None => {
                                return false;
                            },
                        },
                        _ => {
                            return false;
                        },
                    }
                } else {
                    match keyword(name.as_str()) {
                        Some(a) => {
                            let ghost e = a@;
                            insert(args, a);
                            proof {
                                let er = emitted(toks@.subrange(i + 1, n as int));
                                if er is Some {
                                    lemma_insert_all_concat(acc, seq![e], er->0);
                                    lemma_insert_one(acc, e);
                                }
                            }
                        },
                        None => {},
                    }
                    i = i + 1;
                }
            },
            _ => {
                i = i + 1;
            },
        }
    }
    assert(toks@.subrange(n as int, n as int) =~= Seq::<TokenTree>::empty());
    true
}

/// Parses the option list of a function declaration into a set of options,
/// one per variant: where a variant occurs more than once, its first
/// occurrence is kept. Nested groups count as if written in place; tokens
/// that name no option are ignored. A malformed `error` option fails the
/// whole list.
pub fn parse_extern_attributes(attr: &Vec<TokenTree>) -> (r: Result<
    Vec<ExternArgs>,
    MalformedOptionPayload,
>)
    ensures
        r is Ok <==> parsed(attr@) is Some,
        r is Ok ==> parsed(attr@) == Some(models(r->Ok_0@)),
        r is Ok ==> distinct_tags(models(r->Ok_0@)),
{
    let mut args: Vec<ExternArgs> = Vec::new();
    assert(models(args@) =~= Seq::<ArgModel>::empty());
    if parse_into(attr, &mut args) {
        proof {
            lemma_insert_all_distinct(Seq::empty(), emitted(attr@)->0);
        }
        Ok(args)
    } else {
        Err(MalformedOptionPayload)
    }
}

/// Insertion keeps the variants distinct.
pub proof fn lemma_insert_all_distinct(s: Seq<ArgModel>, items: Seq<ArgModel>)
    requires
        distinct_tags(s),
    ensures
        distinct_tags(insert_all(s, items)),
    decreases items.len(),
{
    if items.len() > 0 {
        let s1 = insert_arg(s, items[0]);
        assert(distinct_tags(s1));
        lemma_insert_all_distinct(s1, items.subrange(1, items.len() as int));
    }
}

/// Inserting options whose variants are all present changes nothing.
proof fn lemma_insert_all_present(s: Seq<ArgModel>, items: Seq<ArgModel>)
    requires
        forall|i: int| 0 <= i < items.len() ==> has_tag(s, #[trigger] items[i]),
    ensures
        insert_all(s, items) == s,
    decreases items.len(),
{
    if items.len() > 0 {
        assert(has_tag(s, items[0]));
        let rest = items.subrange(1, items.len() as int);
        assert forall|i: int| 0 <= i < rest.len() implies has_tag(s, #[trigger] rest[i]) by {
            assert(rest[i] == items[i + 1]);
        }
        lemma_insert_all_present(s, rest);
    }
}

/// After insertion, `s` is a prefix of the result and every inserted variant
/// is present.
proof fn lemma_insert_all_covers(s: Seq<ArgModel>, items: Seq<ArgModel>)
    ensures
        insert_all(s, items).len() >= s.len(),
        forall|k: int| 0 <= k < s.len() ==> insert_all(s, items)[k] == s[k],
        forall|i: int| 0 <= i < items.len() ==> has_tag(insert_all(s, items), #[trigger] items[i]),
    decreases items.len(),
{
    if items.len() > 0 {
        let s1 = insert_arg(s, items[0]);
        let rest = items.subrange(1, items.len() as int);
        lemma_insert_all_covers(s1, rest);
        let r = insert_all(s, items);
        assert(r == insert_all(s1, rest));
        assert(has_tag(s1, items[0])) by {
            if !has_tag(s, items[0]) {
                assert(s1[s.len() as int] == items[0]);
            }
        }
        assert(has_tag(r, items[0])) by {
            let j = choose|j: int| 0 <= j < s1.len() && arg_tag(s1[j]) == arg_tag(items[0]);
            assert(r[j] == s1[j]);
        }
        assert forall|k: int| 0 <= k < s.len() implies r[k] == s[k] by {
            assert(s1[k] == s[k]);
        }
        assert forall|i: int| 0 <= i < items.len() implies has_tag(r, #[trigger] items[i]) by {
            if i > 0 {
                assert(items[i] == rest[i - 1]);
            }
        }
    }
}

/// The options of a concatenation are those of its two parts, where the
/// first part is well formed on its own.
pub proof fn lemma_emitted_concat(a: Seq<TokenTree>, b: Seq<TokenTree>)
    requires
        emitted(a) is Some,
    ensures
        emitted(a + b) == match emitted(b) {
            Some(y) => Some(emitted(a)->0 + y),
            None => None::<Seq<ArgModel>>,
        },
    decreases a,
{
    let ab = a + b;
    if a.len() == 0 {
        assert(ab =~= b);
        if emitted(b) is Some {
            assert(emitted(a)->0 + emitted(b)->0 =~= emitted(b)->0);
        }
    } else {
        let rest = a.subrange(1, a.len() as int);
        assert(ab[0] == a[0]);
        assert(ab.subrange(1, ab.len() as int) =~= rest + b);
        match a[0] {
            TokenTree::Group(g) => {
                lemma_emitted_concat(rest, b);
                if emitted(b) is Some {
                    assert(emitted(g@)->0 + (emitted(rest)->0 + emitted(b)->0) =~= (emitted(g@)->0
                        + emitted(rest)->0) + emitted(b)->0);
                }
            },
            TokenTree::Ident(name) => {
                if name@ == "error"@ {
                    let tail = a.subrange(3, a.len() as int);
                    assert(ab[2] == a[2]);
                    assert(ab.subrange(3, ab.len() as int) =~= tail + b);
                    lemma_emitted_concat(tail, b);
                    if emitted(b) is Some {
                        let m = error_payload(a[2]->Literal_0@)->0;
                        assert(seq![ArgModel::Error(m)] + (emitted(tail)->0 + emitted(b)->0) =~= (
                        seq![ArgModel::Error(m)] + emitted(tail)->0) + emitted(b)->0);
                    }
                } else {
                    lemma_emitted_concat(rest, b);
                    if emitted(b) is Some && keyword_arg(name@) is Some {
                        let k = keyword_arg(name@)->0;
                        assert(seq![k] + (emitted(rest)->0 + emitted(b)->0) =~= (seq![k] + emitted(
                            rest,
                        )->0) + emitted(b)->0);
                    }
                }
            },
            _ => {
                lemma_emitted_concat(rest, b);
            },
        }
    }
}

/// Parsing is a function of the tokens alone, and options read a second time
/// add nothing: a well-formed option list written twice in a row gives the
/// same option set as the list written once.
pub proof fn lemma_parse_twice(toks: Seq<TokenTree>)
    requires
        parsed(toks) is Some,
    ensures
        parsed(toks + toks) == parsed(toks),
{
    let e = emitted(toks)->0;
    lemma_emitted_concat(toks, toks);
    lemma_insert_all_concat(Seq::empty(), e, e);
    lemma_insert_all_covers(Seq::empty(), e);
    lemma_insert_all_present(insert_all(Seq::empty(), e), e);
}

} // verus!
