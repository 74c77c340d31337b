//! Descriptors of record types exposed to the database engine: the type's
//! name, its generic parameters in the forms a registration needs, and the
//! names of its text input and output functions.

use vstd::prelude::*;

use crate::text::{copy_opt_text, copy_texts, texts};

verus! {

/// A lifetime parameter `'ident: bounds`.
#[derive(Debug)]
pub struct LifetimeParam {
    /// The lifetime's name, without the leading quote.
    pub ident: String,
    /// The lifetimes it outlives, as source text.
    pub bounds: Vec<String>,
}

/// One generic parameter of a declaration.
#[derive(Debug)]
pub enum GenericParam {
    /// A type parameter, as source text.
    Type(String),
    Lifetime(LifetimeParam),
    /// A const parameter, as source text.
    Const(String),
}

/// The generic parameters of a declaration and its `where` clause.
#[derive(Debug)]
pub struct Generics {
    pub params: Vec<GenericParam>,
    /// The `where` clause as source text, if any.
    pub where_clause: Option<String>,
}

/// How a type's SQL is produced; anything but the default takes over the
/// type's external name.
#[derive(Debug)]
pub struct ToSqlConfig {
    pub enabled: bool,
    /// A function that produces the SQL, as a path.
    pub callback: Option<String>,
    /// Literal SQL.
    pub content: Option<String>,
}

/// The kind of a declaration handed to the derive.
#[derive(Debug, Clone, Copy, PartialEq, Eq, Structural)]
pub enum DataKind {
    Struct,
    Enum,
    Union,
}

/// A declaration handed to the derive, with its configuration already read
/// from its attributes.
#[derive(Debug)]
pub struct DeriveInput {
    pub ident: String,
    pub generics: Generics,
    pub data: DataKind,
    pub to_sql_config: Option<ToSqlConfig>,
}

/// A record declaration.
#[derive(Debug)]
pub struct ItemStruct {
    pub ident: String,
    pub generics: Generics,
    pub to_sql_config: Option<ToSqlConfig>,
}

/// Why a type descriptor could not be built.
#[derive(Debug)]
pub enum TypeEntityError {
    /// The name, given here, is not acceptable to the engine and no
    /// configuration overrides it.
    NamingError(String),
    /// The declaration, named here, is not a record.
    UnsupportedDeclarationKind(String),
}

/// The descriptor of a record type exposed to the engine.
#[derive(Debug)]
pub struct PostgresType {
    name: String,
    generics: Generics,
    static_generics: Generics,
    staticless_generics: Generics,
    in_fn: String,
    out_fn: String,
    to_sql_config: ToSqlConfig,
}

/// A character the engine accepts in a name: a lowercase ASCII letter, a
/// digit or an underscore.
pub open spec fn acceptable_char(c: char) -> bool {
    ('a' <= c && c <= 'z') || ('0' <= c && c <= '9') || c == '_'
}

/// A name the engine accepts as it stands.
pub open spec fn acceptable_ident(s: Seq<char>) -> bool {
    s.len() > 0 && forall|i: int| 0 <= i < s.len() ==> acceptable_char(#[trigger] s[i])
}

/// Whether the engine accepts `ident` as a name: it is not empty and holds
/// only lowercase ASCII letters, digits and underscores.
pub fn ident_is_acceptable_to_postgres(ident: &str) -> (r: bool)
    ensures
        r == acceptable_ident(ident@),
{
    let n = ident.unicode_len();
    if n == 0 {
        return false;
    }
    let mut i: usize = 0;
    while i < n
        invariant
            n == ident@.len(),
            0 <= i <= n,
            forall|k: int| 0 <= k < i ==> acceptable_char(#[trigger] ident@[k]),
        decreases n - i,
    {
        let c = ident.get_char(i);
        if !(('a' <= c && c <= 'z') || ('0' <= c && c <= '9') || c == '_') {
            return false;
        }
        i = i + 1;
    }
    true
}

impl ToSqlConfig {
    /// Whether this configuration replaces the default SQL of the type.
    pub open spec fn spec_overrides_default(&self) -> bool {
        !self.enabled || self.callback is Some || self.content is Some
    }

    /// Whether this configuration replaces the default SQL of the type.
    pub fn overrides_default(&self) -> (r: bool)
        ensures
            r == self.spec_overrides_default(),
    {
        !self.enabled || self.callback.is_some() || self.content.is_some()
    }
}

impl Default for ToSqlConfig {
    /// Enabled, with neither a callback nor literal SQL.
    fn default() -> (r: ToSqlConfig)
        ensures
            r.enabled,
            r.callback is None,
            r.content is None,
    {
        ToSqlConfig { enabled: true, callback: None, content: None }
    }
}

/// The mathematical form of a generic parameter.
pub ghost enum ParamModel {
    Type(Seq<char>),
    /// A lifetime's name and bounds.
    Lifetime(Seq<char>, Seq<Seq<char>>),
    Const(Seq<char>),
}

impl View for GenericParam {
    type V = ParamModel;

    open spec fn view(&self) -> ParamModel {
        match self {
            GenericParam::Type(t) => ParamModel::Type(t@),
            GenericParam::Lifetime(l) => ParamModel::Lifetime(l.ident@, texts(l.bounds@)),
            GenericParam::Const(c) => ParamModel::Const(c@),
        }
    }
}

pub open spec fn params_view(s: Seq<GenericParam>) -> Seq<ParamModel> {
    s.map_values(|p: GenericParam| p@)
}

/// The mathematical form of a generics list.
pub ghost struct GenericsModel {
    pub params: Seq<ParamModel>,
    pub where_clause: Option<Seq<char>>,
}

impl View for Generics {
    type V = GenericsModel;

    open spec fn view(&self) -> GenericsModel {
        GenericsModel {
            params: params_view(self.params@),
            where_clause: match self.where_clause {
                Some(w) => Some(w@),
                None => None,
            },
        }
    }
}

/// A parameter with its lifetime, if it is one, renamed to `'static`.
pub open spec fn static_param(p: ParamModel) -> ParamModel {
    match p {
        ParamModel::Lifetime(_, bounds) => ParamModel::Lifetime("static"@, bounds),
        _ => p,
    }
}

/// Keeps type and const parameters.
pub open spec fn is_type_or_const() -> spec_fn(ParamModel) -> bool {
    |p: ParamModel| !(p is Lifetime)
}

/// Generics with every lifetime parameter renamed to `'static`.
pub open spec fn static_form(g: GenericsModel) -> GenericsModel {
    GenericsModel { params: g.params.map_values(|p: ParamModel| static_param(p)), ..g }
}

/// Generics with every lifetime parameter removed.
pub open spec fn staticless_form(g: GenericsModel) -> GenericsModel {
    GenericsModel { params: g.params.filter(is_type_or_const()), ..g }
}

fn copy_param(p: &GenericParam) -> (r: GenericParam)
    ensures
        r@ == p@,
{
    match p {
        GenericParam::Type(t) => GenericParam::Type(t.clone()),
        GenericParam::Lifetime(l) => GenericParam::Lifetime(
            LifetimeParam { ident: l.ident.clone(), bounds: copy_texts(&l.bounds) },
        ),
        GenericParam::Const(c) => GenericParam::Const(c.clone()),
    }
}

impl Generics {
    /// These generics with every lifetime parameter renamed to `'static`,
    /// its bounds kept.
    pub fn static_form(&self) -> (r: Generics)
        ensures
            r@ == static_form(self@),
    {
        let ghost src = params_view(self.params@);
        let mut out: Vec<GenericParam> = Vec::new();
        let mut i: usize = 0;
        while i < self.params.len()
            invariant
                0 <= i <= self.params@.len(),
                src == params_view(self.params@),
                params_view(out@) == src.subrange(0, i as int).map_values(
                    |p: ParamModel| static_param(p),
                ),
            decreases self.params.len() - i,
        {
            let q = match &self.params[i] {
                GenericParam::Lifetime(l) => {
                    let ident = "static".to_string();
                    assert(ident@ == "static"@);
                    GenericParam::Lifetime(LifetimeParam { ident, bounds: copy_texts(&l.bounds) })
                },
                other => copy_param(other),
            };
            assert(q@ == static_param(src[i as int]));
            let ghost before = out@;
            out.push(q);
            assert(params_view(out@) =~= params_view(before).push(q@));
            i = i + 1;
            assert(params_view(out@) =~= src.subrange(0, i as int).map_values(
                |p: ParamModel| static_param(p),
            ));
        }
        assert(src.subrange(0, src.len() as int) =~= src);
        let r = Generics { params: out, where_clause: copy_opt_text(&self.where_clause) };
        assert(r@.params =~= static_form(self@).params);
        r
    }

    /// These generics with every lifetime parameter removed.
    pub fn staticless_form(&self) -> (r: Generics)
        ensures
            r@ == staticless_form(self@),
    {
        let ghost src = params_view(self.params@);
        let ghost keep = is_type_or_const();
        proof {
            reveal(Seq::filter);
        }
        let mut out: Vec<GenericParam> = Vec::new();
        let mut i: usize = 0;
        while i < self.params.len()
            invariant
                0 <= i <= self.params@.len(),
                src == params_view(self.params@),
                keep == is_type_or_const(),
                params_view(out@) == src.subrange(0, i as int).filter(keep),
            decreases self.params.len() - i,
        {
            let ghost prev = src.subrange(0, i as int);
            let ghost next = src.subrange(0, i + 1);
            assert(next.drop_last() =~= prev);
            assert(next.last() == self.params@[i as int]@);
            match &self.params[i] {
                GenericParam::Lifetime(_) => {},
                other => {
                    let q = copy_param(other);
                    let ghost before = out@;
                    out.push(q);
                    assert(params_view(out@) =~= params_view(before).push(q@));
                },
            }
            i = i + 1;
            reveal(Seq::filter);
            assert(next.filter(keep) == if keep(next.last()) {
                prev.filter(keep).push(next.last())
            } else {
                prev.filter(keep)
            });
            assert(params_view(out@) =~= next.filter(keep));
        }
        assert(src.subrange(0, src.len() as int) =~= src);
        let r = Generics { params: out, where_clause: copy_opt_text(&self.where_clause) };
        r
    }
}

/// What `str::to_lowercase` returns for a text.
pub uninterp spec fn lower_of(s: Seq<char>) -> Seq<char>;

/// Relies on `str::to_lowercase`: the lowercase form of a text, a function of
/// its characters alone.
#[verifier::external_body]
fn lowercase(s: &str) -> (r: String)
    ensures
        r@ == lower_of(s@),
{
    s.to_lowercase()
}

/// The configuration in force: the one given, else the default.
pub open spec fn config_or_default(c: Option<ToSqlConfig>) -> ToSqlConfig {
    match c {
        Some(c) => c,
        None => ToSqlConfig { enabled: true, callback: None, content: None },
    }
}

/// The name of a type's text input function.
pub open spec fn in_fn_name(name: Seq<char>) -> Seq<char> {
    lower_of(name) + "_in"@
}

/// The name of a type's text output function.
pub open spec fn out_fn_name(name: Seq<char>) -> Seq<char> {
    lower_of(name) + "_out"@
}

/// The mathematical form of a type descriptor.
pub ghost struct PostgresTypeModel {
    pub name: Seq<char>,
    pub generics: GenericsModel,
    pub static_generics: GenericsModel,
    pub staticless_generics: GenericsModel,
    pub in_fn: Seq<char>,
    pub out_fn: Seq<char>,
    pub to_sql_config: ToSqlConfig,
}

impl View for PostgresType {
    type V = PostgresTypeModel;

    closed spec fn view(&self) -> PostgresTypeModel {
        PostgresTypeModel {
            name: self.name@,
            generics: self.generics@,
            static_generics: self.static_generics@,
            staticless_generics: self.staticless_generics@,
            in_fn: self.in_fn@,
            out_fn: self.out_fn@,
            to_sql_config: self.to_sql_config,
        }
    }
}

/// The descriptor built from these parts, both generic forms derived.
pub open spec fn descriptor(
    name: Seq<char>,
    generics: GenericsModel,
    in_fn: Seq<char>,
    out_fn: Seq<char>,
    to_sql_config: ToSqlConfig,
) -> PostgresTypeModel {
    PostgresTypeModel {
        name,
        generics,
        static_generics: static_form(generics),
        staticless_generics: staticless_form(generics),
        in_fn,
        out_fn,
        to_sql_config,
    }
}

/// Building is refused for want of an acceptable name: the configuration
/// does not override the default and the name is not acceptable.
pub open spec fn naming_refused(name: Seq<char>, to_sql_config: ToSqlConfig) -> bool {
    !to_sql_config.spec_overrides_default() && !acceptable_ident(name)
}

impl PostgresType {
    /// A descriptor from its parts. Unless the configuration overrides the
    /// default, the name must be acceptable to the engine.
    pub fn new(
        name: String,
        generics: Generics,
        in_fn: String,
        out_fn: String,
        to_sql_config: ToSqlConfig,
    ) -> (r: Result<PostgresType, TypeEntityError>)
        ensures
            r is Err <==> naming_refused(name@, to_sql_config),
            r is Err ==> r->Err_0 is NamingError && r->Err_0->NamingError_0@ == name@,
            r is Ok ==> r->Ok_0@ == descriptor(name@, generics@, in_fn@, out_fn@, to_sql_config),
    {
        if !to_sql_config.overrides_default() && !ident_is_acceptable_to_postgres(name.as_str()) {
            return Err(TypeEntityError::NamingError(name));
        }
        let static_generics = generics.static_form();
        let staticless_generics = generics.staticless_form();
        Ok(PostgresType {
            name,
            generics,
            static_generics,
            staticless_generics,
            in_fn,
            out_fn,
            to_sql_config,
        })
    }

    /// The descriptor of a record declaration: its input and output functions
    /// are named after the lowercase type name, with `_in` and `_out`
    /// appended, and the default configuration applies where none is given.
    pub fn from_item_struct(item: ItemStruct) -> (r: Result<PostgresType, TypeEntityError>)
        ensures
            r is Err <==> naming_refused(item.ident@, config_or_default(item.to_sql_config)),
            r is Err ==> r->Err_0 is NamingError && r->Err_0->NamingError_0@ == item.ident@,
            r is Ok ==> r->Ok_0@ == descriptor(
                item.ident@,
                item.generics@,
                in_fn_name(item.ident@),
                out_fn_name(item.ident@),
                config_or_default(item.to_sql_config),
            ),
    {
        let to_sql_config = match item.to_sql_config {
            Some(c) => c,
            None => ToSqlConfig::default(),
        };
        let mut funcname_in = lowercase(item.ident.as_str());
        funcname_in.append("_in");
        let mut funcname_out = lowercase(item.ident.as_str());
        funcname_out.append("_out");
        PostgresType::new(item.ident, item.generics, funcname_in, funcname_out, to_sql_config)
    }

    /// The descriptor of a declaration handed to the derive. Only a record
    /// can become a type; otherwise as `from_item_struct`.
    pub fn from_derive_input(derive_input: DeriveInput) -> (r: Result<
        PostgresType,
        TypeEntityError,
    >)
        ensures
            derive_input.data != DataKind::Struct ==> r is Err && r->Err_0 is UnsupportedDeclarationKind
                && r->Err_0->UnsupportedDeclarationKind_0@ == derive_input.ident@,
            derive_input.data == DataKind::Struct ==> (r is Err <==> naming_refused(
                derive_input.ident@,
                config_or_default(derive_input.to_sql_config),
            )),
            derive_input.data == DataKind::Struct && r is Err ==> r->Err_0 is NamingError
                && r->Err_0->NamingError_0@ == derive_input.ident@,
            r is Ok ==> r->Ok_0@ == descriptor(
                derive_input.ident@,
                derive_input.generics@,
                in_fn_name(derive_input.ident@),
                out_fn_name(derive_input.ident@),
                config_or_default(derive_input.to_sql_config),
            ),
    {
        match derive_input.data {
            DataKind::Struct => {},
            DataKind::Union | DataKind::Enum => {
                return Err(TypeEntityError::UnsupportedDeclarationKind(derive_input.ident));
            },
        }
        PostgresType::from_item_struct(
            ItemStruct {
                ident: derive_input.ident,
                generics: derive_input.generics,
                to_sql_config: derive_input.to_sql_config,
            },
        )
    }

    pub fn name(&self) -> (r: &String)
        ensures
            r@ == self@.name,
    {
        &self.name
    }

    pub fn generics(&self) -> (r: &Generics)
        ensures
            r@ == self@.generics,
    {
        &self.generics
    }

    /// The generics with lifetimes renamed to `'static`.
    pub fn static_generics(&self) -> (r: &Generics)
        ensures
            r@ == self@.static_generics,
    {
        &self.static_generics
    }

    /// The generics with lifetimes removed.
    pub fn staticless_generics(&self) -> (r: &Generics)
        ensures
            r@ == self@.staticless_generics,
    {
        &self.staticless_generics
    }

    pub fn in_fn(&self) -> (r: &String)
        ensures
            r@ == self@.in_fn,
    {
        &self.in_fn
    }

    pub fn out_fn(&self) -> (r: &String)
        ensures
            r@ == self@.out_fn,
    {
        &self.out_fn
    }

    pub fn to_sql_config(&self) -> (r: &ToSqlConfig)
        ensures
            *r == self@.to_sql_config,
    {
        &self.to_sql_config
    }

    /// The name of the function that registers this type with the schema
    /// graph: `__pgx_internals_type_` followed by the type name.
    pub fn entity_fn_name(&self) -> (r: String)
        ensures
            r@ == "__pgx_internals_type_"@ + self@.name,
    {
        let mut r = "__pgx_internals_type_".to_string();
        r.append(self.name.as_str());
        r
    }
}

/// A name holding an uppercase ASCII letter or a hyphen is refused when the
/// configuration keeps the default, and accepted when it overrides it.
pub proof fn lemma_naming_needs_override(name: Seq<char>, to_sql_config: ToSqlConfig, i: int)
    requires
        0 <= i < name.len(),
        ('A' <= name[i] && name[i] <= 'Z') || name[i] == '-',
    ensures
        !to_sql_config.spec_overrides_default() ==> naming_refused(name, to_sql_config),
        to_sql_config.spec_overrides_default() ==> !naming_refused(name, to_sql_config),
{
    assert(!acceptable_char(name[i]));
}

} // verus!
