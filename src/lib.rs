//! Declaration analysis for schema generation: option lists attached to
//! functions, the shape of a function's result, and descriptors of types that
//! are exposed to the database engine; with the helpers that locate the local
//! engine installations.

pub mod categorize;
pub mod config;
pub mod extern_args;
pub mod inet;
pub mod postgres_type;
pub mod text;

pub use categorize::{
    categorize_return_type, categorize_type, CategorizedType, UnsupportedReturnShape,
};
pub use config::{
    get_pg_config, get_pgdata_dir, get_pglog_file, get_pgx_config_path, make_pg_major_version,
    validate_extension_name, PgConfigPaths,
};
pub use extern_args::{parse_extern_attributes, ExternArgs, MalformedOptionPayload, TokenTree};
pub use inet::Inet;
pub use postgres_type::{PostgresType, TypeEntityError};
