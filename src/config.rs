//! The paths of the local engine installations and the command-line values
//! that select them.

use vstd::prelude::*;

use crate::text::str_eq;

verus! {

/// The `pg_config` path of each supported engine version.
#[derive(Debug)]
pub struct PgConfigPaths {
    pub pg10: String,
    pub pg11: String,
    pub pg12: String,
}

/// The `pg_config` path configured for a major version; `None` for a version
/// that is not supported.
pub fn get_pg_config(paths: &PgConfigPaths, major_version: u16) -> (r: Option<String>)
    ensures
        major_version == 10 ==> r == Some(paths.pg10),
        major_version == 11 ==> r == Some(paths.pg11),
        major_version == 12 ==> r == Some(paths.pg12),
        !(10 <= major_version <= 12) ==> r is None,
{
    match major_version {
        10 => Some(paths.pg10.clone()),
        11 => Some(paths.pg11.clone()),
        12 => Some(paths.pg12.clone()),
        _ => None,
    }
}

/// The major version that a command-line version name selects.
pub fn make_pg_major_version(version_string: &str) -> (r: Option<u16>)
    ensures
        r == if version_string@ == "pg10"@ {
            Some(10u16)
        } else if version_string@ == "pg11"@ {
            Some(11u16)
        } else if version_string@ == "pg12"@ {
            Some(12u16)
        } else {
            None
        },
{
    if str_eq(version_string, "pg10") {
        Some(10)
    } else if str_eq(version_string, "pg11") {
        Some(11)
    } else if str_eq(version_string, "pg12") {
        Some(12)
    } else {
        None
    }
}

/// What `char::is_alphanumeric` returns for a character.
pub uninterp spec fn alphanumeric(c: char) -> bool;

/// What `char::is_lowercase` returns for a character.
pub uninterp spec fn lowercase_char(c: char) -> bool;

/// Relies on `char::is_alphanumeric`: whether a character is alphabetic or
/// numeric.
#[verifier::external_body]
fn is_alphanumeric(c: char) -> (r: bool)
    ensures
        r == alphanumeric(c),
{
    c.is_alphanumeric()
}

/// Relies on `char::is_lowercase`: whether a character is lowercase.
#[verifier::external_body]
fn is_lowercase(c: char) -> (r: bool)
    ensures
        r == lowercase_char(c),
{
    c.is_lowercase()
}

/// A character allowed in an extension name.
pub open spec fn extension_name_char(c: char) -> bool {
    alphanumeric(c) || c == '_' || lowercase_char(c)
}

/// Whether a new extension may take this name: each of its characters is
/// alphanumeric, an underscore or lowercase.
pub fn validate_extension_name(extname: &str) -> (r: bool)
    ensures
        r == forall|i: int| 0 <= i < extname@.len() ==> extension_name_char(#[trigger] extname@[i]),
{
    let n = extname.unicode_len();
    let mut i: usize = 0;
    while i < n
        invariant
            n == extname@.len(),
            0 <= i <= n,
            forall|k: int| 0 <= k < i ==> extension_name_char(#[trigger] extname@[k]),
        decreases n - i,
    {
        let c = extname.get_char(i);
        if !is_alphanumeric(c) && c != '_' && !is_lowercase(c) {
            return false;
        }
        i = i + 1;
    }
    true
}

/// The decimal digit `d`.
pub open spec fn digit_char(d: nat) -> char {
    if d == 0 {
        '0'
    } else if d == 1 {
        '1'
    } else if d == 2 {
        '2'
    } else if d == 3 {
        '3'
    } else if d == 4 {
        '4'
    } else if d == 5 {
        '5'
    } else if d == 6 {
        '6'
    } else if d == 7 {
        '7'
    } else if d == 8 {
        '8'
    } else {
        '9'
    }
}

/// The decimal form of `n`, without leading zeros.
pub open spec fn decimal(n: nat) -> Seq<char>
    decreases n,
{
    if n < 10 {
        seq![digit_char(n)]
    } else {
        decimal(n / 10).push(digit_char(n % 10))
    }
}

fn digit_str(d: u16) -> (r: &'static str)
    requires
        d < 10,
    ensures
        r@ == seq![digit_char(d as nat)],
{
    proof {
        reveal_strlit("0");
        reveal_strlit("1");
        reveal_strlit("2");
        reveal_strlit("3");
        reveal_strlit("4");
        reveal_strlit("5");
        reveal_strlit("6");
        reveal_strlit("7");
        reveal_strlit("8");
        reveal_strlit("9");
    }
    let r = match d {
        0 => "0",
        1 => "1",
        2 => "2",
        3 => "3",
        4 => "4",
        5 => "5",
        6 => "6",
        7 => "7",
        8 => "8",
        _ => "9",
    };
    assert(r@ =~= seq![digit_char(d as nat)]);
    r
}

/// Appends the decimal form of `n` to `s`.
fn push_decimal(s: &mut String, n: u16)
    ensures
        final(s)@ == old(s)@ + decimal(n as nat),
    decreases n,
{
    if n >= 10 {
        push_decimal(s, n / 10);
    }
    s.append(digit_str(n % 10));
    assert(old(s)@ + decimal(n as nat) =~= old(s)@ + (if n >= 10 {
        decimal((n / 10) as nat)
    } else {
        Seq::empty()
    }) + seq![digit_char((n % 10) as nat)]);
}

/// `base` and `name` joined by a path separator, unless `base` is empty or
/// already ends with one.
pub open spec fn joined(base: Seq<char>, name: Seq<char>) -> Seq<char> {
    if base.len() == 0 || base[base.len() - 1] == '/' {
        base + name
    } else {
        base + "/"@ + name
    }
}

/// Joins a relative name onto a directory.
fn join(base: &str, name: &str) -> (r: String)
    ensures
        r@ == joined(base@, name@),
{
    let mut r = base.to_string();
    let n = base.unicode_len();
    if n > 0 && base.get_char(n - 1) != '/' {
        r.append("/");
    }
    r.append(name);
    r
}

/// The data directory of a major version under the home directory of the
/// tool: `data-` followed by the version.
pub fn get_pgdata_dir(pgx_home: &str, major_version: u16) -> (r: String)
    ensures
        r@ == joined(pgx_home@, "data-"@ + decimal(major_version as nat)),
{
    let mut name = "data-".to_string();
    push_decimal(&mut name, major_version);
    join(pgx_home, name.as_str())
}

/// The log file of a major version under the home directory of the tool:
/// the version followed by `.log`.
pub fn get_pglog_file(pgx_home: &str, major_version: u16) -> (r: String)
    ensures
        r@ == joined(pgx_home@, decimal(major_version as nat) + ".log"@),
{
    let mut name = String::new();
    push_decimal(&mut name, major_version);
    name.append(".log");
    assert(name@ =~= decimal(major_version as nat) + ".log"@);
    join(pgx_home, name.as_str())
}

/// The configuration file under the home directory of the tool.
pub fn get_pgx_config_path(pgx_home: &str) -> (r: String)
    ensures
        r@ == joined(pgx_home@, "config.toml"@),
{
    join(pgx_home, "config.toml")
}

} // verus!
