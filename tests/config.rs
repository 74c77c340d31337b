use pgx_utils::{
    get_pg_config, get_pgdata_dir, get_pglog_file, get_pgx_config_path, make_pg_major_version,
    validate_extension_name, Inet, PgConfigPaths,
};

fn paths() -> PgConfigPaths {
    PgConfigPaths {
        pg10: "/opt/pg10/bin/pg_config".to_string(),
        pg11: "/opt/pg11/bin/pg_config".to_string(),
        pg12: "/opt/pg12/bin/pg_config".to_string(),
    }
}

#[test]
fn pg_config_by_version() {
    let p = paths();
    assert_eq!(get_pg_config(&p, 10).as_deref(), Some("/opt/pg10/bin/pg_config"));
    assert_eq!(get_pg_config(&p, 11).as_deref(), Some("/opt/pg11/bin/pg_config"));
    assert_eq!(get_pg_config(&p, 12).as_deref(), Some("/opt/pg12/bin/pg_config"));
    assert_eq!(get_pg_config(&p, 13), None);
    assert_eq!(get_pg_config(&p, 9), None);
}

#[test]
fn major_versions() {
    assert_eq!(make_pg_major_version("pg10"), Some(10));
    assert_eq!(make_pg_major_version("pg11"), Some(11));
    assert_eq!(make_pg_major_version("pg12"), Some(12));
    assert_eq!(make_pg_major_version("pg13"), None);
    assert_eq!(make_pg_major_version(""), None);
}

#[test]
fn extension_names() {
    assert!(validate_extension_name("my_ext1"));
    assert!(validate_extension_name("MyExt"));
    assert!(!validate_extension_name("my-ext"));
    assert!(!validate_extension_name("my ext"));
    assert!(validate_extension_name(""));
}

#[test]
fn data_and_log_paths() {
    assert_eq!(get_pgdata_dir("/home/u/.pgx", 12), "/home/u/.pgx/data-12");
    assert_eq!(get_pgdata_dir("/home/u/.pgx/", 10), "/home/u/.pgx/data-10");
    assert_eq!(get_pgdata_dir("", 0), "data-0");
    assert_eq!(get_pglog_file("/home/u/.pgx", 11), "/home/u/.pgx/11.log");
    assert_eq!(get_pglog_file("/h", 65535), "/h/65535.log");
    assert_eq!(get_pgx_config_path("/home/u/.pgx"), "/home/u/.pgx/config.toml");
}

#[test]
fn inet_from_string() {
    let i = Inet::from("192.168.0.1/24".to_string());
    assert_eq!(i, Inet("192.168.0.1/24".to_string()));
    assert_eq!(i.0, "192.168.0.1/24");
}
