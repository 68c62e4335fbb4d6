use configure_me::config::raw;
use configure_me::config::Defaults;
use configure_me::man::{
    generate_man_page, param_long, param_long_raw, param_short, parse_author, strip, switch_long,
    switch_short, Author, Env, Flag, Opt, PackageInfo,
};
use configure_me::manifest::Error;
use configure_me::script::{
    build_script_with_man, build_script_with_man_written_to, Error as ScriptError,
};
use configure_me::span::Spanned;

fn spanned<T>(value: T) -> Spanned<T> {
    Spanned::new(value, 0, 0)
}

fn param(name: &str, ty: &str) -> raw::Param {
    raw::Param {
        name: spanned(name.to_owned()),
        abbr: None,
        ty: ty.to_owned(),
        optional: None,
        default: None,
        doc: None,
        argument: None,
        env_var: None,
        convert_into: None,
        merge_fn: None,
        debconf_priority: None,
        debconf_default: None,
    }
}

fn switch(name: &str) -> raw::Switch {
    raw::Switch {
        name: spanned(name.to_owned()),
        abbr: None,
        default: None,
        doc: None,
        env_var: None,
        count: None,
        debconf_priority: None,
    }
}

fn some(text: &str) -> Option<String> {
    Some(text.to_owned())
}

#[test]
fn authors() {
    assert_eq!(
        parse_author("Jane Doe <jane@example.com>"),
        Author { name: "Jane Doe".to_owned(), email: some("jane@example.com") }
    );
    assert_eq!(parse_author("  Jane  "), Author { name: "Jane".to_owned(), email: None });
    assert_eq!(
        parse_author("Jane < jane@example.com >> <other>"),
        Author { name: "Jane".to_owned(), email: some("jane@example.com ") }
    );
    assert_eq!(parse_author("<>"), Author { name: String::new(), email: some("") });
    assert_eq!(strip(" \t a b \u{a0}\n", false), "a b");
    assert_eq!(strip(">>a>b>", true), "a>b");
    assert_eq!(strip("   ", false), "");
}

#[test]
fn manual_page() {
    let general = raw::General {
        summary: some("A server"),
        doc: some("Serves."),
        env_prefix: some("srv"),
        conf_file_param: Some(spanned("conf_file".to_owned())),
        skip_default_conf_files_switch: Some(spanned("no_defaults".to_owned())),
        ..raw::General::default()
    };
    let port = raw::Param {
        abbr: Some(spanned('p')),
        default: Some(spanned("8080".to_owned())),
        doc: some("Port to listen on"),
        ..param("listen_port", "u16")
    };
    let secret = raw::Param { argument: Some(false), ..param("secret", "String") };
    let quiet = raw::Switch { abbr: Some(spanned('q')), env_var: Some(false), ..switch("be_quiet") };
    let colour = raw::Switch { default: Some(spanned(true)), ..switch("colour") };
    let config = raw::Config {
        params: vec![port, secret],
        switches: vec![quiet, colour],
        general,
        defaults: Defaults::default(),
        debconf: None,
    }
    .validate()
    .unwrap();
    assert_eq!(param_long_raw("a_b_c"), "--a-b-c");
    assert_eq!(param_long(&config.params[0]), "--listen-port");
    assert_eq!(param_short(&config.params[0]), some("-p"));
    assert_eq!(param_short(&config.params[1]), None);
    assert_eq!(switch_long(&config.switches[0]), "--be_quiet");
    assert_eq!(switch_long(&config.switches[1]), "--no-colour");
    assert_eq!(switch_short(&config.switches[0]), some("-q"));
    assert_eq!(switch_short(&config.switches[1]), None);

    let package = PackageInfo {
        name: "server".to_owned(),
        description: some("From the manifest"),
        authors: vec!["Jane <jane@example.com>".to_owned(), "Joe".to_owned()],
    };
    let page = generate_man_page(&config, Some(&package)).unwrap();
    assert_eq!(page.name, "server");
    assert_eq!(page.about, some("A server"));
    assert_eq!(page.description, some("Serves."));
    assert_eq!(
        page.authors,
        vec![
            Author { name: "Jane".to_owned(), email: some("jane@example.com") },
            Author { name: "Joe".to_owned(), email: None },
        ]
    );
    assert_eq!(
        page.options,
        vec![
            Opt {
                name: "CONFIG_FILE".to_owned(),
                long: "--conf-file".to_owned(),
                short: None,
                help: some("Loads configuration from the specified CONFIG_FILE."),
                default_value: None,
            },
            Opt {
                name: "LISTEN_PORT".to_owned(),
                long: "--listen-port".to_owned(),
                short: some("-p"),
                help: some("Port to listen on"),
                default_value: some("8080"),
            },
        ]
    );
    assert_eq!(
        page.flags,
        vec![
            Flag {
                long: "--no-defaults".to_owned(),
                short: None,
                help: some("Skip loading default configuration files."),
            },
            Flag { long: "--be_quiet".to_owned(), short: some("-q"), help: None },
            Flag { long: "--no-colour".to_owned(), short: None, help: None },
        ]
    );
    assert_eq!(
        page.envs,
        vec![
            Env {
                name: "srv_LISTEN_PORT".to_owned(),
                help: some("Port to listen on"),
                default_value: some("8080"),
            },
            Env { name: "srv_SECRET".to_owned(), help: None, default_value: None },
            Env { name: "srv_COLOUR".to_owned(), help: None, default_value: some("true") },
        ]
    );
    assert_eq!(generate_man_page(&config, None), Err(Error::MissingPackage));
}

#[test]
fn build_script_with_a_manual_page() {
    let source = || raw::Config {
        params: vec![param("foo", "u32")],
        switches: vec![],
        general: raw::General::default(),
        defaults: Defaults::default(),
        debconf: None,
    };
    let package = PackageInfo { name: "prog".to_owned(), description: None, authors: vec![] };
    let done =
        build_script_with_man("spec.toml", source(), Some("out".to_owned()), Some(&package)).unwrap();
    assert_eq!(done.man_file, "app.man");
    assert_eq!(done.page.name, "prog");
    assert_eq!(done.built.file_name, "configure_me_config.rs");
    assert_eq!(done.page.options.len(), 1);
    let refused = raw::Config { params: vec![param("0foo", "u32")], ..source() };
    assert!(matches!(
        build_script_with_man("spec.toml", refused, None, Some(&package)),
        Err(ScriptError::MissingOutDir)
    ));
    let refused = raw::Config { params: vec![param("0foo", "u32")], ..source() };
    assert!(matches!(
        build_script_with_man_written_to("spec.toml", refused, None, None, "prog.1".to_owned()),
        Err(ScriptError::Config(_))
    ));
    assert!(matches!(
        build_script_with_man_written_to("spec.toml", source(), None, None, "prog.1".to_owned()),
        Err(ScriptError::MissingOutDir)
    ));
    assert!(matches!(
        build_script_with_man_written_to(
            "spec.toml",
            source(),
            Some("out".to_owned()),
            None,
            "prog.1".to_owned()
        ),
        Err(ScriptError::Manifest(Error::MissingPackage))
    ));
    let done = build_script_with_man_written_to(
        "spec.toml",
        source(),
        Some("out".to_owned()),
        Some(&package),
        "prog.1".to_owned(),
    )
    .unwrap();
    assert_eq!(done.man_file, "prog.1");
}
