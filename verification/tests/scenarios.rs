use configure_me::assemble::{assemble, FinalParam};
use configure_me::config::raw;
use configure_me::config::{Config, Defaults};
use configure_me::debconf::visitor::{generate_if_requested, undocumented};
use configure_me::debconf::{ConfigMode, DebConfig, PostinstMode, Priority};
use configure_me::layer::{Accumulate, RawLayer};
use configure_me::scan::scan;
use configure_me::span::Spanned;
use configure_me::value::Value;

fn spanned<T>(value: T) -> Spanned<T> {
    Spanned::new(value, 0, 0)
}

fn param(name: &str, ty: &str) -> raw::Param {
    raw::Param {
        name: spanned(name.to_owned()),
        abbr: None,
        ty: ty.to_owned(),
        optional: None,
        default: None,
        doc: None,
        argument: None,
        env_var: None,
        convert_into: None,
        merge_fn: None,
        debconf_priority: None,
        debconf_default: None,
    }
}

fn switch(name: &str) -> raw::Switch {
    raw::Switch {
        name: spanned(name.to_owned()),
        abbr: None,
        default: None,
        doc: None,
        env_var: None,
        count: None,
        debconf_priority: None,
    }
}

fn validated(params: Vec<raw::Param>, switches: Vec<raw::Switch>, general: raw::General) -> Config {
    raw::Config { params, switches, general, defaults: Defaults::default(), debconf: None }
        .validate()
        .expect("the specification is consistent")
}

fn tokens(args: &[&str]) -> Vec<String> {
    args.iter().map(|arg| (*arg).to_owned()).collect()
}

fn given(value: i128) -> FinalParam {
    FinalParam::Given(Value::Integer(value))
}

#[test]
fn short_forms_of_a_value_agree() {
    let spec = validated(
        vec![raw::Param { abbr: Some(spanned('d')), ..param("d", "String") }],
        vec![
            raw::Switch { abbr: Some(spanned('a')), ..switch("a") },
            raw::Switch { abbr: Some(spanned('c')), count: Some(spanned(true)), ..switch("c") },
        ],
        raw::General::default(),
    );
    let d = |args: &[&str]| scan(&Accumulate, &spec, tokens(args), vec![]).unwrap().layer;
    let expected = Value::Text("42".to_owned());
    assert_eq!(d(&["app", "-d", "42"]).param(0), Some(&expected));
    assert_eq!(d(&["app", "-d42"]).param(0), Some(&expected));
    assert_eq!(d(&["app", "-ad42"]).param(0), Some(&expected));
    let layer = d(&["app", "-accd", "42"]);
    assert_eq!(layer.param(0), Some(&expected));
    assert_eq!(layer.switch(1), Some(&Value::Integer(2)));
}

#[test]
fn the_first_default_file_wins() {
    let spec = validated(vec![param("foo", "u32")], vec![], raw::General::default());
    let file = |foo: i128| {
        let mut layer = RawLayer::empty(&spec);
        layer.replace_param(0, Value::Integer(foo));
        layer
    };
    let foo = |files: Vec<RawLayer>| {
        let scanned = scan(&Accumulate, &spec, tokens(&["app"]), vec![]);
        assemble(&Accumulate, &spec, scanned, files, &vec![]).unwrap().config.params.remove(0)
    };
    assert_eq!(foo(vec![file(47), file(42)]), given(47));
    assert_eq!(foo(vec![file(42), file(47)]), given(42));
}

#[test]
fn a_file_named_behind_a_flag_outweighs_the_flag() {
    let general = raw::General {
        conf_file_param: Some(spanned("config".to_owned())),
        ..raw::General::default()
    };
    let spec = validated(vec![param("foo", "u32")], vec![], general);
    let mut fortytwo = RawLayer::empty(&spec);
    fortytwo.replace_param(0, Value::Integer(42));
    let scanned = scan(&Accumulate, &spec,
        tokens(&["app", "--foo=50", "--config", "fortytwo.toml"]),
        vec![vec![fortytwo]],
    );
    let out = assemble(&Accumulate, &spec, scanned, vec![], &vec![]).unwrap();
    assert_eq!(out.config.params[0], given(42));
}

#[test]
fn what_follows_two_dashes_is_handed_on() {
    let spec = validated(vec![param("foo", "u32")], vec![], raw::General::default());
    let scanned = scan(&Accumulate, &spec, tokens(&["app", "--foo=42", "--", "--foo", "99"]), vec![]);
    let out = assemble(&Accumulate, &spec, scanned, vec![], &vec![]).unwrap();
    assert_eq!(out.config.params[0], given(42));
    assert_eq!(out.remaining, tokens(&["--foo", "99"]));
}

#[test]
fn a_combinator_adds_what_is_given_twice() {
    let foo = raw::Param { merge_fn: Some("add".to_owned()), ..param("foo", "u32") };
    let spec = validated(vec![foo], vec![], raw::General::default());
    let scanned = scan(&Accumulate, &spec, tokens(&["app", "--foo=5", "--foo=37"]), vec![]);
    let out = assemble(&Accumulate, &spec, scanned, vec![], &vec![]).unwrap();
    assert_eq!(out.config.params[0], given(42));

    let spec = validated(vec![param("foo", "u32")], vec![], raw::General::default());
    let scanned = scan(&Accumulate, &spec, tokens(&["app", "--foo=5", "--foo=37"]), vec![]);
    let out = assemble(&Accumulate, &spec, scanned, vec![], &vec![]).unwrap();
    assert_eq!(out.config.params[0], given(37));
}

#[test]
fn a_combinator_holds_for_the_short_form_too() {
    let foo = raw::Param {
        abbr: Some(spanned('f')),
        merge_fn: Some("(|a: &mut u32, b: u32| *a += b)".to_owned()),
        ..param("foo", "u32")
    };
    let spec = validated(vec![foo], vec![], raw::General::default());
    let foo = |args: &[&str]| {
        let scanned = scan(&Accumulate, &spec, tokens(args), vec![]);
        assemble(&Accumulate, &spec, scanned, vec![], &vec![]).unwrap().config.params.remove(0)
    };
    assert_eq!(foo(&["app", "-f5", "-f37"]), given(42));
    assert_eq!(foo(&["app", "-f", "5", "--foo=37"]), given(42));
    assert_eq!(foo(&["app", "--foo", "5", "-f37"]), given(42));
    let plain = raw::Param { abbr: Some(spanned('f')), ..param("foo", "u32") };
    let spec = validated(vec![plain], vec![], raw::General::default());
    let scanned = scan(&Accumulate, &spec, tokens(&["app", "-f5", "-f37"]), vec![]);
    assert_eq!(scanned.unwrap().layer.param(0), Some(&Value::Integer(37)));
}

fn packaged(postinst: PostinstMode, config: ConfigMode) -> Config {
    let port = raw::Param {
        doc: Some("Port to listen on".to_owned()),
        debconf_priority: Some(Priority::High),
        debconf_default: Some("8080".to_owned()),
        ..param("port", "u16")
    };
    let name = raw::Param {
        doc: Some("Name of the server".to_owned()),
        debconf_priority: Some(Priority::Low),
        ..param("server_name", "String")
    };
    let hidden = param("hidden", "String");
    let verbose = raw::Switch {
        doc: Some("Say more".to_owned()),
        count: Some(spanned(true)),
        debconf_priority: Some(Priority::Medium),
        ..switch("verbose")
    };
    let fast = raw::Switch {
        doc: Some("Be fast".to_owned()),
        default: Some(spanned(true)),
        debconf_priority: Some(Priority::Critical),
        ..switch("fast")
    };
    raw::Config {
        params: vec![port, name, hidden],
        switches: vec![verbose, fast],
        general: raw::General::default(),
        defaults: Defaults::default(),
        debconf: Some(DebConfig { package_name: "server".to_owned(), config, postinst }),
    }
    .validate()
    .unwrap()
}

#[test]
fn files_of_a_debian_package() {
    let spec = packaged(
        PostinstMode::WithBoilerplate {
            conf_file: "/etc/server.conf".to_owned(),
            conf_umask: None,
            conf_owner: Some("daemon".to_owned()),
            conf_group: None,
        },
        ConfigMode::WithBoilerplate,
    );
    assert_eq!(undocumented(&spec), None);
    assert!(generate_if_requested(&spec, &None).is_none());
    let files = generate_if_requested(&spec, &Some("debian".to_owned())).unwrap();
    assert_eq!(
        files.templates,
        "Template: server/port\nType: string\nDefault: 8080\nDescription: Port to listen on\n\nTemplate: server/server_name\nType: string\nDescription: Name of the server\n\nTemplate: server/verbose\nType: string\nDefault: 0\nDescription: Say more\n\nTemplate: server/fast\nType: bool\nDefault: true\nDescription: Be fast\n\n"
    );
    assert_eq!(
        files.config,
        "#!/bin/bash\n\n. /usr/share/debconf/confmodule\n\ndb_input high server/port || true\ndb_input low server/server_name || true\ndb_input medium server/verbose || true\ndb_input critical server/fast || true\n\ndb_go\n"
    );
    assert_eq!(
        files.postinst,
        "#!/bin/bash\n\n. /usr/share/debconf/confmodule\n\nCONF_FILE=\"/etc/server.conf\"\nOLD_UMASK=`umask`\numask 0077\necho '# Autogenereated - do NOT modify!' > \"$CONF_FILE\"\necho '# Use dpkg-reconfigure to change the configuration' >> \"$CONF_FILE\"\nchown daemon \"$CONF_FILE\"\ndb_get server/port\necho port=\"$RET\" >> \"$CONF_FILE\"\ndb_get server/server_name\necho \"$RET\" | sed -e 's/\"/\\\"/g' -e 's/^/server_name=\"/' -e 's/$/\"/' >> \"$CONF_FILE\"\ndb_get server/verbose\necho verbose=\"$RET\" >> \"$CONF_FILE\"\ndb_get server/fast\necho fast=\"$RET\" >> \"$CONF_FILE\"\numask \"$OLD_UMASK\"\n\n#DEBHELPER#\n"
    );
    let spec = packaged(PostinstMode::Lib, ConfigMode::Lib);
    let files = generate_if_requested(&spec, &Some("debian".to_owned())).unwrap();
    assert_eq!(
        files.config,
        "db_input high server/port || true\ndb_input low server/server_name || true\ndb_input medium server/verbose || true\ndb_input critical server/fast || true\n"
    );
    assert!(files.postinst.starts_with("db_get server/port\n"));
}

#[test]
fn a_question_without_words_is_found() {
    let silent = raw::Param { debconf_priority: Some(Priority::High), ..param("silent", "u16") };
    let spec = raw::Config {
        params: vec![param("fine", "u16"), silent],
        switches: vec![],
        general: raw::General::default(),
        defaults: Defaults::default(),
        debconf: None,
    }
    .validate()
    .unwrap();
    assert_eq!(undocumented(&spec), Some("silent".to_owned()));
}

/// Combinators of a program that keeps the larger of two numbers for a
/// field that declares `max`, and adds up for any other.
struct OfTheProgram;

impl configure_me::layer::Combinators for OfTheProgram {
    fn combined(
        &self,
        _merge_fn: vstd::seq::Seq<char>,
        _kind: configure_me::value::ValueKind,
        _old: configure_me::value::ValueView,
        _new: configure_me::value::ValueView,
    ) -> configure_me::value::ValueView {
        unreachable!("stands for `combine` in contracts and is never run")
    }

    fn combine(
        &self,
        merge_fn: &str,
        kind: configure_me::value::ValueKind,
        old: &Value,
        new: Value,
    ) -> Value {
        match (merge_fn, old, &new) {
            ("max", Value::Integer(a), Value::Integer(b)) => Value::Integer(*a.max(b)),
            _ => configure_me::layer::accumulate(kind, old, new),
        }
    }
}

#[test]
fn the_declared_combinator_is_the_one_that_is_used() {
    let largest = raw::Param { merge_fn: Some("max".to_owned()), ..param("largest", "u32") };
    let total = raw::Param { merge_fn: Some("add".to_owned()), ..param("total", "u32") };
    let spec = validated(vec![largest, total], vec![], raw::General::default());
    let args = tokens(&["app", "--largest=5", "--largest=37", "--largest=7", "--total=5", "--total=37"]);
    let scanned = scan(&OfTheProgram, &spec, args, vec![]);
    let out = assemble(&OfTheProgram, &spec, scanned, vec![], &vec![]).unwrap();
    assert_eq!(out.config.params[0], given(37));
    assert_eq!(out.config.params[1], given(42));
}
