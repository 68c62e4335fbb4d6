use configure_me::assemble::{assemble, Assembled, FinalParam};
use configure_me::config::raw;
use configure_me::config::{Config, Defaults};
use configure_me::error::Error;
use configure_me::layer::{Accumulate, RawLayer};
use configure_me::scan::scan;
use configure_me::span::Spanned;
use configure_me::value::Value;

fn spanned<T>(value: T) -> Spanned<T> {
    Spanned::new(value, 0, 0)
}

fn param(name: &str, ty: &str) -> raw::Param {
    raw::Param {
        name: spanned(name.to_owned()),
        abbr: None,
        ty: ty.to_owned(),
        optional: None,
        default: None,
        doc: None,
        argument: None,
        env_var: None,
        convert_into: None,
        merge_fn: None,
        debconf_priority: None,
        debconf_default: None,
    }
}

fn switch(name: &str) -> raw::Switch {
    raw::Switch {
        name: spanned(name.to_owned()),
        abbr: None,
        default: None,
        doc: None,
        env_var: None,
        count: None,
        debconf_priority: None,
    }
}

fn with_prefix() -> raw::General {
    raw::General { env_prefix: Some("TEST_APP".to_owned()), ..raw::General::default() }
}

fn validated(params: Vec<raw::Param>, switches: Vec<raw::Switch>, general: raw::General) -> Config {
    raw::Config { params, switches, general, defaults: Defaults::default(), debconf: None }
        .validate()
        .expect("the specification is consistent")
}

fn short_switches() -> Config {
    let a = raw::Switch { abbr: Some(spanned('a')), doc: Some("test".to_owned()), ..switch("a") };
    let b = raw::Switch { abbr: Some(spanned('b')), ..switch("b") };
    let c = raw::Switch { abbr: Some(spanned('c')), count: Some(spanned(true)), ..switch("c") };
    let d = raw::Param {
        abbr: Some(spanned('d')),
        optional: Some(spanned(true)),
        ..param("d", "String")
    };
    let e = raw::Param {
        abbr: Some(spanned('e')),
        optional: Some(spanned(true)),
        ..param("e", "String")
    };
    let f = raw::Switch { abbr: Some(spanned('f')), ..switch("foo_bar") };
    validated(vec![d, e], vec![a, b, c, f], raw::General::default())
}

fn single_optional_param() -> Config {
    validated(vec![param("foo", "u32")], vec![], with_prefix())
}

fn single_mandatory_param() -> Config {
    let foo = raw::Param { optional: Some(spanned(false)), ..param("foo", "u32") };
    validated(vec![foo], vec![], with_prefix())
}

fn conf_files() -> Config {
    let general = raw::General {
        conf_file_param: Some(spanned("config".to_owned())),
        conf_dir_param: Some(spanned("conf_dir".to_owned())),
        ..with_prefix()
    };
    let foo = raw::Param { doc: Some("A foo".to_owned()), ..param("foo", "u32") };
    validated(vec![foo], vec![], general)
}

fn with_custom_merge() -> Config {
    let foo = raw::Param {
        merge_fn: Some("(|a: &mut u32, b: u32| *a += b)".to_owned()),
        ..param("foo", "u32")
    };
    let bar = raw::Param {
        merge_fn: Some("(|a: &mut String, b: String| a.push_str(&b))".to_owned()),
        ..param("bar", "String")
    };
    validated(vec![foo, bar], vec![], with_prefix())
}

fn tokens(args: &[&str]) -> Vec<String> {
    args.iter().map(|arg| (*arg).to_owned()).collect()
}

fn run(spec: &Config, args: &[&str], files: Vec<RawLayer>) -> Result<Assembled, Error> {
    assemble(&Accumulate, spec, scan(&Accumulate, spec, tokens(args), Vec::new()), files, &Vec::new())
}

fn file_with_foo(spec: &Config, foo: i128) -> RawLayer {
    let mut layer = RawLayer::empty(spec);
    layer.replace_param(0, Value::Integer(foo));
    layer
}

fn flag(assembled: &Assembled, index: usize) -> bool {
    assembled.config.switches[index] == Value::Boolean(true)
}

fn text(value: &str) -> FinalParam {
    FinalParam::Given(Value::Text(value.to_owned()))
}

fn number(value: i128) -> FinalParam {
    FinalParam::Given(Value::Integer(value))
}

#[test]
fn no_switch() {
    let cfg = run(&short_switches(), &["app"], vec![]).unwrap();
    assert!(cfg.remaining.is_empty());
    assert!(!flag(&cfg, 0));
    assert!(!flag(&cfg, 1));
    assert_eq!(cfg.config.switches[2], Value::Integer(0));
    assert_eq!(cfg.config.params[0], FinalParam::Absent);
}

#[test]
fn coalesced_single_switch() {
    let cfg = run(&short_switches(), &["app", "-a"], vec![]).unwrap();
    assert!(cfg.remaining.is_empty());
    assert!(flag(&cfg, 0));
    assert!(!flag(&cfg, 1));
    assert_eq!(cfg.config.switches[2], Value::Integer(0));
    assert_eq!(cfg.config.params[0], FinalParam::Absent);
}

#[test]
fn two_switches() {
    let cfg = run(&short_switches(), &["app", "-ab"], vec![]).unwrap();
    assert!(cfg.remaining.is_empty());
    assert!(flag(&cfg, 0));
    assert!(flag(&cfg, 1));
    assert_eq!(cfg.config.switches[2], Value::Integer(0));
    assert_eq!(cfg.config.params[0], FinalParam::Absent);
}

#[test]
fn three_switches() {
    let cfg = run(&short_switches(), &["app", "-abc"], vec![]).unwrap();
    assert!(cfg.remaining.is_empty());
    assert!(flag(&cfg, 0));
    assert!(flag(&cfg, 1));
    assert_eq!(cfg.config.switches[2], Value::Integer(1));
    assert_eq!(cfg.config.params[0], FinalParam::Absent);
}

#[test]
fn two_separate_switches() {
    let cfg = run(&short_switches(), &["app", "-a", "-b"], vec![]).unwrap();
    assert!(cfg.remaining.is_empty());
    assert!(flag(&cfg, 0));
    assert!(flag(&cfg, 1));
    assert_eq!(cfg.config.switches[2], Value::Integer(0));
    assert_eq!(cfg.config.params[0], FinalParam::Absent);
}

#[test]
fn two_groups() {
    let cfg = run(&short_switches(), &["app", "-ab", "-c"], vec![]).unwrap();
    assert!(cfg.remaining.is_empty());
    assert!(flag(&cfg, 0));
    assert!(flag(&cfg, 1));
    assert_eq!(cfg.config.switches[2], Value::Integer(1));
    assert_eq!(cfg.config.params[0], FinalParam::Absent);
}

#[test]
fn value_separate() {
    let cfg = run(&short_switches(), &["app", "-d", "42"], vec![]).unwrap();
    assert!(cfg.remaining.is_empty());
    assert!(!flag(&cfg, 0));
    assert!(!flag(&cfg, 1));
    assert_eq!(cfg.config.switches[2], Value::Integer(0));
    assert_eq!(cfg.config.params[0], text("42"));
}

#[test]
fn value_together() {
    let cfg = run(&short_switches(), &["app", "-d42"], vec![]).unwrap();
    assert!(cfg.remaining.is_empty());
    assert!(!flag(&cfg, 0));
    assert!(!flag(&cfg, 1));
    assert_eq!(cfg.config.switches[2], Value::Integer(0));
    assert_eq!(cfg.config.params[0], text("42"));
}

#[test]
fn value_coalesced_together() {
    let cfg = run(&short_switches(), &["app", "-ad42"], vec![]).unwrap();
    assert!(cfg.remaining.is_empty());
    assert!(flag(&cfg, 0));
    assert!(!flag(&cfg, 1));
    assert_eq!(cfg.config.switches[2], Value::Integer(0));
    assert_eq!(cfg.config.params[0], text("42"));
}

#[test]
fn value_coalesced_separate() {
    let cfg = run(&short_switches(), &["app", "-ad", "42"], vec![]).unwrap();
    assert!(cfg.remaining.is_empty());
    assert!(flag(&cfg, 0));
    assert!(!flag(&cfg, 1));
    assert_eq!(cfg.config.switches[2], Value::Integer(0));
    assert_eq!(cfg.config.params[0], text("42"));
}

#[test]
fn value_coalesced_separate_count2() {
    let cfg = run(&short_switches(), &["app", "-accd", "42"], vec![]).unwrap();
    assert!(cfg.remaining.is_empty());
    assert!(flag(&cfg, 0));
    assert!(!flag(&cfg, 1));
    assert_eq!(cfg.config.switches[2], Value::Integer(2));
    assert_eq!(cfg.config.params[0], text("42"));
}

#[test]
fn value_coalesced_separate_count3() {
    let cfg = run(&short_switches(), &["app", "-accd", "42", "-c"], vec![]).unwrap();
    assert!(cfg.remaining.is_empty());
    assert!(flag(&cfg, 0));
    assert!(!flag(&cfg, 1));
    assert_eq!(cfg.config.switches[2], Value::Integer(3));
    assert_eq!(cfg.config.params[0], text("42"));
}

#[test]
fn custom_args_custom_args() {
    let out = run(&single_optional_param(), &["custom_args", "--foo", "42"], vec![]).unwrap();
    assert_eq!(out.metadata.program_name.unwrap(), "custom_args");
    assert_eq!(out.config.params[0], number(42));
    assert!(out.remaining.is_empty());
}

#[test]
fn custom_args_with_one_remaining() {
    let out = run(
        &single_optional_param(),
        &["custom_args", "--foo", "42", "remaining_arg"],
        vec![],
    ).unwrap();
    assert_eq!(out.metadata.program_name.unwrap(), "custom_args");
    assert_eq!(out.config.params[0], number(42));
    assert_eq!(out.remaining, vec!["remaining_arg".to_owned()]);
}

#[test]
fn custom_args_with_two_remaining() {
    let out = run(
        &single_optional_param(),
        &["custom_args", "--foo", "42", "remaining_arg", "another_arg"],
        vec![],
    ).unwrap();
    assert_eq!(out.metadata.program_name.unwrap(), "custom_args");
    assert_eq!(out.config.params[0], number(42));
    assert_eq!(out.remaining, vec!["remaining_arg".to_owned(), "another_arg".to_owned()]);
}

#[test]
fn custom_args_with_two_dashes() {
    let out = run(&single_optional_param(), &["custom_args", "--", "--foo", "42"], vec![]).unwrap();
    assert_eq!(out.metadata.program_name.unwrap(), "custom_args");
    assert_eq!(out.config.params[0], FinalParam::Absent);
    assert_eq!(out.remaining, vec!["--foo".to_owned(), "42".to_owned()]);
}

#[test]
fn custom_args_with_two_dashes_foo_equals_val() {
    let out = run(&single_optional_param(), &["custom_args", "--", "--foo=42"], vec![]).unwrap();
    assert_eq!(out.metadata.program_name.unwrap(), "custom_args");
    assert_eq!(out.config.params[0], FinalParam::Absent);
    assert_eq!(out.remaining, vec!["--foo=42".to_owned()]);
}

#[test]
fn param_equals_value() {
    let out = run(&single_optional_param(), &["custom_args", "--foo=42"], vec![]).unwrap();
    assert_eq!(out.metadata.program_name.unwrap(), "custom_args");
    assert_eq!(out.config.params[0], number(42));
    assert!(out.remaining.is_empty());
}

#[test]
fn optional_program_name_custom_args() {
    let general = raw::General {
        program_name: Some(configure_me::span::Spanned::new("optional".to_owned(), 0, 0)),
        ..with_prefix()
    };
    let spec = validated(vec![], vec![], general);
    let out = run(&spec, &["custom_args"], vec![]).unwrap();
    assert_eq!(out.metadata.program_name.unwrap(), "custom_args");
}

#[test]
fn config_ordering() {
    let spec = conf_files();
    let empty = || RawLayer::empty(&spec);
    let fortytwo = || file_with_foo(&spec, 42);
    let fortyseven = || file_with_foo(&spec, 47);

    let out = run(&spec, &["test"], vec![empty(), empty()]).unwrap();
    assert_eq!(out.config.params[0], FinalParam::Absent);
    let out = run(&spec, &["test"], vec![empty(), fortytwo()]).unwrap();
    assert_eq!(out.config.params[0], number(42));
    let out = run(&spec, &["test"], vec![fortytwo(), empty()]).unwrap();
    assert_eq!(out.config.params[0], number(42));
    let out = run(&spec, &["test"], vec![fortytwo(), fortytwo()]).unwrap();
    assert_eq!(out.config.params[0], number(42));
    let out = run(&spec, &["test"], vec![fortytwo(), fortyseven()]).unwrap();
    assert_eq!(out.config.params[0], number(42));
    let out = run(&spec, &["test"], vec![fortyseven(), fortytwo()]).unwrap();
    assert_eq!(out.config.params[0], number(47));

    let out = run(&spec, &["test", "--foo=42"], vec![]).unwrap();
    assert_eq!(out.config.params[0], number(42));
    let out = run(&spec, &["test", "--foo=42"], vec![fortyseven()]).unwrap();
    assert_eq!(out.config.params[0], number(42));
    let scanned = scan(&Accumulate, &spec,
        tokens(&["test", "--foo=50", "--config", "fortytwo.toml"]),
        vec![vec![fortytwo()]],
    );
    let out = assemble(&Accumulate, &spec, scanned, vec![fortyseven()], &Vec::new()).unwrap();
    assert_eq!(out.config.params[0], number(42));
}

#[test]
fn custom_merge_fn_custom_merge_fn() {
    let spec = with_custom_merge();
    let fortytwo = file_with_foo(&spec, 42);
    let mut bar_hello = RawLayer::empty(&spec);
    bar_hello.replace_param(1, Value::Text("Hello".to_owned()));

    let out = run(&spec, &["test", "--foo=42"], vec![]).unwrap();
    assert_eq!(out.config.params[0], number(42));
    let out = run(&spec, &["test", "--foo=42", "--foo=5"], vec![]).unwrap();
    assert_eq!(out.config.params[0], number(47));
    let out = run(&spec, &["test", "--foo=5"], vec![fortytwo]).unwrap();
    assert_eq!(out.config.params[0], number(47));
    let out = run(&spec, &["test", "--bar=Hello"], vec![]).unwrap();
    assert_eq!(out.config.params[1], text("Hello"));
    let out = run(&spec, &["test", "--bar=Hello", "--bar= world"], vec![]).unwrap();
    assert_eq!(out.config.params[1], text("Hello world"));
    let out = run(&spec, &["test", "--bar= world"], vec![bar_hello]).unwrap();
    assert_eq!(out.config.params[1], text("Hello world"));
}

#[test]
fn no_args() {
    match run(&single_mandatory_param(), &["display"], vec![]) {
        Ok(_) => panic!("This shouldn't succeed"),
        Err(err) => assert_eq!(
            err.to_string(),
            "Invalid configuration: Configuration parameter 'foo' not specified."
        ),
    }
}

#[test]
fn missing_arg() {
    match run(&single_mandatory_param(), &["display", "--foo"], vec![]) {
        Ok(_) => panic!("This shouldn't succeed"),
        Err(err) => assert_eq!(err.to_string(), "A value to argument '--foo' is missing."),
    }
}

#[test]
fn unknown_arg() {
    match run(&single_mandatory_param(), &["display", "--bar"], vec![]) {
        Ok(_) => panic!("This shouldn't succeed"),
        Err(err) => assert_eq!(err.to_string(), "An unknown argument '--bar' was specified."),
    }
}
