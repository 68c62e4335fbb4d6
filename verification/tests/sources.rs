use configure_me::assemble::{assemble, finalize, fold_files, FinalParam, Scanned};
use configure_me::config::raw;
use configure_me::config::{Config, Defaults, ProgramName};
use configure_me::debconf::{ConfigMode, Priority, Umask, UmaskDigit, UmaskError};
use configure_me::document::{
    is_shallow, layer_of_entries, load_layer, DocValue, DocumentError,
};
use configure_me::env::{look_up, merge_env, upper_case_of, variable_name_of};
use configure_me::error::{ArgParseError, EnvParseError, Error};
use configure_me::layer::{accumulate, Accumulate, RawLayer};
use configure_me::manifest::{jobs, ConfigureMeMetadata, Metadata, Package, SpecificationPaths};
use configure_me::scan::{scan, Scanner, Step};
use configure_me::script::{build_script, build_script_auto, default_out_file};
use configure_me::span::Spanned;
use configure_me::usage::usage;
use configure_me::value::{parse_integer, parse_value, value_kind, IntegerType, Value, ValueKind};

fn spanned<T>(value: T) -> Spanned<T> {
    Spanned::new(value, 0, 0)
}

fn param(name: &str, ty: &str) -> raw::Param {
    raw::Param {
        name: spanned(name.to_owned()),
        abbr: None,
        ty: ty.to_owned(),
        optional: None,
        default: None,
        doc: None,
        argument: None,
        env_var: None,
        convert_into: None,
        merge_fn: None,
        debconf_priority: None,
        debconf_default: None,
    }
}

fn switch(name: &str) -> raw::Switch {
    raw::Switch {
        name: spanned(name.to_owned()),
        abbr: None,
        default: None,
        doc: None,
        env_var: None,
        count: None,
        debconf_priority: None,
    }
}

fn with_prefix() -> raw::General {
    raw::General { env_prefix: Some("TEST_APP".to_owned()), ..raw::General::default() }
}

fn raw_config(params: Vec<raw::Param>, switches: Vec<raw::Switch>, general: raw::General) -> raw::Config {
    raw::Config { params, switches, general, defaults: Defaults::default(), debconf: None }
}

fn validated(params: Vec<raw::Param>, switches: Vec<raw::Switch>, general: raw::General) -> Config {
    raw_config(params, switches, general).validate().expect("the specification is consistent")
}

fn multiple_params() -> Config {
    let foo = raw::Param {
        default: Some(spanned("42".to_owned())),
        doc: Some("A foo".to_owned()),
        ..param("foo", "u32")
    };
    let bar = raw::Param {
        optional: Some(spanned(true)),
        doc: Some("A very, very, very, very, very, very, very, very, very, very, very, very, very, very long documentation...".to_owned()),
        ..param("bar", "String")
    };
    let baz = raw::Param {
        optional: Some(spanned(false)),
        doc: Some("A much, much, much, much, much, much, much, much, much, much, much, much, much, much, much, much, much, much, much, much, much, much, much, much, much, much, much, much, much, much, much, much, much, much, much, much, much, much, much, much, much, much longer documentation...".to_owned()),
        ..param("baz", "String")
    };
    let verbose = switch("verbose");
    let fast = raw::Switch {
        default: Some(spanned(true)),
        doc: Some("Determines whether to mine bitcoins fast or slowly".to_owned()),
        ..switch("fast")
    };
    validated(vec![foo, bar, baz], vec![verbose, fast], with_prefix())
}

fn short_switches() -> Config {
    let a = raw::Switch { abbr: Some(spanned('a')), doc: Some("test".to_owned()), ..switch("a") };
    let b = raw::Switch { abbr: Some(spanned('b')), ..switch("b") };
    let c = raw::Switch { abbr: Some(spanned('c')), count: Some(spanned(true)), ..switch("c") };
    let d = raw::Param {
        abbr: Some(spanned('d')),
        optional: Some(spanned(true)),
        ..param("d", "String")
    };
    let e = raw::Param {
        abbr: Some(spanned('e')),
        optional: Some(spanned(true)),
        ..param("e", "String")
    };
    let f = raw::Switch { abbr: Some(spanned('f')), ..switch("foo_bar") };
    validated(vec![d, e], vec![a, b, c, f], raw::General::default())
}

fn conf_files() -> Config {
    let general = raw::General {
        conf_file_param: Some(spanned("config".to_owned())),
        conf_dir_param: Some(spanned("conf_dir".to_owned())),
        skip_default_conf_files_switch: Some(spanned("skip_defaults".to_owned())),
        ..with_prefix()
    };
    let foo = raw::Param { doc: Some("A foo".to_owned()), ..param("foo", "u32") };
    validated(vec![foo], vec![], general)
}

fn tokens(args: &[&str]) -> Vec<String> {
    args.iter().map(|arg| (*arg).to_owned()).collect()
}

fn environment(pairs: &[(&str, &str)]) -> Vec<(String, String)> {
    pairs.iter().map(|(name, value)| ((*name).to_owned(), (*value).to_owned())).collect()
}

const HELP_MULTIPLE_PARAMS: &str = "Usage: miner [--foo FOO] [--bar BAR] [--baz BAZ] [--verbose] [--no-fast]\n\nArguments:\n        --foo        A foo\n        --bar        A very, very, very, very, very, very, very, very, very, \n                     very, very, very, very, very long documentation...\n        --baz        A much, much, much, much, much, much, much, much, much, \n                     much, much, much, much, much, much, much, much, much, much,\n                     much, much, much, much, much, much, much, much, much, much,\n                     much, much, much, much, much, much, much, much, much, much,\n                     much, much, much longer documentation...\n        --no-fast    Determines whether to mine bitcoins fast or slowly";

#[test]
fn usage_of_multiple_params() {
    assert_eq!(usage(&multiple_params(), "miner"), HELP_MULTIPLE_PARAMS);
}

#[test]
fn usage_of_short_switches() {
    assert_eq!(
        usage(&short_switches(), "app"),
        "Usage: app [-d D|--d D] [-e E|--e E] [-a|--a] [-b|--b] [-c|--c ...] [-f|--foo-bar]\n\nArguments:\n        -a, --a    test"
    );
}

#[test]
fn usage_of_conf_files() {
    let general = raw::General {
        conf_file_param: Some(spanned("config".to_owned())),
        conf_dir_param: Some(spanned("conf_dir".to_owned())),
        ..with_prefix()
    };
    let foo = raw::Param { doc: Some("A foo".to_owned()), ..param("foo", "u32") };
    let spec = validated(vec![foo], vec![], general);
    assert_eq!(
        usage(&spec, "prog"),
        "Usage: prog [--config CONF_FILE] [--conf-dir CONF_DIR] [--foo FOO]\n\nArguments:\n        --config      Load configuration from this file.\n        --conf-dir    Load configuration from files in this directory.\n        --foo         A foo"
    );
}

#[test]
fn usage_without_room_lists_every_argument() {
    let params = vec![
        param("a_rather_long_parameter_name", "u32"),
        raw::Param { abbr: Some(spanned('x')), ..param("another_long_parameter_name", "u32") },
    ];
    let switches = vec![raw::Switch { default: Some(spanned(true)), ..switch("colour") }];
    let spec = validated(params, switches, raw::General::default());
    assert_eq!(
        usage(&spec, "prog"),
        "Usage: prog [ARGUMENTS...]\n\nArguments:\n        --a-rather-long-parameter-name\n\n        -x, --another-long-parameter-name\nno-colour\n"
    );
}

#[test]
fn help_is_answered_with_the_usage() {
    let spec = multiple_params();
    match scan(&Accumulate, &spec, tokens(&["miner", "--help"]), vec![]) {
        Err(ArgParseError::HelpRequested(text)) => assert_eq!(text, HELP_MULTIPLE_PARAMS),
        other => panic!("unexpected outcome {:?}", other),
    }
    // baz has to be given and is not: help is answered all the same
    let error = assemble(&Accumulate, &spec, scan(&Accumulate, &spec, tokens(&["miner", "-h"]), vec![]), vec![], &vec![])
        .unwrap_err();
    assert!(error.is_help());
    assert_eq!(error.to_string(), HELP_MULTIPLE_PARAMS);
}

#[test]
fn help_in_a_group_leaves_what_was_read() {
    let spec = short_switches();
    let mut scanner = Scanner::new(&spec, tokens(&["app", "-a", "-bh", "-c"]));
    match scanner.advance(&Accumulate, &spec) {
        Step::Failed(ArgParseError::HelpRequested(_)) => {},
        other => panic!("unexpected step {:?}", other),
    }
    assert_eq!(scanner.layer().switch(0), Some(&Value::Boolean(true)));
    assert_eq!(scanner.layer().switch(1), None);
    assert_eq!(scanner.layer().switch(2), None);
}

#[test]
fn positional_tokens_end_the_options() {
    let spec = short_switches();
    let scanned = scan(&Accumulate, &spec, tokens(&["app", "-a", "file", "-b", "--", "-c"]), vec![]).unwrap();
    assert_eq!(scanned.remaining, tokens(&["file", "-b", "--", "-c"]));
    assert_eq!(scanned.layer.switch(0), Some(&Value::Boolean(true)));
    assert_eq!(scanned.layer.switch(1), None);
    let scanned = scan(&Accumulate, &spec, tokens(&["app", "-"]), vec![]).unwrap();
    assert_eq!(scanned.remaining, tokens(&["-"]));
    let scanned = scan(&Accumulate, &spec, vec![], vec![]).unwrap();
    assert_eq!(scanned.program_name, None);
    assert!(scanned.remaining.is_empty());
}

#[test]
fn errors_of_the_command_line() {
    let spec = short_switches();
    let error = |args: &[&str]| scan(&Accumulate, &spec, tokens(args), vec![]).unwrap_err().to_string();
    assert_eq!(error(&["app", "-x"]), "An unknown argument '-x' was specified.");
    assert_eq!(error(&["app", "-ax"]), "An unknown argument '-x' was specified.");
    assert_eq!(error(&["app", "--nope"]), "An unknown argument '--nope' was specified.");
    assert_eq!(error(&["app", "--d"]), "A value to argument '--d' is missing.");
    assert_eq!(error(&["app", "-ad"]), "A value to argument '-d' is missing.");
    assert_eq!(error(&["app", "--a=1"]), "An unknown argument '--a=1' was specified.");
}

#[test]
fn a_value_that_is_none_of_its_kind() {
    let spec = validated(
        vec![
            raw::Param { abbr: Some(spanned('n')), ..param("number", "u8") },
            param("signed", "i8"),
            param("truth", "bool"),
        ],
        vec![],
        raw::General::default(),
    );
    let error = |args: &[&str]| scan(&Accumulate, &spec, tokens(args), vec![]).unwrap_err().to_string();
    assert_eq!(
        error(&["app", "--number", "fortytwo"]),
        "Failed to parse argument '--number': invalid digit found in string.\n\nHint: the value must be a non-negative integer up to 255."
    );
    assert_eq!(
        error(&["app", "--number=256"]),
        "Failed to parse argument '--number': number too large to fit in target type.\n\nHint: the value must be a non-negative integer up to 255."
    );
    assert_eq!(
        error(&["app", "-n", ""]),
        "Failed to parse argument '--number': cannot parse integer from empty string.\n\nHint: the value must be a non-negative integer up to 255."
    );
    assert_eq!(
        error(&["app", "--signed=-129"]),
        "Failed to parse argument '--signed': number too small to fit in target type.\n\nHint: the value must be an integer at least -128 and up to 127."
    );
    assert_eq!(
        error(&["app", "--truth=yes"]),
        "Failed to parse argument '--truth': provided string was not `true` or `false`.\n\nHint: the value must be a boolean (true or false)."
    );
    let scanned = scan(&Accumulate, &spec, tokens(&["app", "-n255", "--signed=-128", "--truth", "true"]), vec![])
        .unwrap();
    assert_eq!(scanned.layer.param(0), Some(&Value::Integer(255)));
    assert_eq!(scanned.layer.param(1), Some(&Value::Integer(-128)));
    assert_eq!(scanned.layer.param(2), Some(&Value::Boolean(true)));
}

#[test]
fn numbers_are_read_as_rust_reads_them() {
    let read = |text: &str, ty: IntegerType| parse_integer(text, ty);
    let refused = |words: &str| Err(words.to_owned());
    let empty = "cannot parse integer from empty string";
    let invalid = "invalid digit found in string";
    let too_large = "number too large to fit in target type";
    let too_small = "number too small to fit in target type";
    assert_eq!(read("42", IntegerType::U32), Ok(42));
    assert_eq!(read("+42", IntegerType::U32), Ok(42));
    assert_eq!(read("0042", IntegerType::U8), Ok(42));
    assert_eq!(read("-0", IntegerType::I8), Ok(0));
    assert_eq!(read("-0", IntegerType::U8), refused(invalid));
    assert_eq!(read("-", IntegerType::I32), refused(invalid));
    assert_eq!(read("+", IntegerType::U32), refused(invalid));
    assert_eq!(read("", IntegerType::U32), refused(empty));
    assert_eq!(read("4 2", IntegerType::U32), refused(invalid));
    assert_eq!(read("999x", IntegerType::U8), refused(too_large));
    assert_eq!(read("99x", IntegerType::U8), refused(invalid));
    assert_eq!(read("65535", IntegerType::U16), Ok(65535));
    assert_eq!(read("65536", IntegerType::U16), refused(too_large));
    assert_eq!(read("18446744073709551615", IntegerType::U64), Ok(18446744073709551615));
    assert_eq!(read("18446744073709551616", IntegerType::U64), refused(too_large));
    assert_eq!(read("-32769", IntegerType::I16), refused(too_small));
    assert_eq!(read("-2147483648", IntegerType::I32), Ok(-2147483648));
    assert_eq!(read("-9223372036854775808", IntegerType::I64), Ok(-9223372036854775808));
    assert_eq!(read("-9223372036854775809", IntegerType::I64), refused(too_small));
    assert_eq!(read("４２", IntegerType::U32), refused(invalid));
    assert_eq!(
        parse_value(ValueKind::Boolean, "yes".to_owned()),
        Err("provided string was not `true` or `false`".to_owned())
    );
    for (ty, words) in [
        (IntegerType::U8, "a non-negative integer up to 255"),
        (IntegerType::U16, "a non-negative integer up to 65535"),
        (IntegerType::U32, "a non-negative integer up to 4294967295"),
        (IntegerType::U64, "a non-negative integer up to 18446744073709551615"),
        (IntegerType::I8, "an integer at least -128 and up to 127"),
        (IntegerType::I32, "an integer at least -2147483648 and up to 2147483647"),
        (
            IntegerType::I64,
            "an integer at least -9223372036854775808 and up to 9223372036854775807",
        ),
    ] {
        assert_eq!(ValueKind::Integer(ty).describe(), words);
    }
    assert_eq!(ValueKind::Boolean.describe(), "a boolean (true or false)");
    assert_eq!(value_kind("u16"), ValueKind::Integer(IntegerType::U16));
    assert_eq!(value_kind("bool"), ValueKind::Boolean);
    assert_eq!(value_kind("::std::path::PathBuf"), ValueKind::Text);
    assert_eq!(
        parse_value(ValueKind::Text, "as it stands".to_owned()),
        Ok(Value::Text("as it stands".to_owned()))
    );
    assert_eq!(parse_value(ValueKind::Boolean, "false".to_owned()), Ok(Value::Boolean(false)));
    assert_eq!(
        ValueKind::Integer(IntegerType::I16).describe(),
        "an integer at least -32768 and up to 32767"
    );
    assert_eq!(ValueKind::Text.describe(), "a UTF-8 encoded string");
}

#[test]
fn combinators() {
    let u8_kind = ValueKind::Integer(IntegerType::U8);
    assert_eq!(accumulate(u8_kind, &Value::Integer(5), Value::Integer(37)), Value::Integer(42));
    assert_eq!(accumulate(u8_kind, &Value::Integer(200), Value::Integer(100)), Value::Integer(255));
    assert_eq!(
        accumulate(ValueKind::Text, &Value::Text("Hello".to_owned()), Value::Text(" world".to_owned())),
        Value::Text("Hello world".to_owned())
    );
    assert_eq!(
        accumulate(ValueKind::Boolean, &Value::Boolean(true), Value::Boolean(false)),
        Value::Boolean(false)
    );
}

#[test]
fn merging_layers() {
    let spec = validated(
        vec![
            param("plain", "u32"),
            raw::Param { merge_fn: Some("add".to_owned()), ..param("summed", "u32") },
        ],
        vec![switch("flag")],
        raw::General::default(),
    );
    let mut acc = RawLayer::empty(&spec);
    acc.replace_param(0, Value::Integer(1));
    acc.replace_param(1, Value::Integer(5));
    let mut incoming = RawLayer::empty(&spec);
    incoming.replace_param(0, Value::Integer(2));
    incoming.replace_param(1, Value::Integer(37));
    incoming.set_switch(0, Value::Boolean(true));
    acc.merge_in(&Accumulate, &spec, incoming);
    assert_eq!(acc.param(0), Some(&Value::Integer(2)));
    assert_eq!(acc.param(1), Some(&Value::Integer(42)));
    assert_eq!(acc.switch(0), Some(&Value::Boolean(true)));
    let unchanged = acc.duplicate();
    acc.merge_in(&Accumulate, &spec, RawLayer::empty(&spec));
    assert_eq!(acc.params, unchanged.params);
    assert_eq!(acc.switches, unchanged.switches);
}

#[test]
fn names_of_environment_variables() {
    let spec = multiple_params();
    assert_eq!(variable_name_of(&spec.general.env_prefix, &spec.params[0].name), "TEST_APP_FOO");
    assert_eq!(variable_name_of(&None, &spec.switches[1].name), "FAST");
    assert_eq!(upper_case_of("straße_app"), "STRASSE_APP");
    let env = environment(&[("A", "1"), ("B", "2"), ("A", "3")]);
    assert_eq!(look_up(&env, "A"), Some("1".to_owned()));
    assert_eq!(look_up(&env, "C"), None);
}

#[test]
fn the_environment_overlays_the_files() {
    let spec = multiple_params();
    let mut files = RawLayer::empty(&spec);
    files.replace_param(0, Value::Integer(1));
    files.replace_param(1, Value::Text("from file".to_owned()));
    let env = environment(&[
        ("TEST_APP_FOO", "47"),
        ("TEST_APP_VERBOSE", "1"),
        ("TEST_APP_FAST", "false"),
        ("FOO", "13"),
    ]);
    let layer = merge_env(&Accumulate, files, &spec, &env).unwrap();
    assert_eq!(layer.param(0), Some(&Value::Integer(47)));
    assert_eq!(layer.param(1), Some(&Value::Text("from file".to_owned())));
    assert_eq!(layer.param(2), None);
    assert_eq!(layer.switch(0), Some(&Value::Boolean(true)));
    assert_eq!(layer.switch(1), Some(&Value::Boolean(false)));
}

#[test]
fn errors_of_the_environment() {
    let spec = validated(
        vec![param("foo", "u32")],
        vec![switch("verbose"), raw::Switch { count: Some(spanned(true)), ..switch("level") }],
        with_prefix(),
    );
    let fails = |pairs: &[(&str, &str)]| {
        merge_env(&Accumulate, RawLayer::empty(&spec), &spec, &environment(pairs)).unwrap_err()
    };
    let error = fails(&[("TEST_APP_VERBOSE", "maybe"), ("TEST_APP_FOO", "x")]);
    assert!(matches!(error, EnvParseError::Field { .. }));
    assert_eq!(
        error.to_string(),
        "Failed to parse environment variable 'TEST_APP_FOO': invalid digit found in string.\n\nHint: the value must be a non-negative integer up to 4294967295."
    );
    let error = fails(&[("TEST_APP_VERBOSE", "may\"be")]);
    assert_eq!(
        error.to_string(),
        "Invalid value '\"may\\\"be\"' for 'TEST_APP_VERBOSE'.\n\nHint: the allowed values are 0, false, 1, true."
    );
    let error = fails(&[("TEST_APP_LEVEL", "-1")]);
    assert_eq!(
        error.to_string(),
        "Invalid value for 'TEST_APP_LEVEL': invalid digit found in string.\n\nHint: the value must be a non-negative integer up to 4294967295."
    );
    let layer = merge_env(&Accumulate, RawLayer::empty(&spec), &spec, &environment(&[("TEST_APP_LEVEL", "3")]))
        .unwrap();
    assert_eq!(layer.switch(1), Some(&Value::Integer(3)));
}

#[test]
fn finalizing() {
    let spec = multiple_params();
    let mut layer = RawLayer::empty(&spec);
    layer.replace_param(2, Value::Text("given".to_owned()));
    let config = finalize(&spec, layer).unwrap();
    assert_eq!(config.params[0], FinalParam::Default("42".to_owned()));
    assert_eq!(config.params[1], FinalParam::Absent);
    assert_eq!(config.params[2], FinalParam::Given(Value::Text("given".to_owned())));
    assert_eq!(config.switches, vec![Value::Boolean(false), Value::Boolean(true)]);
    let missing = finalize(&spec, RawLayer::empty(&spec)).unwrap_err();
    assert_eq!(missing.name, "baz");
    assert_eq!(missing.to_string(), "Configuration parameter 'baz' not specified.");
}

#[test]
fn earlier_files_outweigh_later_ones() {
    let spec = multiple_params();
    let file = |foo: Option<i128>, bar: Option<&str>| {
        let mut layer = RawLayer::empty(&spec);
        if let Some(foo) = foo {
            layer.replace_param(0, Value::Integer(foo));
        }
        if let Some(bar) = bar {
            layer.replace_param(1, Value::Text(bar.to_owned()));
        }
        layer
    };
    let folded = fold_files(&Accumulate, &spec,
        vec![file(None, Some("first")), file(Some(47), Some("second")), file(Some(42), None)],
    );
    assert_eq!(folded.param(0), Some(&Value::Integer(47)));
    assert_eq!(folded.param(1), Some(&Value::Text("first".to_owned())));
    assert_eq!(folded.param(2), None);
    assert_eq!(fold_files(&Accumulate, &spec, vec![]).params, RawLayer::empty(&spec).params);
}

#[test]
fn the_precedence_of_the_sources() {
    let spec = conf_files();
    let file = |foo: i128| {
        let mut layer = RawLayer::empty(&spec);
        layer.replace_param(0, Value::Integer(foo));
        layer
    };
    let foo = |args: &[&str], sources: Vec<Vec<RawLayer>>, env: &[(&str, &str)]| {
        let scanned = scan(&Accumulate, &spec, tokens(args), sources);
        assemble(&Accumulate, &spec, scanned, vec![file(1)], &environment(env)).unwrap().config.params.remove(0)
    };
    let given = |n: i128| FinalParam::Given(Value::Integer(n));
    assert_eq!(foo(&["p"], vec![], &[]), given(1));
    assert_eq!(foo(&["p"], vec![], &[("TEST_APP_FOO", "2")]), given(2));
    assert_eq!(foo(&["p", "--foo", "3"], vec![], &[("TEST_APP_FOO", "2")]), given(3));
    assert_eq!(foo(&["p", "--skip-defaults"], vec![], &[]), FinalParam::Absent);
    assert_eq!(foo(&["p", "--skip-defaults"], vec![], &[("TEST_APP_FOO", "2")]), given(2));
    // a file named on the command line weighs by its place among the options
    assert_eq!(foo(&["p", "--foo=50", "--config", "f"], vec![vec![file(42)]], &[]), given(42));
    assert_eq!(foo(&["p", "--config=f", "--foo=50"], vec![vec![file(42)]], &[]), given(50));
    assert_eq!(
        foo(&["p", "--conf-dir", "d", "--config", "f"], vec![vec![file(7), file(8)], vec![]], &[]),
        given(8)
    );
}

#[test]
fn the_scanner_stops_for_files() {
    let spec = conf_files();
    let mut scanner = Scanner::new(&spec, tokens(&["p", "--foo=50", "--config", "a.toml", "--conf-dir=d", "rest"]));
    assert_eq!(scanner.program_name(), Some("p".to_owned()));
    match scanner.advance(&Accumulate, &spec) {
        Step::LoadFile(path) => assert_eq!(path, "a.toml"),
        other => panic!("unexpected step {:?}", other),
    }
    assert_eq!(scanner.layer().param(0), Some(&Value::Integer(50)));
    let mut loaded = RawLayer::empty(&spec);
    loaded.replace_param(0, Value::Integer(42));
    scanner.merge_loaded(&Accumulate, &spec, loaded);
    match scanner.advance(&Accumulate, &spec) {
        Step::LoadDir(path) => assert_eq!(path, "d"),
        other => panic!("unexpected step {:?}", other),
    }
    match scanner.advance(&Accumulate, &spec) {
        Step::Finished { remaining } => assert_eq!(remaining, tokens(&["rest"])),
        other => panic!("unexpected step {:?}", other),
    }
    assert!(!scanner.skip_default_conf_files());
    assert_eq!(scanner.into_layer().param(0), Some(&Value::Integer(42)));
    let mut scanner = Scanner::new(&spec, tokens(&["p", "--config"]));
    match scanner.advance(&Accumulate, &spec) {
        Step::Failed(error) => assert_eq!(error.to_string(), "A value to argument '--config' is missing."),
        other => panic!("unexpected step {:?}", other),
    }
}

#[test]
fn the_name_of_the_program() {
    let with_policy = |policy: ProgramName| {
        let word = match policy {
            ProgramName::Unused => "unused",
            ProgramName::Optional => "optional",
            ProgramName::Required => "required",
        };
        let spec = validated(
            vec![],
            vec![],
            raw::General {
                program_name: Some(Spanned::new(word.to_owned(), 0, 0)),
                ..raw::General::default()
            },
        );
        assert_eq!(spec.general.program_name, policy);
        spec
    };
    let name = |policy: ProgramName, args: &[&str]| {
        let spec = with_policy(policy);
        assemble(&Accumulate, &spec, scan(&Accumulate, &spec, tokens(args), vec![]), vec![], &vec![])
            .map(|assembled| assembled.metadata.program_name)
    };
    assert_eq!(name(ProgramName::Unused, &["prog"]).unwrap(), None);
    assert_eq!(name(ProgramName::Optional, &["prog"]).unwrap(), Some("prog".to_owned()));
    assert_eq!(name(ProgramName::Optional, &[]).unwrap(), None);
    assert_eq!(name(ProgramName::Required, &["prog"]).unwrap(), Some("prog".to_owned()));
    match name(ProgramName::Required, &[]) {
        Err(Error::Arguments(ArgParseError::MissingProgramName)) => {},
        other => panic!("unexpected outcome {:?}", other),
    }
    let spec = with_policy(ProgramName::Required);
    let failed: Result<Scanned, ArgParseError> = Err(ArgParseError::UnknownArgument("--x".to_owned()));
    let error = assemble(&Accumulate, &spec, failed, vec![], &vec![]).unwrap_err();
    assert_eq!(error.to_string(), "An unknown argument '--x' was specified.");
}

#[test]
fn configuration_files() {
    let spec = validated(
        vec![param("foo", "u32"), param("bar", "String"), param("ok", "bool")],
        vec![switch("verbose"), raw::Switch { count: Some(spanned(true)), ..switch("level") }],
        raw::General::default(),
    );
    let layer = load_layer(
        &spec,
        "foo = 42\nbar = \"Hello\"\nverbose = true\nlevel = 3\nunknown = [1, 2]\n",
    ).unwrap();
    assert_eq!(layer.param(0), Some(&Value::Integer(42)));
    assert_eq!(layer.param(1), Some(&Value::Text("Hello".to_owned())));
    assert_eq!(layer.param(2), None);
    assert_eq!(layer.switch(0), Some(&Value::Boolean(true)));
    assert_eq!(layer.switch(1), Some(&Value::Integer(3)));
    let empty = load_layer(&spec, "").unwrap();
    assert_eq!(empty.params, RawLayer::empty(&spec).params);
    match load_layer(&spec, "foo = \"42\"") {
        Err(error @ DocumentError::Field { .. }) => assert_eq!(
            error.to_string(),
            "invalid value for key `foo`: expected a non-negative integer up to 4294967295"
        ),
        other => panic!("unexpected outcome {:?}", other),
    }
    assert!(matches!(load_layer(&spec, "foo = 4294967296"), Err(DocumentError::Field { .. })));
    assert!(matches!(load_layer(&spec, "level = -1"), Err(DocumentError::Field { .. })));
    assert!(matches!(load_layer(&spec, "verbose = 1"), Err(DocumentError::Field { .. })));
    assert!(matches!(load_layer(&spec, "foo = "), Err(DocumentError::Syntax(_))));
    let refused_unread = |text: &str| match load_layer(&spec, text) {
        Err(DocumentError::Syntax(said)) => said == "the document is nested too deeply",
        _ => false,
    };
    let nested = |depth: usize| format!("deep = {}1{}\nfoo = 7", "[".repeat(depth), "]".repeat(depth));
    assert!(refused_unread(&nested(100_000)));
    assert!(refused_unread(&nested(129)));
    assert!(!is_shallow(&nested(129)));
    assert!(is_shallow(&nested(128)));
    assert!(!refused_unread(&nested(128)));
    // a bracket that closes inside a string closes nothing
    assert!(refused_unread(&format!("deep = {}1", "[ \"]\", ".repeat(200))));
    assert!(refused_unread(&format!("deep = \"\"\"\n\"\"\"\n{}", "[t]\n".repeat(129))));
    assert!(is_shallow(&"[t]\n".repeat(1000)));
    assert!(is_shallow(&"[[t]]\nname = \"a\" # ]\n".repeat(1000)));
    assert!(is_shallow(&"listen = \"[::1]:80\"\n".repeat(128)));
    assert!(!is_shallow(&"listen = \"[::1]:80\"\n".repeat(129)));
    assert!(is_shallow(&format!("{}a = 1", "a.".repeat(256))));
    assert!(refused_unread(&format!("{}a = 1", "a.".repeat(257))));
    assert!(is_shallow(&format!("{}\n{}", "a.".repeat(200), "a.".repeat(200))));
    let entries = vec![
        ("bar".to_owned(), DocValue::Text("first".to_owned())),
        ("bar".to_owned(), DocValue::Text("second".to_owned())),
        ("ok".to_owned(), DocValue::Other),
    ];
    match layer_of_entries(&spec, &entries) {
        Err(DocumentError::Field { name, expected }) => {
            assert_eq!(name, "ok");
            assert_eq!(expected, ValueKind::Boolean);
        },
        other => panic!("unexpected outcome {:?}", other),
    }
}

#[test]
fn umasks() {
    assert_eq!(
        Umask::paranoid(),
        Umask {
            special: UmaskDigit(0),
            user: UmaskDigit(0),
            group: UmaskDigit(7),
            others: UmaskDigit(7),
        }
    );
    assert_eq!(Umask::paranoid().to_string(), "0077");
    assert_eq!(Umask::try_from("027".to_owned()).unwrap().to_string(), "0027");
    assert_eq!(Umask::try_from("1027".to_owned()).unwrap().to_string(), "1027");
    assert_eq!(Umask::try_from("02".to_owned()), Err(UmaskError::InvalidLen(2)));
    assert_eq!(Umask::try_from("00277".to_owned()), Err(UmaskError::InvalidLen(5)));
    assert_eq!(Umask::try_from("0x7".to_owned()), Err(UmaskError::InvalidDigit(b'x')));
    assert_eq!(Umask::try_from("a2b7".to_owned()), Err(UmaskError::InvalidDigit(b'a')));
    assert_eq!(Umask::try_from("é7".to_owned()), Err(UmaskError::InvalidDigit(0xc3)));
    assert_eq!(UmaskDigit::try_from(b'9'), Ok(UmaskDigit(9)));
    assert_eq!(Priority::parse("high"), Some(Priority::High));
    assert_eq!(Priority::parse("urgent"), None);
    assert_eq!(Priority::Critical.as_str(), "critical");
    assert_eq!(ConfigMode::parse("lib"), Some(ConfigMode::Lib));
    assert_eq!(ConfigMode::parse("full"), Some(ConfigMode::WithBoilerplate));
    assert_eq!(ConfigMode::default(), ConfigMode::WithBoilerplate);
}

#[test]
fn build_scripts() {
    assert_eq!(
        default_out_file(None, Some("out".to_owned())).unwrap(),
        ("out".to_owned(), "configure_me_config.rs".to_owned())
    );
    assert_eq!(
        default_out_file(Some("server"), Some("out".to_owned())).unwrap().1,
        "server_configure_me_config.rs"
    );
    assert!(matches!(
        default_out_file(None, None),
        Err(configure_me::script::Error::MissingOutDir)
    ));
    let built = build_script(
        "config_spec.toml",
        raw_config(vec![param("foo", "u32")], vec![], raw::General::default()),
        Some("target/out".to_owned()),
    ).unwrap();
    assert_eq!(built.out_dir, "target/out");
    assert_eq!(built.file_name, "configure_me_config.rs");
    assert_eq!(built.rerun_directive, "cargo:rerun-if-changed=config_spec.toml");
    assert!(built.code.starts_with("pub mod prelude {\n"));
    assert!(built.code.contains("        foo: Option<u32>,\n"));
    assert_eq!(built.config.params.len(), 1);
    let refused = build_script(
        "config_spec.toml",
        raw_config(vec![param("0foo", "u32")], vec![], raw::General::default()),
        None,
    );
    assert!(matches!(refused, Err(configure_me::script::Error::Config(errors)) if errors.len() == 1));

    let package = |paths: Option<SpecificationPaths>| {
        Some(Package {
            metadata: Some(Metadata {
                configure_me: paths.map(|spec_paths| ConfigureMeMetadata { spec_paths }),
            }),
        })
    };
    let found = jobs(package(Some(SpecificationPaths::Single("spec.toml".to_owned())))).unwrap();
    assert_eq!(found.len(), 1);
    assert_eq!(found[0].spec_path, "spec.toml");
    assert_eq!(found[0].binary, None);
    let per_binary = SpecificationPaths::PerBinary(vec![
        ("server".to_owned(), "server.toml".to_owned()),
        ("client".to_owned(), "client.toml".to_owned()),
    ]);
    let (dir, found) = build_script_auto(Some("pkg".to_owned()), package(Some(per_binary))).unwrap();
    assert_eq!(dir, "pkg");
    assert_eq!(found[1].spec_path, "client.toml");
    assert_eq!(found[1].binary, Some("client".to_owned()));
    assert_eq!(
        jobs(package(None)).unwrap_err().to_string(),
        "The manifest is missing metadata.configure_me section"
    );
    assert_eq!(jobs(None).unwrap_err().to_string(), "The manifest is missing package section");
    assert!(matches!(
        build_script_auto(None, None),
        Err(configure_me::script::Error::MissingManifestDirEnvVar)
    ));
}

#[test]
fn a_short_option_that_cuts_a_character() {
    // the short option is the character of the first byte of `é`
    let odd = raw::Param { abbr: Some(spanned('\u{c3}')), ..param("odd", "String") };
    let spec = validated(vec![odd], vec![], raw::General::default());
    match scan(&Accumulate, &spec, tokens(&["app", "-é"]), vec![]) {
        Err(error @ ArgParseError::Field { .. }) => assert_eq!(
            error.to_string(),
            "Failed to parse argument '--odd': invalid UTF-8 encoding.\n\nHint: the value must be a UTF-8 encoded string."
        ),
        other => panic!("unexpected outcome {:?}", other),
    }
    // without such an option the byte is an unknown argument
    let spec = validated(vec![], vec![], raw::General::default());
    match scan(&Accumulate, &spec, tokens(&["app", "-é"]), vec![]) {
        Err(ArgParseError::UnknownArgument(arg)) => assert_eq!(arg, "-\u{c3}"),
        other => panic!("unexpected outcome {:?}", other),
    }
}

#[test]
fn what_is_said_of_errors() {
    let reading = Error::Reading { file: "a.toml".to_owned(), error: "denied".to_owned() };
    assert_eq!(reading.to_string(), "Failed to read configuration file a.toml: denied");
    let parsing = Error::ConfigParsing { file: "a.toml".to_owned(), error: "bad".to_owned() };
    assert_eq!(parsing.to_string(), "Failed to parse configuration file a.toml: bad");
    let open = ArgParseError::OpenConfDir { reason: "denied".to_owned(), path: "d".to_owned() };
    assert_eq!(open.to_string(), "Failed to open configuration directory d: denied");
    let read = ArgParseError::ReadConfDir { reason: "gone".to_owned(), path: "d".to_owned() };
    assert_eq!(read.to_string(), "Failed to read configuration directory d: gone");
    assert!(!Error::Arguments(read).is_help());
    assert_eq!(
        Error::Arguments(ArgParseError::MissingProgramName).to_string(),
        "The name of the program is missing."
    );
    let spec = validated(vec![param("foo", "u32")], vec![], with_prefix());
    let scanned = scan(&Accumulate, &spec, tokens(&["app"]), vec![]);
    let error = assemble(&Accumulate, &spec, scanned, vec![], &environment(&[("TEST_APP_FOO", "")])).unwrap_err();
    assert!(matches!(error, Error::Environment(_)));
    assert_eq!(
        error.to_string(),
        "Failed to parse environment variable 'TEST_APP_FOO': cannot parse integer from empty string.\n\nHint: the value must be a non-negative integer up to 4294967295."
    );
    let package = Some(Package { metadata: None });
    assert_eq!(jobs(package).unwrap_err().to_string(), "The manifest is missing metadata section");
}
