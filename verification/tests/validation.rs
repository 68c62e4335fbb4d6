use configure_me::config::raw;
use configure_me::config::{
    Defaults, FieldError, Optionality, ProgramName, SwitchKind, ValidationError,
    ValidationErrorKind, ValidationErrorSource,
};
use configure_me::diagnostic::{Label, LabelStyle};
use configure_me::ident::{Error as IdentError, Ident};
use configure_me::span::{IntoParts, Span, Spanned};

fn at<T>(value: T, start: usize, end: usize) -> Spanned<T> {
    Spanned::new(value, start, end)
}

fn name(text: &str, start: usize) -> Spanned<String> {
    at(text.to_owned(), start, start + text.len() + 2)
}

fn param(name: Spanned<String>, ty: &str) -> raw::Param {
    raw::Param {
        name,
        abbr: None,
        ty: ty.to_owned(),
        optional: None,
        default: None,
        doc: None,
        argument: None,
        env_var: None,
        convert_into: None,
        merge_fn: None,
        debconf_priority: None,
        debconf_default: None,
    }
}

fn switch(name: Spanned<String>) -> raw::Switch {
    raw::Switch {
        name,
        abbr: None,
        default: None,
        doc: None,
        env_var: None,
        count: None,
        debconf_priority: None,
    }
}

fn specification(params: Vec<raw::Param>, switches: Vec<raw::Switch>) -> raw::Config {
    raw::Config {
        params,
        switches,
        general: raw::General::default(),
        defaults: Defaults::default(),
        debconf: None,
    }
}

fn kinds(errors: &[ValidationError]) -> Vec<String> {
    errors
        .iter()
        .map(|error| match error.source() {
            ValidationErrorSource::InvalidField { kind, .. } => format!("{:?}", kind.kind()),
            ValidationErrorSource::Duplicates { name, .. } => format!("Duplicates({})", name),
            ValidationErrorSource::InvalidIdentifier(_) => "InvalidIdentifier".to_owned(),
            ValidationErrorSource::InvalidProgramName { .. } => "InvalidProgramName".to_owned(),
        })
        .collect()
}

#[test]
fn empty_specification_is_consistent() {
    let config = specification(vec![], vec![]).validate().unwrap();
    assert!(config.params.is_empty());
    assert!(config.switches.is_empty());
    assert_eq!(config.general.program_name, ProgramName::Optional);
    assert!(config.general.conf_file_param.is_none());
}

#[test]
fn optionality_follows_the_declaration() {
    let mandatory = raw::Param { optional: Some(at(false, 0, 5)), ..param(name("a", 10), "u32") };
    let optional = raw::Param { optional: Some(at(true, 0, 4)), ..param(name("b", 20), "u32") };
    let defaulted = raw::Param {
        default: Some(at("42".to_owned(), 30, 34)),
        ..param(name("c", 40), "u32")
    };
    let optional_with_default = raw::Param {
        optional: Some(at(true, 50, 54)),
        default: Some(at("7".to_owned(), 60, 63)),
        ..param(name("d", 70), "u32")
    };
    let unsaid = param(name("e", 80), "u32");
    let config = specification(
        vec![mandatory, optional, defaulted, optional_with_default, unsaid],
        vec![],
    ).validate().unwrap();
    assert!(matches!(config.params[0].optionality, Optionality::Mandatory));
    assert!(matches!(config.params[1].optionality, Optionality::Optional));
    assert!(matches!(&config.params[2].optionality, Optionality::DefaultValue(value) if value == "42"));
    assert!(matches!(&config.params[3].optionality, Optionality::DefaultValue(value) if value == "7"));
    assert!(matches!(config.params[4].optionality, Optionality::Optional));
    assert_eq!(config.params[0].name.as_snake_case(), "a");
    assert_eq!(config.params[0].convert_into, "u32");
    assert!(config.params[0].argument);
    assert!(!config.params[0].env_var);
}

#[test]
fn schema_wide_defaults_apply_where_a_field_is_silent() {
    let mut source = specification(vec![param(name("a", 0), "u32")], vec![switch(name("s", 10))]);
    source.defaults = Defaults { args: false, env_vars: None, optional: false };
    source.general.env_prefix = Some("APP".to_owned());
    let config = source.validate().unwrap();
    assert!(matches!(config.params[0].optionality, Optionality::Mandatory));
    assert!(!config.params[0].argument);
    assert!(config.params[0].env_var);
    assert!(config.switches[0].env_var);
}

#[test]
fn mandatory_with_default_is_reported_once() {
    let wrong = raw::Param {
        optional: Some(at(false, 30, 35)),
        default: Some(at("1".to_owned(), 20, 23)),
        ..param(name("a", 10), "u32")
    };
    let fine = param(name("b", 40), "u32");
    let errors = specification(vec![wrong, fine], vec![]).validate().unwrap_err();
    assert_eq!(errors.len(), 1);
    match errors[0].source() {
        ValidationErrorSource::InvalidField { name, span, kind } => {
            assert_eq!(name, "a");
            assert_eq!(span.start, 10);
            assert_eq!(kind.kind(), ValidationErrorKind::MandatoryWithDefault);
            match kind {
                FieldError::MandatoryWithDefault { optional_span, default_span } => {
                    assert_eq!((optional_span.start, optional_span.end), (30, 35));
                    assert_eq!((default_span.start, default_span.end), (20, 23));
                },
                other => panic!("unexpected kind {:?}", other),
            }
        },
        other => panic!("unexpected finding {:?}", other),
    }
    assert_eq!(errors[0].sort_key(), 20);
    assert_eq!(
        errors[0].to_string(),
        "invalid configuration for field a: parameter with default value must be optional"
    );
}

#[test]
fn validating_twice_gives_the_same_findings() {
    let build = || {
        let wrong = raw::Param {
            optional: Some(at(false, 30, 35)),
            default: Some(at("1".to_owned(), 20, 23)),
            ..param(name("a", 10), "u32")
        };
        let bad_name = switch(name("0foo", 50));
        let repeated = switch(name("a", 5));
        specification(vec![wrong], vec![bad_name, repeated])
    };
    let first = build().validate().unwrap_err();
    let second = build().validate().unwrap_err();
    assert_eq!(format!("{:?}", first), format!("{:?}", second));
    let keys: Vec<usize> = first.iter().map(|error| error.sort_key()).collect();
    assert_eq!(keys, vec![5, 20, 50]);
}

#[test]
fn switch_kinds() {
    let plain = switch(name("plain", 0));
    let inverted = raw::Switch { default: Some(at(true, 20, 24)), ..switch(name("inverted", 10)) };
    let counting = raw::Switch {
        abbr: Some(at('c', 40, 43)),
        count: Some(at(true, 50, 54)),
        ..switch(name("counting", 30))
    };
    let off_by_default = raw::Switch {
        abbr: Some(at('o', 70, 73)),
        default: Some(at(false, 80, 85)),
        ..switch(name("off", 60))
    };
    let config = specification(vec![], vec![plain, inverted, counting, off_by_default])
        .validate()
        .unwrap();
    assert!(matches!(config.switches[0].kind, SwitchKind::Normal { abbr: None, count: false }));
    assert!(matches!(config.switches[1].kind, SwitchKind::Inverted));
    assert!(matches!(config.switches[2].kind, SwitchKind::Normal { abbr: Some('c'), count: true }));
    assert!(matches!(config.switches[3].kind, SwitchKind::Normal { abbr: Some('o'), count: false }));
    assert!(config.switches[1].is_inverted());
    assert!(!config.switches[1].is_count());
    assert!(config.switches[2].is_count());
}

#[test]
fn every_kind_of_field_error() {
    let inverted_with_abbr = raw::Switch {
        abbr: Some(at('a', 10, 13)),
        default: Some(at(true, 20, 24)),
        ..switch(name("first", 0))
    };
    let inverted_with_count = raw::Switch {
        default: Some(at(true, 40, 44)),
        count: Some(at(true, 50, 54)),
        ..switch(name("second", 30))
    };
    let invalid_abbr = raw::Switch {
        abbr: Some(at('-', 70, 73)),
        default: Some(at(true, 80, 84)),
        ..switch(name("third", 60))
    };
    let reserved = switch(name("help", 90));
    let reserved_abbr = raw::Switch { abbr: Some(at('h', 110, 113)), ..switch(name("fourth", 100)) };
    let errors = specification(
        vec![],
        vec![inverted_with_abbr, inverted_with_count, invalid_abbr, reserved, reserved_abbr],
    ).validate().unwrap_err();
    assert_eq!(
        kinds(&errors),
        vec![
            "InvertedWithAbbr",
            "InvertedWithCount",
            "InvalidAbbr",
            "ReservedParameter",
            "ReservedParameter",
        ]
    );
    let keys: Vec<usize> = errors.iter().map(|error| error.sort_key()).collect();
    assert_eq!(keys, vec![10, 40, 70, 90, 100]);
    assert_eq!(
        errors[0].to_string(),
        "invalid configuration for field first: inverted switch can't have a short option"
    );
    assert_eq!(
        errors[1].to_string(),
        "invalid configuration for field second: inverted switch can't be a count"
    );
    assert_eq!(
        errors[2].to_string(),
        "invalid configuration for field third: invalid short switch: must be [a-zA-Z]"
    );
    assert_eq!(
        errors[3].to_string(),
        "invalid configuration for field help: this parameter is reserved and always implemented by configure_me"
    );
}

#[test]
fn every_repeat_is_recorded_against_the_first_declaration() {
    let mut source = specification(
        vec![param(name("foo", 30), "String")],
        vec![
            raw::Switch { abbr: Some(at('x', 60, 63)), ..switch(name("foo", 40)) },
            raw::Switch { abbr: Some(at('x', 70, 73)), ..switch(name("bar", 50)) },
        ],
    );
    source.general.conf_file_param = Some(name("foo", 10));
    source.general.conf_dir_param = Some(name("foo", 20));
    let errors = source.validate().unwrap_err();
    assert_eq!(kinds(&errors), vec!["Duplicates(foo)", "Duplicates(x)"]);
    match errors[0].source() {
        ValidationErrorSource::Duplicates { first_span, duplicate_spans, .. } => {
            assert_eq!(first_span.start, 10);
            let starts: Vec<usize> = duplicate_spans.iter().map(|span| span.start).collect();
            assert_eq!(starts, vec![20, 30, 40]);
        },
        other => panic!("unexpected finding {:?}", other),
    }
    assert_eq!(errors[0].to_string(), "the option foo occurs 4 times");
    assert_eq!(errors[1].to_string(), "the option x occurs 2 times");
    assert_eq!(errors[0].sort_key(), 10);
    assert_eq!(errors[1].sort_key(), 60);
}

#[test]
fn a_repeat_is_ordered_by_its_first_declaration() {
    // `foo` stands at 10 and again at 100; the second one is mandatory and
    // has a default, declared at 50 and 60
    let first = param(name("foo", 10), "u32");
    let second = raw::Param {
        optional: Some(at(false, 50, 55)),
        default: Some(at("1".to_owned(), 60, 63)),
        ..param(name("foo", 100), "u32")
    };
    let again = switch(name("foo", 200));
    let errors = specification(vec![first, second], vec![again]).validate().unwrap_err();
    assert_eq!(kinds(&errors), vec!["Duplicates(foo)", "MandatoryWithDefault"]);
    let keys: Vec<usize> = errors.iter().map(|error| error.sort_key()).collect();
    assert_eq!(keys, vec![10, 50]);
    // the first declaration need not be the one that stands first in the text
    let late = param(name("bar", 300), "u32");
    let early = switch(name("bar", 30));
    let errors = specification(vec![late], vec![early]).validate().unwrap_err();
    assert_eq!(errors[0].sort_key(), 30);
}

#[test]
fn findings_are_sorted_by_offset_and_none_is_lost() {
    // the fields are declared against the order of their offsets
    let late = switch(name("-late", 900));
    let early = switch(name("0early", 100));
    let wrong = raw::Param {
        optional: Some(at(false, 500, 505)),
        default: Some(at("1".to_owned(), 510, 513)),
        ..param(name("foo-bar", 300), "u32")
    };
    let errors = specification(vec![wrong], vec![late, early]).validate().unwrap_err();
    let keys: Vec<usize> = errors.iter().map(|error| error.sort_key()).collect();
    assert_eq!(keys, vec![100, 300, 500, 900]);
    assert_eq!(
        kinds(&errors),
        vec!["InvalidIdentifier", "InvalidIdentifier", "MandatoryWithDefault", "InvalidIdentifier"]
    );
}

#[test]
fn findings_with_the_same_offset_keep_their_order() {
    let first = switch(at("a-".to_owned(), 7, 9));
    let second = switch(at("b-".to_owned(), 7, 9));
    let errors = specification(vec![], vec![first, second]).validate().unwrap_err();
    assert_eq!(errors.len(), 2);
    assert_eq!(errors[0].to_string(), "\"a-\" is not a valid identifier, invalid char at position 1");
    assert_eq!(errors[1].to_string(), "\"b-\" is not a valid identifier, invalid char at position 1");
}

#[test]
fn identifiers() {
    assert!(Ident::validate("foo_bar").is_ok());
    assert!(Ident::validate("_1").is_ok());
    assert_eq!(Ident::validate("0foo"), Err(vec![0]));
    assert_eq!(Ident::validate("Foo-Bar"), Err(vec![0, 3, 4]));
    assert_eq!(Ident::validate("a=bit**loong   and"), Err(vec![1, 5, 6, 12, 13, 14]));
    assert!(Ident::validate("").is_ok());
    match Ident::try_from(at(String::new(), 3, 5)) {
        Err(IdentError::Empty { span }) => assert_eq!((span.start, span.end), (3, 5)),
        other => panic!("unexpected outcome {:?}", other),
    }
    match Ident::try_from(name("1a=b", 10)) {
        Err(IdentError::InvalidChars { string, positions, span }) => {
            assert_eq!(string, "1a=b");
            assert_eq!(positions, vec![0, 2]);
            assert_eq!(span.start, 10);
        },
        other => panic!("unexpected outcome {:?}", other),
    }
    let ident = Ident::try_from(name("foo_bar_2", 0)).unwrap();
    assert_eq!(ident.as_snake_case(), "foo_bar_2");
    assert_eq!(ident.as_upper_case(), "FOO_BAR_2");
    assert_eq!(ident.as_hypenated(), "foo-bar-2");
    assert_eq!(ident.as_pascal_case(), "FooBar2");
    assert_eq!(Ident::try_from(name("__a__b", 0)).unwrap().as_pascal_case(), "AB");
}

#[test]
fn identifier_messages() {
    let one = Ident::try_from(name("0foo", 0)).unwrap_err();
    assert_eq!(one.to_string(), "\"0foo\" is not a valid identifier, invalid char at position 0");
    let several = Ident::try_from(name("a-b-c", 0)).unwrap_err();
    assert_eq!(
        several.to_string(),
        "\"a-b-c\" is not a valid identifier, invalid chars at positions: 1, 3"
    );
    let empty = Ident::try_from(name("", 0)).unwrap_err();
    assert_eq!(empty.to_string(), "the identifier is empty");
}

fn label(style: LabelStyle, start: usize, end: usize, message: &str) -> Label {
    Label { style, start, end, message: message.to_owned() }
}

#[test]
fn report_of_an_identifier_with_several_stretches() {
    // the name stands in quotes that start at offset 100
    let error = Ident::try_from(name("1a=bit**loong   and ###weird@parameter", 100)).unwrap_err();
    let report = error.to_diagnostic();
    assert_eq!(
        report.message,
        "the identifier `1a=bit**loong   and ###weird@parameter` contains invalid characters"
    );
    assert_eq!(
        report.labels,
        vec![
            label(LabelStyle::Primary, 101, 102, "the identifier starts with a digit"),
            label(LabelStyle::Primary, 103, 104, "this char is invalid"),
            label(LabelStyle::Primary, 107, 109, "... and these chars"),
            label(LabelStyle::Primary, 114, 117, "... and these chars"),
            label(LabelStyle::Primary, 120, 124, "... and these chars"),
            label(LabelStyle::Primary, 129, 130, "... and this char"),
        ]
    );
    assert_eq!(report.notes, vec!["Help: identifiers mut not start with digits".to_owned()]);
}

#[test]
fn report_of_dashes() {
    let leading = Ident::try_from(name("-foo", 0)).unwrap_err().to_diagnostic();
    assert_eq!(leading.message, "the identifier `-foo` contains an invalid character");
    assert_eq!(leading.labels, vec![label(LabelStyle::Primary, 1, 2, "this char is invalid")]);
    assert_eq!(
        leading.notes,
        vec!["Help: dashes are prepended automatically, you don't need to write them".to_owned()]
    );
    let inner = Ident::try_from(name("foo-bar", 0)).unwrap_err().to_diagnostic();
    assert_eq!(inner.labels, vec![label(LabelStyle::Primary, 4, 5, "this char is invalid")]);
    assert_eq!(
        inner.notes,
        vec![
            "Help: consider replacing dashes with underscores.\n      They will be replaced with dashes in command line parameters\n      but stay underscores in config files."
                .to_owned(),
        ]
    );
    let empty = Ident::try_from(at(String::new(), 8, 10)).unwrap_err().to_diagnostic();
    assert_eq!(empty.message, "encountered an empty identifier");
    assert_eq!(empty.labels, vec![label(LabelStyle::Primary, 8, 10, "this identifier is empty")]);
}

#[test]
fn reports_of_fields() {
    let wrong = raw::Param {
        abbr: Some(at('x', 60, 63)),
        optional: Some(at(false, 70, 75)),
        default: Some(at("false".to_owned(), 40, 47)),
        ..param(name("bar", 20), "bool")
    };
    let repeated = raw::Switch { abbr: Some(at('x', 90, 93)), ..switch(name("foo", 80)) };
    let errors = specification(vec![wrong], vec![repeated]).validate().unwrap_err();
    let reports: Vec<_> = errors.iter().map(|error| error.to_diagnostic()).collect();
    assert_eq!(
        reports[0].message,
        "parameter attempts to be both optional and mandatory at the same time"
    );
    assert_eq!(
        reports[0].labels,
        vec![
            label(
                LabelStyle::Primary,
                70,
                75,
                "setting `optional` to `false` makes the parameter mandatory here"
            ),
            label(
                LabelStyle::Primary,
                40,
                47,
                "the default value is provided here making the parameter optional"
            ),
            label(LabelStyle::Secondary, 20, 25, "in the parameter `bar`"),
        ]
    );
    assert_eq!(
        reports[0].notes,
        vec!["Help: either make the parameter optional or remove the default value".to_owned()]
    );
    assert_eq!(reports[1].message, "the option `x` appears more than once");
    assert_eq!(
        reports[1].labels,
        vec![
            label(LabelStyle::Secondary, 60, 63, "the option was first defined here"),
            label(LabelStyle::Primary, 90, 93, "the option is repeated here"),
        ]
    );
    assert!(reports[1].notes.is_empty());
}

#[test]
fn general_names_are_examined_too() {
    let mut source = specification(vec![], vec![]);
    source.general.conf_file_param = Some(name("conf-file", 10));
    source.general.skip_default_conf_files_switch = Some(name("help", 30));
    source.general.program_name = Some(Spanned::new("required".to_owned(), 0, 0));
    let errors = source.validate().unwrap_err();
    assert_eq!(kinds(&errors), vec!["InvalidIdentifier", "ReservedParameter"]);

    let mut source = specification(vec![], vec![]);
    source.general.conf_file_param = Some(name("config", 10));
    source.general.conf_dir_param = Some(name("conf_dir", 30));
    source.general.skip_default_conf_files_switch = Some(name("no_defaults", 50));
    source.general.program_name = Some(Spanned::new("required".to_owned(), 0, 0));
    let config = source.validate().unwrap();
    assert_eq!(config.general.conf_file_param.unwrap().as_hypenated(), "config");
    assert_eq!(config.general.conf_dir_param.unwrap().as_hypenated(), "conf-dir");
    assert_eq!(config.general.skip_default_conf_files_switch.unwrap().as_hypenated(), "no-defaults");
    assert_eq!(config.general.program_name, ProgramName::Required);
}

#[test]
fn spanned_values() {
    let value = at('x', 4, 7);
    assert_eq!(value.start(), 4);
    assert_eq!(value.end(), 7);
    assert_eq!(*value.get_ref(), 'x');
    let (inner, span): (char, Span) = value.to_parts();
    assert_eq!(inner, 'x');
    assert_eq!(span, Span { start: 4, end: 7 });
    assert_eq!(value.get(), 'x');
    assert_eq!(value.to_span(), span);
    assert_eq!(value.into_inner(), 'x');
}

#[test]
fn report_of_a_text_that_is_no_specification() {
    let source = "[general]\nname = \"x\"\nwrong = = 1\n";
    let found = configure_me::diagnostic::syntax_error(source, "expected a value".to_owned(), Some((2, 8)));
    assert_eq!(found.message, "failed to parse config specification");
    // nine and ten bytes in the two lines before, a line feed for each, eight columns
    assert_eq!(found.labels, vec![label(LabelStyle::Primary, 29, 30, "expected a value")]);
    assert!(found.notes.is_empty());
    assert_eq!(configure_me::diagnostic::offset(source, 0, 3), 3);
    assert_eq!(configure_me::diagnostic::offset(source, 7, 0), 37);
    let found = configure_me::diagnostic::syntax_error(source, "no place".to_owned(), None);
    assert!(found.labels.is_empty());
    assert_eq!(found.notes, vec!["no place".to_owned()]);
}

#[test]
fn the_word_for_the_program_name_is_examined() {
    let mut source = specification(vec![param(name("later", 40), "u32")], vec![]);
    source.general.program_name = Some(at("sometimes".to_owned(), 20, 31));
    let errors = source.validate().unwrap_err();
    assert_eq!(kinds(&errors), vec!["InvalidProgramName"]);
    assert_eq!(errors[0].sort_key(), 20);
    assert_eq!(
        errors[0].to_string(),
        "`sometimes` is not a valid program name handling strategy"
    );
    let report = errors[0].to_diagnostic();
    assert_eq!(report.labels.len(), 1);
    assert_eq!((report.labels[0].start, report.labels[0].end), (20, 31));

    for (word, policy) in [
        ("unused", ProgramName::Unused),
        ("optional", ProgramName::Optional),
        ("required", ProgramName::Required),
    ] {
        assert_eq!(ProgramName::from_word(word), Some(policy));
        let mut source = specification(vec![], vec![]);
        source.general.program_name = Some(at(word.to_owned(), 0, 0));
        assert_eq!(source.validate().unwrap().general.program_name, policy);
    }
    assert_eq!(ProgramName::from_word("Required"), None);
}

#[test]
fn a_bare_name_is_counted_from_its_start() {
    let bare = IdentError::InvalidChars {
        string: "a-b".to_owned(),
        positions: vec![1],
        span: Span { start: 10, end: 13 },
    };
    let labels = bare.to_diagnostic().labels;
    assert_eq!((labels[0].start, labels[0].end), (11, 12));
    let quoted = IdentError::InvalidChars {
        string: "a-b".to_owned(),
        positions: vec![1],
        span: Span { start: 10, end: 15 },
    };
    let labels = quoted.to_diagnostic().labels;
    assert_eq!((labels[0].start, labels[0].end), (12, 13));
}
