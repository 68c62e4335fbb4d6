use codespan_reporting::diagnostic::{Diagnostic, Label};
use codespan_reporting::files::SimpleFile;
use codespan_reporting::term;
use codespan_reporting::term::termcolor::NoColor;
use configure_me::config::raw;
use configure_me::config::Defaults;
use configure_me::diagnostic::LabelStyle;
use configure_me::span::Spanned;

/// The value `value` with the place of `written` in the line `line` of
/// `text`, the first line being line 1.
fn found<T>(text: &str, line: usize, written: &str, value: T) -> Spanned<T> {
    let before: usize = text.split('\n').take(line - 1).map(|l| l.len() + 1).sum();
    let column = text.split('\n').nth(line - 1).unwrap().find(written).unwrap();
    Spanned::new(value, before + column, before + column + written.len())
}

/// The string `written`, which stands in `text` between quotation marks.
fn quoted(text: &str, line: usize, written: &str) -> Spanned<String> {
    found(text, line, &format!("\"{}\"", written), written.to_owned())
}

/// The name `written`, which stands bare in `text`.
fn bare(text: &str, line: usize, written: &str) -> Spanned<String> {
    found(text, line, written, written.to_owned())
}

fn switch_named(name: Spanned<String>, abbr: Option<Spanned<char>>) -> raw::Switch {
    raw::Switch {
        name,
        abbr,
        default: None,
        doc: None,
        env_var: None,
        count: None,
        debconf_priority: None,
    }
}

fn param_named(name: Spanned<String>, ty: &str) -> raw::Param {
    raw::Param {
        name,
        abbr: None,
        ty: ty.to_owned(),
        optional: None,
        default: None,
        doc: None,
        argument: None,
        env_var: None,
        convert_into: None,
        merge_fn: None,
        debconf_priority: None,
        debconf_default: None,
    }
}

#[test]
fn codespan_report() {
    let toml = r#"
        [general]
        conf_file_param = "foo"
        conf_dir_param = "foo"
        skip_default_conf_files_switch = "help"
        program_name = "foo"

        [param.bar]
        type = "bool"
        default = "false"
        abbr = "x"
        optional = false

        [param.foo]
        type = "String"

        [switch.foo]
        abbr = "x"

        [switch.baz]
        abbr = "-"

        [switch.0foo]

        [switch.-foo]

        [switch.foo-bar]

        [switch."1a=bit**loong   and ###weird@parameter"]

        [switch."-a=bit**loong   and ###weird@parameter"]

        [switch."a=bit**loong   and ###weird@parameter"]
        "#;

    let expected = r#"invalid config specification:
error: the option `foo` appears more than once
   ┌─ unknown file:4:26
   │
 3 │         conf_file_param = "foo"
   │                           ----- the option was first defined here
 4 │         conf_dir_param = "foo"
   │                          ^^^^^ the option is repeated here
   ·
14 │         [param.foo]
   │                ^^^ ... and here
   ·
17 │         [switch.foo]
   │                 ^^^ ... and here

error: use of reserved option
  ┌─ unknown file:5:42
  │
5 │         skip_default_conf_files_switch = "help"
  │                                          ^^^^^^ this option is reserved because it's always implemented by `configure_me`

error: `foo` is not a valid program name handling strategy
  ┌─ unknown file:6:24
  │
6 │         program_name = "foo"
  │                        ^^^^^ this is an invalid program name handling strategy
  │
  = Help: valid program name handling strategies are `unused`, `optional`, `required`.

error: parameter attempts to be both optional and mandatory at the same time
   ┌─ unknown file:10:19
   │
 8 │         [param.bar]
   │                --- in the parameter `bar`
 9 │         type = "bool"
10 │         default = "false"
   │                   ^^^^^^^ the default value is provided here making the parameter optional
11 │         abbr = "x"
12 │         optional = false
   │                    ^^^^^ setting `optional` to `false` makes the parameter mandatory here
   │
   = Help: either make the parameter optional or remove the default value

error: the option `x` appears more than once
   ┌─ unknown file:18:16
   │
11 │         abbr = "x"
   │                --- the option was first defined here
   ·
18 │         abbr = "x"
   │                ^^^ the option is repeated here

error: invalid short option
   ┌─ unknown file:21:16
   │
20 │         [switch.baz]
   │                 --- in this field
21 │         abbr = "-"
   │                ^^^ this option uses an invalid character
   │
   = Note: only English letters (both lower case and upper case) are allowed

error: the identifier `0foo` contains an invalid character
   ┌─ unknown file:23:17
   │
23 │         [switch.0foo]
   │                 ^ the identifier starts with a digit
   │
   = Help: identifiers mut not start with digits

error: the identifier `-foo` contains an invalid character
   ┌─ unknown file:25:17
   │
25 │         [switch.-foo]
   │                 ^ this char is invalid
   │
   = Help: dashes are prepended automatically, you don't need to write them

error: the identifier `foo-bar` contains an invalid character
   ┌─ unknown file:27:20
   │
27 │         [switch.foo-bar]
   │                    ^ this char is invalid
   │
   = Help: consider replacing dashes with underscores.
           They will be replaced with dashes in command line parameters
           but stay underscores in config files.

error: the identifier `1a=bit**loong   and ###weird@parameter` contains invalid characters
   ┌─ unknown file:29:18
   │
29 │         [switch."1a=bit**loong   and ###weird@parameter"]
   │                  ^ ^   ^^     ^^^   ^^^^     ^ ... and this char
   │                  │ │   │      │     │         
   │                  │ │   │      │     ... and these chars
   │                  │ │   │      ... and these chars
   │                  │ │   ... and these chars
   │                  │ this char is invalid
   │                  the identifier starts with a digit
   │
   = Help: identifiers mut not start with digits

error: the identifier `-a=bit**loong   and ###weird@parameter` contains invalid characters
   ┌─ unknown file:31:18
   │
31 │         [switch."-a=bit**loong   and ###weird@parameter"]
   │                  ^ ^   ^^     ^^^   ^^^^     ^ ... and this char
   │                  │ │   │      │     │         
   │                  │ │   │      │     ... and these chars
   │                  │ │   │      ... and these chars
   │                  │ │   ... and these chars
   │                  │ ... and this char
   │                  this char is invalid
   │
   = Help: dashes are prepended automatically, you don't need to write them

error: the identifier `a=bit**loong   and ###weird@parameter` contains invalid characters
   ┌─ unknown file:33:19
   │
33 │         [switch."a=bit**loong   and ###weird@parameter"]
   │                   ^   ^^     ^^^   ^^^^     ^ ... and this char
   │                   │   │      │     │         
   │                   │   │      │     ... and these chars
   │                   │   │      ... and these chars
   │                   │   ... and these chars
   │                   this char is invalid

"#;

    let source = raw::Config {
        general: raw::General {
            conf_file_param: Some(quoted(toml, 3, "foo")),
            conf_dir_param: Some(quoted(toml, 4, "foo")),
            skip_default_conf_files_switch: Some(quoted(toml, 5, "help")),
            program_name: Some(quoted(toml, 6, "foo")),
            ..raw::General::default()
        },
        params: vec![
            raw::Param {
                default: Some(quoted(toml, 10, "false")),
                abbr: Some(found(toml, 11, "\"x\"", 'x')),
                optional: Some(found(toml, 12, "false", false)),
                ..param_named(bare(toml, 8, "bar"), "bool")
            },
            param_named(bare(toml, 14, "foo"), "String"),
        ],
        switches: vec![
            switch_named(bare(toml, 17, "foo"), Some(found(toml, 18, "\"x\"", 'x'))),
            switch_named(bare(toml, 20, "baz"), Some(found(toml, 21, "\"-\"", '-'))),
            switch_named(bare(toml, 23, "0foo"), None),
            switch_named(bare(toml, 25, "-foo"), None),
            switch_named(bare(toml, 27, "foo-bar"), None),
            switch_named(quoted(toml, 29, "1a=bit**loong   and ###weird@parameter"), None),
            switch_named(quoted(toml, 31, "-a=bit**loong   and ###weird@parameter"), None),
            switch_named(quoted(toml, 33, "a=bit**loong   and ###weird@parameter"), None),
        ],
        defaults: Defaults::default(),
        debconf: None,
    };
    let errors = source.validate().unwrap_err();

    let file = SimpleFile::new("unknown file", toml);
    let mut shown = NoColor::new(Vec::new());
    for error in &errors {
        let report = error.to_diagnostic();
        let labels = report
            .labels
            .into_iter()
            .map(|label| {
                let range = label.start..label.end;
                match label.style {
                    LabelStyle::Primary => Label::primary((), range),
                    LabelStyle::Secondary => Label::secondary((), range),
                }
                .with_message(label.message)
            })
            .collect();
        let diagnostic = Diagnostic::error()
            .with_message(report.message)
            .with_labels(labels)
            .with_notes(report.notes);
        term::emit(&mut shown, &term::Config::default(), &file, &diagnostic).unwrap();
    }
    let error_messages = format!(
        "invalid config specification:\n{}",
        String::from_utf8(shown.into_inner()).unwrap()
    );
    assert_eq!(error_messages, expected);
}
