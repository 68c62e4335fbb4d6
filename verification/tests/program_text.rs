use configure_me::config::raw;
use configure_me::config::Defaults;
use configure_me::codegen::program::{
    gen_arg_parse_error, gen_merge_args, gen_raw_config, gen_validation_fn,
};
use configure_me::config::Config;
use configure_me::script::{generate_source, Error};
use configure_me::span::Spanned;

/// The pieces of the program text that depend on the specification.
struct Pieces<'a> {
    arg_parse_error: &'a str,
    display_arg_parse_error: &'a str,
    env_parse_error: &'a str,
    display_env_parse_error: &'a str,
    validation_error: &'a str,
    display_validation_error: &'a str,
    raw_config: &'a str,
    validate: &'a str,
    merge_in: &'a str,
    merge_args: &'a str,
    merge_short: &'a str,
    merge_env: &'a str,
    config: &'a str,
    process_program_name: &'a str,
    construct_metadata: &'a str,
    metadata_fields: &'a str,
}

impl<'a> Default for Pieces<'a> {
    /// The pieces of a specification without fields, whose program takes its
    /// name where there is one.
    fn default() -> Self {
        Pieces {
            arg_parse_error: "",
            display_arg_parse_error: "",
            env_parse_error: "",
            display_env_parse_error: "",
            validation_error: "    MissingField(&'static str),\n",
            display_validation_error: "            ValidationError::MissingField(field) => write!(f, \"Configuration parameter '{}' not specified.\", field),\n",
            raw_config: "",
            validate: "",
            merge_in: "",
            merge_args: "",
            merge_short: "",
            merge_env: "",
            config: "",
            process_program_name: "",
            construct_metadata: "            program_name,\n",
            metadata_fields: "    pub program_name: Option<::std::path::PathBuf>,\n",
        }
    }
}

fn expected(pieces: &Pieces) -> String {
    let mut text = String::new();
    text.push_str("pub mod prelude {\n    pub use super::{Config, ResultExt};\n}\n\npub enum ArgParseError {\n    MissingArgument(&'static str),\n    UnknownArgument(String),\n    HelpRequested(String),\n\n");
    text.push_str(pieces.arg_parse_error);
    text.push_str("}\n\n#[automatically_derived]\nimpl ::std::fmt::Display for ArgParseError {\n    fn fmt(&self, f: &mut ::std::fmt::Formatter) -> ::std::fmt::Result {\n        match self {\n            ArgParseError::MissingArgument(arg) => write!(f, \"A value to argument '{}' is missing.\", arg),\n            ArgParseError::UnknownArgument(arg) => write!(f, \"An unknown argument '{}' was specified.\", arg),\n");
    text.push_str(pieces.display_arg_parse_error);
    text.push_str("        }\n    }\n}\n\n#[automatically_derived]\nimpl ::std::fmt::Debug for ArgParseError {\n    fn fmt(&self, f: &mut ::std::fmt::Formatter) -> ::std::fmt::Result {\n        ::std::fmt::Display::fmt(self, f)\n    }\n}\n\npub enum EnvParseError {\n");
    text.push_str(pieces.env_parse_error);
    text.push_str("}\n\n#[automatically_derived]\nimpl ::std::fmt::Display for EnvParseError {\n    fn fmt(&self, f: &mut ::std::fmt::Formatter) -> ::std::fmt::Result {\n        match *self {\n");
    text.push_str(pieces.display_env_parse_error);
    text.push_str("        }\n    }\n}\n\n#[automatically_derived]\nimpl ::std::fmt::Debug for EnvParseError {\n    fn fmt(&self, f: &mut ::std::fmt::Formatter) -> ::std::fmt::Result {\n        ::std::fmt::Display::fmt(self, f)\n    }\n}\n\npub enum ValidationError {\n");
    text.push_str(pieces.validation_error);
    text.push_str("}\n\n#[automatically_derived]\nimpl ::std::fmt::Display for ValidationError {\n    fn fmt(&self, f: &mut ::std::fmt::Formatter) -> ::std::fmt::Result {\n        match *self {\n");
    text.push_str(pieces.display_validation_error);
    text.push_str("        }\n    }\n}\n\n#[automatically_derived]\nimpl ::std::fmt::Debug for ValidationError {\n    fn fmt(&self, f: &mut ::std::fmt::Formatter) -> ::std::fmt::Result {\n        ::std::fmt::Display::fmt(self, f)\n    }\n}\n\npub enum Error {\n    Reading { file: ::std::path::PathBuf, error: ::std::io::Error },\n    ConfigParsing { file: ::std::path::PathBuf, error: ::configure_me::toml::de::Error },\n    Arguments(ArgParseError),\n    Environment(EnvParseError),\n    Validation(ValidationError),\n}\n\n#[automatically_derived]\nimpl From<ArgParseError> for Error {\n    fn from(err: ArgParseError) -> Self {\n        Error::Arguments(err)\n    }\n}\n\n#[automatically_derived]\nimpl From<EnvParseError> for Error {\n    fn from(err: EnvParseError) -> Self {\n        Error::Environment(err)\n    }\n}\n\n#[automatically_derived]\nimpl From<ValidationError> for Error {\n    fn from(err: ValidationError) -> Self {\n        Error::Validation(err)\n    }\n}\n\n#[automatically_derived]\nimpl ::std::fmt::Display for Error {\n    fn fmt(&self, f: &mut ::std::fmt::Formatter) -> ::std::fmt::Result {\n        match self {\n            Error::Reading { file, error } => write!(f, \"Failed to read configuration file {}: {}\", file.display(), error),\n            Error::ConfigParsing { file, error } => write!(f, \"Failed to parse configuration file {}: {}\", file.display(), error),\n            Error::Arguments(err) => write!(f, \"{}\", err),\n            Error::Environment(err) => write!(f, \"{}\", err),\n            Error::Validation(err) => write!(f, \"Invalid configuration: {}\", err),\n");
    text.push_str("        }\n    }\n}\n\n#[automatically_derived]\nimpl ::std::fmt::Debug for Error {\n    fn fmt(&self, f: &mut ::std::fmt::Formatter) -> ::std::fmt::Result {\n        ::std::fmt::Display::fmt(self, f)\n    }\n}\n\nmod raw {\n    use super::{ArgParseError, ValidationError};\n\n    #[derive(Deserialize, Default)]\n    #[serde(crate = \"crate::configure_me::serde\")]\n    pub struct Config {\n");
    text.push_str(pieces.raw_config);
    text.push_str("    }\n\n    #[automatically_derived]\n    impl Config {\n        pub fn load<P: AsRef<::std::path::Path>>(config_file_name: P) -> Result<Self, super::Error> {\n            use std::io::Read;\n\n            let mut config_file = ::std::fs::File::open(&config_file_name).map_err(|error| super::Error::Reading { file: config_file_name.as_ref().into(), error })?;\n            let mut config_content = Vec::new();\n            config_file.read_to_end(&mut config_content).map_err(|error| super::Error::Reading { file: config_file_name.as_ref().into(), error })?;\n            ::configure_me::toml::from_slice(&config_content).map_err(|error| super::Error::ConfigParsing { file: config_file_name.as_ref().into(), error })\n        }\n\n        pub fn validate(self) -> Result<super::Config, ValidationError> {\n");
    text.push_str(pieces.validate);
    text.push_str("        }\n\n        pub fn merge_in(&mut self, other: Self) {\n");
    text.push_str(pieces.merge_in);
    text.push_str("        }\n\n        pub fn merge_args<I: IntoIterator<Item=::std::ffi::OsString>>(&mut self, args: I, skip_default_conf_files: &mut bool) -> Result<(Option<std::path::PathBuf>, impl Iterator<Item=::std::ffi::OsString>), super::Error> {\n            let _ = skip_default_conf_files;\n            let mut iter = args.into_iter().fuse();\n            let program_path = iter.next().map(Into::into);\n\n            while let Some(arg) = iter.next() {\n                if arg == *\"--\" {\n                    return Ok((program_path, None.into_iter().chain(iter)));\n                } else if (arg == *\"--help\") || (arg == *\"-h\") {\n                    return Err(ArgParseError::HelpRequested(program_path.as_ref().unwrap().to_string_lossy().into()).into());\n");
    text.push_str(pieces.merge_args);
    text.push_str("                } else if let Some(mut shorts) = ::configure_me::parse_arg::iter_short(&arg) {\n                    for short in &mut shorts {\n                        if short == 'h' {\n                            return Err(ArgParseError::HelpRequested(program_path.as_ref().unwrap().to_string_lossy().into()).into())\n");
    text.push_str(pieces.merge_short);
    text.push_str("                        } else {\n                            let mut arg = String::with_capacity(2);\n                            arg.push('-');\n                            arg.push(short);\n                            return Err(ArgParseError::UnknownArgument(arg).into());\n                        }\n                    }\n                } else if arg.to_str().unwrap_or(\"\").starts_with(\"--\") {\n                    return Err(ArgParseError::UnknownArgument(arg.into_string().unwrap()).into());\n                } else {\n                    return Ok((program_path, Some(arg).into_iter().chain(iter)))\n                }\n            }\n\n            Ok((program_path, None.into_iter().chain(iter)))\n        }\n\n        pub fn merge_env(&mut self) -> Result<(), super::Error> {\n");
    text.push_str(pieces.merge_env);
    text.push_str("            Ok(())\n        }\n    }\n}\n\n/// Configuration of the application\npub struct Config {\n");
    text.push_str(pieces.config);
    text.push_str("}\n\n#[automatically_derived]\nimpl Config {\n    pub fn including_optional_config_files<I>(config_files: I) -> Result<(Self, impl Iterator<Item=::std::ffi::OsString>, Metadata), Error> where I: IntoIterator, I::Item: AsRef<::std::path::Path> {\n        Self::custom_args_and_optional_files(::std::env::args_os(), config_files)\n    }\n\n    pub fn custom_args_and_optional_files<A, I>(args: A, config_files: I) -> Result<(Self, impl Iterator<Item=::std::ffi::OsString>, Metadata), Error> where\n        A: IntoIterator, A::Item: Into<::std::ffi::OsString>,\n        I: IntoIterator, I::Item: AsRef<::std::path::Path> {\n\n        let mut args_config = raw::Config::default();\n        let mut skip_default_conf_files = false;\n        let (program_name, remaining_args) = args_config.merge_args(args.into_iter().map(Into::into), &mut skip_default_conf_files)?;\n");
    text.push_str(pieces.process_program_name);
    text.push_str("\n        let mut config = raw::Config::default();\n\n        if !skip_default_conf_files {\n            for path in config_files {\n                match raw::Config::load(path) {\n                    Ok(mut new_config) => {\n                        std::mem::swap(&mut config, &mut new_config);\n                        config.merge_in(new_config)\n                    },\n                    Err(Error::Reading { ref error, .. }) if error.kind() == ::std::io::ErrorKind::NotFound => (),\n                    Err(err) => return Err(err),\n                }\n            }\n        }\n\n        config.merge_env()?;\n        config.merge_in(args_config);\n\n        let metadata = Metadata {\n");
    text.push_str(pieces.construct_metadata);
    text.push_str("        };\n\n        config\n            .validate()\n            .map(|cfg| (cfg, remaining_args, metadata))\n            .map_err(Into::into)\n    }\n}\n\n/// Metadata of the configuration.\n///\n/// This struct provides some additional information regarding the configuration.\n/// Currently it only contains program name but more items could be available in the future.\n#[non_exhaustive]\npub struct Metadata {\n");
    text.push_str(pieces.metadata_fields);
    text.push_str("}\n\npub trait ResultExt {\n    type Item;\n\n    fn unwrap_or_exit(self) -> Self::Item;\n}\n\n#[automatically_derived]\nimpl<T> ResultExt for Result<T, Error> {\n    type Item = T;\n\n    fn unwrap_or_exit(self) -> Self::Item {\n        use std::io::Write;\n\n        match self {\n            Ok(item) => item,\n            Err(err @ Error::Arguments(ArgParseError::HelpRequested(_))) => {\n                println!(\"{}\", err);\n                std::io::stdout().flush().expect(\"failed to flush stdout\");\n                ::std::process::exit(0)\n            },\n            Err(err) => {\n                eprintln!(\"Error: {}\", err);\n                std::io::stderr().flush().expect(\"failed to flush stderr\");\n                ::std::process::exit(1)\n            }\n        }\n    }\n}\n");
    text
}

fn spanned<T>(value: T) -> Spanned<T> {
    Spanned::new(value, 0, 0)
}

fn param(name: &str, ty: &str) -> raw::Param {
    raw::Param {
        name: spanned(name.to_owned()),
        abbr: None,
        ty: ty.to_owned(),
        optional: None,
        default: None,
        doc: None,
        argument: None,
        env_var: None,
        convert_into: None,
        merge_fn: None,
        debconf_priority: None,
        debconf_default: None,
    }
}

fn switch(name: &str) -> raw::Switch {
    raw::Switch {
        name: spanned(name.to_owned()),
        abbr: None,
        default: None,
        doc: None,
        env_var: None,
        count: None,
        debconf_priority: None,
    }
}

fn specification(params: Vec<raw::Param>, switches: Vec<raw::Switch>) -> raw::Config {
    let general = raw::General { env_prefix: Some("TEST_APP".to_owned()), ..raw::General::default() };
    raw::Config { params, switches, general, defaults: Defaults::default(), debconf: None }
}

fn check(source: raw::Config, pieces: &Pieces) {
    match generate_source(source) {
        Ok(code) => assert_eq!(code, expected(pieces)),
        Err(Error::Config(errors)) => panic!("the specification is refused: {:?}", errors),
        Err(error) => panic!("no program text: {:?}", error),
    }
}

const FOO_ARG_ERROR: &str = "    FieldFoo(<u32 as ::configure_me::parse_arg::ParseArg>::Error),\n";

const FOO_DISPLAY_ARG: &str = "        ArgParseError::HelpRequested(program_name) => write!(f, \"Usage: {} [--foo FOO]\", program_name),\n        ArgParseError::FieldFoo(err) => {\n            write!(f, \"Failed to parse argument '--foo': {}.\\n\\nHint: the value must be \", err)?;\n            <u32 as ::configure_me::parse_arg::ParseArg>::describe_type(&mut *f)?;\n            write!(f, \".\")\n        },\n";

const FOO_DISPLAY_ENV: &str = "        EnvParseError::FieldFoo(ref err) => {\n            write!(f, \"Failed to parse environment variable 'TEST_APP_FOO': {}.\\n\\nHint: the value must be \", err)?;\n            <u32 as ::configure_me::parse_arg::ParseArg>::describe_type(&mut *f)?;\n            write!(f, \".\")\n        },\n";

const FOO_MERGE_IN: &str = "            if other.foo.is_some() {\n                self.foo = other.foo;\n            }\n";

const FOO_MERGE_ARGS: &str = "                } else if let Some(value) = ::configure_me::parse_arg::match_arg(\"--foo\", &arg, &mut iter) {\n                    let foo = value.map_err(|err| err.map_or(ArgParseError::MissingArgument(\"--foo\"), ArgParseError::FieldFoo))?;\n\n                    self.foo = Some(foo);\n";

const FOO_MERGE_ENV: &str = "        if let Some(val) = ::std::env::var_os(\"TEST_APP_FOO\") {\n            let val = ::configure_me::parse_arg::ParseArg::parse_owned_arg(val).map_err(super::EnvParseError::FieldFoo)?;\n            self.foo = Some(val);\n        }\n";

#[test]
fn lib_empty() {
    let source = raw::Config {
        params: vec![],
        switches: vec![],
        general: raw::General::default(),
        defaults: Defaults::default(),
        debconf: None,
    };
    check(
        source,
        &Pieces {
            display_arg_parse_error: "        ArgParseError::HelpRequested(program_name) => write!(f, \"Usage: {}\", program_name),\n",
            validate: "\n            Ok(super::Config {\n            })\n",
            ..Pieces::default()
        },
    );
}

#[test]
fn lib_single_optional_param() {
    check(
        specification(vec![param("foo", "u32")], vec![]),
        &Pieces {
            arg_parse_error: FOO_ARG_ERROR,
            display_arg_parse_error: FOO_DISPLAY_ARG,
            env_parse_error: FOO_ARG_ERROR,
            display_env_parse_error: FOO_DISPLAY_ENV,
            raw_config: "        foo: Option<u32>,\n",
            validate: "            let foo = self.foo;\n\n            Ok(super::Config {\n                foo: foo.map(Into::into),\n            })\n",
            merge_in: FOO_MERGE_IN,
            merge_args: FOO_MERGE_ARGS,
            merge_short: "",
            merge_env: FOO_MERGE_ENV,
            config: "    pub foo: Option<u32>,\n",
            ..Pieces::default()
        },
    );
}

#[test]
fn lib_single_mandatory_param() {
    let foo = raw::Param { optional: Some(spanned(false)), ..param("foo", "u32") };
    check(
        specification(vec![foo], vec![]),
        &Pieces {
            arg_parse_error: FOO_ARG_ERROR,
            display_arg_parse_error: FOO_DISPLAY_ARG,
            env_parse_error: FOO_ARG_ERROR,
            display_env_parse_error: FOO_DISPLAY_ENV,
            raw_config: "        foo: Option<u32>,\n",
            validate: "            let foo = self.foo.ok_or(ValidationError::MissingField(\"foo\"))?;\n\n            Ok(super::Config {\n                foo: foo.into(),\n            })\n",
            merge_in: FOO_MERGE_IN,
            merge_args: FOO_MERGE_ARGS,
            merge_short: "",
            merge_env: FOO_MERGE_ENV,
            config: "    pub foo: u32,\n",
            ..Pieces::default()
        },
    );
}

#[test]
fn lib_single_default_param() {
    let foo = raw::Param { default: Some(spanned("42".to_owned())), ..param("foo", "u32") };
    check(
        specification(vec![foo], vec![]),
        &Pieces {
            arg_parse_error: FOO_ARG_ERROR,
            display_arg_parse_error: FOO_DISPLAY_ARG,
            env_parse_error: FOO_ARG_ERROR,
            display_env_parse_error: FOO_DISPLAY_ENV,
            raw_config: "        foo: Option<u32>,\n",
            validate: "            let foo = self.foo.unwrap_or_else(|| { 42 });\n\n            Ok(super::Config {\n                foo: foo.into(),\n            })\n",
            merge_in: FOO_MERGE_IN,
            merge_args: FOO_MERGE_ARGS,
            merge_short: "",
            merge_env: FOO_MERGE_ENV,
            config: "    pub foo: u32,\n",
            ..Pieces::default()
        },
    );
}

#[test]
fn lib_single_switch() {
    check(
        specification(vec![], vec![switch("foo")]),
        &Pieces {
            arg_parse_error: "",
            display_arg_parse_error: "        ArgParseError::HelpRequested(program_name) => write!(f, \"Usage: {} [--foo]\", program_name),\n",
            env_parse_error: "    FieldFoo(::std::ffi::OsString),\n",
            display_env_parse_error: "        EnvParseError::FieldFoo(ref err) => {\n            write!(f, \"Invalid value '{:?}' for 'TEST_APP_FOO'.\\n\\nHint: the allowed values are 0, false, 1, true.\", err)\n        },\n",
            raw_config: "        foo: Option<bool>,\n",
            validate: "\n            Ok(super::Config {\n                foo: self.foo.unwrap_or(false),\n            })\n",
            merge_in: FOO_MERGE_IN,
            merge_args: "                } else if arg == *\"--foo\" {\n                    self.foo = Some(true);\n",
            merge_short: "",
            merge_env: "        if let Some(val) = ::std::env::var_os(\"TEST_APP_FOO\") {\n            if val == *\"1\" || val == *\"true\" {\n                self.foo = Some(true);\n            } else if val == *\"0\" || val == *\"false\" {\n                self.foo = Some(false);\n            } else {\n                return Err(super::EnvParseError::FieldFoo(val).into());\n            }\n        }\n",
            config: "    pub foo: bool,\n",
            ..Pieces::default()
        },
    );
}

#[test]
fn lib_no_arg() {
    let foo = raw::Param { argument: Some(false), ..param("foo", "u32") };
    check(
        specification(vec![foo], vec![]),
        &Pieces {
            arg_parse_error: "",
            display_arg_parse_error: "        ArgParseError::HelpRequested(program_name) => write!(f, \"Usage: {}\", program_name),\n",
            env_parse_error: FOO_ARG_ERROR,
            display_env_parse_error: FOO_DISPLAY_ENV,
            raw_config: "        foo: Option<u32>,\n",
            validate: "            let foo = self.foo;\n\n            Ok(super::Config {\n                foo: foo.map(Into::into),\n            })\n",
            merge_in: FOO_MERGE_IN,
            merge_args: "",
            merge_short: "",
            merge_env: FOO_MERGE_ENV,
            config: "    pub foo: Option<u32>,\n",
            ..Pieces::default()
        },
    );
}

const HELP_MULTIPLE_PARAMS: &str = " [--foo FOO] [--bar BAR] [--baz BAZ] [--verbose] [--no-fast]\n\nArguments:\n        --foo        A foo\n        --bar        A very, very, very, very, very, very, very, very, very, \n                     very, very, very, very, very long documentation...\n        --baz        A much, much, much, much, much, much, much, much, much, \n                     much, much, much, much, much, much, much, much, much, much,\n                     much, much, much, much, much, much, much, much, much, much,\n                     much, much, much, much, much, much, much, much, much, much,\n                     much, much, much longer documentation...\n        --no-fast    Determines whether to mine bitcoins fast or slowly";

fn display_of_field(option: &str, variant: &str, ty: &str) -> String {
    format!(
        "        ArgParseError::Field{}(err) => {{\n            write!(f, \"Failed to parse argument '--{}': {{}}.\\n\\nHint: the value must be \", err)?;\n            <{} as ::configure_me::parse_arg::ParseArg>::describe_type(&mut *f)?;\n            write!(f, \".\")\n        }},\n",
        variant, option, ty
    )
}

fn merge_in_of(name: &str) -> String {
    format!(
        "            if other.{0}.is_some() {{\n                self.{0} = other.{0};\n            }}\n",
        name
    )
}

#[test]
fn lib_multiple_params() {
    let foo = raw::Param {
        default: Some(spanned("42".to_owned())),
        doc: Some("A foo".to_owned()),
        ..param("foo", "u32")
    };
    let bar = raw::Param {
        optional: Some(spanned(true)),
        doc: Some("A very, very, very, very, very, very, very, very, very, very, very, very, very, very long documentation...".to_owned()),
        ..param("bar", "String")
    };
    let baz = raw::Param {
        optional: Some(spanned(false)),
        doc: Some("A much, much, much, much, much, much, much, much, much, much, much, much, much, much, much, much, much, much, much, much, much, much, much, much, much, much, much, much, much, much, much, much, much, much, much, much, much, much, much, much, much, much longer documentation...".to_owned()),
        ..param("baz", "String")
    };
    let fast = raw::Switch {
        default: Some(spanned(true)),
        doc: Some("Determines whether to mine bitcoins fast or slowly".to_owned()),
        ..switch("fast")
    };
    let errors = "    FieldFoo(<u32 as ::configure_me::parse_arg::ParseArg>::Error),\n    FieldBar(<String as ::configure_me::parse_arg::ParseArg>::Error),\n    FieldBaz(<String as ::configure_me::parse_arg::ParseArg>::Error),\n";
    let display_arg = format!(
        "        ArgParseError::HelpRequested(program_name) => write!(f, \"Usage: {{}}{}\", program_name),\n{}{}{}",
        HELP_MULTIPLE_PARAMS.replace('\n', "\\n"),
        display_of_field("foo", "Foo", "u32"),
        display_of_field("bar", "Bar", "String"),
        display_of_field("baz", "Baz", "String"),
    );
    let env_errors = format!(
        "{}    FieldVerbose(::std::ffi::OsString),\n    FieldFast(::std::ffi::OsString),\n",
        errors
    );
    let merge_in = format!(
        "{}{}{}{}{}",
        merge_in_of("foo"),
        merge_in_of("bar"),
        merge_in_of("baz"),
        merge_in_of("verbose"),
        merge_in_of("fast")
    );
    check(
        specification(vec![foo, bar, baz], vec![switch("verbose"), fast]),
        &Pieces {
            arg_parse_error: errors,
            display_arg_parse_error: &display_arg,
            env_parse_error: &env_errors,
            display_env_parse_error: "        EnvParseError::FieldFoo(ref err) => {\n            write!(f, \"Failed to parse environment variable 'TEST_APP_FOO': {}.\\n\\nHint: the value must be \", err)?;\n            <u32 as ::configure_me::parse_arg::ParseArg>::describe_type(&mut *f)?;\n            write!(f, \".\")\n        },\n        EnvParseError::FieldBar(ref err) => {\n            write!(f, \"Failed to parse environment variable 'TEST_APP_BAR': {}.\\n\\nHint: the value must be \", err)?;\n            <String as ::configure_me::parse_arg::ParseArg>::describe_type(&mut *f)?;\n            write!(f, \".\")\n        },\n        EnvParseError::FieldBaz(ref err) => {\n            write!(f, \"Failed to parse environment variable 'TEST_APP_BAZ': {}.\\n\\nHint: the value must be \", err)?;\n            <String as ::configure_me::parse_arg::ParseArg>::describe_type(&mut *f)?;\n            write!(f, \".\")\n        },\n        EnvParseError::FieldVerbose(ref err) => {\n            write!(f, \"Invalid value '{:?}' for 'TEST_APP_VERBOSE'.\\n\\nHint: the allowed values are 0, false, 1, true.\", err)\n        },\n        EnvParseError::FieldFast(ref err) => {\n            write!(f, \"Invalid value '{:?}' for 'TEST_APP_FAST'.\\n\\nHint: the allowed values are 0, false, 1, true.\", err)\n        },\n",
            raw_config: "        foo: Option<u32>,\n        bar: Option<String>,\n        baz: Option<String>,\n        verbose: Option<bool>,\n        fast: Option<bool>,\n",
            validate: "            let foo = self.foo.unwrap_or_else(|| { 42 });\n            let bar = self.bar;\n            let baz = self.baz.ok_or(ValidationError::MissingField(\"baz\"))?;\n\n            Ok(super::Config {\n                foo: foo.into(),\n                bar: bar.map(Into::into),\n                baz: baz.into(),\n                verbose: self.verbose.unwrap_or(false),\n                fast: self.fast.unwrap_or(true),\n            })\n",
            merge_in: &merge_in,
            merge_args: "                } else if let Some(value) = ::configure_me::parse_arg::match_arg(\"--foo\", &arg, &mut iter) {\n                    let foo = value.map_err(|err| err.map_or(ArgParseError::MissingArgument(\"--foo\"), ArgParseError::FieldFoo))?;\n\n                    self.foo = Some(foo);\n                } else if let Some(value) = ::configure_me::parse_arg::match_arg(\"--bar\", &arg, &mut iter) {\n                    let bar = value.map_err(|err| err.map_or(ArgParseError::MissingArgument(\"--bar\"), ArgParseError::FieldBar))?;\n\n                    self.bar = Some(bar);\n                } else if let Some(value) = ::configure_me::parse_arg::match_arg(\"--baz\", &arg, &mut iter) {\n                    let baz = value.map_err(|err| err.map_or(ArgParseError::MissingArgument(\"--baz\"), ArgParseError::FieldBaz))?;\n\n                    self.baz = Some(baz);\n                } else if arg == *\"--verbose\" {\n                    self.verbose = Some(true);\n                } else if arg == *\"--no-fast\" {\n                    self.fast = Some(false);\n",
            merge_short: "",
            merge_env: "        if let Some(val) = ::std::env::var_os(\"TEST_APP_FOO\") {\n            let val = ::configure_me::parse_arg::ParseArg::parse_owned_arg(val).map_err(super::EnvParseError::FieldFoo)?;\n            self.foo = Some(val);\n        }\n        if let Some(val) = ::std::env::var_os(\"TEST_APP_BAR\") {\n            let val = ::configure_me::parse_arg::ParseArg::parse_owned_arg(val).map_err(super::EnvParseError::FieldBar)?;\n            self.bar = Some(val);\n        }\n        if let Some(val) = ::std::env::var_os(\"TEST_APP_BAZ\") {\n            let val = ::configure_me::parse_arg::ParseArg::parse_owned_arg(val).map_err(super::EnvParseError::FieldBaz)?;\n            self.baz = Some(val);\n        }\n        if let Some(val) = ::std::env::var_os(\"TEST_APP_VERBOSE\") {\n            if val == *\"1\" || val == *\"true\" {\n                self.verbose = Some(true);\n            } else if val == *\"0\" || val == *\"false\" {\n                self.verbose = Some(false);\n            } else {\n                return Err(super::EnvParseError::FieldVerbose(val).into());\n            }\n        }\n        if let Some(val) = ::std::env::var_os(\"TEST_APP_FAST\") {\n            if val == *\"1\" || val == *\"true\" {\n                self.fast = Some(true);\n            } else if val == *\"0\" || val == *\"false\" {\n                self.fast = Some(false);\n            } else {\n                return Err(super::EnvParseError::FieldFast(val).into());\n            }\n        }\n",
            config: "    pub foo: u32,\n    pub bar: Option<String>,\n    pub baz: String,\n    pub verbose: bool,\n    pub fast: bool,\n",
            ..Pieces::default()
        },
    );
}

fn validated(source: raw::Config) -> Config {
    source.validate().expect("the specification is consistent")
}

fn written(part: fn(&Config, &mut String), config: &Config) -> String {
    let mut out = String::new();
    part(config, &mut out);
    out
}

fn empty() -> raw::Config {
    raw::Config {
        params: vec![],
        switches: vec![],
        general: raw::General::default(),
        defaults: Defaults::default(),
        debconf: None,
    }
}

fn short_switches_specification() -> raw::Config {
    let a = raw::Switch { abbr: Some(spanned('a')), doc: Some("test".to_owned()), ..switch("a") };
    let b = raw::Switch { abbr: Some(spanned('b')), ..switch("b") };
    let c = raw::Switch { abbr: Some(spanned('c')), count: Some(spanned(true)), ..switch("c") };
    let d = raw::Param {
        abbr: Some(spanned('d')),
        optional: Some(spanned(true)),
        ..param("d", "String")
    };
    let e = raw::Param {
        abbr: Some(spanned('e')),
        optional: Some(spanned(true)),
        ..param("e", "String")
    };
    let f = raw::Switch { abbr: Some(spanned('f')), ..switch("foo_bar") };
    raw::Config {
        params: vec![d, e],
        switches: vec![a, b, c, f],
        general: raw::General::default(),
        defaults: Defaults::default(),
        debconf: None,
    }
}

const SHORT_SWITCHES_RAW_CONFIG: &str = "        d: Option<String>,\n        e: Option<String>,\n        a: Option<bool>,\n        b: Option<bool>,\n        c: Option<u32>,\n        foo_bar: Option<bool>,\n";

const SHORT_SWITCHES_MERGE_ARGS: &str = "                } else if let Some(value) = ::configure_me::parse_arg::match_arg(\"--d\", &arg, &mut iter) {\n                    let d = value.map_err(|err| err.map_or(ArgParseError::MissingArgument(\"--d\"), ArgParseError::FieldD))?;\n\n                    self.d = Some(d);\n                } else if let Some(value) = ::configure_me::parse_arg::match_arg(\"--e\", &arg, &mut iter) {\n                    let e = value.map_err(|err| err.map_or(ArgParseError::MissingArgument(\"--e\"), ArgParseError::FieldE))?;\n\n                    self.e = Some(e);\n                } else if arg == *\"--a\" {\n                    self.a = Some(true);\n                } else if arg == *\"--b\" {\n                    self.b = Some(true);\n                } else if arg == *\"--c\" {\n                    *(self.c.get_or_insert(0)) += 1;\n                } else if arg == *\"--foo-bar\" {\n                    self.foo_bar = Some(true);\n";

#[test]
fn codegen_empty_raw_config() {
    assert_eq!(written(gen_raw_config, &validated(empty())), "");
}

#[test]
fn codegen_single_optional_param_raw_config() {
    let config = validated(specification(vec![param("foo", "u32")], vec![]));
    assert_eq!(written(gen_raw_config, &config), "        foo: Option<u32>,\n");
}

#[test]
fn codegen_single_optional_param_validate() {
    let config = validated(specification(vec![param("foo", "u32")], vec![]));
    assert_eq!(
        written(gen_validation_fn, &config),
        "            let foo = self.foo;\n\n            Ok(super::Config {\n                foo: foo.map(Into::into),\n            })\n"
    );
}

#[test]
fn codegen_single_optional_merge_args() {
    let config = validated(specification(vec![param("foo", "u32")], vec![]));
    assert_eq!(written(gen_merge_args, &config), FOO_MERGE_ARGS);
}

#[test]
fn codegen_single_mandatory_param_raw_config() {
    let foo = raw::Param { optional: Some(spanned(false)), ..param("foo", "u32") };
    let config = validated(specification(vec![foo], vec![]));
    assert_eq!(written(gen_raw_config, &config), "        foo: Option<u32>,\n");
}

#[test]
fn codegen_single_default_param_raw_config() {
    let foo = raw::Param { default: Some(spanned("42".to_owned())), ..param("foo", "u32") };
    let config = validated(specification(vec![foo], vec![]));
    assert_eq!(written(gen_raw_config, &config), "        foo: Option<u32>,\n");
}

#[test]
fn codegen_single_switch_raw_config() {
    let config = validated(specification(vec![], vec![switch("foo")]));
    assert_eq!(written(gen_raw_config, &config), "        foo: Option<bool>,\n");
}

#[test]
fn codegen_empty_arg_parse_error() {
    let expected = "";
    assert_eq!(written(gen_arg_parse_error, &validated(empty())), expected);
}

#[test]
fn short_switches_raw_config() {
    let config = validated(short_switches_specification());
    assert_eq!(written(gen_raw_config, &config), SHORT_SWITCHES_RAW_CONFIG);
}

#[test]
fn short_switches_merge_args() {
    let config = validated(short_switches_specification());
    assert_eq!(written(gen_merge_args, &config), SHORT_SWITCHES_MERGE_ARGS);
}

#[test]
fn short_switches() {
    check(
        short_switches_specification(),
        &Pieces {
            arg_parse_error: "    FieldD(<String as ::configure_me::parse_arg::ParseArg>::Error),\n    FieldE(<String as ::configure_me::parse_arg::ParseArg>::Error),\n",
            display_arg_parse_error: "        ArgParseError::HelpRequested(program_name) => write!(f, \"Usage: {} [-d D|--d D] [-e E|--e E] [-a|--a] [-b|--b] [-c|--c ...] [-f|--foo-bar]\\n\\nArguments:\\n        -a, --a    test\", program_name),\n        ArgParseError::FieldD(err) => {\n            write!(f, \"Failed to parse argument '--d': {}.\\n\\nHint: the value must be \", err)?;\n            <String as ::configure_me::parse_arg::ParseArg>::describe_type(&mut *f)?;\n            write!(f, \".\")\n        },\n        ArgParseError::FieldE(err) => {\n            write!(f, \"Failed to parse argument '--e': {}.\\n\\nHint: the value must be \", err)?;\n            <String as ::configure_me::parse_arg::ParseArg>::describe_type(&mut *f)?;\n            write!(f, \".\")\n        },\n",
            env_parse_error: "",
            display_env_parse_error: "",
            raw_config: SHORT_SWITCHES_RAW_CONFIG,
            validate: "            let d = self.d;\n            let e = self.e;\n\n            Ok(super::Config {\n                d: d.map(Into::into),\n                e: e.map(Into::into),\n                a: self.a.unwrap_or(false),\n                b: self.b.unwrap_or(false),\n                c: self.c.unwrap_or(0),\n                foo_bar: self.foo_bar.unwrap_or(false),\n            })\n",
            merge_in: &format!(
                "{}{}{}{}{}{}",
                merge_in_of("d"),
                merge_in_of("e"),
                merge_in_of("a"),
                merge_in_of("b"),
                merge_in_of("c"),
                merge_in_of("foo_bar")
            ),
            merge_args: SHORT_SWITCHES_MERGE_ARGS,
            merge_short: "                        } else if short == 'd' {\n                            self.d = Some(shorts.parse_remaining(&mut iter).map_err(|err| err.map_or(ArgParseError::MissingArgument(\"-d\"), ArgParseError::FieldD))?);\n                            break;\n                        } else if short == 'e' {\n                            self.e = Some(shorts.parse_remaining(&mut iter).map_err(|err| err.map_or(ArgParseError::MissingArgument(\"-e\"), ArgParseError::FieldE))?);\n                            break;\n                        } else if short == 'a' {\n                            self.a = Some(true);\n                        } else if short == 'b' {\n                            self.b = Some(true);\n                        } else if short == 'c' {\n                            *(self.c.get_or_insert(0)) += 1;\n                        } else if short == 'f' {\n                            self.foo_bar = Some(true);\n",
            merge_env: "",
            config: "    pub d: Option<String>,\n    pub e: Option<String>,\n    pub a: bool,\n    pub b: bool,\n    pub c: u32,\n    pub foo_bar: bool,\n",
            ..Pieces::default()
        },
    );
}

#[test]
fn lib_custom_merge_fn() {
    let foo = raw::Param {
        merge_fn: Some("(|a: &mut u32, b: u32| *a += b)".to_owned()),
        ..param("foo", "u32")
    };
    let bar = raw::Param {
        merge_fn: Some("(|a: &mut String, b: String| a.push_str(&b))".to_owned()),
        ..param("bar", "String")
    };
    let errors = "    FieldFoo(<u32 as ::configure_me::parse_arg::ParseArg>::Error),\n    FieldBar(<String as ::configure_me::parse_arg::ParseArg>::Error),\n";
    let display_arg = format!(
        "        ArgParseError::HelpRequested(program_name) => write!(f, \"Usage: {{}} [--foo FOO] [--bar BAR]\", program_name),\n{}{}",
        display_of_field("foo", "Foo", "u32"),
        display_of_field("bar", "Bar", "String"),
    );
    check(
        specification(vec![foo, bar], vec![]),
        &Pieces {
            arg_parse_error: errors,
            display_arg_parse_error: &display_arg,
            env_parse_error: errors,
            display_env_parse_error: "        EnvParseError::FieldFoo(ref err) => {\n            write!(f, \"Failed to parse environment variable 'TEST_APP_FOO': {}.\\n\\nHint: the value must be \", err)?;\n            <u32 as ::configure_me::parse_arg::ParseArg>::describe_type(&mut *f)?;\n            write!(f, \".\")\n        },\n        EnvParseError::FieldBar(ref err) => {\n            write!(f, \"Failed to parse environment variable 'TEST_APP_BAR': {}.\\n\\nHint: the value must be \", err)?;\n            <String as ::configure_me::parse_arg::ParseArg>::describe_type(&mut *f)?;\n            write!(f, \".\")\n        },\n",
            raw_config: "        foo: Option<u32>,\n        bar: Option<String>,\n",
            validate: "            let foo = self.foo;\n            let bar = self.bar;\n\n            Ok(super::Config {\n                foo: foo.map(Into::into),\n                bar: bar.map(Into::into),\n            })\n",
            merge_in: "            if let Some(foo) = other.foo {\n                if let Some(foo_old) = &mut self.foo {\n                    (|a: &mut u32, b: u32| *a += b)(foo_old, foo);\n                } else {\n                    self.foo = Some(foo);\n                }\n            }\n            if let Some(bar) = other.bar {\n                if let Some(bar_old) = &mut self.bar {\n                    (|a: &mut String, b: String| a.push_str(&b))(bar_old, bar);\n                } else {\n                    self.bar = Some(bar);\n                }\n            }\n",
            merge_args: "                } else if let Some(value) = ::configure_me::parse_arg::match_arg(\"--foo\", &arg, &mut iter) {\n                    let foo = value.map_err(|err| err.map_or(ArgParseError::MissingArgument(\"--foo\"), ArgParseError::FieldFoo))?;\n\n                    if let Some(foo_old) = &mut self.foo {\n                        (|a: &mut u32, b: u32| *a += b)(foo_old, foo);\n                    } else {\n                        self.foo = Some(foo);\n                    }\n                } else if let Some(value) = ::configure_me::parse_arg::match_arg(\"--bar\", &arg, &mut iter) {\n                    let bar = value.map_err(|err| err.map_or(ArgParseError::MissingArgument(\"--bar\"), ArgParseError::FieldBar))?;\n\n                    if let Some(bar_old) = &mut self.bar {\n                        (|a: &mut String, b: String| a.push_str(&b))(bar_old, bar);\n                    } else {\n                        self.bar = Some(bar);\n                    }\n",
            merge_short: "",
            merge_env: "        if let Some(val) = ::std::env::var_os(\"TEST_APP_FOO\") {\n            let val = ::configure_me::parse_arg::ParseArg::parse_owned_arg(val).map_err(super::EnvParseError::FieldFoo)?;\n            if let Some(foo_old) = &mut self.foo {\n                (|a: &mut u32, b: u32| *a += b)(foo_old, val);\n            } else {\n                self.foo = Some(val);\n            }\n        }\n        if let Some(val) = ::std::env::var_os(\"TEST_APP_BAR\") {\n            let val = ::configure_me::parse_arg::ParseArg::parse_owned_arg(val).map_err(super::EnvParseError::FieldBar)?;\n            if let Some(bar_old) = &mut self.bar {\n                (|a: &mut String, b: String| a.push_str(&b))(bar_old, val);\n            } else {\n                self.bar = Some(val);\n            }\n        }\n",
            config: "    pub foo: Option<u32>,\n    pub bar: Option<String>,\n",
            ..Pieces::default()
        },
    );
}

#[test]
fn conf_files() {
    let mut source = specification(
        vec![raw::Param { doc: Some("A foo".to_owned()), ..param("foo", "u32") }],
        vec![],
    );
    source.general.conf_file_param = Some(spanned("config".to_owned()));
    source.general.conf_dir_param = Some(spanned("conf_dir".to_owned()));
    let display_arg = format!(
        "        ArgParseError::HelpRequested(program_name) => write!(f, \"Usage: {{}} [--config CONF_FILE] [--conf-dir CONF_DIR] [--foo FOO]\\n\\nArguments:\\n        --config      Load configuration from this file.\\n        --conf-dir    Load configuration from files in this directory.\\n        --foo         A foo\", program_name),\n{}        ArgParseError::OpenConfDir(err, dir) => write!(f, \"Failed to open configuration directory {{}}: {{}}\", dir.display(), err),\n        ArgParseError::ReadConfDir(err, dir) => write!(f, \"Failed to read configuration directory {{}}: {{}}\", dir.display(), err),\n",
        display_of_field("foo", "Foo", "u32"),
    );
    let merge_args = format!(
        "                }} else if let Some(value) = ::configure_me::parse_arg::match_arg(\"--config\", &arg, &mut iter) {{\n                    let file_path: std::path::PathBuf = value.map_err(|err| err.map_or(ArgParseError::MissingArgument(\"--config\"), |never| match never {{}}))?;\n                    let config = Config::load(file_path)?;\n                    self.merge_in(config);\n                }} else if let Some(value) = ::configure_me::parse_arg::match_arg(\"--conf-dir\", &arg, &mut iter) {{\n                    let dir_path: std::path::PathBuf = value.map_err(|err| err.map_or(ArgParseError::MissingArgument(\"--conf-dir\"), |never| match never {{}}))?;\n\n                    let dir = match std::fs::read_dir(&dir_path) {{\n                        Ok(dir) => dir,\n                        Err(err) => return Err(ArgParseError::OpenConfDir(err, dir_path).into()),\n                    }};\n\n                    for file in dir {{\n                        let file = match file {{\n                            Ok(file) => file,\n                            Err(err) => return Err(ArgParseError::ReadConfDir(err, dir_path).into()),\n                        }};\n\n                        let config = Config::load(file.path())?;\n                        self.merge_in(config);\n                    }}\n{}",
        FOO_MERGE_ARGS
    );
    check(
        source,
        &Pieces {
            arg_parse_error: "    FieldFoo(<u32 as ::configure_me::parse_arg::ParseArg>::Error),\n    OpenConfDir(std::io::Error, std::path::PathBuf),\n    ReadConfDir(std::io::Error, std::path::PathBuf),\n",
            display_arg_parse_error: &display_arg,
            env_parse_error: FOO_ARG_ERROR,
            display_env_parse_error: FOO_DISPLAY_ENV,
            raw_config: "        foo: Option<u32>,\n",
            validate: "            let foo = self.foo;\n\n            Ok(super::Config {\n                foo: foo.map(Into::into),\n            })\n",
            merge_in: FOO_MERGE_IN,
            merge_args: &merge_args,
            merge_short: "",
            merge_env: FOO_MERGE_ENV,
            config: "    pub foo: Option<u32>,\n",
            ..Pieces::default()
        },
    );
}

#[test]
fn program_that_honours_the_skip_switch_and_needs_its_name() {
    let mut source = specification(vec![], vec![]);
    source.general.skip_default_conf_files_switch = Some(spanned("skip_defaults".to_owned()));
    source.general.program_name = Some(configure_me::span::Spanned::new("required".to_owned(), 0, 0));
    check(
        source,
        &Pieces {
            arg_parse_error: "    MissingProgramName,\n",
            display_arg_parse_error: "        ArgParseError::HelpRequested(program_name) => write!(f, \"Usage: {}\", program_name),\n        ArgParseError::MissingProgramName => write!(f, \"The name of the program is missing.\"),\n",
            validate: "\n            Ok(super::Config {\n            })\n",
            merge_args: "                } else if arg == *\"--skip-defaults\" {\n                    *skip_default_conf_files = true;\n",
            process_program_name: "        let program_name = program_name.ok_or(ArgParseError::MissingProgramName)?;\n",
            metadata_fields: "    pub program_name: ::std::path::PathBuf,\n",
            ..Pieces::default()
        },
    );
    let mut source = specification(vec![], vec![]);
    source.general.program_name = Some(configure_me::span::Spanned::new("unused".to_owned(), 0, 0));
    check(
        source,
        &Pieces {
            display_arg_parse_error: "        ArgParseError::HelpRequested(program_name) => write!(f, \"Usage: {}\", program_name),\n",
            validate: "\n            Ok(super::Config {\n            })\n",
            process_program_name: "        let _ = program_name;\n",
            construct_metadata: "",
            metadata_fields: "",
            ..Pieces::default()
        },
    );
}

#[test]
fn short_option_with_a_combinator() {
    let foo = raw::Param {
        abbr: Some(spanned('f')),
        merge_fn: Some("add".to_owned()),
        env_var: Some(false),
        ..param("foo", "u32")
    };
    let mut out = String::new();
    configure_me::codegen::program::write_config::<configure_me::codegen::visitor::MergeShort>(
        &validated(specification(vec![foo], vec![])),
        &mut out,
    );
    assert_eq!(
        out,
        "                        } else if short == 'f' {\n                            let foo = shorts.parse_remaining(&mut iter).map_err(|err| err.map_or(ArgParseError::MissingArgument(\"-f\"), ArgParseError::FieldFoo))?;\n                            if let Some(foo_old) = &mut self.foo {\n                                add(foo_old, foo);\n                            } else {\n                                self.foo = Some(foo);\n                            }\n                            break;\n"
    );
}
