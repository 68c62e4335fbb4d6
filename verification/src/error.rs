//! What can go wrong while the configuration of a program is put together,
//! and what is said of it.

use vstd::prelude::*;
use crate::value::{kind_description, ValueKind};

verus! {

/// Why the command line could not be read, or that it asks for help.
#[derive(Debug)]
pub enum ArgParseError {
    /// The option that is named here takes a value, and none follows.
    MissingArgument(String),
    /// No option is called what is named here.
    UnknownArgument(String),
    /// The command line asks how the program is called; the answer is
    /// held here.
    HelpRequested(String),
    /// The value given for `option` is none of the kind `kind`.
    Field { option: String, error: String, kind: ValueKind },
    /// The directory `path` could not be opened.
    OpenConfDir { reason: String, path: String },
    /// The directory `path` could not be read to its end.
    ReadConfDir { reason: String, path: String },
    /// The program cannot do without the name it was started under, and the
    /// command line does not hold it.
    MissingProgramName,
}

/// What an [`ArgParseError`] stands for in contracts.
pub enum ArgParseErrorView {
    MissingArgument(Seq<char>),
    UnknownArgument(Seq<char>),
    HelpRequested(Seq<char>),
    Field { option: Seq<char>, error: Seq<char>, kind: ValueKind },
    OpenConfDir { reason: Seq<char>, path: Seq<char> },
    ReadConfDir { reason: Seq<char>, path: Seq<char> },
    MissingProgramName,
}

impl DeepView for ArgParseError {
    type V = ArgParseErrorView;

    open spec fn deep_view(&self) -> ArgParseErrorView {
        match self {
            ArgParseError::MissingArgument(arg) => ArgParseErrorView::MissingArgument(arg@),
            ArgParseError::UnknownArgument(arg) => ArgParseErrorView::UnknownArgument(arg@),
            ArgParseError::HelpRequested(text) => ArgParseErrorView::HelpRequested(text@),
            ArgParseError::Field { option, error, kind } => ArgParseErrorView::Field {
                option: option@,
                error: error@,
                kind: *kind,
            },
            ArgParseError::OpenConfDir { reason, path } => ArgParseErrorView::OpenConfDir {
                reason: reason@,
                path: path@,
            },
            ArgParseError::ReadConfDir { reason, path } => ArgParseErrorView::ReadConfDir {
                reason: reason@,
                path: path@,
            },
            ArgParseError::MissingProgramName => ArgParseErrorView::MissingProgramName,
        }
    }
}

/// What is said of a value that is none of the kind asked for, behind the
/// words `intro` and the name `subject` of what it was given for.
pub open spec fn value_message(
    intro: Seq<char>,
    subject: Seq<char>,
    error: Seq<char>,
    kind: ValueKind,
) -> Seq<char> {
    intro + subject + "': "@ + error + ".\n\nHint: the value must be "@
        + kind_description(kind) + "."@
}

/// What is said of an error on the command line.
pub open spec fn arg_error_text(error: ArgParseErrorView) -> Seq<char> {
    match error {
        ArgParseErrorView::MissingArgument(arg) => "A value to argument '"@ + arg
            + "' is missing."@,
        ArgParseErrorView::UnknownArgument(arg) => "An unknown argument '"@ + arg
            + "' was specified."@,
        ArgParseErrorView::HelpRequested(text) => text,
        ArgParseErrorView::Field { option, error, kind } => value_message(
            "Failed to parse argument '"@,
            option,
            error,
            kind,
        ),
        ArgParseErrorView::OpenConfDir { reason, path } => "Failed to open configuration directory "@
            + path + ": "@ + reason,
        ArgParseErrorView::ReadConfDir { reason, path } => "Failed to read configuration directory "@
            + path + ": "@ + reason,
        ArgParseErrorView::MissingProgramName => "The name of the program is missing."@,
    }
}

/// Writes what is said of a value that is none of the kind asked for.
fn value_message_of(intro: &str, subject: &str, error: &str, kind: ValueKind) -> (text:
    String)
    ensures
        text@ == value_message(intro@, subject@, error@, kind),
{
    let mut out = String::from_str(intro);
    out.append(subject);
    out.append("': ");
    out.append(error);
    out.append(".\n\nHint: the value must be ");
    out.append(kind.describe().as_str());
    out.append(".");
    out
}

impl ArgParseError {
    /// What is said of the error.
    pub fn to_string(&self) -> (text: String)
        ensures
            text@ == arg_error_text(self.deep_view()),
    {
        match self {
            ArgParseError::MissingArgument(arg) => {
                let mut out = String::from_str("A value to argument '");
                out.append(arg.as_str());
                out.append("' is missing.");
                out
            },
            ArgParseError::UnknownArgument(arg) => {
                let mut out = String::from_str("An unknown argument '");
                out.append(arg.as_str());
                out.append("' was specified.");
                out
            },
            ArgParseError::HelpRequested(text) => text.clone(),
            ArgParseError::Field { option, error, kind } => value_message_of(
                "Failed to parse argument '",
                option.as_str(),
                error.as_str(),
                *kind,
            ),
            ArgParseError::OpenConfDir { reason, path } => {
                let mut out = String::from_str("Failed to open configuration directory ");
                out.append(path.as_str());
                out.append(": ");
                out.append(reason.as_str());
                out
            },
            ArgParseError::ReadConfDir { reason, path } => {
                let mut out = String::from_str("Failed to read configuration directory ");
                out.append(path.as_str());
                out.append(": ");
                out.append(reason.as_str());
                out
            },
            ArgParseError::MissingProgramName => String::from_str(
                "The name of the program is missing.",
            ),
        }
    }

    /// Whether the command line asks how the program is called.
    pub fn is_help(&self) -> (help: bool)
        ensures
            help == (self.deep_view() is HelpRequested),
    {
        match self {
            ArgParseError::HelpRequested(_) => true,
            _ => false,
        }
    }
}

/// The text of `value` as a program would write it down: in quotes, with
/// what cannot be shown written out.
pub uninterp spec fn debug_text(value: Seq<char>) -> Seq<char>;

/// The formatting of a string with `{:?}`: the text in quotes, with what
/// cannot be shown written out. Nothing is stated of the result but that it
/// depends on the text alone.
#[verifier::external_body]
fn debug_string(value: &str) -> (text: String)
    ensures
        text@ == debug_text(value@),
{
    format!("{:?}", value)
}

/// Why the environment could not be read.
#[derive(Debug)]
pub enum EnvParseError {
    /// The variable `variable` of a parameter holds no value of the kind
    /// `kind`.
    Field { variable: String, error: String, kind: ValueKind },
    /// The variable `variable` of a switch that counts holds no count.
    Count { variable: String, error: String },
    /// The variable `variable` of a switch holds `value`, which is neither
    /// yes nor no.
    Switch { variable: String, value: String },
}

/// What an [`EnvParseError`] stands for in contracts.
pub enum EnvParseErrorView {
    Field { variable: Seq<char>, error: Seq<char>, kind: ValueKind },
    Count { variable: Seq<char>, error: Seq<char> },
    Switch { variable: Seq<char>, value: Seq<char> },
}

impl DeepView for EnvParseError {
    type V = EnvParseErrorView;

    open spec fn deep_view(&self) -> EnvParseErrorView {
        match self {
            EnvParseError::Field { variable, error, kind } => EnvParseErrorView::Field {
                variable: variable@,
                error: error@,
                kind: *kind,
            },
            EnvParseError::Count { variable, error } => EnvParseErrorView::Count {
                variable: variable@,
                error: error@,
            },
            EnvParseError::Switch { variable, value } => EnvParseErrorView::Switch {
                variable: variable@,
                value: value@,
            },
        }
    }
}

/// What is said of an error in the environment.
pub open spec fn env_error_text(error: EnvParseErrorView) -> Seq<char> {
    match error {
        EnvParseErrorView::Field { variable, error, kind } => value_message(
            "Failed to parse environment variable '"@,
            variable,
            error,
            kind,
        ),
        EnvParseErrorView::Count { variable, error } => value_message(
            "Invalid value for '"@,
            variable,
            error,
            ValueKind::Integer(crate::value::IntegerType::U32),
        ),
        EnvParseErrorView::Switch { variable, value } => "Invalid value '"@ + debug_text(value)
            + "' for '"@ + variable + "'.\n\nHint: the allowed values are 0, false, 1, true."@,
    }
}

impl EnvParseError {
    /// What is said of the error.
    pub fn to_string(&self) -> (text: String)
        ensures
            text@ == env_error_text(self.deep_view()),
    {
        match self {
            EnvParseError::Field { variable, error, kind } => value_message_of(
                "Failed to parse environment variable '",
                variable.as_str(),
                error.as_str(),
                *kind,
            ),
            EnvParseError::Count { variable, error } => value_message_of(
                "Invalid value for '",
                variable.as_str(),
                error.as_str(),
                ValueKind::Integer(crate::value::IntegerType::U32),
            ),
            EnvParseError::Switch { variable, value } => {
                let mut out = String::from_str("Invalid value '");
                out.append(debug_string(value.as_str()).as_str());
                out.append("' for '");
                out.append(variable.as_str());
                out.append("'.\n\nHint: the allowed values are 0, false, 1, true.");
                out
            },
        }
    }
}

/// A parameter that has to be given and was not.
#[derive(Debug)]
pub struct MissingField {
    pub name: String,
}

impl DeepView for MissingField {
    type V = Seq<char>;

    open spec fn deep_view(&self) -> Seq<char> {
        self.name@
    }
}

/// What is said of a parameter that has to be given and was not.
pub open spec fn missing_field_text(name: Seq<char>) -> Seq<char> {
    "Configuration parameter '"@ + name + "' not specified."@
}

impl MissingField {
    /// What is said of the error.
    pub fn to_string(&self) -> (text: String)
        ensures
            text@ == missing_field_text(self.deep_view()),
    {
        let mut out = String::from_str("Configuration parameter '");
        out.append(self.name.as_str());
        out.append("' not specified.");
        out
    }
}

/// Why the configuration of a program could not be put together.
#[derive(Debug)]
pub enum Error {
    /// The file `file` could not be read.
    Reading { file: String, error: String },
    /// The file `file` is no configuration of the program.
    ConfigParsing { file: String, error: String },
    /// The command line could not be read, or asks for help.
    Arguments(ArgParseError),
    /// The environment could not be read.
    Environment(EnvParseError),
    /// A parameter that has to be given was not.
    Validation(MissingField),
}

/// What an [`Error`] stands for in contracts.
pub enum ErrorView {
    Reading { file: Seq<char>, error: Seq<char> },
    ConfigParsing { file: Seq<char>, error: Seq<char> },
    Arguments(ArgParseErrorView),
    Environment(EnvParseErrorView),
    Validation(Seq<char>),
}

impl DeepView for Error {
    type V = ErrorView;

    open spec fn deep_view(&self) -> ErrorView {
        match self {
            Error::Reading { file, error } => ErrorView::Reading { file: file@, error: error@ },
            Error::ConfigParsing { file, error } => ErrorView::ConfigParsing {
                file: file@,
                error: error@,
            },
            Error::Arguments(error) => ErrorView::Arguments(error.deep_view()),
            Error::Environment(error) => ErrorView::Environment(error.deep_view()),
            Error::Validation(error) => ErrorView::Validation(error.deep_view()),
        }
    }
}

/// What is said of an error.
pub open spec fn error_text(error: ErrorView) -> Seq<char> {
    match error {
        ErrorView::Reading { file, error } => "Failed to read configuration file "@ + file + ": "@
            + error,
        ErrorView::ConfigParsing { file, error } => "Failed to parse configuration file "@ + file
            + ": "@ + error,
        ErrorView::Arguments(error) => arg_error_text(error),
        ErrorView::Environment(error) => env_error_text(error),
        ErrorView::Validation(name) => "Invalid configuration: "@ + missing_field_text(name),
    }
}

impl Error {
    /// What is said of the error.
    pub fn to_string(&self) -> (text: String)
        ensures
            text@ == error_text(self.deep_view()),
    {
        match self {
            Error::Reading { file, error } => {
                let mut out = String::from_str("Failed to read configuration file ");
                out.append(file.as_str());
                out.append(": ");
                out.append(error.as_str());
                out
            },
            Error::ConfigParsing { file, error } => {
                let mut out = String::from_str("Failed to parse configuration file ");
                out.append(file.as_str());
                out.append(": ");
                out.append(error.as_str());
                out
            },
            Error::Arguments(error) => error.to_string(),
            Error::Environment(error) => error.to_string(),
            Error::Validation(error) => {
                let mut out = String::from_str("Invalid configuration: ");
                out.append(error.to_string().as_str());
                out
            },
        }
    }

    /// Whether the error is the command line's asking for help, which is
    /// answered and is no failure.
    pub fn is_help(&self) -> (help: bool)
        ensures
            help == (self.deep_view() matches ErrorView::Arguments(
                ArgParseErrorView::HelpRequested(_),
            )),
    {
        match self {
            Error::Arguments(error) => error.is_help(),
            _ => false,
        }
    }
}

} // verus!
