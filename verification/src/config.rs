//! The description of a program's configuration: its parameters, its
//! switches and the options that concern the program as a whole, as they
//! stand once the description has been found consistent.

pub mod raw;
pub mod rules;
pub mod order;
pub mod laws;

use vstd::prelude::*;
use crate::debconf::{DebConfig, DebConfigView, Priority};
use crate::ident;
use crate::ident::{is_identifier, Ident};
use crate::span::Span;
use crate::text::same_text;

verus! {

/// What is wrong with one field, with the places that show it.
#[derive(Debug, Clone, Copy)]
pub enum FieldError {
    /// The parameter is declared mandatory and has a default value.
    MandatoryWithDefault { optional_span: Span, default_span: Span },
    /// The switch is on by default and has a short option.
    InvertedWithAbbr { default_span: Span, abbr_span: Span },
    /// The switch is on by default and counts its occurrences.
    InvertedWithCount { default_span: Span, count_span: Span },
    /// The short option of the switch is no letter.
    InvalidAbbr { abbr_span: Span },
    /// The name is one that every program has of itself.
    ReservedParameter,
}

impl DeepView for FieldError {
    type V = FieldError;

    open spec fn deep_view(&self) -> FieldError {
        *self
    }
}

/// The ways in which one field can be wrong.
#[derive(Debug, Clone, Copy, PartialEq, Eq, Structural)]
pub enum ValidationErrorKind {
    MandatoryWithDefault,
    InvertedWithAbbr,
    InvertedWithCount,
    InvalidAbbr,
    ReservedParameter,
}

/// The way in which a field is wrong, without the places.
pub open spec fn kind_of(error: FieldError) -> ValidationErrorKind {
    match error {
        FieldError::MandatoryWithDefault { .. } => ValidationErrorKind::MandatoryWithDefault,
        FieldError::InvertedWithAbbr { .. } => ValidationErrorKind::InvertedWithAbbr,
        FieldError::InvertedWithCount { .. } => ValidationErrorKind::InvertedWithCount,
        FieldError::InvalidAbbr { .. } => ValidationErrorKind::InvalidAbbr,
        FieldError::ReservedParameter => ValidationErrorKind::ReservedParameter,
    }
}

impl FieldError {
    /// The way in which the field is wrong, without the places.
    pub fn kind(&self) -> (kind: ValidationErrorKind)
        ensures
            kind == kind_of(*self),
    {
        match self {
            FieldError::MandatoryWithDefault { .. } => ValidationErrorKind::MandatoryWithDefault,
            FieldError::InvertedWithAbbr { .. } => ValidationErrorKind::InvertedWithAbbr,
            FieldError::InvertedWithCount { .. } => ValidationErrorKind::InvertedWithCount,
            FieldError::InvalidAbbr { .. } => ValidationErrorKind::InvalidAbbr,
            FieldError::ReservedParameter => ValidationErrorKind::ReservedParameter,
        }
    }
}

/// One thing that is wrong with a specification.
#[derive(Debug)]
pub enum ValidationErrorSource {
    /// The field `name`, declared at `span`, is wrong in the way `kind` says.
    InvalidField { name: String, span: Span, kind: FieldError },
    /// The option `name`, first declared at `first_span`, is declared again
    /// at each of `duplicate_spans`.
    Duplicates { name: String, first_span: Span, duplicate_spans: Vec<Span> },
    /// A name is no legal field name.
    InvalidIdentifier(ident::Error),
    /// The word `input`, written at `span`, names no way of handling the
    /// program's name.
    InvalidProgramName { input: String, span: Span },
}

/// One finding of the validation.
#[derive(Debug)]
pub struct ValidationError {
    source: ValidationErrorSource,
}

/// What a [`ValidationError`] stands for in contracts.
pub enum ValidationErrorView {
    InvalidField { name: Seq<char>, span: Span, kind: FieldError },
    Duplicates { name: Seq<char>, first_span: Span, duplicate_spans: Seq<Span> },
    InvalidIdentifier(ident::ErrorView),
    InvalidProgramName { input: Seq<char>, span: Span },
}

impl DeepView for ValidationErrorSource {
    type V = ValidationErrorView;

    open spec fn deep_view(&self) -> ValidationErrorView {
        match self {
            ValidationErrorSource::InvalidField { name, span, kind } => {
                ValidationErrorView::InvalidField { name: name@, span: *span, kind: *kind }
            },
            ValidationErrorSource::Duplicates { name, first_span, duplicate_spans } => {
                ValidationErrorView::Duplicates {
                    name: name@,
                    first_span: *first_span,
                    duplicate_spans: duplicate_spans@,
                }
            },
            ValidationErrorSource::InvalidIdentifier(error) => {
                ValidationErrorView::InvalidIdentifier(error.deep_view())
            },
            ValidationErrorSource::InvalidProgramName { input, span } => {
                ValidationErrorView::InvalidProgramName { input: input@, span: *span }
            },
        }
    }
}

impl DeepView for ValidationError {
    type V = ValidationErrorView;

    closed spec fn deep_view(&self) -> ValidationErrorView {
        self.source.deep_view()
    }
}

/// The smaller of two offsets.
pub open spec fn min_offset(a: usize, b: usize) -> usize {
    if a <= b {
        a
    } else {
        b
    }
}

/// The least of `least` and the offsets at which the places `spans` start.
pub open spec fn least_start(spans: Seq<Span>, least: usize) -> usize
    decreases spans.len(),
{
    if spans.len() == 0 {
        least
    } else {
        min_offset(least_start(spans.drop_last(), least), spans.last().start)
    }
}

/// [`least_start`] is not greater than `least` nor than the start of any of
/// the places, and is one of them.
pub proof fn least_start_is_least(spans: Seq<Span>, least: usize)
    ensures
        least_start(spans, least) <= least,
        forall|k: int| 0 <= k < spans.len() ==> least_start(spans, least) <= (#[trigger] spans[k]).start,
        least_start(spans, least) == least || exists|k: int|
            0 <= k < spans.len() && least_start(spans, least) == (#[trigger] spans[k]).start,
    decreases spans.len(),
{
    if spans.len() > 0 {
        let front = spans.drop_last();
        least_start_is_least(front, least);
        assert forall|k: int| 0 <= k < spans.len() implies least_start(spans, least) <= (
        #[trigger] spans[k]).start by {
            if k < front.len() {
                assert(front[k] == spans[k]);
            }
        }
        if least_start(spans, least) != least {
            if least_start(spans, least) == spans.last().start {
                assert(spans[spans.len() - 1].start == least_start(spans, least));
            } else {
                let k = choose|k: int|
                    0 <= k < front.len() && least_start(front, least) == (#[trigger] front[k]).start;
                assert(spans[k] == front[k]);
            }
        }
    }
}

/// The offset by which findings are ordered: the smallest offset among the
/// places that show what is wrong. For a field that contradicts itself these
/// are the places of the declarations that contradict each other; for a
/// short option that is no letter, the place of the option; for a reserved
/// name and for a name that is no legal field name, the place of the name;
/// for an option that was declared more than once, every place at which it
/// was declared, the first one too; for a word that names no way of handling
/// the program's name, the place of the word.
pub open spec fn sort_key(error: ValidationErrorView) -> usize {
    match error {
        ValidationErrorView::InvalidField { span, kind, .. } => match kind {
            FieldError::MandatoryWithDefault { optional_span, default_span } => min_offset(
                optional_span.start,
                default_span.start,
            ),
            FieldError::InvertedWithAbbr { default_span, abbr_span } => min_offset(
                abbr_span.start,
                default_span.start,
            ),
            FieldError::InvertedWithCount { default_span, count_span } => min_offset(
                count_span.start,
                default_span.start,
            ),
            FieldError::InvalidAbbr { abbr_span } => abbr_span.start,
            FieldError::ReservedParameter => span.start,
        },
        ValidationErrorView::Duplicates { first_span, duplicate_spans, .. } => least_start(
            duplicate_spans,
            first_span.start,
        ),
        ValidationErrorView::InvalidIdentifier(error) => ident::error_span(error).start,
        ValidationErrorView::InvalidProgramName { span, .. } => span.start,
    }
}

fn min(a: usize, b: usize) -> (m: usize)
    ensures
        m == min_offset(a, b),
{
    if a <= b {
        a
    } else {
        b
    }
}

impl ValidationError {
    /// Wraps what was found.
    pub fn new(source: ValidationErrorSource) -> (error: ValidationError)
        ensures
            error.deep_view() == source.deep_view(),
            *error.source_of() == source,
    {
        ValidationError { source }
    }

    /// What was found, as a value of the program.
    pub closed spec fn source_of(&self) -> &ValidationErrorSource {
        &self.source
    }

    /// What was found.
    pub fn source(&self) -> (source: &ValidationErrorSource)
        ensures
            source == self.source_of(),
            source.deep_view() == self.deep_view(),
    {
        &self.source
    }

    /// The offset by which findings are ordered.
    pub fn sort_key(&self) -> (key: usize)
        ensures
            key == sort_key(self.deep_view()),
    {
        match &self.source {
            ValidationErrorSource::InvalidField { kind, span, .. } => match kind {
                FieldError::MandatoryWithDefault { optional_span, default_span } => min(
                    optional_span.start,
                    default_span.start,
                ),
                FieldError::InvertedWithAbbr { abbr_span, default_span } => min(
                    abbr_span.start,
                    default_span.start,
                ),
                FieldError::InvertedWithCount { count_span, default_span } => min(
                    count_span.start,
                    default_span.start,
                ),
                FieldError::InvalidAbbr { abbr_span } => abbr_span.start,
                FieldError::ReservedParameter => span.start,
            },
            ValidationErrorSource::Duplicates { first_span, duplicate_spans, .. } => {
                let mut least = first_span.start;
                let mut k: usize = 0;
                proof {
                    assert(duplicate_spans@.take(0) =~= Seq::empty());
                }
                while k < duplicate_spans.len()
                    invariant
                        k <= duplicate_spans.len(),
                        least == least_start(duplicate_spans@.take(k as int), first_span.start),
                    decreases duplicate_spans.len() - k,
                {
                    proof {
                        assert(duplicate_spans@.take(k + 1).drop_last() =~= duplicate_spans@.take(
                            k as int,
                        ));
                    }
                    least = min(least, duplicate_spans[k].start);
                    k = k + 1;
                }
                proof {
                    assert(duplicate_spans@.take(duplicate_spans.len() as int)
                        =~= duplicate_spans@);
                }
                least
            },
            ValidationErrorSource::InvalidIdentifier(error) => error.span().start,
            ValidationErrorSource::InvalidProgramName { span, .. } => span.start,
        }
    }
}

/// What the program does with the name it was started under.
#[derive(Debug, Clone, Copy, PartialEq, Eq, Structural)]
pub enum ProgramName {
    /// It has no use for it.
    Unused,
    /// It takes it where there is one.
    Optional,
    /// It cannot do without it.
    Required,
}

/// The way of handling the program's name that the word `word` names, if
/// it names one.
pub open spec fn strategy_of(word: Seq<char>) -> Option<ProgramName> {
    if word == "unused"@ {
        Some(ProgramName::Unused)
    } else if word == "optional"@ {
        Some(ProgramName::Optional)
    } else if word == "required"@ {
        Some(ProgramName::Required)
    } else {
        None
    }
}

impl ProgramName {
    /// Computes [`strategy_of`].
    pub fn from_word(word: &str) -> (r: Option<ProgramName>)
        ensures
            r == strategy_of(word@),
    {
        if same_text(word, "unused") {
            Some(ProgramName::Unused)
        } else if same_text(word, "optional") {
            Some(ProgramName::Optional)
        } else if same_text(word, "required") {
            Some(ProgramName::Required)
        } else {
            None
        }
    }
}

/// What holds of a field where the specification does not say otherwise.
#[derive(Debug, Clone, Copy, PartialEq, Eq, Structural)]
pub struct Defaults {
    /// Parameters can be given on the command line.
    pub args: bool,
    /// Fields can be given in the environment; where this is not said, they
    /// can be if a prefix for their variables is set.
    pub env_vars: Option<bool>,
    /// Parameters may be left out.
    pub optional: bool,
}

impl Default for Defaults {
    fn default() -> (defaults: Defaults)
        ensures
            defaults == (Defaults { args: true, env_vars: None, optional: true }),
    {
        Defaults { args: true, env_vars: None, optional: true }
    }
}

/// Whether a parameter has to be given.
#[derive(Debug)]
pub enum Optionality {
    /// It has to be given.
    Mandatory,
    /// It may be left out, and is then absent.
    Optional,
    /// It may be left out, and then has the value of this expression.
    DefaultValue(String),
}

/// What an [`Optionality`] stands for in contracts.
pub enum OptionalityView {
    Mandatory,
    Optional,
    DefaultValue(Seq<char>),
}

impl DeepView for Optionality {
    type V = OptionalityView;

    open spec fn deep_view(&self) -> OptionalityView {
        match self {
            Optionality::Mandatory => OptionalityView::Mandatory,
            Optionality::Optional => OptionalityView::Optional,
            Optionality::DefaultValue(value) => OptionalityView::DefaultValue(value@),
        }
    }
}

/// How a switch is given on the command line.
#[derive(Debug, Clone, Copy)]
pub enum SwitchKind {
    /// Off unless given; given by its long name or by `abbr`. If `count`,
    /// its value is the number of times it was given.
    Normal { abbr: Option<char>, count: bool },
    /// On unless given; given by its long name behind `no-`.
    Inverted,
}

impl DeepView for SwitchKind {
    type V = SwitchKind;

    open spec fn deep_view(&self) -> SwitchKind {
        *self
    }
}

/// A value that the program takes.
#[derive(Debug)]
pub struct Param {
    pub name: Ident,
    pub abbr: Option<char>,
    pub ty: String,
    pub optionality: Optionality,
    pub doc: Option<String>,
    pub argument: bool,
    pub env_var: bool,
    pub convert_into: String,
    pub merge_fn: Option<String>,
    pub debconf_priority: Option<Priority>,
    pub debconf_default: Option<String>,
}

/// What a [`Param`] stands for in contracts.
pub struct ParamView {
    pub name: Seq<char>,
    pub abbr: Option<char>,
    pub ty: Seq<char>,
    pub optionality: OptionalityView,
    pub doc: Option<Seq<char>>,
    pub argument: bool,
    pub env_var: bool,
    pub convert_into: Seq<char>,
    pub merge_fn: Option<Seq<char>>,
    pub debconf_priority: Option<Priority>,
    pub debconf_default: Option<Seq<char>>,
}

impl DeepView for Param {
    type V = ParamView;

    open spec fn deep_view(&self) -> ParamView {
        ParamView {
            name: self.name.deep_view(),
            abbr: self.abbr,
            ty: self.ty@,
            optionality: self.optionality.deep_view(),
            doc: self.doc.deep_view(),
            argument: self.argument,
            env_var: self.env_var,
            convert_into: self.convert_into@,
            merge_fn: self.merge_fn.deep_view(),
            debconf_priority: self.debconf_priority,
            debconf_default: self.debconf_default.deep_view(),
        }
    }
}

/// Something that the program can be told to do or not to do.
#[derive(Debug)]
pub struct Switch {
    pub name: Ident,
    pub kind: SwitchKind,
    pub doc: Option<String>,
    pub env_var: bool,
    pub debconf_priority: Option<Priority>,
}

/// What a [`Switch`] stands for in contracts.
pub struct SwitchView {
    pub name: Seq<char>,
    pub kind: SwitchKind,
    pub doc: Option<Seq<char>>,
    pub env_var: bool,
    pub debconf_priority: Option<Priority>,
}

impl DeepView for Switch {
    type V = SwitchView;

    open spec fn deep_view(&self) -> SwitchView {
        SwitchView {
            name: self.name.deep_view(),
            kind: self.kind,
            doc: self.doc.deep_view(),
            env_var: self.env_var,
            debconf_priority: self.debconf_priority,
        }
    }
}

/// Whether the switch `kind` is on unless it is given.
pub open spec fn kind_is_inverted(kind: SwitchKind) -> bool {
    kind is Inverted
}

/// Whether the switch `kind` counts how often it is given.
pub open spec fn kind_is_count(kind: SwitchKind) -> bool {
    kind matches SwitchKind::Normal { count: true, .. }
}

/// The short option of the switch `kind`, if it has one.
pub open spec fn kind_abbr(kind: SwitchKind) -> Option<char> {
    match kind {
        SwitchKind::Normal { abbr, .. } => abbr,
        SwitchKind::Inverted => None,
    }
}

impl Switch {
    /// Whether the switch is on unless it is given.
    pub fn is_inverted(&self) -> (inverted: bool)
        ensures
            inverted == kind_is_inverted(self.kind),
    {
        match self.kind {
            SwitchKind::Inverted => true,
            SwitchKind::Normal { .. } => false,
        }
    }

    /// Whether the switch counts how often it is given.
    pub fn is_count(&self) -> (count: bool)
        ensures
            count == kind_is_count(self.kind),
    {
        match self.kind {
            SwitchKind::Normal { count, .. } => count,
            SwitchKind::Inverted => false,
        }
    }

    /// The short option of the switch, if it has one.
    pub fn abbr(&self) -> (abbr: Option<char>)
        ensures
            abbr == kind_abbr(self.kind),
    {
        match self.kind {
            SwitchKind::Normal { abbr, .. } => abbr,
            SwitchKind::Inverted => None,
        }
    }
}

/// What a specification says of the program as a whole.
#[derive(Debug)]
pub struct General {
    /// Name of the program.
    pub name: Option<String>,
    /// Short description of the program.
    pub summary: Option<String>,
    /// Long description of the program.
    pub doc: Option<String>,
    /// What the name of every environment variable of the program starts
    /// with.
    pub env_prefix: Option<String>,
    /// The parameter that names a configuration file to load at once.
    pub conf_file_param: Option<Ident>,
    /// The parameter that names a directory whose files are loaded at once.
    pub conf_dir_param: Option<Ident>,
    /// The switch that keeps the default configuration files from being
    /// read.
    pub skip_default_conf_files_switch: Option<Ident>,
    /// What the program does with the name it was started under.
    pub program_name: ProgramName,
}

/// What a [`General`] stands for in contracts.
pub struct GeneralView {
    pub name: Option<Seq<char>>,
    pub summary: Option<Seq<char>>,
    pub doc: Option<Seq<char>>,
    pub env_prefix: Option<Seq<char>>,
    pub conf_file_param: Option<Seq<char>>,
    pub conf_dir_param: Option<Seq<char>>,
    pub skip_default_conf_files_switch: Option<Seq<char>>,
    pub program_name: ProgramName,
}

impl DeepView for General {
    type V = GeneralView;

    open spec fn deep_view(&self) -> GeneralView {
        GeneralView {
            name: self.name.deep_view(),
            summary: self.summary.deep_view(),
            doc: self.doc.deep_view(),
            env_prefix: self.env_prefix.deep_view(),
            conf_file_param: self.conf_file_param.deep_view(),
            conf_dir_param: self.conf_dir_param.deep_view(),
            skip_default_conf_files_switch: self.skip_default_conf_files_switch.deep_view(),
            program_name: self.program_name,
        }
    }
}

/// A specification that was found consistent.
#[derive(Debug)]
pub struct Config {
    pub general: General,
    pub debconf: Option<DebConfig>,
    pub params: Vec<Param>,
    pub switches: Vec<Switch>,
}

/// What a [`Config`] stands for in contracts.
pub struct ConfigView {
    pub general: GeneralView,
    pub debconf: Option<DebConfigView>,
    pub params: Seq<ParamView>,
    pub switches: Seq<SwitchView>,
}

impl DeepView for Config {
    type V = ConfigView;

    open spec fn deep_view(&self) -> ConfigView {
        ConfigView {
            general: self.general.deep_view(),
            debconf: self.debconf.deep_view(),
            params: self.params.deep_view(),
            switches: self.switches.deep_view(),
        }
    }
}

/// The name in an optional name, as a list of none or one.
pub open spec fn optional_name(name: Option<Seq<char>>) -> Seq<Seq<char>> {
    match name {
        Some(name) => seq![name],
        None => Seq::empty(),
    }
}

/// The long names that a specification declares, in the order in which it
/// declares them: the three names of the general options that are set, the
/// parameters, the switches.
pub open spec fn long_names(config: ConfigView) -> Seq<Seq<char>> {
    optional_name(config.general.conf_file_param) + optional_name(config.general.conf_dir_param)
        + optional_name(config.general.skip_default_conf_files_switch) + config.params.map_values(
        |param: ParamView| param.name,
    ) + config.switches.map_values(|switch: SwitchView| switch.name)
}

/// Whether the short option `abbr` is an English letter.
pub open spec fn is_letter(abbr: char) -> bool {
    ('a' <= abbr && abbr <= 'z') || ('A' <= abbr && abbr <= 'Z')
}

/// Those of `options` that are set, in their order.
pub open spec fn present(options: Seq<Option<char>>) -> Seq<char>
    decreases options.len(),
{
    if options.len() == 0 {
        Seq::empty()
    } else {
        match options.last() {
            Some(option) => present(options.drop_last()).push(option),
            None => present(options.drop_last()),
        }
    }
}

/// The short options that a specification declares, in the order in which
/// it declares them: those of the parameters, then those of the switches.
pub open spec fn short_options(config: ConfigView) -> Seq<char> {
    present(config.params.map_values(|param: ParamView| param.abbr)) + present(
        config.switches.map_values(|switch: SwitchView| kind_abbr(switch.kind)),
    )
}

/// What holds of every specification that was found consistent: each name
/// is a legal field name; no two fields have the same long name, and none is
/// called `help`; no two fields have the same short option, and none has
/// `h`; the short option of a switch is an English letter.
pub open spec fn consistent(config: ConfigView) -> bool {
    &&& forall|i: int|
        0 <= i < long_names(config).len() ==> is_identifier(#[trigger] long_names(config)[i])
    &&& (seq!["help"@] + long_names(config)).no_duplicates()
    &&& (seq!['h'] + short_options(config)).no_duplicates()
    &&& forall|i: int|
        0 <= i < config.switches.len() ==> match kind_abbr((#[trigger] config.switches[i]).kind) {
            Some(abbr) => is_letter(abbr),
            None => true,
        }
}

} // verus!
