//! A specification as it was written, before it is known to be consistent,
//! and the examination that finds out.

use vstd::prelude::*;
use crate::config::{
    Defaults, FieldError, Optionality, ProgramName, SwitchKind, ValidationError, ValidationErrorSource, ValidationErrorView};
use crate::debconf::{DebConfig, DebConfigView, Priority};
use crate::ident::{ident_of, Ident};
use crate::span::{Span, Spanned, SpannedView};
use crate::config::order::sort_by_key;
use crate::config::rules::{
    after_fields, after_general, after_params, after_switches,
    check_long, check_opt_long, check_short, declared_policy, default_env_var, field_errors,
    findings, program_name_errors,
    general_name, general_name_errors, initial_checks, kind_given, name_errors, noted, optionality_of,
    refused, switch_kind_of, valid_params, valid_switches, validated, validated_param,
    validated_switch, Checks};
use crate::config::{Config as ValidConfig, General as ValidGeneral, Param as ValidParam, Switch as ValidSwitch};
use crate::text::result_view;
use crate::views::{lemma_deep_view_add, lemma_deep_view_empty, lemma_deep_view_push};

verus! {

/// The names that were declared so far, each with the place of its first
/// declaration, and the names that were declared more than once. Both are
/// kept as lists in the order in which the names first came up, and a name
/// is found by comparing: the findings are handed out in the order of the
/// lists, so the outcome of an examination depends on nothing but the
/// specification.
pub struct ArgValidator {
    map: Vec<(String, Option<Span>)>,
    dup_cache: Vec<(String, Span, Vec<Span>)>,
}

/// What an [`ArgValidator`] stands for in contracts. In `map` each name
/// stands once, in the order of the first declarations; a name without a
/// place is reserved. In `dup_cache` each name that was declared again
/// stands once, with the place of its first declaration and the places of
/// the later ones in their order.
pub struct ArgValidatorView {
    pub map: Seq<(Seq<char>, Option<Span>)>,
    pub dup_cache: Seq<(Seq<char>, Span, Seq<Span>)>,
}

impl DeepView for ArgValidator {
    type V = ArgValidatorView;

    closed spec fn deep_view(&self) -> ArgValidatorView {
        ArgValidatorView { map: self.map.deep_view(), dup_cache: self.dup_cache.deep_view() }
    }
}

/// The names of `map`, in its order.
pub open spec fn keys_of(map: Seq<(Seq<char>, Option<Span>)>) -> Seq<Seq<char>> {
    map.map_values(|entry: (Seq<char>, Option<Span>)| entry.0)
}

/// The names of `cache`, in its order.
pub open spec fn dup_keys(cache: Seq<(Seq<char>, Span, Seq<Span>)>) -> Seq<Seq<char>> {
    cache.map_values(|entry: (Seq<char>, Span, Seq<Span>)| entry.0)
}

/// The state in which only `arg` is known, as a reserved name.
pub open spec fn with_reserved(arg: Seq<char>) -> ArgValidatorView {
    ArgValidatorView { map: seq![(arg, None)], dup_cache: Seq::empty() }
}

/// `cache` after one more declaration of `key` at `span`, where `first` is
/// the place of its first declaration.
pub open spec fn record_duplicate(
    cache: Seq<(Seq<char>, Span, Seq<Span>)>,
    key: Seq<char>,
    first: Span,
    span: Span,
) -> Seq<(Seq<char>, Span, Seq<Span>)> {
    match dup_keys(cache).index_of_first(key) {
        Some(j) => cache.update(j, (cache[j].0, cache[j].1, cache[j].2.push(span))),
        None => cache.push((key, first, seq![span])),
    }
}

/// What a declaration of `key` at `span` does to the state `v`: a new name
/// is noted with its place; a name that is known with a place is recorded as
/// declared again; a reserved name is refused and changes nothing.
pub open spec fn check_insert(v: ArgValidatorView, key: Seq<char>, span: Span) -> (
    ArgValidatorView,
    Option<FieldError>,
) {
    match keys_of(v.map).index_of_first(key) {
        None => (
            ArgValidatorView { map: v.map.push((key, Some(span))), dup_cache: v.dup_cache },
            None,
        ),
        Some(i) => match v.map[i].1 {
            Some(first) => (
                ArgValidatorView {
                    map: v.map,
                    dup_cache: record_duplicate(v.dup_cache, key, first, span),
                },
                None,
            ),
            None => (v, Some(FieldError::ReservedParameter)),
        },
    }
}

/// The finding for each name of `cache`, in its order.
pub open spec fn duplicates_of(cache: Seq<(Seq<char>, Span, Seq<Span>)>) -> Seq<
    ValidationErrorView,
> {
    cache.map_values(
        |entry: (Seq<char>, Span, Seq<Span>)|
            ValidationErrorView::Duplicates {
                name: entry.0,
                first_span: entry.1,
                duplicate_spans: entry.2,
            },
    )
}

/// The place in `keys` at which `key` stands first, if it stands there.
fn find_key(keys: &Vec<(String, Option<Span>)>, key: &String) -> (found: Option<usize>)
    ensures
        match found {
            Some(i) => i < keys.len() && keys_of(keys.deep_view()).index_of_first(key@) == Some(
                i as int,
            ),
            None => keys_of(keys.deep_view()).index_of_first(key@) is None,
        },
{
    let ghost names = keys_of(keys.deep_view());
    proof {
        names.index_of_first_ensures(key@);
    }
    let mut i: usize = 0;
    while i < keys.len()
        invariant
            0 <= i <= keys.len(),
            names == keys_of(keys.deep_view()),
            names.len() == keys.len(),
            forall|j: int| 0 <= j < i ==> names[j] != key@,
            match names.index_of_first(key@) {
                Some(index) => names.contains(key@) && 0 <= index < names.len() && names[index]
                    == key@ && forall|j: int| 0 <= j < index < names.len() ==> names[j] != key@,
                None => !names.contains(key@),
            },
        decreases keys.len() - i,
    {
        if keys[i].0 == *key {
            assert(names[i as int] == key@);
            return Some(i);
        }
        i = i + 1;
    }
    None
}

/// The place in `cache` at which `key` stands first, if it stands there.
fn find_duplicate(cache: &Vec<(String, Span, Vec<Span>)>, key: &String) -> (found: Option<usize>)
    ensures
        match found {
            Some(i) => i < cache.len() && dup_keys(cache.deep_view()).index_of_first(key@) == Some(
                i as int,
            ),
            None => dup_keys(cache.deep_view()).index_of_first(key@) is None,
        },
{
    let ghost names = dup_keys(cache.deep_view());
    proof {
        names.index_of_first_ensures(key@);
    }
    let mut i: usize = 0;
    while i < cache.len()
        invariant
            0 <= i <= cache.len(),
            names == dup_keys(cache.deep_view()),
            names.len() == cache.len(),
            forall|j: int| 0 <= j < i ==> names[j] != key@,
            match names.index_of_first(key@) {
                Some(index) => names.contains(key@) && 0 <= index < names.len() && names[index]
                    == key@ && forall|j: int| 0 <= j < index < names.len() ==> names[j] != key@,
                None => !names.contains(key@),
            },
        decreases cache.len() - i,
    {
        if cache[i].0 == *key {
            assert(names[i as int] == key@);
            return Some(i);
        }
        i = i + 1;
    }
    None
}

impl ArgValidator {
    /// The state in which only `arg` is known, as a reserved name.
    pub fn with_reserved(arg: String) -> (validator: ArgValidator)
        ensures
            validator.deep_view() == with_reserved(arg@),
    {
        let mut map: Vec<(String, Option<Span>)> = Vec::new();
        let ghost empty = map;
        let entry: (String, Option<Span>) = (arg, None);
        map.push(entry);
        let dup_cache: Vec<(String, Span, Vec<Span>)> = Vec::new();
        proof {
            lemma_deep_view_empty(empty);
            lemma_deep_view_push(empty, map, entry);
            lemma_deep_view_empty(dup_cache);
            assert(Seq::<(Seq<char>, Option<Span>)>::empty().push((arg@, None)) == seq![
                (arg@, None::<Span>),
            ]);
        }
        ArgValidator { map, dup_cache }
    }

    /// Notes a declaration of the name `arg`; refuses a reserved name.
    pub fn check_insert(&mut self, arg: &Spanned<String>) -> (r: Result<(), FieldError>)
        ensures
            final(self).deep_view() == check_insert(
                old(self).deep_view(),
                arg.value@,
                arg.span,
            ).0,
            match r {
                Ok(()) => check_insert(old(self).deep_view(), arg.value@, arg.span).1 is None,
                Err(error) => check_insert(old(self).deep_view(), arg.value@, arg.span).1 == Some(
                    error,
                ),
            },
    {
        match find_key(&self.map, &arg.value) {
            None => {
                let ghost before = self.map;
                let entry: (String, Option<Span>) = (arg.value.clone(), Some(arg.span));
                self.map.push(entry);
                proof {
                    lemma_deep_view_push(before, self.map, entry);
                }
                Ok(())
            },
            Some(i) => {
                match self.map[i].1 {
                    Some(first) => {
                        let ghost before = self.dup_cache;
                        match find_duplicate(&self.dup_cache, &arg.value) {
                            Some(j) => {
                                let entry = self.dup_cache.remove(j);
                                let ghost without = self.dup_cache;
                                let (name, first_span, mut spans) = entry;
                                spans.push(arg.span);
                                let updated: (String, Span, Vec<Span>) = (name, first_span, spans);
                                self.dup_cache.insert(j, updated);
                                proof {
                                    assert(self.dup_cache.deep_view() =~= before.deep_view().update(
                                        j as int,
                                        updated.deep_view(),
                                    ));
                                    assert(updated.2.deep_view() =~= before.deep_view()[j as int].2.push(
                                        arg.span,
                                    ));
                                }
                            },
                            None => {
                                let mut spans: Vec<Span> = Vec::new();
                                spans.push(arg.span);
                                let entry: (String, Span, Vec<Span>) = (
                                    arg.value.clone(),
                                    first,
                                    spans,
                                );
                                self.dup_cache.push(entry);
                                proof {
                                    lemma_deep_view_push(before, self.dup_cache, entry);
                                    assert(entry.2.deep_view() =~= seq![arg.span]);
                                }
                            },
                        }
                        Ok(())
                    },
                    None => Err(FieldError::ReservedParameter),
                }
            },
        }
    }

    /// The findings for the names that were declared more than once.
    pub fn into_duplicates(self) -> (errors: Vec<ValidationError>)
        ensures
            errors.deep_view() == duplicates_of(self.deep_view().dup_cache),
    {
        let mut errors: Vec<ValidationError> = Vec::new();
        let ghost cache = self.dup_cache.deep_view();
        let ghost items = self.dup_cache@;
        proof {
            lemma_deep_view_empty(errors);
            assert(duplicates_of(cache.take(0)) =~= Seq::empty());
        }
        for entry in it: self.dup_cache
            invariant
                it.seq() == items,
                cache.len() == items.len(),
                forall|k: int| 0 <= k < cache.len() ==> (#[trigger] items[k]).deep_view() == cache[k],
                errors.deep_view() == duplicates_of(cache.take(it.index())),
        {
            let ghost before = errors;
            assert(entry.deep_view() == cache[it.index()]);
            let (name, first_span, duplicate_spans) = entry;
            let error = ValidationError::new(
                ValidationErrorSource::Duplicates { name, first_span, duplicate_spans },
            );
            errors.push(error);
            proof {
                lemma_deep_view_push(before, errors, error);
                assert(duplicate_spans.deep_view() =~= duplicate_spans@);
                assert(cache.take(it.index() + 1) =~= cache.take(it.index()).push(
                    cache[it.index()],
                ));
                assert(duplicates_of(cache.take(it.index() + 1)) =~= duplicates_of(
                    cache.take(it.index()),
                ).push(error.deep_view()));
            }
        }
        proof {
            assert(cache.take(cache.len() as int) =~= cache);
        }
        errors
    }
}

/// What a specification says of the program as a whole, as it was written.
#[derive(Debug)]
pub struct General {
    pub name: Option<String>,
    pub summary: Option<String>,
    pub doc: Option<String>,
    pub env_prefix: Option<String>,
    pub conf_file_param: Option<Spanned<String>>,
    pub conf_dir_param: Option<Spanned<String>>,
    pub skip_default_conf_files_switch: Option<Spanned<String>>,
    pub program_name: Option<Spanned<String>>,
}

/// What a [`General`] stands for in contracts.
pub struct RawGeneralView {
    pub name: Option<Seq<char>>,
    pub summary: Option<Seq<char>>,
    pub doc: Option<Seq<char>>,
    pub env_prefix: Option<Seq<char>>,
    pub conf_file_param: Option<SpannedView<Seq<char>>>,
    pub conf_dir_param: Option<SpannedView<Seq<char>>>,
    pub skip_default_conf_files_switch: Option<SpannedView<Seq<char>>>,
    pub program_name: Option<SpannedView<Seq<char>>>,
}

impl DeepView for General {
    type V = RawGeneralView;

    open spec fn deep_view(&self) -> RawGeneralView {
        RawGeneralView {
            name: self.name.deep_view(),
            summary: self.summary.deep_view(),
            doc: self.doc.deep_view(),
            env_prefix: self.env_prefix.deep_view(),
            conf_file_param: self.conf_file_param.deep_view(),
            conf_dir_param: self.conf_dir_param.deep_view(),
            skip_default_conf_files_switch: self.skip_default_conf_files_switch.deep_view(),
            program_name: self.program_name.deep_view(),
        }
    }
}

impl Default for General {
    fn default() -> (general: General)
        ensures
            general.deep_view() == (RawGeneralView {
                name: None,
                summary: None,
                doc: None,
                env_prefix: None,
                conf_file_param: None,
                conf_dir_param: None,
                skip_default_conf_files_switch: None,
                program_name: None,
            }),
    {
        General {
            name: None,
            summary: None,
            doc: None,
            env_prefix: None,
            conf_file_param: None,
            conf_dir_param: None,
            skip_default_conf_files_switch: None,
            program_name: None,
        }
    }
}

/// A parameter as it was written.
#[derive(Debug)]
pub struct Param {
    pub name: Spanned<String>,
    pub abbr: Option<Spanned<char>>,
    pub ty: String,
    pub optional: Option<Spanned<bool>>,
    pub default: Option<Spanned<String>>,
    pub doc: Option<String>,
    pub argument: Option<bool>,
    pub env_var: Option<bool>,
    pub convert_into: Option<String>,
    pub merge_fn: Option<String>,
    pub debconf_priority: Option<Priority>,
    pub debconf_default: Option<String>,
}

/// What a [`Param`] stands for in contracts.
pub struct RawParamView {
    pub name: SpannedView<Seq<char>>,
    pub abbr: Option<SpannedView<char>>,
    pub ty: Seq<char>,
    pub optional: Option<SpannedView<bool>>,
    pub default: Option<SpannedView<Seq<char>>>,
    pub doc: Option<Seq<char>>,
    pub argument: Option<bool>,
    pub env_var: Option<bool>,
    pub convert_into: Option<Seq<char>>,
    pub merge_fn: Option<Seq<char>>,
    pub debconf_priority: Option<Priority>,
    pub debconf_default: Option<Seq<char>>,
}

impl DeepView for Param {
    type V = RawParamView;

    open spec fn deep_view(&self) -> RawParamView {
        RawParamView {
            name: self.name.deep_view(),
            abbr: self.abbr.deep_view(),
            ty: self.ty@,
            optional: self.optional.deep_view(),
            default: self.default.deep_view(),
            doc: self.doc.deep_view(),
            argument: self.argument,
            env_var: self.env_var,
            convert_into: self.convert_into.deep_view(),
            merge_fn: self.merge_fn.deep_view(),
            debconf_priority: self.debconf_priority,
            debconf_default: self.debconf_default.deep_view(),
        }
    }
}

/// A switch as it was written.
#[derive(Debug)]
pub struct Switch {
    pub name: Spanned<String>,
    pub abbr: Option<Spanned<char>>,
    pub default: Option<Spanned<bool>>,
    pub doc: Option<String>,
    pub env_var: Option<bool>,
    pub count: Option<Spanned<bool>>,
    pub debconf_priority: Option<Priority>,
}

/// What a [`Switch`] stands for in contracts.
pub struct RawSwitchView {
    pub name: SpannedView<Seq<char>>,
    pub abbr: Option<SpannedView<char>>,
    pub default: Option<SpannedView<bool>>,
    pub doc: Option<Seq<char>>,
    pub env_var: Option<bool>,
    pub count: Option<SpannedView<bool>>,
    pub debconf_priority: Option<Priority>,
}

impl DeepView for Switch {
    type V = RawSwitchView;

    open spec fn deep_view(&self) -> RawSwitchView {
        RawSwitchView {
            name: self.name.deep_view(),
            abbr: self.abbr.deep_view(),
            default: self.default.deep_view(),
            doc: self.doc.deep_view(),
            env_var: self.env_var,
            count: self.count.deep_view(),
            debconf_priority: self.debconf_priority,
        }
    }
}

/// A specification as it was written.
#[derive(Debug)]
pub struct Config {
    pub params: Vec<Param>,
    pub switches: Vec<Switch>,
    pub general: General,
    pub defaults: Defaults,
    pub debconf: Option<DebConfig>,
}

/// What a [`Config`] stands for in contracts.
pub struct RawConfigView {
    pub params: Seq<RawParamView>,
    pub switches: Seq<RawSwitchView>,
    pub general: RawGeneralView,
    pub defaults: Defaults,
    pub debconf: Option<DebConfigView>,
}

impl DeepView for Config {
    type V = RawConfigView;

    open spec fn deep_view(&self) -> RawConfigView {
        RawConfigView {
            params: self.params.deep_view(),
            switches: self.switches.deep_view(),
            general: self.general.deep_view(),
            defaults: self.defaults,
            debconf: self.debconf.deep_view(),
        }
    }
}

/// The state of an examination that holds these names, options and findings.
pub open spec fn checks_of(
    long: ArgValidator,
    short: ArgValidator,
    errors: Vec<ValidationError>,
) -> Checks {
    Checks { long: long.deep_view(), short: short.deep_view(), errors: errors.deep_view() }
}

/// The finding that the field `name` is wrong in the way `kind` says.
fn refuse(name: &Spanned<String>, kind: FieldError) -> (error: ValidationError)
    ensures
        error.deep_view() == refused(name.deep_view(), kind),
{
    ValidationError::new(
        ValidationErrorSource::InvalidField { name: name.value.clone(), span: name.span, kind },
    )
}

/// Adds to `errors` the finding on the field `name`, if there is one.
fn note(errors: &mut Vec<ValidationError>, name: &Spanned<String>, outcome: Result<(), FieldError>)
    ensures
        final(errors).deep_view() == noted(
            old(errors).deep_view(),
            name.deep_view(),
            match outcome {
                Ok(()) => None,
                Err(kind) => Some(kind),
            },
        ),
{
    match outcome {
        Ok(()) => {},
        Err(kind) => {
            let ghost before = *errors;
            let error = refuse(name, kind);
            errors.push(error);
            proof {
                lemma_deep_view_push(before, *errors, error);
            }
        },
    }
}

impl ArgValidator {
    /// Notes a declaration of the long name `arg`; a reserved name is a
    /// finding on the field of that name.
    pub fn check_insert_long(&mut self, arg: &Spanned<String>) -> (r: Result<(), ValidationError>)
        ensures
            final(self).deep_view() == check_insert(
                old(self).deep_view(),
                arg.value@,
                arg.span,
            ).0,
            match r {
                Ok(()) => check_insert(old(self).deep_view(), arg.value@, arg.span).1 is None,
                Err(error) => check_insert(old(self).deep_view(), arg.value@, arg.span).1 matches Some(
                    kind,
                ) && error.deep_view() == refused(arg.deep_view(), kind),
            },
    {
        match self.check_insert(arg) {
            Ok(()) => Ok(()),
            Err(kind) => Err(refuse(arg, kind)),
        }
    }

    /// Notes a declaration of the long name `arg`, if there is one.
    pub fn check_insert_opt_long(&mut self, arg: &Option<Spanned<String>>) -> (r: Result<
        (),
        ValidationError,
    >)
        ensures
            match arg {
                Some(arg) => {
                    &&& final(self).deep_view() == check_insert(
                        old(self).deep_view(),
                        arg.value@,
                        arg.span,
                    ).0
                    &&& match r {
                        Ok(()) => check_insert(old(self).deep_view(), arg.value@, arg.span).1
                            is None,
                        Err(error) => check_insert(
                            old(self).deep_view(),
                            arg.value@,
                            arg.span,
                        ).1 matches Some(kind) && error.deep_view() == refused(
                            arg.deep_view(),
                            kind,
                        ),
                    }
                },
                None => final(self).deep_view() == old(self).deep_view() && r is Ok,
            },
    {
        match arg {
            Some(arg) => self.check_insert_long(arg),
            None => Ok(()),
        }
    }
}

/// Declares the long name `name`.
fn declare_long(
    long: &mut ArgValidator,
    short: &ArgValidator,
    errors: &mut Vec<ValidationError>,
    name: &Spanned<String>,
)
    ensures
        checks_of(*final(long), *short, *final(errors)) == check_long(
            checks_of(*old(long), *short, *old(errors)),
            name.deep_view(),
        ),
{
    let ghost before = *errors;
    match long.check_insert_long(name) {
        Ok(()) => {},
        Err(error) => {
            errors.push(error);
            proof {
                lemma_deep_view_push(before, *errors, error);
            }
        },
    }
}

/// Declares the long name `name`, if there is one.
fn declare_opt_long(
    long: &mut ArgValidator,
    short: &ArgValidator,
    errors: &mut Vec<ValidationError>,
    name: &Option<Spanned<String>>,
)
    ensures
        checks_of(*final(long), *short, *final(errors)) == check_opt_long(
            checks_of(*old(long), *short, *old(errors)),
            name.deep_view(),
        ),
{
    let ghost before = *errors;
    match long.check_insert_opt_long(name) {
        Ok(()) => {},
        Err(error) => {
            errors.push(error);
            proof {
                lemma_deep_view_push(before, *errors, error);
            }
        },
    }
}

/// Declares the short option `abbr` of the field `name`, if it has one.
fn declare_short(
    long: &ArgValidator,
    short: &mut ArgValidator,
    errors: &mut Vec<ValidationError>,
    abbr: &Option<Spanned<char>>,
    name: &Spanned<String>,
)
    ensures
        checks_of(*long, *final(short), *final(errors)) == check_short(
            checks_of(*long, *old(short), *old(errors)),
            abbr.deep_view(),
            name.deep_view(),
        ),
{
    match abbr {
        Some(abbr) => {
            let mut key = String::new();
            key.push(abbr.value);
            proof {
                assert(key@ =~= seq![abbr.value]);
            }
            let key = Spanned { value: key, span: abbr.span };
            let outcome = short.check_insert(&key);
            note(errors, name, outcome);
        },
        None => {},
    }
}

impl Param {
    /// Whether the parameter has to be given.
    pub fn validate_optionality(
        optional: Option<Spanned<bool>>,
        default_optional: bool,
        default: Option<Spanned<String>>,
    ) -> (r: Result<Optionality, FieldError>)
        ensures
            result_view(r) == optionality_of(
                optional.deep_view(),
                default_optional,
                default.deep_view(),
            ),
    {
        match (optional, default) {
            (Some(opt), None) => {
                if !opt.value {
                    Ok(Optionality::Mandatory)
                } else {
                    Ok(Optionality::Optional)
                }
            },
            (Some(opt), Some(default)) => {
                if !opt.value {
                    Err(
                        FieldError::MandatoryWithDefault {
                            optional_span: opt.span,
                            default_span: default.span,
                        },
                    )
                } else {
                    Ok(Optionality::DefaultValue(default.value))
                }
            },
            (None, Some(default)) => Ok(Optionality::DefaultValue(default.value)),
            (None, None) => {
                if default_optional {
                    Ok(Optionality::Optional)
                } else {
                    Ok(Optionality::Mandatory)
                }
            },
        }
    }

    /// Examines the parameter; what a field does not say itself is taken
    /// from the three defaults.
    pub fn validate(self, default_optional: bool, default_argument: bool, default_env_var: bool) -> (r:
        Result<ValidParam, Vec<ValidationError>>)
        ensures
            result_view(r) == validated_param(
                self.deep_view(),
                default_optional,
                default_argument,
                default_env_var,
            ),
    {
        let ghost raw = self.deep_view();
        let mut errors: Vec<ValidationError> = Vec::new();
        proof {
            lemma_deep_view_empty(errors);
        }
        let optionality = match Param::validate_optionality(
            self.optional,
            default_optional,
            self.default,
        ) {
            Ok(optionality) => Some(optionality),
            Err(kind) => {
                let ghost before = errors;
                let error = refuse(&self.name, kind);
                errors.push(error);
                proof {
                    lemma_deep_view_push(before, errors, error);
                }
                None
            },
        };
        proof {
            assert(errors.deep_view() =~= field_errors(
                raw.name,
                optionality_of(raw.optional, default_optional, raw.default),
            ));
        }
        let name = match Ident::try_from(self.name) {
            Ok(name) => Some(name),
            Err(error) => {
                let ghost before = errors;
                let error = ValidationError::new(ValidationErrorSource::InvalidIdentifier(error));
                errors.insert(0, error);
                proof {
                    crate::views::lemma_deep_view_insert(before, errors, 0, error);
                    assert(errors.deep_view() =~= name_errors(ident_of(raw.name)) + field_errors(
                        raw.name,
                        optionality_of(raw.optional, default_optional, raw.default),
                    ));
                }
                None
            },
        };
        match (name, optionality) {
            (Some(name), Some(optionality)) => {
                let ty = self.ty;
                let argument = match self.argument {
                    Some(argument) => argument,
                    None => default_argument,
                };
                let env_var = match self.env_var {
                    Some(env_var) => env_var,
                    None => default_env_var,
                };
                let convert_into = match self.convert_into {
                    Some(convert_into) => convert_into,
                    None => ty.clone(),
                };
                let abbr = match self.abbr {
                    Some(abbr) => Some(abbr.value),
                    None => None,
                };
                Ok(
                    ValidParam {
                        name,
                        ty,
                        optionality,
                        abbr,
                        doc: self.doc,
                        argument,
                        env_var,
                        convert_into,
                        merge_fn: self.merge_fn,
                        debconf_priority: self.debconf_priority,
                        debconf_default: self.debconf_default,
                    },
                )
            },
            _ => {
                proof {
                    assert(errors.deep_view() =~= name_errors(ident_of(raw.name)) + field_errors(
                        raw.name,
                        optionality_of(raw.optional, default_optional, raw.default),
                    ));
                }
                Err(errors)
            },
        }
    }
}

impl Switch {
    /// Refuses a short option that is no English letter.
    pub fn validate_abbr(spanned_abbr: Spanned<char>) -> (r: Result<Spanned<char>, FieldError>)
        ensures
            match r {
                Ok(abbr) => crate::config::is_letter(spanned_abbr.value) && abbr == spanned_abbr,
                Err(error) => !crate::config::is_letter(spanned_abbr.value) && error
                    == (FieldError::InvalidAbbr { abbr_span: spanned_abbr.span }),
            },
    {
        let abbr = spanned_abbr.value;
        if (abbr >= 'a' && abbr <= 'z') || (abbr >= 'A' && abbr <= 'Z') {
            Ok(spanned_abbr)
        } else {
            Err(FieldError::InvalidAbbr { abbr_span: spanned_abbr.span })
        }
    }

    /// How a switch is given, its short option taken as it is.
    pub fn validate_kind(
        abbr: Option<Spanned<char>>,
        default: Option<Spanned<bool>>,
        count: Option<Spanned<bool>>,
    ) -> (r: Result<SwitchKind, FieldError>)
        ensures
            r == kind_given(abbr.deep_view(), default.deep_view(), count.deep_view()),
    {
        let inverted = match &default {
            Some(default) => default.value,
            None => false,
        };
        let counting = match &count {
            Some(count) => count.value,
            None => false,
        };
        if inverted {
            let default_span = match &default {
                Some(default) => default.span,
                None => Span { start: 0, end: 0 },
            };
            match (abbr, count) {
                (Some(abbr), _) => Err(
                    FieldError::InvertedWithAbbr { default_span, abbr_span: abbr.span },
                ),
                (None, Some(count)) => {
                    if counting {
                        Err(FieldError::InvertedWithCount { default_span, count_span: count.span })
                    } else {
                        Ok(SwitchKind::Inverted)
                    }
                },
                (None, None) => Ok(SwitchKind::Inverted),
            }
        } else {
            let abbr = match abbr {
                Some(abbr) => Some(abbr.value),
                None => None,
            };
            Ok(SwitchKind::Normal { abbr, count: counting })
        }
    }

    /// Examines the switch; whether it can be given in the environment is
    /// taken from `default_env_var` where the switch does not say.
    pub fn validate(self, default_env_var: bool) -> (r: Result<ValidSwitch, Vec<ValidationError>>)
        ensures
            result_view(r) == validated_switch(self.deep_view(), default_env_var),
    {
        let ghost raw = self.deep_view();
        let mut errors: Vec<ValidationError> = Vec::new();
        proof {
            lemma_deep_view_empty(errors);
        }
        let abbr = match self.abbr {
            Some(abbr) => match Switch::validate_abbr(abbr) {
                Ok(abbr) => Ok(Some(abbr)),
                Err(kind) => Err(kind),
            },
            None => Ok(None),
        };
        let kind = match abbr {
            Ok(abbr) => Switch::validate_kind(abbr, self.default, self.count),
            Err(kind) => Err(kind),
        };
        assert(kind == switch_kind_of(raw.abbr, raw.default, raw.count));
        let kind = match kind {
            Ok(kind) => Some(kind),
            Err(kind) => {
                let ghost before = errors;
                let error = refuse(&self.name, kind);
                errors.push(error);
                proof {
                    lemma_deep_view_push(before, errors, error);
                }
                None
            },
        };
        proof {
            assert(errors.deep_view() =~= field_errors(
                raw.name,
                switch_kind_of(raw.abbr, raw.default, raw.count),
            ));
        }
        let name = match Ident::try_from(self.name) {
            Ok(name) => Some(name),
            Err(error) => {
                let ghost before = errors;
                let error = ValidationError::new(ValidationErrorSource::InvalidIdentifier(error));
                errors.insert(0, error);
                proof {
                    crate::views::lemma_deep_view_insert(before, errors, 0, error);
                    assert(errors.deep_view() =~= name_errors(ident_of(raw.name)) + field_errors(
                        raw.name,
                        switch_kind_of(raw.abbr, raw.default, raw.count),
                    ));
                }
                None
            },
        };
        match (name, kind) {
            (Some(name), Some(kind)) => {
                let env_var = match self.env_var {
                    Some(env_var) => env_var,
                    None => default_env_var,
                };
                Ok(
                    ValidSwitch {
                        name,
                        kind,
                        doc: self.doc,
                        env_var,
                        debconf_priority: self.debconf_priority,
                    },
                )
            },
            _ => {
                proof {
                    assert(errors.deep_view() =~= name_errors(ident_of(raw.name)) + field_errors(
                        raw.name,
                        switch_kind_of(raw.abbr, raw.default, raw.count),
                    ));
                }
                Err(errors)
            },
        }
    }
}

/// Reads the word for the handling of the program's name, if it is set;
/// adds to `errors` the finding that it names none.
fn to_policy(errors: &mut Vec<ValidationError>, word: Option<Spanned<String>>) -> (policy:
    ProgramName)
    ensures
        policy == declared_policy(word.deep_view()),
        final(errors).deep_view() == old(errors).deep_view() + program_name_errors(
            word.deep_view(),
        ),
{
    proof {
        assert(errors.deep_view() + Seq::<ValidationErrorView>::empty() =~= errors.deep_view());
    }
    match word {
        Some(word) => match ProgramName::from_word(word.value.as_str()) {
            Some(policy) => policy,
            None => {
                let ghost before = *errors;
                let error = ValidationError::new(
                    ValidationErrorSource::InvalidProgramName {
                        input: word.value,
                        span: word.span,
                    },
                );
                errors.push(error);
                proof {
                    lemma_deep_view_push(before, *errors, error);
                    assert(before.deep_view().push(error.deep_view()) =~= before.deep_view()
                        + seq![error.deep_view()]);
                }
                ProgramName::Optional
            },
        },
        None => ProgramName::Optional,
    }
}

/// Reads the name of a general option as a field name, if it is set; adds
/// to `errors` the finding that it is none.
fn to_ident(errors: &mut Vec<ValidationError>, name: Option<Spanned<String>>) -> (ident: Option<
    Ident,
>)
    ensures
        ident.deep_view() == general_name(name.deep_view()),
        final(errors).deep_view() == old(errors).deep_view() + general_name_errors(
            name.deep_view(),
        ),
        ident matches Some(ident) ==> ident.wf(),
{
    match name {
        Some(name) => match Ident::try_from(name) {
            Ok(ident) => {
                proof {
                    assert(errors.deep_view() + Seq::<ValidationErrorView>::empty()
                        =~= errors.deep_view());
                }
                Some(ident)
            },
            Err(error) => {
                let ghost before = *errors;
                let error = ValidationError::new(ValidationErrorSource::InvalidIdentifier(error));
                errors.push(error);
                proof {
                    lemma_deep_view_push(before, *errors, error);
                    assert(before.deep_view().push(error.deep_view()) =~= before.deep_view()
                        + seq![error.deep_view()]);
                }
                None
            },
        },
        None => {
            proof {
                assert(errors.deep_view() + Seq::<ValidationErrorView>::empty()
                    =~= errors.deep_view());
            }
            None
        },
    }
}

/// Moves the findings `found` to the end of `errors`.
fn extend(errors: &mut Vec<ValidationError>, found: Vec<ValidationError>)
    ensures
        final(errors).deep_view() == old(errors).deep_view() + found.deep_view(),
{
    let ghost before = *errors;
    let mut found = found;
    let ghost added = found;
    errors.append(&mut found);
    proof {
        lemma_deep_view_add(before, added, *errors);
    }
}

impl Config {
    /// Examines the specification. Nothing that is wrong with it is passed
    /// over: every finding is reported, ordered by the offset at which the
    /// text shows it. A specification with which nothing is wrong is handed
    /// back in its examined form.
    pub fn validate(self) -> (r: Result<ValidConfig, Vec<ValidationError>>)
        ensures
            result_view(r) == validated(self.deep_view()),
            r matches Ok(config) ==> crate::config::consistent(config.deep_view()),
            r matches Err(errors) ==> errors.len() > 0 && crate::config::order::ordered(
                errors.deep_view(),
            ),
    {
        let ghost raw = self.deep_view();
        proof {
            if validated(raw) is Ok {
                crate::config::laws::accepted_is_consistent(raw);
            } else {
                crate::config::laws::findings_are_ordered(raw);
            }
        }
        let Config { params: raw_params, switches: raw_switches, general, defaults, debconf } =
            self;
        let default_optional = defaults.optional;
        let default_argument = defaults.args;
        let default_env_var = match defaults.env_vars {
            Some(env_vars) => env_vars,
            None => general.env_prefix.is_some(),
        };
        assert(default_env_var == crate::config::rules::default_env_var(raw));
        let mut errors: Vec<ValidationError> = Vec::new();
        let mut long_args = ArgValidator::with_reserved(String::from_str("help"));
        let mut short_args = ArgValidator::with_reserved(String::from_str("h"));
        proof {
            reveal_strlit("h");
            assert("h"@ =~= seq!['h']);
            lemma_deep_view_empty(errors);
            assert(checks_of(long_args, short_args, errors) == initial_checks());
        }
        declare_opt_long(&mut long_args, &short_args, &mut errors, &general.conf_file_param);
        declare_opt_long(&mut long_args, &short_args, &mut errors, &general.conf_dir_param);
        declare_opt_long(
            &mut long_args,
            &short_args,
            &mut errors,
            &general.skip_default_conf_files_switch,
        );
        assert(checks_of(long_args, short_args, errors) == after_general(raw.general));

        let mut params: Vec<ValidParam> = Vec::new();
        let ghost param_items = raw_params@;
        proof {
            lemma_deep_view_empty(params);
            assert(raw.params.take(0) =~= Seq::empty());
        }
        for param in it: raw_params
            invariant
                it.seq() == param_items,
                raw.params.len() == param_items.len(),
                forall|k: int|
                    0 <= k < param_items.len() ==> (#[trigger] param_items[k]).deep_view()
                        == raw.params[k],
                checks_of(long_args, short_args, errors) == after_params(
                    after_general(raw.general),
                    raw.params.take(it.index()),
                    default_optional,
                    default_argument,
                    default_env_var,
                ),
                params.deep_view() == valid_params(
                    raw.params.take(it.index()),
                    default_optional,
                    default_argument,
                    default_env_var,
                ),
        {
            proof {
                let next = raw.params.take(it.index() + 1);
                assert(next.drop_last() =~= raw.params.take(it.index()));
                assert(next.last() == param.deep_view());
            }
            declare_long(&mut long_args, &short_args, &mut errors, &param.name);
            declare_short(&long_args, &mut short_args, &mut errors, &param.abbr, &param.name);
            match param.validate(default_optional, default_argument, default_env_var) {
                Ok(param) => {
                    let ghost before = params;
                    params.push(param);
                    proof {
                        lemma_deep_view_push(before, params, param);
                    }
                },
                Err(found) => {
                    extend(&mut errors, found);
                },
            }
        }
        proof {
            assert(raw.params.take(raw.params.len() as int) =~= raw.params);
        }
        let ghost after_all_params = checks_of(long_args, short_args, errors);

        let mut switches: Vec<ValidSwitch> = Vec::new();
        let ghost switch_items = raw_switches@;
        proof {
            lemma_deep_view_empty(switches);
            assert(raw.switches.take(0) =~= Seq::empty());
        }
        for switch in it: raw_switches
            invariant
                it.seq() == switch_items,
                raw.switches.len() == switch_items.len(),
                forall|k: int|
                    0 <= k < switch_items.len() ==> (#[trigger] switch_items[k]).deep_view()
                        == raw.switches[k],
                checks_of(long_args, short_args, errors) == after_switches(
                    after_all_params,
                    raw.switches.take(it.index()),
                    default_env_var,
                ),
                switches.deep_view() == valid_switches(
                    raw.switches.take(it.index()),
                    default_env_var,
                ),
        {
            proof {
                let next = raw.switches.take(it.index() + 1);
                assert(next.drop_last() =~= raw.switches.take(it.index()));
                assert(next.last() == switch.deep_view());
            }
            declare_long(&mut long_args, &short_args, &mut errors, &switch.name);
            declare_short(&long_args, &mut short_args, &mut errors, &switch.abbr, &switch.name);
            match switch.validate(default_env_var) {
                Ok(switch) => {
                    let ghost before = switches;
                    switches.push(switch);
                    proof {
                        lemma_deep_view_push(before, switches, switch);
                    }
                },
                Err(found) => {
                    extend(&mut errors, found);
                },
            }
        }
        proof {
            assert(raw.switches.take(raw.switches.len() as int) =~= raw.switches);
            assert(checks_of(long_args, short_args, errors) == after_fields(raw));
        }

        extend(&mut errors, long_args.into_duplicates());
        extend(&mut errors, short_args.into_duplicates());
        let conf_file_param = to_ident(&mut errors, general.conf_file_param);
        let conf_dir_param = to_ident(&mut errors, general.conf_dir_param);
        let skip_default_conf_files_switch = to_ident(
            &mut errors,
            general.skip_default_conf_files_switch,
        );
        let program_name = to_policy(&mut errors, general.program_name);
        assert(errors.deep_view() == findings(raw));

        if errors.len() > 0 {
            return Err(sort_by_key(errors));
        }
        let general = ValidGeneral {
            name: general.name,
            summary: general.summary,
            doc: general.doc,
            env_prefix: general.env_prefix,
            conf_file_param,
            conf_dir_param,
            skip_default_conf_files_switch,
            program_name,
        };
        Ok(ValidConfig { general, debconf, params, switches })
    }
}

} // verus!
