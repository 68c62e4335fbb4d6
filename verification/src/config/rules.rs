//! What the examination of a specification finds, stated over the models of
//! the specification and of the findings.

use vstd::prelude::*;
use crate::config::raw::{
    check_insert, duplicates_of, with_reserved, ArgValidatorView, RawConfigView, RawGeneralView,
    RawParamView, RawSwitchView};
use crate::config::order::sorted_by_key;
use crate::config::{
    is_letter, strategy_of, ConfigView, FieldError, GeneralView, OptionalityView, ParamView, ProgramName,
    SwitchKind, SwitchView, ValidationErrorView};
use crate::ident::{ident_of, ErrorView};
use crate::span::SpannedView;

verus! {

/// The state of an examination: the long names and the short options that
/// were declared so far, and what was found wrong so far.
pub struct Checks {
    pub long: ArgValidatorView,
    pub short: ArgValidatorView,
    pub errors: Seq<ValidationErrorView>,
}

/// The finding that the field `name` is wrong in the way `kind` says.
pub open spec fn refused(name: SpannedView<Seq<char>>, kind: FieldError) -> ValidationErrorView {
    ValidationErrorView::InvalidField { name: name.value, span: name.span, kind }
}

/// `errors` with the finding on the field `name`, if there is one.
pub open spec fn noted(
    errors: Seq<ValidationErrorView>,
    name: SpannedView<Seq<char>>,
    error: Option<FieldError>,
) -> Seq<ValidationErrorView> {
    match error {
        Some(kind) => errors.push(refused(name, kind)),
        None => errors,
    }
}

/// The state after the long name `name` was declared.
pub open spec fn check_long(c: Checks, name: SpannedView<Seq<char>>) -> Checks {
    let (long, error) = check_insert(c.long, name.value, name.span);
    Checks { long, short: c.short, errors: noted(c.errors, name, error) }
}

/// The state after the long name `name` was declared, if there is one.
pub open spec fn check_opt_long(c: Checks, name: Option<SpannedView<Seq<char>>>) -> Checks {
    match name {
        Some(name) => check_long(c, name),
        None => c,
    }
}

/// The state after the field `name` declared the short option `abbr`, if it
/// declared one.
pub open spec fn check_short(
    c: Checks,
    abbr: Option<SpannedView<char>>,
    name: SpannedView<Seq<char>>,
) -> Checks {
    match abbr {
        Some(abbr) => {
            let (short, error) = check_insert(c.short, seq![abbr.value], abbr.span);
            Checks { long: c.long, short, errors: noted(c.errors, name, error) }
        },
        None => c,
    }
}

/// Whether a parameter has to be given: a parameter that is declared
/// mandatory and has a default value is refused; one that is declared
/// mandatory is mandatory; one with a default value has that default; one
/// that is declared optional is optional; of any other the specification's
/// `default_optional` decides.
pub open spec fn optionality_of(
    optional: Option<SpannedView<bool>>,
    default_optional: bool,
    default: Option<SpannedView<Seq<char>>>,
) -> Result<OptionalityView, FieldError> {
    if optional is Some && !optional->0.value {
        match default {
            None => Ok(OptionalityView::Mandatory),
            Some(default) => Err(
                FieldError::MandatoryWithDefault {
                    optional_span: optional->0.span,
                    default_span: default.span,
                },
            ),
        }
    } else if default is Some {
        Ok(OptionalityView::DefaultValue(default->0.value))
    } else if optional is Some {
        Ok(OptionalityView::Optional)
    } else if default_optional {
        Ok(OptionalityView::Optional)
    } else {
        Ok(OptionalityView::Mandatory)
    }
}

/// The finding that `name` is no legal field name, if it is none.
pub open spec fn name_errors(name: Result<Seq<char>, ErrorView>) -> Seq<ValidationErrorView> {
    match name {
        Ok(_) => Seq::empty(),
        Err(error) => seq![ValidationErrorView::InvalidIdentifier(error)],
    }
}

/// The finding on the field `name` that `outcome` holds, if it holds one.
pub open spec fn field_errors<T>(
    name: SpannedView<Seq<char>>,
    outcome: Result<T, FieldError>,
) -> Seq<ValidationErrorView> {
    match outcome {
        Ok(_) => Seq::empty(),
        Err(kind) => seq![refused(name, kind)],
    }
}

/// The value of an optional value with a place, without the place.
pub open spec fn value_of<T>(spanned: Option<SpannedView<T>>) -> Option<T> {
    match spanned {
        Some(spanned) => Some(spanned.value),
        None => None,
    }
}

/// `given` where it is set, else `fallback`.
pub open spec fn or_default<T>(given: Option<T>, fallback: T) -> T {
    match given {
        Some(given) => given,
        None => fallback,
    }
}

/// The parameter that `p` declares, or what is wrong with it: first its
/// name, then whether it has to be given.
pub open spec fn validated_param(
    p: RawParamView,
    default_optional: bool,
    default_argument: bool,
    default_env_var: bool,
) -> Result<ParamView, Seq<ValidationErrorView>> {
    let optionality = optionality_of(p.optional, default_optional, p.default);
    let name = ident_of(p.name);
    if name is Ok && optionality is Ok {
        Ok(
            ParamView {
                name: name->Ok_0,
                abbr: value_of(p.abbr),
                ty: p.ty,
                optionality: optionality->Ok_0,
                doc: p.doc,
                argument: or_default(p.argument, default_argument),
                env_var: or_default(p.env_var, default_env_var),
                convert_into: or_default(p.convert_into, p.ty),
                merge_fn: p.merge_fn,
                debconf_priority: p.debconf_priority,
                debconf_default: p.debconf_default,
            },
        )
    } else {
        Err(name_errors(name) + field_errors(p.name, optionality))
    }
}

/// How a switch is given, its short option taken as it is: a switch that is
/// on by default is refused if it has a short option or counts, and is
/// inverted otherwise; any other switch is a normal one.
pub open spec fn kind_given(
    abbr: Option<SpannedView<char>>,
    default: Option<SpannedView<bool>>,
    count: Option<SpannedView<bool>>,
) -> Result<SwitchKind, FieldError> {
    if default is Some && default->0.value && abbr is Some {
        Err(
            FieldError::InvertedWithAbbr {
                default_span: default->0.span,
                abbr_span: abbr->0.span,
            },
        )
    } else if default is Some && default->0.value && count is Some && count->0.value {
        Err(
            FieldError::InvertedWithCount {
                default_span: default->0.span,
                count_span: count->0.span,
            },
        )
    } else if default is Some && default->0.value {
        Ok(SwitchKind::Inverted)
    } else {
        Ok(SwitchKind::Normal { abbr: value_of(abbr), count: or_default(value_of(count), false) })
    }
}

/// How a switch is given: a short option that is no English letter is
/// refused; else [`kind_given`] decides.
pub open spec fn switch_kind_of(
    abbr: Option<SpannedView<char>>,
    default: Option<SpannedView<bool>>,
    count: Option<SpannedView<bool>>,
) -> Result<SwitchKind, FieldError> {
    if abbr is Some && !is_letter(abbr->0.value) {
        Err(FieldError::InvalidAbbr { abbr_span: abbr->0.span })
    } else {
        kind_given(abbr, default, count)
    }
}

/// The switch that `s` declares, or what is wrong with it: first its name,
/// then the way it is given.
pub open spec fn validated_switch(s: RawSwitchView, default_env_var: bool) -> Result<
    SwitchView,
    Seq<ValidationErrorView>,
> {
    let kind = switch_kind_of(s.abbr, s.default, s.count);
    let name = ident_of(s.name);
    if name is Ok && kind is Ok {
        Ok(
            SwitchView {
                name: name->Ok_0,
                kind: kind->Ok_0,
                doc: s.doc,
                env_var: or_default(s.env_var, default_env_var),
                debconf_priority: s.debconf_priority,
            },
        )
    } else {
        Err(name_errors(name) + field_errors(s.name, kind))
    }
}

/// `errors` with what is wrong with a field, if anything is.
pub open spec fn with_errors_of<T>(
    errors: Seq<ValidationErrorView>,
    outcome: Result<T, Seq<ValidationErrorView>>,
) -> Seq<ValidationErrorView> {
    match outcome {
        Ok(_) => errors,
        Err(found) => errors + found,
    }
}

/// The state after the parameter `p` was examined: its long name and its
/// short option are declared, then what is wrong with it is noted.
pub open spec fn after_param(
    c: Checks,
    p: RawParamView,
    default_optional: bool,
    default_argument: bool,
    default_env_var: bool,
) -> Checks {
    let c = check_short(check_long(c, p.name), p.abbr, p.name);
    Checks {
        long: c.long,
        short: c.short,
        errors: with_errors_of(
            c.errors,
            validated_param(p, default_optional, default_argument, default_env_var),
        ),
    }
}

/// The state after the parameters `params` were examined in their order.
pub open spec fn after_params(
    c: Checks,
    params: Seq<RawParamView>,
    default_optional: bool,
    default_argument: bool,
    default_env_var: bool,
) -> Checks
    decreases params.len(),
{
    if params.len() == 0 {
        c
    } else {
        after_param(
            after_params(
                c,
                params.drop_last(),
                default_optional,
                default_argument,
                default_env_var,
            ),
            params.last(),
            default_optional,
            default_argument,
            default_env_var,
        )
    }
}

/// Those of `params` with which nothing is wrong, in their order.
pub open spec fn valid_params(
    params: Seq<RawParamView>,
    default_optional: bool,
    default_argument: bool,
    default_env_var: bool,
) -> Seq<ParamView>
    decreases params.len(),
{
    if params.len() == 0 {
        Seq::empty()
    } else {
        let front = valid_params(
            params.drop_last(),
            default_optional,
            default_argument,
            default_env_var,
        );
        match validated_param(params.last(), default_optional, default_argument, default_env_var) {
            Ok(param) => front.push(param),
            Err(_) => front,
        }
    }
}

/// The state after the switch `s` was examined: its long name and its short
/// option are declared, then what is wrong with it is noted.
pub open spec fn after_switch(c: Checks, s: RawSwitchView, default_env_var: bool) -> Checks {
    let c = check_short(check_long(c, s.name), s.abbr, s.name);
    Checks {
        long: c.long,
        short: c.short,
        errors: with_errors_of(c.errors, validated_switch(s, default_env_var)),
    }
}

/// The state after the switches `switches` were examined in their order.
pub open spec fn after_switches(
    c: Checks,
    switches: Seq<RawSwitchView>,
    default_env_var: bool,
) -> Checks
    decreases switches.len(),
{
    if switches.len() == 0 {
        c
    } else {
        after_switch(
            after_switches(c, switches.drop_last(), default_env_var),
            switches.last(),
            default_env_var,
        )
    }
}

/// Those of `switches` with which nothing is wrong, in their order.
pub open spec fn valid_switches(switches: Seq<RawSwitchView>, default_env_var: bool) -> Seq<
    SwitchView,
>
    decreases switches.len(),
{
    if switches.len() == 0 {
        Seq::empty()
    } else {
        let front = valid_switches(switches.drop_last(), default_env_var);
        match validated_switch(switches.last(), default_env_var) {
            Ok(switch) => front.push(switch),
            Err(_) => front,
        }
    }
}

/// Whether the fields of a specification can be given in the environment
/// where they do not say so themselves.
pub open spec fn default_env_var(raw: RawConfigView) -> bool {
    or_default(raw.defaults.env_vars, raw.general.env_prefix is Some)
}

/// The state in which nothing was declared yet: `help` and `h` are
/// reserved.
pub open spec fn initial_checks() -> Checks {
    Checks { long: with_reserved("help"@), short: with_reserved(seq!['h']), errors: Seq::empty() }
}

/// The state after the three names of the general options were declared.
pub open spec fn after_general(general: RawGeneralView) -> Checks {
    check_opt_long(
        check_opt_long(
            check_opt_long(initial_checks(), general.conf_file_param),
            general.conf_dir_param,
        ),
        general.skip_default_conf_files_switch,
    )
}

/// The state after every field of the specification was examined.
pub open spec fn after_fields(raw: RawConfigView) -> Checks {
    after_switches(
        after_params(
            after_general(raw.general),
            raw.params,
            raw.defaults.optional,
            raw.defaults.args,
            default_env_var(raw),
        ),
        raw.switches,
        default_env_var(raw),
    )
}

/// The name of a general option as a field name, if it is set and legal.
pub open spec fn general_name(name: Option<SpannedView<Seq<char>>>) -> Option<Seq<char>> {
    match name {
        Some(name) => match ident_of(name) {
            Ok(name) => Some(name),
            Err(_) => None,
        },
        None => None,
    }
}

/// The finding that the name of a general option is no legal field name.
pub open spec fn general_name_errors(name: Option<SpannedView<Seq<char>>>) -> Seq<
    ValidationErrorView,
> {
    match name {
        Some(name) => name_errors(ident_of(name)),
        None => Seq::empty(),
    }
}

/// The way of handling the program's name that a specification declares:
/// the one its word names, and the usual one where it has no word or one
/// that names none.
pub open spec fn declared_policy(word: Option<SpannedView<Seq<char>>>) -> ProgramName {
    match word {
        Some(word) => or_default(strategy_of(word.value), ProgramName::Optional),
        None => ProgramName::Optional,
    }
}

/// The finding that the word for the handling of the program's name names
/// no way of handling it.
pub open spec fn program_name_errors(word: Option<SpannedView<Seq<char>>>) -> Seq<
    ValidationErrorView,
> {
    match word {
        Some(word) => if strategy_of(word.value) is None {
            seq![ValidationErrorView::InvalidProgramName { input: word.value, span: word.span }]
        } else {
            Seq::empty()
        },
        None => Seq::empty(),
    }
}

/// Everything that is wrong with a specification, in the order in which the
/// examination finds it: what is wrong with the fields, in the order of
/// their declaration; the long names that were declared more than once; the
/// short options that were; the names of the general options that are no
/// legal field names; the word for the handling of the program's name that
/// names none.
pub open spec fn findings(raw: RawConfigView) -> Seq<ValidationErrorView> {
    let c = after_fields(raw);
    c.errors + duplicates_of(c.long.dup_cache) + duplicates_of(c.short.dup_cache)
        + general_name_errors(raw.general.conf_file_param) + general_name_errors(
        raw.general.conf_dir_param,
    ) + general_name_errors(raw.general.skip_default_conf_files_switch) + program_name_errors(
        raw.general.program_name,
    )
}

/// The specification that `raw` declares, taken that nothing is wrong with
/// it.
pub open spec fn accepted(raw: RawConfigView) -> ConfigView {
    ConfigView {
        general: GeneralView {
            name: raw.general.name,
            summary: raw.general.summary,
            doc: raw.general.doc,
            env_prefix: raw.general.env_prefix,
            conf_file_param: general_name(raw.general.conf_file_param),
            conf_dir_param: general_name(raw.general.conf_dir_param),
            skip_default_conf_files_switch: general_name(
                raw.general.skip_default_conf_files_switch,
            ),
            program_name: declared_policy(raw.general.program_name),
        },
        debconf: raw.debconf,
        params: valid_params(
            raw.params,
            raw.defaults.optional,
            raw.defaults.args,
            default_env_var(raw),
        ),
        switches: valid_switches(raw.switches, default_env_var(raw)),
    }
}

/// The outcome of the examination of `raw`: the specification it declares
/// if nothing is wrong with it, else everything that is wrong, ordered by
/// the offsets at which the text shows it.
pub open spec fn validated(raw: RawConfigView) -> Result<ConfigView, Seq<ValidationErrorView>> {
    if findings(raw).len() == 0 {
        Ok(accepted(raw))
    } else {
        Err(sorted_by_key(findings(raw)))
    }
}

} // verus!
