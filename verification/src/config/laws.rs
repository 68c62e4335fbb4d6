//! What follows from the rules of the examination: that it is a function
//! of the specification, that its findings come in order, that a
//! specification which passes is consistent, and how often a parameter that
//! is mandatory and has a default value is reported.

use vstd::prelude::*;
use crate::config::order::{lemma_sorted_by_key, ordered, sorted_by_key, insert_sorted};
use crate::config::raw::{
    check_insert, dup_keys, duplicates_of, keys_of, record_duplicate, ArgValidatorView,
    RawConfigView, RawParamView, RawSwitchView};
use crate::config::rules::{
    accepted, after_fields, after_params,
    after_switches, check_long, check_opt_long, check_short, default_env_var, field_errors,
    findings, general_name_errors, initial_checks, name_errors, program_name_errors,
    optionality_of, switch_kind_of, valid_params, valid_switches, validated, validated_param,
    validated_switch, value_of, Checks};
use crate::config::{
    consistent, is_letter, kind_abbr, long_names, optional_name, present, short_options,
    ConfigView, FieldError, ParamView, SwitchView, ValidationErrorView};
use crate::ident::{ident_of, is_identifier, lemma_identifier_has_no_invalid_position};
use crate::span::{Span, SpannedView};

verus! {

/// The examination is a function of what the specification says: two
/// specifications that say the same have the same outcome, finding for
/// finding and in the same order.
pub proof fn validation_is_deterministic(a: crate::config::raw::Config, b: crate::config::raw::Config)
    requires
        a.deep_view() == b.deep_view(),
    ensures
        validated(a.deep_view()) == validated(b.deep_view()),
{
}

/// The findings of an examination are never empty, hold each finding as
/// often as it was made, and come by rising offset; those at the same offset
/// come in the order in which they were made.
pub proof fn findings_are_ordered(raw: RawConfigView)
    requires
        validated(raw) is Err,
    ensures
        validated(raw)->Err_0.len() == findings(raw).len(),
        validated(raw)->Err_0.len() > 0,
        validated(raw)->Err_0.to_multiset() == findings(raw).to_multiset(),
        ordered(validated(raw)->Err_0),
        forall|key: usize|
            #[trigger] crate::config::order::with_key(validated(raw)->Err_0, key)
                == crate::config::order::with_key(findings(raw), key),
{
    lemma_sorted_by_key(findings(raw));
    assert forall|key: usize|
        #[trigger] crate::config::order::with_key(validated(raw)->Err_0, key)
            == crate::config::order::with_key(findings(raw), key) by {
        crate::config::order::sorting_is_stable(findings(raw), key);
    }
}

/// Whether nothing was found so far and no name was declared twice.
pub open spec fn clean(c: Checks) -> bool {
    c.errors.len() == 0 && c.long.dup_cache.len() == 0 && c.short.dup_cache.len() == 0
}

/// The names of a short-option state that stand for the options `chars`.
pub open spec fn keys_of_chars(chars: Seq<char>) -> Seq<Seq<char>> {
    chars.map_values(|c: char| seq![c])
}

/// Whether the state `v` knows exactly the names `names`, each once.
pub open spec fn tracks(v: ArgValidatorView, names: Seq<Seq<char>>) -> bool {
    keys_of(v.map) == names && names.no_duplicates()
}

/// Whether the state `v` knows exactly the short options `chars`, each once.
pub open spec fn tracks_chars(v: ArgValidatorView, chars: Seq<char>) -> bool {
    keys_of(v.map) == keys_of_chars(chars) && chars.no_duplicates()
}

/// A declaration never makes the record of repeated names shorter.
proof fn lemma_record_grows(
    cache: Seq<(Seq<char>, Span, Seq<Span>)>,
    key: Seq<char>,
    first: Span,
    span: Span,
)
    ensures
        record_duplicate(cache, key, first, span).len() >= cache.len(),
        record_duplicate(cache, key, first, span).len() > 0,
{
    dup_keys(cache).index_of_first_ensures(key);
}

/// A declaration that is not refused and after which no name is recorded
/// as repeated was the declaration of a name that was not known, and it adds
/// that name at the end.
proof fn lemma_insert_clean(v: ArgValidatorView, key: Seq<char>, span: Span)
    requires
        check_insert(v, key, span).1 is None,
        check_insert(v, key, span).0.dup_cache.len() == 0,
    ensures
        v.dup_cache.len() == 0,
        !keys_of(v.map).contains(key),
        keys_of(check_insert(v, key, span).0.map) == keys_of(v.map).push(key),
{
    keys_of(v.map).index_of_first_ensures(key);
    match keys_of(v.map).index_of_first(key) {
        None => {
            assert(keys_of(v.map.push((key, Some(span)))) =~= keys_of(v.map).push(key));
        },
        Some(i) => {
            match v.map[i].1 {
                Some(first) => {
                    lemma_record_grows(v.dup_cache, key, first, span);
                },
                None => {},
            }
        },
    }
}

/// A declaration never makes the record of repeated names shorter.
proof fn lemma_insert_grows(v: ArgValidatorView, key: Seq<char>, span: Span)
    ensures
        check_insert(v, key, span).0.dup_cache.len() >= v.dup_cache.len(),
{
    keys_of(v.map).index_of_first_ensures(key);
    match keys_of(v.map).index_of_first(key) {
        None => {},
        Some(i) => {
            match v.map[i].1 {
                Some(first) => {
                    lemma_record_grows(v.dup_cache, key, first, span);
                },
                None => {},
            }
        },
    }
}

/// If the state is clean after a long name was declared, it was clean
/// before, and the name is new.
proof fn lemma_long_clean(c: Checks, name: SpannedView<Seq<char>>, names: Seq<Seq<char>>)
    requires
        clean(check_long(c, name)),
    ensures
        clean(c),
        check_long(c, name).short == c.short,
        tracks(c.long, names) ==> tracks(check_long(c, name).long, names.push(name.value)),
{
    lemma_insert_grows(c.long, name.value, name.span);
    lemma_insert_clean(c.long, name.value, name.span);
    if tracks(c.long, names) {
        let after = names.push(name.value);
        assert forall|i: int, j: int| 0 <= i < after.len() && 0 <= j < after.len() && i
            != j implies after[i] != after[j] by {
            if i < names.len() && j < names.len() {
            } else if i < names.len() {
                assert(names.contains(names[i]));
            } else if j < names.len() {
                assert(names.contains(names[j]));
            }
        }
    }
}

/// The set options of a list of one.
proof fn lemma_present_one(option: Option<char>)
    ensures
        present(seq![option]) == match option {
            Some(c) => seq![c],
            None => Seq::<char>::empty(),
        },
{
    let one = seq![option];
    assert(one.drop_last() =~= Seq::<Option<char>>::empty());
    assert(present(one.drop_last()) =~= Seq::<char>::empty());
    match option {
        Some(c) => {
            assert(present(one) =~= seq![c]);
        },
        None => {},
    }
}

/// If the state is clean after a short option was declared, it was clean
/// before, and the option is new.
proof fn lemma_short_clean(
    c: Checks,
    abbr: Option<SpannedView<char>>,
    name: SpannedView<Seq<char>>,
    chars: Seq<char>,
)
    requires
        clean(check_short(c, abbr, name)),
    ensures
        clean(c),
        check_short(c, abbr, name).long == c.long,
        tracks_chars(c.short, chars) ==> tracks_chars(
            check_short(c, abbr, name).short,
            chars + present(seq![value_of(abbr)]),
        ),
{
    match abbr {
        Some(abbr) => {
            let key = seq![abbr.value];
            lemma_insert_grows(c.short, key, abbr.span);
            lemma_insert_clean(c.short, key, abbr.span);
            lemma_present_one(Some(abbr.value));
            if tracks_chars(c.short, chars) {
                let after = chars + seq![abbr.value];
                assert(keys_of_chars(after) =~= keys_of_chars(chars).push(key));
                assert forall|i: int, j: int| 0 <= i < after.len() && 0 <= j < after.len() && i
                    != j implies after[i] != after[j] by {
                    if i < chars.len() && j < chars.len() {
                    } else if i < chars.len() {
                        assert(keys_of_chars(chars)[i] == seq![chars[i]]);
                        assert(keys_of_chars(chars).contains(seq![chars[i]]));
                        if chars[i] == abbr.value {
                            assert(seq![chars[i]] == key);
                        }
                    } else if j < chars.len() {
                        assert(keys_of_chars(chars)[j] == seq![chars[j]]);
                        assert(keys_of_chars(chars).contains(seq![chars[j]]));
                        if chars[j] == abbr.value {
                            assert(seq![chars[j]] == key);
                        }
                    }
                }
            }
        },
        None => {
            lemma_present_one(None);
            assert(chars + Seq::<char>::empty() =~= chars);
        },
    }
}

/// The long names that the parameters `params` declare.
pub open spec fn param_names(params: Seq<RawParamView>) -> Seq<Seq<char>> {
    params.map_values(|p: RawParamView| p.name.value)
}

/// The short options that the parameters `params` declare.
pub open spec fn param_abbrs(params: Seq<RawParamView>) -> Seq<Option<char>> {
    params.map_values(|p: RawParamView| value_of(p.abbr))
}

/// The long names that the switches `switches` declare.
pub open spec fn switch_names(switches: Seq<RawSwitchView>) -> Seq<Seq<char>> {
    switches.map_values(|s: RawSwitchView| s.name.value)
}

/// The short options that the switches `switches` declare.
pub open spec fn switch_abbrs(switches: Seq<RawSwitchView>) -> Seq<Option<char>> {
    switches.map_values(|s: RawSwitchView| value_of(s.abbr))
}

/// The set options of a list that grew by one are those of the list, and
/// the one if it is set.
proof fn lemma_present_push(options: Seq<Option<char>>, option: Option<char>)
    ensures
        present(options.push(option)) == present(options) + present(seq![option]),
{
    assert(options.push(option).drop_last() =~= options);
    lemma_present_one(option);
    match option {
        Some(c) => {
            assert(present(options).push(c) =~= present(options) + seq![c]);
        },
        None => {
            assert(present(options) + Seq::<char>::empty() =~= present(options));
        },
    }
}

/// If the state is clean after the parameters were examined, it was clean
/// before, nothing is wrong with any of them, and their names and short
/// options are new and differ from each other.
proof fn lemma_params_clean(
    c: Checks,
    params: Seq<RawParamView>,
    default_optional: bool,
    default_argument: bool,
    default_env_var: bool,
    names: Seq<Seq<char>>,
    chars: Seq<char>,
)
    requires
        clean(after_params(c, params, default_optional, default_argument, default_env_var)),
        clean(c) ==> tracks(c.long, names) && tracks_chars(c.short, chars),
    ensures
        clean(c),
        forall|i: int|
            0 <= i < params.len() ==> validated_param(
                #[trigger] params[i],
                default_optional,
                default_argument,
                default_env_var,
            ) is Ok,
        valid_params(params, default_optional, default_argument, default_env_var).len()
            == params.len(),
        forall|i: int|
            0 <= i < params.len() ==> Ok::<ParamView, Seq<ValidationErrorView>>(
                #[trigger] valid_params(
                    params,
                    default_optional,
                    default_argument,
                    default_env_var,
                )[i],
            ) == validated_param(params[i], default_optional, default_argument, default_env_var),
        tracks(
            after_params(c, params, default_optional, default_argument, default_env_var).long,
            names + param_names(params),
        ),
        tracks_chars(
            after_params(c, params, default_optional, default_argument, default_env_var).short,
            chars + present(param_abbrs(params)),
        ),
    decreases params.len(),
{
    if params.len() == 0 {
        assert(names + param_names(params) =~= names);
        assert(present(param_abbrs(params)) =~= Seq::<char>::empty());
        assert(chars + present(param_abbrs(params)) =~= chars);
    } else {
        let front = params.drop_last();
        let p = params.last();
        let c1 = after_params(c, front, default_optional, default_argument, default_env_var);
        let c2 = check_long(c1, p.name);
        let c3 = check_short(c2, p.abbr, p.name);
        let outcome = validated_param(p, default_optional, default_argument, default_env_var);
        assert(outcome is Ok) by {
            if outcome is Err {
                let found = outcome->Err_0;
                assert(found.len() > 0) by {
                    let optionality = optionality_of(p.optional, default_optional, p.default);
                    if ident_of(p.name) is Err {
                        assert(name_errors(ident_of(p.name)).len() == 1);
                    } else {
                        assert(field_errors(p.name, optionality).len() == 1);
                    }
                }
            }
        }
        assert(clean(c3));
        let names1 = names + param_names(front);
        let chars1 = chars + present(param_abbrs(front));
        lemma_short_clean(c2, p.abbr, p.name, chars1);
        lemma_long_clean(c1, p.name, names1);
        lemma_params_clean(
            c,
            front,
            default_optional,
            default_argument,
            default_env_var,
            names,
            chars,
        );
        assert forall|i: int| 0 <= i < params.len() implies validated_param(
            #[trigger] params[i],
            default_optional,
            default_argument,
            default_env_var,
        ) is Ok by {
            if i < front.len() {
                assert(params[i] == front[i]);
            }
        }
        assert(param_names(params) =~= param_names(front).push(p.name.value));
        assert(names + param_names(params) =~= names1.push(p.name.value));
        assert(param_abbrs(params) =~= param_abbrs(front).push(value_of(p.abbr)));
        lemma_present_push(param_abbrs(front), value_of(p.abbr));
        assert(chars + present(param_abbrs(params)) =~= chars1 + present(seq![value_of(p.abbr)]));
    }
}

/// If the state is clean after the switches were examined, it was clean
/// before, nothing is wrong with any of them, and their names and short
/// options are new and differ from each other.
proof fn lemma_switches_clean(
    c: Checks,
    switches: Seq<RawSwitchView>,
    default_env_var: bool,
    names: Seq<Seq<char>>,
    chars: Seq<char>,
)
    requires
        clean(after_switches(c, switches, default_env_var)),
        clean(c) ==> tracks(c.long, names) && tracks_chars(c.short, chars),
    ensures
        clean(c),
        forall|i: int|
            0 <= i < switches.len() ==> validated_switch(#[trigger] switches[i], default_env_var)
                is Ok,
        valid_switches(switches, default_env_var).len() == switches.len(),
        forall|i: int|
            0 <= i < switches.len() ==> Ok::<SwitchView, Seq<ValidationErrorView>>(
                #[trigger] valid_switches(switches, default_env_var)[i],
            ) == validated_switch(switches[i], default_env_var),
        tracks(
            after_switches(c, switches, default_env_var).long,
            names + switch_names(switches),
        ),
        tracks_chars(
            after_switches(c, switches, default_env_var).short,
            chars + present(switch_abbrs(switches)),
        ),
    decreases switches.len(),
{
    if switches.len() == 0 {
        assert(names + switch_names(switches) =~= names);
        assert(present(switch_abbrs(switches)) =~= Seq::<char>::empty());
        assert(chars + present(switch_abbrs(switches)) =~= chars);
    } else {
        let front = switches.drop_last();
        let s = switches.last();
        let c1 = after_switches(c, front, default_env_var);
        let c2 = check_long(c1, s.name);
        let c3 = check_short(c2, s.abbr, s.name);
        let outcome = validated_switch(s, default_env_var);
        assert(outcome is Ok) by {
            if outcome is Err {
                let found = outcome->Err_0;
                assert(found.len() > 0) by {
                    let kind = switch_kind_of(s.abbr, s.default, s.count);
                    if ident_of(s.name) is Err {
                        assert(name_errors(ident_of(s.name)).len() == 1);
                    } else {
                        assert(field_errors(s.name, kind).len() == 1);
                    }
                }
            }
        }
        assert(clean(c3));
        let names1 = names + switch_names(front);
        let chars1 = chars + present(switch_abbrs(front));
        lemma_short_clean(c2, s.abbr, s.name, chars1);
        lemma_long_clean(c1, s.name, names1);
        lemma_switches_clean(c, front, default_env_var, names, chars);
        assert forall|i: int| 0 <= i < switches.len() implies validated_switch(
            #[trigger] switches[i],
            default_env_var,
        ) is Ok by {
            if i < front.len() {
                assert(switches[i] == front[i]);
            }
        }
        assert(switch_names(switches) =~= switch_names(front).push(s.name.value));
        assert(names + switch_names(switches) =~= names1.push(s.name.value));
        assert(switch_abbrs(switches) =~= switch_abbrs(front).push(value_of(s.abbr)));
        lemma_present_push(switch_abbrs(front), value_of(s.abbr));
        assert(chars + present(switch_abbrs(switches)) =~= chars1 + present(
            seq![value_of(s.abbr)],
        ));
    }
}

/// The name of an optional declaration, as a list of none or one.
pub open spec fn declared(name: Option<SpannedView<Seq<char>>>) -> Seq<Seq<char>> {
    match name {
        Some(name) => seq![name.value],
        None => Seq::empty(),
    }
}

/// If the state is clean after an optional long name was declared, it was
/// clean before, and the name is new.
proof fn lemma_opt_long_clean(
    c: Checks,
    name: Option<SpannedView<Seq<char>>>,
    names: Seq<Seq<char>>,
)
    requires
        clean(check_opt_long(c, name)),
    ensures
        clean(c),
        check_opt_long(c, name).short == c.short,
        tracks(c.long, names) ==> tracks(check_opt_long(c, name).long, names + declared(name)),
{
    match name {
        Some(name) => {
            lemma_long_clean(c, name, names);
            assert(names + seq![name.value] =~= names.push(name.value));
        },
        None => {
            assert(names + Seq::<Seq<char>>::empty() =~= names);
        },
    }
}

/// The long names that a specification declares, in the order in which it
/// declares them.
pub open spec fn declared_names(raw: RawConfigView) -> Seq<Seq<char>> {
    declared(raw.general.conf_file_param) + declared(raw.general.conf_dir_param) + declared(
        raw.general.skip_default_conf_files_switch,
    ) + param_names(raw.params) + switch_names(raw.switches)
}

/// The short options that a specification declares, in the order in which
/// it declares them.
pub open spec fn declared_options(raw: RawConfigView) -> Seq<char> {
    present(param_abbrs(raw.params)) + present(switch_abbrs(raw.switches))
}

/// Whether nothing is wrong with any field of the specification.
pub open spec fn all_fields_pass(raw: RawConfigView) -> bool {
    &&& forall|i: int|
        0 <= i < raw.params.len() ==> validated_param(
            #[trigger] raw.params[i],
            raw.defaults.optional,
            raw.defaults.args,
            default_env_var(raw),
        ) is Ok
    &&& forall|i: int|
        0 <= i < raw.switches.len() ==> validated_switch(
            #[trigger] raw.switches[i],
            default_env_var(raw),
        ) is Ok
    &&& accepted(raw).params.len() == raw.params.len()
    &&& accepted(raw).switches.len() == raw.switches.len()
    &&& forall|i: int|
        0 <= i < raw.params.len() ==> Ok::<ParamView, Seq<ValidationErrorView>>(
            #[trigger] accepted(raw).params[i],
        ) == validated_param(
            raw.params[i],
            raw.defaults.optional,
            raw.defaults.args,
            default_env_var(raw),
        )
    &&& forall|i: int|
        0 <= i < raw.switches.len() ==> Ok::<SwitchView, Seq<ValidationErrorView>>(
            #[trigger] accepted(raw).switches[i],
        ) == validated_switch(raw.switches[i], default_env_var(raw))
    &&& general_name_errors(raw.general.conf_file_param).len() == 0
    &&& general_name_errors(raw.general.conf_dir_param).len() == 0
    &&& general_name_errors(raw.general.skip_default_conf_files_switch).len() == 0
}

/// Where the examination finds nothing, nothing is wrong with any field,
/// and no name and no short option is declared twice or reserved.
proof fn lemma_nothing_found(raw: RawConfigView)
    requires
        findings(raw).len() == 0,
    ensures
        all_fields_pass(raw),
        (seq!["help"@] + declared_names(raw)).no_duplicates(),
        (seq!['h'] + declared_options(raw)).no_duplicates(),
{
    let general = raw.general;
    let d_env = default_env_var(raw);
    let c0 = initial_checks();
    let c1 = check_opt_long(c0, general.conf_file_param);
    let c2 = check_opt_long(c1, general.conf_dir_param);
    let c3 = check_opt_long(c2, general.skip_default_conf_files_switch);
    let c4 = after_params(c3, raw.params, raw.defaults.optional, raw.defaults.args, d_env);
    let c5 = after_switches(c4, raw.switches, d_env);
    assert(c5 == after_fields(raw));
    assert(c5.errors.len() == 0);
    assert(duplicates_of(c5.long.dup_cache).len() == 0);
    assert(duplicates_of(c5.short.dup_cache).len() == 0);
    assert(clean(c5));

    let n0 = seq!["help"@];
    let n1 = n0 + declared(general.conf_file_param);
    let n2 = n1 + declared(general.conf_dir_param);
    let n3 = n2 + declared(general.skip_default_conf_files_switch);
    let n4 = n3 + param_names(raw.params);
    let n5 = n4 + switch_names(raw.switches);
    let s0 = seq!['h'];
    let s4 = s0 + present(param_abbrs(raw.params));
    let s5 = s4 + present(switch_abbrs(raw.switches));

    assert(tracks(c0.long, n0)) by {
        assert(keys_of(c0.long.map) =~= n0);
    }
    assert(tracks_chars(c0.short, s0)) by {
        assert(keys_of(c0.short.map) =~= keys_of_chars(s0));
    }
    // Cleanliness flows backwards, the record of names forwards.
    if !clean(c4) {
        lemma_switches_clean(c4, raw.switches, d_env, n4, s4);
    }
    if !clean(c3) {
        lemma_params_clean(
            c3,
            raw.params,
            raw.defaults.optional,
            raw.defaults.args,
            d_env,
            n3,
            s0,
        );
    }
    lemma_opt_long_clean(c2, general.skip_default_conf_files_switch, n2);
    lemma_opt_long_clean(c1, general.conf_dir_param, n1);
    lemma_opt_long_clean(c0, general.conf_file_param, n0);
    lemma_params_clean(c3, raw.params, raw.defaults.optional, raw.defaults.args, d_env, n3, s0);
    lemma_switches_clean(c4, raw.switches, d_env, n4, s4);
    assert(seq!["help"@] + declared_names(raw) =~= n5);
    assert(seq!['h'] + declared_options(raw) =~= s5);
}

/// Where nothing is wrong with any field, the names and the short options
/// of the examined specification are those that were declared.
proof fn lemma_names_kept(raw: RawConfigView)
    requires
        all_fields_pass(raw),
    ensures
        long_names(accepted(raw)) == declared_names(raw),
        short_options(accepted(raw)) == declared_options(raw),
        forall|i: int|
            0 <= i < accepted(raw).switches.len() ==> match kind_abbr(
                (#[trigger] accepted(raw).switches[i]).kind,
            ) {
                Some(abbr) => is_letter(abbr),
                None => true,
            },
{
    let config = accepted(raw);
    let general = raw.general;
    let d_env = default_env_var(raw);
    assert(optional_name(config.general.conf_file_param) == declared(general.conf_file_param));
    assert(optional_name(config.general.conf_dir_param) == declared(general.conf_dir_param));
    assert(optional_name(config.general.skip_default_conf_files_switch) == declared(
        general.skip_default_conf_files_switch,
    ));
    assert(config.params.map_values(|param: ParamView| param.name) =~= param_names(raw.params))
        by {
        assert forall|i: int| 0 <= i < raw.params.len() implies (#[trigger] config.params[i]).name
            == raw.params[i].name.value by {
            assert(Ok::<ParamView, Seq<ValidationErrorView>>(config.params[i]) == validated_param(
                raw.params[i],
                raw.defaults.optional,
                raw.defaults.args,
                d_env,
            ));
        }
    }
    assert(config.switches.map_values(|switch: SwitchView| switch.name) =~= switch_names(
        raw.switches,
    )) by {
        assert forall|i: int|
            0 <= i < raw.switches.len() implies (#[trigger] config.switches[i]).name
            == raw.switches[i].name.value by {
            assert(Ok::<SwitchView, Seq<ValidationErrorView>>(config.switches[i])
                == validated_switch(raw.switches[i], d_env));
        }
    }
    assert(config.params.map_values(|param: ParamView| param.abbr) =~= param_abbrs(raw.params))
        by {
        assert forall|i: int| 0 <= i < raw.params.len() implies (#[trigger] config.params[i]).abbr
            == value_of(raw.params[i].abbr) by {
            assert(Ok::<ParamView, Seq<ValidationErrorView>>(config.params[i]) == validated_param(
                raw.params[i],
                raw.defaults.optional,
                raw.defaults.args,
                d_env,
            ));
        }
    }
    assert(config.switches.map_values(|switch: SwitchView| kind_abbr(switch.kind))
        =~= switch_abbrs(raw.switches)) by {
        assert forall|i: int| 0 <= i < raw.switches.len() implies kind_abbr(
            (#[trigger] config.switches[i]).kind,
        ) == value_of(raw.switches[i].abbr) by {
            assert(Ok::<SwitchView, Seq<ValidationErrorView>>(config.switches[i])
                == validated_switch(raw.switches[i], d_env));
        }
    }
    assert forall|i: int| 0 <= i < config.switches.len() implies match kind_abbr(
        (#[trigger] config.switches[i]).kind,
    ) {
        Some(abbr) => is_letter(abbr),
        None => true,
    } by {
        assert(Ok::<SwitchView, Seq<ValidationErrorView>>(config.switches[i]) == validated_switch(
            raw.switches[i],
            d_env,
        ));
    }
}

/// Where nothing is wrong with any field, every name that was declared is
/// a legal field name.
proof fn lemma_names_legal(raw: RawConfigView)
    requires
        all_fields_pass(raw),
    ensures
        forall|i: int|
            0 <= i < declared_names(raw).len() ==> is_identifier(
                #[trigger] declared_names(raw)[i],
            ),
{
    let names = declared_names(raw);
    let general = raw.general;
    let d_env = default_env_var(raw);
    assert forall|i: int| 0 <= i < names.len() implies is_identifier(#[trigger] names[i]) by {
        let k0 = declared(general.conf_file_param).len();
        let k1 = k0 + declared(general.conf_dir_param).len();
        let k2 = k1 + declared(general.skip_default_conf_files_switch).len();
        let k3 = k2 + raw.params.len();
        lemma_identifier_has_no_invalid_position(names[i]);
        if i < k0 {
            assert(names[i] == general.conf_file_param->0.value);
        } else if i < k1 {
            assert(names[i] == general.conf_dir_param->0.value);
        } else if i < k2 {
            assert(names[i] == general.skip_default_conf_files_switch->0.value);
        } else if i < k3 {
            let p = raw.params[i - k2];
            assert(validated_param(p, raw.defaults.optional, raw.defaults.args, d_env) is Ok);
            assert(names[i] == p.name.value);
        } else {
            let s = raw.switches[i - k3];
            assert(validated_switch(s, d_env) is Ok);
            assert(names[i] == s.name.value);
        }
    }
}

/// A specification that passes the examination is consistent.
pub proof fn accepted_is_consistent(raw: RawConfigView)
    requires
        validated(raw) is Ok,
    ensures
        validated(raw) == Ok::<ConfigView, Seq<ValidationErrorView>>(accepted(raw)),
        consistent(accepted(raw)),
{
    lemma_nothing_found(raw);
    lemma_names_kept(raw);
    lemma_names_legal(raw);
}

/// Whether a finding says that a parameter is declared mandatory and has a
/// default value.
pub open spec fn is_mandatory_with_default(error: ValidationErrorView) -> bool {
    error matches ValidationErrorView::InvalidField {
        kind: FieldError::MandatoryWithDefault { .. },
        ..
    }
}

/// How many of `errors` say that a parameter is declared mandatory and has
/// a default value.
pub open spec fn count_mandatory_with_default(errors: Seq<ValidationErrorView>) -> nat
    decreases errors.len(),
{
    if errors.len() == 0 {
        0
    } else {
        count_mandatory_with_default(errors.drop_last()) + if is_mandatory_with_default(
            errors.last(),
        ) {
            1nat
        } else {
            0nat
        }
    }
}

/// Whether a parameter is declared mandatory and has a default value.
pub open spec fn mandatory_with_default(p: RawParamView) -> bool {
    p.optional is Some && !p.optional->0.value && p.default is Some
}

/// How many of `params` are declared mandatory and have a default value.
pub open spec fn count_declared_so(params: Seq<RawParamView>) -> nat
    decreases params.len(),
{
    if params.len() == 0 {
        0
    } else {
        count_declared_so(params.drop_last()) + if mandatory_with_default(params.last()) {
            1nat
        } else {
            0nat
        }
    }
}

/// The count over a list that grew by one finding.
proof fn lemma_count_push(errors: Seq<ValidationErrorView>, error: ValidationErrorView)
    ensures
        count_mandatory_with_default(errors.push(error)) == count_mandatory_with_default(errors)
            + if is_mandatory_with_default(error) {
            1nat
        } else {
            0nat
        },
{
    assert(errors.push(error).drop_last() =~= errors);
}

/// The count over two lists joined is the sum of the counts.
proof fn lemma_count_add(a: Seq<ValidationErrorView>, b: Seq<ValidationErrorView>)
    ensures
        count_mandatory_with_default(a + b) == count_mandatory_with_default(a)
            + count_mandatory_with_default(b),
    decreases b.len(),
{
    if b.len() == 0 {
        assert(a + b =~= a);
    } else {
        lemma_count_add(a, b.drop_last());
        assert((a + b).drop_last() =~= a + b.drop_last());
    }
}

/// Ordering the findings does not change the count.
proof fn lemma_count_sorted(errors: Seq<ValidationErrorView>)
    ensures
        count_mandatory_with_default(sorted_by_key(errors)) == count_mandatory_with_default(
            errors,
        ),
    decreases errors.len(),
{
    if errors.len() > 0 {
        lemma_count_sorted(errors.drop_last());
        lemma_count_insert(sorted_by_key(errors.drop_last()), errors.last());
    }
}

/// Putting a finding into an ordered list raises the count by what the
/// finding counts.
proof fn lemma_count_insert(sorted: Seq<ValidationErrorView>, error: ValidationErrorView)
    ensures
        count_mandatory_with_default(insert_sorted(sorted, error)) == count_mandatory_with_default(
            sorted,
        ) + if is_mandatory_with_default(error) {
            1nat
        } else {
            0nat
        },
    decreases sorted.len(),
{
    if sorted.len() > 0 && crate::config::sort_key(sorted.last()) > crate::config::sort_key(error) {
        lemma_count_insert(sorted.drop_last(), error);
        lemma_count_push(insert_sorted(sorted.drop_last(), error), sorted.last());
    } else {
        lemma_count_push(sorted, error);
    }
}

/// Names that were declared more than once do not count.
proof fn lemma_count_duplicates(cache: Seq<(Seq<char>, Span, Seq<Span>)>)
    ensures
        count_mandatory_with_default(duplicates_of(cache)) == 0,
    decreases cache.len(),
{
    if cache.len() > 0 {
        lemma_count_duplicates(cache.drop_last());
        assert(duplicates_of(cache).drop_last() =~= duplicates_of(cache.drop_last()));
    }
}

/// A list of at most one finding counts that finding.
proof fn lemma_count_small(errors: Seq<ValidationErrorView>)
    requires
        errors.len() <= 1,
    ensures
        count_mandatory_with_default(errors) == if errors.len() == 1
            && is_mandatory_with_default(errors[0]) {
            1nat
        } else {
            0nat
        },
{
    if errors.len() == 1 {
        assert(errors.drop_last().len() == 0);
        assert(count_mandatory_with_default(errors.drop_last()) == 0);
        assert(errors.last() == errors[0]);
    }
}

/// What is wrong with one parameter counts once if the parameter is declared
/// mandatory and has a default value, and not at all otherwise.
pub proof fn lemma_count_param(
    p: RawParamView,
    default_optional: bool,
    default_argument: bool,
    default_env_var: bool,
)
    ensures
        count_mandatory_with_default(
            with_errors(validated_param(p, default_optional, default_argument, default_env_var)),
        ) == if mandatory_with_default(p) {
            1nat
        } else {
            0nat
        },
        mandatory_with_default(p) ==> validated_param(
            p,
            default_optional,
            default_argument,
            default_env_var,
        ) is Err,
{
    let optionality = optionality_of(p.optional, default_optional, p.default);
    let a = name_errors(ident_of(p.name));
    let b = field_errors(p.name, optionality);
    lemma_count_add(a, b);
    lemma_count_small(a);
    lemma_count_small(b);
    lemma_count_small(Seq::empty());
}

/// The findings in `outcome`, if it holds any.
pub open spec fn with_errors<T>(outcome: Result<T, Seq<ValidationErrorView>>) -> Seq<
    ValidationErrorView,
> {
    match outcome {
        Ok(_) => Seq::empty(),
        Err(found) => found,
    }
}

/// Declaring a long name does not change the count.
proof fn lemma_count_long(c: Checks, name: SpannedView<Seq<char>>)
    ensures
        count_mandatory_with_default(check_long(c, name).errors) == count_mandatory_with_default(
            c.errors,
        ),
{
    let error = check_insert(c.long, name.value, name.span).1;
    if error is Some {
        keys_of(c.long.map).index_of_first_ensures(name.value);
        lemma_count_push(c.errors, crate::config::rules::refused(name, error->0));
    }
}

/// Declaring a short option does not change the count.
proof fn lemma_count_short(
    c: Checks,
    abbr: Option<SpannedView<char>>,
    name: SpannedView<Seq<char>>,
)
    ensures
        count_mandatory_with_default(check_short(c, abbr, name).errors)
            == count_mandatory_with_default(c.errors),
{
    if abbr is Some {
        let error = check_insert(c.short, seq![abbr->0.value], abbr->0.span).1;
        if error is Some {
            keys_of(c.short.map).index_of_first_ensures(seq![abbr->0.value]);
            lemma_count_push(c.errors, crate::config::rules::refused(name, error->0));
        }
    }
}

/// The examination of the parameters raises the count by the number of
/// those that are declared mandatory and have a default value.
proof fn lemma_count_params(
    c: Checks,
    params: Seq<RawParamView>,
    default_optional: bool,
    default_argument: bool,
    default_env_var: bool,
)
    ensures
        count_mandatory_with_default(
            after_params(c, params, default_optional, default_argument, default_env_var).errors,
        ) == count_mandatory_with_default(c.errors) + count_declared_so(params),
    decreases params.len(),
{
    if params.len() > 0 {
        let front = params.drop_last();
        let p = params.last();
        lemma_count_params(c, front, default_optional, default_argument, default_env_var);
        let c1 = after_params(c, front, default_optional, default_argument, default_env_var);
        let c2 = check_long(c1, p.name);
        let c3 = check_short(c2, p.abbr, p.name);
        lemma_count_long(c1, p.name);
        lemma_count_short(c2, p.abbr, p.name);
        lemma_count_param(p, default_optional, default_argument, default_env_var);
        let outcome = validated_param(p, default_optional, default_argument, default_env_var);
        if outcome is Err {
            lemma_count_add(c3.errors, outcome->Err_0);
        }
    }
}

/// The examination of the switches does not change the count.
proof fn lemma_count_switches(c: Checks, switches: Seq<RawSwitchView>, default_env_var: bool)
    ensures
        count_mandatory_with_default(after_switches(c, switches, default_env_var).errors)
            == count_mandatory_with_default(c.errors),
    decreases switches.len(),
{
    if switches.len() > 0 {
        let front = switches.drop_last();
        let s = switches.last();
        lemma_count_switches(c, front, default_env_var);
        let c1 = after_switches(c, front, default_env_var);
        let c2 = check_long(c1, s.name);
        let c3 = check_short(c2, s.abbr, s.name);
        lemma_count_long(c1, s.name);
        lemma_count_short(c2, s.abbr, s.name);
        let outcome = validated_switch(s, default_env_var);
        if outcome is Err {
            let kind = switch_kind_of(s.abbr, s.default, s.count);
            let a = name_errors(ident_of(s.name));
            let b = field_errors(s.name, kind);
            lemma_count_add(a, b);
            lemma_count_small(a);
            lemma_count_small(b);
            lemma_count_add(c3.errors, outcome->Err_0);
        }
    }
}

/// The name of a general option does not count.
proof fn lemma_count_general(name: Option<SpannedView<Seq<char>>>)
    ensures
        count_mandatory_with_default(general_name_errors(name)) == 0,
{
    lemma_count_small(general_name_errors(name));
}

/// Each parameter that is declared mandatory and has a default value is
/// reported once as such, and nothing else is: the findings hold as many
/// reports of that kind as there are such parameters. Where there is such a
/// parameter the examination fails, and the same holds of the findings it
/// returns.
pub proof fn mandatory_with_default_is_reported_once(raw: RawConfigView)
    ensures
        count_mandatory_with_default(findings(raw)) == count_declared_so(raw.params),
        count_declared_so(raw.params) > 0 ==> validated(raw) is Err,
        validated(raw) matches Err(errors) ==> count_mandatory_with_default(errors)
            == count_declared_so(raw.params),
{
    let general = raw.general;
    let d_env = default_env_var(raw);
    let c0 = initial_checks();
    let c1 = check_opt_long(c0, general.conf_file_param);
    let c2 = check_opt_long(c1, general.conf_dir_param);
    let c3 = check_opt_long(c2, general.skip_default_conf_files_switch);
    let c4 = after_params(c3, raw.params, raw.defaults.optional, raw.defaults.args, d_env);
    let c5 = after_switches(c4, raw.switches, d_env);
    if general.conf_file_param is Some {
        lemma_count_long(c0, general.conf_file_param->0);
    }
    if general.conf_dir_param is Some {
        lemma_count_long(c1, general.conf_dir_param->0);
    }
    if general.skip_default_conf_files_switch is Some {
        lemma_count_long(c2, general.skip_default_conf_files_switch->0);
    }
    lemma_count_params(c3, raw.params, raw.defaults.optional, raw.defaults.args, d_env);
    lemma_count_switches(c4, raw.switches, d_env);
    let e1 = c5.errors;
    let e2 = e1 + duplicates_of(c5.long.dup_cache);
    let e3 = e2 + duplicates_of(c5.short.dup_cache);
    let e4 = e3 + general_name_errors(general.conf_file_param);
    let e5 = e4 + general_name_errors(general.conf_dir_param);
    let e6 = e5 + general_name_errors(general.skip_default_conf_files_switch);
    lemma_count_duplicates(c5.long.dup_cache);
    lemma_count_duplicates(c5.short.dup_cache);
    lemma_count_general(general.conf_file_param);
    lemma_count_general(general.conf_dir_param);
    lemma_count_general(general.skip_default_conf_files_switch);
    lemma_count_add(e1, duplicates_of(c5.long.dup_cache));
    lemma_count_add(e2, duplicates_of(c5.short.dup_cache));
    lemma_count_add(e3, general_name_errors(general.conf_file_param));
    lemma_count_add(e4, general_name_errors(general.conf_dir_param));
    lemma_count_add(e5, general_name_errors(general.skip_default_conf_files_switch));
    let e7 = e6 + program_name_errors(general.program_name);
    lemma_count_small(program_name_errors(general.program_name));
    lemma_count_add(e6, program_name_errors(general.program_name));
    assert(e7 == findings(raw));
    lemma_count_sorted(findings(raw));
}

/// The finding that the parameter `p` is declared mandatory and has a
/// default value: it names the parameter and its place, and shows the two
/// declarations.
pub open spec fn report_of(p: RawParamView) -> ValidationErrorView {
    crate::config::rules::refused(
        p.name,
        FieldError::MandatoryWithDefault {
            optional_span: p.optional->0.span,
            default_span: p.default->0.span,
        },
    )
}

/// Declaring a long name loses no finding.
proof fn lemma_long_keeps(c: Checks, name: SpannedView<Seq<char>>, e: ValidationErrorView)
    requires
        c.errors.contains(e),
    ensures
        check_long(c, name).errors.contains(e),
{
    let i = choose|i: int| 0 <= i < c.errors.len() && c.errors[i] == e;
    assert(check_long(c, name).errors[i] == e);
}

/// Declaring a short option loses no finding.
proof fn lemma_short_keeps(
    c: Checks,
    abbr: Option<SpannedView<char>>,
    name: SpannedView<Seq<char>>,
    e: ValidationErrorView,
)
    requires
        c.errors.contains(e),
    ensures
        check_short(c, abbr, name).errors.contains(e),
{
    let i = choose|i: int| 0 <= i < c.errors.len() && c.errors[i] == e;
    assert(check_short(c, abbr, name).errors[i] == e);
}

/// The examination of a parameter loses no finding.
proof fn lemma_param_keeps(
    c: Checks,
    p: RawParamView,
    default_optional: bool,
    default_argument: bool,
    default_env_var: bool,
    e: ValidationErrorView,
)
    requires
        c.errors.contains(e),
    ensures
        crate::config::rules::after_param(
            c,
            p,
            default_optional,
            default_argument,
            default_env_var,
        ).errors.contains(e),
{
    lemma_long_keeps(c, p.name, e);
    let c2 = check_long(c, p.name);
    lemma_short_keeps(c2, p.abbr, p.name, e);
    let c3 = check_short(c2, p.abbr, p.name);
    let i = choose|i: int| 0 <= i < c3.errors.len() && c3.errors[i] == e;
    let after = crate::config::rules::after_param(
        c,
        p,
        default_optional,
        default_argument,
        default_env_var,
    );
    assert(after.errors[i] == e);
}

/// The examination of a parameter that is declared mandatory and has a
/// default value finds that.
proof fn lemma_param_reports(
    c: Checks,
    p: RawParamView,
    default_optional: bool,
    default_argument: bool,
    default_env_var: bool,
)
    requires
        mandatory_with_default(p),
    ensures
        crate::config::rules::after_param(
            c,
            p,
            default_optional,
            default_argument,
            default_env_var,
        ).errors.contains(report_of(p)),
{
    let c3 = check_short(check_long(c, p.name), p.abbr, p.name);
    let optionality = optionality_of(p.optional, default_optional, p.default);
    let found = name_errors(ident_of(p.name)) + field_errors(p.name, optionality);
    let after = crate::config::rules::after_param(
        c,
        p,
        default_optional,
        default_argument,
        default_env_var,
    );
    assert(field_errors(p.name, optionality)[0] == report_of(p));
    assert(found[found.len() - 1] == report_of(p));
    assert(after.errors == c3.errors + found);
    assert(after.errors[after.errors.len() - 1] == report_of(p));
}

/// After the parameters were examined, each of them that is declared
/// mandatory and has a default value is found so.
proof fn lemma_params_report(
    c: Checks,
    params: Seq<RawParamView>,
    default_optional: bool,
    default_argument: bool,
    default_env_var: bool,
    i: int,
)
    requires
        0 <= i < params.len(),
        mandatory_with_default(params[i]),
    ensures
        after_params(c, params, default_optional, default_argument, default_env_var).errors.contains(
            report_of(params[i]),
        ),
    decreases params.len(),
{
    let front = params.drop_last();
    let before = after_params(c, front, default_optional, default_argument, default_env_var);
    if i == params.len() - 1 {
        lemma_param_reports(
            before,
            params.last(),
            default_optional,
            default_argument,
            default_env_var,
        );
    } else {
        assert(front[i] == params[i]);
        lemma_params_report(c, front, default_optional, default_argument, default_env_var, i);
        lemma_param_keeps(
            before,
            params.last(),
            default_optional,
            default_argument,
            default_env_var,
            report_of(params[i]),
        );
    }
}

/// The examination of the switches loses no finding.
proof fn lemma_switches_keep(
    c: Checks,
    switches: Seq<RawSwitchView>,
    default_env_var: bool,
    e: ValidationErrorView,
)
    requires
        c.errors.contains(e),
    ensures
        after_switches(c, switches, default_env_var).errors.contains(e),
    decreases switches.len(),
{
    if switches.len() > 0 {
        let before = after_switches(c, switches.drop_last(), default_env_var);
        lemma_switches_keep(c, switches.drop_last(), default_env_var, e);
        let s = switches.last();
        lemma_long_keeps(before, s.name, e);
        let c2 = check_long(before, s.name);
        lemma_short_keeps(c2, s.abbr, s.name, e);
        let c3 = check_short(c2, s.abbr, s.name);
        let i = choose|i: int| 0 <= i < c3.errors.len() && c3.errors[i] == e;
        assert(after_switches(c, switches, default_env_var).errors[i] == e);
    }
}

/// A parameter that is declared mandatory and has a default value is
/// reported: the examination fails, and among its findings is the one that
/// names this parameter and shows its two declarations. Together with
/// [`mandatory_with_default_is_reported_once`], which counts the findings of
/// this kind, each such parameter has its one finding.
pub proof fn mandatory_with_default_names_its_parameter(raw: RawConfigView, i: int)
    requires
        0 <= i < raw.params.len(),
        mandatory_with_default(raw.params[i]),
    ensures
        validated(raw) is Err,
        validated(raw)->Err_0.contains(report_of(raw.params[i])),
        findings(raw).contains(report_of(raw.params[i])),
{
    broadcast use vstd::seq_lib::group_to_multiset_ensures;

    let e = report_of(raw.params[i]);
    let d_env = default_env_var(raw);
    let c3 = crate::config::rules::after_general(raw.general);
    let c4 = after_params(c3, raw.params, raw.defaults.optional, raw.defaults.args, d_env);
    lemma_params_report(c3, raw.params, raw.defaults.optional, raw.defaults.args, d_env, i);
    lemma_switches_keep(c4, raw.switches, d_env, e);
    let c5 = after_fields(raw);
    let k = choose|k: int| 0 <= k < c5.errors.len() && c5.errors[k] == e;
    assert(findings(raw)[k] == e);
    lemma_sorted_by_key(findings(raw));
    assert(findings(raw).to_multiset().count(e) > 0);
    assert(sorted_by_key(findings(raw)).to_multiset().count(e) > 0);
}

} // verus!
