//! What the environment gives for the fields of a specification.

use vstd::prelude::*;
use crate::config::{kind_is_count, Config, ConfigView};
use crate::error::{EnvParseError, EnvParseErrorView};
use crate::ident::{upper_case, Ident};
use crate::layer::{Combinators, param_kind, with_param, with_switch, LayerView, RawLayer};
use crate::text::{result_view, same_text};
use crate::value::{
    integer_of_text, parse_integer, parse_value, value_kind, value_of_text, IntegerType, Value,
    ValueView,
};

verus! {

/// The upper-case form of a character, which can be more than one
/// character.
pub uninterp spec fn uppercase_of(c: char) -> Seq<char>;

/// `char::to_uppercase` gives the upper-case form of a character, as the
/// Unicode standard defines it. Nothing is stated of the form but that it
/// depends on the character alone.
#[verifier::external_body]
fn to_uppercase(c: char) -> (upper: String)
    ensures
        upper@ == uppercase_of(c),
{
    c.to_uppercase().collect()
}

/// `text` with each character in its upper-case form.
pub open spec fn uppercased(text: Seq<char>) -> Seq<char>
    decreases text.len(),
{
    if text.len() == 0 {
        Seq::empty()
    } else {
        uppercased(text.drop_last()) + uppercase_of(text.last())
    }
}

/// Computes [`uppercased`].
pub fn upper_case_of(text: &str) -> (upper: String)
    ensures
        upper@ == uppercased(text@),
{
    let mut out = String::new();
    for c in it: text.chars()
        invariant
            it.seq() == text@,
            out@ == uppercased(text@.take(it.index())),
    {
        proof {
            assert(text@.take(it.index() + 1).drop_last() =~= text@.take(it.index()));
        }
        out.append(to_uppercase(c).as_str());
    }
    proof {
        assert(text@.take(text@.len() as int) =~= text@);
    }
    out
}

/// The name of the environment variable of the field `name`: the name in
/// capitals, behind the prefix in capitals and an underscore where the
/// specification sets a prefix.
pub open spec fn variable_name(prefix: Option<Seq<char>>, name: Seq<char>) -> Seq<char> {
    match prefix {
        Some(prefix) => uppercased(prefix) + "_"@ + upper_case(name),
        None => upper_case(name),
    }
}

/// Computes [`variable_name`].
pub fn variable_name_of(prefix: &Option<String>, name: &Ident) -> (variable: String)
    ensures
        variable@ == variable_name(prefix.deep_view(), name.deep_view()),
{
    match prefix {
        Some(prefix) => {
            let mut out = upper_case_of(prefix.as_str());
            out.append("_");
            out.append(name.as_upper_case().as_str());
            out
        },
        None => name.as_upper_case(),
    }
}

/// The value of the variable `name` in the environment `env`: that of the
/// first entry of that name.
pub open spec fn lookup(env: Seq<(Seq<char>, Seq<char>)>, name: Seq<char>) -> Option<Seq<char>>
    decreases env.len(),
{
    if env.len() == 0 {
        None
    } else if env[0].0 == name {
        Some(env[0].1)
    } else {
        lookup(env.drop_first(), name)
    }
}

/// Computes [`lookup`].
pub fn look_up(env: &Vec<(String, String)>, name: &str) -> (value: Option<String>)
    ensures
        value.deep_view() == lookup(env.deep_view(), name@),
{
    let ghost all = env.deep_view();
    let mut i: usize = 0;
    proof {
        assert(all.skip(0) =~= all);
    }
    while i < env.len()
        invariant
            i <= env.len(),
            all == env.deep_view(),
            lookup(all, name@) == lookup(all.skip(i as int), name@),
        decreases env.len() - i,
    {
        proof {
            assert(all.skip(i as int).drop_first() =~= all.skip(i + 1));
            assert(all.skip(i as int)[0] == env[i as int].deep_view());
        }
        if same_text(env[i].0.as_str(), name) {
            return Some(env[i].1.clone());
        }
        i = i + 1;
    }
    None
}

/// The value of a switch that the text `text` of its variable stands for:
/// `1` and `true` for yes, `0` and `false` for no.
pub open spec fn switch_of_text(text: Seq<char>) -> Option<bool> {
    if text == "1"@ || text == "true"@ {
        Some(true)
    } else if text == "0"@ || text == "false"@ {
        Some(false)
    } else {
        None
    }
}

/// `layer` after the variable of the parameter at the place `i` was taken
/// in, if the parameter can be given in the environment and the variable is
/// set. A variable that holds no value of the parameter's kind is an error.
pub open spec fn env_param<C: Combinators>(
    cs: &C,
    spec: ConfigView,
    layer: LayerView,
    env: Seq<(Seq<char>, Seq<char>)>,
    i: int,
) -> Result<LayerView, EnvParseErrorView> {
    let variable = variable_name(spec.general.env_prefix, spec.params[i].name);
    if !spec.params[i].env_var {
        Ok(layer)
    } else {
        match lookup(env, variable) {
            None => Ok(layer),
            Some(text) => match value_of_text(param_kind(spec, i), text) {
                Ok(value) => Ok(with_param(cs, spec, layer, i, value)),
                Err(error) => Err(
                    EnvParseErrorView::Field { variable, error, kind: param_kind(spec, i) },
                ),
            },
        }
    }
}

/// `layer` after the variables of the first `n` parameters were taken in,
/// in their order, up to the first error.
pub open spec fn env_params<C: Combinators>(
    cs: &C,
    spec: ConfigView,
    layer: LayerView,
    env: Seq<(Seq<char>, Seq<char>)>,
    n: nat,
) -> Result<LayerView, EnvParseErrorView>
    decreases n,
{
    if n == 0 {
        Ok(layer)
    } else {
        match env_params(cs, spec, layer, env, (n - 1) as nat) {
            Ok(layer) => env_param(cs, spec, layer, env, n - 1),
            Err(error) => Err(error),
        }
    }
}

/// `layer` after the variable of the switch at the place `j` was taken in,
/// if the switch can be given in the environment and the variable is set.
/// The variable of a switch that counts holds the count; that of any other
/// switch holds yes or no.
pub open spec fn env_switch(
    spec: ConfigView,
    layer: LayerView,
    env: Seq<(Seq<char>, Seq<char>)>,
    j: int,
) -> Result<LayerView, EnvParseErrorView> {
    let variable = variable_name(spec.general.env_prefix, spec.switches[j].name);
    if !spec.switches[j].env_var {
        Ok(layer)
    } else {
        match lookup(env, variable) {
            None => Ok(layer),
            Some(text) => if kind_is_count(spec.switches[j].kind) {
                match integer_of_text(IntegerType::U32, text) {
                    Ok(n) => Ok(with_switch(layer, j, ValueView::Integer(n))),
                    Err(error) => Err(EnvParseErrorView::Count { variable, error }),
                }
            } else {
                match switch_of_text(text) {
                    Some(value) => Ok(with_switch(layer, j, ValueView::Boolean(value))),
                    None => Err(EnvParseErrorView::Switch { variable, value: text }),
                }
            },
        }
    }
}

/// `layer` after the variables of the first `n` switches were taken in, in
/// their order, up to the first error.
pub open spec fn env_switches(
    spec: ConfigView,
    layer: LayerView,
    env: Seq<(Seq<char>, Seq<char>)>,
    n: nat,
) -> Result<LayerView, EnvParseErrorView>
    decreases n,
{
    if n == 0 {
        Ok(layer)
    } else {
        match env_switches(spec, layer, env, (n - 1) as nat) {
            Ok(layer) => env_switch(spec, layer, env, n - 1),
            Err(error) => Err(error),
        }
    }
}

/// `layer` after the environment `env` was laid over it: first the
/// variables of the parameters, then those of the switches. What a variable
/// gives for a parameter is merged in as a layer that gives only that value
/// would be; what it gives for a switch takes the place of what was there.
/// The first variable that cannot be read ends the reading.
pub open spec fn env_merged<C: Combinators>(
    cs: &C,
    spec: ConfigView,
    layer: LayerView,
    env: Seq<(Seq<char>, Seq<char>)>,
)
    -> Result<LayerView, EnvParseErrorView> {
    match env_params(cs, spec, layer, env, spec.params.len()) {
        Ok(layer) => env_switches(spec, layer, env, spec.switches.len()),
        Err(error) => Err(error),
    }
}

/// Lays the environment `env` over `layer`.
pub fn merge_env<C: Combinators>(
    cs: &C,
    layer: RawLayer,
    spec: &Config,
    env: &Vec<(String, String)>,
) -> (r: Result<RawLayer, EnvParseError>)
    ensures
        result_view(r) == env_merged(cs, spec.deep_view(), layer.deep_view(), env.deep_view()),
{
    let ghost start = layer.deep_view();
    let mut current = layer;
    let mut i: usize = 0;
    while i < spec.params.len()
        invariant
            i <= spec.params.len(),
            start == layer.deep_view(),
            env_params(cs, spec.deep_view(), start, env.deep_view(), i as nat) == Ok::<
                LayerView,
                EnvParseErrorView,
            >(current.deep_view()),
        decreases spec.params.len() - i,
    {
        let param = &spec.params[i];
        assert(spec.deep_view().params[i as int] == param.deep_view());
        if param.env_var {
            let variable = variable_name_of(&spec.general.env_prefix, &param.name);
            match look_up(env, variable.as_str()) {
                Some(text) => {
                    let kind = value_kind(param.ty.as_str());
                    match parse_value(kind, text) {
                        Ok(value) => {
                            current.set_param(cs, spec, i, value);
                        },
                        Err(error) => {
                            proof {
                                assert(env_params(
                                    cs,
                                    spec.deep_view(),
                                    start,
                                    env.deep_view(),
                                    (i + 1) as nat,
                                ) == env_param(
                                    cs,
                                    spec.deep_view(),
                                    current.deep_view(),
                                    env.deep_view(),
                                    i as int,
                                ));
                                lemma_env_params_fails(
                                    cs,
                                    spec.deep_view(),
                                    start,
                                    env.deep_view(),
                                    (i + 1) as nat,
                                    spec.params.len() as nat,
                                );
                            }
                            return Err(EnvParseError::Field { variable, error, kind });
                        },
                    }
                },
                None => {},
            }
        }
        i = i + 1;
    }
    let ghost middle = current.deep_view();
    let mut j: usize = 0;
    while j < spec.switches.len()
        invariant
            j <= spec.switches.len(),
            start == layer.deep_view(),
            env_params(cs, spec.deep_view(), start, env.deep_view(), spec.params.len() as nat) == Ok::<
                LayerView,
                EnvParseErrorView,
            >(middle),
            env_switches(spec.deep_view(), middle, env.deep_view(), j as nat) == Ok::<
                LayerView,
                EnvParseErrorView,
            >(current.deep_view()),
        decreases spec.switches.len() - j,
    {
        let switch = &spec.switches[j];
        assert(spec.deep_view().switches[j as int] == switch.deep_view());
        if switch.env_var {
            let variable = variable_name_of(&spec.general.env_prefix, &switch.name);
            match look_up(env, variable.as_str()) {
                Some(text) => {
                    if switch.is_count() {
                        match parse_integer(text.as_str(), IntegerType::U32) {
                            Ok(n) => {
                                current.set_switch(j, Value::Integer(n));
                            },
                            Err(error) => {
                                proof {
                                    assert(env_switches(
                                        spec.deep_view(),
                                        middle,
                                        env.deep_view(),
                                        (j + 1) as nat,
                                    ) == env_switch(
                                        spec.deep_view(),
                                        current.deep_view(),
                                        env.deep_view(),
                                        j as int,
                                    ));
                                    lemma_env_switches_fails(
                                        spec.deep_view(),
                                        middle,
                                        env.deep_view(),
                                        (j + 1) as nat,
                                        spec.switches.len() as nat,
                                    );
                                }
                                return Err(EnvParseError::Count { variable, error });
                            },
                        }
                    } else if same_text(text.as_str(), "1") || same_text(text.as_str(), "true") {
                        current.set_switch(j, Value::Boolean(true));
                    } else if same_text(text.as_str(), "0") || same_text(text.as_str(), "false") {
                        current.set_switch(j, Value::Boolean(false));
                    } else {
                        proof {
                            assert(env_switches(
                                spec.deep_view(),
                                middle,
                                env.deep_view(),
                                (j + 1) as nat,
                            ) == env_switch(
                                spec.deep_view(),
                                current.deep_view(),
                                env.deep_view(),
                                j as int,
                            ));
                            lemma_env_switches_fails(
                                spec.deep_view(),
                                middle,
                                env.deep_view(),
                                (j + 1) as nat,
                                spec.switches.len() as nat,
                            );
                        }
                        return Err(EnvParseError::Switch { variable, value: text });
                    }
                },
                None => {},
            }
        }
        j = j + 1;
    }
    Ok(current)
}

/// An error in the variables of the first `n` parameters is the outcome for
/// any larger number of parameters.
proof fn lemma_env_params_fails<C: Combinators>(
    cs: &C,
    spec: ConfigView,
    layer: LayerView,
    env: Seq<(Seq<char>, Seq<char>)>,
    n: nat,
    m: nat,
)
    requires
        n <= m,
        env_params(cs, spec, layer, env, n) is Err,
    ensures
        env_params(cs, spec, layer, env, m) == env_params(cs, spec, layer, env, n),
    decreases m,
{
    if n < m {
        lemma_env_params_fails(cs, spec, layer, env, n, (m - 1) as nat);
    }
}

/// An error in the variables of the first `n` switches is the outcome for
/// any larger number of switches.
proof fn lemma_env_switches_fails(
    spec: ConfigView,
    layer: LayerView,
    env: Seq<(Seq<char>, Seq<char>)>,
    n: nat,
    m: nat,
)
    requires
        n <= m,
        env_switches(spec, layer, env, n) is Err,
    ensures
        env_switches(spec, layer, env, m) == env_switches(spec, layer, env, n),
    decreases m,
{
    if n < m {
        lemma_env_switches_fails(spec, layer, env, n, (m - 1) as nat);
    }
}

} // verus!
