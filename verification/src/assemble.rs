//! Putting the configuration of a program together from what its sources
//! give: the default configuration files, the environment and the command
//! line, in this order of rising weight.

use vstd::prelude::*;
use crate::config::{
    kind_is_count, kind_is_inverted, Config, ConfigView, Optionality, OptionalityView, ProgramName,
};
use crate::env::{env_merged, merge_env};
use crate::error::{
    ArgParseError, ArgParseErrorView, EnvParseErrorView, Error, ErrorView, MissingField,
};
use crate::layer::{Combinators, empty_layer, has_combinator, merged, value_at, LayerView, RawLayer};
use crate::text::result_view;
use crate::value::{Value, ValueView};

verus! {

/// The value that a parameter has in the end.
#[derive(Debug, PartialEq, Eq)]
pub enum FinalParam {
    /// The value that a source gave.
    Given(Value),
    /// None: the parameter may be left out, and was.
    Absent,
    /// The default: the parameter was left out and has a default value,
    /// which is the value of this expression.
    Default(String),
}

/// What a [`FinalParam`] stands for in contracts.
pub enum FinalParamView {
    Given(ValueView),
    Absent,
    Default(Seq<char>),
}

impl DeepView for FinalParam {
    type V = FinalParamView;

    open spec fn deep_view(&self) -> FinalParamView {
        match self {
            FinalParam::Given(value) => FinalParamView::Given(value.deep_view()),
            FinalParam::Absent => FinalParamView::Absent,
            FinalParam::Default(expression) => FinalParamView::Default(expression@),
        }
    }
}

/// The configuration of a program: the value of each parameter and of each
/// switch, in the order of their declaration.
#[derive(Debug)]
pub struct FinalConfig {
    pub params: Vec<FinalParam>,
    pub switches: Vec<Value>,
}

/// What a [`FinalConfig`] stands for in contracts.
pub struct FinalConfigView {
    pub params: Seq<FinalParamView>,
    pub switches: Seq<ValueView>,
}

impl DeepView for FinalConfig {
    type V = FinalConfigView;

    open spec fn deep_view(&self) -> FinalConfigView {
        FinalConfigView { params: self.params.deep_view(), switches: self.switches.deep_view() }
    }
}

/// What is known of the run of the program beside its configuration.
#[derive(Debug)]
pub struct Metadata {
    /// The name under which the program was started, where the program
    /// wants it.
    pub program_name: Option<String>,
}

impl DeepView for Metadata {
    type V = Option<Seq<char>>;

    open spec fn deep_view(&self) -> Option<Seq<char>> {
        self.program_name.deep_view()
    }
}

/// The value that the parameter at the place `i` has in the end: what the
/// layer gives; where it gives nothing, nothing for a parameter that may be
/// left out, the default for one that has one, and an error for one that has
/// to be given.
pub open spec fn final_param(spec: ConfigView, layer: LayerView, i: int) -> Result<
    FinalParamView,
    Seq<char>,
> {
    match value_at(layer.params, i) {
        Some(value) => Ok(FinalParamView::Given(value)),
        None => match spec.params[i].optionality {
            OptionalityView::Mandatory => Err(spec.params[i].name),
            OptionalityView::Optional => Ok(FinalParamView::Absent),
            OptionalityView::DefaultValue(expression) => Ok(FinalParamView::Default(expression)),
        },
    }
}

/// The values that the first `n` parameters have in the end, or the name of
/// the first of them that has to be given and was not.
pub open spec fn final_params(spec: ConfigView, layer: LayerView, n: nat) -> Result<
    Seq<FinalParamView>,
    Seq<char>,
>
    decreases n,
{
    if n == 0 {
        Ok(Seq::empty())
    } else {
        match final_params(spec, layer, (n - 1) as nat) {
            Ok(front) => match final_param(spec, layer, n - 1) {
                Ok(value) => Ok(front.push(value)),
                Err(name) => Err(name),
            },
            Err(name) => Err(name),
        }
    }
}

/// The value that the switch at the place `j` has in the end: what the
/// layer gives; where it gives nothing, yes for a switch that is on by
/// default, zero for one that counts, and no for any other.
pub open spec fn final_switch(spec: ConfigView, layer: LayerView, j: int) -> ValueView {
    match value_at(layer.switches, j) {
        Some(value) => value,
        None => if kind_is_inverted(spec.switches[j].kind) {
            ValueView::Boolean(true)
        } else if kind_is_count(spec.switches[j].kind) {
            ValueView::Integer(0)
        } else {
            ValueView::Boolean(false)
        },
    }
}

/// The configuration that the layer comes to, or the name of the first
/// parameter that has to be given and was not.
pub open spec fn finalized(spec: ConfigView, layer: LayerView) -> Result<
    FinalConfigView,
    Seq<char>,
> {
    match final_params(spec, layer, spec.params.len()) {
        Ok(params) => Ok(
            FinalConfigView {
                params,
                switches: Seq::new(spec.switches.len(), |j: int| final_switch(spec, layer, j)),
            },
        ),
        Err(name) => Err(name),
    }
}

/// Once a parameter is missing, it stays the outcome however many more
/// parameters are looked at.
proof fn lemma_final_params_fails(spec: ConfigView, layer: LayerView, n: nat, m: nat)
    requires
        n <= m,
        final_params(spec, layer, n) is Err,
    ensures
        final_params(spec, layer, m) == final_params(spec, layer, n),
    decreases m,
{
    if n < m {
        lemma_final_params_fails(spec, layer, n, (m - 1) as nat);
    }
}

/// Turns what the sources gave into the configuration of the program.
pub fn finalize(spec: &Config, layer: RawLayer) -> (r: Result<FinalConfig, MissingField>)
    ensures
        result_view(r) == finalized(spec.deep_view(), layer.deep_view()),
{
    let mut params: Vec<FinalParam> = Vec::new();
    let mut i: usize = 0;
    proof {
        crate::views::lemma_deep_view_empty(params);
    }
    while i < spec.params.len()
        invariant
            i <= spec.params.len(),
            final_params(spec.deep_view(), layer.deep_view(), i as nat) == Ok::<
                Seq<FinalParamView>,
                Seq<char>,
            >(params.deep_view()),
        decreases spec.params.len() - i,
    {
        let param = &spec.params[i];
        assert(spec.deep_view().params[i as int] == param.deep_view());
        let ghost before = params;
        let value = match layer.param(i) {
            Some(value) => FinalParam::Given(value.duplicate()),
            None => match &param.optionality {
                Optionality::Mandatory => {
                    proof {
                        assert(final_params(spec.deep_view(), layer.deep_view(), (i + 1) as nat)
                            is Err);
                        lemma_final_params_fails(
                            spec.deep_view(),
                            layer.deep_view(),
                            (i + 1) as nat,
                            spec.params.len() as nat,
                        );
                    }
                    return Err(
                        MissingField { name: crate::text::copy_str(param.name.as_snake_case()) },
                    );
                },
                Optionality::Optional => FinalParam::Absent,
                Optionality::DefaultValue(expression) => FinalParam::Default(expression.clone()),
            },
        };
        params.push(value);
        proof {
            crate::views::lemma_deep_view_push(before, params, value);
        }
        i = i + 1;
    }
    let mut switches: Vec<Value> = Vec::new();
    let mut j: usize = 0;
    while j < spec.switches.len()
        invariant
            j <= spec.switches.len(),
            switches.len() == j,
            forall|k: int|
                0 <= k < j ==> (#[trigger] switches[k]).deep_view() == final_switch(
                    spec.deep_view(),
                    layer.deep_view(),
                    k,
                ),
        decreases spec.switches.len() - j,
    {
        let switch = &spec.switches[j];
        assert(spec.deep_view().switches[j as int] == switch.deep_view());
        let value = match layer.switch(j) {
            Some(value) => value.duplicate(),
            None => {
                if switch.is_inverted() {
                    Value::Boolean(true)
                } else if switch.is_count() {
                    Value::Integer(0)
                } else {
                    Value::Boolean(false)
                }
            },
        };
        switches.push(value);
        j = j + 1;
    }
    proof {
        assert(switches.deep_view() =~= Seq::new(
            spec.deep_view().switches.len(),
            |j: int| final_switch(spec.deep_view(), layer.deep_view(), j),
        ));
    }
    Ok(FinalConfig { params, switches })
}

/// What the default configuration files `files` come to, taken in the order
/// in which they are listed: each file is laid under what the files before
/// it came to, so that a file listed earlier outweighs one listed later.
pub open spec fn folded<C: Combinators>(
    cs: &C,
    spec: ConfigView,
    files: Seq<LayerView>,
) -> LayerView
    decreases files.len(),
{
    if files.len() == 0 {
        empty_layer(spec.params.len(), spec.switches.len())
    } else {
        merged(cs, spec, files.last(), folded(cs, spec, files.drop_last()))
    }
}

/// Computes [`folded`].
pub fn fold_files<C: Combinators>(cs: &C, spec: &Config, files: Vec<RawLayer>) -> (layer: RawLayer)
    ensures
        layer.deep_view() == folded(cs, spec.deep_view(), files.deep_view()),
{
    let mut config = RawLayer::empty(spec);
    let ghost all = files.deep_view();
    let ghost items = files@;
    proof {
        assert(all.take(0) =~= Seq::empty());
    }
    for file in it: files
        invariant
            it.seq() == items,
            all.len() == items.len(),
            forall|k: int| 0 <= k < all.len() ==> (#[trigger] items[k]).deep_view() == all[k],
            config.deep_view() == folded(cs, spec.deep_view(), all.take(it.index())),
    {
        proof {
            assert(all.take(it.index() + 1).drop_last() =~= all.take(it.index()));
        }
        let mut new_config = file;
        new_config.merge_in(cs, spec, config);
        config = new_config;
    }
    proof {
        assert(all.take(all.len() as int) =~= all);
    }
    config
}

/// The value of the parameter at the place `i` in the first of `files` that
/// gives one.
pub open spec fn first_given(files: Seq<LayerView>, i: int) -> Option<ValueView>
    decreases files.len(),
{
    if files.len() == 0 {
        None
    } else {
        match first_given(files.drop_last(), i) {
            Some(value) => Some(value),
            None => files.last().params[i],
        }
    }
}

/// Of the default configuration files, the one that is listed first
/// outweighs the others: a parameter without a combinator has the value that
/// the first file that gives one gives for it.
pub proof fn earlier_file_wins<C: Combinators>(
    cs: &C,
    spec: ConfigView,
    files: Seq<LayerView>,
    i: int,
)
    requires
        0 <= i < spec.params.len(),
        !has_combinator(spec, i),
        forall|k: int| 0 <= k < files.len() ==> i < (#[trigger] files[k]).params.len(),
    ensures
        value_at(folded(cs, spec, files).params, i) == first_given(files, i),
    decreases files.len(),
{
    if files.len() > 0 {
        let front = files.drop_last();
        assert forall|k: int| 0 <= k < front.len() implies i < (#[trigger] front[k]).params.len() by {
            assert(front[k] == files[k]);
        }
        earlier_file_wins(cs, spec, front, i);
    }
}

/// What the reading of the command line gave.
#[derive(Debug)]
pub struct Scanned {
    /// The name under which the program was started.
    pub program_name: Option<String>,
    /// What the options give for the fields.
    pub layer: RawLayer,
    /// The arguments behind the options.
    pub remaining: Vec<String>,
    /// Whether the default configuration files are to be passed over.
    pub skip_default_conf_files: bool,
}

/// What a [`Scanned`] stands for in contracts.
pub struct ScannedView {
    pub program_name: Option<Seq<char>>,
    pub layer: LayerView,
    pub remaining: Seq<Seq<char>>,
    pub skip_default_conf_files: bool,
}

impl DeepView for Scanned {
    type V = ScannedView;

    open spec fn deep_view(&self) -> ScannedView {
        ScannedView {
            program_name: self.program_name.deep_view(),
            layer: self.layer.deep_view(),
            remaining: self.remaining.deep_view(),
            skip_default_conf_files: self.skip_default_conf_files,
        }
    }
}

/// What is kept of the name under which the program was started: nothing
/// where the program has no use for it, the name where there is one; a
/// program that cannot do without fails where there is none.
pub open spec fn metadata_of(policy: ProgramName, name: Option<Seq<char>>) -> Result<
    Option<Seq<char>>,
    ErrorView,
> {
    match policy {
        ProgramName::Unused => Ok(None),
        ProgramName::Optional => Ok(name),
        ProgramName::Required => match name {
            Some(name) => Ok(Some(name)),
            None => Err(ErrorView::Arguments(ArgParseErrorView::MissingProgramName)),
        },
    }
}

/// Computes [`metadata_of`].
pub fn resolve_program_name(spec: &Config, name: Option<String>) -> (r: Result<Metadata, Error>)
    ensures
        result_view(r) == metadata_of(spec.deep_view().general.program_name, name.deep_view()),
{
    match spec.general.program_name {
        ProgramName::Unused => Ok(Metadata { program_name: None }),
        ProgramName::Optional => Ok(Metadata { program_name: name }),
        ProgramName::Required => match name {
            Some(name) => Ok(Metadata { program_name: Some(name) }),
            None => Err(Error::Arguments(ArgParseError::MissingProgramName)),
        },
    }
}

/// The layer that the sources come to: the default configuration files,
/// unless they are passed over; the environment laid over them; what the
/// command line gave merged into that.
pub open spec fn layered<C: Combinators>(
    cs: &C,
    spec: ConfigView,
    scanned: ScannedView,
    files: Seq<LayerView>,
    env: Seq<(Seq<char>, Seq<char>)>,
) -> Result<LayerView, EnvParseErrorView> {
    let base = if scanned.skip_default_conf_files {
        empty_layer(spec.params.len(), spec.switches.len())
    } else {
        folded(cs, spec, files)
    };
    match env_merged(cs, spec, base, env) {
        Ok(layer) => Ok(merged(cs, spec, layer, scanned.layer)),
        Err(error) => Err(error),
    }
}

/// The outcome of putting the configuration together, with the arguments
/// behind the options and what is kept of the program's name. A command line
/// that could not be read, or that asks for help, is the outcome at once;
/// then a missing name of the program; then an error in the environment;
/// then a parameter that has to be given and was not.
pub open spec fn assembled<C: Combinators>(
    cs: &C,
    spec: ConfigView,
    scanned: Result<ScannedView, ArgParseErrorView>,
    files: Seq<LayerView>,
    env: Seq<(Seq<char>, Seq<char>)>,
) -> Result<(FinalConfigView, Seq<Seq<char>>, Option<Seq<char>>), ErrorView> {
    match scanned {
        Err(error) => Err(ErrorView::Arguments(error)),
        Ok(scanned) => match metadata_of(spec.general.program_name, scanned.program_name) {
            Err(error) => Err(error),
            Ok(metadata) => match layered(cs, spec, scanned, files, env) {
                Err(error) => Err(ErrorView::Environment(error)),
                Ok(layer) => match finalized(spec, layer) {
                    Err(name) => Err(ErrorView::Validation(name)),
                    Ok(config) => Ok((config, scanned.remaining, metadata)),
                },
            },
        },
    }
}

/// What [`Assembled`] stands for in contracts.
pub open spec fn assembled_view(r: Result<Assembled, Error>) -> Result<
    (FinalConfigView, Seq<Seq<char>>, Option<Seq<char>>),
    ErrorView,
> {
    match r {
        Ok(assembled) => Ok(
            (
                assembled.config.deep_view(),
                assembled.remaining.deep_view(),
                assembled.metadata.deep_view(),
            ),
        ),
        Err(error) => Err(error.deep_view()),
    }
}

/// The configuration of a program, the arguments behind its options, and
/// what is known of its run.
#[derive(Debug)]
pub struct Assembled {
    pub config: FinalConfig,
    pub remaining: Vec<String>,
    pub metadata: Metadata,
}

/// Puts the configuration together from what the command line gave, the
/// default configuration files in the order in which they are listed, and
/// the environment.
pub fn assemble<C: Combinators>(
    cs: &C,
    spec: &Config,
    scanned: Result<Scanned, ArgParseError>,
    files: Vec<RawLayer>,
    env: &Vec<(String, String)>,
) -> (r: Result<Assembled, Error>)
    ensures
        assembled_view(r) == assembled(
            cs,
            spec.deep_view(),
            result_view(scanned),
            files.deep_view(),
            env.deep_view(),
        ),
{
    let scanned = match scanned {
        Ok(scanned) => scanned,
        Err(error) => {
            return Err(Error::Arguments(error));
        },
    };
    let Scanned { program_name, layer: args, remaining, skip_default_conf_files } = scanned;
    let metadata = match resolve_program_name(spec, program_name) {
        Ok(metadata) => metadata,
        Err(error) => {
            return Err(error);
        },
    };
    let base = if skip_default_conf_files {
        RawLayer::empty(spec)
    } else {
        fold_files(cs, spec, files)
    };
    let mut config = match merge_env(cs, base, spec, env) {
        Ok(config) => config,
        Err(error) => {
            return Err(Error::Environment(error));
        },
    };
    config.merge_in(cs, spec, args);
    match finalize(spec, config) {
        Ok(config) => Ok(Assembled { config, remaining, metadata }),
        Err(missing) => Err(Error::Validation(missing)),
    }
}

/// A command line that asks for help is answered at once: whatever the
/// files and the environment hold, and whether or not a parameter that has
/// to be given or the name of the program is missing, the outcome is the
/// answer.
pub proof fn help_short_circuits<C: Combinators>(
    cs: &C,
    spec: ConfigView,
    answer: Seq<char>,
    files: Seq<LayerView>,
    env: Seq<(Seq<char>, Seq<char>)>,
)
    ensures
        assembled(cs, spec, Err(ArgParseErrorView::HelpRequested(answer)), files, env) == Err::<
            (FinalConfigView, Seq<Seq<char>>, Option<Seq<char>>),
            ErrorView,
        >(ErrorView::Arguments(ArgParseErrorView::HelpRequested(answer))),
{
}

} // verus!
