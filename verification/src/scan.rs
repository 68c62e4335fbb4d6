//! Reading the command line: which tokens are options of the program, what
//! they give for its fields, and where the arguments begin that the program
//! reads itself.

use vstd::prelude::*;
use vstd::utf8::encode_utf8;
use crate::args::{
    is_short_group, iter_short, match_arg, matched, next_short, remaining_value, short_rest,
    short_value, ShortValueError};
use crate::config::{
    kind_abbr, kind_is_count, kind_is_inverted, Config, ConfigView, ParamView, SwitchView};
use crate::assemble::{Scanned, ScannedView};
use crate::error::{ArgParseError, ArgParseErrorView};
use crate::ident::{hyphenated, Ident};
use crate::layer::{Combinators, 
    empty_layer, merged, param_kind, with_param, with_switch,
    with_switch_counted, LayerView, RawLayer};
use crate::text::same_text;
use crate::usage::{usage, usage_text};
use crate::value::{
    invalid_utf8_words, parse_value, value_kind, value_of_text, Value, ValueView,
};

verus! {

/// How far the command line has been read, and what it gave so far.
pub struct ScanView {
    /// The place of the next token to read.
    pub pos: nat,
    /// What the options read so far give for the fields.
    pub layer: LayerView,
    /// Whether the switch that keeps the default configuration files from
    /// being read was given.
    pub skip_default_conf_files: bool,
}

/// Why the reading of the command line stops.
pub enum StepView {
    /// The options are read; `remaining` are the arguments that follow
    /// them.
    Finished { remaining: Seq<Seq<char>> },
    /// An option names a configuration file that is to be loaded and merged
    /// in before the reading goes on.
    LoadFile(Seq<char>),
    /// An option names a directory whose files are to be loaded and merged
    /// in, in the order in which the directory lists them, before the reading
    /// goes on.
    LoadDir(Seq<char>),
    /// The command line cannot be read, or asks for help.
    Failed(ArgParseErrorView),
}

/// The long option of the field `name`.
pub open spec fn long_option(name: Seq<char>) -> Seq<char> {
    "--"@ + hyphenated(name)
}

/// The long option by which the switch `s` is given.
pub open spec fn switch_option(s: SwitchView) -> Seq<char> {
    if kind_is_inverted(s.kind) {
        "--no-"@ + hyphenated(s.name)
    } else {
        "--"@ + hyphenated(s.name)
    }
}

/// The short option `c` as it is written.
pub open spec fn short_option(c: char) -> Seq<char> {
    "-"@.push(c)
}

/// The token behind the one at the place `pos`, if there is one.
pub open spec fn next_token(tokens: Seq<Seq<char>>, pos: nat) -> Option<Seq<char>> {
    if pos + 1 < tokens.len() {
        Some(tokens[pos as int + 1])
    } else {
        None
    }
}

/// How many tokens an option with a value takes: one if the value stands in
/// the token of the option, two if it is the next token.
pub open spec fn tokens_taken(option: Seq<char>, arg: Seq<char>) -> nat {
    if arg == option {
        2
    } else {
        1
    }
}

/// What the token `arg` says of the optional general option `name`.
pub open spec fn matched_general(
    name: Option<Seq<char>>,
    arg: Seq<char>,
    next: Option<Seq<char>>,
) -> Option<Option<Seq<char>>> {
    match name {
        Some(name) => matched(long_option(name), arg, next),
        None => None,
    }
}

/// The first parameter from the place `from` on that can be given on the
/// command line and whose long option `arg` is.
pub open spec fn find_param(
    params: Seq<ParamView>,
    arg: Seq<char>,
    next: Option<Seq<char>>,
    from: int,
) -> Option<int>
    decreases params.len() - from,
{
    if from < 0 || from >= params.len() {
        None
    } else if params[from].argument && matched(long_option(params[from].name), arg, next)
        is Some {
        Some(from)
    } else {
        find_param(params, arg, next, from + 1)
    }
}

/// The first switch from the place `from` on that is given by `arg`.
pub open spec fn find_switch(switches: Seq<SwitchView>, arg: Seq<char>, from: int) -> Option<int>
    decreases switches.len() - from,
{
    if from < 0 || from >= switches.len() {
        None
    } else if arg == switch_option(switches[from]) {
        Some(from)
    } else {
        find_switch(switches, arg, from + 1)
    }
}

/// The first parameter from the place `from` on that can be given on the
/// command line and has the short option `c`.
pub open spec fn find_short_param(params: Seq<ParamView>, c: char, from: int) -> Option<int>
    decreases params.len() - from,
{
    if from < 0 || from >= params.len() {
        None
    } else if params[from].argument && params[from].abbr == Some(c) {
        Some(from)
    } else {
        find_short_param(params, c, from + 1)
    }
}

/// The first switch from the place `from` on that has the short option `c`.
pub open spec fn find_short_switch(switches: Seq<SwitchView>, c: char, from: int) -> Option<int>
    decreases switches.len() - from,
{
    if from < 0 || from >= switches.len() {
        None
    } else if kind_abbr(switches[from].kind) == Some(c) {
        Some(from)
    } else {
        find_short_switch(switches, c, from + 1)
    }
}

/// The error that the value given for the parameter at the place `i` is
/// none of its kind.
pub open spec fn field_error(spec: ConfigView, i: int, error: Seq<char>) -> ArgParseErrorView {
    ArgParseErrorView::Field {
        option: long_option(spec.params[i].name),
        error,
        kind: param_kind(spec, i),
    }
}

/// `layer` after the switch at the place `j` was given.
pub open spec fn with_switch_given(spec: ConfigView, layer: LayerView, j: int) -> LayerView {
    if kind_is_inverted(spec.switches[j].kind) {
        with_switch(layer, j, ValueView::Boolean(false))
    } else if kind_is_count(spec.switches[j].kind) {
        with_switch_counted(layer, j)
    } else {
        with_switch(layer, j, ValueView::Boolean(true))
    }
}

/// What a group of short options comes to.
pub enum ShortsView {
    /// Every option was taken in. `took_next` says whether the last one took
    /// the next token as its value.
    Done { layer: LayerView, took_next: bool },
    /// An option cannot be taken in, or asks for help.
    Failed(ArgParseErrorView),
}

/// What the short options `rest` come to, read from the left. `h` asks for
/// help. The option of a parameter takes its value from what is left of the
/// group, or from the token `next` if nothing is left, and ends the group;
/// the value is merged in as the value of the long option would be. The
/// option of a
/// switch gives the switch. Any other character is an unknown argument.
pub open spec fn shorts_effect<C: Combinators>(
    cs: &C,
    spec: ConfigView,
    rest: Seq<u8>,
    next: Option<Seq<char>>,
    layer: LayerView,
    program: Seq<char>,
) -> ShortsView
    decreases rest.len(),
{
    if rest.len() == 0 {
        ShortsView::Done { layer, took_next: false }
    } else {
        let c = rest[0] as char;
        if c == 'h' {
            ShortsView::Failed(ArgParseErrorView::HelpRequested(usage_text(spec, program)))
        } else {
            match find_short_param(spec.params, c, 0) {
                Some(i) => match short_value(rest.skip(1), next) {
                    Err(ShortValueError::Missing) => ShortsView::Failed(
                        ArgParseErrorView::MissingArgument(short_option(c)),
                    ),
                    Err(ShortValueError::InvalidUtf8) => ShortsView::Failed(
                        field_error(spec, i, "invalid UTF-8 encoding"@),
                    ),
                    Ok(text) => match value_of_text(param_kind(spec, i), text) {
                        Err(error) => ShortsView::Failed(field_error(spec, i, error)),
                        Ok(value) => ShortsView::Done {
                            layer: with_param(cs, spec, layer, i, value),
                            took_next: rest.len() == 1,
                        },
                    },
                },
                None => match find_short_switch(spec.switches, c, 0) {
                    Some(j) => shorts_effect(
                        cs,
                        spec,
                        rest.skip(1),
                        next,
                        with_switch_given(spec, layer, j),
                        program,
                    ),
                    None => ShortsView::Failed(
                        ArgParseErrorView::UnknownArgument(short_option(c)),
                    ),
                },
            }
        }
    }
}

/// Whether `arg` starts with two dashes.
pub open spec fn starts_with_dashes(arg: Seq<char>) -> bool {
    arg.len() >= 2 && arg[0] == '-' && arg[1] == '-'
}

/// What the token at the place `st.pos` does: the state after it, and why
/// the reading stops there, if it does.
///
/// `--` ends the options. `--help` and `-h` ask for help. The options of
/// the general options come next: the two that load files stop the reading
/// until the files are merged in; the switch that keeps the default files
/// from being read is noted. Then come the long options of the parameters,
/// in the order of their declaration, each with its value; a value for a
/// parameter is merged in as a layer that gives only that value would be.
/// Then the long options of the switches. Then the groups of short options.
/// Any other token that starts with two dashes is an unknown argument, and
/// any other token is the first of the arguments that the program reads
/// itself. A token that fails leaves the state as it was.
pub open spec fn token_effect<C: Combinators>(
    cs: &C,
    spec: ConfigView,
    tokens: Seq<Seq<char>>,
    st: ScanView,
) -> (ScanView, Option<StepView>) {
    let arg = tokens[st.pos as int];
    let next = next_token(tokens, st.pos);
    let file = matched_general(spec.general.conf_file_param, arg, next);
    let dir = matched_general(spec.general.conf_dir_param, arg, next);
    if arg == "--"@ {
        (
            ScanView { pos: st.pos + 1, ..st },
            Some(StepView::Finished { remaining: tokens.skip(st.pos as int + 1) }),
        )
    } else if arg == "--help"@ || arg == "-h"@ {
        (
            st,
            Some(
                StepView::Failed(ArgParseErrorView::HelpRequested(usage_text(spec, tokens[0]))),
            ),
        )
    } else if file is Some {
        let option = long_option(spec.general.conf_file_param->0);
        match file->0 {
            Some(path) => (
                ScanView { pos: st.pos + tokens_taken(option, arg), ..st },
                Some(StepView::LoadFile(path)),
            ),
            None => (st, Some(StepView::Failed(ArgParseErrorView::MissingArgument(option)))),
        }
    } else if dir is Some {
        let option = long_option(spec.general.conf_dir_param->0);
        match dir->0 {
            Some(path) => (
                ScanView { pos: st.pos + tokens_taken(option, arg), ..st },
                Some(StepView::LoadDir(path)),
            ),
            None => (st, Some(StepView::Failed(ArgParseErrorView::MissingArgument(option)))),
        }
    } else if spec.general.skip_default_conf_files_switch is Some && arg == long_option(
        spec.general.skip_default_conf_files_switch->0,
    ) {
        (ScanView { pos: st.pos + 1, skip_default_conf_files: true, ..st }, None)
    } else {
        match find_param(spec.params, arg, next, 0) {
            Some(i) => {
                let option = long_option(spec.params[i].name);
                match matched(option, arg, next)->0 {
                    None => (
                        st,
                        Some(StepView::Failed(ArgParseErrorView::MissingArgument(option))),
                    ),
                    Some(text) => match value_of_text(param_kind(spec, i), text) {
                        Err(error) => (st, Some(StepView::Failed(field_error(spec, i, error)))),
                        Ok(value) => (
                            ScanView {
                                pos: st.pos + tokens_taken(option, arg),
                                layer: with_param(cs, spec, st.layer, i, value),
                                ..st
                            },
                            None,
                        ),
                    },
                }
            },
            None => match find_switch(spec.switches, arg, 0) {
                Some(j) => (
                    ScanView {
                        pos: st.pos + 1,
                        layer: with_switch_given(spec, st.layer, j),
                        ..st
                    },
                    None,
                ),
                None => if is_short_group(encode_utf8(arg)) {
                    match shorts_effect(cs, spec, encode_utf8(arg).skip(1), next, st.layer, tokens[0]) {
                        ShortsView::Done { layer, took_next } => (
                            ScanView {
                                pos: st.pos + if took_next {
                                    2nat
                                } else {
                                    1nat
                                },
                                layer,
                                ..st
                            },
                            None,
                        ),
                        ShortsView::Failed(error) => (st, Some(StepView::Failed(error))),
                    }
                } else if starts_with_dashes(arg) {
                    (st, Some(StepView::Failed(ArgParseErrorView::UnknownArgument(arg))))
                } else {
                    (st, Some(StepView::Finished { remaining: tokens.skip(st.pos as int) }))
                },
            },
        }
    }
}

/// Where the reading that starts in the state `st` stops, and why: the
/// tokens are read one after the other from the place `st.pos` on, each as
/// [`token_effect`] says, until one stops the reading or none is left.
pub open spec fn advanced<C: Combinators>(
    cs: &C,
    spec: ConfigView,
    tokens: Seq<Seq<char>>,
    st: ScanView,
) -> (
    ScanView,
    StepView,
)
    decreases tokens.len() - st.pos,
{
    if st.pos >= tokens.len() {
        (st, StepView::Finished { remaining: Seq::empty() })
    } else {
        let (after, step) = token_effect(cs, spec, tokens, st);
        match step {
            Some(step) => (after, step),
            None => if st.pos < after.pos <= tokens.len() {
                advanced(cs, spec, tokens, after)
            } else {
                (after, StepView::Finished { remaining: Seq::empty() })
            },
        }
    }
}

/// The state in which nothing of the command line `tokens` was read but the
/// name of the program, which is its first token.
pub open spec fn initial_scan(spec: ConfigView, tokens: Seq<Seq<char>>) -> ScanView {
    ScanView {
        pos: if tokens.len() > 0 {
            1
        } else {
            0
        },
        layer: empty_layer(spec.params.len(), spec.switches.len()),
        skip_default_conf_files: false,
    }
}

/// The name of the program on the command line `tokens`: its first token,
/// if it has one.
pub open spec fn program_name_of(tokens: Seq<Seq<char>>) -> Option<Seq<char>> {
    if tokens.len() > 0 {
        Some(tokens[0])
    } else {
        None
    }
}

/// The reading of a command line, which can stop for a file to be loaded
/// and go on when the file is merged in.
#[derive(Debug)]
pub struct Scanner {
    tokens: Vec<String>,
    pos: usize,
    layer: RawLayer,
    skip_default_conf_files: bool,
}

/// Why the reading of the command line stops.
#[derive(Debug)]
pub enum Step {
    /// The options are read; `remaining` are the arguments that follow
    /// them.
    Finished { remaining: Vec<String> },
    /// The file named here is to be loaded and merged in before the reading
    /// goes on.
    LoadFile(String),
    /// The files of the directory named here are to be loaded and merged
    /// in, in the order in which the directory lists them, before the reading
    /// goes on.
    LoadDir(String),
    /// The command line cannot be read, or asks for help.
    Failed(ArgParseError),
}

impl DeepView for Step {
    type V = StepView;

    open spec fn deep_view(&self) -> StepView {
        match self {
            Step::Finished { remaining } => StepView::Finished { remaining: remaining.deep_view() },
            Step::LoadFile(path) => StepView::LoadFile(path@),
            Step::LoadDir(path) => StepView::LoadDir(path@),
            Step::Failed(error) => StepView::Failed(error.deep_view()),
        }
    }
}

/// The long option of the field `name`.
fn long_option_of(name: &Ident) -> (option: String)
    ensures
        option@ == long_option(name.deep_view()),
{
    let mut option = String::from_str("--");
    option.append(name.as_hypenated().as_str());
    option
}

/// The short option `c` as it is written.
fn short_option_of(c: char) -> (option: String)
    ensures
        option@ == short_option(c),
{
    let mut option = String::from_str("-");
    option.push(c);
    option
}

/// What the token `arg` says of the optional general option `name`.
fn match_general(name: &Option<Ident>, arg: &str, next: Option<&String>) -> (r: Option<
    Option<String>,
>)
    ensures
        r.deep_view() == matched_general(name.deep_view(), arg@, next.deep_view()),
{
    match name {
        Some(name) => match_arg(long_option_of(name).as_str(), arg, next),
        None => None,
    }
}

/// Finds the parameter whose long option `arg` is, and what `arg` says of
/// its value.
fn search_param(spec: &Config, arg: &str, next: Option<&String>) -> (r: Option<
    (usize, Option<String>),
>)
    ensures
        match r {
            Some((i, value)) => {
                &&& find_param(spec.deep_view().params, arg@, next.deep_view(), 0) == Some(i as int)
                &&& i < spec.params.len()
                &&& matched(long_option(spec.deep_view().params[i as int].name), arg@, next.deep_view())
                    == Some(value.deep_view())
            },
            None => find_param(spec.deep_view().params, arg@, next.deep_view(), 0) is None,
        },
{
    let ghost params = spec.deep_view().params;
    let mut i: usize = 0;
    while i < spec.params.len()
        invariant
            i <= spec.params.len(),
            params == spec.deep_view().params,
            find_param(params, arg@, next.deep_view(), 0) == find_param(
                params,
                arg@,
                next.deep_view(),
                i as int,
            ),
        decreases spec.params.len() - i,
    {
        let param = &spec.params[i];
        assert(params[i as int] == param.deep_view());
        if param.argument {
            match match_arg(long_option_of(&param.name).as_str(), arg, next) {
                Some(value) => {
                    return Some((i, value));
                },
                None => {},
            }
        }
        i = i + 1;
    }
    None
}

/// The long option by which `switch` is given.
fn switch_option_of(switch: &crate::config::Switch) -> (option: String)
    ensures
        option@ == switch_option(switch.deep_view()),
{
    let mut option = if switch.is_inverted() {
        String::from_str("--no-")
    } else {
        String::from_str("--")
    };
    option.append(switch.name.as_hypenated().as_str());
    option
}

/// Finds the switch that is given by `arg`.
fn search_switch(spec: &Config, arg: &str) -> (r: Option<usize>)
    ensures
        match r {
            Some(j) => find_switch(spec.deep_view().switches, arg@, 0) == Some(j as int) && j
                < spec.switches.len(),
            None => find_switch(spec.deep_view().switches, arg@, 0) is None,
        },
{
    let ghost switches = spec.deep_view().switches;
    let mut j: usize = 0;
    while j < spec.switches.len()
        invariant
            j <= spec.switches.len(),
            switches == spec.deep_view().switches,
            find_switch(switches, arg@, 0) == find_switch(switches, arg@, j as int),
        decreases spec.switches.len() - j,
    {
        let switch = &spec.switches[j];
        assert(switches[j as int] == switch.deep_view());
        if same_text(arg, switch_option_of(switch).as_str()) {
            return Some(j);
        }
        j = j + 1;
    }
    None
}

/// Finds the parameter that has the short option `c`.
fn search_short_param(spec: &Config, c: char) -> (r: Option<usize>)
    ensures
        match r {
            Some(i) => find_short_param(spec.deep_view().params, c, 0) == Some(i as int) && i
                < spec.params.len(),
            None => find_short_param(spec.deep_view().params, c, 0) is None,
        },
{
    let ghost params = spec.deep_view().params;
    let mut i: usize = 0;
    while i < spec.params.len()
        invariant
            i <= spec.params.len(),
            params == spec.deep_view().params,
            find_short_param(params, c, 0) == find_short_param(params, c, i as int),
        decreases spec.params.len() - i,
    {
        let param = &spec.params[i];
        assert(params[i as int] == param.deep_view());
        let has = match param.abbr {
            Some(abbr) => abbr == c,
            None => false,
        };
        if param.argument && has {
            return Some(i);
        }
        i = i + 1;
    }
    None
}

/// Finds the switch that has the short option `c`.
fn search_short_switch(spec: &Config, c: char) -> (r: Option<usize>)
    ensures
        match r {
            Some(j) => find_short_switch(spec.deep_view().switches, c, 0) == Some(j as int) && j
                < spec.switches.len(),
            None => find_short_switch(spec.deep_view().switches, c, 0) is None,
        },
{
    let ghost switches = spec.deep_view().switches;
    let mut j: usize = 0;
    while j < spec.switches.len()
        invariant
            j <= spec.switches.len(),
            switches == spec.deep_view().switches,
            find_short_switch(switches, c, 0) == find_short_switch(switches, c, j as int),
        decreases spec.switches.len() - j,
    {
        let switch = &spec.switches[j];
        assert(switches[j as int] == switch.deep_view());
        let has = match switch.abbr() {
            Some(abbr) => abbr == c,
            None => false,
        };
        if has {
            return Some(j);
        }
        j = j + 1;
    }
    None
}

/// The error that the value given for the parameter at the place `i` is
/// none of its kind.
fn field_error_of(spec: &Config, i: usize, error: String) -> (r: ArgParseError)
    requires
        i < spec.params.len(),
    ensures
        r.deep_view() == field_error(spec.deep_view(), i as int, error@),
{
    let param = &spec.params[i];
    ArgParseError::Field {
        option: long_option_of(&param.name),
        error,
        kind: value_kind(param.ty.as_str()),
    }
}

/// Takes in that the switch at the place `j` was given.
fn give_switch(layer: &mut RawLayer, spec: &Config, j: usize)
    requires
        j < spec.switches.len(),
    ensures
        final(layer).deep_view() == with_switch_given(
            spec.deep_view(),
            old(layer).deep_view(),
            j as int,
        ),
{
    let switch = &spec.switches[j];
    if switch.is_inverted() {
        layer.set_switch(j, Value::Boolean(false));
    } else if switch.is_count() {
        layer.count_switch(j);
    } else {
        layer.set_switch(j, Value::Boolean(true));
    }
}

/// Takes in a group of short options. Tells whether the last option took
/// the next token as its value.
fn take_shorts<C: Combinators>(
    cs: &C,
    layer: &mut RawLayer,
    spec: &Config,
    arg: &str,
    next: Option<&String>,
    program: &str,
) -> (r: Result<bool, ArgParseError>)
    requires
        is_short_group(encode_utf8(arg@)),
    ensures
        match r {
            Ok(took_next) => shorts_effect(
                cs,
                spec.deep_view(),
                encode_utf8(arg@).skip(1),
                next.deep_view(),
                old(layer).deep_view(),
                program@,
            ) == (ShortsView::Done { layer: final(layer).deep_view(), took_next }),
            Err(error) => shorts_effect(
                cs,
                spec.deep_view(),
                encode_utf8(arg@).skip(1),
                next.deep_view(),
                old(layer).deep_view(),
                program@,
            ) == ShortsView::Failed(error.deep_view()),
        },
{
    let ghost goal = shorts_effect(
        cs,
        spec.deep_view(),
        encode_utf8(arg@).skip(1),
        next.deep_view(),
        old(layer).deep_view(),
        program@,
    );
    let total = arg.as_bytes().len();
    let mut seen: usize = 1;
    let mut iter = match iter_short(arg) {
        Some(iter) => iter,
        None => {
            return Ok(false);
        },
    };
    loop
        invariant
            goal == shorts_effect(
                cs,
                spec.deep_view(),
                encode_utf8(arg@).skip(1),
                next.deep_view(),
                old(layer).deep_view(),
                program@,
            ),
            goal == shorts_effect(
                cs,
                spec.deep_view(),
                short_rest(iter),
                next.deep_view(),
                layer.deep_view(),
                program@,
            ),
            1 <= seen <= total,
            short_rest(iter).len() == total - seen,
        decreases short_rest(iter).len(),
    {
        match next_short(&mut iter) {
            None => {
                return Ok(false);
            },
            Some(c) => {
                seen = seen + 1;
                if c == 'h' {
                    return Err(ArgParseError::HelpRequested(usage(spec, program)));
                }
                match search_short_param(spec, c) {
                    Some(i) => {
                        let kind = value_kind(spec.params[i].ty.as_str());
                        assert(spec.deep_view().params[i as int] == spec.params[i as int].deep_view());
                        match remaining_value(iter, next) {
                            Err(ShortValueError::Missing) => {
                                return Err(ArgParseError::MissingArgument(short_option_of(c)));
                            },
                            Err(ShortValueError::InvalidUtf8) => {
                                return Err(field_error_of(spec, i, invalid_utf8_words()));
                            },
                            Ok(text) => match parse_value(kind, text) {
                                Err(error) => {
                                    return Err(field_error_of(spec, i, error));
                                },
                                Ok(value) => {
                                    layer.set_param(cs, spec, i, value);
                                    return Ok(seen == total);
                                },
                            },
                        }
                    },
                    None => match search_short_switch(spec, c) {
                        Some(j) => {
                            give_switch(layer, spec, j);
                        },
                        None => {
                            return Err(ArgParseError::UnknownArgument(short_option_of(c)));
                        },
                    },
                }
            },
        }
    }
}

/// Where the last option of a group took the next token as its value, there
/// is a next token.
proof fn lemma_took_next<C: Combinators>(
    cs: &C,
    spec: ConfigView,
    rest: Seq<u8>,
    next: Option<Seq<char>>,
    layer: LayerView,
    program: Seq<char>,
)
    ensures
        shorts_effect(cs, spec, rest, next, layer, program) matches ShortsView::Done {
            took_next: true,
            ..
        } ==> next is Some,
    decreases rest.len(),
{
    if rest.len() > 0 {
        let c = rest[0] as char;
        if c != 'h' && find_short_param(spec.params, c, 0) is None {
            match find_short_switch(spec.switches, c, 0) {
                Some(j) => {
                    lemma_took_next(
                        cs,
                        spec,
                        rest.skip(1),
                        next,
                        with_switch_given(spec, layer, j),
                        program,
                    );
                },
                None => {},
            }
        }
    }
}

/// A copy of the tokens from the place `from` on.
fn tail_from(tokens: &Vec<String>, from: usize) -> (tail: Vec<String>)
    requires
        from <= tokens.len(),
    ensures
        tail.deep_view() == tokens.deep_view().skip(from as int),
{
    let mut tail: Vec<String> = Vec::new();
    let mut i: usize = from;
    while i < tokens.len()
        invariant
            from <= i <= tokens.len(),
            tail.len() == i - from,
            forall|k: int| 0 <= k < tail.len() ==> (#[trigger] tail[k])@ == tokens[from + k]@,
        decreases tokens.len() - i,
    {
        tail.push(tokens[i].clone());
        i = i + 1;
    }
    proof {
        assert(tail.deep_view() =~= tokens.deep_view().skip(from as int));
    }
    tail
}

/// Whether `arg` starts with two dashes.
fn has_two_dashes(arg: &str) -> (r: bool)
    ensures
        r == starts_with_dashes(arg@),
{
    arg.unicode_len() >= 2 && arg.get_char(0) == '-' && arg.get_char(1) == '-'
}

impl Scanner {
    /// The command line that is read.
    pub closed spec fn tokens(&self) -> Seq<Seq<char>> {
        self.tokens.deep_view()
    }

    /// How far the command line has been read, and what it gave so far.
    pub closed spec fn state(&self) -> ScanView {
        ScanView {
            pos: self.pos as nat,
            layer: self.layer.deep_view(),
            skip_default_conf_files: self.skip_default_conf_files,
        }
    }

    /// Whether the place that was reached lies on the command line or at its
    /// end.
    pub closed spec fn wf(&self) -> bool {
        self.pos <= self.tokens.len()
    }

    /// Starts the reading of the command line `tokens`, whose first token is
    /// the name of the program.
    pub fn new(spec: &Config, tokens: Vec<String>) -> (scanner: Scanner)
        ensures
            scanner.wf(),
            scanner.tokens() == tokens.deep_view(),
            scanner.state() == initial_scan(spec.deep_view(), tokens.deep_view()),
    {
        let pos: usize = if tokens.len() > 0 {
            1
        } else {
            0
        };
        Scanner { tokens, pos, layer: RawLayer::empty(spec), skip_default_conf_files: false }
    }

    /// The name of the program: the first token, if there is one.
    pub fn program_name(&self) -> (name: Option<String>)
        ensures
            name.deep_view() == program_name_of(self.tokens()),
    {
        if self.tokens.len() > 0 {
            Some(self.tokens[0].clone())
        } else {
            None
        }
    }

    /// Whether the switch that keeps the default configuration files from
    /// being read was given.
    pub fn skip_default_conf_files(&self) -> (skip: bool)
        ensures
            skip == self.state().skip_default_conf_files,
    {
        self.skip_default_conf_files
    }

    /// What the options read so far give for the fields.
    pub fn layer(&self) -> (layer: &RawLayer)
        ensures
            layer.deep_view() == self.state().layer,
    {
        &self.layer
    }

    /// Ends the reading and hands out what the options gave.
    pub fn into_layer(self) -> (layer: RawLayer)
        ensures
            layer.deep_view() == self.state().layer,
    {
        self.layer
    }

    /// Merges in a layer that was loaded for an option of the command line:
    /// what it gives takes the place of what the options before it gave, and
    /// the options behind it can take its place in turn.
    pub fn merge_loaded<C: Combinators>(&mut self, cs: &C, spec: &Config, loaded: RawLayer)
        requires
            old(self).wf(),
        ensures
            final(self).wf(),
            final(self).tokens() == old(self).tokens(),
            final(self).state() == (ScanView {
                layer: merged(cs, spec.deep_view(), old(self).state().layer, loaded.deep_view()),
                ..old(self).state()
            }),
    {
        self.layer.merge_in(cs, spec, loaded);
    }

    /// Reads on until the options are read, a file is to be loaded, or a
    /// token cannot be read. After a file was asked for and merged in with
    /// [`Scanner::merge_loaded`], the reading goes on with the next call.
    pub fn advance<C: Combinators>(&mut self, cs: &C, spec: &Config) -> (step: Step)
        requires
            old(self).wf(),
        ensures
            final(self).wf(),
            final(self).tokens() == old(self).tokens(),
            (final(self).state(), step.deep_view()) == advanced(
                cs,
                spec.deep_view(),
                old(self).tokens(),
                old(self).state(),
            ),
    {
        let ghost tokens = self.tokens.deep_view();
        let ghost goal = advanced(cs, spec.deep_view(), tokens, self.state());
        loop
            invariant
                self.wf(),
                self.tokens == old(self).tokens,
                tokens == self.tokens.deep_view(),
                goal == advanced(cs, spec.deep_view(), old(self).tokens(), old(self).state()),
                goal == advanced(cs, spec.deep_view(), tokens, self.state()),
            decreases self.tokens.len() - self.pos,
        {
            if self.pos >= self.tokens.len() {
                let remaining: Vec<String> = Vec::new();
                proof {
                    crate::views::lemma_deep_view_empty(remaining);
                }
                return Step::Finished { remaining };
            }
            let pos = self.pos;
            let ghost st = self.state();
            let ghost effect = token_effect(cs, spec.deep_view(), tokens, st);
            let arg = self.tokens[pos].as_str();
            let next: Option<&String> = if pos + 1 < self.tokens.len() {
                Some(&self.tokens[pos + 1])
            } else {
                None
            };
            assert(arg@ == tokens[pos as int]);
            assert(next.deep_view() == next_token(tokens, pos as nat));
            if same_text(arg, "--") {
                let remaining = tail_from(&self.tokens, pos + 1);
                self.pos = pos + 1;
                return Step::Finished { remaining };
            }
            if same_text(arg, "--help") || same_text(arg, "-h") {
                return Step::Failed(
                    ArgParseError::HelpRequested(usage(spec, self.tokens[0].as_str())),
                );
            }
            match match_general(&spec.general.conf_file_param, arg, next) {
                Some(Some(path)) => {
                    let option = match &spec.general.conf_file_param {
                        Some(name) => long_option_of(name),
                        None => String::new(),
                    };
                    self.pos = if same_text(arg, option.as_str()) {
                        pos + 2
                    } else {
                        pos + 1
                    };
                    return Step::LoadFile(path);
                },
                Some(None) => {
                    let option = match &spec.general.conf_file_param {
                        Some(name) => long_option_of(name),
                        None => String::new(),
                    };
                    return Step::Failed(ArgParseError::MissingArgument(option));
                },
                None => {},
            }
            match match_general(&spec.general.conf_dir_param, arg, next) {
                Some(Some(path)) => {
                    let option = match &spec.general.conf_dir_param {
                        Some(name) => long_option_of(name),
                        None => String::new(),
                    };
                    self.pos = if same_text(arg, option.as_str()) {
                        pos + 2
                    } else {
                        pos + 1
                    };
                    return Step::LoadDir(path);
                },
                Some(None) => {
                    let option = match &spec.general.conf_dir_param {
                        Some(name) => long_option_of(name),
                        None => String::new(),
                    };
                    return Step::Failed(ArgParseError::MissingArgument(option));
                },
                None => {},
            }
            let skips = match &spec.general.skip_default_conf_files_switch {
                Some(name) => same_text(arg, long_option_of(name).as_str()),
                None => false,
            };
            if skips {
                self.pos = pos + 1;
                self.skip_default_conf_files = true;
                continue ;
            }
            match search_param(spec, arg, next) {
                Some((i, value)) => {
                    let param = &spec.params[i];
                    assert(spec.deep_view().params[i as int] == param.deep_view());
                    let option = long_option_of(&param.name);
                    match value {
                        None => {
                            return Step::Failed(ArgParseError::MissingArgument(option));
                        },
                        Some(text) => match parse_value(value_kind(param.ty.as_str()), text) {
                            Err(error) => {
                                return Step::Failed(field_error_of(spec, i, error));
                            },
                            Ok(value) => {
                                let taken: usize = if same_text(arg, option.as_str()) {
                                    2
                                } else {
                                    1
                                };
                                self.layer.set_param(cs, spec, i, value);
                                self.pos = pos + taken;
                                continue ;
                            },
                        },
                    }
                },
                None => {},
            }
            match search_switch(spec, arg) {
                Some(j) => {
                    give_switch(&mut self.layer, spec, j);
                    self.pos = pos + 1;
                    continue ;
                },
                None => {},
            }
            let group = arg.as_bytes().len() >= 2 && arg.as_bytes()[0] == 0x2d
                && arg.as_bytes()[1] != 0x2d;
            if group {
                let saved = self.layer.duplicate();
                proof {
                    lemma_took_next(
                        cs,
                        spec.deep_view(),
                        encode_utf8(arg@).skip(1),
                        next.deep_view(),
                        self.layer.deep_view(),
                        tokens[0],
                    );
                }
                match take_shorts(cs, &mut self.layer, spec, arg, next, self.tokens[0].as_str()) {
                    Ok(took_next) => {
                        self.pos = if took_next {
                            pos + 2
                        } else {
                            pos + 1
                        };
                        continue ;
                    },
                    Err(error) => {
                        self.layer = saved;
                        return Step::Failed(error);
                    },
                }
            }
            if has_two_dashes(arg) {
                return Step::Failed(ArgParseError::UnknownArgument(self.tokens[pos].clone()));
            }
            return Step::Finished { remaining: tail_from(&self.tokens, pos) };
        }
    }
}

/// `layer` after the layers `loaded` were merged into it one after the
/// other.
pub open spec fn merged_all<C: Combinators>(
    cs: &C,
    spec: ConfigView,
    layer: LayerView,
    loaded: Seq<LayerView>,
) -> LayerView
    decreases loaded.len(),
{
    if loaded.len() == 0 {
        layer
    } else {
        merged(cs, spec, merged_all(cs, spec, layer, loaded.drop_last()), loaded.last())
    }
}

/// What the reading of the command line gives when it starts in the state
/// `st` and each option that loads files finds its files loaded: `sources`
/// holds, for each such option in the order of the options, the layers of
/// its files in the order in which they are to be merged in. An option for
/// which `sources` holds nothing loads nothing.
pub open spec fn scanned<C: Combinators>(
    cs: &C,
    spec: ConfigView,
    tokens: Seq<Seq<char>>,
    st: ScanView,
    sources: Seq<Seq<LayerView>>,
) -> Result<ScannedView, ArgParseErrorView>
    decreases tokens.len() - st.pos,
{
    let (after, step) = advanced(cs, spec, tokens, st);
    match step {
        StepView::Finished { remaining } => Ok(
            ScannedView {
                program_name: program_name_of(tokens),
                layer: after.layer,
                remaining,
                skip_default_conf_files: after.skip_default_conf_files,
            },
        ),
        StepView::Failed(error) => Err(error),
        _ => if st.pos < after.pos <= tokens.len() {
            let loaded = if sources.len() > 0 {
                sources[0]
            } else {
                Seq::empty()
            };
            scanned(
                cs,
                spec,
                tokens,
                ScanView { layer: merged_all(cs, spec, after.layer, loaded), ..after },
                if sources.len() > 0 {
                    sources.drop_first()
                } else {
                    sources
                },
            )
        } else {
            Err(ArgParseErrorView::UnknownArgument(Seq::empty()))
        },
    }
}

/// A reading that stops for files to be loaded has moved on, and not past
/// the end of the command line.
pub proof fn lemma_load_moves_on<C: Combinators>(
    cs: &C,
    spec: ConfigView,
    tokens: Seq<Seq<char>>,
    st: ScanView,
)
    requires
        st.pos <= tokens.len(),
    ensures
        advanced(cs, spec, tokens, st).1 is LoadFile || advanced(cs, spec, tokens, st).1 is LoadDir
            ==> st.pos < advanced(cs, spec, tokens, st).0.pos <= tokens.len(),
        advanced(cs, spec, tokens, st).0.pos >= st.pos,
    decreases tokens.len() - st.pos,
{
    if st.pos < tokens.len() {
        let (after, step) = token_effect(cs, spec, tokens, st);
        if step is None && st.pos < after.pos <= tokens.len() {
            lemma_load_moves_on(cs, spec, tokens, after);
        }
    }
}

/// Asking for help stops the reading at once and leaves what was read so
/// far as it was.
pub proof fn help_stops_the_reading<C: Combinators>(
    cs: &C,
    spec: ConfigView,
    tokens: Seq<Seq<char>>,
    st: ScanView,
)
    requires
        st.pos < tokens.len(),
        tokens[st.pos as int] == "--help"@ || tokens[st.pos as int] == "-h"@,
    ensures
        advanced(cs, spec, tokens, st) == (
            st,
            StepView::Failed(ArgParseErrorView::HelpRequested(usage_text(spec, tokens[0]))),
        ),
{
    reveal_strlit("--");
    reveal_strlit("--help");
    reveal_strlit("-h");
    assert("--help"@.len() != "--"@.len());
    assert("-h"@[1] != "--"@[1]);
}

/// The layers that the next option that loads files finds.
pub open spec fn first_source(sources: Seq<Seq<LayerView>>) -> Seq<LayerView> {
    if sources.len() > 0 {
        sources[0]
    } else {
        Seq::empty()
    }
}

/// What the options behind the next one that loads files find.
pub open spec fn later_sources(sources: Seq<Seq<LayerView>>) -> Seq<Seq<LayerView>> {
    if sources.len() > 0 {
        sources.drop_first()
    } else {
        sources
    }
}

/// Whether the reading that starts in the state `st` comes to a token that
/// asks for help — `--help`, `-h`, or a group of short options with `h` in
/// it — and every token before it can be read: an option of the program,
/// with its value where it takes one, among them the options that load
/// files.
pub open spec fn leads_to_help<C: Combinators>(
    cs: &C,
    spec: ConfigView,
    tokens: Seq<Seq<char>>,
    st: ScanView,
    sources: Seq<Seq<LayerView>>,
) -> bool
    decreases tokens.len() - st.pos,
{
    if st.pos >= tokens.len() {
        false
    } else {
        let (after, step) = token_effect(cs, spec, tokens, st);
        match step {
            Some(StepView::Failed(ArgParseErrorView::HelpRequested(_))) => true,
            None => st.pos < after.pos <= tokens.len() && leads_to_help(
                cs,
                spec,
                tokens,
                after,
                sources,
            ),
            Some(StepView::LoadFile(_)) | Some(StepView::LoadDir(_)) => st.pos < after.pos
                <= tokens.len() && leads_to_help(
                cs,
                spec,
                tokens,
                ScanView { layer: merged_all(cs, spec, after.layer, first_source(sources)), ..after },
                later_sources(sources),
            ),
            _ => false,
        }
    }
}

/// A group of short options that asks for help is answered with the text
/// that tells how the program is called.
proof fn lemma_shorts_help<C: Combinators>(
    cs: &C,
    spec: ConfigView,
    rest: Seq<u8>,
    next: Option<Seq<char>>,
    layer: LayerView,
    program: Seq<char>,
)
    ensures
        shorts_effect(cs, spec, rest, next, layer, program) matches ShortsView::Failed(
            ArgParseErrorView::HelpRequested(text),
        ) ==> text == usage_text(spec, program),
    decreases rest.len(),
{
    if rest.len() > 0 {
        let c = rest[0] as char;
        if c != 'h' && find_short_param(spec.params, c, 0) is None {
            match find_short_switch(spec.switches, c, 0) {
                Some(j) => {
                    lemma_shorts_help(
                        cs,
                        spec,
                        rest.skip(1),
                        next,
                        with_switch_given(spec, layer, j),
                        program,
                    );
                },
                None => {},
            }
        }
    }
}

/// A call for help is answered whatever stands before it: where the
/// reading comes to a token that asks for help, the outcome of the reading is
/// the answer and nothing else. What the options before it gave, what the
/// files they named held and the name of the program are not handed on, so
/// that no configuration is touched by them.
pub proof fn help_is_answered_behind_options<C: Combinators>(
    cs: &C,
    spec: ConfigView,
    tokens: Seq<Seq<char>>,
    st: ScanView,
    sources: Seq<Seq<LayerView>>,
)
    requires
        leads_to_help(cs, spec, tokens, st, sources),
    ensures
        scanned(cs, spec, tokens, st, sources) == Err::<ScannedView, ArgParseErrorView>(
            ArgParseErrorView::HelpRequested(usage_text(spec, tokens[0])),
        ),
    decreases tokens.len() - st.pos,
{
    let (after, step) = token_effect(cs, spec, tokens, st);
    match step {
        Some(StepView::Failed(ArgParseErrorView::HelpRequested(text))) => {
            let arg = tokens[st.pos as int];
            lemma_shorts_help(
                cs,
                spec,
                encode_utf8(arg).skip(1),
                next_token(tokens, st.pos),
                st.layer,
                tokens[0],
            );
        },
        None => {
            help_is_answered_behind_options(cs, spec, tokens, after, sources);
            lemma_load_moves_on(cs, spec, tokens, after);
        },
        Some(StepView::LoadFile(_)) | Some(StepView::LoadDir(_)) => {
            help_is_answered_behind_options(
                cs,
                spec,
                tokens,
                ScanView { layer: merged_all(cs, spec, after.layer, first_source(sources)), ..after },
                later_sources(sources),
            );
        },
        _ => {},
    }
}

/// `--` ends the options: the tokens behind it are the arguments that the
/// program reads itself, as they stand, and what was read so far stays as it
/// was.
pub proof fn double_dash_ends_the_options<C: Combinators>(
    cs: &C,
    spec: ConfigView,
    tokens: Seq<Seq<char>>,
    st: ScanView,
)
    requires
        st.pos < tokens.len(),
        tokens[st.pos as int] == "--"@,
    ensures
        advanced(cs, spec, tokens, st) == (
            ScanView { pos: st.pos + 1, ..st },
            StepView::Finished { remaining: tokens.skip(st.pos as int + 1) },
        ),
{
}

/// A token that cannot be read leaves what was read so far as it was.
pub proof fn failure_changes_nothing<C: Combinators>(
    cs: &C,
    spec: ConfigView,
    tokens: Seq<Seq<char>>,
    st: ScanView,
)
    requires
        st.pos < tokens.len(),
    ensures
        token_effect(cs, spec, tokens, st).1 matches Some(StepView::Failed(_)) ==> token_effect(
            cs,
            spec,
            tokens,
            st,
        ).0 == st,
{
}

/// Merges the layers `loaded` into the layer of `scanner`, one after the
/// other.
fn merge_all<C: Combinators>(cs: &C, scanner: &mut Scanner, spec: &Config, loaded: Vec<RawLayer>)
    requires
        old(scanner).wf(),
    ensures
        final(scanner).wf(),
        final(scanner).tokens() == old(scanner).tokens(),
        final(scanner).state() == (ScanView {
            layer: merged_all(cs, spec.deep_view(), old(scanner).state().layer, loaded.deep_view()),
            ..old(scanner).state()
        }),
{
    let ghost all = loaded.deep_view();
    let ghost items = loaded@;
    proof {
        assert(all.take(0) =~= Seq::empty());
    }
    for layer in it: loaded
        invariant
            it.seq() == items,
            all.len() == items.len(),
            forall|k: int| 0 <= k < all.len() ==> (#[trigger] items[k]).deep_view() == all[k],
            scanner.wf(),
            scanner.tokens() == old(scanner).tokens(),
            scanner.state() == (ScanView {
                layer: merged_all(
                    cs,
                    spec.deep_view(),
                    old(scanner).state().layer,
                    all.take(it.index()),
                ),
                ..old(scanner).state()
            }),
    {
        proof {
            assert(all.take(it.index() + 1).drop_last() =~= all.take(it.index()));
        }
        scanner.merge_loaded(cs, spec, layer);
    }
    proof {
        assert(all.take(all.len() as int) =~= all);
    }
}

/// Reads the command line `tokens`, whose first token is the name of the
/// program. `sources` holds what the options that load files find: for each
/// such option, in the order of the options, the layers of its files in the
/// order in which they are to be merged in.
pub fn scan<C: Combinators>(
    cs: &C,
    spec: &Config,
    tokens: Vec<String>,
    sources: Vec<Vec<RawLayer>>,
) -> (r: Result<Scanned, ArgParseError>)
    ensures
        crate::text::result_view(r) == scanned(
            cs,
            spec.deep_view(),
            tokens.deep_view(),
            initial_scan(spec.deep_view(), tokens.deep_view()),
            sources.deep_view(),
        ),
{
    let ghost goal = scanned(
            cs,
            spec.deep_view(),
            tokens.deep_view(),
        initial_scan(spec.deep_view(), tokens.deep_view()),
        sources.deep_view(),
    );
    let ghost all = tokens.deep_view();
    let mut scanner = Scanner::new(spec, tokens);
    let mut pending = sources;
    let mut used: usize = 0;
    let ghost given = sources.deep_view();
    proof {
        assert(given.skip(0) =~= given);
    }
    loop
        invariant
            scanner.wf(),
            scanner.tokens() == all,
            all == tokens.deep_view(),
            used <= pending.len(),
            given == sources.deep_view(),
            given.len() == pending.len(),
            given.skip(used as int) == pending.deep_view().skip(used as int),
            goal == scanned(
            cs,
            spec.deep_view(),
            tokens.deep_view(),
                initial_scan(spec.deep_view(), tokens.deep_view()),
                sources.deep_view(),
            ),
            goal == scanned(cs, spec.deep_view(), all, scanner.state(), given.skip(used as int)),
        decreases all.len() - scanner.state().pos,
    {
        let ghost before = scanner.state();
        proof {
            lemma_load_moves_on(cs, spec.deep_view(), all, before);
        }
        match scanner.advance(cs, spec) {
            Step::Finished { remaining } => {
                let program_name = scanner.program_name();
                let skip_default_conf_files = scanner.skip_default_conf_files();
                return Ok(
                    Scanned {
                        program_name,
                        layer: scanner.into_layer(),
                        remaining,
                        skip_default_conf_files,
                    },
                );
            },
            Step::Failed(error) => {
                return Err(error);
            },
            _ => {
                let mut loaded: Vec<RawLayer> = Vec::new();
                proof {
                    crate::views::lemma_deep_view_empty(loaded);
                    assert(given.skip(used as int).len() > 0 ==> given.skip(used as int)[0]
                        == given[used as int]);
                    assert(given.skip(used as int).len() > 0 ==> given.skip(
                        used as int,
                    ).drop_first() =~= given.skip(used + 1));
                }
                if used < pending.len() {
                    let ghost previous = pending.deep_view();
                    assert(previous.skip(used as int)[0] == previous[used as int]);
                    vstd::pervasive::VecAdditionalExecFns::set_and_swap(
                        &mut pending,
                        used,
                        &mut loaded,
                    );
                    proof {
                        assert(loaded.deep_view() == given[used as int]);
                        assert(pending.deep_view().skip(used + 1) =~= previous.skip(
                            used as int,
                        ).drop_first());
                    }
                    used = used + 1;
                }
                merge_all(cs, &mut scanner, spec, loaded);
            },
        }
    }
}

} // verus!
