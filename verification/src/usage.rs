//! The text that tells how a program is called: the line with its
//! arguments, and the list that explains them.

use vstd::prelude::*;
use crate::config::{
    kind_abbr, kind_is_count, kind_is_inverted, Config, ConfigView, Param, ParamView, Switch,
    SwitchKind, SwitchView,
};
use crate::ident::{hyphenated, upper_case, Ident};
use crate::segment::{
    blank, count_graphemes, difference, grapheme_count, is_blank, larger, max, minus, plus,
    push_spaces, spaces, split_word_bounds, sum, word_bounds,
};

verus! {

/// The number of characters of `text`, or the largest length that can be
/// held if it has more.
pub open spec fn length(text: Seq<char>) -> usize {
    if text.len() > usize::MAX {
        usize::MAX
    } else {
        text.len() as usize
    }
}

/// The room that the parameters take in the line of arguments: for each
/// that can be given on the command line, twice its name and six more.
pub open spec fn params_width(params: Seq<ParamView>) -> usize
    decreases params.len(),
{
    if params.len() == 0 {
        0
    } else if params.last().argument {
        plus(
            params_width(params.drop_last()),
            plus(plus(length(params.last().name), length(params.last().name)), 6),
        )
    } else {
        params_width(params.drop_last())
    }
}

/// The room that the switches take in the line of arguments: for each its
/// name and five more, eight for one that is on by default.
pub open spec fn switches_width(switches: Seq<SwitchView>) -> usize
    decreases switches.len(),
{
    if switches.len() == 0 {
        0
    } else {
        plus(
            switches_width(switches.drop_last()),
            plus(
                length(switches.last().name),
                if kind_is_inverted(switches.last().kind) {
                    8
                } else {
                    5
                },
            ),
        )
    }
}

/// The room that an optional name takes, `extra` more than its length.
pub open spec fn optional_width(name: Option<Seq<char>>, extra: usize) -> usize {
    match name {
        Some(name) => plus(length(name), extra),
        None => 0,
    }
}

/// The room that all arguments take in the line of arguments.
pub open spec fn arguments_width(spec: ConfigView) -> usize {
    plus(
        plus(
            plus(params_width(spec.params), switches_width(spec.switches)),
            optional_width(spec.general.conf_file_param, 15),
        ),
        optional_width(spec.general.conf_dir_param, 14),
    )
}

/// The room that is left for the arguments in a line of 80 characters that
/// starts with `Usage: `.
pub const LINE_ROOM: usize = 73;

/// The width of a line.
pub const LINE_WIDTH: usize = 80;

/// `acc` and then how one parameter is given.
pub open spec fn param_usage(acc: Seq<char>, p: ParamView) -> Seq<char> {
    if !p.argument {
        acc
    } else {
        let acc = match p.abbr {
            Some(abbr) => acc + " [-"@ + seq![abbr] + " "@ + upper_case(p.name) + "|--"@,
            None => acc + " [--"@,
        };
        acc + hyphenated(p.name) + " "@ + upper_case(p.name) + "]"@
    }
}

/// `acc` and then how each parameter is given, in their order.
pub open spec fn params_usage(acc: Seq<char>, params: Seq<ParamView>) -> Seq<char>
    decreases params.len(),
{
    if params.len() == 0 {
        acc
    } else {
        param_usage(params_usage(acc, params.drop_last()), params.last())
    }
}

/// `acc` and then how one switch is given.
pub open spec fn switch_usage(acc: Seq<char>, s: SwitchView) -> Seq<char> {
    let acc = match kind_abbr(s.kind) {
        Some(abbr) => acc + " [-"@ + seq![abbr] + "|--"@,
        None => acc + " [--"@,
    };
    let acc = if kind_is_inverted(s.kind) {
        acc + "no-"@
    } else {
        acc
    };
    let acc = acc + hyphenated(s.name);
    let acc = if kind_is_count(s.kind) {
        acc + " ..."@
    } else {
        acc
    };
    acc + "]"@
}

/// `acc` and then how each switch is given, in their order.
pub open spec fn switches_usage(acc: Seq<char>, switches: Seq<SwitchView>) -> Seq<char>
    decreases switches.len(),
{
    if switches.len() == 0 {
        acc
    } else {
        switch_usage(switches_usage(acc, switches.drop_last()), switches.last())
    }
}

/// `acc` and then the arguments as they stand in the line of arguments: all
/// of them where they fit, the general options first, then the parameters,
/// then the switches; a word for all of them where they do not fit.
pub open spec fn line_of_arguments(acc: Seq<char>, spec: ConfigView) -> Seq<char> {
    if arguments_width(spec) < LINE_ROOM {
        let acc = match spec.general.conf_file_param {
            Some(name) => acc + " [--"@ + hyphenated(name) + " CONF_FILE]"@,
            None => acc,
        };
        let acc = match spec.general.conf_dir_param {
            Some(name) => acc + " [--"@ + hyphenated(name) + " CONF_DIR]"@,
            None => acc,
        };
        switches_usage(params_usage(acc, spec.params), spec.switches)
    } else {
        acc + " [ARGUMENTS...]"@
    }
}

/// Whether every argument is listed, also one that has no explanation.
pub open spec fn lists_all(spec: ConfigView) -> bool {
    arguments_width(spec) > LINE_ROOM
}

/// The widest name among the listed parameters, four more for one with a
/// short option.
pub open spec fn widest_param(params: Seq<ParamView>, all: bool) -> usize
    decreases params.len(),
{
    if params.len() == 0 {
        0
    } else if params.last().argument && (all || params.last().doc is Some) {
        larger(
            widest_param(params.drop_last(), all),
            plus(
                length(params.last().name),
                if params.last().abbr is Some {
                    4
                } else {
                    0
                },
            ),
        )
    } else {
        widest_param(params.drop_last(), all)
    }
}

/// The room that the way a switch is given takes beside its name.
pub open spec fn kind_width(kind: SwitchKind) -> usize {
    match kind {
        SwitchKind::Normal { abbr: Some(_), .. } => 4,
        SwitchKind::Inverted => 3,
        _ => 0,
    }
}

/// The widest name among the listed switches, with the room that the way
/// the switch is given takes.
pub open spec fn widest_switch(switches: Seq<SwitchView>, all: bool) -> usize
    decreases switches.len(),
{
    if switches.len() == 0 {
        0
    } else if all || switches.last().doc is Some {
        larger(
            widest_switch(switches.drop_last(), all),
            plus(length(switches.last().name), kind_width(switches.last().kind)),
        )
    } else {
        widest_switch(switches.drop_last(), all)
    }
}

/// The width of the column of names in the list of arguments.
pub open spec fn names_width(spec: ConfigView) -> usize {
    larger(
        larger(
            larger(
                widest_param(spec.params, lists_all(spec)),
                optional_width(spec.general.conf_file_param, 0),
            ),
            optional_width(spec.general.conf_dir_param, 0),
        ),
        widest_switch(spec.switches, lists_all(spec)),
    )
}

/// The column at which the explanations start.
pub open spec fn doc_start(width: usize) -> usize {
    plus(plus(10, width), 4)
}

/// `acc` and then the words `words`, broken into lines that do not pass the
/// width of a line where a word boundary allows it. `pos` is the column
/// reached. A new line starts below the start of the explanation; white
/// space at the start of a line is left out.
pub open spec fn wrapped(
    acc: Seq<char>,
    words: Seq<Seq<char>>,
    pos: usize,
    width: usize,
    newline: Seq<char>,
) -> Seq<char>
    decreases words.len(),
{
    if words.len() == 0 {
        acc
    } else {
        let word = words[0];
        let word_len = length_of_count(grapheme_count(word));
        let breaks = word_len + pos > LINE_WIDTH;
        let acc = if breaks {
            acc + newline + "          "@ + spaces(plus(width, 4))
        } else {
            acc
        };
        let pos = if breaks {
            doc_start(width)
        } else {
            pos
        };
        if is_blank(word) && pos == doc_start(width) {
            wrapped(acc, words.drop_first(), pos, width, newline)
        } else {
            wrapped(acc + word, words.drop_first(), plus(pos, word_len), width, newline)
        }
    }
}

/// A count as a length.
pub open spec fn length_of_count(count: nat) -> usize {
    if count > usize::MAX {
        usize::MAX
    } else {
        count as usize
    }
}

/// `acc` and then the entry of one argument in the list of arguments: its
/// name as it is given, and its explanation, broken into lines. An argument
/// without an explanation has an entry only where every argument is listed.
pub open spec fn entry(
    acc: Seq<char>,
    name: Seq<char>,
    doc: Option<Seq<char>>,
    kind: SwitchKind,
    all: bool,
    width: usize,
    newline: Seq<char>,
) -> Seq<char> {
    match doc {
        Some(doc) => if doc.len() > 0 || all {
            let acc = match kind {
                SwitchKind::Normal { abbr: Some(abbr), .. } => acc + newline + "        -"@
                    + seq![abbr] + ", --"@ + hyphenated(name),
                SwitchKind::Normal { abbr: None, .. } => acc + newline + "        --"@
                    + hyphenated(name),
                SwitchKind::Inverted => acc + newline + "        --no-"@ + hyphenated(name),
            };
            let name_len = plus(length(name), kind_width(kind));
            let acc = acc + spaces(minus(plus(width, 4), name_len));
            wrapped(acc, word_bounds(doc), doc_start(width), width, newline)
        } else {
            acc
        },
        None => if all {
            let acc = match kind {
                SwitchKind::Normal { abbr: Some(abbr), .. } => acc + newline + "        -"@
                    + seq![abbr] + ", --"@,
                SwitchKind::Normal { abbr: None, .. } => acc + newline + "        --"@,
                SwitchKind::Inverted => acc + "no-"@,
            };
            acc + hyphenated(name) + newline
        } else {
            acc
        },
    }
}

/// `acc` and then the entries of the parameters that can be given on the
/// command line, in their order.
pub open spec fn param_entries(
    acc: Seq<char>,
    params: Seq<ParamView>,
    all: bool,
    width: usize,
    newline: Seq<char>,
) -> Seq<char>
    decreases params.len(),
{
    if params.len() == 0 {
        acc
    } else {
        let acc = param_entries(acc, params.drop_last(), all, width, newline);
        let p = params.last();
        if p.argument {
            entry(
                acc,
                p.name,
                p.doc,
                SwitchKind::Normal { abbr: p.abbr, count: false },
                all,
                width,
                newline,
            )
        } else {
            acc
        }
    }
}

/// `acc` and then the entries of the switches, in their order.
pub open spec fn switch_entries(
    acc: Seq<char>,
    switches: Seq<SwitchView>,
    all: bool,
    width: usize,
    newline: Seq<char>,
) -> Seq<char>
    decreases switches.len(),
{
    if switches.len() == 0 {
        acc
    } else {
        let acc = switch_entries(acc, switches.drop_last(), all, width, newline);
        let s = switches.last();
        entry(acc, s.name, s.doc, s.kind, all, width, newline)
    }
}

/// `acc` and then the list of arguments, if any argument is listed: the
/// general options, the parameters, the switches.
pub open spec fn list_of_arguments(acc: Seq<char>, spec: ConfigView, newline: Seq<char>) -> Seq<
    char,
> {
    let width = names_width(spec);
    let all = lists_all(spec);
    if width > 0 {
        let acc = acc + newline + newline + "Arguments:"@;
        let plain = SwitchKind::Normal { abbr: None, count: false };
        let acc = match spec.general.conf_file_param {
            Some(name) => entry(
                acc,
                name,
                Some("Load configuration from this file."@),
                plain,
                all,
                width,
                newline,
            ),
            None => acc,
        };
        let acc = match spec.general.conf_dir_param {
            Some(name) => entry(
                acc,
                name,
                Some("Load configuration from files in this directory."@),
                plain,
                all,
                width,
                newline,
            ),
            None => acc,
        };
        switch_entries(
            param_entries(acc, spec.params, all, width, newline),
            spec.switches,
            all,
            width,
            newline,
        )
    } else {
        acc
    }
}

/// `acc` and then what follows the name of the program in the text that
/// tells how it is called. `newline` ends a line.
pub open spec fn synopsis(acc: Seq<char>, spec: ConfigView, newline: Seq<char>) -> Seq<char> {
    list_of_arguments(line_of_arguments(acc, spec), spec, newline)
}

/// The text that tells how the program `program_name` is called.
pub open spec fn usage_text(spec: ConfigView, program_name: Seq<char>) -> Seq<char> {
    synopsis("Usage: "@ + program_name, spec, "\n"@)
}

/// Computes [`length`].
fn text_length(text: &str) -> (n: usize)
    ensures
        n == length(text@),
{
    text.unicode_len()
}

/// Computes [`optional_width`].
fn width_of_optional(name: &Option<Ident>, extra: usize) -> (n: usize)
    ensures
        n == optional_width(name.deep_view(), extra),
{
    match name {
        Some(name) => sum(text_length(name.as_snake_case()), extra),
        None => 0,
    }
}

/// Computes [`arguments_width`].
pub fn width_of_arguments(spec: &Config) -> (n: usize)
    ensures
        n == arguments_width(spec.deep_view()),
{
    let ghost params = spec.params.deep_view();
    let mut of_params: usize = 0;
    let mut i: usize = 0;
    proof {
        assert(params.take(0) =~= Seq::empty());
    }
    while i < spec.params.len()
        invariant
            i <= spec.params.len(),
            params == spec.params.deep_view(),
            of_params == params_width(params.take(i as int)),
        decreases spec.params.len() - i,
    {
        proof {
            assert(params.take(i + 1).drop_last() =~= params.take(i as int));
        }
        let param = &spec.params[i];
        if param.argument {
            let n = text_length(param.name.as_snake_case());
            of_params = sum(of_params, sum(sum(n, n), 6));
        }
        i = i + 1;
    }
    let ghost switches = spec.switches.deep_view();
    let mut of_switches: usize = 0;
    let mut j: usize = 0;
    proof {
        assert(params.take(params.len() as int) =~= params);
        assert(switches.take(0) =~= Seq::empty());
    }
    while j < spec.switches.len()
        invariant
            j <= spec.switches.len(),
            switches == spec.switches.deep_view(),
            of_switches == switches_width(switches.take(j as int)),
        decreases spec.switches.len() - j,
    {
        proof {
            assert(switches.take(j + 1).drop_last() =~= switches.take(j as int));
        }
        let switch = &spec.switches[j];
        let extra: usize = if switch.is_inverted() {
            8
        } else {
            5
        };
        of_switches = sum(of_switches, sum(text_length(switch.name.as_snake_case()), extra));
        j = j + 1;
    }
    proof {
        assert(switches.take(switches.len() as int) =~= switches);
    }
    sum(
        sum(sum(of_params, of_switches), width_of_optional(&spec.general.conf_file_param, 15)),
        width_of_optional(&spec.general.conf_dir_param, 14),
    )
}

/// Writes how one parameter is given.
fn push_param_usage(out: &mut String, param: &Param)
    ensures
        final(out)@ == param_usage(old(out)@, param.deep_view()),
{
    if param.argument {
        let upper = param.name.as_upper_case();
        match param.abbr {
            Some(abbr) => {
                out.append(" [-");
                out.push(abbr);
                out.append(" ");
                out.append(upper.as_str());
                out.append("|--");
                proof {
                    assert(old(out)@ + " [-"@ + seq![abbr] =~= (old(out)@ + " [-"@).push(abbr));
                }
            },
            None => {
                out.append(" [--");
            },
        }
        out.append(param.name.as_hypenated().as_str());
        out.append(" ");
        out.append(upper.as_str());
        out.append("]");
    }
}

/// Writes how one switch is given.
fn push_switch_usage(out: &mut String, switch: &Switch)
    ensures
        final(out)@ == switch_usage(old(out)@, switch.deep_view()),
{
    match switch.abbr() {
        Some(abbr) => {
            out.append(" [-");
            out.push(abbr);
            out.append("|--");
            proof {
                assert(old(out)@ + " [-"@ + seq![abbr] =~= (old(out)@ + " [-"@).push(abbr));
            }
        },
        None => {
            out.append(" [--");
        },
    }
    if switch.is_inverted() {
        out.append("no-");
    }
    out.append(switch.name.as_hypenated().as_str());
    if switch.is_count() {
        out.append(" ...");
    }
    out.append("]");
}

/// Writes the arguments as they stand in the line of arguments.
pub fn push_line_of_arguments(out: &mut String, spec: &Config)
    ensures
        final(out)@ == line_of_arguments(old(out)@, spec.deep_view()),
{
    if width_of_arguments(spec) < LINE_ROOM {
        match &spec.general.conf_file_param {
            Some(name) => {
                out.append(" [--");
                out.append(name.as_hypenated().as_str());
                out.append(" CONF_FILE]");
            },
            None => {},
        }
        match &spec.general.conf_dir_param {
            Some(name) => {
                out.append(" [--");
                out.append(name.as_hypenated().as_str());
                out.append(" CONF_DIR]");
            },
            None => {},
        }
        let ghost start = out@;
        let ghost params = spec.params.deep_view();
        let mut i: usize = 0;
        proof {
            assert(params.take(0) =~= Seq::empty());
        }
        while i < spec.params.len()
            invariant
                i <= spec.params.len(),
                params == spec.params.deep_view(),
                out@ == params_usage(start, params.take(i as int)),
            decreases spec.params.len() - i,
        {
            proof {
                assert(params.take(i + 1).drop_last() =~= params.take(i as int));
            }
            push_param_usage(out, &spec.params[i]);
            i = i + 1;
        }
        let ghost middle = out@;
        let ghost switches = spec.switches.deep_view();
        let mut j: usize = 0;
        proof {
            assert(params.take(params.len() as int) =~= params);
            assert(switches.take(0) =~= Seq::empty());
        }
        while j < spec.switches.len()
            invariant
                j <= spec.switches.len(),
                switches == spec.switches.deep_view(),
                out@ == switches_usage(middle, switches.take(j as int)),
            decreases spec.switches.len() - j,
        {
            proof {
                assert(switches.take(j + 1).drop_last() =~= switches.take(j as int));
            }
            push_switch_usage(out, &spec.switches[j]);
            j = j + 1;
        }
        proof {
            assert(switches.take(switches.len() as int) =~= switches);
        }
    } else {
        out.append(" [ARGUMENTS...]");
    }
}

/// Computes [`kind_width`].
fn width_of_kind(kind: SwitchKind) -> (n: usize)
    ensures
        n == kind_width(kind),
{
    match kind {
        SwitchKind::Normal { abbr: Some(_), .. } => 4,
        SwitchKind::Inverted => 3,
        _ => 0,
    }
}

/// Computes [`names_width`].
pub fn width_of_names(spec: &Config) -> (n: usize)
    ensures
        n == names_width(spec.deep_view()),
{
    let all = width_of_arguments(spec) > LINE_ROOM;
    let ghost params = spec.params.deep_view();
    let mut of_params: usize = 0;
    let mut i: usize = 0;
    proof {
        assert(params.take(0) =~= Seq::empty());
    }
    while i < spec.params.len()
        invariant
            i <= spec.params.len(),
            params == spec.params.deep_view(),
            of_params == widest_param(params.take(i as int), all),
        decreases spec.params.len() - i,
    {
        proof {
            assert(params.take(i + 1).drop_last() =~= params.take(i as int));
        }
        let param = &spec.params[i];
        if param.argument && (all || param.doc.is_some()) {
            let extra: usize = if param.abbr.is_some() {
                4
            } else {
                0
            };
            of_params = max(of_params, sum(text_length(param.name.as_snake_case()), extra));
        }
        i = i + 1;
    }
    let ghost switches = spec.switches.deep_view();
    let mut of_switches: usize = 0;
    let mut j: usize = 0;
    proof {
        assert(params.take(params.len() as int) =~= params);
        assert(switches.take(0) =~= Seq::empty());
    }
    while j < spec.switches.len()
        invariant
            j <= spec.switches.len(),
            switches == spec.switches.deep_view(),
            of_switches == widest_switch(switches.take(j as int), all),
        decreases spec.switches.len() - j,
    {
        proof {
            assert(switches.take(j + 1).drop_last() =~= switches.take(j as int));
        }
        let switch = &spec.switches[j];
        if all || switch.doc.is_some() {
            of_switches = max(
                of_switches,
                sum(text_length(switch.name.as_snake_case()), width_of_kind(switch.kind)),
            );
        }
        j = j + 1;
    }
    proof {
        assert(switches.take(switches.len() as int) =~= switches);
    }
    max(
        max(
            max(of_params, width_of_optional(&spec.general.conf_file_param, 0)),
            width_of_optional(&spec.general.conf_dir_param, 0),
        ),
        of_switches,
    )
}

/// Writes the words of an explanation, broken into lines.
fn push_wrapped(out: &mut String, doc: &str, width: usize, newline: &str)
    ensures
        final(out)@ == wrapped(old(out)@, word_bounds(doc@), doc_start(width), width, newline@),
{
    let words = split_word_bounds(doc);
    let ghost all = words.deep_view();
    let start = sum(sum(10, width), 4);
    let mut pos = start;
    let mut i: usize = 0;
    proof {
        assert(all.skip(0) =~= all);
    }
    while i < words.len()
        invariant
            i <= words.len(),
            all == words.deep_view(),
            start == doc_start(width),
            wrapped(out@, all.skip(i as int), pos, width, newline@) == wrapped(
                old(out)@,
                all,
                doc_start(width),
                width,
                newline@,
            ),
        decreases words.len() - i,
    {
        let word = words[i].as_str();
        proof {
            assert(all.skip(i as int)[0] == word@);
            assert(all.skip(i as int).drop_first() =~= all.skip(i + 1));
        }
        let word_len = count_graphemes(word);
        if pos > LINE_WIDTH || word_len > LINE_WIDTH - pos {
            out.append(newline);
            out.append("          ");
            push_spaces(out, sum(width, 4));
            pos = start;
        }
        if !(blank(word) && pos == start) {
            out.append(word);
            pos = sum(pos, word_len);
        }
        i = i + 1;
    }
}

/// Writes the entry of one argument in the list of arguments.
fn push_entry(
    out: &mut String,
    name: &Ident,
    doc: &Option<String>,
    kind: SwitchKind,
    all: bool,
    width: usize,
    newline: &str,
)
    ensures
        final(out)@ == entry(
            old(out)@,
            name.deep_view(),
            doc.deep_view(),
            kind,
            all,
            width,
            newline@,
        ),
{
    match doc {
        Some(doc) => {
            if doc.as_str().unicode_len() > 0 || all {
                match kind {
                    SwitchKind::Normal { abbr: Some(abbr), .. } => {
                        out.append(newline);
                        out.append("        -");
                        out.push(abbr);
                        out.append(", --");
                        out.append(name.as_hypenated().as_str());
                        proof {
                            assert(old(out)@ + newline@ + "        -"@ + seq![abbr] =~= (old(out)@
                                + newline@ + "        -"@).push(abbr));
                        }
                    },
                    SwitchKind::Normal { abbr: None, .. } => {
                        out.append(newline);
                        out.append("        --");
                        out.append(name.as_hypenated().as_str());
                    },
                    SwitchKind::Inverted => {
                        out.append(newline);
                        out.append("        --no-");
                        out.append(name.as_hypenated().as_str());
                    },
                }
                let name_len = sum(text_length(name.as_snake_case()), width_of_kind(kind));
                push_spaces(out, difference(sum(width, 4), name_len));
                push_wrapped(out, doc.as_str(), width, newline);
            }
        },
        None => {
            if all {
                match kind {
                    SwitchKind::Normal { abbr: Some(abbr), .. } => {
                        out.append(newline);
                        out.append("        -");
                        out.push(abbr);
                        out.append(", --");
                        proof {
                            assert(old(out)@ + newline@ + "        -"@ + seq![abbr] =~= (old(out)@
                                + newline@ + "        -"@).push(abbr));
                        }
                    },
                    SwitchKind::Normal { abbr: None, .. } => {
                        out.append(newline);
                        out.append("        --");
                    },
                    SwitchKind::Inverted => {
                        out.append("no-");
                    },
                }
                out.append(name.as_hypenated().as_str());
                out.append(newline);
            }
        },
    }
}

/// Writes the list of arguments, if any argument is listed.
pub fn push_list_of_arguments(out: &mut String, spec: &Config, newline: &str)
    ensures
        final(out)@ == list_of_arguments(old(out)@, spec.deep_view(), newline@),
{
    let width = width_of_names(spec);
    let all = width_of_arguments(spec) > LINE_ROOM;
    if width > 0 {
        out.append(newline);
        out.append(newline);
        out.append("Arguments:");
        let plain = SwitchKind::Normal { abbr: None, count: false };
        match &spec.general.conf_file_param {
            Some(name) => {
                let doc = Some(String::from_str("Load configuration from this file."));
                push_entry(out, name, &doc, plain, all, width, newline);
            },
            None => {},
        }
        match &spec.general.conf_dir_param {
            Some(name) => {
                let doc = Some(
                    String::from_str("Load configuration from files in this directory."),
                );
                push_entry(out, name, &doc, plain, all, width, newline);
            },
            None => {},
        }
        let ghost start = out@;
        let ghost params = spec.params.deep_view();
        let mut i: usize = 0;
        proof {
            assert(params.take(0) =~= Seq::empty());
        }
        while i < spec.params.len()
            invariant
                i <= spec.params.len(),
                params == spec.params.deep_view(),
                out@ == param_entries(start, params.take(i as int), all, width, newline@),
            decreases spec.params.len() - i,
        {
            proof {
                assert(params.take(i + 1).drop_last() =~= params.take(i as int));
            }
            let param = &spec.params[i];
            if param.argument {
                push_entry(
                    out,
                    &param.name,
                    &param.doc,
                    SwitchKind::Normal { abbr: param.abbr, count: false },
                    all,
                    width,
                    newline,
                );
            }
            i = i + 1;
        }
        let ghost middle = out@;
        let ghost switches = spec.switches.deep_view();
        let mut j: usize = 0;
        proof {
            assert(params.take(params.len() as int) =~= params);
            assert(switches.take(0) =~= Seq::empty());
        }
        while j < spec.switches.len()
            invariant
                j <= spec.switches.len(),
                switches == spec.switches.deep_view(),
                out@ == switch_entries(middle, switches.take(j as int), all, width, newline@),
            decreases spec.switches.len() - j,
        {
            proof {
                assert(switches.take(j + 1).drop_last() =~= switches.take(j as int));
            }
            let switch = &spec.switches[j];
            push_entry(out, &switch.name, &switch.doc, switch.kind, all, width, newline);
            j = j + 1;
        }
        proof {
            assert(switches.take(switches.len() as int) =~= switches);
        }
    }
}

/// Writes what follows the name of the program in the text that tells how
/// it is called.
pub fn push_synopsis(out: &mut String, spec: &Config, newline: &str)
    ensures
        final(out)@ == synopsis(old(out)@, spec.deep_view(), newline@),
{
    push_line_of_arguments(out, spec);
    push_list_of_arguments(out, spec, newline);
}

/// The text that tells how the program `program_name` is called: a line
/// with its arguments, and below it the list of those that are explained.
pub fn usage(spec: &Config, program_name: &str) -> (text: String)
    ensures
        text@ == usage_text(spec.deep_view(), program_name@),
{
    let mut out = String::from_str("Usage: ");
    out.append(program_name);
    push_synopsis(&mut out, spec, "\n");
    out
}

} // verus!
