//! What the manual page of a program says of its configuration.

use vstd::prelude::*;
use crate::config::{
    kind_abbr, kind_is_inverted, Config, ConfigView, Optionality, OptionalityView, Param,
    ParamView, Switch, SwitchView,
};
use crate::ident::{hyphenated, upper_case, Ident};
use crate::manifest;
use crate::segment::is_white_space;
use crate::views::{lemma_deep_view_empty, lemma_deep_view_push};

verus! {

/// One of those who wrote the program.
#[derive(Debug, PartialEq, Eq)]
pub struct Author {
    pub name: String,
    pub email: Option<String>,
}

/// An option that takes a value.
#[derive(Debug, PartialEq, Eq)]
pub struct Opt {
    /// The word that stands for the value.
    pub name: String,
    pub long: String,
    pub short: Option<String>,
    pub help: Option<String>,
    pub default_value: Option<String>,
}

/// An option that takes no value.
#[derive(Debug, PartialEq, Eq)]
pub struct Flag {
    pub long: String,
    pub short: Option<String>,
    pub help: Option<String>,
}

/// An environment variable that the program reads.
#[derive(Debug, PartialEq, Eq)]
pub struct Env {
    pub name: String,
    pub help: Option<String>,
    pub default_value: Option<String>,
}

/// What a manual page says of a program.
#[derive(Debug, PartialEq, Eq)]
pub struct ManPage {
    pub name: String,
    pub about: Option<String>,
    pub authors: Vec<Author>,
    pub description: Option<String>,
    pub options: Vec<Opt>,
    pub flags: Vec<Flag>,
    pub envs: Vec<Env>,
}

/// What the manifest of a package says of the package itself.
#[derive(Debug)]
pub struct PackageInfo {
    pub name: String,
    pub description: Option<String>,
    pub authors: Vec<String>,
}

/// What an [`Author`] stands for in contracts: the name, and the address.
pub open spec fn author_view(author: Author) -> (Seq<char>, Option<Seq<char>>) {
    (author.name@, author.email.deep_view())
}

/// What an [`Opt`] stands for in contracts.
pub struct OptView {
    pub name: Seq<char>,
    pub long: Seq<char>,
    pub short: Option<Seq<char>>,
    pub help: Option<Seq<char>>,
    pub default_value: Option<Seq<char>>,
}

impl DeepView for Opt {
    type V = OptView;

    open spec fn deep_view(&self) -> OptView {
        OptView {
            name: self.name@,
            long: self.long@,
            short: self.short.deep_view(),
            help: self.help.deep_view(),
            default_value: self.default_value.deep_view(),
        }
    }
}

/// What a [`Flag`] stands for in contracts.
pub struct FlagView {
    pub long: Seq<char>,
    pub short: Option<Seq<char>>,
    pub help: Option<Seq<char>>,
}

impl DeepView for Flag {
    type V = FlagView;

    open spec fn deep_view(&self) -> FlagView {
        FlagView { long: self.long@, short: self.short.deep_view(), help: self.help.deep_view() }
    }
}

/// What an [`Env`] stands for in contracts.
pub struct EnvView {
    pub name: Seq<char>,
    pub help: Option<Seq<char>>,
    pub default_value: Option<Seq<char>>,
}

impl DeepView for Env {
    type V = EnvView;

    open spec fn deep_view(&self) -> EnvView {
        EnvView {
            name: self.name@,
            help: self.help.deep_view(),
            default_value: self.default_value.deep_view(),
        }
    }
}

/// Whether `c` is taken off the ends of a text: white space, or, for an
/// address, the bracket that closes it.
pub open spec fn is_stripped(c: char, closing: bool) -> bool {
    if closing {
        c == '>'
    } else {
        is_white_space(c)
    }
}

/// The number of characters at the start of `text` that are taken off.
pub open spec fn leading(text: Seq<char>, closing: bool) -> nat
    decreases text.len(),
{
    if text.len() > 0 && is_stripped(text[0], closing) {
        1 + leading(text.drop_first(), closing)
    } else {
        0
    }
}

/// The number of characters at the end of `text` that are taken off.
pub open spec fn trailing(text: Seq<char>, closing: bool) -> nat
    decreases text.len(),
{
    if text.len() > 0 && is_stripped(text.last(), closing) {
        1 + trailing(text.drop_last(), closing)
    } else {
        0
    }
}

/// `text` without the characters at its ends that are taken off.
pub open spec fn stripped(text: Seq<char>, closing: bool) -> Seq<char> {
    let rest = text.skip(leading(text, closing) as int);
    rest.take(rest.len() - trailing(rest, closing))
}

/// The number of characters of `text` in front of the first `<`.
pub open spec fn before_bracket(text: Seq<char>) -> nat
    decreases text.len(),
{
    if text.len() > 0 && text[0] != '<' {
        1 + before_bracket(text.drop_first())
    } else {
        0
    }
}

/// The stretch of `text` in front of its first `<`.
pub open spec fn first_part(text: Seq<char>) -> Seq<char> {
    text.take(before_bracket(text) as int)
}

/// What follows the first `<` of `text`, if it has one.
pub open spec fn behind_bracket(text: Seq<char>) -> Option<Seq<char>> {
    if before_bracket(text) < text.len() {
        Some(text.skip(before_bracket(text) as int + 1))
    } else {
        None
    }
}

/// The author that an entry of a manifest names: the name is what stands in
/// front of the first `<`, without white space at its ends; the address is
/// what stands between the first `<` and the next, without white space and
/// without closing brackets at its ends.
pub open spec fn author_of(entry: Seq<char>) -> (Seq<char>, Option<Seq<char>>) {
    (
        stripped(first_part(entry), false),
        match behind_bracket(entry) {
            Some(rest) => Some(stripped(stripped(first_part(rest), false), true)),
            None => None,
        },
    )
}

proof fn lemma_leading(text: Seq<char>, closing: bool, i: nat)
    requires
        i <= text.len(),
        forall|k: int| 0 <= k < i ==> is_stripped(#[trigger] text[k], closing),
    ensures
        leading(text, closing) == i + leading(text.skip(i as int), closing),
    decreases i,
{
    if i > 0 {
        assert(text.drop_first().skip(i - 1) =~= text.skip(i as int));
        assert forall|k: int| 0 <= k < i - 1 implies is_stripped(
            #[trigger] text.drop_first()[k],
            closing,
        ) by {
            assert(text.drop_first()[k] == text[k + 1]);
        }
        lemma_leading(text.drop_first(), closing, (i - 1) as nat);
    } else {
        assert(text.skip(0) =~= text);
    }
}

proof fn lemma_trailing(text: Seq<char>, closing: bool, j: nat)
    requires
        j <= text.len(),
        forall|k: int| j <= k < text.len() ==> is_stripped(#[trigger] text[k], closing),
    ensures
        trailing(text, closing) == (text.len() - j) + trailing(text.take(j as int), closing),
    decreases text.len() - j,
{
    if j < text.len() {
        assert(text.drop_last().take(j as int) =~= text.take(j as int));
        assert forall|k: int| j <= k < text.len() - 1 implies is_stripped(
            #[trigger] text.drop_last()[k],
            closing,
        ) by {
            assert(text.drop_last()[k] == text[k]);
        }
        lemma_trailing(text.drop_last(), closing, j);
    } else {
        assert(text.take(j as int) =~= text);
    }
}

proof fn lemma_before_bracket(text: Seq<char>, i: nat)
    requires
        i <= text.len(),
        forall|k: int| 0 <= k < i ==> #[trigger] text[k] != '<',
    ensures
        before_bracket(text) == i + before_bracket(text.skip(i as int)),
    decreases i,
{
    if i > 0 {
        assert(text.drop_first().skip(i - 1) =~= text.skip(i as int));
        assert forall|k: int| 0 <= k < i - 1 implies #[trigger] text.drop_first()[k] != '<' by {
            assert(text.drop_first()[k] == text[k + 1]);
        }
        lemma_before_bracket(text.drop_first(), (i - 1) as nat);
    } else {
        assert(text.skip(0) =~= text);
    }
}

/// Computes [`is_stripped`].
fn strips(c: char, closing: bool) -> (r: bool)
    ensures
        r == is_stripped(c, closing),
{
    if closing {
        c == '>'
    } else {
        c.is_whitespace()
    }
}

/// Computes [`stripped`].
pub fn strip(text: &str, closing: bool) -> (r: String)
    ensures
        r@ == stripped(text@, closing),
{
    let n = text.unicode_len();
    let mut i: usize = 0;
    while i < n && strips(text.get_char(i), closing)
        invariant
            i <= n,
            n == text@.len(),
            forall|k: int| 0 <= k < i ==> is_stripped(#[trigger] text@[k], closing),
        decreases n - i,
    {
        i = i + 1;
    }
    let mut j: usize = n;
    while j > i && strips(text.get_char(j - 1), closing)
        invariant
            i <= j <= n,
            n == text@.len(),
            forall|k: int| j <= k < n ==> is_stripped(#[trigger] text@[k], closing),
        decreases j,
    {
        j = j - 1;
    }
    proof {
        lemma_leading(text@, closing, i as nat);
        let rest = text@.skip(i as int);
        if i < n {
            assert(rest[0] == text@[i as int]);
        }
        assert(leading(rest, closing) == 0);
        assert forall|k: int| j - i <= k < rest.len() implies is_stripped(
            #[trigger] rest[k],
            closing,
        ) by {
            assert(rest[k] == text@[k + i]);
        }
        lemma_trailing(rest, closing, (j - i) as nat);
        let kept = rest.take(j - i);
        if j > i {
            assert(kept.last() == text@[j - 1]);
        }
        assert(trailing(kept, closing) == 0);
        assert(kept =~= text@.subrange(i as int, j as int));
    }
    crate::text::copy_str(text.substring_char(i, j))
}

/// Computes [`author_of`].
pub fn parse_author(entry: &str) -> (author: Author)
    ensures
        author_view(author) == author_of(entry@),
{
    let n = entry.unicode_len();
    let mut i: usize = 0;
    while i < n && entry.get_char(i) != '<'
        invariant
            i <= n,
            n == entry@.len(),
            forall|k: int| 0 <= k < i ==> #[trigger] entry@[k] != '<',
        decreases n - i,
    {
        i = i + 1;
    }
    proof {
        lemma_before_bracket(entry@, i as nat);
        if i < n {
            assert(entry@.skip(i as int)[0] == entry@[i as int]);
        }
        assert(before_bracket(entry@) == i);
        assert(entry@.subrange(0, i as int) =~= first_part(entry@));
    }
    let name = strip(entry.substring_char(0, i), false);
    if i < n {
        let rest = entry.substring_char(i + 1, n);
        assert(rest@ =~= entry@.skip(i + 1));
        let m = rest.unicode_len();
        let mut j: usize = 0;
        while j < m && rest.get_char(j) != '<'
            invariant
                j <= m,
                m == rest@.len(),
                forall|k: int| 0 <= k < j ==> #[trigger] rest@[k] != '<',
            decreases m - j,
        {
            j = j + 1;
        }
        proof {
            lemma_before_bracket(rest@, j as nat);
            if j < m {
                assert(rest@.skip(j as int)[0] == rest@[j as int]);
            }
            assert(before_bracket(rest@) == j);
            assert(rest@.subrange(0, j as int) =~= first_part(rest@));
        }
        let email = strip(strip(rest.substring_char(0, j), false).as_str(), true);
        Author { name, email: Some(email) }
    } else {
        Author { name, email: None }
    }
}

/// The long option of a name, with dashes for its underscores.
pub fn param_long_raw(param: &str) -> (option: String)
    ensures
        option@ == "--"@ + hyphenated(param@),
{
    let mut out = String::from_str("--");
    for c in it: param.chars()
        invariant
            it.seq() == param@,
            out@ == "--"@ + hyphenated(param@.take(it.index())),
    {
        proof {
            assert(hyphenated(param@.take(it.index() + 1)) =~= hyphenated(
                param@.take(it.index()),
            ).push(
                if c == '_' {
                    '-'
                } else {
                    c
                },
            ));
            assert(("--"@ + hyphenated(param@.take(it.index()))).push(
                if c == '_' {
                    '-'
                } else {
                    c
                },
            ) =~= "--"@ + hyphenated(param@.take(it.index() + 1)));
        }
        if c == '_' {
            out.push('-');
        } else {
            out.push(c);
        }
    }
    proof {
        assert(param@.take(param@.len() as int) =~= param@);
        assert(hyphenated(param@.take(0)) =~= Seq::<char>::empty());
    }
    out
}

/// The long option of a parameter.
pub fn param_long(param: &Param) -> (option: String)
    ensures
        option@ == "--"@ + hyphenated(param.deep_view().name),
{
    param_long_raw(param.name.as_snake_case())
}

/// The long option of a switch as the manual page names it: the name of
/// the switch as it is declared, behind `--`, or behind `--no-` for a switch
/// that is on by default.
pub open spec fn switch_long_name(s: SwitchView) -> Seq<char> {
    if kind_is_inverted(s.kind) {
        "--no-"@ + s.name
    } else {
        "--"@ + s.name
    }
}

/// Computes [`switch_long_name`].
pub fn switch_long(switch: &Switch) -> (option: String)
    ensures
        option@ == switch_long_name(switch.deep_view()),
{
    let mut out = if switch.is_inverted() {
        String::from_str("--no-")
    } else {
        String::from_str("--")
    };
    out.append(switch.name.as_snake_case());
    out
}

/// The short option `abbr` as it is written, if there is one.
pub open spec fn short_name(abbr: Option<char>) -> Option<Seq<char>> {
    match abbr {
        Some(abbr) => Some("-"@.push(abbr)),
        None => None,
    }
}

fn short_of(abbr: Option<char>) -> (option: Option<String>)
    ensures
        option.deep_view() == short_name(abbr),
{
    match abbr {
        Some(abbr) => {
            let mut out = String::from_str("-");
            out.push(abbr);
            Some(out)
        },
        None => None,
    }
}

/// The short option of a parameter, if it has one.
pub fn param_short(param: &Param) -> (option: Option<String>)
    ensures
        option.deep_view() == short_name(param.abbr),
{
    short_of(param.abbr)
}

/// The short option of a switch, if it has one.
pub fn switch_short(switch: &Switch) -> (option: Option<String>)
    ensures
        option.deep_view() == short_name(kind_abbr(switch.kind)),
{
    short_of(switch.abbr())
}

/// The default of a parameter, if it has one.
pub open spec fn default_of(optionality: OptionalityView) -> Option<Seq<char>> {
    match optionality {
        OptionalityView::DefaultValue(value) => Some(value),
        _ => None,
    }
}

fn default_value(optionality: &Optionality) -> (value: Option<String>)
    ensures
        value.deep_view() == default_of(optionality.deep_view()),
{
    match optionality {
        Optionality::DefaultValue(value) => Some(value.clone()),
        _ => None,
    }
}

fn copy_option(text: &Option<String>) -> (copy: Option<String>)
    ensures
        copy.deep_view() == text.deep_view(),
{
    match text {
        Some(text) => Some(text.clone()),
        None => None,
    }
}

/// The option of an optional general option that takes the value `value`.
pub open spec fn general_option(
    name: Option<Seq<char>>,
    value: Seq<char>,
    help: Seq<char>,
) -> Seq<OptView> {
    match name {
        Some(name) => seq![
            OptView {
                name: value,
                long: "--"@ + hyphenated(name),
                short: None,
                help: Some(help),
                default_value: None,
            },
        ],
        None => Seq::empty(),
    }
}

/// The option of the parameter `p`.
pub open spec fn option_of(p: ParamView) -> OptView {
    OptView {
        name: upper_case(p.name),
        long: "--"@ + hyphenated(p.name),
        short: short_name(p.abbr),
        help: p.doc,
        default_value: default_of(p.optionality),
    }
}

/// The options of those of `params` that can be given on the command line.
pub open spec fn options_of(params: Seq<ParamView>) -> Seq<OptView>
    decreases params.len(),
{
    if params.len() == 0 {
        Seq::empty()
    } else if params.last().argument {
        options_of(params.drop_last()).push(option_of(params.last()))
    } else {
        options_of(params.drop_last())
    }
}

/// The flag of the switch `s`.
pub open spec fn flag_of(s: SwitchView) -> FlagView {
    FlagView { long: switch_long_name(s), short: short_name(kind_abbr(s.kind)), help: s.doc }
}

/// The prefix of the names of the environment variables as the manual page
/// writes it: as it is declared, with an underscore behind it.
pub open spec fn env_prefix(prefix: Option<Seq<char>>) -> Seq<char> {
    match prefix {
        Some(prefix) => prefix + "_"@,
        None => Seq::empty(),
    }
}

/// The environment variable of the parameter `p`.
pub open spec fn env_of_param(prefix: Seq<char>, p: ParamView) -> EnvView {
    EnvView {
        name: prefix + upper_case(p.name),
        help: p.doc,
        default_value: default_of(p.optionality),
    }
}

/// The environment variable of the switch `s`.
pub open spec fn env_of_switch(prefix: Seq<char>, s: SwitchView) -> EnvView {
    EnvView {
        name: prefix + upper_case(s.name),
        help: s.doc,
        default_value: Some(
            if kind_is_inverted(s.kind) {
                "true"@
            } else {
                "false"@
            },
        ),
    }
}

/// The environment variables of those of `params` that can be given in the
/// environment.
pub open spec fn envs_of_params(prefix: Seq<char>, params: Seq<ParamView>) -> Seq<EnvView>
    decreases params.len(),
{
    if params.len() == 0 {
        Seq::empty()
    } else if params.last().env_var {
        envs_of_params(prefix, params.drop_last()).push(env_of_param(prefix, params.last()))
    } else {
        envs_of_params(prefix, params.drop_last())
    }
}

/// The environment variables of those of `switches` that can be given in
/// the environment.
pub open spec fn envs_of_switches(prefix: Seq<char>, switches: Seq<SwitchView>) -> Seq<EnvView>
    decreases switches.len(),
{
    if switches.len() == 0 {
        Seq::empty()
    } else if switches.last().env_var {
        envs_of_switches(prefix, switches.drop_last()).push(
            env_of_switch(prefix, switches.last()),
        )
    } else {
        envs_of_switches(prefix, switches.drop_last())
    }
}

/// The options of the manual page: those of the general options that load
/// files, then those of the parameters.
pub open spec fn page_options(config: ConfigView) -> Seq<OptView> {
    general_option(
        config.general.conf_file_param,
        "CONFIG_FILE"@,
        "Loads configuration from the specified CONFIG_FILE."@,
    ) + general_option(
        config.general.conf_dir_param,
        "CONFIG_DIR"@,
        "Loads configuration from all files in the directory CONFIG_DIR."@,
    ) + options_of(config.params)
}

/// The flags of the manual page: the switch that keeps the default files
/// from being read, then the switches.
pub open spec fn page_flags(config: ConfigView) -> Seq<FlagView> {
    (match config.general.skip_default_conf_files_switch {
        Some(name) => seq![
            FlagView {
                long: "--"@ + hyphenated(name),
                short: None,
                help: Some("Skip loading default configuration files."@),
            },
        ],
        None => Seq::empty(),
    }) + config.switches.map_values(|s: SwitchView| flag_of(s))
}

/// The environment variables of the manual page: those of the parameters,
/// then those of the switches.
pub open spec fn page_envs(config: ConfigView) -> Seq<EnvView> {
    envs_of_params(env_prefix(config.general.env_prefix), config.params) + envs_of_switches(
        env_prefix(config.general.env_prefix),
        config.switches,
    )
}

/// Whether `page` is the manual page of the program that `config`
/// specifies and `package` contains: the name and the summary are those of
/// the specification, or else those of the package; the authors are those of
/// the package; the rest is as the specification says.
pub open spec fn is_page_of(page: ManPage, config: ConfigView, package: PackageInfo) -> bool {
    &&& page.name@ == match config.general.name {
        Some(name) => name,
        None => package.name@,
    }
    &&& page.about.deep_view() == match config.general.summary {
        Some(summary) => Some(summary),
        None => package.description.deep_view(),
    }
    &&& page.authors@.map_values(|author: Author| author_view(author))
        == package.authors@.map_values(|entry: String| author_of(entry@))
    &&& page.description.deep_view() == config.general.doc
    &&& page.options.deep_view() == page_options(config)
    &&& page.flags.deep_view() == page_flags(config)
    &&& page.envs.deep_view() == page_envs(config)
}

fn push_general_option(options: &mut Vec<Opt>, name: &Option<Ident>, value: &str, help: &str)
    ensures
        final(options).deep_view() == old(options).deep_view() + general_option(
            name.deep_view(),
            value@,
            help@,
        ),
{
    match name {
        Some(name) => {
            let ghost before = *options;
            let option = Opt {
                name: String::from_str(value),
                long: param_long_raw(name.as_snake_case()),
                short: None,
                help: Some(String::from_str(help)),
                default_value: None,
            };
            options.push(option);
            proof {
                lemma_deep_view_push(before, *options, option);
                assert(before.deep_view().push(option.deep_view()) =~= before.deep_view()
                    + seq![option.deep_view()]);
            }
        },
        None => {
            proof {
                assert(options.deep_view() + Seq::<OptView>::empty() =~= options.deep_view());
            }
        },
    }
}

/// What the manual page says of the program that `config` specifies. The
/// page cannot be written without what the manifest says of the package.
pub fn generate_man_page(config: &Config, package: Option<&PackageInfo>) -> (r: Result<
    ManPage,
    manifest::Error,
>)
    ensures
        match r {
            Ok(page) => package matches Some(package) && is_page_of(
                page,
                config.deep_view(),
                *package,
            ),
            Err(error) => package is None && error == manifest::Error::MissingPackage,
        },
{
    let package = match package {
        Some(package) => package,
        None => {
            return Err(manifest::Error::MissingPackage);
        },
    };
    let name = match &config.general.name {
        Some(name) => name.clone(),
        None => package.name.clone(),
    };
    let about = match &config.general.summary {
        Some(summary) => Some(summary.clone()),
        None => copy_option(&package.description),
    };
    let mut authors: Vec<Author> = Vec::new();
    let mut a: usize = 0;
    while a < package.authors.len()
        invariant
            a <= package.authors.len(),
            authors.len() == a,
            forall|k: int|
                0 <= k < a ==> author_view(#[trigger] authors[k]) == author_of(
                    package.authors[k]@,
                ),
        decreases package.authors.len() - a,
    {
        authors.push(parse_author(package.authors[a].as_str()));
        a = a + 1;
    }
    proof {
        assert(authors@.map_values(|author: Author| author_view(author))
            =~= package.authors@.map_values(|entry: String| author_of(entry@)));
    }

    let mut options: Vec<Opt> = Vec::new();
    proof {
        lemma_deep_view_empty(options);
    }
    push_general_option(
        &mut options,
        &config.general.conf_file_param,
        "CONFIG_FILE",
        "Loads configuration from the specified CONFIG_FILE.",
    );
    push_general_option(
        &mut options,
        &config.general.conf_dir_param,
        "CONFIG_DIR",
        "Loads configuration from all files in the directory CONFIG_DIR.",
    );
    let ghost general_options = options.deep_view();
    let ghost params = config.params.deep_view();
    let mut i: usize = 0;
    proof {
        assert(params.take(0) =~= Seq::empty());
        assert(general_options + Seq::<OptView>::empty() =~= general_options);
    }
    while i < config.params.len()
        invariant
            i <= config.params.len(),
            params == config.params.deep_view(),
            options.deep_view() == general_options + options_of(params.take(i as int)),
        decreases config.params.len() - i,
    {
        proof {
            assert(params.take(i + 1).drop_last() =~= params.take(i as int));
        }
        let param = &config.params[i];
        if param.argument {
            let ghost before = options;
            let option = Opt {
                name: param.name.as_upper_case(),
                long: param_long(param),
                short: param_short(param),
                help: copy_option(&param.doc),
                default_value: default_value(&param.optionality),
            };
            options.push(option);
            proof {
                lemma_deep_view_push(before, options, option);
                assert((general_options + options_of(params.take(i as int))).push(
                    option.deep_view(),
                ) =~= general_options + options_of(params.take(i as int)).push(
                    option.deep_view(),
                ));
            }
        }
        i = i + 1;
    }
    proof {
        assert(params.take(params.len() as int) =~= params);
    }

    let mut flags: Vec<Flag> = Vec::new();
    match &config.general.skip_default_conf_files_switch {
        Some(name) => {
            flags.push(
                Flag {
                    long: param_long_raw(name.as_snake_case()),
                    short: None,
                    help: Some(String::from_str("Skip loading default configuration files.")),
                },
            );
        },
        None => {},
    }
    let ghost general_flags = flags.deep_view();
    let mut j: usize = 0;
    while j < config.switches.len()
        invariant
            j <= config.switches.len(),
            flags.len() == general_flags.len() + j,
            forall|k: int|
                0 <= k < general_flags.len() ==> (#[trigger] flags[k]).deep_view()
                    == general_flags[k],
            forall|k: int|
                0 <= k < j ==> (#[trigger] flags[general_flags.len() + k]).deep_view() == flag_of(
                    config.switches[k].deep_view(),
                ),
        decreases config.switches.len() - j,
    {
        let switch = &config.switches[j];
        flags.push(
            Flag {
                long: switch_long(switch),
                short: switch_short(switch),
                help: copy_option(&switch.doc),
            },
        );
        j = j + 1;
    }
    proof {
        let goal = page_flags(config.deep_view());
        assert(flags.deep_view().len() == goal.len());
        assert forall|k: int| 0 <= k < goal.len() implies flags.deep_view()[k] == goal[k] by {
            if k >= general_flags.len() {
                let at = k - general_flags.len();
                assert(flags[general_flags.len() + at].deep_view() == flag_of(
                    config.switches[at].deep_view(),
                ));
            } else {
                assert(flags[k].deep_view() == general_flags[k]);
            }
        }
        assert(flags.deep_view() =~= goal);
    }

    let prefix = match &config.general.env_prefix {
        Some(prefix) => {
            let mut out = prefix.clone();
            out.append("_");
            out
        },
        None => String::new(),
    };
    let mut envs: Vec<Env> = Vec::new();
    let mut i: usize = 0;
    proof {
        lemma_deep_view_empty(envs);
        assert(params.take(0) =~= Seq::empty());
    }
    while i < config.params.len()
        invariant
            i <= config.params.len(),
            params == config.params.deep_view(),
            prefix@ == env_prefix(config.deep_view().general.env_prefix),
            envs.deep_view() == envs_of_params(prefix@, params.take(i as int)),
        decreases config.params.len() - i,
    {
        proof {
            assert(params.take(i + 1).drop_last() =~= params.take(i as int));
        }
        let param = &config.params[i];
        if param.env_var {
            let ghost before = envs;
            let mut name = prefix.clone();
            name.append(param.name.as_upper_case().as_str());
            let env = Env {
                name,
                help: copy_option(&param.doc),
                default_value: default_value(&param.optionality),
            };
            envs.push(env);
            proof {
                lemma_deep_view_push(before, envs, env);
            }
        }
        i = i + 1;
    }
    let ghost param_envs = envs.deep_view();
    let ghost switches = config.switches.deep_view();
    let mut j: usize = 0;
    proof {
        assert(params.take(params.len() as int) =~= params);
        assert(switches.take(0) =~= Seq::empty());
        assert(param_envs + Seq::<EnvView>::empty() =~= param_envs);
    }
    while j < config.switches.len()
        invariant
            j <= config.switches.len(),
            switches == config.switches.deep_view(),
            prefix@ == env_prefix(config.deep_view().general.env_prefix),
            envs.deep_view() == param_envs + envs_of_switches(prefix@, switches.take(j as int)),
        decreases config.switches.len() - j,
    {
        proof {
            assert(switches.take(j + 1).drop_last() =~= switches.take(j as int));
        }
        let switch = &config.switches[j];
        if switch.env_var {
            let ghost before = envs;
            let mut name = prefix.clone();
            name.append(switch.name.as_upper_case().as_str());
            let default = if switch.is_inverted() {
                String::from_str("true")
            } else {
                String::from_str("false")
            };
            let env = Env { name, help: copy_option(&switch.doc), default_value: Some(default) };
            envs.push(env);
            proof {
                lemma_deep_view_push(before, envs, env);
                assert((param_envs + envs_of_switches(prefix@, switches.take(j as int))).push(
                    env.deep_view(),
                ) =~= param_envs + envs_of_switches(prefix@, switches.take(j as int)).push(
                    env.deep_view(),
                ));
            }
        }
        j = j + 1;
    }
    proof {
        assert(switches.take(switches.len() as int) =~= switches);
    }
    Ok(
        ManPage {
            name,
            about,
            authors,
            description: copy_option(&config.general.doc),
            options,
            flags,
            envs,
        },
    )
}

} // verus!
