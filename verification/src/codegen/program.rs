//! The program text as a whole.

use vstd::prelude::*;
use crate::codegen::fields::{combine, push_combine};
use crate::codegen::visitor::{
    iter, written_all, ArgParseErrorDecl, ConfigFinal, ConstructConfig, EnvParseErrorDecl,
    MergeArgs, MergeIn, MergeShort, RawConfigDecl, Validate, VisitWrite,
};
use crate::config::{
    kind_is_count, Config, ConfigView, General, Param, ParamView, ProgramName, Switch,
    SwitchView,
};
use crate::env::{variable_name, variable_name_of};
use crate::ident::{hyphenated, pascal_case};
use crate::usage::{push_synopsis, synopsis};

verus! {

/// `acc` and then the pieces for the parameters and for the switches of the
/// part `T` of the program.
pub open spec fn params_and_switches<T>(config: &Config, acc: Seq<char>) -> Seq<char> where
    Param: VisitWrite<T>,
    Switch: VisitWrite<T>,
 {
    written_all::<T, Switch>(config.switches@, written_all::<T, Param>(config.params@, acc))
}

/// Writes the pieces for the parameters and for the switches of the part
/// `T` of the program.
pub fn write_params_and_switches<T>(config: &Config, output: &mut String) where
    Param: VisitWrite<T>,
    Switch: VisitWrite<T>,

    ensures
        final(output)@ == params_and_switches::<T>(config, old(output)@),
{
    iter::<T, Param>(&config.params, output);
    iter::<T, Switch>(&config.switches, output);
}

/// `acc` and then the pieces for the general options, the parameters and
/// the switches of the part `T` of the program.
pub open spec fn whole_config<T>(config: &Config, acc: Seq<char>) -> Seq<char> where
    Param: VisitWrite<T>,
    Switch: VisitWrite<T>,
    General: VisitWrite<T>,
 {
    params_and_switches::<T>(config, VisitWrite::<T>::written(&config.general, acc))
}

/// Writes the pieces for the general options, the parameters and the
/// switches of the part `T` of the program.
pub fn write_config<T>(config: &Config, output: &mut String) where
    Param: VisitWrite<T>,
    Switch: VisitWrite<T>,
    General: VisitWrite<T>,

    ensures
        final(output)@ == whole_config::<T>(config, old(output)@),
{
    VisitWrite::<T>::visit_write(&config.general, output);
    write_params_and_switches::<T>(config, output);
}

/// Writes the fields of the type that holds what one source gives.
pub fn gen_raw_config(config: &Config, output: &mut String)
    ensures
        final(output)@ == params_and_switches::<RawConfigDecl>(config, old(output)@),
{
    write_params_and_switches::<RawConfigDecl>(config, output);
}

/// Writes the errors of the environment.
pub fn gen_env_parse_error(config: &Config, output: &mut String)
    ensures
        final(output)@ == params_and_switches::<EnvParseErrorDecl>(config, old(output)@),
{
    write_params_and_switches::<EnvParseErrorDecl>(config, output);
}

/// Writes the branches that take in the long options.
pub fn gen_merge_args(config: &Config, output: &mut String)
    ensures
        final(output)@ == whole_config::<MergeArgs>(config, old(output)@),
{
    write_config::<MergeArgs>(config, output);
}

/// `acc` and then the errors of the command line.
pub open spec fn arg_parse_error(config: &Config, acc: Seq<char>) -> Seq<char> {
    let acc = params_and_switches::<ArgParseErrorDecl>(config, acc);
    let acc = if config.general.conf_dir_param is Some {
        acc + "    OpenConfDir(std::io::Error, std::path::PathBuf),\n"@
            + "    ReadConfDir(std::io::Error, std::path::PathBuf),\n"@
    } else {
        acc
    };
    if config.general.program_name == ProgramName::Required {
        acc + "    MissingProgramName,\n"@
    } else {
        acc
    }
}

/// Writes the errors of the command line.
pub fn gen_arg_parse_error(config: &Config, output: &mut String)
    ensures
        final(output)@ == arg_parse_error(config, old(output)@),
{
    write_params_and_switches::<ArgParseErrorDecl>(config, output);
    if config.general.conf_dir_param.is_some() {
        output.append("    OpenConfDir(std::io::Error, std::path::PathBuf),\n");
        output.append("    ReadConfDir(std::io::Error, std::path::PathBuf),\n");
    }
    match config.general.program_name {
        ProgramName::Required => {
            output.append("    MissingProgramName,\n");
        },
        _ => {},
    }
}

/// `acc` and then the lines that say what is wrong with a value of the type
/// `ty`.
pub open spec fn hint(acc: Seq<char>, ty: Seq<char>) -> Seq<char> {
    acc + "            <"@ + ty
        + " as ::configure_me::parse_arg::ParseArg>::describe_type(&mut *f)?;\n"@
        + "            write!(f, \".\")\n"@ + "        },\n"@
}

/// Writes the lines that say what is wrong with a value of the type `ty`.
fn push_hint(output: &mut String, ty: &str)
    ensures
        final(output)@ == hint(old(output)@, ty@),
{
    output.append("            <");
    output.append(ty);
    output.append(" as ::configure_me::parse_arg::ParseArg>::describe_type(&mut *f)?;\n");
    output.append("            write!(f, \".\")\n");
    output.append("        },\n");
}

/// `acc` and then what is said of a value that was given for the parameter
/// `p` on the command line and is none.
pub open spec fn display_arg_field(acc: Seq<char>, p: ParamView) -> Seq<char> {
    if p.argument {
        hint(
            acc + "        ArgParseError::Field"@ + pascal_case(p.name) + "(err) => {\n"@
                + "            write!(f, \"Failed to parse argument '--"@ + hyphenated(p.name)
                + "': {}.\\n\\nHint: the value must be \", err)?;\n"@,
            p.ty,
        )
    } else {
        acc
    }
}

/// `acc` and then what is said of the values given for `params`.
pub open spec fn display_arg_fields(acc: Seq<char>, params: Seq<ParamView>) -> Seq<char>
    decreases params.len(),
{
    if params.len() == 0 {
        acc
    } else {
        display_arg_field(display_arg_fields(acc, params.drop_last()), params.last())
    }
}

/// `acc` and then what is said of the errors of the command line: how the
/// program is called, for a call for help; what is wrong with a value; and
/// why a directory could not be read.
pub open spec fn display_arg_parse_error(config: ConfigView, acc: Seq<char>) -> Seq<char> {
    let acc = synopsis(
        acc + "        ArgParseError::HelpRequested(program_name) => write!(f, \"Usage: {}"@,
        config,
        "\\n"@,
    ) + "\", program_name),\n"@;
    let acc = display_arg_fields(acc, config.params);
    let acc = if config.general.conf_dir_param is Some {
        acc
            + "        ArgParseError::OpenConfDir(err, dir) => write!(f, \"Failed to open configuration directory {}: {}\", dir.display(), err),\n"@
            + "        ArgParseError::ReadConfDir(err, dir) => write!(f, \"Failed to read configuration directory {}: {}\", dir.display(), err),\n"@
    } else {
        acc
    };
    if config.general.program_name == ProgramName::Required {
        acc
            + "        ArgParseError::MissingProgramName => write!(f, \"The name of the program is missing.\"),\n"@
    } else {
        acc
    }
}

/// Writes what is said of the errors of the command line.
pub fn gen_display_arg_parse_error(config: &Config, output: &mut String)
    ensures
        final(output)@ == display_arg_parse_error(config.deep_view(), old(output)@),
{
    output.append("        ArgParseError::HelpRequested(program_name) => write!(f, \"Usage: {}");
    push_synopsis(output, config, "\\n");
    output.append("\", program_name),\n");
    let ghost start = output@;
    let ghost params = config.params.deep_view();
    let mut i: usize = 0;
    proof {
        assert(params.take(0) =~= Seq::empty());
    }
    while i < config.params.len()
        invariant
            i <= config.params.len(),
            params == config.params.deep_view(),
            output@ == display_arg_fields(start, params.take(i as int)),
        decreases config.params.len() - i,
    {
        proof {
            assert(params.take(i + 1).drop_last() =~= params.take(i as int));
        }
        let param = &config.params[i];
        if param.argument {
            output.append("        ArgParseError::Field");
            output.append(param.name.as_pascal_case().as_str());
            output.append("(err) => {\n");
            output.append("            write!(f, \"Failed to parse argument '--");
            output.append(param.name.as_hypenated().as_str());
            output.append("': {}.\\n\\nHint: the value must be \", err)?;\n");
            push_hint(output, param.ty.as_str());
        }
        i = i + 1;
    }
    proof {
        assert(params.take(params.len() as int) =~= params);
    }
    if config.general.conf_dir_param.is_some() {
        output.append(
            "        ArgParseError::OpenConfDir(err, dir) => write!(f, \"Failed to open configuration directory {}: {}\", dir.display(), err),\n",
        );
        output.append(
            "        ArgParseError::ReadConfDir(err, dir) => write!(f, \"Failed to read configuration directory {}: {}\", dir.display(), err),\n",
        );
    }
    match config.general.program_name {
        ProgramName::Required => {
            output.append(
                "        ArgParseError::MissingProgramName => write!(f, \"The name of the program is missing.\"),\n",
            );
        },
        _ => {},
    }
}

/// `acc` and then what is said of a value that the environment holds for the
/// parameter `p` and that is none.
pub open spec fn display_env_param(acc: Seq<char>, prefix: Option<Seq<char>>, p: ParamView) -> Seq<
    char,
> {
    if p.env_var {
        hint(
            acc + "        EnvParseError::Field"@ + pascal_case(p.name) + "(ref err) => {\n"@
                + "            write!(f, \"Failed to parse environment variable '"@
                + variable_name(prefix, p.name)
                + "': {}.\\n\\nHint: the value must be \", err)?;\n"@,
            p.ty,
        )
    } else {
        acc
    }
}

/// `acc` and then what is said of the values that the environment holds for
/// `params`.
pub open spec fn display_env_params(
    acc: Seq<char>,
    prefix: Option<Seq<char>>,
    params: Seq<ParamView>,
) -> Seq<char>
    decreases params.len(),
{
    if params.len() == 0 {
        acc
    } else {
        display_env_param(display_env_params(acc, prefix, params.drop_last()), prefix, params.last())
    }
}

/// `acc` and then what is said of a value that the environment holds for the
/// switch `s` and that is none.
pub open spec fn display_env_switch(acc: Seq<char>, prefix: Option<Seq<char>>, s: SwitchView)
    -> Seq<char> {
    if !s.env_var {
        acc
    } else if kind_is_count(s.kind) {
        hint(
            acc + "        EnvParseError::Field"@ + pascal_case(s.name) + "(ref err) => {\n"@
                + "            write!(f, \"Invalid value for '"@ + variable_name(prefix, s.name)
                + "': {}.\\n\\nHint: the value must be \", err)?;\n"@,
            "u32"@,
        )
    } else {
        acc + "        EnvParseError::Field"@ + pascal_case(s.name) + "(ref err) => {\n"@
            + "            write!(f, \"Invalid value '{:?}' for '"@ + variable_name(prefix, s.name)
            + "'.\\n\\nHint: the allowed values are 0, false, 1, true.\", err)\n"@
            + "        },\n"@
    }
}

/// `acc` and then what is said of the values that the environment holds for
/// `switches`.
pub open spec fn display_env_switches(
    acc: Seq<char>,
    prefix: Option<Seq<char>>,
    switches: Seq<SwitchView>,
) -> Seq<char>
    decreases switches.len(),
{
    if switches.len() == 0 {
        acc
    } else {
        display_env_switch(
            display_env_switches(acc, prefix, switches.drop_last()),
            prefix,
            switches.last(),
        )
    }
}

/// `acc` and then what is said of the errors of the environment.
pub open spec fn display_env_parse_error(config: ConfigView, acc: Seq<char>) -> Seq<char> {
    display_env_switches(
        display_env_params(acc, config.general.env_prefix, config.params),
        config.general.env_prefix,
        config.switches,
    )
}

/// Writes what is said of the errors of the environment.
pub fn gen_display_env_parse_error(config: &Config, output: &mut String)
    ensures
        final(output)@ == display_env_parse_error(config.deep_view(), old(output)@),
{
    let ghost start = output@;
    let ghost prefix = config.general.env_prefix.deep_view();
    let ghost params = config.params.deep_view();
    let mut i: usize = 0;
    proof {
        assert(params.take(0) =~= Seq::empty());
    }
    while i < config.params.len()
        invariant
            i <= config.params.len(),
            params == config.params.deep_view(),
            prefix == config.general.env_prefix.deep_view(),
            output@ == display_env_params(start, prefix, params.take(i as int)),
        decreases config.params.len() - i,
    {
        proof {
            assert(params.take(i + 1).drop_last() =~= params.take(i as int));
        }
        let param = &config.params[i];
        if param.env_var {
            output.append("        EnvParseError::Field");
            output.append(param.name.as_pascal_case().as_str());
            output.append("(ref err) => {\n");
            output.append("            write!(f, \"Failed to parse environment variable '");
            output.append(variable_name_of(&config.general.env_prefix, &param.name).as_str());
            output.append("': {}.\\n\\nHint: the value must be \", err)?;\n");
            push_hint(output, param.ty.as_str());
        }
        i = i + 1;
    }
    let ghost middle = output@;
    let ghost switches = config.switches.deep_view();
    let mut j: usize = 0;
    proof {
        assert(params.take(params.len() as int) =~= params);
        assert(switches.take(0) =~= Seq::empty());
    }
    while j < config.switches.len()
        invariant
            j <= config.switches.len(),
            switches == config.switches.deep_view(),
            prefix == config.general.env_prefix.deep_view(),
            output@ == display_env_switches(middle, prefix, switches.take(j as int)),
        decreases config.switches.len() - j,
    {
        proof {
            assert(switches.take(j + 1).drop_last() =~= switches.take(j as int));
        }
        let switch = &config.switches[j];
        if switch.env_var {
            output.append("        EnvParseError::Field");
            output.append(switch.name.as_pascal_case().as_str());
            output.append("(ref err) => {\n");
            if switch.is_count() {
                output.append("            write!(f, \"Invalid value for '");
                output.append(variable_name_of(&config.general.env_prefix, &switch.name).as_str());
                output.append("': {}.\\n\\nHint: the value must be \", err)?;\n");
                push_hint(output, "u32");
            } else {
                output.append("            write!(f, \"Invalid value '{:?}' for '");
                output.append(variable_name_of(&config.general.env_prefix, &switch.name).as_str());
                output.append("'.\\n\\nHint: the allowed values are 0, false, 1, true.\", err)\n");
                output.append("        },\n");
            }
        }
        j = j + 1;
    }
    proof {
        assert(switches.take(switches.len() as int) =~= switches);
    }
}

/// `acc` and then the body of the function that turns what the sources
/// gave into the configuration.
pub open spec fn validation_fn(config: &Config, acc: Seq<char>) -> Seq<char> {
    params_and_switches::<ConstructConfig>(
        config,
        params_and_switches::<Validate>(config, acc) + "\n"@ + "            Ok(super::Config {\n"@,
    ) + "            })\n"@
}

/// Writes the body of the function that turns what the sources gave into
/// the configuration.
pub fn gen_validation_fn(config: &Config, output: &mut String)
    ensures
        final(output)@ == validation_fn(config, old(output)@),
{
    write_params_and_switches::<Validate>(config, output);
    output.append("\n");
    output.append("            Ok(super::Config {\n");
    write_params_and_switches::<ConstructConfig>(config, output);
    output.append("            })\n");
}

/// `acc` and then the start of the statement that looks at the environment
/// variable of the field `name`.
pub open spec fn env_lookup(acc: Seq<char>, prefix: Option<Seq<char>>, name: Seq<char>) -> Seq<
    char,
> {
    acc + "        if let Some(val) = ::std::env::var_os(\""@ + variable_name(prefix, name)
        + "\") {\n"@
}

/// `acc` and then the statement that takes in the environment variable of
/// the parameter `p`.
pub open spec fn merge_env_param(acc: Seq<char>, prefix: Option<Seq<char>>, p: ParamView) -> Seq<
    char,
> {
    if p.env_var {
        let acc = env_lookup(acc, prefix, p.name)
            + "            let val = ::configure_me::parse_arg::ParseArg::parse_owned_arg(val).map_err(super::EnvParseError::Field"@
            + pascal_case(p.name) + ")?;\n"@;
        let acc = match p.merge_fn {
            Some(merge_fn) => combine(acc, "            "@, p.name, merge_fn, "val"@),
            None => acc + "            self."@ + p.name + " = Some(val);\n"@,
        };
        acc + "        }\n"@
    } else {
        acc
    }
}

/// `acc` and then the statements that take in the environment variables of
/// `params`.
pub open spec fn merge_env_params(acc: Seq<char>, prefix: Option<Seq<char>>, params: Seq<ParamView>)
    -> Seq<char>
    decreases params.len(),
{
    if params.len() == 0 {
        acc
    } else {
        merge_env_param(merge_env_params(acc, prefix, params.drop_last()), prefix, params.last())
    }
}

/// `acc` and then the statement that takes in the environment variable of
/// the switch `s`.
pub open spec fn merge_env_switch(acc: Seq<char>, prefix: Option<Seq<char>>, s: SwitchView) -> Seq<
    char,
> {
    if !s.env_var {
        acc
    } else if kind_is_count(s.kind) {
        env_lookup(acc, prefix, s.name)
            + "            let val= <u32 as ::configure_me::parse_arg::ParseArg>::parse_owned_arg(val).map_err(super::EnvParseError::Field"@
            + pascal_case(s.name) + ")?;"@ + "            self."@ + s.name + " = Some(val);\n"@
            + "        }\n"@
    } else {
        env_lookup(acc, prefix, s.name) + "            if val == *\"1\" || val == *\"true\" {\n"@
            + "                self."@ + s.name + " = Some(true);\n"@
            + "            } else if val == *\"0\" || val == *\"false\" {\n"@
            + "                self."@ + s.name + " = Some(false);\n"@ + "            } else {\n"@
            + "                return Err(super::EnvParseError::Field"@ + pascal_case(s.name)
            + "(val).into());\n"@ + "            }\n"@ + "        }\n"@
    }
}

/// `acc` and then the statements that take in the environment variables of
/// `switches`.
pub open spec fn merge_env_switches(
    acc: Seq<char>,
    prefix: Option<Seq<char>>,
    switches: Seq<SwitchView>,
) -> Seq<char>
    decreases switches.len(),
{
    if switches.len() == 0 {
        acc
    } else {
        merge_env_switch(
            merge_env_switches(acc, prefix, switches.drop_last()),
            prefix,
            switches.last(),
        )
    }
}

/// `acc` and then the body of the function that lays the environment over
/// what the files gave.
pub open spec fn merge_env_fn(config: ConfigView, acc: Seq<char>) -> Seq<char> {
    merge_env_switches(
        merge_env_params(acc, config.general.env_prefix, config.params),
        config.general.env_prefix,
        config.switches,
    )
}

/// Writes the start of the statement that looks at the environment variable
/// of the field `name`.
fn push_env_lookup(output: &mut String, prefix: &Option<String>, name: &crate::ident::Ident)
    ensures
        final(output)@ == env_lookup(old(output)@, prefix.deep_view(), name.deep_view()),
{
    output.append("        if let Some(val) = ::std::env::var_os(\"");
    output.append(variable_name_of(prefix, name).as_str());
    output.append("\") {\n");
}

/// Writes the body of the function that lays the environment over what the
/// files gave.
pub fn gen_merge_env(config: &Config, output: &mut String)
    ensures
        final(output)@ == merge_env_fn(config.deep_view(), old(output)@),
{
    let ghost start = output@;
    let ghost prefix = config.general.env_prefix.deep_view();
    let ghost params = config.params.deep_view();
    let mut i: usize = 0;
    proof {
        assert(params.take(0) =~= Seq::empty());
    }
    while i < config.params.len()
        invariant
            i <= config.params.len(),
            params == config.params.deep_view(),
            prefix == config.general.env_prefix.deep_view(),
            output@ == merge_env_params(start, prefix, params.take(i as int)),
        decreases config.params.len() - i,
    {
        proof {
            assert(params.take(i + 1).drop_last() =~= params.take(i as int));
        }
        let param = &config.params[i];
        if param.env_var {
            push_env_lookup(output, &config.general.env_prefix, &param.name);
            output.append(
                "            let val = ::configure_me::parse_arg::ParseArg::parse_owned_arg(val).map_err(super::EnvParseError::Field",
            );
            output.append(param.name.as_pascal_case().as_str());
            output.append(")?;\n");
            match &param.merge_fn {
                Some(merge_fn) => {
                    push_combine(
                        output,
                        "            ",
                        param.name.as_snake_case(),
                        merge_fn.as_str(),
                        "val",
                    );
                },
                None => {
                    output.append("            self.");
                    output.append(param.name.as_snake_case());
                    output.append(" = Some(val);\n");
                },
            }
            output.append("        }\n");
        }
        i = i + 1;
    }
    let ghost middle = output@;
    let ghost switches = config.switches.deep_view();
    let mut j: usize = 0;
    proof {
        assert(params.take(params.len() as int) =~= params);
        assert(switches.take(0) =~= Seq::empty());
    }
    while j < config.switches.len()
        invariant
            j <= config.switches.len(),
            switches == config.switches.deep_view(),
            prefix == config.general.env_prefix.deep_view(),
            output@ == merge_env_switches(middle, prefix, switches.take(j as int)),
        decreases config.switches.len() - j,
    {
        proof {
            assert(switches.take(j + 1).drop_last() =~= switches.take(j as int));
        }
        let switch = &config.switches[j];
        if switch.env_var {
            push_env_lookup(output, &config.general.env_prefix, &switch.name);
            if switch.is_count() {
                output.append(
                    "            let val= <u32 as ::configure_me::parse_arg::ParseArg>::parse_owned_arg(val).map_err(super::EnvParseError::Field",
                );
                output.append(switch.name.as_pascal_case().as_str());
                output.append(")?;");
                output.append("            self.");
                output.append(switch.name.as_snake_case());
                output.append(" = Some(val);\n");
            } else {
                output.append("            if val == *\"1\" || val == *\"true\" {\n");
                output.append("                self.");
                output.append(switch.name.as_snake_case());
                output.append(" = Some(true);\n");
                output.append("            } else if val == *\"0\" || val == *\"false\" {\n");
                output.append("                self.");
                output.append(switch.name.as_snake_case());
                output.append(" = Some(false);\n");
                output.append("            } else {\n");
                output.append("                return Err(super::EnvParseError::Field");
                output.append(switch.name.as_pascal_case().as_str());
                output.append("(val).into());\n");
                output.append("            }\n");
            }
            output.append("        }\n");
        }
        j = j + 1;
    }
    proof {
        assert(switches.take(switches.len() as int) =~= switches);
    }
}

/// The statement that deals with the name of the program as the program
/// wants it: one that has no use for it drops it, one that cannot do without
/// it fails where there is none.
pub open spec fn process_program_name(policy: ProgramName) -> Seq<char> {
    match policy {
        ProgramName::Unused => "        let _ = program_name;\n"@,
        ProgramName::Optional => Seq::empty(),
        ProgramName::Required => "        let program_name = program_name.ok_or(ArgParseError::MissingProgramName)?;\n"@,
    }
}

/// The field of the record of the run that is set from the name of the
/// program, if the program keeps the name.
pub open spec fn construct_metadata(policy: ProgramName) -> Seq<char> {
    match policy {
        ProgramName::Unused => Seq::empty(),
        _ => "            program_name,\n"@,
    }
}

/// The field of the record of the run that holds the name of the program,
/// if the program keeps the name.
pub open spec fn metadata_fields(policy: ProgramName) -> Seq<char> {
    match policy {
        ProgramName::Unused => Seq::empty(),
        ProgramName::Optional => "    pub program_name: Option<::std::path::PathBuf>,\n"@,
        ProgramName::Required => "    pub program_name: ::std::path::PathBuf,\n"@,
    }
}

/// Writes [`process_program_name`].
fn push_process_program_name(output: &mut String, policy: ProgramName)
    ensures
        final(output)@ == old(output)@ + process_program_name(policy),
{
    match policy {
        ProgramName::Unused => {
            output.append("        let _ = program_name;\n");
        },
        ProgramName::Optional => {
            proof {
                assert(output@ + Seq::<char>::empty() =~= output@);
            }
        },
        ProgramName::Required => {
            output.append(
                "        let program_name = program_name.ok_or(ArgParseError::MissingProgramName)?;\n",
            );
        },
    }
}

/// Writes [`construct_metadata`].
fn push_construct_metadata(output: &mut String, policy: ProgramName)
    ensures
        final(output)@ == old(output)@ + construct_metadata(policy),
{
    match policy {
        ProgramName::Unused => {
            proof {
                assert(output@ + Seq::<char>::empty() =~= output@);
            }
        },
        _ => {
            output.append("            program_name,\n");
        },
    }
}

/// Writes [`metadata_fields`].
fn push_metadata_fields(output: &mut String, policy: ProgramName)
    ensures
        final(output)@ == old(output)@ + metadata_fields(policy),
{
    match policy {
        ProgramName::Unused => {
            proof {
                assert(output@ + Seq::<char>::empty() =~= output@);
            }
        },
        ProgramName::Optional => {
            output.append("    pub program_name: Option<::std::path::PathBuf>,\n");
        },
        ProgramName::Required => {
            output.append("    pub program_name: ::std::path::PathBuf,\n");
        },
    }
}

/// The errors of the check that what has to be given was given.
pub const VALIDATION_ERROR: &'static str = "    MissingField(&'static str),\n";

/// What is said of a parameter that has to be given and was not.
pub const DISPLAY_VALIDATION_ERROR: &'static str = "            ValidationError::MissingField(field) => write!(f, \"Configuration parameter '{}' not specified.\", field),\n";

/// A stretch of the program text that is the same for every program.
pub const TEXT_0: &'static str = "pub mod prelude {\n    pub use super::{Config, ResultExt};\n}\n\npub enum ArgParseError {\n    MissingArgument(&'static str),\n    UnknownArgument(String),\n    HelpRequested(String),\n\n";

/// A stretch of the program text that is the same for every program.
pub const TEXT_1: &'static str = "}\n\n#[automatically_derived]\nimpl ::std::fmt::Display for ArgParseError {\n    fn fmt(&self, f: &mut ::std::fmt::Formatter) -> ::std::fmt::Result {\n        match self {\n            ArgParseError::MissingArgument(arg) => write!(f, \"A value to argument '{}' is missing.\", arg),\n            ArgParseError::UnknownArgument(arg) => write!(f, \"An unknown argument '{}' was specified.\", arg),\n";

/// A stretch of the program text that is the same for every program.
pub const TEXT_2: &'static str = "        }\n    }\n}\n\n#[automatically_derived]\nimpl ::std::fmt::Debug for ArgParseError {\n    fn fmt(&self, f: &mut ::std::fmt::Formatter) -> ::std::fmt::Result {\n        ::std::fmt::Display::fmt(self, f)\n    }\n}\n\npub enum EnvParseError {\n";

/// A stretch of the program text that is the same for every program.
pub const TEXT_3: &'static str = "}\n\n#[automatically_derived]\nimpl ::std::fmt::Display for EnvParseError {\n    fn fmt(&self, f: &mut ::std::fmt::Formatter) -> ::std::fmt::Result {\n        match *self {\n";

/// A stretch of the program text that is the same for every program.
pub const TEXT_4: &'static str = "        }\n    }\n}\n\n#[automatically_derived]\nimpl ::std::fmt::Debug for EnvParseError {\n    fn fmt(&self, f: &mut ::std::fmt::Formatter) -> ::std::fmt::Result {\n        ::std::fmt::Display::fmt(self, f)\n    }\n}\n\npub enum ValidationError {\n";

/// A stretch of the program text that is the same for every program.
pub const TEXT_5: &'static str = "}\n\n#[automatically_derived]\nimpl ::std::fmt::Display for ValidationError {\n    fn fmt(&self, f: &mut ::std::fmt::Formatter) -> ::std::fmt::Result {\n        match *self {\n";

/// A stretch of the program text that is the same for every program.
pub const TEXT_6: &'static str = "        }\n    }\n}\n\n#[automatically_derived]\nimpl ::std::fmt::Debug for ValidationError {\n    fn fmt(&self, f: &mut ::std::fmt::Formatter) -> ::std::fmt::Result {\n        ::std::fmt::Display::fmt(self, f)\n    }\n}\n\npub enum Error {\n    Reading { file: ::std::path::PathBuf, error: ::std::io::Error },\n    ConfigParsing { file: ::std::path::PathBuf, error: ::configure_me::toml::de::Error },\n    Arguments(ArgParseError),\n    Environment(EnvParseError),\n    Validation(ValidationError),\n}\n\n#[automatically_derived]\nimpl From<ArgParseError> for Error {\n    fn from(err: ArgParseError) -> Self {\n        Error::Arguments(err)\n    }\n}\n\n#[automatically_derived]\nimpl From<EnvParseError> for Error {\n    fn from(err: EnvParseError) -> Self {\n        Error::Environment(err)\n    }\n}\n\n#[automatically_derived]\nimpl From<ValidationError> for Error {\n    fn from(err: ValidationError) -> Self {\n        Error::Validation(err)\n    }\n}\n\n#[automatically_derived]\nimpl ::std::fmt::Display for Error {\n    fn fmt(&self, f: &mut ::std::fmt::Formatter) -> ::std::fmt::Result {\n        match self {\n            Error::Reading { file, error } => write!(f, \"Failed to read configuration file {}: {}\", file.display(), error),\n            Error::ConfigParsing { file, error } => write!(f, \"Failed to parse configuration file {}: {}\", file.display(), error),\n            Error::Arguments(err) => write!(f, \"{}\", err),\n            Error::Environment(err) => write!(f, \"{}\", err),\n            Error::Validation(err) => write!(f, \"Invalid configuration: {}\", err),\n";

/// A stretch of the program text that is the same for every program.
pub const TEXT_7: &'static str = "        }\n    }\n}\n\n#[automatically_derived]\nimpl ::std::fmt::Debug for Error {\n    fn fmt(&self, f: &mut ::std::fmt::Formatter) -> ::std::fmt::Result {\n        ::std::fmt::Display::fmt(self, f)\n    }\n}\n\nmod raw {\n    use super::{ArgParseError, ValidationError};\n\n    #[derive(Deserialize, Default)]\n    #[serde(crate = \"crate::configure_me::serde\")]\n    pub struct Config {\n";

/// A stretch of the program text that is the same for every program.
pub const TEXT_8: &'static str = "    }\n\n    #[automatically_derived]\n    impl Config {\n        pub fn load<P: AsRef<::std::path::Path>>(config_file_name: P) -> Result<Self, super::Error> {\n            use std::io::Read;\n\n            let mut config_file = ::std::fs::File::open(&config_file_name).map_err(|error| super::Error::Reading { file: config_file_name.as_ref().into(), error })?;\n            let mut config_content = Vec::new();\n            config_file.read_to_end(&mut config_content).map_err(|error| super::Error::Reading { file: config_file_name.as_ref().into(), error })?;\n            ::configure_me::toml::from_slice(&config_content).map_err(|error| super::Error::ConfigParsing { file: config_file_name.as_ref().into(), error })\n        }\n\n        pub fn validate(self) -> Result<super::Config, ValidationError> {\n";

/// A stretch of the program text that is the same for every program.
pub const TEXT_9: &'static str = "        }\n\n        pub fn merge_in(&mut self, other: Self) {\n";

/// A stretch of the program text that is the same for every program.
pub const TEXT_10: &'static str = "        }\n\n        pub fn merge_args<I: IntoIterator<Item=::std::ffi::OsString>>(&mut self, args: I, skip_default_conf_files: &mut bool) -> Result<(Option<std::path::PathBuf>, impl Iterator<Item=::std::ffi::OsString>), super::Error> {\n            let _ = skip_default_conf_files;\n            let mut iter = args.into_iter().fuse();\n            let program_path = iter.next().map(Into::into);\n\n            while let Some(arg) = iter.next() {\n                if arg == *\"--\" {\n                    return Ok((program_path, None.into_iter().chain(iter)));\n                } else if (arg == *\"--help\") || (arg == *\"-h\") {\n                    return Err(ArgParseError::HelpRequested(program_path.as_ref().unwrap().to_string_lossy().into()).into());\n";

/// A stretch of the program text that is the same for every program.
pub const TEXT_11: &'static str = "                } else if let Some(mut shorts) = ::configure_me::parse_arg::iter_short(&arg) {\n                    for short in &mut shorts {\n                        if short == 'h' {\n                            return Err(ArgParseError::HelpRequested(program_path.as_ref().unwrap().to_string_lossy().into()).into())\n";

/// A stretch of the program text that is the same for every program.
pub const TEXT_12: &'static str = "                        } else {\n                            let mut arg = String::with_capacity(2);\n                            arg.push('-');\n                            arg.push(short);\n                            return Err(ArgParseError::UnknownArgument(arg).into());\n                        }\n                    }\n                } else if arg.to_str().unwrap_or(\"\").starts_with(\"--\") {\n                    return Err(ArgParseError::UnknownArgument(arg.into_string().unwrap()).into());\n                } else {\n                    return Ok((program_path, Some(arg).into_iter().chain(iter)))\n                }\n            }\n\n            Ok((program_path, None.into_iter().chain(iter)))\n        }\n\n        pub fn merge_env(&mut self) -> Result<(), super::Error> {\n";

/// A stretch of the program text that is the same for every program.
pub const TEXT_13: &'static str = "            Ok(())\n        }\n    }\n}\n\n/// Configuration of the application\npub struct Config {\n";

/// A stretch of the program text that is the same for every program.
pub const TEXT_14: &'static str = "}\n\n#[automatically_derived]\nimpl Config {\n    pub fn including_optional_config_files<I>(config_files: I) -> Result<(Self, impl Iterator<Item=::std::ffi::OsString>, Metadata), Error> where I: IntoIterator, I::Item: AsRef<::std::path::Path> {\n        Self::custom_args_and_optional_files(::std::env::args_os(), config_files)\n    }\n\n    pub fn custom_args_and_optional_files<A, I>(args: A, config_files: I) -> Result<(Self, impl Iterator<Item=::std::ffi::OsString>, Metadata), Error> where\n        A: IntoIterator, A::Item: Into<::std::ffi::OsString>,\n        I: IntoIterator, I::Item: AsRef<::std::path::Path> {\n\n        let mut args_config = raw::Config::default();\n        let mut skip_default_conf_files = false;\n        let (program_name, remaining_args) = args_config.merge_args(args.into_iter().map(Into::into), &mut skip_default_conf_files)?;\n";

/// A stretch of the program text that is the same for every program.
pub const TEXT_15: &'static str = "\n        let mut config = raw::Config::default();\n\n        if !skip_default_conf_files {\n            for path in config_files {\n                match raw::Config::load(path) {\n                    Ok(mut new_config) => {\n                        std::mem::swap(&mut config, &mut new_config);\n                        config.merge_in(new_config)\n                    },\n                    Err(Error::Reading { ref error, .. }) if error.kind() == ::std::io::ErrorKind::NotFound => (),\n                    Err(err) => return Err(err),\n                }\n            }\n        }\n\n        config.merge_env()?;\n        config.merge_in(args_config);\n\n        let metadata = Metadata {\n";

/// A stretch of the program text that is the same for every program.
pub const TEXT_16: &'static str = "        };\n\n        config\n            .validate()\n            .map(|cfg| (cfg, remaining_args, metadata))\n            .map_err(Into::into)\n    }\n}\n\n/// Metadata of the configuration.\n///\n/// This struct provides some additional information regarding the configuration.\n/// Currently it only contains program name but more items could be available in the future.\n#[non_exhaustive]\npub struct Metadata {\n";

/// A stretch of the program text that is the same for every program.
pub const TEXT_17: &'static str = "}\n\npub trait ResultExt {\n    type Item;\n\n    fn unwrap_or_exit(self) -> Self::Item;\n}\n\n#[automatically_derived]\nimpl<T> ResultExt for Result<T, Error> {\n    type Item = T;\n\n    fn unwrap_or_exit(self) -> Self::Item {\n        use std::io::Write;\n\n        match self {\n            Ok(item) => item,\n            Err(err @ Error::Arguments(ArgParseError::HelpRequested(_))) => {\n                println!(\"{}\", err);\n                std::io::stdout().flush().expect(\"failed to flush stdout\");\n                ::std::process::exit(0)\n            },\n            Err(err) => {\n                eprintln!(\"Error: {}\", err);\n                std::io::stderr().flush().expect(\"failed to flush stderr\");\n                ::std::process::exit(1)\n            }\n        }\n    }\n}\n";

/// `acc` and then the program text for the specification `config`: the
/// types of the program's configuration and of its errors, and the functions
/// that read the command line first, then the default configuration files
/// unless the command line keeps them from being read, then the environment,
/// and merge what the command line gave into that.
pub open spec fn generated(config: &Config, acc: Seq<char>) -> Seq<char> {
    let acc = acc + TEXT_0@;
    let acc = arg_parse_error(config, acc);
    let acc = acc + TEXT_1@;
    let acc = display_arg_parse_error(config.deep_view(), acc);
    let acc = acc + TEXT_2@;
    let acc = params_and_switches::<EnvParseErrorDecl>(config, acc);
    let acc = acc + TEXT_3@;
    let acc = display_env_parse_error(config.deep_view(), acc);
    let acc = acc + TEXT_4@;
    let acc = acc + VALIDATION_ERROR@;
    let acc = acc + TEXT_5@;
    let acc = acc + DISPLAY_VALIDATION_ERROR@;
    let acc = acc + TEXT_6@;
    let acc = acc + TEXT_7@;
    let acc = params_and_switches::<RawConfigDecl>(config, acc);
    let acc = acc + TEXT_8@;
    let acc = validation_fn(config, acc);
    let acc = acc + TEXT_9@;
    let acc = params_and_switches::<MergeIn>(config, acc);
    let acc = acc + TEXT_10@;
    let acc = whole_config::<MergeArgs>(config, acc);
    let acc = acc + TEXT_11@;
    let acc = whole_config::<MergeShort>(config, acc);
    let acc = acc + TEXT_12@;
    let acc = merge_env_fn(config.deep_view(), acc);
    let acc = acc + TEXT_13@;
    let acc = params_and_switches::<ConfigFinal>(config, acc);
    let acc = acc + TEXT_14@;
    let acc = acc + process_program_name(config.general.program_name);
    let acc = acc + TEXT_15@;
    let acc = acc + construct_metadata(config.general.program_name);
    let acc = acc + TEXT_16@;
    let acc = acc + metadata_fields(config.general.program_name);
    let acc = acc + TEXT_17@;
    acc
}

/// Writes the program text for the specification `config` to the end of
/// `output`.
pub fn generate_code(config: &Config, output: &mut String)
    ensures
        final(output)@ == generated(config, old(output)@),
{
    output.append(TEXT_0);
    gen_arg_parse_error(config, output);
    output.append(TEXT_1);
    gen_display_arg_parse_error(config, output);
    output.append(TEXT_2);
    gen_env_parse_error(config, output);
    output.append(TEXT_3);
    gen_display_env_parse_error(config, output);
    output.append(TEXT_4);
    output.append(VALIDATION_ERROR);
    output.append(TEXT_5);
    output.append(DISPLAY_VALIDATION_ERROR);
    output.append(TEXT_6);
    output.append(TEXT_7);
    gen_raw_config(config, output);
    output.append(TEXT_8);
    gen_validation_fn(config, output);
    output.append(TEXT_9);
    write_params_and_switches::<MergeIn>(config, output);
    output.append(TEXT_10);
    gen_merge_args(config, output);
    output.append(TEXT_11);
    write_config::<MergeShort>(config, output);
    output.append(TEXT_12);
    gen_merge_env(config, output);
    output.append(TEXT_13);
    write_params_and_switches::<ConfigFinal>(config, output);
    output.append(TEXT_14);
    push_process_program_name(output, config.general.program_name);
    output.append(TEXT_15);
    push_construct_metadata(output, config.general.program_name);
    output.append(TEXT_16);
    push_metadata_fields(output, config.general.program_name);
    output.append(TEXT_17);
}

} // verus!
