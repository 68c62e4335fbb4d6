//! The pieces of program text that one field contributes.

use vstd::prelude::*;
use crate::codegen::visitor::{
    ArgParseErrorDecl, ConfigFinal, ConstructConfig, EnvParseErrorDecl, MergeArgs, MergeIn,
    MergeShort, RawConfigDecl, Validate, VisitWrite,
};
use crate::config::{
    kind_abbr, kind_is_count, kind_is_inverted, General, Optionality, OptionalityView, Param,
    Switch,
};
use crate::ident::{hyphenated, pascal_case};

verus! {

impl VisitWrite<RawConfigDecl> for General {
    open spec fn written(&self, acc: Seq<char>) -> Seq<char> {
        acc
    }

    fn visit_write(&self, output: &mut String) {
    }
}

impl VisitWrite<RawConfigDecl> for Param {
    open spec fn written(&self, acc: Seq<char>) -> Seq<char> {
        acc + "        "@ + self.deep_view().name + ": Option<"@ + self.deep_view().ty + ">,\n"@
    }

    fn visit_write(&self, output: &mut String) {
        output.append("        ");
        output.append(self.name.as_snake_case());
        output.append(": Option<");
        output.append(self.ty.as_str());
        output.append(">,\n");
    }
}

impl VisitWrite<RawConfigDecl> for Switch {
    open spec fn written(&self, acc: Seq<char>) -> Seq<char> {
        if kind_is_count(self.kind) {
            acc + "        "@ + self.deep_view().name + ": Option<u32>,\n"@
        } else {
            acc + "        "@ + self.deep_view().name + ": Option<bool>,\n"@
        }
    }

    fn visit_write(&self, output: &mut String) {
        output.append("        ");
        output.append(self.name.as_snake_case());
        if self.is_count() {
            output.append(": Option<u32>,\n");
        } else {
            output.append(": Option<bool>,\n");
        }
    }
}

impl VisitWrite<ArgParseErrorDecl> for General {
    open spec fn written(&self, acc: Seq<char>) -> Seq<char> {
        acc
    }

    fn visit_write(&self, output: &mut String) {
    }
}

/// `acc` and then the declaration of the error of a field of the type
/// `ty`.
pub open spec fn field_error_decl(acc: Seq<char>, name: Seq<char>, ty: Seq<char>) -> Seq<char> {
    acc + "    Field"@ + pascal_case(name) + "(<"@ + ty
        + " as ::configure_me::parse_arg::ParseArg>::Error),\n"@
}

impl VisitWrite<ArgParseErrorDecl> for Param {
    open spec fn written(&self, acc: Seq<char>) -> Seq<char> {
        if self.argument {
            field_error_decl(acc, self.deep_view().name, self.deep_view().ty)
        } else {
            acc
        }
    }

    fn visit_write(&self, output: &mut String) {
        if self.argument {
            output.append("    Field");
            output.append(self.name.as_pascal_case().as_str());
            output.append("(<");
            output.append(self.ty.as_str());
            output.append(" as ::configure_me::parse_arg::ParseArg>::Error),\n");
        }
    }
}

impl VisitWrite<ArgParseErrorDecl> for Switch {
    open spec fn written(&self, acc: Seq<char>) -> Seq<char> {
        acc
    }

    fn visit_write(&self, output: &mut String) {
    }
}

impl VisitWrite<EnvParseErrorDecl> for General {
    open spec fn written(&self, acc: Seq<char>) -> Seq<char> {
        acc
    }

    fn visit_write(&self, output: &mut String) {
    }
}

impl VisitWrite<EnvParseErrorDecl> for Param {
    open spec fn written(&self, acc: Seq<char>) -> Seq<char> {
        if self.env_var {
            field_error_decl(acc, self.deep_view().name, self.deep_view().ty)
        } else {
            acc
        }
    }

    fn visit_write(&self, output: &mut String) {
        if self.env_var {
            output.append("    Field");
            output.append(self.name.as_pascal_case().as_str());
            output.append("(<");
            output.append(self.ty.as_str());
            output.append(" as ::configure_me::parse_arg::ParseArg>::Error),\n");
        }
    }
}

impl VisitWrite<EnvParseErrorDecl> for Switch {
    open spec fn written(&self, acc: Seq<char>) -> Seq<char> {
        if !self.env_var {
            acc
        } else if kind_is_count(self.kind) {
            field_error_decl(acc, self.deep_view().name, "u32"@)
        } else {
            acc + "    Field"@ + pascal_case(self.deep_view().name) + "(::std::ffi::OsString),\n"@
        }
    }

    fn visit_write(&self, output: &mut String) {
        if self.env_var {
            output.append("    Field");
            output.append(self.name.as_pascal_case().as_str());
            if self.is_count() {
                output.append("(<");
                output.append("u32");
                output.append(" as ::configure_me::parse_arg::ParseArg>::Error),\n");
            } else {
                output.append("(::std::ffi::OsString),\n");
            }
        }
    }
}

impl VisitWrite<ConfigFinal> for Param {
    open spec fn written(&self, acc: Seq<char>) -> Seq<char> {
        match self.deep_view().optionality {
            OptionalityView::Optional => acc + "    pub "@ + self.deep_view().name + ": Option<"@
                + self.deep_view().convert_into + ">,\n"@,
            _ => acc + "    pub "@ + self.deep_view().name + ": "@ + self.deep_view().convert_into
                + ",\n"@,
        }
    }

    fn visit_write(&self, output: &mut String) {
        output.append("    pub ");
        output.append(self.name.as_snake_case());
        match self.optionality {
            Optionality::Optional => {
                output.append(": Option<");
                output.append(self.convert_into.as_str());
                output.append(">,\n");
            },
            _ => {
                output.append(": ");
                output.append(self.convert_into.as_str());
                output.append(",\n");
            },
        }
    }
}

impl VisitWrite<ConfigFinal> for Switch {
    open spec fn written(&self, acc: Seq<char>) -> Seq<char> {
        if kind_is_count(self.kind) {
            acc + "    pub "@ + self.deep_view().name + ": u32,\n"@
        } else {
            acc + "    pub "@ + self.deep_view().name + ": bool,\n"@
        }
    }

    fn visit_write(&self, output: &mut String) {
        output.append("    pub ");
        output.append(self.name.as_snake_case());
        if self.is_count() {
            output.append(": u32,\n");
        } else {
            output.append(": bool,\n");
        }
    }
}

impl VisitWrite<Validate> for Param {
    open spec fn written(&self, acc: Seq<char>) -> Seq<char> {
        let name = self.deep_view().name;
        match self.deep_view().optionality {
            OptionalityView::Optional => acc + "            let "@ + name + " = self."@ + name
                + ";\n"@,
            OptionalityView::Mandatory => acc + "            let "@ + name + " = self."@ + name
                + ".ok_or(ValidationError::MissingField(\""@ + name + "\"))?;\n"@,
            OptionalityView::DefaultValue(value) => acc + "            let "@ + name + " = self."@
                + name + ".unwrap_or_else(|| { "@ + value + " });\n"@,
        }
    }

    fn visit_write(&self, output: &mut String) {
        let name = self.name.as_snake_case();
        output.append("            let ");
        output.append(name);
        output.append(" = self.");
        output.append(name);
        match &self.optionality {
            Optionality::Optional => {
                output.append(";\n");
            },
            Optionality::Mandatory => {
                output.append(".ok_or(ValidationError::MissingField(\"");
                output.append(name);
                output.append("\"))?;\n");
            },
            Optionality::DefaultValue(value) => {
                output.append(".unwrap_or_else(|| { ");
                output.append(value.as_str());
                output.append(" });\n");
            },
        }
    }
}

impl VisitWrite<Validate> for Switch {
    open spec fn written(&self, acc: Seq<char>) -> Seq<char> {
        acc
    }

    fn visit_write(&self, output: &mut String) {
    }
}

impl VisitWrite<ConstructConfig> for Param {
    open spec fn written(&self, acc: Seq<char>) -> Seq<char> {
        let name = self.deep_view().name;
        if self.deep_view().optionality is Optional {
            acc + "                "@ + name + ": "@ + name + ".map(Into::into),\n"@
        } else {
            acc + "                "@ + name + ": "@ + name + ".into(),\n"@
        }
    }

    fn visit_write(&self, output: &mut String) {
        let name = self.name.as_snake_case();
        output.append("                ");
        output.append(name);
        output.append(": ");
        output.append(name);
        match self.optionality {
            Optionality::Optional => {
                output.append(".map(Into::into),\n");
            },
            _ => {
                output.append(".into(),\n");
            },
        }
    }
}

impl VisitWrite<ConstructConfig> for Switch {
    open spec fn written(&self, acc: Seq<char>) -> Seq<char> {
        let name = self.deep_view().name;
        let default_value = if kind_is_inverted(self.kind) {
            "true"@
        } else if kind_is_count(self.kind) {
            "0"@
        } else {
            "false"@
        };
        acc + "                "@ + name + ": self."@ + name + ".unwrap_or("@ + default_value
            + "),\n"@
    }

    fn visit_write(&self, output: &mut String) {
        let name = self.name.as_snake_case();
        let default_value = if self.is_inverted() {
            "true"
        } else if self.is_count() {
            "0"
        } else {
            "false"
        };
        output.append("                ");
        output.append(name);
        output.append(": self.");
        output.append(name);
        output.append(".unwrap_or(");
        output.append(default_value);
        output.append("),\n");
    }
}

/// `acc` and then the statement that puts what `other` gives for the field
/// `name` in the place of what is there.
pub open spec fn overwrite(acc: Seq<char>, name: Seq<char>) -> Seq<char> {
    acc + "            if other."@ + name + ".is_some() {\n"@ + "                self."@ + name
        + " = other."@ + name + ";\n"@ + "            }\n"@
}

/// Writes the statement that puts what `other` gives for the field `name`
/// in the place of what is there.
fn push_overwrite(output: &mut String, name: &str)
    ensures
        final(output)@ == overwrite(old(output)@, name@),
{
    output.append("            if other.");
    output.append(name);
    output.append(".is_some() {\n");
    output.append("                self.");
    output.append(name);
    output.append(" = other.");
    output.append(name);
    output.append(";\n");
    output.append("            }\n");
}

/// `acc` and then the statement that takes the value `value` in for the
/// field `name` with the combinator `merge_fn`, each line behind `indent`.
pub open spec fn combine(
    acc: Seq<char>,
    indent: Seq<char>,
    name: Seq<char>,
    merge_fn: Seq<char>,
    value: Seq<char>,
) -> Seq<char> {
    acc + indent + "if let Some("@ + name + "_old) = &mut self."@ + name + " {\n"@ + indent
        + "    "@ + merge_fn + "("@ + name + "_old, "@ + value + ");\n"@ + indent + "} else {\n"@
        + indent + "    self."@ + name + " = Some("@ + value + ");\n"@ + indent + "}\n"@
}

/// Writes the statement that takes the value `value` in for the field
/// `name` with the combinator `merge_fn`.
pub fn push_combine(output: &mut String, indent: &str, name: &str, merge_fn: &str, value: &str)
    ensures
        final(output)@ == combine(old(output)@, indent@, name@, merge_fn@, value@),
{
    output.append(indent);
    output.append("if let Some(");
    output.append(name);
    output.append("_old) = &mut self.");
    output.append(name);
    output.append(" {\n");
    output.append(indent);
    output.append("    ");
    output.append(merge_fn);
    output.append("(");
    output.append(name);
    output.append("_old, ");
    output.append(value);
    output.append(");\n");
    output.append(indent);
    output.append("} else {\n");
    output.append(indent);
    output.append("    self.");
    output.append(name);
    output.append(" = Some(");
    output.append(value);
    output.append(");\n");
    output.append(indent);
    output.append("}\n");
}

impl VisitWrite<MergeIn> for Param {
    open spec fn written(&self, acc: Seq<char>) -> Seq<char> {
        let name = self.deep_view().name;
        match self.deep_view().merge_fn {
            Some(merge_fn) => acc + "            if let Some("@ + name + ") = other."@ + name
                + " {\n"@ + "                if let Some("@ + name + "_old) = &mut self."@ + name
                + " {\n"@ + "                    "@ + merge_fn + "("@ + name + "_old, "@ + name
                + ");\n"@ + "                } else {\n"@ + "                    self."@ + name
                + " = Some("@ + name + ");\n"@ + "                }\n"@ + "            }\n"@,
            None => overwrite(acc, name),
        }
    }

    fn visit_write(&self, output: &mut String) {
        let name = self.name.as_snake_case();
        match &self.merge_fn {
            Some(merge_fn) => {
                output.append("            if let Some(");
                output.append(name);
                output.append(") = other.");
                output.append(name);
                output.append(" {\n");
                output.append("                if let Some(");
                output.append(name);
                output.append("_old) = &mut self.");
                output.append(name);
                output.append(" {\n");
                output.append("                    ");
                output.append(merge_fn.as_str());
                output.append("(");
                output.append(name);
                output.append("_old, ");
                output.append(name);
                output.append(");\n");
                output.append("                } else {\n");
                output.append("                    self.");
                output.append(name);
                output.append(" = Some(");
                output.append(name);
                output.append(");\n");
                output.append("                }\n");
                output.append("            }\n");
            },
            None => {
                push_overwrite(output, name);
            },
        }
    }
}

impl VisitWrite<MergeIn> for Switch {
    open spec fn written(&self, acc: Seq<char>) -> Seq<char> {
        overwrite(acc, self.deep_view().name)
    }

    fn visit_write(&self, output: &mut String) {
        push_overwrite(output, self.name.as_snake_case());
    }
}

/// `acc` and then the start of the branch that takes in the long option
/// `name`, which has a value.
pub open spec fn match_long(acc: Seq<char>, name: Seq<char>) -> Seq<char> {
    acc + "                } else if let Some(value) = ::configure_me::parse_arg::match_arg(\"--"@
        + hyphenated(name) + "\", &arg, &mut iter) {\n"@
}

/// Writes the start of the branch that takes in the long option of the
/// field `name`, which has a value.
fn push_match_long(output: &mut String, name: &crate::ident::Ident)
    ensures
        final(output)@ == match_long(old(output)@, name.deep_view()),
{
    output.append(
        "                } else if let Some(value) = ::configure_me::parse_arg::match_arg(\"--",
    );
    output.append(name.as_hypenated().as_str());
    output.append("\", &arg, &mut iter) {\n");
}

impl VisitWrite<MergeArgs> for Param {
    open spec fn written(&self, acc: Seq<char>) -> Seq<char> {
        let name = self.deep_view().name;
        if self.argument {
            let acc = match_long(acc, name) + "                    let "@ + name
                + " = value.map_err(|err| err.map_or(ArgParseError::MissingArgument(\"--"@
                + hyphenated(name) + "\"), ArgParseError::Field"@ + pascal_case(name) + "))?;\n"@
                + "\n"@;
            match self.deep_view().merge_fn {
                Some(merge_fn) => combine(acc, "                    "@, name, merge_fn, name),
                None => acc + "                    self."@ + name + " = Some("@ + name + ");\n"@,
            }
        } else {
            acc
        }
    }

    fn visit_write(&self, output: &mut String) {
        if self.argument {
            let name = self.name.as_snake_case();
            push_match_long(output, &self.name);
            output.append("                    let ");
            output.append(name);
            output.append(" = value.map_err(|err| err.map_or(ArgParseError::MissingArgument(\"--");
            output.append(self.name.as_hypenated().as_str());
            output.append("\"), ArgParseError::Field");
            output.append(self.name.as_pascal_case().as_str());
            output.append("))?;\n");
            output.append("\n");
            match &self.merge_fn {
                Some(merge_fn) => {
                    push_combine(output, "                    ", name, merge_fn.as_str(), name);
                },
                None => {
                    output.append("                    self.");
                    output.append(name);
                    output.append(" = Some(");
                    output.append(name);
                    output.append(");\n");
                },
            }
        }
    }
}

impl VisitWrite<MergeArgs> for Switch {
    open spec fn written(&self, acc: Seq<char>) -> Seq<char> {
        let name = self.deep_view().name;
        if kind_is_inverted(self.kind) {
            acc + "                } else if arg == *\"--no-"@ + hyphenated(name) + "\" {\n"@
                + "                    self."@ + name + " = Some(false);\n"@
        } else if kind_is_count(self.kind) {
            acc + "                } else if arg == *\"--"@ + hyphenated(name) + "\" {\n"@
                + "                    *(self."@ + name + ".get_or_insert(0)) += 1;\n"@
        } else {
            acc + "                } else if arg == *\"--"@ + hyphenated(name) + "\" {\n"@
                + "                    self."@ + name + " = Some(true);\n"@
        }
    }

    fn visit_write(&self, output: &mut String) {
        let name = self.name.as_snake_case();
        if self.is_inverted() {
            output.append("                } else if arg == *\"--no-");
            output.append(self.name.as_hypenated().as_str());
            output.append("\" {\n");
            output.append("                    self.");
            output.append(name);
            output.append(" = Some(false);\n");
        } else {
            output.append("                } else if arg == *\"--");
            output.append(self.name.as_hypenated().as_str());
            output.append("\" {\n");
            if self.is_count() {
                output.append("                    *(self.");
                output.append(name);
                output.append(".get_or_insert(0)) += 1;\n");
            } else {
                output.append("                    self.");
                output.append(name);
                output.append(" = Some(true);\n");
            }
        }
    }
}

/// `acc` and then the statement that takes the path that was given for the
/// long option `name`.
pub open spec fn take_path(acc: Seq<char>, variable: Seq<char>, name: Seq<char>) -> Seq<char> {
    acc + "                    let "@ + variable
        + ": std::path::PathBuf = value.map_err(|err| err.map_or(ArgParseError::MissingArgument(\"--"@
        + hyphenated(name) + "\"), |never| match never {}))?;\n"@
}

impl VisitWrite<MergeArgs> for General {
    open spec fn written(&self, acc: Seq<char>) -> Seq<char> {
        let acc = match self.deep_view().conf_file_param {
            Some(name) => take_path(match_long(acc, name), "file_path"@, name)
                + "                    let config = Config::load(file_path)?;\n"@
                + "                    self.merge_in(config);\n"@,
            None => acc,
        };
        let acc = match self.deep_view().conf_dir_param {
            Some(name) => take_path(match_long(acc, name), "dir_path"@, name) + "\n"@
                + "                    let dir = match std::fs::read_dir(&dir_path) {\n"@
                + "                        Ok(dir) => dir,\n"@
                + "                        Err(err) => return Err(ArgParseError::OpenConfDir(err, dir_path).into()),\n"@
                + "                    };\n"@ + "\n"@ + "                    for file in dir {\n"@
                + "                        let file = match file {\n"@
                + "                            Ok(file) => file,\n"@
                + "                            Err(err) => return Err(ArgParseError::ReadConfDir(err, dir_path).into()),\n"@
                + "                        };\n"@ + "\n"@
                + "                        let config = Config::load(file.path())?;\n"@
                + "                        self.merge_in(config);\n"@ + "                    }\n"@,
            None => acc,
        };
        match self.deep_view().skip_default_conf_files_switch {
            Some(name) => acc + "                } else if arg == *\"--"@ + hyphenated(name)
                + "\" {\n"@ + "                    *skip_default_conf_files = true;\n"@,
            None => acc,
        }
    }

    fn visit_write(&self, output: &mut String) {
        match &self.conf_file_param {
            Some(name) => {
                push_match_long(output, name);
                output.append("                    let ");
                output.append("file_path");
                output.append(
                    ": std::path::PathBuf = value.map_err(|err| err.map_or(ArgParseError::MissingArgument(\"--",
                );
                output.append(name.as_hypenated().as_str());
                output.append("\"), |never| match never {}))?;\n");
                output.append("                    let config = Config::load(file_path)?;\n");
                output.append("                    self.merge_in(config);\n");
            },
            None => {},
        }
        match &self.conf_dir_param {
            Some(name) => {
                push_match_long(output, name);
                output.append("                    let ");
                output.append("dir_path");
                output.append(
                    ": std::path::PathBuf = value.map_err(|err| err.map_or(ArgParseError::MissingArgument(\"--",
                );
                output.append(name.as_hypenated().as_str());
                output.append("\"), |never| match never {}))?;\n");
                output.append("\n");
                output.append("                    let dir = match std::fs::read_dir(&dir_path) {\n");
                output.append("                        Ok(dir) => dir,\n");
                output.append(
                    "                        Err(err) => return Err(ArgParseError::OpenConfDir(err, dir_path).into()),\n",
                );
                output.append("                    };\n");
                output.append("\n");
                output.append("                    for file in dir {\n");
                output.append("                        let file = match file {\n");
                output.append("                            Ok(file) => file,\n");
                output.append(
                    "                            Err(err) => return Err(ArgParseError::ReadConfDir(err, dir_path).into()),\n",
                );
                output.append("                        };\n");
                output.append("\n");
                output.append(
                    "                        let config = Config::load(file.path())?;\n",
                );
                output.append("                        self.merge_in(config);\n");
                output.append("                    }\n");
            },
            None => {},
        }
        match &self.skip_default_conf_files_switch {
            Some(name) => {
                output.append("                } else if arg == *\"--");
                output.append(name.as_hypenated().as_str());
                output.append("\" {\n");
                output.append("                    *skip_default_conf_files = true;\n");
            },
            None => {},
        }
    }
}

/// `acc` and then the start of the branch that takes in the short option
/// `short`.
pub open spec fn match_short(acc: Seq<char>, short: char) -> Seq<char> {
    acc + "                        } else if short == '"@ + seq![short] + "' {\n"@
}

/// Writes the start of the branch that takes in the short option `short`.
fn push_match_short(output: &mut String, short: char)
    ensures
        final(output)@ == match_short(old(output)@, short),
{
    output.append("                        } else if short == '");
    output.push(short);
    output.append("' {\n");
    proof {
        assert(old(output)@ + "                        } else if short == '"@ + seq![short] =~= (
        old(output)@ + "                        } else if short == '"@).push(short));
    }
}

/// `acc` and then the call that reads the value of the short option
/// `short` of the field `name`.
pub open spec fn parse_remaining(acc: Seq<char>, short: char, name: Seq<char>) -> Seq<char> {
    acc
        + "shorts.parse_remaining(&mut iter).map_err(|err| err.map_or(ArgParseError::MissingArgument(\"-"@
        + seq![short] + "\"), ArgParseError::Field"@ + pascal_case(name) + "))?"@
}

/// Writes the call that reads the value of the short option `short` of the
/// field `name`.
fn push_parse_remaining(output: &mut String, short: char, name: &crate::ident::Ident)
    ensures
        final(output)@ == parse_remaining(old(output)@, short, name.deep_view()),
{
    output.append(
        "shorts.parse_remaining(&mut iter).map_err(|err| err.map_or(ArgParseError::MissingArgument(\"-",
    );
    let ghost before = output@;
    output.push(short);
    proof {
        assert(before.push(short) =~= before + seq![short]);
    }
    output.append("\"), ArgParseError::Field");
    output.append(name.as_pascal_case().as_str());
    output.append("))?");
}

impl VisitWrite<MergeShort> for Param {
    open spec fn written(&self, acc: Seq<char>) -> Seq<char> {
        let name = self.deep_view().name;
        match self.abbr {
            Some(short) => if self.argument {
                match self.deep_view().merge_fn {
                    Some(merge_fn) => combine(
                        parse_remaining(
                            match_short(acc, short) + "                            let "@ + name
                                + " = "@,
                            short,
                            name,
                        ) + ";\n"@,
                        "                            "@,
                        name,
                        merge_fn,
                        name,
                    ) + "                            break;\n"@,
                    None => parse_remaining(
                        match_short(acc, short) + "                            self."@ + name
                            + " = Some("@,
                        short,
                        name,
                    ) + ");\n"@ + "                            break;\n"@,
                }
            } else {
                acc
            },
            None => acc,
        }
    }

    fn visit_write(&self, output: &mut String) {
        match self.abbr {
            Some(short) => {
                if self.argument {
                    push_match_short(output, short);
                    match &self.merge_fn {
                        Some(merge_fn) => {
                            output.append("                            let ");
                            output.append(self.name.as_snake_case());
                            output.append(" = ");
                            push_parse_remaining(output, short, &self.name);
                            output.append(";\n");
                            push_combine(
                                output,
                                "                            ",
                                self.name.as_snake_case(),
                                merge_fn.as_str(),
                                self.name.as_snake_case(),
                            );
                        },
                        None => {
                            output.append("                            self.");
                            output.append(self.name.as_snake_case());
                            output.append(" = Some(");
                            push_parse_remaining(output, short, &self.name);
                            output.append(");\n");
                        },
                    }
                    output.append("                            break;\n");
                }
            },
            None => {},
        }
    }
}

impl VisitWrite<MergeShort> for Switch {
    open spec fn written(&self, acc: Seq<char>) -> Seq<char> {
        let name = self.deep_view().name;
        match kind_abbr(self.kind) {
            Some(abbr) => if kind_is_count(self.kind) {
                match_short(acc, abbr) + "                            *(self."@ + name
                    + ".get_or_insert(0)) += 1;\n"@
            } else {
                match_short(acc, abbr) + "                            self."@ + name
                    + " = Some(true);\n"@
            },
            None => acc,
        }
    }

    fn visit_write(&self, output: &mut String) {
        match self.abbr() {
            Some(abbr) => {
                push_match_short(output, abbr);
                if self.is_count() {
                    output.append("                            *(self.");
                    output.append(self.name.as_snake_case());
                    output.append(".get_or_insert(0)) += 1;\n");
                } else {
                    output.append("                            self.");
                    output.append(self.name.as_snake_case());
                    output.append(" = Some(true);\n");
                }
            },
            None => {},
        }
    }
}

impl VisitWrite<MergeShort> for General {
    open spec fn written(&self, acc: Seq<char>) -> Seq<char> {
        acc
    }

    fn visit_write(&self, output: &mut String) {
    }
}

} // verus!
