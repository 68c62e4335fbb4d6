//! The scripts and the list of questions by which a Debian package asks
//! for the configuration of the program when it is installed.

use vstd::prelude::*;
use crate::config::{kind_is_count, kind_is_inverted, Config, Param, Switch};
use crate::debconf::{
    priority_name, ConfigMode, DebConfig, PostinstMode, PostinstModeView, Priority, Umask,
};
use crate::text::{decimal_digits, same_text};

verus! {

/// A field, or a specification, that has a piece of text for the file `T`
/// of the package.
pub trait VisitWrite<T> {
    /// Whether the piece can be written: a field that is asked for when the
    /// package is installed must say what it is.
    spec fn writable(&self) -> bool;

    /// `acc` and then the piece.
    spec fn written(&self, config: &DebConfig, acc: Seq<char>) -> Seq<char>;

    /// Writes the piece to the end of `output`.
    fn visit_write(&self, config: &DebConfig, output: &mut String)
        requires
            self.writable(),
        ensures
            final(output)@ == self.written(config, old(output)@),
    ;
}

/// `acc` and then the pieces for the fields `items`, in their order.
pub open spec fn written_all<T, V: VisitWrite<T>>(
    items: Seq<V>,
    config: &DebConfig,
    acc: Seq<char>,
) -> Seq<char>
    decreases items.len(),
{
    if items.len() == 0 {
        acc
    } else {
        items.last().written(config, written_all::<T, V>(items.drop_last(), config, acc))
    }
}

/// Whether the piece of each of `items` can be written.
pub open spec fn all_writable<T, V: VisitWrite<T>>(items: Seq<V>) -> bool {
    forall|i: int| 0 <= i < items.len() ==> (#[trigger] items[i]).writable()
}

/// Writes the pieces for the fields `items`, in their order.
pub fn iter<T, V: VisitWrite<T>>(items: &Vec<V>, config: &DebConfig, output: &mut String)
    requires
        all_writable::<T, V>(items@),
    ensures
        final(output)@ == written_all::<T, V>(items@, config, old(output)@),
{
    let mut i: usize = 0;
    proof {
        assert(items@.take(0) =~= Seq::empty());
    }
    while i < items.len()
        invariant
            i <= items.len(),
            all_writable::<T, V>(items@),
            output@ == written_all::<T, V>(items@.take(i as int), config, old(output)@),
        decreases items.len() - i,
    {
        proof {
            assert(items@.take(i + 1).drop_last() =~= items@.take(i as int));
        }
        items[i].visit_write(config, output);
        i = i + 1;
    }
    proof {
        assert(items@.take(items.len() as int) =~= items@);
    }
}

/// The file that lists the questions.
pub enum Templates {
    /// The one value of the mark.
    Mark,
}

/// The script that asks the questions.
pub enum Ask {
    /// The one value of the mark.
    Mark,
}

/// The script that stores the answers.
pub enum Postinst {
    /// The one value of the mark.
    Mark,
}

/// `acc` and then the name of the question for the field `name`.
pub open spec fn question(acc: Seq<char>, config: &DebConfig, name: Seq<char>) -> Seq<char> {
    acc + config.package_name@ + "/"@ + name
}

/// Writes the name of the question for the field `name`.
fn push_question(output: &mut String, config: &DebConfig, name: &str)
    ensures
        final(output)@ == question(old(output)@, config, name@),
{
    output.append(config.package_name.as_str());
    output.append("/");
    output.append(name);
}

impl VisitWrite<Templates> for Param {
    open spec fn writable(&self) -> bool {
        self.debconf_priority is Some ==> self.doc is Some
    }

    open spec fn written(&self, config: &DebConfig, acc: Seq<char>) -> Seq<char> {
        if self.debconf_priority is Some {
            let acc = question(acc + "Template: "@, config, self.deep_view().name) + "\n"@;
            let acc = if self.ty@ == "bool"@ {
                acc + "Type: bool\n"@
            } else {
                acc + "Type: string\n"@
            };
            let acc = match self.debconf_default {
                Some(default) => acc + "Default: "@ + default@ + "\n"@,
                None => acc,
            };
            acc + "Description: "@ + self.doc->0@ + "\n"@ + "\n"@
        } else {
            acc
        }
    }

    fn visit_write(&self, config: &DebConfig, output: &mut String) {
        if self.debconf_priority.is_some() {
            output.append("Template: ");
            push_question(output, config, self.name.as_snake_case());
            output.append("\n");
            if same_text(self.ty.as_str(), "bool") {
                output.append("Type: bool\n");
            } else {
                output.append("Type: string\n");
            }
            match &self.debconf_default {
                Some(default) => {
                    output.append("Default: ");
                    output.append(default.as_str());
                    output.append("\n");
                },
                None => {},
            }
            output.append("Description: ");
            match &self.doc {
                Some(doc) => {
                    output.append(doc.as_str());
                },
                None => {},
            }
            output.append("\n");
            output.append("\n");
        }
    }
}

impl VisitWrite<Templates> for Switch {
    open spec fn writable(&self) -> bool {
        self.debconf_priority is Some ==> self.doc is Some
    }

    open spec fn written(&self, config: &DebConfig, acc: Seq<char>) -> Seq<char> {
        if self.debconf_priority is Some {
            let acc = question(acc + "Template: "@, config, self.deep_view().name) + "\n"@;
            let acc = if kind_is_count(self.kind) {
                acc + "Type: string\n"@ + "Default: 0\n"@
            } else if kind_is_inverted(self.kind) {
                acc + "Type: bool\n"@ + "Default: true\n"@
            } else {
                acc + "Type: bool\n"@ + "Default: false\n"@
            };
            acc + "Description: "@ + self.doc->0@ + "\n"@ + "\n"@
        } else {
            acc
        }
    }

    fn visit_write(&self, config: &DebConfig, output: &mut String) {
        if self.debconf_priority.is_some() {
            output.append("Template: ");
            push_question(output, config, self.name.as_snake_case());
            output.append("\n");
            if self.is_count() {
                output.append("Type: string\n");
                output.append("Default: 0\n");
            } else {
                output.append("Type: bool\n");
                if self.is_inverted() {
                    output.append("Default: true\n");
                } else {
                    output.append("Default: false\n");
                }
            }
            output.append("Description: ");
            match &self.doc {
                Some(doc) => {
                    output.append(doc.as_str());
                },
                None => {},
            }
            output.append("\n");
            output.append("\n");
        }
    }
}

/// `acc` and then the line that asks the question for the field `name`, if
/// it is asked.
pub open spec fn asked(
    acc: Seq<char>,
    config: &DebConfig,
    priority: Option<Priority>,
    name: Seq<char>,
) -> Seq<char> {
    match priority {
        Some(priority) => question(acc + "db_input "@ + priority_name(priority) + " "@, config, name)
            + " || true\n"@,
        None => acc,
    }
}

/// Writes the line that asks the question for the field `name`, if it is
/// asked.
fn push_asked(output: &mut String, config: &DebConfig, priority: Option<Priority>, name: &str)
    ensures
        final(output)@ == asked(old(output)@, config, priority, name@),
{
    match priority {
        Some(priority) => {
            output.append("db_input ");
            output.append(priority.as_str());
            output.append(" ");
            push_question(output, config, name);
            output.append(" || true\n");
        },
        None => {},
    }
}

impl VisitWrite<Ask> for Param {
    open spec fn writable(&self) -> bool {
        true
    }

    open spec fn written(&self, config: &DebConfig, acc: Seq<char>) -> Seq<char> {
        asked(acc, config, self.debconf_priority, self.deep_view().name)
    }

    fn visit_write(&self, config: &DebConfig, output: &mut String) {
        push_asked(output, config, self.debconf_priority, self.name.as_snake_case());
    }
}

impl VisitWrite<Ask> for Switch {
    open spec fn writable(&self) -> bool {
        true
    }

    open spec fn written(&self, config: &DebConfig, acc: Seq<char>) -> Seq<char> {
        asked(acc, config, self.debconf_priority, self.deep_view().name)
    }

    fn visit_write(&self, config: &DebConfig, output: &mut String) {
        push_asked(output, config, self.debconf_priority, self.name.as_snake_case());
    }
}

/// Whether values of the type `ty` are written to the configuration file
/// as they are answered, without quotes.
pub open spec fn is_bare(ty: Seq<char>) -> bool {
    ty == "bool"@ || ty == "u8"@ || ty == "u16"@ || ty == "u32"@ || ty == "u64"@ || ty == "u128"@
        || ty == "i8"@ || ty == "i16"@ || ty == "i32"@ || ty == "i64"@ || ty == "i128"@
}

/// Computes [`is_bare`].
fn bare(ty: &str) -> (r: bool)
    ensures
        r == is_bare(ty@),
{
    same_text(ty, "bool") || same_text(ty, "u8") || same_text(ty, "u16") || same_text(ty, "u32")
        || same_text(ty, "u64") || same_text(ty, "u128") || same_text(ty, "i8") || same_text(
        ty,
        "i16",
    ) || same_text(ty, "i32") || same_text(ty, "i64") || same_text(ty, "i128")
}

/// `acc` and then the lines that store the answer for the field `name` as
/// it was given.
pub open spec fn stored_bare(acc: Seq<char>, config: &DebConfig, name: Seq<char>) -> Seq<char> {
    question(acc + "db_get "@, config, name) + "\n"@ + "echo "@ + name
        + "=\"$RET\" >> \"$CONF_FILE\"\n"@
}

/// Writes the lines that store the answer for the field `name` as it was
/// given.
fn push_stored_bare(output: &mut String, config: &DebConfig, name: &str)
    ensures
        final(output)@ == stored_bare(old(output)@, config, name@),
{
    output.append("db_get ");
    push_question(output, config, name);
    output.append("\n");
    output.append("echo ");
    output.append(name);
    output.append("=\"$RET\" >> \"$CONF_FILE\"\n");
}

impl VisitWrite<Postinst> for Param {
    open spec fn writable(&self) -> bool {
        true
    }

    open spec fn written(&self, config: &DebConfig, acc: Seq<char>) -> Seq<char> {
        let name = self.deep_view().name;
        if self.debconf_priority is None {
            acc
        } else if is_bare(self.ty@) {
            stored_bare(acc, config, name)
        } else {
            question(acc + "db_get "@, config, name) + "\n"@
                + "echo \"$RET\" | sed -e 's/\"/\\\"/g' -e 's/^/"@ + name
                + "=\"/' -e 's/$/\"/' >> \"$CONF_FILE\"\n"@
        }
    }

    fn visit_write(&self, config: &DebConfig, output: &mut String) {
        if self.debconf_priority.is_some() {
            if bare(self.ty.as_str()) {
                push_stored_bare(output, config, self.name.as_snake_case());
            } else {
                output.append("db_get ");
                push_question(output, config, self.name.as_snake_case());
                output.append("\n");
                output.append("echo \"$RET\" | sed -e 's/\"/\\\"/g' -e 's/^/");
                output.append(self.name.as_snake_case());
                output.append("=\"/' -e 's/$/\"/' >> \"$CONF_FILE\"\n");
            }
        }
    }
}

impl VisitWrite<Postinst> for Switch {
    open spec fn writable(&self) -> bool {
        true
    }

    open spec fn written(&self, config: &DebConfig, acc: Seq<char>) -> Seq<char> {
        if self.debconf_priority is Some {
            stored_bare(acc, config, self.deep_view().name)
        } else {
            acc
        }
    }

    fn visit_write(&self, config: &DebConfig, output: &mut String) {
        if self.debconf_priority.is_some() {
            push_stored_bare(output, config, self.name.as_snake_case());
        }
    }
}

/// `acc` and then the pieces of all parameters and all switches for the
/// file `T`.
pub open spec fn fields_written<T>(spec: &Config, config: &DebConfig, acc: Seq<char>) -> Seq<
    char,
> where Param: VisitWrite<T>, Switch: VisitWrite<T> {
    written_all::<T, Switch>(
        spec.switches@,
        config,
        written_all::<T, Param>(spec.params@, config, acc),
    )
}

/// Whether the piece of every field can be written.
pub open spec fn fields_writable<T>(spec: &Config) -> bool where
    Param: VisitWrite<T>,
    Switch: VisitWrite<T>,
 {
    all_writable::<T, Param>(spec.params@) && all_writable::<T, Switch>(spec.switches@)
}

/// Writes the pieces of all parameters and all switches for the file `T`.
fn write_fields<T>(spec: &Config, config: &DebConfig, output: &mut String) where
    Param: VisitWrite<T>,
    Switch: VisitWrite<T>,

    requires
        fields_writable::<T>(spec),
    ensures
        final(output)@ == fields_written::<T>(spec, config, old(output)@),
{
    iter::<T, Param>(&spec.params, config, output);
    iter::<T, Switch>(&spec.switches, config, output);
}

impl VisitWrite<Templates> for Config {
    open spec fn writable(&self) -> bool {
        fields_writable::<Templates>(self)
    }

    open spec fn written(&self, config: &DebConfig, acc: Seq<char>) -> Seq<char> {
        fields_written::<Templates>(self, config, acc)
    }

    fn visit_write(&self, config: &DebConfig, output: &mut String) {
        write_fields::<Templates>(self, config, output);
    }
}

impl VisitWrite<Ask> for Config {
    open spec fn writable(&self) -> bool {
        true
    }

    open spec fn written(&self, config: &DebConfig, acc: Seq<char>) -> Seq<char> {
        if config.config == ConfigMode::WithBoilerplate {
            fields_written::<Ask>(
                self,
                config,
                acc + "#!/bin/bash\n"@ + "\n"@ + ". /usr/share/debconf/confmodule\n"@ + "\n"@,
            ) + "\n"@ + "db_go\n"@
        } else {
            fields_written::<Ask>(self, config, acc)
        }
    }

    fn visit_write(&self, config: &DebConfig, output: &mut String) {
        match config.config {
            ConfigMode::WithBoilerplate => {
                output.append("#!/bin/bash\n");
                output.append("\n");
                output.append(". /usr/share/debconf/confmodule\n");
                output.append("\n");
                write_fields::<Ask>(self, config, output);
                output.append("\n");
                output.append("db_go\n");
            },
            ConfigMode::Lib => {
                write_fields::<Ask>(self, config, output);
            },
        }
    }
}

/// The digits of a mask, as they are written.
pub open spec fn umask_text(mask: Umask) -> Seq<char> {
    decimal_digits(mask.special.0 as nat) + decimal_digits(mask.user.0 as nat) + decimal_digits(
        mask.group.0 as nat,
    ) + decimal_digits(mask.others.0 as nat)
}

/// The mask that is set while the configuration file is written: the one
/// that is asked for, or the one that leaves the file to its owner alone.
pub open spec fn mask_or_paranoid(mask: Option<Umask>) -> Umask {
    match mask {
        Some(mask) => mask,
        None => Umask {
            special: crate::debconf::UmaskDigit(0),
            user: crate::debconf::UmaskDigit(0),
            group: crate::debconf::UmaskDigit(7),
            others: crate::debconf::UmaskDigit(7),
        },
    }
}

/// `acc` and then the line that hands the file to `who`, if anyone is
/// named.
pub open spec fn handed_to(acc: Seq<char>, command: Seq<char>, who: Option<Seq<char>>) -> Seq<
    char,
> {
    match who {
        Some(who) => acc + command + who + " \"$CONF_FILE\"\n"@,
        None => acc,
    }
}

impl VisitWrite<Postinst> for Config {
    open spec fn writable(&self) -> bool {
        true
    }

    open spec fn written(&self, config: &DebConfig, acc: Seq<char>) -> Seq<char> {
        match config.postinst.deep_view() {
            PostinstModeView::WithBoilerplate { conf_file, conf_umask, conf_owner, conf_group } => {
                let acc = acc + "#!/bin/bash\n"@ + "\n"@ + ". /usr/share/debconf/confmodule\n"@
                    + "\n"@ + "CONF_FILE=\""@ + conf_file + "\"\n"@ + "OLD_UMASK=`umask`\n"@
                    + "umask "@ + umask_text(mask_or_paranoid(conf_umask)) + "\n"@
                    + "echo '# Autogenereated - do NOT modify!' > \"$CONF_FILE\"\n"@
                    + "echo '# Use dpkg-reconfigure to change the configuration' >> \"$CONF_FILE\"\n"@;
                let acc = handed_to(acc, "chown "@, conf_owner);
                let acc = handed_to(acc, "chgrp "@, conf_group);
                fields_written::<Postinst>(self, config, acc) + "umask \"$OLD_UMASK\"\n"@ + "\n"@
                    + "#DEBHELPER#\n"@
            },
            PostinstModeView::Lib => fields_written::<Postinst>(self, config, acc),
        }
    }

    fn visit_write(&self, config: &DebConfig, output: &mut String) {
        match &config.postinst {
            PostinstMode::WithBoilerplate { conf_file, conf_umask, conf_owner, conf_group } => {
                output.append("#!/bin/bash\n");
                output.append("\n");
                output.append(". /usr/share/debconf/confmodule\n");
                output.append("\n");
                output.append("CONF_FILE=\"");
                output.append(conf_file.as_str());
                output.append("\"\n");
                output.append("OLD_UMASK=`umask`\n");
                output.append("umask ");
                let mask = match conf_umask {
                    Some(mask) => *mask,
                    None => Umask::paranoid(),
                };
                output.append(mask.to_string().as_str());
                output.append("\n");
                output.append("echo '# Autogenereated - do NOT modify!' > \"$CONF_FILE\"\n");
                output.append(
                    "echo '# Use dpkg-reconfigure to change the configuration' >> \"$CONF_FILE\"\n",
                );
                match conf_owner {
                    Some(owner) => {
                        output.append("chown ");
                        output.append(owner.as_str());
                        output.append(" \"$CONF_FILE\"\n");
                    },
                    None => {},
                }
                match conf_group {
                    Some(group) => {
                        output.append("chgrp ");
                        output.append(group.as_str());
                        output.append(" \"$CONF_FILE\"\n");
                    },
                    None => {},
                }
                write_fields::<Postinst>(self, config, output);
                output.append("umask \"$OLD_UMASK\"\n");
                output.append("\n");
                output.append("#DEBHELPER#\n");
            },
            PostinstMode::Lib => {
                write_fields::<Postinst>(self, config, output);
            },
        }
    }
}

/// The three files of the package that ask for the configuration and store
/// it.
#[derive(Debug)]
pub struct Generated {
    pub templates: String,
    pub config: String,
    pub postinst: String,
}

/// Whether the parameter is asked for when the package is installed and
/// does not say what it is.
pub open spec fn param_is_silent(param: &Param) -> bool {
    param.debconf_priority is Some && param.doc is None
}

/// Whether the switch is asked for when the package is installed and does
/// not say what it is.
pub open spec fn switch_is_silent(switch: &Switch) -> bool {
    switch.debconf_priority is Some && switch.doc is None
}

/// Whether `name` is that of the first field that is asked for when the
/// package is installed and does not say what it is: the first such
/// parameter, or else the first such switch.
pub open spec fn is_first_silent(spec: &Config, name: Seq<char>) -> bool {
    ||| exists|i: int|
        0 <= i < spec.params.len() && param_is_silent(&spec.params[i]) && name
            == spec.params[i].deep_view().name && forall|k: int|
            0 <= k < i ==> !param_is_silent(#[trigger] &spec.params[k])
    ||| exists|j: int|
        0 <= j < spec.switches.len() && switch_is_silent(&spec.switches[j]) && name
            == spec.switches[j].deep_view().name && (forall|k: int|
            0 <= k < j ==> !switch_is_silent(#[trigger] &spec.switches[k])) && forall|k: int|
            0 <= k < spec.params.len() ==> !param_is_silent(#[trigger] &spec.params[k])
}

/// The field that is asked for when the package is installed and does not
/// say what it is: the first such parameter, or else the first such switch.
/// There is none exactly if the list of questions can be written.
pub fn undocumented(spec: &Config) -> (name: Option<String>)
    ensures
        name is None <==> fields_writable::<Templates>(spec),
        name matches Some(name) ==> is_first_silent(spec, name@),
{
    let mut i: usize = 0;
    while i < spec.params.len()
        invariant
            i <= spec.params.len(),
            forall|k: int| 0 <= k < i ==> !param_is_silent(#[trigger] &spec.params[k]),
            forall|k: int| 0 <= k < i ==> VisitWrite::<Templates>::writable(&spec.params[k]),
        decreases spec.params.len() - i,
    {
        let param = &spec.params[i];
        if param.debconf_priority.is_some() && param.doc.is_none() {
            assert(param_is_silent(&spec.params[i as int]));
            return Some(crate::text::copy_str(param.name.as_snake_case()));
        }
        i = i + 1;
    }
    let mut j: usize = 0;
    while j < spec.switches.len()
        invariant
            j <= spec.switches.len(),
            all_writable::<Templates, Param>(spec.params@),
            forall|k: int|
                0 <= k < spec.params.len() ==> !param_is_silent(#[trigger] &spec.params[k]),
            forall|k: int| 0 <= k < j ==> !switch_is_silent(#[trigger] &spec.switches[k]),
            forall|k: int| 0 <= k < j ==> VisitWrite::<Templates>::writable(&spec.switches[k]),
        decreases spec.switches.len() - j,
    {
        let switch = &spec.switches[j];
        if switch.debconf_priority.is_some() && switch.doc.is_none() {
            assert(switch_is_silent(&spec.switches[j as int]));
            return Some(crate::text::copy_str(switch.name.as_snake_case()));
        }
        j = j + 1;
    }
    None
}

/// Writes the three files of the package, if the build asks for them by
/// naming the directory they belong in and the specification says how the
/// program is packaged.
pub fn generate_if_requested(spec: &Config, debconf_out: &Option<String>) -> (files: Option<
    Generated,
>)
    requires
        debconf_out is Some && spec.debconf is Some ==> fields_writable::<Templates>(spec),
    ensures
        match files {
            Some(files) => {
                &&& debconf_out is Some
                &&& spec.debconf matches Some(debconf)
                &&& files.templates@ == VisitWrite::<Templates>::written(
                    spec,
                    &debconf,
                    Seq::empty(),
                )
                &&& files.config@ == VisitWrite::<Ask>::written(spec, &debconf, Seq::empty())
                &&& files.postinst@ == VisitWrite::<Postinst>::written(
                    spec,
                    &debconf,
                    Seq::empty(),
                )
            },
            None => debconf_out is None || spec.debconf is None,
        },
{
    match (debconf_out, &spec.debconf) {
        (Some(_), Some(debconf)) => {
            let mut templates = String::new();
            VisitWrite::<Templates>::visit_write(spec, debconf, &mut templates);
            let mut config = String::new();
            VisitWrite::<Ask>::visit_write(spec, debconf, &mut config);
            let mut postinst = String::new();
            VisitWrite::<Postinst>::visit_write(spec, debconf, &mut postinst);
            Some(Generated { templates, config, postinst })
        },
        _ => None,
    }
}

} // verus!
