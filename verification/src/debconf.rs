//! The part of a specification that says how the program is configured
//! when it is installed from a Debian package.

pub mod visitor;

use vstd::prelude::*;
use crate::text::{decimal_digits, push_decimal, same_text};

verus! {

/// How important a question is to the person who installs the package.
#[derive(Debug, Clone, Copy, PartialEq, Eq, Structural)]
pub enum Priority {
    Low,
    Medium,
    High,
    Critical,
}

impl DeepView for Priority {
    type V = Priority;

    open spec fn deep_view(&self) -> Priority {
        *self
    }
}

/// The word that a specification uses for `priority`.
pub open spec fn priority_name(priority: Priority) -> Seq<char> {
    match priority {
        Priority::Low => "low"@,
        Priority::Medium => "medium"@,
        Priority::High => "high"@,
        Priority::Critical => "critical"@,
    }
}

/// The priority that `word` names, if it names one.
pub open spec fn priority_of(word: Seq<char>) -> Option<Priority> {
    if word == "low"@ {
        Some(Priority::Low)
    } else if word == "medium"@ {
        Some(Priority::Medium)
    } else if word == "high"@ {
        Some(Priority::High)
    } else if word == "critical"@ {
        Some(Priority::Critical)
    } else {
        None
    }
}

impl Priority {
    /// The word that a specification uses for this priority.
    pub fn as_str(&self) -> (word: &'static str)
        ensures
            word@ == priority_name(*self),
    {
        match self {
            Priority::Low => "low",
            Priority::Medium => "medium",
            Priority::High => "high",
            Priority::Critical => "critical",
        }
    }

    /// Reads a priority from the word a specification uses for it.
    pub fn parse(word: &str) -> (priority: Option<Priority>)
        ensures
            priority == priority_of(word@),
    {
        if same_text(word, "low") {
            Some(Priority::Low)
        } else if same_text(word, "medium") {
            Some(Priority::Medium)
        } else if same_text(word, "high") {
            Some(Priority::High)
        } else if same_text(word, "critical") {
            Some(Priority::Critical)
        } else {
            None
        }
    }
}

/// Why a text was refused as a file mode mask.
#[derive(Debug, Clone, Copy, PartialEq, Eq, Structural)]
pub enum UmaskError {
    /// The byte is not a decimal digit.
    InvalidDigit(u8),
    /// The text has neither three nor four bytes.
    InvalidLen(usize),
}

/// One digit of a file mode mask.
#[derive(Debug, Clone, Copy, PartialEq, Eq, Structural)]
pub struct UmaskDigit(pub u8);

/// A file mode mask: the permissions that new files must not get.
#[derive(Debug, Clone, Copy, PartialEq, Eq, Structural)]
pub struct Umask {
    pub special: UmaskDigit,
    pub user: UmaskDigit,
    pub group: UmaskDigit,
    pub others: UmaskDigit,
}

impl DeepView for Umask {
    type V = Umask;

    open spec fn deep_view(&self) -> Umask {
        *self
    }
}

/// The digit that the byte `val` is the character of.
pub open spec fn umask_digit_of(val: u8) -> Result<UmaskDigit, UmaskError> {
    if 48 <= val && val <= 57 {
        Ok(UmaskDigit((val - 48) as u8))
    } else {
        Err(UmaskError::InvalidDigit(val))
    }
}

/// The first byte of `bytes` that is no digit, if there is one.
pub open spec fn first_non_digit(bytes: Seq<u8>) -> Option<u8>
    decreases bytes.len(),
{
    if bytes.len() == 0 {
        None
    } else if umask_digit_of(bytes[0]) is Err {
        Some(bytes[0])
    } else {
        first_non_digit(bytes.drop_first())
    }
}

/// The mask that the bytes of a text spell: three digits for user, group and
/// others, or four with the special digit in front. A text of another length
/// is refused, and so is one with a byte that is no digit: the first such
/// byte is reported.
pub open spec fn umask_of(bytes: Seq<u8>) -> Result<Umask, UmaskError> {
    if bytes.len() != 3 && bytes.len() != 4 {
        Err(UmaskError::InvalidLen(bytes.len() as usize))
    } else if first_non_digit(bytes) is Some {
        Err(UmaskError::InvalidDigit(first_non_digit(bytes)->0))
    } else if bytes.len() == 3 {
        Ok(
            Umask {
                special: UmaskDigit(0),
                user: UmaskDigit((bytes[0] - 48) as u8),
                group: UmaskDigit((bytes[1] - 48) as u8),
                others: UmaskDigit((bytes[2] - 48) as u8),
            },
        )
    } else {
        Ok(
            Umask {
                special: UmaskDigit((bytes[0] - 48) as u8),
                user: UmaskDigit((bytes[1] - 48) as u8),
                group: UmaskDigit((bytes[2] - 48) as u8),
                others: UmaskDigit((bytes[3] - 48) as u8),
            },
        )
    }
}

impl UmaskDigit {
    /// Reads a digit from its character.
    pub fn try_from(val: u8) -> (digit: Result<UmaskDigit, UmaskError>)
        ensures
            digit == umask_digit_of(val),
    {
        if val >= 48 && val <= 57 {
            Ok(UmaskDigit(val - 48))
        } else {
            Err(UmaskError::InvalidDigit(val))
        }
    }
}

impl Umask {
    /// The mask that leaves a file to its owner alone.
    pub fn paranoid() -> (mask: Umask)
        ensures
            mask == (Umask {
                special: UmaskDigit(0),
                user: UmaskDigit(0),
                group: UmaskDigit(7),
                others: UmaskDigit(7),
            }),
    {
        Umask {
            special: UmaskDigit(0),
            user: UmaskDigit(0),
            group: UmaskDigit(7),
            others: UmaskDigit(7),
        }
    }

    /// Reads a mask from the text that spells it.
    pub fn try_from(val: String) -> (mask: Result<Umask, UmaskError>)
        ensures
            mask == umask_of(vstd::utf8::encode_utf8(val@)),
    {
        let bytes = val.as_str().as_bytes();
        let ghost all = bytes@;
        if bytes.len() == 3 {
            let user = UmaskDigit::try_from(bytes[0]);
            let group = UmaskDigit::try_from(bytes[1]);
            let others = UmaskDigit::try_from(bytes[2]);
            proof {
                reveal_with_fuel(first_non_digit, 5);
                assert(all.drop_first().drop_first().drop_first().len() == 0);
            }
            match (user, group, others) {
                (Ok(user), Ok(group), Ok(others)) => Ok(
                    Umask { special: UmaskDigit(0), user, group, others },
                ),
                (Err(error), _, _) => Err(error),
                (_, Err(error), _) => Err(error),
                (_, _, Err(error)) => Err(error),
            }
        } else if bytes.len() == 4 {
            let special = UmaskDigit::try_from(bytes[0]);
            let user = UmaskDigit::try_from(bytes[1]);
            let group = UmaskDigit::try_from(bytes[2]);
            let others = UmaskDigit::try_from(bytes[3]);
            proof {
                reveal_with_fuel(first_non_digit, 6);
                assert(all.drop_first().drop_first().drop_first().drop_first().len() == 0);
            }
            match (special, user, group, others) {
                (Ok(special), Ok(user), Ok(group), Ok(others)) => Ok(
                    Umask { special, user, group, others },
                ),
                (Err(error), _, _, _) => Err(error),
                (_, Err(error), _, _) => Err(error),
                (_, _, Err(error), _) => Err(error),
                (_, _, _, Err(error)) => Err(error),
            }
        } else {
            Err(UmaskError::InvalidLen(bytes.len()))
        }
    }

    /// The digits of the mask, as they are written: special, user, group,
    /// others.
    pub fn to_string(&self) -> (text: String)
        ensures
            text@ == decimal_digits(self.special.0 as nat) + decimal_digits(self.user.0 as nat)
                + decimal_digits(self.group.0 as nat) + decimal_digits(self.others.0 as nat),
    {
        let mut out = String::new();
        push_decimal(&mut out, self.special.0 as u128);
        push_decimal(&mut out, self.user.0 as u128);
        push_decimal(&mut out, self.group.0 as u128);
        push_decimal(&mut out, self.others.0 as u128);
        proof {
            assert(Seq::<char>::empty() + decimal_digits(self.special.0 as nat) == decimal_digits(
                self.special.0 as nat,
            ));
        }
        out
    }
}

/// How the script that asks the questions is written.
#[derive(Debug, Clone, Copy, PartialEq, Eq, Structural)]
pub enum ConfigMode {
    /// The whole script, with what it needs before and after the questions.
    WithBoilerplate,
    /// Only the questions, for a script that includes them.
    Lib,
}

impl DeepView for ConfigMode {
    type V = ConfigMode;

    open spec fn deep_view(&self) -> ConfigMode {
        *self
    }
}

impl Default for ConfigMode {
    fn default() -> (mode: ConfigMode)
        ensures
            mode == ConfigMode::WithBoilerplate,
    {
        ConfigMode::WithBoilerplate
    }
}

/// The mode that `word` names in a specification, if it names one.
pub open spec fn config_mode_of(word: Seq<char>) -> Option<ConfigMode> {
    if word == "full"@ {
        Some(ConfigMode::WithBoilerplate)
    } else if word == "lib"@ {
        Some(ConfigMode::Lib)
    } else {
        None
    }
}

impl ConfigMode {
    /// Reads a mode from the word a specification uses for it.
    pub fn parse(word: &str) -> (mode: Option<ConfigMode>)
        ensures
            mode == config_mode_of(word@),
    {
        if same_text(word, "full") {
            Some(ConfigMode::WithBoilerplate)
        } else if same_text(word, "lib") {
            Some(ConfigMode::Lib)
        } else {
            None
        }
    }
}

/// How the script that stores the answers is written.
#[derive(Debug)]
pub enum PostinstMode {
    /// The whole script, which writes the answers to `conf_file`.
    WithBoilerplate {
        conf_file: String,
        conf_umask: Option<Umask>,
        conf_owner: Option<String>,
        conf_group: Option<String>,
    },
    /// Only the part that fetches the answers, for a script that includes it.
    Lib,
}

/// What a [`PostinstMode`] stands for in contracts.
pub enum PostinstModeView {
    WithBoilerplate {
        conf_file: Seq<char>,
        conf_umask: Option<Umask>,
        conf_owner: Option<Seq<char>>,
        conf_group: Option<Seq<char>>,
    },
    Lib,
}

impl DeepView for PostinstMode {
    type V = PostinstModeView;

    open spec fn deep_view(&self) -> PostinstModeView {
        match self {
            PostinstMode::WithBoilerplate {
                conf_file,
                conf_umask,
                conf_owner,
                conf_group,
            } => PostinstModeView::WithBoilerplate {
                conf_file: conf_file@,
                conf_umask: *conf_umask,
                conf_owner: conf_owner.deep_view(),
                conf_group: conf_group.deep_view(),
            },
            PostinstMode::Lib => PostinstModeView::Lib,
        }
    }
}

impl Default for PostinstMode {
    fn default() -> (mode: PostinstMode)
        ensures
            mode.deep_view() == PostinstModeView::Lib,
    {
        PostinstMode::Lib
    }
}

/// What a specification says about the Debian package of the program.
#[derive(Debug)]
pub struct DebConfig {
    pub package_name: String,
    pub config: ConfigMode,
    pub postinst: PostinstMode,
}

/// What a [`DebConfig`] stands for in contracts.
pub struct DebConfigView {
    pub package_name: Seq<char>,
    pub config: ConfigMode,
    pub postinst: PostinstModeView,
}

impl DeepView for DebConfig {
    type V = DebConfigView;

    open spec fn deep_view(&self) -> DebConfigView {
        DebConfigView {
            package_name: self.package_name@,
            config: self.config,
            postinst: self.postinst.deep_view(),
        }
    }
}

} // verus!
