//! What is said of the findings of an examination: in one line each, and
//! as a report that points at the places in the text of the specification.

use vstd::prelude::*;
use crate::config::{
    FieldError, ValidationError, ValidationErrorSource, ValidationErrorView};
use crate::ident;
use crate::segment::{plus, sum};
use crate::span::Span;
use crate::text::{decimal_digits, push_decimal};
use crate::views::lemma_deep_view_empty;

verus! {

/// What is said of a field that is wrong in the way `kind` says.
pub open spec fn field_error_text(kind: FieldError) -> Seq<char> {
    match kind {
        FieldError::MandatoryWithDefault { .. } => "parameter with default value must be optional"@,
        FieldError::InvertedWithAbbr { .. } => "inverted switch can't have a short option"@,
        FieldError::InvertedWithCount { .. } => "inverted switch can't be a count"@,
        FieldError::InvalidAbbr { .. } => "invalid short switch: must be [a-zA-Z]"@,
        FieldError::ReservedParameter => "this parameter is reserved and always implemented by configure_me"@,
    }
}

/// `acc` and then the offsets `positions` from the place `from` on, each
/// behind a comma.
pub open spec fn more_positions(acc: Seq<char>, positions: Seq<usize>, from: int) -> Seq<char>
    decreases positions.len() - from,
{
    if from < 0 || from >= positions.len() {
        acc
    } else {
        more_positions(
            acc + ", "@ + decimal_digits(positions[from] as nat),
            positions,
            from + 1,
        )
    }
}

/// What is said of a string that is no legal field name.
pub open spec fn ident_error_text(error: ident::ErrorView) -> Seq<char> {
    match error {
        ident::ErrorView::InvalidChars { string, positions, .. } => if positions.len() == 1 {
            "\""@ + string + "\" is not a valid identifier, invalid char at position "@
                + decimal_digits(positions[0] as nat)
        } else if positions.len() == 0 {
            "\""@ + string + "\" is not a valid identifier, invalid chars at positions: "@
        } else {
            more_positions(
                "\""@ + string + "\" is not a valid identifier, invalid chars at positions: "@
                    + decimal_digits(positions[0] as nat),
                positions,
                1,
            )
        },
        ident::ErrorView::Empty { .. } => "the identifier is empty"@,
    }
}

/// What is said of a finding, in one line.
pub open spec fn validation_error_text(error: ValidationErrorView) -> Seq<char> {
    match error {
        ValidationErrorView::InvalidField { name, kind, .. } => "invalid configuration for field "@
            + name + ": "@ + field_error_text(kind),
        ValidationErrorView::Duplicates { name, duplicate_spans, .. } => "the option "@ + name
            + " occurs "@ + decimal_digits(duplicate_spans.len() + 1) + " times"@,
        ValidationErrorView::InvalidIdentifier(error) => ident_error_text(error),
        ValidationErrorView::InvalidProgramName { input, .. } => "`"@ + input
            + "` is not a valid program name handling strategy"@,
    }
}

impl ident::Error {
    /// What is said of the error, in one line.
    pub fn to_string(&self) -> (text: String)
        ensures
            text@ == ident_error_text(self.deep_view()),
    {
        match self {
            ident::Error::InvalidChars { string, positions, .. } => {
                let mut out = String::from_str("\"");
                out.append(string.as_str());
                if positions.len() == 1 {
                    out.append("\" is not a valid identifier, invalid char at position ");
                    push_decimal(&mut out, positions[0] as u128);
                } else {
                    out.append("\" is not a valid identifier, invalid chars at positions: ");
                    if positions.len() > 0 {
                        push_decimal(&mut out, positions[0] as u128);
                        let ghost start = out@;
                        let mut i: usize = 1;
                        while i < positions.len()
                            invariant
                                1 <= i <= positions.len(),
                                more_positions(out@, positions@, i as int) == more_positions(
                                    start,
                                    positions@,
                                    1,
                                ),
                            decreases positions.len() - i,
                        {
                            out.append(", ");
                            push_decimal(&mut out, positions[i] as u128);
                            i = i + 1;
                        }
                    }
                }
                out
            },
            ident::Error::Empty { .. } => String::from_str("the identifier is empty"),
        }
    }
}

impl ValidationError {
    /// What is said of the finding, in one line.
    pub fn to_string(&self) -> (text: String)
        ensures
            text@ == validation_error_text(self.deep_view()),
    {
        match self.source() {
            ValidationErrorSource::InvalidField { name, kind, .. } => {
                let mut out = String::from_str("invalid configuration for field ");
                out.append(name.as_str());
                out.append(": ");
                out.append(
                    match kind {
                        FieldError::MandatoryWithDefault { .. } => "parameter with default value must be optional",
                        FieldError::InvertedWithAbbr { .. } => "inverted switch can't have a short option",
                        FieldError::InvertedWithCount { .. } => "inverted switch can't be a count",
                        FieldError::InvalidAbbr { .. } => "invalid short switch: must be [a-zA-Z]",
                        FieldError::ReservedParameter => "this parameter is reserved and always implemented by configure_me",
                    },
                );
                out
            },
            ValidationErrorSource::Duplicates { name, duplicate_spans, .. } => {
                let mut out = String::from_str("the option ");
                out.append(name.as_str());
                out.append(" occurs ");
                push_decimal(&mut out, duplicate_spans.len() as u128 + 1);
                out.append(" times");
                out
            },
            ValidationErrorSource::InvalidIdentifier(error) => error.to_string(),
            ValidationErrorSource::InvalidProgramName { input, .. } => {
                let mut out = String::from_str("`");
                out.append(input.as_str());
                out.append("` is not a valid program name handling strategy");
                out
            },
        }
    }
}

/// Whether a place is what the report is about, or only explains it.
#[derive(Debug, Clone, Copy, PartialEq, Eq, Structural)]
pub enum LabelStyle {
    Primary,
    Secondary,
}

/// A place in the text of the specification, with what is said of it.
#[derive(Debug, PartialEq, Eq)]
pub struct Label {
    pub style: LabelStyle,
    pub start: usize,
    pub end: usize,
    pub message: String,
}

/// What a [`Label`] stands for in contracts.
pub struct LabelView {
    pub style: LabelStyle,
    pub start: usize,
    pub end: usize,
    pub message: Seq<char>,
}

impl DeepView for Label {
    type V = LabelView;

    open spec fn deep_view(&self) -> LabelView {
        LabelView { style: self.style, start: self.start, end: self.end, message: self.message@ }
    }
}

/// The report of one finding: what is wrong, the places that show it, and
/// advice.
#[derive(Debug, PartialEq, Eq)]
pub struct Diagnostic {
    pub message: String,
    pub labels: Vec<Label>,
    pub notes: Vec<String>,
}

/// What a [`Diagnostic`] stands for in contracts.
pub struct DiagnosticView {
    pub message: Seq<char>,
    pub labels: Seq<LabelView>,
    pub notes: Seq<Seq<char>>,
}

impl DeepView for Diagnostic {
    type V = DiagnosticView;

    open spec fn deep_view(&self) -> DiagnosticView {
        DiagnosticView {
            message: self.message@,
            labels: self.labels.deep_view(),
            notes: self.notes.deep_view(),
        }
    }
}

/// The place `span` as what the report is about.
pub open spec fn primary(span: Span, message: Seq<char>) -> LabelView {
    LabelView { style: LabelStyle::Primary, start: span.start, end: span.end, message }
}

/// The place `span` as an explanation.
pub open spec fn secondary(span: Span, message: Seq<char>) -> LabelView {
    LabelView { style: LabelStyle::Secondary, start: span.start, end: span.end, message }
}

fn label(style: LabelStyle, span: Span, message: &str) -> (label: Label)
    ensures
        label.deep_view() == (LabelView {
            style,
            start: span.start,
            end: span.end,
            message: message@,
        }),
{
    Label { style, start: span.start, end: span.end, message: String::from_str(message) }
}

/// The stretches of offsets that follow each other without a gap, for
/// offsets in rising order: each with its first offset and the one behind its
/// last.
pub open spec fn runs(positions: Seq<usize>) -> Seq<(usize, usize)>
    decreases positions.len(),
{
    if positions.len() == 0 {
        Seq::empty()
    } else {
        let front = runs(positions.drop_last());
        let p = positions.last();
        if front.len() > 0 && front.last().1 == p {
            front.drop_last().push((front.last().0, plus(p, 1)))
        } else {
            front.push((p, plus(p, 1)))
        }
    }
}

/// What is said of a stretch of characters that a field name may not have:
/// of one or of several, and of the first stretch or of a later one.
pub open spec fn run_message(several: bool, later: bool) -> Seq<char> {
    if several {
        if later {
            "... and these chars"@
        } else {
            "these chars are invalid"@
        }
    } else {
        if later {
            "... and this char"@
        } else {
            "this char is invalid"@
        }
    }
}

/// The offset of the first character of the name `string` that is written
/// at `span`: the start of the place where the place is just as long as the
/// name, which then stands bare; else the offset behind it, where the name
/// begins behind its quotation mark.
pub open spec fn name_start(string: Seq<char>, span: Span) -> usize {
    if span.end - span.start == string.len() {
        span.start
    } else {
        plus(span.start, 1)
    }
}

/// The places of the stretches `found` in a string whose first character
/// stands at the offset `start`.
pub open spec fn run_labels(found: Seq<(usize, usize)>, start: usize) -> Seq<LabelView> {
    Seq::new(
        found.len(),
        |k: int|
            LabelView {
                style: LabelStyle::Primary,
                start: plus(start, found[k].0),
                end: plus(start, found[k].1),
                message: run_message(found[k].1 - found[k].0 > 1, k > 0),
            },
    )
}

/// Whether a dash stands in `string` behind a character that is none.
pub open spec fn has_inner_dash(string: Seq<char>) -> bool {
    exists|i: int, j: int| 0 <= i < j < string.len() && string[i] != '-' && string[j] == '-'
}

/// The advice on a string that is no legal field name.
pub open spec fn ident_notes(string: Seq<char>) -> Seq<Seq<char>> {
    let first = if string.len() > 0 && '0' <= string[0] && string[0] <= '9' {
        seq!["Help: identifiers mut not start with digits"@]
    } else if string.len() > 0 && string[0] == '-' {
        seq!["Help: dashes are prepended automatically, you don't need to write them"@]
    } else {
        Seq::empty()
    };
    if has_inner_dash(string) {
        first.push(
            "Help: consider replacing dashes with underscores.\n      They will be replaced with dashes in command line parameters\n      but stay underscores in config files."@,
        )
    } else {
        first
    }
}

/// Whether `string` starts with a digit.
pub open spec fn starts_with_digit(string: Seq<char>) -> bool {
    string.len() > 0 && '0' <= string[0] && string[0] <= '9'
}

/// The report of a string that is no legal field name. A digit at the
/// start has a place of its own; the other characters that a name may not
/// have are shown stretch by stretch. The places are counted from where the
/// name begins, as [`name_start`] says.
pub open spec fn ident_diagnostic(error: ident::ErrorView) -> DiagnosticView {
    match error {
        ident::ErrorView::InvalidChars { string, positions, span } => {
            let message = if positions.len() > 1 {
                "the identifier `"@ + string + "` contains invalid characters"@
            } else {
                "the identifier `"@ + string + "` contains an invalid character"@
            };
            let labels = if starts_with_digit(string) {
                seq![
                    LabelView {
                        style: LabelStyle::Primary,
                        start: name_start(string, span),
                        end: plus(name_start(string, span), 1),
                        message: "the identifier starts with a digit"@,
                    },
                ] + run_labels(
                    runs(
                        if positions.len() > 0 {
                            positions.skip(1)
                        } else {
                            positions
                        },
                    ),
                    name_start(string, span),
                )
            } else {
                run_labels(runs(positions), name_start(string, span))
            };
            DiagnosticView { message, labels, notes: ident_notes(string) }
        },
        ident::ErrorView::Empty { span } => DiagnosticView {
            message: "encountered an empty identifier"@,
            labels: seq![primary(span, "this identifier is empty"@)],
            notes: Seq::empty(),
        },
    }
}

/// The places at which an option was declared again: the first as the one
/// that repeats it, the others as more of the same.
pub open spec fn repeat_labels(spans: Seq<Span>) -> Seq<LabelView> {
    Seq::new(
        spans.len(),
        |k: int|
            primary(
                spans[k],
                if k == 0 {
                    "the option is repeated here"@
                } else {
                    "... and here"@
                },
            ),
    )
}

/// The report of a finding.
pub open spec fn diagnostic_of(error: ValidationErrorView) -> DiagnosticView {
    match error {
        ValidationErrorView::InvalidField { name, span, kind } => match kind {
            FieldError::MandatoryWithDefault { optional_span, default_span } => DiagnosticView {
                message: "parameter attempts to be both optional and mandatory at the same time"@,
                labels: seq![
                    primary(
                        optional_span,
                        "setting `optional` to `false` makes the parameter mandatory here"@,
                    ),
                    primary(
                        default_span,
                        "the default value is provided here making the parameter optional"@,
                    ),
                    secondary(span, "in the parameter `"@ + name + "`"@),
                ],
                notes: seq![
                    "Help: either make the parameter optional or remove the default value"@,
                ],
            },
            FieldError::InvertedWithAbbr { default_span, abbr_span } => DiagnosticView {
                message: "an inverted switch attempts to have a short option"@,
                labels: seq![
                    primary(abbr_span, "short option defined here"@),
                    primary(
                        default_span,
                        "the default value is set to `true` here making the switch inverted"@,
                    ),
                    secondary(span, "in the parameter `"@ + name + "`"@),
                ],
                notes: seq![
                    "Help: remove the short option if you want to keep the parameter inverted"@,
                ],
            },
            FieldError::InvertedWithCount { default_span, count_span } => DiagnosticView {
                message: "inverted switch attempts to be a counter"@,
                labels: seq![
                    primary(count_span, "counter defined here"@),
                    primary(
                        default_span,
                        "the default value is set to `true` here making the switch inverted"@,
                    ),
                    secondary(span, "in the parameter `"@ + name + "`"@),
                ],
                notes: seq![
                    "Help: either don't make the parameter counter or make the parameter non-inverted"@,
                ],
            },
            FieldError::InvalidAbbr { abbr_span } => DiagnosticView {
                message: "invalid short option"@,
                labels: seq![
                    primary(abbr_span, "this option uses an invalid character"@),
                    secondary(span, "in this field"@),
                ],
                notes: seq![
                    "Note: only English letters (both lower case and upper case) are allowed"@,
                ],
            },
            FieldError::ReservedParameter => DiagnosticView {
                message: "use of reserved option"@,
                labels: seq![
                    primary(
                        span,
                        "this option is reserved because it's always implemented by `configure_me`"@,
                    ),
                ],
                notes: Seq::empty(),
            },
        },
        ValidationErrorView::Duplicates { name, first_span, duplicate_spans } => DiagnosticView {
            message: "the option `"@ + name + "` appears more than once"@,
            labels: seq![secondary(first_span, "the option was first defined here"@)]
                + repeat_labels(duplicate_spans),
            notes: Seq::empty(),
        },
        ValidationErrorView::InvalidIdentifier(error) => ident_diagnostic(error),
        ValidationErrorView::InvalidProgramName { input, span } => DiagnosticView {
            message: "`"@ + input + "` is not a valid program name handling strategy"@,
            labels: seq![primary(span, "this is an invalid program name handling strategy"@)],
            notes: seq![
                "Help: valid program name handling strategies are `unused`, `optional`, `required`."@,
            ],
        },
    }
}

/// Computes [`runs`] of the offsets from the place `from` on.
fn find_runs(positions: &Vec<usize>, from: usize) -> (found: Vec<(usize, usize)>)
    requires
        from <= positions.len(),
    ensures
        found@ == runs(positions@.skip(from as int)),
{
    let ghost all = positions@.skip(from as int);
    let mut found: Vec<(usize, usize)> = Vec::new();
    let mut i: usize = from;
    proof {
        assert(all.take(0) =~= Seq::empty());
    }
    while i < positions.len()
        invariant
            from <= i <= positions.len(),
            all == positions@.skip(from as int),
            found@ == runs(all.take(i - from)),
        decreases positions.len() - i,
    {
        proof {
            assert(all.take(i + 1 - from).drop_last() =~= all.take(i - from));
            assert(all.take(i + 1 - from).last() == positions[i as int]);
        }
        let p = positions[i];
        let n = found.len();
        if n > 0 && found[n - 1].1 == p {
            let last = found.pop().unwrap();
            found.push((last.0, sum(p, 1)));
        } else {
            found.push((p, sum(p, 1)));
        }
        i = i + 1;
    }
    proof {
        assert(all.take(all.len() as int) =~= all);
    }
    found
}

/// Computes [`has_inner_dash`].
fn inner_dash(string: &str) -> (r: bool)
    ensures
        r == has_inner_dash(string@),
{
    let mut seen_other = false;
    let ghost mut witness: int = 0;
    for c in it: string.chars()
        invariant
            it.seq() == string@,
            seen_other ==> 0 <= witness < it.index() && string@[witness] != '-',
            !seen_other ==> forall|k: int| 0 <= k < it.index() ==> string@[k] == '-',
            forall|i: int, j: int|
                0 <= i < j < it.index() ==> !(string@[i] != '-' && string@[j] == '-'),
    {
        if c == '-' {
            if seen_other {
                assert(string@[witness] != '-' && string@[it.index()] == '-');
                return true;
            }
        } else {
            if !seen_other {
                proof {
                    witness = it.index();
                }
            }
            seen_other = true;
        }
    }
    false
}

impl ident::Error {
    /// The report of the error.
    pub fn to_diagnostic(&self) -> (diagnostic: Diagnostic)
        ensures
            diagnostic.deep_view() == ident_diagnostic(self.deep_view()),
    {
        match self {
            ident::Error::InvalidChars { string, positions, span } => {
                let mut message = String::from_str("the identifier `");
                message.append(string.as_str());
                if positions.len() > 1 {
                    message.append("` contains invalid characters");
                } else {
                    message.append("` contains an invalid character");
                }
                let mut labels: Vec<Label> = Vec::new();
                let mut notes: Vec<String> = Vec::new();
                let first = if string.as_str().unicode_len() > 0 {
                    Some(string.as_str().get_char(0))
                } else {
                    None
                };
                let begin = if span.end >= span.start && span.end - span.start
                    == string.as_str().unicode_len() {
                    span.start
                } else {
                    sum(span.start, 1)
                };
                assert(begin == name_start(string@, *span));
                let digit = match first {
                    Some(c) => c >= '0' && c <= '9',
                    None => false,
                };
                let dash = match first {
                    Some(c) => c == '-',
                    None => false,
                };
                if digit {
                    labels.push(
                        Label {
                            style: LabelStyle::Primary,
                            start: begin,
                            end: sum(begin, 1),
                            message: String::from_str("the identifier starts with a digit"),
                        },
                    );
                    notes.push(String::from_str("Help: identifiers mut not start with digits"));
                } else if dash {
                    notes.push(
                        String::from_str(
                            "Help: dashes are prepended automatically, you don't need to write them",
                        ),
                    );
                }
                if inner_dash(string.as_str()) {
                    notes.push(
                        String::from_str(
                            "Help: consider replacing dashes with underscores.\n      They will be replaced with dashes in command line parameters\n      but stay underscores in config files.",
                        ),
                    );
                }
                let skipped: usize = if digit && positions.len() > 0 {
                    1
                } else {
                    0
                };
                let found = find_runs(positions, skipped);
                proof {
                    assert(positions@.skip(0) =~= positions@);
                }
                let ghost head = labels.deep_view();
                let mut k: usize = 0;
                while k < found.len()
                    invariant
                        k <= found.len(),
                        labels.len() == head.len() + k,
                        forall|i: int| 0 <= i < head.len() ==> (#[trigger] labels[i]).deep_view() == head[i],
                        forall|i: int|
                            0 <= i < k ==> (#[trigger] labels[head.len() + i]).deep_view()
                                == run_labels(found@, begin)[i],
                    decreases found.len() - k,
                {
                    let (first, behind) = found[k];
                    let several = behind > first && behind - first > 1;
                    let text = if several {
                        if k > 0 {
                            "... and these chars"
                        } else {
                            "these chars are invalid"
                        }
                    } else {
                        if k > 0 {
                            "... and this char"
                        } else {
                            "this char is invalid"
                        }
                    };
                    labels.push(
                        Label {
                            style: LabelStyle::Primary,
                            start: sum(begin, first),
                            end: sum(begin, behind),
                            message: String::from_str(text),
                        },
                    );
                    k = k + 1;
                }
                proof {
                    let goal = head + run_labels(found@, begin);
                    assert(labels.deep_view().len() == goal.len());
                    assert forall|j: int| 0 <= j < goal.len() implies labels.deep_view()[j]
                        == goal[j] by {
                        if j >= head.len() {
                            let i = j - head.len();
                            assert(labels[head.len() + i].deep_view() == run_labels(
                                found@,
                                begin,
                            )[i]);
                        } else {
                            assert(labels[j].deep_view() == head[j]);
                        }
                    }
                    assert(labels.deep_view() =~= goal);
                    assert(notes.deep_view() =~= ident_notes(string@));
                    assert(digit == starts_with_digit(string@));
                    if digit {
                        assert(head =~= seq![
                            LabelView {
                                style: LabelStyle::Primary,
                                start: begin,
                                end: plus(begin, 1),
                                message: "the identifier starts with a digit"@,
                            },
                        ]);
                    }
                    if !digit {
                        assert(head =~= Seq::<LabelView>::empty());
                        assert(head + run_labels(found@, begin) =~= run_labels(found@, begin));
                    }
                }
                Diagnostic { message, labels, notes }
            },
            ident::Error::Empty { span } => {
                let mut labels: Vec<Label> = Vec::new();
                labels.push(label(LabelStyle::Primary, *span, "this identifier is empty"));
                let notes: Vec<String> = Vec::new();
                proof {
                    assert(labels.deep_view() =~= seq![
                        primary(*span, "this identifier is empty"@),
                    ]);
                    lemma_deep_view_empty(notes);
                }
                Diagnostic {
                    message: String::from_str("encountered an empty identifier"),
                    labels,
                    notes,
                }
            },
        }
    }
}

/// The report of a field that is wrong, with three places at most.
fn field_diagnostic(
    message: &str,
    first: (Span, &str),
    second: Option<(Span, &str)>,
    context: (Span, String),
    note: &str,
) -> (diagnostic: Diagnostic)
    ensures
        diagnostic.deep_view() == (DiagnosticView {
            message: message@,
            labels: match second {
                Some(second) => seq![
                    primary(first.0, first.1@),
                    primary(second.0, second.1@),
                    secondary(context.0, context.1@),
                ],
                None => seq![primary(first.0, first.1@), secondary(context.0, context.1@)],
            },
            notes: seq![note@],
        }),
{
    let mut labels: Vec<Label> = Vec::new();
    labels.push(label(LabelStyle::Primary, first.0, first.1));
    match second {
        Some(second) => {
            labels.push(label(LabelStyle::Primary, second.0, second.1));
        },
        None => {},
    }
    labels.push(
        Label {
            style: LabelStyle::Secondary,
            start: context.0.start,
            end: context.0.end,
            message: context.1,
        },
    );
    let mut notes: Vec<String> = Vec::new();
    notes.push(String::from_str(note));
    proof {
        assert(notes.deep_view() =~= seq![note@]);
        match second {
            Some(second) => {
                assert(labels.deep_view() =~= seq![
                    primary(first.0, first.1@),
                    primary(second.0, second.1@),
                    secondary(context.0, context.1@),
                ]);
            },
            None => {
                assert(labels.deep_view() =~= seq![
                    primary(first.0, first.1@),
                    secondary(context.0, context.1@),
                ]);
            },
        }
    }
    Diagnostic { message: String::from_str(message), labels, notes }
}

/// The words that name the parameter `name` as the place of a finding.
fn in_the_parameter(name: &str) -> (text: String)
    ensures
        text@ == "in the parameter `"@ + name@ + "`"@,
{
    let mut text = String::from_str("in the parameter `");
    text.append(name);
    text.append("`");
    text
}

impl ValidationError {
    /// The report of the finding.
    pub fn to_diagnostic(&self) -> (diagnostic: Diagnostic)
        ensures
            diagnostic.deep_view() == diagnostic_of(self.deep_view()),
    {
        match self.source() {
            ValidationErrorSource::InvalidField { name, span, kind } => match kind {
                FieldError::MandatoryWithDefault { optional_span, default_span } => field_diagnostic(
                    "parameter attempts to be both optional and mandatory at the same time",
                    (
                        *optional_span,
                        "setting `optional` to `false` makes the parameter mandatory here",
                    ),
                    Some(
                        (
                            *default_span,
                            "the default value is provided here making the parameter optional",
                        ),
                    ),
                    (*span, in_the_parameter(name.as_str())),
                    "Help: either make the parameter optional or remove the default value",
                ),
                FieldError::InvertedWithAbbr { default_span, abbr_span } => field_diagnostic(
                    "an inverted switch attempts to have a short option",
                    (*abbr_span, "short option defined here"),
                    Some(
                        (
                            *default_span,
                            "the default value is set to `true` here making the switch inverted",
                        ),
                    ),
                    (*span, in_the_parameter(name.as_str())),
                    "Help: remove the short option if you want to keep the parameter inverted",
                ),
                FieldError::InvertedWithCount { default_span, count_span } => field_diagnostic(
                    "inverted switch attempts to be a counter",
                    (*count_span, "counter defined here"),
                    Some(
                        (
                            *default_span,
                            "the default value is set to `true` here making the switch inverted",
                        ),
                    ),
                    (*span, in_the_parameter(name.as_str())),
                    "Help: either don't make the parameter counter or make the parameter non-inverted",
                ),
                FieldError::InvalidAbbr { abbr_span } => field_diagnostic(
                    "invalid short option",
                    (*abbr_span, "this option uses an invalid character"),
                    None,
                    (*span, String::from_str("in this field")),
                    "Note: only English letters (both lower case and upper case) are allowed",
                ),
                FieldError::ReservedParameter => {
                    let mut labels: Vec<Label> = Vec::new();
                    labels.push(
                        label(
                            LabelStyle::Primary,
                            *span,
                            "this option is reserved because it's always implemented by `configure_me`",
                        ),
                    );
                    let notes: Vec<String> = Vec::new();
                    proof {
                        assert(labels.deep_view() =~= seq![
                            primary(
                                *span,
                                "this option is reserved because it's always implemented by `configure_me`"@,
                            ),
                        ]);
                        lemma_deep_view_empty(notes);
                    }
                    Diagnostic {
                        message: String::from_str("use of reserved option"),
                        labels,
                        notes,
                    }
                },
            },
            ValidationErrorSource::Duplicates { name, first_span, duplicate_spans } => {
                let mut message = String::from_str("the option `");
                message.append(name.as_str());
                message.append("` appears more than once");
                let mut labels: Vec<Label> = Vec::new();
                labels.push(
                    label(LabelStyle::Secondary, *first_span, "the option was first defined here"),
                );
                let mut k: usize = 0;
                while k < duplicate_spans.len()
                    invariant
                        k <= duplicate_spans.len(),
                        labels.len() == k + 1,
                        labels[0].deep_view() == secondary(
                            *first_span,
                            "the option was first defined here"@,
                        ),
                        forall|i: int|
                            0 <= i < k ==> (#[trigger] labels[i + 1]).deep_view() == repeat_labels(
                                duplicate_spans@,
                            )[i],
                    decreases duplicate_spans.len() - k,
                {
                    let text = if k == 0 {
                        "the option is repeated here"
                    } else {
                        "... and here"
                    };
                    labels.push(label(LabelStyle::Primary, duplicate_spans[k], text));
                    k = k + 1;
                }
                let notes: Vec<String> = Vec::new();
                proof {
                    let goal = seq![
                        secondary(*first_span, "the option was first defined here"@),
                    ] + repeat_labels(duplicate_spans@);
                    assert(labels.deep_view().len() == goal.len());
                    assert forall|j: int| 0 <= j < goal.len() implies labels.deep_view()[j]
                        == goal[j] by {
                        if j >= 1 {
                            let i = j - 1;
                            assert(labels[i + 1].deep_view() == repeat_labels(duplicate_spans@)[i]);
                        }
                    }
                    assert(labels.deep_view() =~= goal);
                    lemma_deep_view_empty(notes);
                }
                Diagnostic { message, labels, notes }
            },
            ValidationErrorSource::InvalidIdentifier(error) => error.to_diagnostic(),
            ValidationErrorSource::InvalidProgramName { input, span } => {
                let mut message = String::from_str("`");
                message.append(input.as_str());
                message.append("` is not a valid program name handling strategy");
                let mut labels: Vec<Label> = Vec::new();
                labels.push(
                    label(
                        LabelStyle::Primary,
                        *span,
                        "this is an invalid program name handling strategy",
                    ),
                );
                let mut notes: Vec<String> = Vec::new();
                notes.push(
                    String::from_str(
                        "Help: valid program name handling strategies are `unused`, `optional`, `required`.",
                    ),
                );
                proof {
                    assert(labels.deep_view() =~= seq![
                        primary(*span, "this is an invalid program name handling strategy"@),
                    ]);
                    assert(notes.deep_view() =~= seq![
                        "Help: valid program name handling strategies are `unused`, `optional`, `required`."@,
                    ]);
                }
                Diagnostic { message, labels, notes }
            },
        }
    }
}

/// The number of bytes other than line feeds in the first `lines` lines of
/// a text with the bytes `bytes`.
pub open spec fn line_bytes(bytes: Seq<u8>, lines: nat) -> nat
    decreases bytes.len(),
{
    if bytes.len() == 0 || lines == 0 {
        0
    } else if bytes[0] == 10 {
        line_bytes(bytes.drop_first(), (lines - 1) as nat)
    } else {
        1 + line_bytes(bytes.drop_first(), lines)
    }
}

/// The offset in a text of the column `col` of the line `line`, both
/// counted from nothing: the bytes of the lines before it, a line feed for
/// each of them, and the column.
pub open spec fn offset_of(bytes: Seq<u8>, line: usize, col: usize) -> usize {
    plus(plus(length_of(line_bytes(bytes, line as nat)), col), line)
}

/// A number of bytes as an offset.
pub open spec fn length_of(n: nat) -> usize {
    if n > usize::MAX {
        usize::MAX
    } else {
        n as usize
    }
}

/// Computes [`offset_of`].
pub fn offset(source: &str, line: usize, col: usize) -> (r: usize)
    ensures
        r == offset_of(vstd::utf8::encode_utf8(source@), line, col),
{
    let bytes = source.as_bytes();
    let ghost all = bytes@;
    let mut count: usize = 0;
    let mut remaining = line;
    let mut i: usize = 0;
    proof {
        assert(all.skip(0) =~= all);
    }
    while i < bytes.len() && remaining > 0
        invariant
            i <= bytes.len(),
            all == bytes@,
            count <= i,
            line_bytes(all, line as nat) == count + line_bytes(all.skip(i as int), remaining as nat),
        decreases bytes.len() - i,
    {
        proof {
            assert(all.skip(i as int).drop_first() =~= all.skip(i + 1));
            assert(all.skip(i as int)[0] == bytes[i as int]);
        }
        if bytes[i] == 10 {
            remaining = remaining - 1;
        } else {
            count = count + 1;
        }
        i = i + 1;
    }
    sum(sum(count, col), line)
}

/// The report of a text that cannot be read as a specification at all,
/// with what is said of it: at the place that is wrong, if the place is
/// known.
pub open spec fn syntax_diagnostic(
    bytes: Seq<u8>,
    message: Seq<char>,
    line_col: Option<(usize, usize)>,
) -> DiagnosticView {
    match line_col {
        Some((line, col)) => DiagnosticView {
            message: "failed to parse config specification"@,
            labels: seq![
                LabelView {
                    style: LabelStyle::Primary,
                    start: offset_of(bytes, line, col),
                    end: plus(offset_of(bytes, line, col), 1),
                    message,
                },
            ],
            notes: Seq::empty(),
        },
        None => DiagnosticView {
            message: "failed to parse config specification"@,
            labels: Seq::empty(),
            notes: seq![message],
        },
    }
}

/// The report of a text that cannot be read as a specification at all.
pub fn syntax_error(source: &str, message: String, line_col: Option<(usize, usize)>) -> (diagnostic:
    Diagnostic)
    ensures
        diagnostic.deep_view() == syntax_diagnostic(
            vstd::utf8::encode_utf8(source@),
            message@,
            line_col,
        ),
{
    let mut labels: Vec<Label> = Vec::new();
    let mut notes: Vec<String> = Vec::new();
    match line_col {
        Some((line, col)) => {
            let start = offset(source, line, col);
            labels.push(Label { style: LabelStyle::Primary, start, end: sum(start, 1), message });
            proof {
                lemma_deep_view_empty(notes);
                assert(labels.deep_view() =~= seq![
                    LabelView {
                        style: LabelStyle::Primary,
                        start,
                        end: plus(start, 1),
                        message: message@,
                    },
                ]);
            }
        },
        None => {
            notes.push(message);
            proof {
                lemma_deep_view_empty(labels);
                assert(notes.deep_view() =~= seq![message@]);
            }
        },
    }
    Diagnostic { message: String::from_str("failed to parse config specification"), labels, notes }
}

} // verus!
