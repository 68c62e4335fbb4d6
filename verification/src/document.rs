//! What a configuration file gives for the fields of a specification.

use vstd::prelude::*;
use crate::config::{kind_is_count, Config, ConfigView};
use crate::layer::{empty_layer, param_kind, with_param_replaced, with_switch, LayerView, RawLayer};
use crate::text::{result_view, same_text};
use crate::value::{
    kind_description, type_max, type_min, value_kind, IntegerType, Value, ValueKind, ValueView,
};

verus! {

/// A value as a configuration file holds it.
#[derive(Debug, PartialEq, Eq)]
pub enum DocValue {
    Integer(i64),
    Boolean(bool),
    Text(String),
    /// A value of a kind that no field takes from a file: a fraction, a
    /// date, a list or a table.
    Other,
}

/// What a [`DocValue`] stands for in contracts.
pub enum DocValueView {
    Integer(int),
    Boolean(bool),
    Text(Seq<char>),
    Other,
}

impl DeepView for DocValue {
    type V = DocValueView;

    open spec fn deep_view(&self) -> DocValueView {
        match self {
            DocValue::Integer(n) => DocValueView::Integer(*n as int),
            DocValue::Boolean(b) => DocValueView::Boolean(*b),
            DocValue::Text(text) => DocValueView::Text(text@),
            DocValue::Other => DocValueView::Other,
        }
    }
}

/// How many brackets and braces may be open at once in a configuration
/// file.
pub const DEPTH_LIMIT: usize = 128;

/// How many dots one line of a configuration file may hold.
pub const DOTS_LIMIT: usize = 256;

/// Whether `c` is a mark that starts a string.
pub open spec fn is_quote(c: char) -> bool {
    c == '"' || c == '\''
}

/// Whether the last line of `text` holds a mark that starts a string or a
/// comment.
pub open spec fn marked_after(text: Seq<char>) -> bool
    decreases text.len(),
{
    if text.len() == 0 {
        false
    } else if text.last() == '\n' {
        false
    } else {
        is_quote(text.last()) || text.last() == '#' || marked_after(text.drop_last())
    }
}

/// The number of marks of one kind that start a string and stand in a row
/// at the end of `text`.
pub open spec fn quote_run(text: Seq<char>) -> nat
    decreases text.len(),
{
    if text.len() == 0 || !is_quote(text.last()) {
        0
    } else if text.len() > 1 && text[text.len() - 2] == text.last() {
        quote_run(text.drop_last()) + 1
    } else {
        1
    }
}

/// Whether `text` holds three marks of one kind in a row, as a string that
/// runs over several lines starts with.
pub open spec fn tainted_after(text: Seq<char>) -> bool
    decreases text.len(),
{
    text.len() > 0 && (tainted_after(text.drop_last()) || quote_run(text) >= 3)
}

/// Whether `c` opens an array or a table.
pub open spec fn opens(c: char) -> bool {
    c == '[' || c == '{'
}

/// Whether `c` closes an array or a table.
pub open spec fn closes(c: char) -> bool {
    c == ']' || c == '}'
}

/// A number that is not below the number of arrays and tables that are open
/// at the end of `text`. Every bracket and brace that opens counts. One
/// that closes counts only where it can stand in no string and no comment:
/// no mark that starts one stands before it in its line, and the text before
/// it holds no three such marks in a row.
pub open spec fn open_after(text: Seq<char>) -> nat
    decreases text.len(),
{
    if text.len() == 0 {
        0
    } else {
        let front = text.drop_last();
        let before = open_after(front);
        if opens(text.last()) {
            before + 1
        } else if closes(text.last()) && before > 0 && !marked_after(front) && !tainted_after(
            front,
        ) {
            (before - 1) as nat
        } else {
            before
        }
    }
}

/// The number of dots in the last line of `text`.
pub open spec fn dots_after(text: Seq<char>) -> nat
    decreases text.len(),
{
    if text.len() == 0 {
        0
    } else if text.last() == '\n' {
        0
    } else if text.last() == '.' {
        dots_after(text.drop_last()) + 1
    } else {
        dots_after(text.drop_last())
    }
}

/// Whether `text` is flat enough to be read: nowhere in it does
/// [`open_after`] exceed [`DEPTH_LIMIT`], and no line of it holds more dots
/// than [`DOTS_LIMIT`]. In such a text no value stands deeper in arrays and
/// tables than the first limit, and no key has more parts than the second
/// and one.
pub open spec fn shallow(text: Seq<char>) -> bool {
    forall|n: int|
        0 <= n <= text.len() ==> open_after(#[trigger] text.take(n)) <= DEPTH_LIMIT && dots_after(
            text.take(n),
        ) <= DOTS_LIMIT
}

/// Computes [`shallow`].
pub fn is_shallow(text: &str) -> (r: bool)
    ensures
        r == shallow(text@),
{
    let mut open: usize = 0;
    let mut dots: usize = 0;
    let mut marked = false;
    let mut tainted = false;
    let mut run: usize = 0;
    let mut last: Option<char> = None;
    proof {
        assert(text@.take(0).len() == 0);
    }
    for c in it: text.chars()
        invariant
            it.seq() == text@,
            open == open_after(text@.take(it.index())),
            dots == dots_after(text@.take(it.index())),
            marked == marked_after(text@.take(it.index())),
            tainted == tainted_after(text@.take(it.index())),
            run == (if quote_run(text@.take(it.index())) >= 3 {
                3nat
            } else {
                quote_run(text@.take(it.index()))
            }),
            last == (if it.index() > 0 {
                Some(text@[it.index() - 1])
            } else {
                None::<char>
            }),
            open <= DEPTH_LIMIT,
            dots <= DOTS_LIMIT,
            forall|n: int|
                0 <= n <= it.index() ==> open_after(#[trigger] text@.take(n)) <= DEPTH_LIMIT
                    && dots_after(text@.take(n)) <= DOTS_LIMIT,
    {
        proof {
            let now = text@.take(it.index() + 1);
            assert(now.drop_last() =~= text@.take(it.index()));
            assert(now.last() == c);
            if it.index() > 0 {
                assert(now[now.len() - 2] == text@[it.index() - 1]);
            }
        }
        if c == '[' || c == '{' {
            open = open + 1;
        } else if (c == ']' || c == '}') && open > 0 && !marked && !tainted {
            open = open - 1;
        }
        if c == '\n' {
            dots = 0;
            marked = false;
        } else if c == '.' {
            dots = dots + 1;
        } else if c == '"' || c == '\'' || c == '#' {
            marked = true;
        }
        if c == '"' || c == '\'' {
            run = if last != Some(c) {
                1
            } else if run < 3 {
                run + 1
            } else {
                3
            };
        } else {
            run = 0;
        }
        if run >= 3 {
            tainted = true;
        }
        last = Some(c);
        if open > DEPTH_LIMIT || dots > DOTS_LIMIT {
            return false;
        }
    }
    true
}

/// What the TOML document `text` holds: the keys at its top with their
/// values, in the order of the keys; or, if the text is no TOML document,
/// what is said of it.
pub uninterp spec fn toml_entries(text: Seq<char>) -> Result<
    Seq<(Seq<char>, DocValueView)>,
    Seq<char>,
>;

/// `toml::from_str`, for a table: the keys of the document at its top, each
/// with its value, in the order in which the table hands them out, which is
/// the order of the keys. A string, an integer and a truth value are taken
/// over, any other value counts as a value of another kind. Of a text that is
/// no document the error is handed on as it shows itself. Nothing is stated
/// of the outcome but that it depends on the text alone. A text in which
/// values or keys stand deep in each other is kept away: the reading of such
/// a text takes a step on the stack for each level.
#[verifier::external_body]
fn parse_document(text: &str) -> (r: Result<Vec<(String, DocValue)>, String>)
    requires
        shallow(text@),
    ensures
        result_view(r) == toml_entries(text@),
{
    let table: toml::value::Table = toml::from_str(text).map_err(|error| error.to_string())?;
    Ok(table.into_iter().map(|(key, value)| (key, match value {
        toml::Value::String(text) => DocValue::Text(text),
        toml::Value::Integer(n) => DocValue::Integer(n),
        toml::Value::Boolean(b) => DocValue::Boolean(b),
        toml::Value::Float(_) => DocValue::Other,
        toml::Value::Datetime(_) => DocValue::Other,
        toml::Value::Array(_) => DocValue::Other,
        toml::Value::Table(_) => DocValue::Other,
    })).collect())
}

/// Why a configuration file cannot be taken in.
#[derive(Debug, PartialEq, Eq)]
pub enum DocumentError {
    /// The text is no TOML document, for the reason given here.
    Syntax(String),
    /// The value of the key `name` is none of the kind `expected`.
    Field { name: String, expected: ValueKind },
}

/// The value in `entries` of the first entry with the key `name`.
pub open spec fn entry_of(entries: Seq<(Seq<char>, DocValueView)>, name: Seq<char>) -> Option<
    DocValueView,
>
    decreases entries.len(),
{
    if entries.len() == 0 {
        None
    } else if entries[0].0 == name {
        Some(entries[0].1)
    } else {
        entry_of(entries.drop_first(), name)
    }
}

/// The value of the kind `kind` that the value `value` of a file is: a
/// number of the range for a whole number, a truth value for a truth value,
/// text for text; none if it is of another kind or outside the range.
pub open spec fn value_of_entry(kind: ValueKind, value: DocValueView) -> Option<ValueView> {
    match (kind, value) {
        (ValueKind::Integer(ty), DocValueView::Integer(n)) => if type_min(ty) <= n <= type_max(
            ty,
        ) {
            Some(ValueView::Integer(n))
        } else {
            None
        },
        (ValueKind::Boolean, DocValueView::Boolean(b)) => Some(ValueView::Boolean(b)),
        (ValueKind::Text, DocValueView::Text(text)) => Some(ValueView::Text(text)),
        _ => None,
    }
}

/// How the value of the switch at the place `j` is read from a file: as a
/// count for a switch that counts, as a truth value for any other.
pub open spec fn switch_kind(spec: ConfigView, j: int) -> ValueKind {
    if kind_is_count(spec.switches[j].kind) {
        ValueKind::Integer(IntegerType::U32)
    } else {
        ValueKind::Boolean
    }
}

/// `layer` after the file gave what it gives for the parameter at the place
/// `i`, or the place as the one whose value is of the wrong kind.
pub open spec fn doc_param(
    spec: ConfigView,
    layer: LayerView,
    entries: Seq<(Seq<char>, DocValueView)>,
    i: int,
) -> Result<LayerView, (bool, int)> {
    match entry_of(entries, spec.params[i].name) {
        None => Ok(layer),
        Some(value) => match value_of_entry(param_kind(spec, i), value) {
            Some(value) => Ok(with_param_replaced(layer, i, value)),
            None => Err((true, i)),
        },
    }
}

/// `layer` after the file gave what it gives for the first `n` parameters.
pub open spec fn doc_params(
    spec: ConfigView,
    layer: LayerView,
    entries: Seq<(Seq<char>, DocValueView)>,
    n: nat,
) -> Result<LayerView, (bool, int)>
    decreases n,
{
    if n == 0 {
        Ok(layer)
    } else {
        match doc_params(spec, layer, entries, (n - 1) as nat) {
            Ok(layer) => doc_param(spec, layer, entries, n - 1),
            Err(place) => Err(place),
        }
    }
}

/// `layer` after the file gave what it gives for the switch at the place
/// `j`, or the place as the one whose value is of the wrong kind.
pub open spec fn doc_switch(
    spec: ConfigView,
    layer: LayerView,
    entries: Seq<(Seq<char>, DocValueView)>,
    j: int,
) -> Result<LayerView, (bool, int)> {
    match entry_of(entries, spec.switches[j].name) {
        None => Ok(layer),
        Some(value) => match value_of_entry(switch_kind(spec, j), value) {
            Some(value) => Ok(with_switch(layer, j, value)),
            None => Err((false, j)),
        },
    }
}

/// `layer` after the file gave what it gives for the first `n` switches.
pub open spec fn doc_switches(
    spec: ConfigView,
    layer: LayerView,
    entries: Seq<(Seq<char>, DocValueView)>,
    n: nat,
) -> Result<LayerView, (bool, int)>
    decreases n,
{
    if n == 0 {
        Ok(layer)
    } else {
        match doc_switches(spec, layer, entries, (n - 1) as nat) {
            Ok(layer) => doc_switch(spec, layer, entries, n - 1),
            Err(place) => Err(place),
        }
    }
}

/// The layer that a file with the entries `entries` gives: for each field
/// the value of the key of its name, if the file has that key; keys that name
/// no field are passed over. The first field whose value is of the wrong
/// kind — parameters first, then switches — is reported by its place:
/// `true` with the place of a parameter, `false` with that of a switch.
pub open spec fn layer_of(spec: ConfigView, entries: Seq<(Seq<char>, DocValueView)>) -> Result<
    LayerView,
    (bool, int),
> {
    match doc_params(
        spec,
        empty_layer(spec.params.len(), spec.switches.len()),
        entries,
        spec.params.len(),
    ) {
        Ok(layer) => doc_switches(spec, layer, entries, spec.switches.len()),
        Err(place) => Err(place),
    }
}

/// The name and the kind of the field at a place that [`layer_of`]
/// reports.
pub open spec fn field_at(spec: ConfigView, place: (bool, int)) -> (Seq<char>, ValueKind) {
    if place.0 {
        (spec.params[place.1].name, param_kind(spec, place.1))
    } else {
        (spec.switches[place.1].name, switch_kind(spec, place.1))
    }
}

/// Whether `r` is the outcome of taking in a file with the entries
/// `entries`.
pub open spec fn is_layer_of(
    r: Result<RawLayer, DocumentError>,
    spec: ConfigView,
    entries: Seq<(Seq<char>, DocValueView)>,
) -> bool {
    match r {
        Ok(layer) => layer_of(spec, entries) == Ok::<LayerView, (bool, int)>(layer.deep_view()),
        Err(DocumentError::Field { name, expected }) => layer_of(spec, entries) matches Err(place)
            && (name@, expected) == field_at(spec, place),
        Err(DocumentError::Syntax(_)) => false,
    }
}

/// Computes [`entry_of`].
fn find_entry<'a>(entries: &'a Vec<(String, DocValue)>, name: &str) -> (value: Option<&'a DocValue>)
    ensures
        value.deep_view() == entry_of(entries.deep_view(), name@),
{
    let ghost all = entries.deep_view();
    let mut i: usize = 0;
    proof {
        assert(all.skip(0) =~= all);
    }
    while i < entries.len()
        invariant
            i <= entries.len(),
            all == entries.deep_view(),
            entry_of(all, name@) == entry_of(all.skip(i as int), name@),
        decreases entries.len() - i,
    {
        proof {
            assert(all.skip(i as int).drop_first() =~= all.skip(i + 1));
            assert(all.skip(i as int)[0] == entries[i as int].deep_view());
        }
        if same_text(entries[i].0.as_str(), name) {
            return Some(&entries[i].1);
        }
        i = i + 1;
    }
    None
}

/// Computes [`value_of_entry`].
fn read_entry(kind: ValueKind, value: &DocValue) -> (r: Option<Value>)
    ensures
        r.deep_view() == value_of_entry(kind, value.deep_view()),
{
    match (kind, value) {
        (ValueKind::Integer(ty), DocValue::Integer(n)) => {
            let n = *n as i128;
            if ty.min() <= n && n <= ty.max() {
                Some(Value::Integer(n))
            } else {
                None
            }
        },
        (ValueKind::Boolean, DocValue::Boolean(b)) => Some(Value::Boolean(*b)),
        (ValueKind::Text, DocValue::Text(text)) => Some(Value::Text(text.clone())),
        _ => None,
    }
}

/// Once a field is of the wrong kind, it stays the outcome however many
/// more parameters are looked at.
proof fn lemma_doc_params_fails(
    spec: ConfigView,
    layer: LayerView,
    entries: Seq<(Seq<char>, DocValueView)>,
    n: nat,
    m: nat,
)
    requires
        n <= m,
        doc_params(spec, layer, entries, n) is Err,
    ensures
        doc_params(spec, layer, entries, m) == doc_params(spec, layer, entries, n),
    decreases m,
{
    if n < m {
        lemma_doc_params_fails(spec, layer, entries, n, (m - 1) as nat);
    }
}

/// Once a field is of the wrong kind, it stays the outcome however many
/// more switches are looked at.
proof fn lemma_doc_switches_fails(
    spec: ConfigView,
    layer: LayerView,
    entries: Seq<(Seq<char>, DocValueView)>,
    n: nat,
    m: nat,
)
    requires
        n <= m,
        doc_switches(spec, layer, entries, n) is Err,
    ensures
        doc_switches(spec, layer, entries, m) == doc_switches(spec, layer, entries, n),
    decreases m,
{
    if n < m {
        lemma_doc_switches_fails(spec, layer, entries, n, (m - 1) as nat);
    }
}

/// Takes in a file with the entries `entries`.
pub fn layer_of_entries(spec: &Config, entries: &Vec<(String, DocValue)>) -> (r: Result<
    RawLayer,
    DocumentError,
>)
    ensures
        is_layer_of(r, spec.deep_view(), entries.deep_view()),
{
    let mut layer = RawLayer::empty(spec);
    let ghost start = layer.deep_view();
    let mut i: usize = 0;
    while i < spec.params.len()
        invariant
            i <= spec.params.len(),
            start == empty_layer(spec.deep_view().params.len(), spec.deep_view().switches.len()),
            doc_params(spec.deep_view(), start, entries.deep_view(), i as nat) == Ok::<
                LayerView,
                (bool, int),
            >(layer.deep_view()),
        decreases spec.params.len() - i,
    {
        let param = &spec.params[i];
        assert(spec.deep_view().params[i as int] == param.deep_view());
        match find_entry(entries, param.name.as_snake_case()) {
            Some(value) => {
                let kind = value_kind(param.ty.as_str());
                match read_entry(kind, value) {
                    Some(value) => {
                        layer.replace_param(i, value);
                    },
                    None => {
                        proof {
                            assert(doc_params(
                                spec.deep_view(),
                                start,
                                entries.deep_view(),
                                (i + 1) as nat,
                            ) == doc_param(
                                spec.deep_view(),
                                layer.deep_view(),
                                entries.deep_view(),
                                i as int,
                            ));
                            lemma_doc_params_fails(
                                spec.deep_view(),
                                start,
                                entries.deep_view(),
                                (i + 1) as nat,
                                spec.params.len() as nat,
                            );
                        }
                        return Err(
                            DocumentError::Field {
                                name: crate::text::copy_str(param.name.as_snake_case()),
                                expected: kind,
                            },
                        );
                    },
                }
            },
            None => {},
        }
        i = i + 1;
    }
    let ghost middle = layer.deep_view();
    let mut j: usize = 0;
    while j < spec.switches.len()
        invariant
            j <= spec.switches.len(),
            start == empty_layer(spec.deep_view().params.len(), spec.deep_view().switches.len()),
            doc_params(
                spec.deep_view(),
                start,
                entries.deep_view(),
                spec.params.len() as nat,
            ) == Ok::<LayerView, (bool, int)>(middle),
            doc_switches(spec.deep_view(), middle, entries.deep_view(), j as nat) == Ok::<
                LayerView,
                (bool, int),
            >(layer.deep_view()),
        decreases spec.switches.len() - j,
    {
        let switch = &spec.switches[j];
        assert(spec.deep_view().switches[j as int] == switch.deep_view());
        match find_entry(entries, switch.name.as_snake_case()) {
            Some(value) => {
                let kind = if switch.is_count() {
                    ValueKind::Integer(IntegerType::U32)
                } else {
                    ValueKind::Boolean
                };
                match read_entry(kind, value) {
                    Some(value) => {
                        layer.set_switch(j, value);
                    },
                    None => {
                        proof {
                            assert(doc_switches(
                                spec.deep_view(),
                                middle,
                                entries.deep_view(),
                                (j + 1) as nat,
                            ) == doc_switch(
                                spec.deep_view(),
                                layer.deep_view(),
                                entries.deep_view(),
                                j as int,
                            ));
                            lemma_doc_switches_fails(
                                spec.deep_view(),
                                middle,
                                entries.deep_view(),
                                (j + 1) as nat,
                                spec.switches.len() as nat,
                            );
                        }
                        return Err(
                            DocumentError::Field {
                                name: crate::text::copy_str(switch.name.as_snake_case()),
                                expected: kind,
                            },
                        );
                    },
                }
            },
            None => {},
        }
        j = j + 1;
    }
    Ok(layer)
}

/// What is said of a configuration file that is not flat enough to be
/// read.
pub open spec fn too_deep_text() -> Seq<char> {
    "the document is nested too deeply"@
}

/// Reads the text of a configuration file, which is a TOML document, and
/// takes in what it gives for the fields of the specification. A text that
/// is not [`shallow`] is refused unread.
pub fn load_layer(spec: &Config, text: &str) -> (r: Result<RawLayer, DocumentError>)
    ensures
        match toml_entries(text@) {
            _ if !shallow(text@) => r matches Err(DocumentError::Syntax(said)) && said@
                == too_deep_text(),
            Ok(entries) => is_layer_of(r, spec.deep_view(), entries),
            Err(message) => r matches Err(DocumentError::Syntax(said)) && said@ == message,
        },
{
    if !is_shallow(text) {
        return Err(DocumentError::Syntax(String::from_str("the document is nested too deeply")));
    }
    match parse_document(text) {
        Ok(entries) => layer_of_entries(spec, &entries),
        Err(message) => Err(DocumentError::Syntax(message)),
    }
}

/// What is said of a configuration file that cannot be taken in.
pub open spec fn document_error_text(name: Seq<char>, expected: ValueKind) -> Seq<char> {
    "invalid value for key `"@ + name + "`: expected "@ + kind_description(expected)
}

impl DocumentError {
    /// What is said of the error.
    pub fn to_string(&self) -> (text: String)
        ensures
            match self {
                DocumentError::Syntax(message) => text@ == message@,
                DocumentError::Field { name, expected } => text@ == document_error_text(
                    name@,
                    *expected,
                ),
            },
    {
        match self {
            DocumentError::Syntax(message) => message.clone(),
            DocumentError::Field { name, expected } => {
                let mut out = String::from_str("invalid value for key `");
                out.append(name.as_str());
                out.append("`: expected ");
                out.append(expected.describe().as_str());
                out
            },
        }
    }
}

} // verus!
