//! Field names: which strings are legal, and how a legal name is written in
//! the places where it appears (option names, variable names, type names).

use vstd::prelude::*;
use crate::span::{Span, Spanned, SpannedView};
use crate::text::{ascii_upper, to_ascii_upper};

verus! {

/// Whether `c` may stand at offset `i` of a field name: lower-case letters
/// and the underscore anywhere, digits anywhere but at the start.
pub open spec fn is_ident_char(c: char, i: int) -> bool {
    c == '_' || ('a' <= c && c <= 'z') || ('0' <= c && c <= '9' && i > 0)
}

/// Whether `s` is a legal field name: not empty, and every character allowed
/// at its offset.
pub open spec fn is_identifier(s: Seq<char>) -> bool {
    s.len() > 0 && forall|i: int| 0 <= i < s.len() ==> is_ident_char(#[trigger] s[i], i)
}

/// The offsets of `s`, in rising order, whose characters are not allowed there.
pub open spec fn invalid_positions(s: Seq<char>) -> Seq<usize>
    decreases s.len(),
{
    if s.len() == 0 {
        Seq::empty()
    } else {
        let front = invalid_positions(s.drop_last());
        if is_ident_char(s.last(), s.len() - 1) {
            front
        } else {
            front.push((s.len() - 1) as usize)
        }
    }
}

/// Every offset that [`invalid_positions`] lists lies inside `s`, holds a
/// character that is not allowed there, and the list rises strictly; an
/// offset with such a character is in the list.
pub proof fn lemma_invalid_positions(s: Seq<char>)
    requires
        s.len() <= usize::MAX,
    ensures
        forall|k: int|
            0 <= k < invalid_positions(s).len() ==> {
                let p = #[trigger] invalid_positions(s)[k];
                p < s.len() && !is_ident_char(s[p as int], p as int)
            },
        forall|j: int, k: int|
            0 <= j < k < invalid_positions(s).len() ==> invalid_positions(s)[j]
                < invalid_positions(s)[k],
        forall|i: int|
            0 <= i < s.len() && !is_ident_char(s[i], i) ==> invalid_positions(s).contains(
                i as usize,
            ),
        invalid_positions(s).len() <= s.len(),
    decreases s.len(),
{
    if s.len() > 0 {
        let front = s.drop_last();
        lemma_invalid_positions(front);
        let found = invalid_positions(s);
        assert forall|i: int| 0 <= i < s.len() && !is_ident_char(s[i], i) implies found.contains(
            i as usize,
        ) by {
            if i < s.len() - 1 {
                assert(front[i] == s[i]);
                let k = choose|k: int|
                    0 <= k < invalid_positions(front).len() && invalid_positions(front)[k]
                        == i as usize;
                assert(found[k] == i as usize);
            } else {
                assert(found[found.len() - 1] == i as usize);
            }
        }
    }
}

/// A string is a legal field name exactly if it is not empty and no offset
/// of it is listed by [`invalid_positions`].
pub proof fn lemma_identifier_has_no_invalid_position(s: Seq<char>)
    ensures
        is_identifier(s) <==> (s.len() > 0 && invalid_positions(s).len() == 0),
{
    lemma_no_invalid_position(s);
}

/// No offset is listed by [`invalid_positions`] exactly if every character
/// is allowed where it stands.
proof fn lemma_no_invalid_position(s: Seq<char>)
    ensures
        invalid_positions(s).len() == 0 <==> (forall|i: int|
            0 <= i < s.len() ==> is_ident_char(#[trigger] s[i], i)),
    decreases s.len(),
{
    if s.len() > 0 {
        let front = s.drop_last();
        lemma_no_invalid_position(front);
        if invalid_positions(s).len() == 0 {
            assert forall|i: int| 0 <= i < s.len() implies is_ident_char(#[trigger] s[i], i) by {
                if i < front.len() {
                    assert(front[i] == s[i]);
                }
            }
        } else {
            if is_ident_char(s.last(), s.len() - 1) {
                let i = choose|i: int| 0 <= i < front.len() && !is_ident_char(#[trigger] front[i], i);
                assert(front[i] == s[i]);
            }
        }
    }
}

/// Why a string was refused as a field name.
#[derive(Debug)]
pub enum Error {
    /// The characters at `positions` are not allowed there.
    InvalidChars { string: String, positions: Vec<usize>, span: Span },
    /// The string has no characters.
    Empty { span: Span },
}

/// What an [`Error`] stands for in contracts.
pub enum ErrorView {
    InvalidChars { string: Seq<char>, positions: Seq<usize>, span: Span },
    Empty { span: Span },
}

impl DeepView for Error {
    type V = ErrorView;

    open spec fn deep_view(&self) -> ErrorView {
        match self {
            Error::InvalidChars { string, positions, span } => ErrorView::InvalidChars {
                string: string@,
                positions: positions@,
                span: *span,
            },
            Error::Empty { span } => ErrorView::Empty { span: *span },
        }
    }
}

impl Error {
    /// Where the refused string stands.
    pub fn span(&self) -> (span: Span)
        ensures
            span == error_span(self.deep_view()),
    {
        match self {
            Error::InvalidChars { span, .. } => *span,
            Error::Empty { span } => *span,
        }
    }
}

/// Where the string that `error` is about stands.
pub open spec fn error_span(error: ErrorView) -> Span {
    match error {
        ErrorView::InvalidChars { span, .. } => span,
        ErrorView::Empty { span } => span,
    }
}

/// The outcome of reading `string` as a field name: the name itself, or the
/// reason for which it is refused.
pub open spec fn ident_of(string: SpannedView<Seq<char>>) -> Result<Seq<char>, ErrorView> {
    if string.value.len() == 0 {
        Err(ErrorView::Empty { span: string.span })
    } else if invalid_positions(string.value).len() > 0 {
        Err(
            ErrorView::InvalidChars {
                string: string.value,
                positions: invalid_positions(string.value),
                span: string.span,
            },
        )
    } else {
        Ok(string.value)
    }
}

/// A legal field name.
#[derive(Debug, Clone)]
pub struct Ident(String);

impl DeepView for Ident {
    type V = Seq<char>;

    closed spec fn deep_view(&self) -> Seq<char> {
        self.0@
    }
}

/// `s` with every `_` replaced by `-`.
pub open spec fn hyphenated(s: Seq<char>) -> Seq<char> {
    s.map_values(|c: char| if c == '_' { '-' } else { c })
}

/// `s` with every letter `a`..`z` replaced by its capital.
pub open spec fn upper_case(s: Seq<char>) -> Seq<char> {
    s.map_values(|c: char| ascii_upper(c))
}

/// `s` without its underscores, where the first character and each one that
/// followed an underscore is replaced by its capital. `next_big` says whether
/// the first character of `s` is such a one.
pub open spec fn pascal_case_from(s: Seq<char>, next_big: bool) -> Seq<char>
    decreases s.len(),
{
    if s.len() == 0 {
        Seq::empty()
    } else if s[0] == '_' {
        pascal_case_from(s.drop_first(), true)
    } else if next_big {
        seq![ascii_upper(s[0])] + pascal_case_from(s.drop_first(), false)
    } else {
        seq![s[0]] + pascal_case_from(s.drop_first(), false)
    }
}

/// The form of a name in type names: `foo_bar` becomes `FooBar`.
pub open spec fn pascal_case(s: Seq<char>) -> Seq<char> {
    pascal_case_from(s, true)
}

impl Ident {
    /// Whether the name obeys the grammar of field names. Every name that
    /// [`Ident::try_from`] returns does.
    pub open spec fn wf(&self) -> bool {
        is_identifier(self.deep_view())
    }

    /// Lists the offsets of the characters of `string` that a field name
    /// may not have there; `Ok` if there is none.
    pub fn validate(string: &str) -> (r: Result<(), Vec<usize>>)
        ensures
            match r {
                Ok(()) => invalid_positions(string@).len() == 0,
                Err(positions) => positions@ == invalid_positions(string@) && positions@.len() > 0,
            },
    {
        let n = string.unicode_len();
        let mut positions: Vec<usize> = Vec::new();
        let mut i: usize = 0;
        for c in it: string.chars()
            invariant
                it.seq() == string@,
                i == it.index(),
                n == string@.len(),
                positions@ == invalid_positions(string@.take(i as int)),
        {
            proof {
                assert(string@.take(i + 1).drop_last() == string@.take(i as int));
            }
            if c != '_' && !((c >= 'a' && c <= 'z') || (c >= '0' && c <= '9' && i > 0)) {
                positions.push(i);
            }
            i = i + 1;
        }
        proof {
            assert(string@.take(i as int) == string@);
        }
        if positions.len() == 0 {
            Ok(())
        } else {
            Err(positions)
        }
    }

    /// Reads `string` as a field name.
    pub fn try_from(string: Spanned<String>) -> (r: Result<Ident, Error>)
        ensures
            crate::text::result_view(r) == ident_of(string.deep_view()),
            r matches Ok(ident) ==> ident.wf(),
    {
        let span = string.span;
        let string = string.value;
        if string.as_str().unicode_len() == 0 {
            return Err(Error::Empty { span });
        }
        match Ident::validate(string.as_str()) {
            Ok(()) => {
                proof {
                    lemma_identifier_has_no_invalid_position(string@);
                }
                Ok(Ident(string))
            },
            Err(positions) => Err(Error::InvalidChars { string, positions, span }),
        }
    }

    /// The name as it is written in the specification.
    pub fn as_snake_case(&self) -> (name: &str)
        ensures
            name@ == self.deep_view(),
    {
        self.0.as_str()
    }

    /// The name in capitals, as in the names of environment variables.
    pub fn as_upper_case(&self) -> (name: String)
        ensures
            name@ == upper_case(self.deep_view()),
    {
        let mut out = String::new();
        for c in it: self.0.as_str().chars()
            invariant
                it.seq() == self.0@,
                out@ == upper_case(self.0@.take(it.index())),
        {
            proof {
                assert(upper_case(self.0@.take(it.index() + 1)) == upper_case(
                    self.0@.take(it.index()),
                ).push(ascii_upper(c)));
            }
            out.push(to_ascii_upper(c));
        }
        proof {
            assert(self.0@.take(self.0@.len() as int) == self.0@);
        }
        out
    }

    /// The name with dashes for underscores, as in the names of options.
    pub fn as_hypenated(&self) -> (name: String)
        ensures
            name@ == hyphenated(self.deep_view()),
    {
        let mut out = String::new();
        for c in it: self.0.as_str().chars()
            invariant
                it.seq() == self.0@,
                out@ == hyphenated(self.0@.take(it.index())),
        {
            proof {
                assert(hyphenated(self.0@.take(it.index() + 1)) == hyphenated(
                    self.0@.take(it.index()),
                ).push(if c == '_' { '-' } else { c }));
            }
            if c == '_' {
                out.push('-');
            } else {
                out.push(c);
            }
        }
        proof {
            assert(self.0@.take(self.0@.len() as int) == self.0@);
        }
        out
    }

    /// The name as it is written in the names of types.
    pub fn as_pascal_case(&self) -> (name: String)
        ensures
            name@ == pascal_case(self.deep_view()),
    {
        let mut out = String::new();
        let mut next_big = true;
        proof {
            assert(self.0@.skip(0) == self.0@);
            assert(Seq::<char>::empty() + pascal_case(self.0@) == pascal_case(self.0@));
        }
        for c in it: self.0.as_str().chars()
            invariant
                it.seq() == self.0@,
                out@ + pascal_case_from(self.0@.skip(it.index()), next_big) == pascal_case(self.0@),
        {
            proof {
                let rest = self.0@.skip(it.index());
                assert(rest.drop_first() == self.0@.skip(it.index() + 1));
                assert(rest[0] == c);
                let tail = pascal_case_from(rest.drop_first(), false);
                assert(out@.push(ascii_upper(c)) + tail == out@ + (seq![ascii_upper(c)] + tail));
                assert(out@.push(c) + tail == out@ + (seq![c] + tail));
            }
            if c == '_' {
                next_big = true;
            } else if next_big {
                out.push(to_ascii_upper(c));
                next_big = false;
            } else {
                out.push(c);
            }
        }
        proof {
            assert(self.0@.skip(self.0@.len() as int).len() == 0);
            assert(out@ + Seq::<char>::empty() == out@);
        }
        out
    }
}

} // verus!
