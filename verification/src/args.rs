//! The forms in which an option and its value stand on a command line.

use vstd::prelude::*;
use vstd::utf8::{decode_utf8, encode_utf8, valid_utf8};

verus! {

/// What a token says of the option `name`: nothing, if it is neither the
/// name nor starts with the name and `=`; else the value — what follows the
/// `=`, or, where the token is the name alone, the next token if there is
/// one.
pub open spec fn matched(name: Seq<char>, arg: Seq<char>, next: Option<Seq<char>>) -> Option<
    Option<Seq<char>>,
> {
    if arg == name {
        Some(next)
    } else if arg.len() > name.len() && arg.subrange(0, name.len() as int) == name
        && arg[name.len() as int] == '=' {
        Some(Some(arg.skip(name.len() as int + 1)))
    } else {
        None
    }
}

/// `parse_arg::match_arg`, for a value that is taken as text: tells whether
/// `arg` is the option `name` alone, and then takes the value from `next`;
/// or `name` with `=` and a value behind it, and then takes that value and
/// leaves `next` alone; or neither. The value is missing where `arg` is the
/// name alone and there is no next token.
#[verifier::external_body]
pub(crate) fn match_arg(name: &str, arg: &str, next: Option<&String>) -> (r: Option<Option<String>>)
    ensures
        r.deep_view() == matched(name@, arg@, next.deep_view()),
{
    match parse_arg::match_arg::<String, _, _>(name, arg, next.map(String::as_str)) {
        None => None,
        Some(Ok(value)) => Some(Some(value)),
        Some(Err(_)) => Some(None),
    }
}

/// `parse_arg::ShortIter`: the short options of a token that have not been
/// looked at yet. Nothing is known of a value of this type but what
/// [`short_rest`] names.
#[verifier::external_type_specification]
#[verifier::external_body]
pub struct ExShortIter<'a>(parse_arg::ShortIter<'a>);

/// The bytes of the token that the `parse_arg::ShortIter` `iter` has not
/// given out yet.
pub uninterp spec fn short_rest(iter: parse_arg::ShortIter<'_>) -> Seq<u8>;

/// Whether the bytes are those of a group of short options: at least two,
/// the first a dash, the second none.
pub open spec fn is_short_group(bytes: Seq<u8>) -> bool {
    bytes.len() >= 2 && bytes[0] == 0x2d && bytes[1] != 0x2d
}

/// `parse_arg::iter_short` tells whether `arg` is a group of short options,
/// and then hands out what follows the dash, byte by byte.
#[verifier::external_body]
pub(crate) fn iter_short<'a>(arg: &'a str) -> (r: Option<parse_arg::ShortIter<'a>>)
    ensures
        r is Some <==> is_short_group(encode_utf8(arg@)),
        r matches Some(iter) ==> short_rest(iter) == encode_utf8(arg@).skip(1),
{
    parse_arg::iter_short(arg)
}

/// `ShortIter::next` of `parse_arg` hands out the next byte of the group as
/// a character, if there is one left.
#[verifier::external_body]
pub(crate) fn next_short(iter: &mut parse_arg::ShortIter<'_>) -> (r: Option<char>)
    ensures
        short_rest(*old(iter)).len() == 0 ==> r is None && short_rest(*final(iter)).len() == 0,
        short_rest(*old(iter)).len() > 0 ==> r == Some(short_rest(*old(iter))[0] as char)
            && short_rest(*final(iter)) == short_rest(*old(iter)).skip(1),
{
    iter.next()
}

/// Why a short option has no value.
#[derive(Debug, Clone, Copy, PartialEq, Eq, Structural)]
pub enum ShortValueError {
    /// Nothing follows the option in its token, and no token follows.
    Missing,
    /// What follows the option in its token is no text.
    InvalidUtf8,
}

/// The value of a short option: what is left of its token, if anything is;
/// else the next token.
pub open spec fn short_value(rest: Seq<u8>, next: Option<Seq<char>>) -> Result<
    Seq<char>,
    ShortValueError,
> {
    if rest.len() == 0 {
        match next {
            Some(value) => Ok(value),
            None => Err(ShortValueError::Missing),
        }
    } else if valid_utf8(rest) {
        Ok(decode_utf8(rest))
    } else {
        Err(ShortValueError::InvalidUtf8)
    }
}

/// `ShortIter::parse_remaining` of `parse_arg`, for a value that is taken
/// as text: the value is what is left of the token, if anything is, and else
/// the token `next`. What is left of the token is refused if its bytes are no
/// text, and the value is missing if nothing is left and there is no next
/// token.
#[verifier::external_body]
pub(crate) fn remaining_value(iter: parse_arg::ShortIter<'_>, next: Option<&String>) -> (r: Result<
    String,
    ShortValueError,
>)
    ensures
        match r {
            Ok(value) => short_value(short_rest(iter), next.deep_view()) == Ok::<
                Seq<char>,
                ShortValueError,
            >(value@),
            Err(error) => short_value(short_rest(iter), next.deep_view()) == Err::<
                Seq<char>,
                ShortValueError,
            >(error),
        },
{
    match iter.parse_remaining::<String, _>(next.map(String::as_str)) {
        Ok(value) => Ok(value),
        Err(parse_arg::ValueError::MissingValue) => Err(ShortValueError::Missing),
        Err(parse_arg::ValueError::InvalidValue(_)) => Err(ShortValueError::InvalidUtf8),
    }
}

} // verus!
