//! The values that fields take, and how a value is read from the text that
//! the command line or the environment gives for it.

use vstd::prelude::*;
use crate::text::{decimal_digits, same_text};

verus! {

/// The value of a field.
#[derive(Debug, PartialEq, Eq)]
pub enum Value {
    Integer(i128),
    Boolean(bool),
    Text(String),
}

/// What a [`Value`] stands for in contracts.
pub enum ValueView {
    Integer(int),
    Boolean(bool),
    Text(Seq<char>),
}

impl DeepView for Value {
    type V = ValueView;

    open spec fn deep_view(&self) -> ValueView {
        match self {
            Value::Integer(n) => ValueView::Integer(*n as int),
            Value::Boolean(b) => ValueView::Boolean(*b),
            Value::Text(text) => ValueView::Text(text@),
        }
    }
}

impl Value {
    /// A copy of the value.
    pub fn duplicate(&self) -> (copy: Value)
        ensures
            copy.deep_view() == self.deep_view(),
    {
        match self {
            Value::Integer(n) => Value::Integer(*n),
            Value::Boolean(b) => Value::Boolean(*b),
            Value::Text(text) => Value::Text(text.clone()),
        }
    }
}

/// A copy of an optional value.
pub fn duplicate_option(value: &Option<Value>) -> (copy: Option<Value>)
    ensures
        copy.deep_view() == value.deep_view(),
{
    match value {
        Some(value) => Some(value.duplicate()),
        None => None,
    }
}

/// A whole-number type of fixed width.
#[derive(Debug, Clone, Copy, PartialEq, Eq, Structural)]
pub enum IntegerType {
    U8,
    U16,
    U32,
    U64,
    I8,
    I16,
    I32,
    I64,
}

/// The smallest number of the type.
pub open spec fn type_min(ty: IntegerType) -> int {
    match ty {
        IntegerType::U8 | IntegerType::U16 | IntegerType::U32 | IntegerType::U64 => 0,
        IntegerType::I8 => -0x80,
        IntegerType::I16 => -0x8000,
        IntegerType::I32 => -0x8000_0000,
        IntegerType::I64 => -0x8000_0000_0000_0000,
    }
}

/// The largest number of the type.
pub open spec fn type_max(ty: IntegerType) -> int {
    match ty {
        IntegerType::U8 => 0xff,
        IntegerType::U16 => 0xffff,
        IntegerType::U32 => 0xffff_ffff,
        IntegerType::U64 => 0xffff_ffff_ffff_ffff,
        IntegerType::I8 => 0x7f,
        IntegerType::I16 => 0x7fff,
        IntegerType::I32 => 0x7fff_ffff,
        IntegerType::I64 => 0x7fff_ffff_ffff_ffff,
    }
}

impl IntegerType {
    /// The smallest number of the type.
    pub fn min(&self) -> (min: i128)
        ensures
            min == type_min(*self),
    {
        match self {
            IntegerType::U8 | IntegerType::U16 | IntegerType::U32 | IntegerType::U64 => 0,
            IntegerType::I8 => -0x80,
            IntegerType::I16 => -0x8000,
            IntegerType::I32 => -0x8000_0000,
            IntegerType::I64 => -0x8000_0000_0000_0000,
        }
    }

    /// The largest number of the type.
    pub fn max(&self) -> (max: i128)
        ensures
            max == type_max(*self),
    {
        match self {
            IntegerType::U8 => 0xff,
            IntegerType::U16 => 0xffff,
            IntegerType::U32 => 0xffff_ffff,
            IntegerType::U64 => 0xffff_ffff_ffff_ffff,
            IntegerType::I8 => 0x7f,
            IntegerType::I16 => 0x7fff,
            IntegerType::I32 => 0x7fff_ffff,
            IntegerType::I64 => 0x7fff_ffff_ffff_ffff,
        }
    }
}

/// How the text of a value is read, which the name of the field's type
/// decides.
#[derive(Debug, Clone, Copy, PartialEq, Eq, Structural)]
pub enum ValueKind {
    /// As a whole number of this type.
    Integer(IntegerType),
    /// As `true` or `false`.
    Boolean,
    /// As it stands.
    Text,
}

/// How the values of a field of the type `ty` are read: the fixed-width
/// integer types of up to 64 bits as whole numbers of their range, `bool` as
/// a truth value, any other type as text.
pub open spec fn kind_of_type(ty: Seq<char>) -> ValueKind {
    if ty == "u8"@ {
        ValueKind::Integer(IntegerType::U8)
    } else if ty == "u16"@ {
        ValueKind::Integer(IntegerType::U16)
    } else if ty == "u32"@ {
        ValueKind::Integer(IntegerType::U32)
    } else if ty == "u64"@ {
        ValueKind::Integer(IntegerType::U64)
    } else if ty == "i8"@ {
        ValueKind::Integer(IntegerType::I8)
    } else if ty == "i16"@ {
        ValueKind::Integer(IntegerType::I16)
    } else if ty == "i32"@ {
        ValueKind::Integer(IntegerType::I32)
    } else if ty == "i64"@ {
        ValueKind::Integer(IntegerType::I64)
    } else if ty == "bool"@ {
        ValueKind::Boolean
    } else {
        ValueKind::Text
    }
}

/// Computes [`kind_of_type`].
pub fn value_kind(ty: &str) -> (kind: ValueKind)
    ensures
        kind == kind_of_type(ty@),
{
    if same_text(ty, "u8") {
        ValueKind::Integer(IntegerType::U8)
    } else if same_text(ty, "u16") {
        ValueKind::Integer(IntegerType::U16)
    } else if same_text(ty, "u32") {
        ValueKind::Integer(IntegerType::U32)
    } else if same_text(ty, "u64") {
        ValueKind::Integer(IntegerType::U64)
    } else if same_text(ty, "i8") {
        ValueKind::Integer(IntegerType::I8)
    } else if same_text(ty, "i16") {
        ValueKind::Integer(IntegerType::I16)
    } else if same_text(ty, "i32") {
        ValueKind::Integer(IntegerType::I32)
    } else if same_text(ty, "i64") {
        ValueKind::Integer(IntegerType::I64)
    } else if same_text(ty, "bool") {
        ValueKind::Boolean
    } else {
        ValueKind::Text
    }
}

/// What `u8` comes of reading `text` as a command-line argument: the
/// number, or what is said of a text that is none.
pub uninterp spec fn parsed_u8(text: Seq<char>) -> Result<int, Seq<char>>;

/// `ParseArg::parse_arg` of `parse_arg` for `u8`, which reads the text as
/// `u8::from_str` does; of a text that is no such number, what the error
/// says of itself. Nothing is stated of the outcome but that it depends on
/// the text alone and that a number that comes out is one of the type.
#[verifier::external_body]
pub(crate) fn parse_u8(text: &str) -> (r: Result<i128, String>)
    ensures
        match r {
            Ok(n) => parsed_u8(text@) == Ok::<int, Seq<char>>(n as int),
            Err(message) => parsed_u8(text@) == Err::<int, Seq<char>>(message@),
        },
        r matches Ok(n) ==> type_min(IntegerType::U8) <= n <= type_max(IntegerType::U8),
{
    <u8 as parse_arg::ParseArg>::parse_arg(text.as_ref()).map(i128::from).map_err(
        |error| error.to_string(),
    )
}

/// `ParseArg::describe_type` of `parse_arg` for `u8` writes the words that
/// say which numbers the type has.
#[verifier::external_body]
fn describe_u8() -> (text: String)
    ensures
        text@ == kind_description(ValueKind::Integer(IntegerType::U8)),
{
    let mut text = String::new();
    let _ = <u8 as parse_arg::ParseArg>::describe_type(&mut text);
    text
}

/// What `u16` comes of reading `text` as a command-line argument: the
/// number, or what is said of a text that is none.
pub uninterp spec fn parsed_u16(text: Seq<char>) -> Result<int, Seq<char>>;

/// `ParseArg::parse_arg` of `parse_arg` for `u16`, which reads the text as
/// `u16::from_str` does; of a text that is no such number, what the error
/// says of itself. Nothing is stated of the outcome but that it depends on
/// the text alone and that a number that comes out is one of the type.
#[verifier::external_body]
pub(crate) fn parse_u16(text: &str) -> (r: Result<i128, String>)
    ensures
        match r {
            Ok(n) => parsed_u16(text@) == Ok::<int, Seq<char>>(n as int),
            Err(message) => parsed_u16(text@) == Err::<int, Seq<char>>(message@),
        },
        r matches Ok(n) ==> type_min(IntegerType::U16) <= n <= type_max(IntegerType::U16),
{
    <u16 as parse_arg::ParseArg>::parse_arg(text.as_ref()).map(i128::from).map_err(
        |error| error.to_string(),
    )
}

/// `ParseArg::describe_type` of `parse_arg` for `u16` writes the words that
/// say which numbers the type has.
#[verifier::external_body]
fn describe_u16() -> (text: String)
    ensures
        text@ == kind_description(ValueKind::Integer(IntegerType::U16)),
{
    let mut text = String::new();
    let _ = <u16 as parse_arg::ParseArg>::describe_type(&mut text);
    text
}

/// What `u32` comes of reading `text` as a command-line argument: the
/// number, or what is said of a text that is none.
pub uninterp spec fn parsed_u32(text: Seq<char>) -> Result<int, Seq<char>>;

/// `ParseArg::parse_arg` of `parse_arg` for `u32`, which reads the text as
/// `u32::from_str` does; of a text that is no such number, what the error
/// says of itself. Nothing is stated of the outcome but that it depends on
/// the text alone and that a number that comes out is one of the type.
#[verifier::external_body]
pub(crate) fn parse_u32(text: &str) -> (r: Result<i128, String>)
    ensures
        match r {
            Ok(n) => parsed_u32(text@) == Ok::<int, Seq<char>>(n as int),
            Err(message) => parsed_u32(text@) == Err::<int, Seq<char>>(message@),
        },
        r matches Ok(n) ==> type_min(IntegerType::U32) <= n <= type_max(IntegerType::U32),
{
    <u32 as parse_arg::ParseArg>::parse_arg(text.as_ref()).map(i128::from).map_err(
        |error| error.to_string(),
    )
}

/// `ParseArg::describe_type` of `parse_arg` for `u32` writes the words that
/// say which numbers the type has.
#[verifier::external_body]
fn describe_u32() -> (text: String)
    ensures
        text@ == kind_description(ValueKind::Integer(IntegerType::U32)),
{
    let mut text = String::new();
    let _ = <u32 as parse_arg::ParseArg>::describe_type(&mut text);
    text
}

/// What `u64` comes of reading `text` as a command-line argument: the
/// number, or what is said of a text that is none.
pub uninterp spec fn parsed_u64(text: Seq<char>) -> Result<int, Seq<char>>;

/// `ParseArg::parse_arg` of `parse_arg` for `u64`, which reads the text as
/// `u64::from_str` does; of a text that is no such number, what the error
/// says of itself. Nothing is stated of the outcome but that it depends on
/// the text alone and that a number that comes out is one of the type.
#[verifier::external_body]
pub(crate) fn parse_u64(text: &str) -> (r: Result<i128, String>)
    ensures
        match r {
            Ok(n) => parsed_u64(text@) == Ok::<int, Seq<char>>(n as int),
            Err(message) => parsed_u64(text@) == Err::<int, Seq<char>>(message@),
        },
        r matches Ok(n) ==> type_min(IntegerType::U64) <= n <= type_max(IntegerType::U64),
{
    <u64 as parse_arg::ParseArg>::parse_arg(text.as_ref()).map(i128::from).map_err(
        |error| error.to_string(),
    )
}

/// `ParseArg::describe_type` of `parse_arg` for `u64` writes the words that
/// say which numbers the type has.
#[verifier::external_body]
fn describe_u64() -> (text: String)
    ensures
        text@ == kind_description(ValueKind::Integer(IntegerType::U64)),
{
    let mut text = String::new();
    let _ = <u64 as parse_arg::ParseArg>::describe_type(&mut text);
    text
}

/// What `i8` comes of reading `text` as a command-line argument: the
/// number, or what is said of a text that is none.
pub uninterp spec fn parsed_i8(text: Seq<char>) -> Result<int, Seq<char>>;

/// `ParseArg::parse_arg` of `parse_arg` for `i8`, which reads the text as
/// `i8::from_str` does; of a text that is no such number, what the error
/// says of itself. Nothing is stated of the outcome but that it depends on
/// the text alone and that a number that comes out is one of the type.
#[verifier::external_body]
pub(crate) fn parse_i8(text: &str) -> (r: Result<i128, String>)
    ensures
        match r {
            Ok(n) => parsed_i8(text@) == Ok::<int, Seq<char>>(n as int),
            Err(message) => parsed_i8(text@) == Err::<int, Seq<char>>(message@),
        },
        r matches Ok(n) ==> type_min(IntegerType::I8) <= n <= type_max(IntegerType::I8),
{
    <i8 as parse_arg::ParseArg>::parse_arg(text.as_ref()).map(i128::from).map_err(
        |error| error.to_string(),
    )
}

/// `ParseArg::describe_type` of `parse_arg` for `i8` writes the words that
/// say which numbers the type has.
#[verifier::external_body]
fn describe_i8() -> (text: String)
    ensures
        text@ == kind_description(ValueKind::Integer(IntegerType::I8)),
{
    let mut text = String::new();
    let _ = <i8 as parse_arg::ParseArg>::describe_type(&mut text);
    text
}

/// What `i16` comes of reading `text` as a command-line argument: the
/// number, or what is said of a text that is none.
pub uninterp spec fn parsed_i16(text: Seq<char>) -> Result<int, Seq<char>>;

/// `ParseArg::parse_arg` of `parse_arg` for `i16`, which reads the text as
/// `i16::from_str` does; of a text that is no such number, what the error
/// says of itself. Nothing is stated of the outcome but that it depends on
/// the text alone and that a number that comes out is one of the type.
#[verifier::external_body]
pub(crate) fn parse_i16(text: &str) -> (r: Result<i128, String>)
    ensures
        match r {
            Ok(n) => parsed_i16(text@) == Ok::<int, Seq<char>>(n as int),
            Err(message) => parsed_i16(text@) == Err::<int, Seq<char>>(message@),
        },
        r matches Ok(n) ==> type_min(IntegerType::I16) <= n <= type_max(IntegerType::I16),
{
    <i16 as parse_arg::ParseArg>::parse_arg(text.as_ref()).map(i128::from).map_err(
        |error| error.to_string(),
    )
}

/// `ParseArg::describe_type` of `parse_arg` for `i16` writes the words that
/// say which numbers the type has.
#[verifier::external_body]
fn describe_i16() -> (text: String)
    ensures
        text@ == kind_description(ValueKind::Integer(IntegerType::I16)),
{
    let mut text = String::new();
    let _ = <i16 as parse_arg::ParseArg>::describe_type(&mut text);
    text
}

/// What `i32` comes of reading `text` as a command-line argument: the
/// number, or what is said of a text that is none.
pub uninterp spec fn parsed_i32(text: Seq<char>) -> Result<int, Seq<char>>;

/// `ParseArg::parse_arg` of `parse_arg` for `i32`, which reads the text as
/// `i32::from_str` does; of a text that is no such number, what the error
/// says of itself. Nothing is stated of the outcome but that it depends on
/// the text alone and that a number that comes out is one of the type.
#[verifier::external_body]
pub(crate) fn parse_i32(text: &str) -> (r: Result<i128, String>)
    ensures
        match r {
            Ok(n) => parsed_i32(text@) == Ok::<int, Seq<char>>(n as int),
            Err(message) => parsed_i32(text@) == Err::<int, Seq<char>>(message@),
        },
        r matches Ok(n) ==> type_min(IntegerType::I32) <= n <= type_max(IntegerType::I32),
{
    <i32 as parse_arg::ParseArg>::parse_arg(text.as_ref()).map(i128::from).map_err(
        |error| error.to_string(),
    )
}

/// `ParseArg::describe_type` of `parse_arg` for `i32` writes the words that
/// say which numbers the type has.
#[verifier::external_body]
fn describe_i32() -> (text: String)
    ensures
        text@ == kind_description(ValueKind::Integer(IntegerType::I32)),
{
    let mut text = String::new();
    let _ = <i32 as parse_arg::ParseArg>::describe_type(&mut text);
    text
}

/// What `i64` comes of reading `text` as a command-line argument: the
/// number, or what is said of a text that is none.
pub uninterp spec fn parsed_i64(text: Seq<char>) -> Result<int, Seq<char>>;

/// `ParseArg::parse_arg` of `parse_arg` for `i64`, which reads the text as
/// `i64::from_str` does; of a text that is no such number, what the error
/// says of itself. Nothing is stated of the outcome but that it depends on
/// the text alone and that a number that comes out is one of the type.
#[verifier::external_body]
pub(crate) fn parse_i64(text: &str) -> (r: Result<i128, String>)
    ensures
        match r {
            Ok(n) => parsed_i64(text@) == Ok::<int, Seq<char>>(n as int),
            Err(message) => parsed_i64(text@) == Err::<int, Seq<char>>(message@),
        },
        r matches Ok(n) ==> type_min(IntegerType::I64) <= n <= type_max(IntegerType::I64),
{
    <i64 as parse_arg::ParseArg>::parse_arg(text.as_ref()).map(i128::from).map_err(
        |error| error.to_string(),
    )
}

/// `ParseArg::describe_type` of `parse_arg` for `i64` writes the words that
/// say which numbers the type has.
#[verifier::external_body]
fn describe_i64() -> (text: String)
    ensures
        text@ == kind_description(ValueKind::Integer(IntegerType::I64)),
{
    let mut text = String::new();
    let _ = <i64 as parse_arg::ParseArg>::describe_type(&mut text);
    text
}

/// What comes of reading `text` as a truth value: the value, or what is
/// said of a text that is none.
pub uninterp spec fn parsed_bool(text: Seq<char>) -> Result<bool, Seq<char>>;

/// `ParseArg::parse_arg` of `parse_arg` for `bool`, which reads the text as
/// `bool::from_str` does: `true` and `false` are the two texts it takes, each
/// for the value it names; of any other text it hands on what the error says
/// of itself, of which nothing is stated but that it depends on the text
/// alone.
#[verifier::external_body]
fn parse_bool(text: &str) -> (r: Result<bool, String>)
    ensures
        match r {
            Ok(b) => parsed_bool(text@) == Ok::<bool, Seq<char>>(b),
            Err(message) => parsed_bool(text@) == Err::<bool, Seq<char>>(message@),
        },
        r is Ok <==> text@ == "true"@ || text@ == "false"@,
        r matches Ok(b) ==> b == (text@ == "true"@),
{
    <bool as parse_arg::ParseArg>::parse_arg(text.as_ref()).map_err(|error| error.to_string())
}

/// `ParseArg::describe_type` of `parse_arg` for `bool` writes the words
/// that say which values the type has.
#[verifier::external_body]
fn describe_bool() -> (text: String)
    ensures
        text@ == kind_description(ValueKind::Boolean),
{
    let mut text = String::new();
    let _ = <bool as parse_arg::ParseArg>::describe_type(&mut text);
    text
}

/// `ParseArg::describe_type` of `parse_arg` for `String` writes the words
/// that say what a text is.
#[verifier::external_body]
fn describe_text() -> (text: String)
    ensures
        text@ == kind_description(ValueKind::Text),
{
    let mut text = String::new();
    let _ = <String as parse_arg::ParseArg>::describe_type(&mut text);
    text
}

/// What `parse_arg` says of an argument that is no text: what
/// `ParseArgError::InvalidUtf8` shows of itself.
#[verifier::external_body]
pub(crate) fn invalid_utf8_words() -> (text: String)
    ensures
        text@ == "invalid UTF-8 encoding"@,
{
    parse_arg::ParseArgError::<std::convert::Infallible>::InvalidUtf8.to_string()
}

/// What comes of reading `text` as a whole number of the type `ty`.
pub open spec fn integer_of_text(ty: IntegerType, text: Seq<char>) -> Result<int, Seq<char>> {
    match ty {
        IntegerType::U8 => parsed_u8(text),
        IntegerType::U16 => parsed_u16(text),
        IntegerType::U32 => parsed_u32(text),
        IntegerType::U64 => parsed_u64(text),
        IntegerType::I8 => parsed_i8(text),
        IntegerType::I16 => parsed_i16(text),
        IntegerType::I32 => parsed_i32(text),
        IntegerType::I64 => parsed_i64(text),
    }
}

/// The value of the kind `kind` that `text` spells, or what is said of a
/// text that spells none. Text is taken as it stands.
pub open spec fn value_of_text(kind: ValueKind, text: Seq<char>) -> Result<ValueView, Seq<char>> {
    match kind {
        ValueKind::Integer(ty) => match integer_of_text(ty, text) {
            Ok(n) => Ok(ValueView::Integer(n)),
            Err(message) => Err(message),
        },
        ValueKind::Boolean => match parsed_bool(text) {
            Ok(b) => Ok(ValueView::Boolean(b)),
            Err(message) => Err(message),
        },
        ValueKind::Text => Ok(ValueView::Text(text)),
    }
}

/// Whether `value` is one of the values of the kind `kind`: a number of
/// the kind's type, a truth value, or a text.
pub open spec fn of_kind(kind: ValueKind, value: ValueView) -> bool {
    match (kind, value) {
        (ValueKind::Integer(ty), ValueView::Integer(n)) => type_min(ty) <= n <= type_max(ty),
        (ValueKind::Boolean, ValueView::Boolean(_)) => true,
        (ValueKind::Text, ValueView::Text(_)) => true,
        _ => false,
    }
}

/// Reads a whole number of the type `ty`. A number that comes out is one
/// of the type.
pub fn parse_integer(text: &str, ty: IntegerType) -> (r: Result<i128, String>)
    ensures
        match r {
            Ok(n) => integer_of_text(ty, text@) == Ok::<int, Seq<char>>(n as int),
            Err(message) => integer_of_text(ty, text@) == Err::<int, Seq<char>>(message@),
        },
        r matches Ok(n) ==> type_min(ty) <= n <= type_max(ty),
{
    match ty {
        IntegerType::U8 => parse_u8(text),
        IntegerType::U16 => parse_u16(text),
        IntegerType::U32 => parse_u32(text),
        IntegerType::U64 => parse_u64(text),
        IntegerType::I8 => parse_i8(text),
        IntegerType::I16 => parse_i16(text),
        IntegerType::I32 => parse_i32(text),
        IntegerType::I64 => parse_i64(text),
    }
}

/// What a refused text stands for in contracts: what is said of it.
pub open spec fn refusal_view<T: DeepView>(r: Result<T, String>) -> Result<T::V, Seq<char>> {
    match r {
        Ok(value) => Ok(value.deep_view()),
        Err(message) => Err(message@),
    }
}

/// Reads a value of the kind `kind` from the text that spells it. A value
/// that comes out is one of the kind; every text is a text, and `true` and
/// `false` are the two truth values.
pub fn parse_value(kind: ValueKind, text: String) -> (r: Result<Value, String>)
    ensures
        refusal_view(r) == value_of_text(kind, text@),
        r matches Ok(value) ==> of_kind(kind, value.deep_view()),
        kind is Boolean ==> (r is Ok <==> text@ == "true"@ || text@ == "false"@),
        kind is Boolean ==> (r matches Ok(value) ==> value.deep_view() == ValueView::Boolean(
            text@ == "true"@,
        )),
{
    match kind {
        ValueKind::Integer(ty) => match parse_integer(text.as_str(), ty) {
            Ok(n) => Ok(Value::Integer(n)),
            Err(message) => Err(message),
        },
        ValueKind::Boolean => match parse_bool(text.as_str()) {
            Ok(b) => Ok(Value::Boolean(b)),
            Err(message) => Err(message),
        },
        ValueKind::Text => Ok(Value::Text(text)),
    }
}

/// The decimal notation of a whole number, with `-` in front of a negative
/// one.
pub open spec fn signed_digits(n: int) -> Seq<char> {
    if n < 0 {
        seq!['-'] + decimal_digits((-n) as nat)
    } else {
        decimal_digits(n as nat)
    }
}

/// The words that say which values a kind has.
pub open spec fn kind_description(kind: ValueKind) -> Seq<char> {
    match kind {
        ValueKind::Integer(ty) => if type_min(ty) == 0 {
            "a non-negative integer up to "@ + signed_digits(type_max(ty))
        } else {
            "an integer at least "@ + signed_digits(type_min(ty)) + " and up to "@
                + signed_digits(type_max(ty))
        },
        ValueKind::Boolean => "a boolean (true or false)"@,
        ValueKind::Text => "a UTF-8 encoded string"@,
    }
}

impl ValueKind {
    /// The words that say which values the kind has.
    pub fn describe(&self) -> (text: String)
        ensures
            text@ == kind_description(*self),
    {
        match self {
            ValueKind::Integer(IntegerType::U8) => describe_u8(),
            ValueKind::Integer(IntegerType::U16) => describe_u16(),
            ValueKind::Integer(IntegerType::U32) => describe_u32(),
            ValueKind::Integer(IntegerType::U64) => describe_u64(),
            ValueKind::Integer(IntegerType::I8) => describe_i8(),
            ValueKind::Integer(IntegerType::I16) => describe_i16(),
            ValueKind::Integer(IntegerType::I32) => describe_i32(),
            ValueKind::Integer(IntegerType::I64) => describe_i64(),
            ValueKind::Boolean => describe_bool(),
            ValueKind::Text => describe_text(),
        }
    }
}

} // verus!
