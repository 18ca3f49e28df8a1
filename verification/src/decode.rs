//! Typed row decoding: each supported scalar type decodes one nullable
//! cell string, and failures carry the field name, the raw cell, and the
//! cause.

use vstd::prelude::*;

use crate::bindings::BindingValue;
use crate::numstr::{lemma_sint_round_trip, lemma_uint_round_trip, parse_i128, parse_u128, spec_parse_sint, spec_parse_uint, IntParseError};
use crate::response::SnowflakeSqlResponse;
use crate::strutil::str_eq;

verus! {

/// Why one cell failed to decode.
#[derive(Clone, Copy, Debug, PartialEq, Eq, Structural)]
pub enum DecodeCause {
    /// The cell was null but the target type cannot be.
    UnexpectedNull,
    /// The cell is not written in the target type's syntax.
    InvalidSyntax,
    /// The cell denotes a number outside the target type's range.
    OutOfRange,
    /// The cell does not hold well-formed JSON.
    InvalidJson,
}

/// A field-decode failure: which field, the raw cell it read, and why.
#[derive(Clone, Debug)]
pub struct DecodeError {
    pub field_name: String,
    pub raw_value: Option<String>,
    pub cause: DecodeCause,
}

/// The view of an optional borrowed cell.
pub open spec fn spec_opt_view(s: Option<&str>) -> Option<Seq<char>> {
    match s {
        Some(t) => Some(t@),
        None => None,
    }
}

/// The view of an optional owned cell.
pub open spec fn spec_cell_view(s: Option<String>) -> Option<Seq<char>> {
    match s {
        Some(t) => Some(t@),
        None => None,
    }
}

/// A scalar target type: decodes one nullable cell string.
///
/// `decode_ok` says on exactly which cells decoding succeeds, `decode_rel`
/// relates a cell to the value it denotes, and `fail_cause` names the cause
/// reported for a cell that denotes no value.
pub trait DeserializeFromStr: Sized {
    spec fn decode_ok(s: Option<Seq<char>>) -> bool;

    spec fn decode_rel(s: Option<Seq<char>>, v: Self) -> bool;

    spec fn fail_cause(s: Option<Seq<char>>) -> DecodeCause;

    fn deserialize_from_str(s: Option<&str>) -> (r: Result<Self, DecodeCause>)
        ensures
            r is Ok <==> Self::decode_ok(spec_opt_view(s)),
            (r matches Ok(v) ==> Self::decode_rel(spec_opt_view(s), v)),
            (r matches Err(c) ==> c == Self::fail_cause(spec_opt_view(s))),
    ;
}

impl DeserializeFromStr for bool {
    open spec fn decode_ok(s: Option<Seq<char>>) -> bool {
        s matches Some(t) && (t == "true"@ || t == "false"@)
    }

    open spec fn decode_rel(s: Option<Seq<char>>, v: bool) -> bool {
        s matches Some(t) && (if v {
            t == "true"@
        } else {
            t == "false"@
        })
    }

    open spec fn fail_cause(s: Option<Seq<char>>) -> DecodeCause {
        if s is None {
            DecodeCause::UnexpectedNull
        } else {
            DecodeCause::InvalidSyntax
        }
    }

    fn deserialize_from_str(s: Option<&str>) -> (r: Result<Self, DecodeCause>) {
        match s {
            None => Err(DecodeCause::UnexpectedNull),
            Some(t) => {
                if str_eq(t, "true") {
                    Ok(true)
                } else if str_eq(t, "false") {
                    Ok(false)
                } else {
                    Err(DecodeCause::InvalidSyntax)
                }
            },
        }
    }
}

impl DeserializeFromStr for String {
    open spec fn decode_ok(s: Option<Seq<char>>) -> bool {
        s is Some
    }

    open spec fn decode_rel(s: Option<Seq<char>>, v: String) -> bool {
        s matches Some(t) && v@ == t
    }

    open spec fn fail_cause(s: Option<Seq<char>>) -> DecodeCause {
        DecodeCause::UnexpectedNull
    }

    fn deserialize_from_str(s: Option<&str>) -> (r: Result<Self, DecodeCause>) {
        match s {
            None => Err(DecodeCause::UnexpectedNull),
            Some(t) => Ok(t.to_owned()),
        }
    }
}

impl<T: DeserializeFromStr> DeserializeFromStr for Option<T> {
    open spec fn decode_ok(s: Option<Seq<char>>) -> bool {
        s is None || T::decode_ok(s)
    }

    open spec fn decode_rel(s: Option<Seq<char>>, v: Option<T>) -> bool {
        match s {
            None => v is None,
            Some(_) => v matches Some(w) && T::decode_rel(s, w),
        }
    }

    open spec fn fail_cause(s: Option<Seq<char>>) -> DecodeCause {
        T::fail_cause(s)
    }

    fn deserialize_from_str(s: Option<&str>) -> (r: Result<Self, DecodeCause>) {
        match s {
            None => Ok(None),
            Some(t) => {
                match T::deserialize_from_str(Some(t)) {
                    Ok(v) => Ok(Some(v)),
                    Err(c) => Err(c),
                }
            },
        }
    }
}

/// The cause for a cell whose signed-decimal reading failed.
pub open spec fn spec_sint_fail_cause(s: Option<Seq<char>>) -> DecodeCause {
    match s {
        None => DecodeCause::UnexpectedNull,
        Some(t) => if spec_parse_sint(t) is None {
            DecodeCause::InvalidSyntax
        } else {
            DecodeCause::OutOfRange
        },
    }
}

/// The cause for a cell whose unsigned-decimal reading failed.
pub open spec fn spec_uint_fail_cause(s: Option<Seq<char>>) -> DecodeCause {
    match s {
        None => DecodeCause::UnexpectedNull,
        Some(t) => if spec_parse_uint(t) is None {
            DecodeCause::InvalidSyntax
        } else {
            DecodeCause::OutOfRange
        },
    }
}

/// Decodes a signed decimal cell and keeps only values in `[min, max]`.
fn decode_sint_in_range(s: Option<&str>, min: i128, max: i128) -> (r: Result<i128, DecodeCause>)
    ensures
        r is Ok <==> (spec_opt_view(s) matches Some(t) && spec_parse_sint(t) matches Some(w) && min
            <= w <= max),
        (r matches Ok(v) ==> min <= v <= max && (spec_opt_view(s) matches Some(t)
            && spec_parse_sint(t) == Some(v as int))),
        (r matches Err(c) ==> c == spec_sint_fail_cause(spec_opt_view(s))),
{
    match s {
        None => Err(DecodeCause::UnexpectedNull),
        Some(t) => match parse_i128(t) {
            Ok(v) => {
                if min <= v && v <= max {
                    Ok(v)
                } else {
                    Err(DecodeCause::OutOfRange)
                }
            },
            Err(IntParseError::Invalid) => Err(DecodeCause::InvalidSyntax),
            Err(IntParseError::OutOfRange) => Err(DecodeCause::OutOfRange),
        },
    }
}

/// Decodes an unsigned decimal cell and keeps only values up to `max`.
fn decode_uint_in_range(s: Option<&str>, max: u128) -> (r: Result<u128, DecodeCause>)
    ensures
        r is Ok <==> (spec_opt_view(s) matches Some(t) && spec_parse_uint(t) matches Some(w) && 0
            <= w <= max),
        (r matches Ok(v) ==> v <= max && (spec_opt_view(s) matches Some(t) && spec_parse_uint(t)
            == Some(v as int))),
        (r matches Err(c) ==> c == spec_uint_fail_cause(spec_opt_view(s))),
{
    match s {
        None => Err(DecodeCause::UnexpectedNull),
        Some(t) => match parse_u128(t) {
            Ok(v) => {
                if v <= max {
                    Ok(v)
                } else {
                    Err(DecodeCause::OutOfRange)
                }
            },
            Err(IntParseError::Invalid) => Err(DecodeCause::InvalidSyntax),
            Err(IntParseError::OutOfRange) => Err(DecodeCause::OutOfRange),
        },
    }
}

impl DeserializeFromStr for i128 {
    open spec fn decode_ok(s: Option<Seq<char>>) -> bool {
        s matches Some(t) && spec_parse_sint(t) matches Some(w) && i128::MIN <= w <= i128::MAX
    }

    open spec fn decode_rel(s: Option<Seq<char>>, v: i128) -> bool {
        s matches Some(t) && spec_parse_sint(t) == Some(v as int)
    }

    open spec fn fail_cause(s: Option<Seq<char>>) -> DecodeCause {
        spec_sint_fail_cause(s)
    }

    fn deserialize_from_str(s: Option<&str>) -> (r: Result<Self, DecodeCause>) {
        match s {
            None => Err(DecodeCause::UnexpectedNull),
            Some(t) => match parse_i128(t) {
                Ok(v) => Ok(v),
                Err(IntParseError::Invalid) => Err(DecodeCause::InvalidSyntax),
                Err(IntParseError::OutOfRange) => Err(DecodeCause::OutOfRange),
            },
        }
    }
}

impl DeserializeFromStr for u128 {
    open spec fn decode_ok(s: Option<Seq<char>>) -> bool {
        s matches Some(t) && spec_parse_uint(t) matches Some(w) && 0 <= w <= u128::MAX
    }

    open spec fn decode_rel(s: Option<Seq<char>>, v: u128) -> bool {
        s matches Some(t) && spec_parse_uint(t) == Some(v as int)
    }

    open spec fn fail_cause(s: Option<Seq<char>>) -> DecodeCause {
        spec_uint_fail_cause(s)
    }

    fn deserialize_from_str(s: Option<&str>) -> (r: Result<Self, DecodeCause>) {
        match s {
            None => Err(DecodeCause::UnexpectedNull),
            Some(t) => match parse_u128(t) {
                Ok(v) => Ok(v),
                Err(IntParseError::Invalid) => Err(DecodeCause::InvalidSyntax),
                Err(IntParseError::OutOfRange) => Err(DecodeCause::OutOfRange),
            },
        }
    }
}

impl DeserializeFromStr for i16 {
    open spec fn decode_ok(s: Option<Seq<char>>) -> bool {
        s matches Some(t) && spec_parse_sint(t) matches Some(w) && i16::MIN <= w <= i16::MAX
    }

    open spec fn decode_rel(s: Option<Seq<char>>, v: i16) -> bool {
        s matches Some(t) && spec_parse_sint(t) == Some(v as int)
    }

    open spec fn fail_cause(s: Option<Seq<char>>) -> DecodeCause {
        spec_sint_fail_cause(s)
    }

    fn deserialize_from_str(s: Option<&str>) -> (r: Result<Self, DecodeCause>) {
        match decode_sint_in_range(s, i16::MIN as i128, i16::MAX as i128) {
            Ok(v) => Ok(v as i16),
            Err(c) => Err(c),
        }
    }
}

impl DeserializeFromStr for i32 {
    open spec fn decode_ok(s: Option<Seq<char>>) -> bool {
        s matches Some(t) && spec_parse_sint(t) matches Some(w) && i32::MIN <= w <= i32::MAX
    }

    open spec fn decode_rel(s: Option<Seq<char>>, v: i32) -> bool {
        s matches Some(t) && spec_parse_sint(t) == Some(v as int)
    }

    open spec fn fail_cause(s: Option<Seq<char>>) -> DecodeCause {
        spec_sint_fail_cause(s)
    }

    fn deserialize_from_str(s: Option<&str>) -> (r: Result<Self, DecodeCause>) {
        match decode_sint_in_range(s, i32::MIN as i128, i32::MAX as i128) {
            Ok(v) => Ok(v as i32),
            Err(c) => Err(c),
        }
    }
}

impl DeserializeFromStr for i64 {
    open spec fn decode_ok(s: Option<Seq<char>>) -> bool {
        s matches Some(t) && spec_parse_sint(t) matches Some(w) && i64::MIN <= w <= i64::MAX
    }

    open spec fn decode_rel(s: Option<Seq<char>>, v: i64) -> bool {
        s matches Some(t) && spec_parse_sint(t) == Some(v as int)
    }

    open spec fn fail_cause(s: Option<Seq<char>>) -> DecodeCause {
        spec_sint_fail_cause(s)
    }

    fn deserialize_from_str(s: Option<&str>) -> (r: Result<Self, DecodeCause>) {
        match decode_sint_in_range(s, i64::MIN as i128, i64::MAX as i128) {
            Ok(v) => Ok(v as i64),
            Err(c) => Err(c),
        }
    }
}

impl DeserializeFromStr for isize {
    open spec fn decode_ok(s: Option<Seq<char>>) -> bool {
        s matches Some(t) && spec_parse_sint(t) matches Some(w) && isize::MIN <= w <= isize::MAX
    }

    open spec fn decode_rel(s: Option<Seq<char>>, v: isize) -> bool {
        s matches Some(t) && spec_parse_sint(t) == Some(v as int)
    }

    open spec fn fail_cause(s: Option<Seq<char>>) -> DecodeCause {
        spec_sint_fail_cause(s)
    }

    fn deserialize_from_str(s: Option<&str>) -> (r: Result<Self, DecodeCause>) {
        match decode_sint_in_range(s, isize::MIN as i128, isize::MAX as i128) {
            Ok(v) => Ok(v as isize),
            Err(c) => Err(c),
        }
    }
}

impl DeserializeFromStr for u8 {
    open spec fn decode_ok(s: Option<Seq<char>>) -> bool {
        s matches Some(t) && spec_parse_uint(t) matches Some(w) && 0 <= w <= u8::MAX
    }

    open spec fn decode_rel(s: Option<Seq<char>>, v: u8) -> bool {
        s matches Some(t) && spec_parse_uint(t) == Some(v as int)
    }

    open spec fn fail_cause(s: Option<Seq<char>>) -> DecodeCause {
        spec_uint_fail_cause(s)
    }

    fn deserialize_from_str(s: Option<&str>) -> (r: Result<Self, DecodeCause>) {
        match decode_uint_in_range(s, u8::MAX as u128) {
            Ok(v) => Ok(v as u8),
            Err(c) => Err(c),
        }
    }
}

impl DeserializeFromStr for u16 {
    open spec fn decode_ok(s: Option<Seq<char>>) -> bool {
        s matches Some(t) && spec_parse_uint(t) matches Some(w) && 0 <= w <= u16::MAX
    }

    open spec fn decode_rel(s: Option<Seq<char>>, v: u16) -> bool {
        s matches Some(t) && spec_parse_uint(t) == Some(v as int)
    }

    open spec fn fail_cause(s: Option<Seq<char>>) -> DecodeCause {
        spec_uint_fail_cause(s)
    }

    fn deserialize_from_str(s: Option<&str>) -> (r: Result<Self, DecodeCause>) {
        match decode_uint_in_range(s, u16::MAX as u128) {
            Ok(v) => Ok(v as u16),
            Err(c) => Err(c),
        }
    }
}

impl DeserializeFromStr for u32 {
    open spec fn decode_ok(s: Option<Seq<char>>) -> bool {
        s matches Some(t) && spec_parse_uint(t) matches Some(w) && 0 <= w <= u32::MAX
    }

    open spec fn decode_rel(s: Option<Seq<char>>, v: u32) -> bool {
        s matches Some(t) && spec_parse_uint(t) == Some(v as int)
    }

    open spec fn fail_cause(s: Option<Seq<char>>) -> DecodeCause {
        spec_uint_fail_cause(s)
    }

    fn deserialize_from_str(s: Option<&str>) -> (r: Result<Self, DecodeCause>) {
        match decode_uint_in_range(s, u32::MAX as u128) {
            Ok(v) => Ok(v as u32),
            Err(c) => Err(c),
        }
    }
}

impl DeserializeFromStr for u64 {
    open spec fn decode_ok(s: Option<Seq<char>>) -> bool {
        s matches Some(t) && spec_parse_uint(t) matches Some(w) && 0 <= w <= u64::MAX
    }

    open spec fn decode_rel(s: Option<Seq<char>>, v: u64) -> bool {
        s matches Some(t) && spec_parse_uint(t) == Some(v as int)
    }

    open spec fn fail_cause(s: Option<Seq<char>>) -> DecodeCause {
        spec_uint_fail_cause(s)
    }

    fn deserialize_from_str(s: Option<&str>) -> (r: Result<Self, DecodeCause>) {
        match decode_uint_in_range(s, u64::MAX as u128) {
            Ok(v) => Ok(v as u64),
            Err(c) => Err(c),
        }
    }
}

impl DeserializeFromStr for usize {
    open spec fn decode_ok(s: Option<Seq<char>>) -> bool {
        s matches Some(t) && spec_parse_uint(t) matches Some(w) && 0 <= w <= usize::MAX
    }

    open spec fn decode_rel(s: Option<Seq<char>>, v: usize) -> bool {
        s matches Some(t) && spec_parse_uint(t) == Some(v as int)
    }

    open spec fn fail_cause(s: Option<Seq<char>>) -> DecodeCause {
        spec_uint_fail_cause(s)
    }

    fn deserialize_from_str(s: Option<&str>) -> (r: Result<Self, DecodeCause>) {
        match decode_uint_in_range(s, usize::MAX as u128) {
            Ok(v) => Ok(v as usize),
            Err(c) => Err(c),
        }
    }
}


/// The per-row result of a successful decode.
#[derive(Clone, Debug)]
pub struct SnowflakeSqlResult<T> {
    pub data: Vec<T>,
}

/// A target row type: turns a whole response into typed rows.
///
/// Implementations read each row's cells in positional order, normally
/// through `decode_field`, and fail fast on the first bad cell.
pub trait SnowflakeDeserialize: Sized {
    fn snowflake_deserialize(response: SnowflakeSqlResponse) -> Result<
        SnowflakeSqlResult<Self>,
        DecodeError,
    >;
}

impl SnowflakeSqlResponse {
    /// Decodes the full data matrix into typed rows.
    pub fn deserialize<T: SnowflakeDeserialize>(self) -> Result<
        SnowflakeSqlResult<T>,
        DecodeError,
    > {
        T::snowflake_deserialize(self)
    }
}

/// Whether a submitted statement already finished: a finished one carries
/// its typed rows, an unfinished one the status payload to poll with.
#[derive(Debug)]
pub enum StatementResult<T> {
    /// Still running: poll or cancel with the carried status.
    Status(crate::response::QueryStatus),
    /// Finished: the decoded rows.
    Result(SnowflakeSqlResult<T>),
}

/// Decodes the cell at `index` of one row; a failure names `field_name`
/// and carries the raw cell and the exact cause.
pub fn decode_field<T: DeserializeFromStr>(
    row: &Vec<Option<String>>,
    index: usize,
    field_name: &str,
) -> (r: Result<T, DecodeError>)
    requires
        index < row@.len(),
    ensures
        r is Ok <==> T::decode_ok(spec_cell_view(row@[index as int])),
        (r matches Ok(v) ==> T::decode_rel(spec_cell_view(row@[index as int]), v)),
        (r matches Err(e) ==> {
            &&& e.cause == T::fail_cause(spec_cell_view(row@[index as int]))
            &&& e.field_name@ == field_name@
            &&& spec_cell_view(e.raw_value) == spec_cell_view(row@[index as int])
        }),
{
    let cell: Option<&str> = match &row[index] {
        Some(s) => Some(s.as_str()),
        None => None,
    };
    proof {
        assert(spec_opt_view(cell) == spec_cell_view(row@[index as int]));
    }
    match T::deserialize_from_str(cell) {
        Ok(v) => Ok(v),
        Err(c) => Err(
            DecodeError {
                field_name: field_name.to_owned(),
                raw_value: match &row[index] {
                    Some(s) => Some(s.clone()),
                    None => None,
                },
                cause: c,
            },
        ),
    }
}

/// Decodes the cell at `index` of one row as an embedded JSON document;
/// a failure names `field_name` and carries the raw cell and the cause.
pub fn decode_json_field(row: &Vec<Option<String>>, index: usize, field_name: &str) -> (r: Result<
    serde_json::Value,
    DecodeError,
>)
    requires
        index < row@.len(),
    ensures
        r is Ok <==> (spec_cell_view(row@[index as int]) matches Some(c)
            && crate::json::json_parse_ok(c)),
        (r matches Err(e) ==> {
            &&& e.cause == (if row@[index as int] is None {
                DecodeCause::UnexpectedNull
            } else {
                DecodeCause::InvalidJson
            })
            &&& e.field_name@ == field_name@
            &&& spec_cell_view(e.raw_value) == spec_cell_view(row@[index as int])
        }),
{
    let cause = match &row[index] {
        None => DecodeCause::UnexpectedNull,
        Some(cell) => {
            match crate::json::parse_json_str(cell.as_str()) {
                Ok(v) => {
                    return Ok(v);
                },
                Err(_) => DecodeCause::InvalidJson,
            }
        },
    };
    Err(
        DecodeError {
            field_name: field_name.to_owned(),
            raw_value: match &row[index] {
                Some(s) => Some(s.clone()),
                None => None,
            },
            cause,
        },
    )
}

/// Law: decoding the canonical encoding of a boolean binding yields the
/// value back.
pub proof fn lemma_round_trip_bool(b: bool)
    ensures
        <bool as DeserializeFromStr>::decode_ok(Some(BindingValue::Bool(b).spec_encoding())),
        forall|w: bool|
            <bool as DeserializeFromStr>::decode_rel(
                Some(BindingValue::Bool(b).spec_encoding()),
                w,
            ) ==> w == b,
{
    reveal_strlit("true");
    reveal_strlit("false");
    assert("true"@.len() != "false"@.len());
}

/// Law: decoding the canonical encoding of a character binding yields the
/// one-character string of it.
pub proof fn lemma_round_trip_char(c: char)
    ensures
        <String as DeserializeFromStr>::decode_ok(Some(BindingValue::Char(c).spec_encoding())),
        forall|w: String|
            <String as DeserializeFromStr>::decode_rel(
                Some(BindingValue::Char(c).spec_encoding()),
                w,
            ) ==> w@ == seq![c],
{
}

/// Law: decoding the canonical encoding of a text binding yields a string
/// with the same characters.
pub proof fn lemma_round_trip_string(s: String)
    ensures
        <String as DeserializeFromStr>::decode_ok(Some(BindingValue::String(s).spec_encoding())),
        forall|w: String|
            <String as DeserializeFromStr>::decode_rel(
                Some(BindingValue::String(s).spec_encoding()),
                w,
            ) ==> w@ == s@,
{
}

/// Law: decoding the canonical encoding of an `i16` binding yields the
/// value back.
pub proof fn lemma_round_trip_i16(n: i16)
    ensures
        <i16 as DeserializeFromStr>::decode_ok(Some(BindingValue::SmallInt(n).spec_encoding())),
        forall|w: i16|
            <i16 as DeserializeFromStr>::decode_rel(
                Some(BindingValue::SmallInt(n).spec_encoding()),
                w,
            ) ==> w == n,
{
    lemma_sint_round_trip(n as int);
}

/// Law: decoding the canonical encoding of an `i32` binding yields the
/// value back.
pub proof fn lemma_round_trip_i32(n: i32)
    ensures
        <i32 as DeserializeFromStr>::decode_ok(Some(BindingValue::Int(n).spec_encoding())),
        forall|w: i32|
            <i32 as DeserializeFromStr>::decode_rel(
                Some(BindingValue::Int(n).spec_encoding()),
                w,
            ) ==> w == n,
{
    lemma_sint_round_trip(n as int);
}

/// Law: decoding the canonical encoding of an `i64` binding yields the
/// value back.
pub proof fn lemma_round_trip_i64(n: i64)
    ensures
        <i64 as DeserializeFromStr>::decode_ok(Some(BindingValue::BigInt(n).spec_encoding())),
        forall|w: i64|
            <i64 as DeserializeFromStr>::decode_rel(
                Some(BindingValue::BigInt(n).spec_encoding()),
                w,
            ) ==> w == n,
{
    lemma_sint_round_trip(n as int);
}

/// Law: decoding the canonical encoding of an `isize` binding yields the
/// value back.
pub proof fn lemma_round_trip_isize(n: isize)
    ensures
        <isize as DeserializeFromStr>::decode_ok(Some(BindingValue::ISize(n).spec_encoding())),
        forall|w: isize|
            <isize as DeserializeFromStr>::decode_rel(
                Some(BindingValue::ISize(n).spec_encoding()),
                w,
            ) ==> w == n,
{
    lemma_sint_round_trip(n as int);
}

/// Law: decoding the canonical encoding of a `u8` binding yields the
/// value back.
pub proof fn lemma_round_trip_u8(n: u8)
    ensures
        <u8 as DeserializeFromStr>::decode_ok(Some(BindingValue::UByte(n).spec_encoding())),
        forall|w: u8|
            <u8 as DeserializeFromStr>::decode_rel(
                Some(BindingValue::UByte(n).spec_encoding()),
                w,
            ) ==> w == n,
{
    lemma_uint_round_trip(n as nat);
}

/// Law: decoding the canonical encoding of a `u16` binding yields the
/// value back.
pub proof fn lemma_round_trip_u16(n: u16)
    ensures
        <u16 as DeserializeFromStr>::decode_ok(Some(BindingValue::SmallUInt(n).spec_encoding())),
        forall|w: u16|
            <u16 as DeserializeFromStr>::decode_rel(
                Some(BindingValue::SmallUInt(n).spec_encoding()),
                w,
            ) ==> w == n,
{
    lemma_uint_round_trip(n as nat);
}

/// Law: decoding the canonical encoding of a `u32` binding yields the
/// value back.
pub proof fn lemma_round_trip_u32(n: u32)
    ensures
        <u32 as DeserializeFromStr>::decode_ok(Some(BindingValue::UInt(n).spec_encoding())),
        forall|w: u32|
            <u32 as DeserializeFromStr>::decode_rel(
                Some(BindingValue::UInt(n).spec_encoding()),
                w,
            ) ==> w == n,
{
    lemma_uint_round_trip(n as nat);
}

/// Law: decoding the canonical encoding of a `u64` binding yields the
/// value back.
pub proof fn lemma_round_trip_u64(n: u64)
    ensures
        <u64 as DeserializeFromStr>::decode_ok(Some(BindingValue::BigUInt(n).spec_encoding())),
        forall|w: u64|
            <u64 as DeserializeFromStr>::decode_rel(
                Some(BindingValue::BigUInt(n).spec_encoding()),
                w,
            ) ==> w == n,
{
    lemma_uint_round_trip(n as nat);
}

/// Law: decoding the canonical encoding of a `usize` binding yields the
/// value back.
pub proof fn lemma_round_trip_usize(n: usize)
    ensures
        <usize as DeserializeFromStr>::decode_ok(Some(BindingValue::USize(n).spec_encoding())),
        forall|w: usize|
            <usize as DeserializeFromStr>::decode_rel(
                Some(BindingValue::USize(n).spec_encoding()),
                w,
            ) ==> w == n,
{
    lemma_uint_round_trip(n as nat);
}

} // verus!
