//! Typed scalar binding values and their canonical wire encodings: every
//! value maps to exactly one type tag and one string representation.

use vstd::prelude::*;

use crate::numstr::{i128_to_dec, spec_sdec, spec_udec, u128_to_dec};
use crate::strutil::push_char;

verus! {

/// The wire type tag attached to a binding.
#[derive(Clone, Copy, Debug, PartialEq, Eq, Structural)]
pub enum BindingType {
    Bool,
    Fixed,
    Real,
    Text,
    DateTime,
    Date,
    Time,
}

impl BindingType {
    /// The wire spelling of this tag.
    pub open spec fn spec_tag(self) -> Seq<char> {
        match self {
            BindingType::Bool => "BOOLEAN"@,
            BindingType::Fixed => "FIXED"@,
            BindingType::Real => "REAL"@,
            BindingType::Text => "TEXT"@,
            BindingType::DateTime => "TIMESTAMP_NTZ"@,
            BindingType::Date => "DATE"@,
            BindingType::Time => "TIME"@,
        }
    }

    pub fn tag_str(&self) -> (r: String)
        ensures
            r@ == self.spec_tag(),
    {
        match self {
            BindingType::Bool => "BOOLEAN".to_owned(),
            BindingType::Fixed => "FIXED".to_owned(),
            BindingType::Real => "REAL".to_owned(),
            BindingType::Text => "TEXT".to_owned(),
            BindingType::DateTime => "TIMESTAMP_NTZ".to_owned(),
            BindingType::Date => "DATE".to_owned(),
            BindingType::Time => "TIME".to_owned(),
        }
    }
}

/// An exact scaled decimal: `mantissa * 10^-scale`, within the 96-bit
/// mantissa range and the scale limit that the service's decimals use.
#[derive(Clone, Copy, Debug, PartialEq, Eq, Structural)]
pub struct SqlDecimal {
    pub mantissa: i128,
    pub scale: u32,
}

impl SqlDecimal {
    pub open spec fn well_formed(self) -> bool {
        &&& -0x1000000000000000000000000 < self.mantissa < 0x1000000000000000000000000
        &&& self.scale <= 28
    }
}

/// A date-and-time instant, as nanoseconds since the Unix epoch.
#[derive(Clone, Copy, Debug, PartialEq, Eq, Structural)]
pub struct SqlDateTime {
    pub nanos_since_epoch: i64,
}

/// A calendar date, as whole days since the Unix epoch.
#[derive(Clone, Copy, Debug, PartialEq, Eq, Structural)]
pub struct SqlDate {
    pub days_since_epoch: i64,
}

impl SqlDate {
    /// Bounded so that the millisecond encoding of midnight fits in an
    /// `i64`; covers far more than any representable calendar date.
    pub open spec fn well_formed(self) -> bool {
        -100_000_000 <= self.days_since_epoch <= 100_000_000
    }
}

/// A time of day, as nanoseconds since midnight.
#[derive(Clone, Copy, Debug, PartialEq, Eq, Structural)]
pub struct SqlTime {
    pub nanos_of_day: i64,
}

impl SqlTime {
    pub open spec fn well_formed(self) -> bool {
        0 <= self.nanos_of_day < 86_400_000_000_000
    }
}

/// A typed scalar value that can be bound to a statement parameter.
#[derive(Clone, Debug)]
pub enum BindingValue {
    Bool(bool),
    Byte(i8),
    SmallInt(i16),
    Int(i32),
    BigInt(i64),
    ISize(isize),
    UByte(u8),
    SmallUInt(u16),
    UInt(u32),
    BigUInt(u64),
    USize(usize),
    Decimal(SqlDecimal),
    Char(char),
    String(String),
    DateTime(SqlDateTime),
    Date(SqlDate),
    Time(SqlTime),
}

/// What the service's decimal arithmetic renders the quotient `num / den`
/// as, rounded to its working precision.
pub uninterp spec fn decimal_ratio_str(num: i64, den: i64) -> Seq<char>;

/// Relies on `rust_decimal`: `Decimal::new`, the `Div` impl and the
/// `Display` impl. The quotient of two decimals built from the same
/// arguments, rendered as text, depends on those arguments alone; a zero
/// divisor would panic and is excluded.
#[verifier::external_body]
fn decimal_div_str(num: i64, den: i64) -> (r: String)
    requires
        den != 0,
    ensures
        r@ == decimal_ratio_str(num, den),
{
    let d = rust_decimal::Decimal::new(num, 0) / rust_decimal::Decimal::new(den, 0);
    d.to_string()
}

/// `'0'` repeated `n` times.
pub open spec fn spec_zeros(n: nat) -> Seq<char> {
    Seq::new(n, |i: int| '0')
}

/// The canonical rendering of `mantissa * 10^-scale`: the magnitude's
/// digits, left-padded with zeros so a digit precedes the point, with the
/// last `scale` digits behind the point, and a `-` sign when negative.
pub open spec fn spec_decimal_str(mantissa: int, scale: nat) -> Seq<char> {
    let mag = if mantissa < 0 {
        (-mantissa) as nat
    } else {
        mantissa as nat
    };
    let digits = spec_udec(mag);
    let padded = if digits.len() >= scale + 1 {
        digits
    } else {
        spec_zeros((scale + 1 - digits.len()) as nat) + digits
    };
    let cut = padded.len() - scale;
    let unsigned = if scale == 0 {
        padded
    } else {
        padded.subrange(0, cut as int) + seq!['.'] + padded.subrange(cut as int, padded.len() as int)
    };
    if mantissa < 0 {
        seq!['-'] + unsigned
    } else {
        unsigned
    }
}

/// Renders a scaled decimal in its canonical form.
pub fn render_decimal(mantissa: i128, scale: u32) -> (r: String)
    requires
        (SqlDecimal { mantissa, scale }).well_formed(),
    ensures
        r@ == spec_decimal_str(mantissa as int, scale as nat),
{
    let mag: u128 = if mantissa >= 0 {
        mantissa as u128
    } else {
        ((-(mantissa + 1)) as u128) + 1
    };
    proof {
        if mantissa < 0 {
            assert(mag as int == -(mantissa as int));
        }
    }
    let digits = u128_to_dec(mag);
    let dlen = digits.as_str().unicode_len();
    let mut padded = String::new();
    let mut pad: usize = 0;
    let need: usize = (scale as usize) + 1;
    let pad_total: usize = if need > dlen {
        need - dlen
    } else {
        0
    };
    while pad < pad_total
        invariant
            padded@ =~= spec_zeros(pad as nat),
            pad <= pad_total,
        decreases pad_total - pad,
    {
        push_char(&mut padded, '0');
        proof {
            assert(padded@ =~= spec_zeros((pad + 1) as nat));
        }
        pad += 1;
    }
    padded.append(digits.as_str());
    proof {
        if dlen >= need {
            assert(padded@ =~= digits@);
        }
        assert(padded@ == (if digits@.len() >= scale + 1 {
            digits@
        } else {
            spec_zeros((scale + 1 - digits@.len()) as nat) + digits@
        }));
    }
    let plen = padded.as_str().unicode_len();
    let mut out = String::new();
    if mantissa < 0 {
        push_char(&mut out, '-');
    }
    if scale == 0 {
        out.append(padded.as_str());
        proof {
            assert(out@ =~= spec_decimal_str(mantissa as int, scale as nat));
        }
        out
    } else {
        let cut = plen - (scale as usize);
        let whole = padded.as_str().substring_char(0, cut);
        let frac = padded.as_str().substring_char(cut, plen);
        out.append(whole);
        push_char(&mut out, '.');
        out.append(frac);
        proof {
            assert(out@ =~= spec_decimal_str(mantissa as int, scale as nat));
        }
        out
    }
}

impl BindingValue {
    /// The one type tag this value carries on the wire.
    pub open spec fn spec_kind(self) -> BindingType {
        match self {
            BindingValue::Bool(_) => BindingType::Bool,
            BindingValue::Byte(_)
            | BindingValue::SmallInt(_)
            | BindingValue::Int(_)
            | BindingValue::BigInt(_)
            | BindingValue::ISize(_)
            | BindingValue::UByte(_)
            | BindingValue::SmallUInt(_)
            | BindingValue::UInt(_)
            | BindingValue::BigUInt(_)
            | BindingValue::USize(_) => BindingType::Fixed,
            BindingValue::Decimal(_) => BindingType::Real,
            BindingValue::Char(_) | BindingValue::String(_) => BindingType::Text,
            BindingValue::DateTime(_) => BindingType::DateTime,
            BindingValue::Date(_) => BindingType::Date,
            BindingValue::Time(_) => BindingType::Time,
        }
    }

    pub fn kind(&self) -> (r: BindingType)
        ensures
            r == self.spec_kind(),
    {
        match self {
            BindingValue::Bool(_) => BindingType::Bool,
            BindingValue::Byte(_)
            | BindingValue::SmallInt(_)
            | BindingValue::Int(_)
            | BindingValue::BigInt(_)
            | BindingValue::ISize(_)
            | BindingValue::UByte(_)
            | BindingValue::SmallUInt(_)
            | BindingValue::UInt(_)
            | BindingValue::BigUInt(_)
            | BindingValue::USize(_) => BindingType::Fixed,
            BindingValue::Decimal(_) => BindingType::Real,
            BindingValue::Char(_) | BindingValue::String(_) => BindingType::Text,
            BindingValue::DateTime(_) => BindingType::DateTime,
            BindingValue::Date(_) => BindingType::Date,
            BindingValue::Time(_) => BindingType::Time,
        }
    }

    /// Values whose encodings use the full range of their fields are
    /// constrained to the ranges the wire conventions can carry.
    pub open spec fn well_formed(self) -> bool {
        match self {
            BindingValue::Decimal(d) => d.well_formed(),
            BindingValue::Date(d) => d.well_formed(),
            BindingValue::Time(t) => t.well_formed(),
            _ => true,
        }
    }

    /// The canonical string encoding: booleans and integers in decimal, a
    /// date-time as nanoseconds since the epoch, a date as milliseconds of
    /// its midnight, a time of day as its nanosecond count over sixty, the
    /// fractional-minutes decimal.
    pub open spec fn spec_encoding(self) -> Seq<char> {
        match self {
            BindingValue::Bool(b) => if b {
                "true"@
            } else {
                "false"@
            },
            BindingValue::Byte(v) => spec_sdec(v as int),
            BindingValue::SmallInt(v) => spec_sdec(v as int),
            BindingValue::Int(v) => spec_sdec(v as int),
            BindingValue::BigInt(v) => spec_sdec(v as int),
            BindingValue::ISize(v) => spec_sdec(v as int),
            BindingValue::UByte(v) => spec_udec(v as nat),
            BindingValue::SmallUInt(v) => spec_udec(v as nat),
            BindingValue::UInt(v) => spec_udec(v as nat),
            BindingValue::BigUInt(v) => spec_udec(v as nat),
            BindingValue::USize(v) => spec_udec(v as nat),
            BindingValue::Decimal(d) => spec_decimal_str(d.mantissa as int, d.scale as nat),
            BindingValue::Char(c) => seq![c],
            BindingValue::String(s) => s@,
            BindingValue::DateTime(t) => spec_sdec(t.nanos_since_epoch as int),
            BindingValue::Date(d) => spec_sdec(d.days_since_epoch * 86_400_000),
            BindingValue::Time(t) => decimal_ratio_str(t.nanos_of_day, 60),
        }
    }

    /// Encoding is total over well-formed values and always yields the
    /// canonical string.
    pub fn encode(&self) -> (r: String)
        requires
            self.well_formed(),
        ensures
            r@ == self.spec_encoding(),
    {
        match self {
            BindingValue::Bool(b) => if *b {
                "true".to_owned()
            } else {
                "false".to_owned()
            },
            BindingValue::Byte(v) => i128_to_dec(*v as i128),
            BindingValue::SmallInt(v) => i128_to_dec(*v as i128),
            BindingValue::Int(v) => i128_to_dec(*v as i128),
            BindingValue::BigInt(v) => i128_to_dec(*v as i128),
            BindingValue::ISize(v) => i128_to_dec(*v as i128),
            BindingValue::UByte(v) => u128_to_dec(*v as u128),
            BindingValue::SmallUInt(v) => u128_to_dec(*v as u128),
            BindingValue::UInt(v) => u128_to_dec(*v as u128),
            BindingValue::BigUInt(v) => u128_to_dec(*v as u128),
            BindingValue::USize(v) => u128_to_dec(*v as u128),
            BindingValue::Decimal(d) => render_decimal(d.mantissa, d.scale),
            BindingValue::Char(c) => {
                let mut s = String::new();
                push_char(&mut s, *c);
                s
            },
            BindingValue::String(s) => s.clone(),
            BindingValue::DateTime(t) => i128_to_dec(t.nanos_since_epoch as i128),
            BindingValue::Date(d) => {
                let millis: i64 = d.days_since_epoch * 86_400_000;
                i128_to_dec(millis as i128)
            },
            BindingValue::Time(t) => decimal_div_str(t.nanos_of_day, 60),
        }
    }
}

} // verus!
