//! Display text of engine cells.
use vstd::prelude::*;
use crate::decimal::{decimal_text, signed_decimal_text, signed_text, unsigned_text};

verus! {

/// A cell as the engine hands it over, reduced to plain values.
///
/// Floating-point and decimal numbers arrive as `Real`, already rendered in
/// the engine binding's default decimal form; shapes with no arm of their own
/// arrive as `Other`, holding their structural text.
#[derive(Clone, Debug)]
pub enum CellValue {
    Null,
    Boolean(bool),
    TinyInt(i8),
    SmallInt(i16),
    Int(i32),
    BigInt(i64),
    HugeInt(i128),
    UHugeInt(u128),
    UTinyInt(u8),
    USmallInt(u16),
    UInt(u32),
    UBigInt(u64),
    Real(String),
    Text(Vec<u8>),
    Blob(Vec<u8>),
    /// Days since 1970-01-01.
    Date32(i32),
    /// Microseconds since midnight.
    Time64(i64),
    /// Microseconds since the epoch.
    Timestamp(i64),
    Other(String),
}

/// The text that lossy UTF-8 decoding gives for `bytes`.
pub uninterp spec fn lossy_utf8(bytes: Seq<u8>) -> Seq<char>;

/// The `YYYY-MM-DD` text of the date `days` days after 1970-01-01, or `None`
/// when that date lies outside the calendar's range.
pub uninterp spec fn calendar_date_text(days: int) -> Option<Seq<char>>;

/// Relies on `String::from_utf8_lossy`: the text depends on the bytes alone.
#[verifier::external_body]
fn decode_lossy(bytes: &Vec<u8>) -> (r: String)
    ensures
        r@ == lossy_utf8(bytes@),
{
    String::from_utf8_lossy(bytes).into_owned()
}

/// Relies on chrono's `NaiveDate::from_ymd_opt`, `NaiveDate::checked_add_signed`
/// and `format("%Y-%m-%d")`: the date `days` days after 1970-01-01 as text,
/// `None` where the date is out of range. The result depends on `days` alone.
#[verifier::external_body]
fn epoch_date_text(days: i32) -> (r: Option<String>)
    ensures
        r.is_some() == calendar_date_text(days as int).is_some(),
        r.is_some() ==> r.unwrap()@ == calendar_date_text(days as int).unwrap(),
{
    match chrono::NaiveDate::from_ymd_opt(1970, 1, 1) {
        Some(epoch) => match epoch.checked_add_signed(chrono::Duration::days(days as i64)) {
            Some(d) => Some(d.format("%Y-%m-%d").to_string()),
            None => None,
        },
        None => None,
    }
}

/// Text of a date cell: the calendar text when there is one, else the raw
/// day offset in decimal.
pub open spec fn date_cell_text(days: int, calendar: Option<Seq<char>>) -> Seq<char> {
    match calendar {
        Some(s) => s,
        None => signed_decimal_text(days),
    }
}

/// The display text of a cell.
pub open spec fn display_text(v: CellValue) -> Seq<char> {
    match v {
        CellValue::Null => "NULL"@,
        CellValue::Boolean(b) => if b { "true"@ } else { "false"@ },
        CellValue::TinyInt(i) => signed_decimal_text(i as int),
        CellValue::SmallInt(i) => signed_decimal_text(i as int),
        CellValue::Int(i) => signed_decimal_text(i as int),
        CellValue::BigInt(i) => signed_decimal_text(i as int),
        CellValue::HugeInt(i) => signed_decimal_text(i as int),
        CellValue::UHugeInt(u) => decimal_text(u as nat),
        CellValue::UTinyInt(u) => decimal_text(u as nat),
        CellValue::USmallInt(u) => decimal_text(u as nat),
        CellValue::UInt(u) => decimal_text(u as nat),
        CellValue::UBigInt(u) => decimal_text(u as nat),
        CellValue::Real(s) => s@,
        CellValue::Text(b) => lossy_utf8(b@),
        CellValue::Blob(b) => lossy_utf8(b@),
        CellValue::Date32(d) => date_cell_text(d as int, calendar_date_text(d as int)),
        CellValue::Time64(m) => signed_decimal_text(m as int),
        CellValue::Timestamp(m) => signed_decimal_text(m as int),
        CellValue::Other(s) => s@,
    }
}

/// The text of a cell on the paged-read path, where every column has been
/// cast to text at the source: `None` stands for a cell that could not be
/// read.
pub open spec fn cast_cell_text(cell: Option<CellValue>) -> Seq<char> {
    match cell {
        None => "[ERRO]"@,
        Some(CellValue::Null) => "NULL"@,
        Some(CellValue::Text(b)) => lossy_utf8(b@),
        Some(_) => "[Tipo inesperado]"@,
    }
}

/// Text of a date cell, given what the calendar made of its day offset.
pub fn date_text(days: i32, calendar: Option<String>) -> (r: String)
    ensures
        r@ == date_cell_text(
            days as int,
            match calendar {
                Some(s) => Some(s@),
                None => None,
            },
        ),
{
    match calendar {
        Some(s) => s,
        None => signed_text(days as i128),
    }
}

/// The display text of a cell: `NULL`, `true`/`false`, decimal integers, the
/// engine's own text of real numbers, lossily decoded text, `YYYY-MM-DD` dates
/// (the raw day offset outside the calendar's range), raw microseconds for
/// times, and the structural text of anything else.
pub fn format_value(v: &CellValue) -> (r: String)
    ensures
        r@ == display_text(*v),
{
    match v {
        CellValue::Null => String::from_str("NULL"),
        CellValue::Boolean(b) => if *b {
            String::from_str("true")
        } else {
            String::from_str("false")
        },
        CellValue::TinyInt(i) => signed_text(*i as i128),
        CellValue::SmallInt(i) => signed_text(*i as i128),
        CellValue::Int(i) => signed_text(*i as i128),
        CellValue::BigInt(i) => signed_text(*i as i128),
        CellValue::HugeInt(i) => signed_text(*i),
        CellValue::UHugeInt(u) => unsigned_text(*u),
        CellValue::UTinyInt(u) => unsigned_text(*u as u128),
        CellValue::USmallInt(u) => unsigned_text(*u as u128),
        CellValue::UInt(u) => unsigned_text(*u as u128),
        CellValue::UBigInt(u) => unsigned_text(*u as u128),
        CellValue::Real(s) => s.clone(),
        CellValue::Text(b) => decode_lossy(b),
        CellValue::Blob(b) => decode_lossy(b),
        CellValue::Date32(d) => {
            let calendar = epoch_date_text(*d);
            date_text(*d, calendar)
        },
        CellValue::Time64(m) => signed_text(*m as i128),
        CellValue::Timestamp(m) => signed_text(*m as i128),
        CellValue::Other(s) => s.clone(),
    }
}

/// The text of a cell on the paged-read path: `NULL` for a null, the decoded
/// text of a text cell, a fixed placeholder for any other shape, and an error
/// placeholder for a cell that could not be read.
pub fn format_cast_cell(cell: &Option<CellValue>) -> (r: String)
    ensures
        r@ == cast_cell_text(*cell),
{
    match cell {
        None => String::from_str("[ERRO]"),
        Some(CellValue::Null) => String::from_str("NULL"),
        Some(CellValue::Text(b)) => decode_lossy(b),
        Some(_) => String::from_str("[Tipo inesperado]"),
    }
}

} // verus!
