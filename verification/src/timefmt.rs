//! Rendering timestamps for the report.
//!
//! A timestamp is microseconds since the Unix epoch.  The report shows it
//! the way `chrono` displays a UTC datetime; that rendering is abstracted
//! by the named function `ts_display`.

use vstd::prelude::*;

verus! {

/// The text `chrono` renders for a UTC datetime built from a microsecond
/// timestamp, or `None` where the timestamp lies outside the representable
/// datetime range.  A function of the timestamp alone.
pub uninterp spec fn ts_display(micros: i64) -> Option<Seq<char>>;

/// Relies on `chrono::DateTime::<Utc>::from_timestamp_micros` and the
/// `Display` of `DateTime<Utc>`: both are functions of the microsecond
/// value alone; conversion fails only out of range.
#[verifier::external_body]
fn chrono_display_micros(micros: i64) -> (r: Option<String>)
    ensures
        r matches Some(s) ==> ts_display(micros) == Some(s@),
        r is None ==> ts_display(micros) is None,
{
    chrono::DateTime::<chrono::Utc>::from_timestamp_micros(micros).map(|d| format!("{}", d))
}

/// The timestamp text the report shows: the `chrono` rendering, or `"?"`
/// for a timestamp no datetime can represent.
pub open spec fn ts_text(micros: i64) -> Seq<char> {
    match ts_display(micros) {
        Some(d) => d,
        None => "?"@,
    }
}

/// Render a timestamp for the report.
pub fn format_timestamp(micros: i64) -> (r: String)
    ensures
        r@ == ts_text(micros),
{
    match chrono_display_micros(micros) {
        Some(s) => s,
        None => String::from_str("?"),
    }
}

} // verus!
