use vstd::prelude::*;

use crate::payload::{int_field, int_or_zero, json_i64_at, json_str_at, text_field, text_or};

verus! {

/// The integer and text columns of one history row, taken from a forecast payload; a
/// field the payload lacks takes the column's default (0, `"unknown"` or `"none"`).
#[derive(Clone, Debug, PartialEq, Eq)]
pub struct HistoryFields {
    pub timestamp: i64,
    pub summary: String,
    pub icon: String,
    pub windbearing: i64,
    pub precip_type: String,
    pub uvindex: i64,
    pub sunrise: i64,
    pub sunset: i64,
}

/// Extracts the integer and text columns of a history row from a raw payload.
pub fn history_fields(payload: &str) -> (r: HistoryFields)
    ensures
        r.timestamp == int_or_zero(json_i64_at(payload@, "/currently/time"@)),
        r.summary@ == text_or(json_str_at(payload@, "/currently/summary"@), "unknown"@),
        r.icon@ == text_or(json_str_at(payload@, "/currently/icon"@), "unknown"@),
        r.windbearing == int_or_zero(json_i64_at(payload@, "/currently/windBearing"@)),
        r.precip_type@ == text_or(json_str_at(payload@, "/currently/precipType"@), "none"@),
        r.uvindex == int_or_zero(json_i64_at(payload@, "/currently/uvIndex"@)),
        r.sunrise == int_or_zero(json_i64_at(payload@, "/daily/data/0/sunriseTime"@)),
        r.sunset == int_or_zero(json_i64_at(payload@, "/daily/data/0/sunsetTime"@)),
{
    HistoryFields {
        timestamp: int_field(payload, "/currently/time"),
        summary: text_field(payload, "/currently/summary", "unknown"),
        icon: text_field(payload, "/currently/icon", "unknown"),
        windbearing: int_field(payload, "/currently/windBearing"),
        precip_type: text_field(payload, "/currently/precipType", "none"),
        uvindex: int_field(payload, "/currently/uvIndex"),
        sunrise: int_field(payload, "/daily/data/0/sunriseTime"),
        sunset: int_field(payload, "/daily/data/0/sunsetTime"),
    }
}

} // verus!
