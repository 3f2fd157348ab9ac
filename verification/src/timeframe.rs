use crate::strutil::str_eq;
use vstd::prelude::*;
use vstd::string::StringExecFns;

verus! {

/// One row of the timeframe table: the phrases users may write and the
/// timeframe code they stand for.
pub struct Timeframe {
    pub parsable_phrases: Vec<String>,
    pub parsed: String,
}

/// Bundles a list of phrases with the timeframe code they parse to.
pub fn build_timeframe(parsable_phrases: Vec<String>, parsed: String) -> (r: Timeframe)
    ensures
        r.parsable_phrases == parsable_phrases,
        r.parsed == parsed,
{
    Timeframe { parsable_phrases, parsed }
}

/// The phrases that stand for the "1" timeframe code.
pub open spec fn min1_phrase(p: Seq<char>) -> bool {
    p == "1"@ || p == "1m"@ || p == "1min"@ || p == "1mins"@ || p == "1minute"@ || p == "1minutes"@ || p == "min"@ || p == "m"@
}

fn is_min1_phrase(p: &str) -> (r: bool)
    ensures
        r == min1_phrase(p@),
{
    str_eq(p, "1") || str_eq(p, "1m") || str_eq(p, "1min") || str_eq(p, "1mins") || str_eq(p, "1minute") || str_eq(p, "1minutes") || str_eq(p, "min") || str_eq(p, "m")
}

/// The phrases that stand for the "3" timeframe code.
pub open spec fn min3_phrase(p: Seq<char>) -> bool {
    p == "3"@ || p == "3m"@ || p == "3min"@ || p == "3mins"@ || p == "3minute"@ || p == "3minutes"@
}

fn is_min3_phrase(p: &str) -> (r: bool)
    ensures
        r == min3_phrase(p@),
{
    str_eq(p, "3") || str_eq(p, "3m") || str_eq(p, "3min") || str_eq(p, "3mins") || str_eq(p, "3minute") || str_eq(p, "3minutes")
}

/// The phrases that stand for the "5" timeframe code.
pub open spec fn min5_phrase(p: Seq<char>) -> bool {
    p == "5"@ || p == "5m"@ || p == "5min"@ || p == "5mins"@ || p == "5minute"@ || p == "5minutes"@
}

fn is_min5_phrase(p: &str) -> (r: bool)
    ensures
        r == min5_phrase(p@),
{
    str_eq(p, "5") || str_eq(p, "5m") || str_eq(p, "5min") || str_eq(p, "5mins") || str_eq(p, "5minute") || str_eq(p, "5minutes")
}

/// The phrases that stand for the "15" timeframe code.
pub open spec fn min15_phrase(p: Seq<char>) -> bool {
    p == "15"@ || p == "15m"@ || p == "15min"@ || p == "15mins"@ || p == "15minute"@ || p == "15minutes"@
}

fn is_min15_phrase(p: &str) -> (r: bool)
    ensures
        r == min15_phrase(p@),
{
    str_eq(p, "15") || str_eq(p, "15m") || str_eq(p, "15min") || str_eq(p, "15mins") || str_eq(p, "15minute") || str_eq(p, "15minutes")
}

/// The phrases that stand for the "30" timeframe code.
pub open spec fn min30_phrase(p: Seq<char>) -> bool {
    p == "30"@ || p == "30m"@ || p == "30min"@ || p == "30mins"@ || p == "30minute"@ || p == "30minutes"@
}

fn is_min30_phrase(p: &str) -> (r: bool)
    ensures
        r == min30_phrase(p@),
{
    str_eq(p, "30") || str_eq(p, "30m") || str_eq(p, "30min") || str_eq(p, "30mins") || str_eq(p, "30minute") || str_eq(p, "30minutes")
}

/// The phrases that stand for the "60" timeframe code.
pub open spec fn min60_phrase(p: Seq<char>) -> bool {
    p == "60"@ || p == "60m"@ || p == "60min"@ || p == "60mins"@ || p == "60minute"@ || p == "60minutes"@ || p == "1"@ || p == "1h"@ || p == "1hr"@ || p == "1hour"@ || p == "1hours"@ || p == "hourly"@ || p == "hour"@ || p == "hr"@ || p == "h"@
}

fn is_min60_phrase(p: &str) -> (r: bool)
    ensures
        r == min60_phrase(p@),
{
    str_eq(p, "60") || str_eq(p, "60m") || str_eq(p, "60min") || str_eq(p, "60mins") || str_eq(p, "60minute") || str_eq(p, "60minutes") || str_eq(p, "1") || str_eq(p, "1h") || str_eq(p, "1hr") || str_eq(p, "1hour") || str_eq(p, "1hours") || str_eq(p, "hourly") || str_eq(p, "hour") || str_eq(p, "hr") || str_eq(p, "h")
}

/// The phrases that stand for the "120" timeframe code.
pub open spec fn min120_phrase(p: Seq<char>) -> bool {
    p == "120"@ || p == "120m"@ || p == "120min"@ || p == "120mins"@ || p == "120minute"@ || p == "120minutes"@ || p == "2"@ || p == "2h"@ || p == "2hr"@ || p == "2hrs"@ || p == "2hour"@ || p == "2hours"@
}

fn is_min120_phrase(p: &str) -> (r: bool)
    ensures
        r == min120_phrase(p@),
{
    str_eq(p, "120") || str_eq(p, "120m") || str_eq(p, "120min") || str_eq(p, "120mins") || str_eq(p, "120minute") || str_eq(p, "120minutes") || str_eq(p, "2") || str_eq(p, "2h") || str_eq(p, "2hr") || str_eq(p, "2hrs") || str_eq(p, "2hour") || str_eq(p, "2hours")
}

/// The phrases that stand for the "180" timeframe code.
pub open spec fn min180_phrase(p: Seq<char>) -> bool {
    p == "180"@ || p == "180m"@ || p == "180min"@ || p == "180mins"@ || p == "180minute"@ || p == "180minutes"@ || p == "3"@ || p == "3h"@ || p == "3hr"@ || p == "3hrs"@ || p == "3hour"@ || p == "3hours"@
}

fn is_min180_phrase(p: &str) -> (r: bool)
    ensures
        r == min180_phrase(p@),
{
    str_eq(p, "180") || str_eq(p, "180m") || str_eq(p, "180min") || str_eq(p, "180mins") || str_eq(p, "180minute") || str_eq(p, "180minutes") || str_eq(p, "3") || str_eq(p, "3h") || str_eq(p, "3hr") || str_eq(p, "3hrs") || str_eq(p, "3hour") || str_eq(p, "3hours")
}

/// The phrases that stand for the "240" timeframe code.
pub open spec fn min240_phrase(p: Seq<char>) -> bool {
    p == "240"@ || p == "240m"@ || p == "240min"@ || p == "240mins"@ || p == "240minute"@ || p == "240minutes"@ || p == "4"@ || p == "4h"@ || p == "4hr"@ || p == "4hrs"@ || p == "4hour"@ || p == "4hours"@
}

fn is_min240_phrase(p: &str) -> (r: bool)
    ensures
        r == min240_phrase(p@),
{
    str_eq(p, "240") || str_eq(p, "240m") || str_eq(p, "240min") || str_eq(p, "240mins") || str_eq(p, "240minute") || str_eq(p, "240minutes") || str_eq(p, "4") || str_eq(p, "4h") || str_eq(p, "4hr") || str_eq(p, "4hrs") || str_eq(p, "4hour") || str_eq(p, "4hours")
}

/// The phrases that stand for the "D" timeframe code.
pub open spec fn day_phrase(p: Seq<char>) -> bool {
    p == "24"@ || p == "24h"@ || p == "24hr"@ || p == "24hrs"@ || p == "24hour"@ || p == "24hours"@ || p == "d"@ || p == "day"@ || p == "1"@ || p == "1d"@ || p == "1day"@ || p == "daily"@ || p == "1440"@ || p == "1440m"@ || p == "1440min"@ || p == "1440mins"@ || p == "1440minute"@ || p == "1440minutes"@
}

fn is_day_phrase(p: &str) -> (r: bool)
    ensures
        r == day_phrase(p@),
{
    str_eq(p, "24") || str_eq(p, "24h") || str_eq(p, "24hr") || str_eq(p, "24hrs") || str_eq(p, "24hour") || str_eq(p, "24hours") || str_eq(p, "d") || str_eq(p, "day") || str_eq(p, "1") || str_eq(p, "1d") || str_eq(p, "1day") || str_eq(p, "daily") || str_eq(p, "1440") || str_eq(p, "1440m") || str_eq(p, "1440min") || str_eq(p, "1440mins") || str_eq(p, "1440minute") || str_eq(p, "1440minutes")
}

/// The phrases that stand for the "W" timeframe code.
pub open spec fn week_phrase(p: Seq<char>) -> bool {
    p == "7"@ || p == "7d"@ || p == "7day"@ || p == "7days"@ || p == "w"@ || p == "week"@ || p == "1w"@ || p == "1week"@ || p == "weekly"@
}

fn is_week_phrase(p: &str) -> (r: bool)
    ensures
        r == week_phrase(p@),
{
    str_eq(p, "7") || str_eq(p, "7d") || str_eq(p, "7day") || str_eq(p, "7days") || str_eq(p, "w") || str_eq(p, "week") || str_eq(p, "1w") || str_eq(p, "1week") || str_eq(p, "weekly")
}

/// The phrases that stand for the "M" timeframe code.
pub open spec fn month_phrase(p: Seq<char>) -> bool {
    p == "30d"@ || p == "30day"@ || p == "30days"@ || p == "1"@ || p == "1m"@ || p == "m"@ || p == "mo"@ || p == "month"@ || p == "1mo"@ || p == "1month"@ || p == "monthly"@
}

fn is_month_phrase(p: &str) -> (r: bool)
    ensures
        r == month_phrase(p@),
{
    str_eq(p, "30d") || str_eq(p, "30day") || str_eq(p, "30days") || str_eq(p, "1") || str_eq(p, "1m") || str_eq(p, "m") || str_eq(p, "mo") || str_eq(p, "month") || str_eq(p, "1mo") || str_eq(p, "1month") || str_eq(p, "monthly")
}

/// The phrases that stand for the "Y" timeframe code.
pub open spec fn year_phrase(p: Seq<char>) -> bool {
    p == "12"@ || p == "12m"@ || p == "12mo"@ || p == "12month"@ || p == "12months"@ || p == "year"@ || p == "yearly"@ || p == "1year"@ || p == "1y"@ || p == "y"@ || p == "annual"@ || p == "annually"@
}

fn is_year_phrase(p: &str) -> (r: bool)
    ensures
        r == year_phrase(p@),
{
    str_eq(p, "12") || str_eq(p, "12m") || str_eq(p, "12mo") || str_eq(p, "12month") || str_eq(p, "12months") || str_eq(p, "year") || str_eq(p, "yearly") || str_eq(p, "1year") || str_eq(p, "1y") || str_eq(p, "y") || str_eq(p, "annual") || str_eq(p, "annually")
}

/// The timeframe code a phrase stands for; the first matching row of the
/// table wins, and a phrase no row lists falls back to the one-minute code.
pub open spec fn timeframe_spec(p: Seq<char>) -> Seq<char> {
    if min1_phrase(p) {
        "1"@
    } else if min3_phrase(p) {
        "3"@
    } else if min5_phrase(p) {
        "5"@
    } else if min15_phrase(p) {
        "15"@
    } else if min30_phrase(p) {
        "30"@
    } else if min60_phrase(p) {
        "60"@
    } else if min120_phrase(p) {
        "120"@
    } else if min180_phrase(p) {
        "180"@
    } else if min240_phrase(p) {
        "240"@
    } else if day_phrase(p) {
        "D"@
    } else if week_phrase(p) {
        "W"@
    } else if month_phrase(p) {
        "M"@
    } else if year_phrase(p) {
        "Y"@
    } else {
        "1"@
    }
}

/// Maps a user-written timeframe phrase to the timeframe code understood by
/// the charting site.
pub fn parse_timeframe(phrase: String) -> (r: String)
    ensures
        r@ == timeframe_spec(phrase@),
{
    let p = phrase.as_str();
    if is_min1_phrase(p) {
        String::from_str("1")
    } else if is_min3_phrase(p) {
        String::from_str("3")
    } else if is_min5_phrase(p) {
        String::from_str("5")
    } else if is_min15_phrase(p) {
        String::from_str("15")
    } else if is_min30_phrase(p) {
        String::from_str("30")
    } else if is_min60_phrase(p) {
        String::from_str("60")
    } else if is_min120_phrase(p) {
        String::from_str("120")
    } else if is_min180_phrase(p) {
        String::from_str("180")
    } else if is_min240_phrase(p) {
        String::from_str("240")
    } else if is_day_phrase(p) {
        String::from_str("D")
    } else if is_week_phrase(p) {
        String::from_str("W")
    } else if is_month_phrase(p) {
        String::from_str("M")
    } else if is_year_phrase(p) {
        String::from_str("Y")
    } else {
        String::from_str("1")
    }
}


} // verus!

