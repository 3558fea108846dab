//! Forecast extraction: projects the weather service's JSON response into
//! fixed forecast slots, three per day, at the fixed hourly indices.

use vstd::prelude::*;

use crate::json::{
    array_of, field_of, json_as_array, json_get, json_text, parse_json, parse_of, text_of,
};
use crate::text::{normalize_time, remove_quotes, spec_normalize_time, strip_quotes};

verus! {

/// Why a forecast fetch failed; every failure collapses to this one
/// category and no partial forecast is ever returned.
#[derive(Debug, Clone, Copy, PartialEq, Eq, Structural)]
pub enum FetchFailure {
    /// The transport failed or the service answered without success.
    Transport,
    /// The response body is not a JSON document of the expected shape.
    MalformedBody,
    /// The hourly array is missing or holds fewer than eight entries.
    ShortHourly,
}

/// One slot of a forecast reply, every field already quote-stripped and the
/// time normalized.
#[derive(Debug)]
pub struct Weather {
    pub label: String,
    pub temp: String,
    pub temp_felt: String,
    pub wind_min: String,
    pub wind_max: String,
    pub time: String,
    pub chanceofsnow: String,
    pub chanceofrain: String,
    pub precipitation: String,
}

/// One element of the raw hourly array: each field as the JSON text the
/// service sent, quotes and all.
#[derive(Debug)]
pub struct RawHourly {
    pub label: String,
    pub temp: String,
    pub temp_felt: String,
    pub wind_min: String,
    pub wind_max: String,
    pub time: String,
    pub chanceofsnow: String,
    pub chanceofrain: String,
    pub precipitation: String,
}

/// How a slot relates to the raw entry it was built from: every field has
/// its quotes removed, and the time additionally gets its colon.
pub open spec fn weather_matches_raw(w: Weather, r: RawHourly) -> bool {
    &&& w.label@ == remove_quotes(r.label@)
    &&& w.temp@ == remove_quotes(r.temp@)
    &&& w.temp_felt@ == remove_quotes(r.temp_felt@)
    &&& w.wind_min@ == remove_quotes(r.wind_min@)
    &&& w.wind_max@ == remove_quotes(r.wind_max@)
    &&& w.time@ == spec_normalize_time(remove_quotes(r.time@))
    &&& w.chanceofsnow@ == remove_quotes(r.chanceofsnow@)
    &&& w.chanceofrain@ == remove_quotes(r.chanceofrain@)
    &&& w.precipitation@ == remove_quotes(r.precipitation@)
}

impl Weather {
    /// Builds one slot from a raw hourly entry.
    pub fn from_raw(raw: &RawHourly) -> (w: Weather)
        ensures
            weather_matches_raw(w, *raw),
    {
        let stripped_time = strip_quotes(raw.time.as_str());
        Weather {
            label: strip_quotes(raw.label.as_str()),
            temp: strip_quotes(raw.temp.as_str()),
            temp_felt: strip_quotes(raw.temp_felt.as_str()),
            wind_min: strip_quotes(raw.wind_min.as_str()),
            wind_max: strip_quotes(raw.wind_max.as_str()),
            time: normalize_time(stripped_time.as_str()),
            chanceofsnow: strip_quotes(raw.chanceofsnow.as_str()),
            chanceofrain: strip_quotes(raw.chanceofrain.as_str()),
            precipitation: strip_quotes(raw.precipitation.as_str()),
        }
    }

    /// Builds one slot straight from an element of the hourly JSON array.
    pub fn from_value(v: &serde_json::Value) -> (w: Weather)
        ensures
            slot_of_value(w, *v),
    {
        Weather::from_raw(&raw_hourly(v))
    }
}

/// The JSON text an hourly element holds under one key; a missing key reads
/// as JSON null does.
pub open spec fn raw_text_at(v: serde_json::Value, key: Seq<char>) -> Seq<char> {
    match field_of(v, key) {
        Some(x) => text_of(x),
        None => "null"@,
    }
}

/// The JSON text of the sky label, `v["weatherDesc"][0]["value"]`; any
/// missing step reads as JSON null does.
pub open spec fn raw_label_of(v: serde_json::Value) -> Seq<char> {
    match field_of(v, "weatherDesc"@) {
        Some(d) => match array_of(d) {
            Some(a) => if a.len() > 0 {
                raw_text_at(a[0], "value"@)
            } else {
                "null"@
            },
            None => "null"@,
        },
        None => "null"@,
    }
}

/// How a raw entry relates to the hourly element it was read from: each
/// field holds the JSON text of its fixed key.
pub open spec fn raw_matches_value(r: RawHourly, v: serde_json::Value) -> bool {
    &&& r.label@ == raw_label_of(v)
    &&& r.temp@ == raw_text_at(v, "tempC"@)
    &&& r.temp_felt@ == raw_text_at(v, "FeelsLikeC"@)
    &&& r.wind_min@ == raw_text_at(v, "windspeedKmph"@)
    &&& r.wind_max@ == raw_text_at(v, "WindGustKmph"@)
    &&& r.time@ == raw_text_at(v, "time"@)
    &&& r.chanceofsnow@ == raw_text_at(v, "chanceofsnow"@)
    &&& r.chanceofrain@ == raw_text_at(v, "chanceofrain"@)
    &&& r.precipitation@ == raw_text_at(v, "precipMM"@)
}

/// How a finished slot relates to the hourly element it came from: each
/// fixed key's JSON text, quote-stripped, with the time also normalized.
pub open spec fn slot_of_value(w: Weather, v: serde_json::Value) -> bool {
    &&& w.label@ == remove_quotes(raw_label_of(v))
    &&& w.temp@ == remove_quotes(raw_text_at(v, "tempC"@))
    &&& w.temp_felt@ == remove_quotes(raw_text_at(v, "FeelsLikeC"@))
    &&& w.wind_min@ == remove_quotes(raw_text_at(v, "windspeedKmph"@))
    &&& w.wind_max@ == remove_quotes(raw_text_at(v, "WindGustKmph"@))
    &&& w.time@ == spec_normalize_time(remove_quotes(raw_text_at(v, "time"@)))
    &&& w.chanceofsnow@ == remove_quotes(raw_text_at(v, "chanceofsnow"@))
    &&& w.chanceofrain@ == remove_quotes(raw_text_at(v, "chanceofrain"@))
    &&& w.precipitation@ == remove_quotes(raw_text_at(v, "precipMM"@))
}

/// The JSON text of `v[key]`; a missing key reads as JSON null does.
fn json_text_at(v: &serde_json::Value, key: &str) -> (r: String)
    ensures
        r@ == raw_text_at(*v, key@),
{
    match json_get(v, key) {
        Some(x) => json_text(x),
        None => "null".to_owned(),
    }
}

/// The JSON text of `v["weatherDesc"][0]["value"]`; any missing step reads
/// as JSON null does.
fn label_text(v: &serde_json::Value) -> (r: String)
    ensures
        r@ == raw_label_of(*v),
{
    match json_get(v, "weatherDesc") {
        Some(d) => match json_as_array(d) {
            Some(a) => if a.len() > 0 {
                json_text_at(&a[0], "value")
            } else {
                "null".to_owned()
            },
            None => "null".to_owned(),
        },
        None => "null".to_owned(),
    }
}

/// Projects one element of the hourly array into its raw field texts.
fn raw_hourly(v: &serde_json::Value) -> (r: RawHourly)
    ensures
        raw_matches_value(r, *v),
{
    RawHourly {
        label: label_text(v),
        temp: json_text_at(v, "tempC"),
        temp_felt: json_text_at(v, "FeelsLikeC"),
        wind_min: json_text_at(v, "windspeedKmph"),
        wind_max: json_text_at(v, "WindGustKmph"),
        time: json_text_at(v, "time"),
        chanceofsnow: json_text_at(v, "chanceofsnow"),
        chanceofrain: json_text_at(v, "chanceofrain"),
        precipitation: json_text_at(v, "precipMM"),
    }
}

/// A whole forecast: the date label and exactly three slots.
#[derive(Debug)]
pub struct ForecastSet {
    pub date: String,
    pub slots: Vec<Weather>,
}

impl ForecastSet {
    /// A forecast set always holds exactly three slots.
    pub open spec fn wf(&self) -> bool {
        self.slots@.len() == 3
    }
}

/// Morning, afternoon and evening: the fixed indices of the hourly array
/// that become the three slots, in this order.
pub open spec fn slot_indices() -> Seq<int> {
    seq![3int, 5int, 7int]
}

/// Builds the forecast set out of the raw date text and the raw hourly
/// entries. Exactly the entries at indices 3, 5 and 7 become slots, in that
/// order, whatever else the array holds; an array of fewer than eight
/// entries is refused whole, and no partial forecast is built.
pub fn build_forecast(date_raw: &str, hourly: &Vec<RawHourly>) -> (r: Result<
    ForecastSet,
    FetchFailure,
>)
    ensures
        hourly@.len() < 8 ==> r == Err::<ForecastSet, FetchFailure>(FetchFailure::ShortHourly),
        hourly@.len() >= 8 ==> (r matches Ok(f) && {
            &&& f.date@ == remove_quotes(date_raw@)
            &&& f.slots@.len() == 3
            &&& weather_matches_raw(f.slots@[0], hourly@[slot_indices()[0]])
            &&& weather_matches_raw(f.slots@[1], hourly@[slot_indices()[1]])
            &&& weather_matches_raw(f.slots@[2], hourly@[slot_indices()[2]])
        }),
{
    if hourly.len() < 8 {
        return Err(FetchFailure::ShortHourly);
    }
    let mut slots: Vec<Weather> = Vec::new();
    slots.push(Weather::from_raw(&hourly[3]));
    slots.push(Weather::from_raw(&hourly[5]));
    slots.push(Weather::from_raw(&hourly[7]));
    Ok(ForecastSet { date: strip_quotes(date_raw), slots })
}

/// The per-day records of a response body: its `weather` array, where the
/// body parses and holds one.
pub open spec fn days_of_body(body: Seq<char>) -> Option<Seq<serde_json::Value>> {
    match parse_of(body) {
        Some(v) => match field_of(v, "weather"@) {
            Some(w) => array_of(w),
            None => None,
        },
        None => None,
    }
}

/// The hourly records of one day: its `hourly` array, where it holds one.
pub open spec fn hours_of_day(day: serde_json::Value) -> Option<Seq<serde_json::Value>> {
    match field_of(day, "hourly"@) {
        Some(h) => array_of(h),
        None => None,
    }
}

/// The body does not parse, or carries no non-empty `weather` array.
pub open spec fn body_malformed(body: Seq<char>) -> bool {
    match days_of_body(body) {
        Some(days) => days.len() == 0,
        None => true,
    }
}

/// The body is well shaped but its first day's hourly array is missing or
/// holds fewer than eight entries.
pub open spec fn body_short(body: Seq<char>) -> bool {
    !body_malformed(body) && match hours_of_day(days_of_body(body).unwrap()[0]) {
        Some(hours) => hours.len() < 8,
        None => true,
    }
}

/// Parses the weather service's response body and builds the forecast set:
/// the date label of the first day and the slots at the fixed hourly
/// indices. A body without the expected shape is a malformed-body failure;
/// one whose hourly array is missing or holds fewer than eight entries is a
/// short-hourly failure, and no partial forecast is built; any other body
/// yields exactly three slots, read from hourly entries 3, 5 and 7.
pub fn weather_forecasts(body: &str) -> (r: Result<ForecastSet, FetchFailure>)
    ensures
        body_malformed(body@) ==> r == Err::<ForecastSet, FetchFailure>(
            FetchFailure::MalformedBody,
        ),
        body_short(body@) ==> r == Err::<ForecastSet, FetchFailure>(FetchFailure::ShortHourly),
        !body_malformed(body@) && !body_short(body@) ==> (r matches Ok(f) && ({
            let day = days_of_body(body@).unwrap()[0];
            let hours = hours_of_day(day).unwrap();
            &&& f.date@ == remove_quotes(raw_text_at(day, "date"@))
            &&& f.slots@.len() == 3
            &&& slot_of_value(f.slots@[0], hours[3])
            &&& slot_of_value(f.slots@[1], hours[5])
            &&& slot_of_value(f.slots@[2], hours[7])
        })),
        r matches Ok(f) ==> f.wf(),
{
    let v = match parse_json(body) {
        Some(v) => v,
        None => {
            return Err(FetchFailure::MalformedBody);
        },
    };
    let days = match json_get(&v, "weather") {
        Some(w) => w,
        None => {
            return Err(FetchFailure::MalformedBody);
        },
    };
    let days = match json_as_array(days) {
        Some(a) => a,
        None => {
            return Err(FetchFailure::MalformedBody);
        },
    };
    if days.len() == 0 {
        return Err(FetchFailure::MalformedBody);
    }
    let today = &days[0];
    let date_raw = json_text_at(today, "date");
    let hours = match json_get(today, "hourly") {
        Some(h) => h,
        None => {
            return Err(FetchFailure::ShortHourly);
        },
    };
    let hours = match json_as_array(hours) {
        Some(a) => a,
        None => {
            return Err(FetchFailure::ShortHourly);
        },
    };
    let mut raws: Vec<RawHourly> = Vec::new();
    let n = hours.len();
    let mut i: usize = 0;
    while i < n
        invariant
            n == hours@.len(),
            i <= n,
            raws@.len() == i,
            forall|j: int| 0 <= j < i ==> raw_matches_value(#[trigger] raws@[j], hours@[j]),
        decreases n - i,
    {
        raws.push(raw_hourly(&hours[i]));
        i += 1;
    }
    build_forecast(date_raw.as_str(), &raws)
}

} // verus!
