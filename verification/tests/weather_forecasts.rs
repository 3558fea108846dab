use wetterbot::dispatch::{render_reply, render_slot_body};
use wetterbot::weather::{build_forecast, weather_forecasts, FetchFailure, RawHourly, Weather};

fn raw(time: &str, temp: &str) -> RawHourly {
    RawHourly {
        label: "\"Sunny\"".to_string(),
        temp: format!("\"{}\"", temp),
        temp_felt: "\"10\"".to_string(),
        wind_min: "\"5\"".to_string(),
        wind_max: "\"9\"".to_string(),
        time: format!("\"{}\"", time),
        chanceofsnow: "\"0\"".to_string(),
        chanceofrain: "\"40\"".to_string(),
        precipitation: "\"0.1\"".to_string(),
    }
}

fn eight_hours() -> Vec<RawHourly> {
    let times = ["0", "300", "600", "900", "1200", "1500", "1800", "2100"];
    let mut v: Vec<RawHourly> = Vec::new();
    for (i, t) in times.iter().enumerate() {
        v.push(raw(t, &format!("{}", i)));
    }
    v
}

#[test]
fn slot_fields_are_quote_stripped_and_time_normalized() {
    let w = Weather::from_raw(&raw("930", "12"));
    assert_eq!(w.time, "9:30");
    assert_eq!(w.temp, "12");
    assert_eq!(w.label, "Sunny");
}

#[test]
fn slots_come_from_indices_three_five_seven_in_order() {
    let f = build_forecast("\"2024-05-01\"", &eight_hours()).unwrap();
    assert_eq!(f.date, "2024-05-01");
    assert_eq!(f.slots.len(), 3);
    assert_eq!(f.slots[0].time, "9:00");
    assert_eq!(f.slots[1].time, "15:00");
    assert_eq!(f.slots[2].time, "21:00");
}

#[test]
fn extra_hourly_entries_change_nothing() {
    let mut hours = eight_hours();
    for _ in 0..8 {
        hours.push(raw("2359", "99"));
    }
    let f = build_forecast("\"2024-05-01\"", &hours).unwrap();
    assert_eq!(f.slots.len(), 3);
    assert_eq!(f.slots[0].time, "9:00");
    assert_eq!(f.slots[1].time, "15:00");
    assert_eq!(f.slots[2].time, "21:00");
}

#[test]
fn short_hourly_array_is_refused_whole() {
    let mut hours = eight_hours();
    hours.pop();
    let r = build_forecast("\"2024-05-01\"", &hours);
    assert!(matches!(r, Err(FetchFailure::ShortHourly)));
}

fn sample_body() -> String {
    let mut hours = String::new();
    let times = ["0", "300", "600", "900", "1200", "1500", "1800", "2100"];
    for (i, t) in times.iter().enumerate() {
        if i > 0 {
            hours.push(',');
        }
        hours.push_str(&format!(
            "{{\"time\": \"{}\", \"tempC\": \"{}\", \"FeelsLikeC\": \"10\", \
             \"windspeedKmph\": \"5\", \"WindGustKmph\": \"9\", \"chanceofrain\": \"40\", \
             \"chanceofsnow\": \"0\", \"precipMM\": \"0.1\", \
             \"weatherDesc\": [{{\"value\": \"Sunny\"}}]}}",
            t, i
        ));
    }
    format!("{{\"weather\": [{{\"date\": \"2024-05-01\", \"hourly\": [{}]}}]}}", hours)
}

#[test]
fn full_body_parses_into_three_slots() {
    let f = weather_forecasts(&sample_body()).unwrap();
    assert_eq!(f.date, "2024-05-01");
    assert_eq!(f.slots.len(), 3);
    assert_eq!(f.slots[0].time, "9:00");
    assert_eq!(f.slots[0].temp, "3");
    assert_eq!(f.slots[1].time, "15:00");
    assert_eq!(f.slots[1].temp, "5");
    assert_eq!(f.slots[2].time, "21:00");
    assert_eq!(f.slots[2].temp, "7");
    assert_eq!(f.slots[0].label, "Sunny");
    assert_eq!(f.slots[0].chanceofrain, "40");
    assert_eq!(f.slots[0].precipitation, "0.1");
}

#[test]
fn invalid_json_body_is_malformed() {
    let r = weather_forecasts("no json here");
    assert!(matches!(r, Err(FetchFailure::MalformedBody)));
}

#[test]
fn body_without_weather_array_is_malformed() {
    let r = weather_forecasts("{\"other\": 1}");
    assert!(matches!(r, Err(FetchFailure::MalformedBody)));
}

#[test]
fn body_with_empty_weather_array_is_malformed() {
    let r = weather_forecasts("{\"weather\": []}");
    assert!(matches!(r, Err(FetchFailure::MalformedBody)));
}

#[test]
fn body_without_hourly_array_is_a_short_fetch() {
    let r = weather_forecasts("{\"weather\": [{\"date\": \"2024-05-01\"}]}");
    assert!(matches!(r, Err(FetchFailure::ShortHourly)));
}

#[test]
fn short_hourly_body_yields_no_slots() {
    let body = "{\"weather\": [{\"date\": \"2024-05-01\", \"hourly\": [{}, {}, {}, {}]}]}";
    let r = weather_forecasts(body);
    assert!(matches!(r, Err(FetchFailure::ShortHourly)));
}

#[test]
fn from_value_reads_one_hourly_entry() {
    let v: serde_json::Value = serde_json::from_str(
        "{\"time\": \"1500\", \"tempC\": \"21\", \"FeelsLikeC\": \"20\", \
         \"windspeedKmph\": \"5\", \"WindGustKmph\": \"9\", \"chanceofrain\": \"40\", \
         \"chanceofsnow\": \"0\", \"precipMM\": \"0.1\", \
         \"weatherDesc\": [{\"value\": \"Cloudy\"}]}",
    )
    .unwrap();
    let w = Weather::from_value(&v);
    assert_eq!(w.time, "15:00");
    assert_eq!(w.temp, "21");
    assert_eq!(w.label, "Cloudy");
}

#[test]
fn missing_hourly_fields_read_as_null_text() {
    let v: serde_json::Value = serde_json::from_str("{}").unwrap();
    let w = Weather::from_value(&v);
    assert_eq!(w.label, "null");
    assert_eq!(w.temp, "null");
    // The permissive time normalization treats any four-character value,
    // even this one, as an HHMM reading.
    assert_eq!(w.time, "nu:ll");
}

#[test]
fn slot_body_uses_the_fixed_glyph_template() {
    let w = Weather::from_raw(&raw("930", "12"));
    let body = render_slot_body(&w);
    assert_eq!(
        body,
        "\u{231a} 9:30\n\u{1f321}\u{fe0f} 12\u{b0}C (10\u{b0}C)\n\u{1f32c}\u{fe0f} 5 - 9 km/h\n40% \u{1f327}\u{fe0f} 0% \u{1f328}\u{fe0f}\n0.1 mm"
    );
}

#[test]
fn reply_payload_has_title_and_three_inline_fields() {
    let f = build_forecast("\"2024-05-01\"", &eight_hours()).unwrap();
    let reply = render_reply(&f);
    assert_eq!(reply.title, "2024-05-01");
    assert_eq!(reply.fields.len(), 3);
    for field in &reply.fields {
        assert_eq!(field.name, "Sunny");
        assert!(field.inline);
    }
    assert!(reply.fields[0].body.contains("9:00"));
    assert!(reply.fields[1].body.contains("15:00"));
    assert!(reply.fields[2].body.contains("21:00"));
}
