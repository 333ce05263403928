//! Wire-format tests: value serialization, colors, sizes and series.

use chart_js_wrapper::common::{Padding, Percent, Pixels, Rgb, Size};
use chart_js_wrapper::{wire_string, ChartData, Decimal, FormatError, ScaleType, ScaleConfig,
    WithTypeAndSerializer};

#[test]
fn colour_test() {
    let color = Rgb(255, 0, 0);
    let json = color.to_json();
    assert_eq!(json, "\"rgb(255, 0, 0)\"");
    println!("Serialized: {}", json);
    let deserialized: Rgb = Rgb::from_json(&json).unwrap();
    assert_eq!(deserialized, color);
    println!("Deserialized: {:?}", deserialized);
}

#[test]
fn colour_rejects_wrong_arity() {
    let err = Rgb::from_rgb_str("rgb(1,2)").unwrap_err();
    assert_eq!(err.expected, "rgb(<0-255>, <0-255>, <0-255>)");
    assert!(Rgb::from_rgb_str("rgb(1, 2)").is_err());
    assert!(Rgb::from_rgb_str("rgb(256, 0, 0)").is_err());
    assert!(Rgb::from_rgb_str("rgb(1, 2, 3").is_err());
    assert!(Rgb::from_rgb_str("rgb(01, 2, 3)").is_err());
}

#[test]
fn colour_round_trips_all_forms() {
    let c = Rgb(0, 128, 255);
    assert_eq!(c.to_rgb_string(), "rgb(0, 128, 255)");
    assert_eq!(Rgb::from_rgb_str("rgb(0, 128, 255)").unwrap(), c);
}

#[test]
fn sizes_serialize_with_their_suffix() {
    assert_eq!(Size::pixels(600).to_string(), "600px");
    assert_eq!(Size::percent(50).to_string(), "50%");
    assert_eq!(Size::pixels(600).to_json(), "\"600px\"");
    assert_eq!(Size::Percent(Percent(7)).to_string(), "7%");
    assert_eq!(Size::Pixel(Pixels(400)).to_string(), "400px");
}

#[test]
fn integers_classify_linear_and_pass_through() {
    assert_eq!(<i64 as WithTypeAndSerializer>::scale_type(), ScaleType::Linear);
    assert_eq!(<u32 as WithTypeAndSerializer>::scale_type(), ScaleType::Linear);
    assert_eq!(<Decimal as WithTypeAndSerializer>::scale_type(), ScaleType::Linear);
    let w = wire_string(&-42i64).unwrap();
    assert_eq!(w, "-42");
    assert_eq!(w.parse::<i64>().unwrap(), -42);
    let w = wire_string(&42u64).unwrap();
    assert_eq!(w.parse::<u64>().unwrap(), 42);
    let w = wire_string(&Decimal::new(125, 1)).unwrap();
    assert_eq!(w, "12.5");
    assert_eq!(w.parse::<f64>().unwrap(), 12.5);
    assert_eq!(wire_string(&Decimal::new(140, 1)).unwrap(), "14.0");
    assert_eq!(wire_string(&Decimal::new(-125, 2)).unwrap(), "-1.25");
    assert_eq!(wire_string(&Decimal::new(7, 0)).unwrap(), "7");
}

#[test]
fn text_classifies_category_and_passes_through() {
    assert_eq!(<String as WithTypeAndSerializer>::scale_type(), ScaleType::Category);
    assert_eq!(<&str as WithTypeAndSerializer>::scale_type(), ScaleType::Category);
    assert_eq!(wire_string(&"plain".to_string()).unwrap(), "\"plain\"");
    assert_eq!(wire_string(&"a\"b\\c\n").unwrap(), "\"a\\\"b\\\\c\\n\"");
    assert_eq!(wire_string(&"\u{0001}").unwrap(), "\"\\u0001\"");
}

#[test]
fn unrenderable_decimal_reports_format_error() {
    let oversized = Decimal::new(1, 13);
    assert_eq!(wire_string(&oversized).unwrap_err(), FormatError::Unrenderable);
    let series: ChartData<Decimal, Decimal> =
        ChartData::pairs(vec![(Decimal::new(1, 0), oversized)]);
    assert!(series.to_json().is_err());
}

#[test]
fn pairs_serialize_as_objects_in_order() {
    let series: ChartData<Decimal, String> = ChartData::pairs(vec![
        (Decimal::new(125, 1), "First".to_string()),
        (Decimal::new(140, 1), "Second".to_string()),
    ]);
    assert_eq!(
        series.to_json().unwrap(),
        "[{\"x\":12.5,\"y\":\"First\"},{\"x\":14.0,\"y\":\"Second\"}]"
    );
}

#[test]
fn radius_and_tooltip_points_carry_their_extra_key() {
    let series: ChartData<i64, i64> = ChartData::with_radius(vec![(1, 2, 3)]);
    assert_eq!(series.to_json().unwrap(), "[{\"x\":1,\"y\":2,\"r\":3}]");
    let series: ChartData<i64, i64> = ChartData::with_tooltip(vec![(1, 2, "tip".to_string())]);
    assert_eq!(series.to_json().unwrap(), "[{\"x\":1,\"y\":2,\"tooltip\":\"tip\"}]");
}

#[test]
fn xy_round_trip_preserves_values_and_order() {
    let series: ChartData<i64, i64> = ChartData::with_tooltip(vec![
        (1, 10, "a".to_string()),
        (2, 20, "b".to_string()),
        (3, 30, "c".to_string()),
    ]);
    let pairs = series.to_pairs();
    assert_eq!(pairs, vec![(1, 10), (2, 20), (3, 30)]);
    let back: ChartData<i64, i64> = ChartData::pairs(pairs);
    assert_eq!(back.to_pairs(), vec![(1, 10), (2, 20), (3, 30)]);
    let series: ChartData<i64, i64> = ChartData::with_radius(vec![(4, 5, 6), (7, 8, 9)]);
    let round = chart_js_wrapper::xy_round_trip(series);
    assert_eq!(round.to_pairs(), vec![(4, 5), (7, 8)]);
}

#[test]
fn padding_skips_absent_sides() {
    let p = Padding { top: Some(1), bottom: None, left: None, right: Some(4) };
    assert_eq!(p.to_json(), "{\"top\":1,\"right\":4}");
    let none = Padding { top: None, bottom: None, left: None, right: None };
    assert_eq!(none.to_json(), "{}");
}

#[test]
fn category_scale_serializes_type_labels_and_reverse() {
    let conf: ScaleConfig<&str> =
        ScaleConfig::new_category(true, vec!["First", "Second", "Third", "Fourth"]);
    assert_eq!(
        conf.to_json().unwrap(),
        "{\"type\":\"category\",\"labels\":[\"First\",\"Second\",\"Third\",\"Fourth\"],\"reverse\":true}"
    );
}

#[test]
fn scale_type_names_are_lowercase() {
    assert_eq!(ScaleType::Linear.as_str(), "linear");
    assert_eq!(ScaleType::Category.as_str(), "category");
    assert_eq!(ScaleType::Time.as_str(), "time");
    assert_eq!(ScaleType::TimeSeries.as_str(), "timeseries");
    assert_eq!(ScaleType::Logarithmic.as_str(), "logarithmic");
    assert_eq!(ScaleType::RadialLinear.as_str(), "radiallinear");
}

#[test]
fn sizes_parse_back_from_their_text() {
    assert_eq!(Size::from_str("600px").unwrap(), Size::pixels(600));
    assert_eq!(Size::from_str("50%").unwrap(), Size::percent(50));
    let err = Size::from_str("50").unwrap_err();
    assert_eq!(err.expected, "<number>% or <number>px");
    assert!(Size::from_str("px").is_err());
    assert!(Size::from_str("5 %").is_err());
    assert!(Size::from_str("05%").is_err());
}

#[test]
fn wide_integers_serialize_exactly() {
    assert_eq!(wire_string(&340282366920938463463374607431768211455u128).unwrap(),
        "340282366920938463463374607431768211455");
    assert_eq!(wire_string(&-170141183460469231731687303715884105728i128).unwrap(),
        "-170141183460469231731687303715884105728");
    assert_eq!(<u128 as WithTypeAndSerializer>::scale_type(), ScaleType::Linear);
}
