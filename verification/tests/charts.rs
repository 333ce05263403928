//! Whole-chart construction: the builder flows of the original usage
//! examples, with numeric values carried as exact decimals.

use chart_js_wrapper::{Alignment, AxisTitle, ChartConfig, ChartData, ChartType, Decimal, Legend,
    LineConfig, PointConfig, Position, ScaleConfig, ScaleType, Title};

fn dec(mantissa: i64, exp: u32) -> Decimal {
    Decimal::new(mantissa, exp)
}

#[test]
fn show_chart() {
    let chart_y_cat = ChartConfig::<Decimal, &str>::default()
        .with_title(Title::from_str("Line and bar"))
        .add_series(
            ChartType::Line,
            "first_set".to_string(),
            ChartData::pairs(vec![
                (dec(125, 1), "First"),
                (dec(140, 1), "Second"),
                (dec(150, 1), "Third"),
                (dec(100, 1), "Fourth"),
            ]),
        )
        .add_series(
            ChartType::Bar,
            "second_set".to_string(),
            ChartData::pairs(vec![
                (dec(20, 1), "First"),
                (dec(140, 1), "Third"),
                (dec(150, 1), "Third"),
                (dec(200, 1), "First"),
            ]),
        )
        .enable_legend();

    let chart_y_cat_bar = ChartConfig::<Decimal, &str>::default()
        .with_title(Title::from_str("Bar only"))
        .add_series(
            ChartType::Bar,
            "second_set".to_string(),
            ChartData::pairs(vec![
                (dec(20, 1), "Second"),
                (dec(140, 1), "Third"),
                (dec(150, 1), "Third"),
                (dec(200, 1), "Second"),
            ]),
        )
        .enable_legend()
        .set_y_axis(ScaleConfig::new_category(true, vec!["First", "Second", "Third", "Fourth"]));

    let chart_x_cat = ChartConfig::<&str, Decimal>::default()
        .with_title(Title::from_str("Something interesting"))
        .add_series(
            ChartType::Line,
            "first_set".to_string(),
            ChartData::pairs(vec![
                ("First", dec(125, 1)),
                ("Second", dec(140, 1)),
                ("Third", dec(150, 1)),
                ("Fourth", dec(100, 1)),
            ]),
        )
        .add_series(
            ChartType::Bar,
            "second_set".to_string(),
            ChartData::pairs(vec![
                ("First", dec(110, 1)),
                ("Second", dec(110, 1)),
                ("Third", dec(200, 1)),
                ("Fourth", dec(50, 1)),
            ]),
        )
        .add_series(
            ChartType::Line,
            "third_set".to_string(),
            ChartData::pairs(vec![
                ("First", dec(20, 1)),
                ("Third", dec(140, 1)),
                ("Fifth", dec(150, 1)),
                ("First", dec(200, 1)),
            ]),
        )
        .enable_legend()
        .set_x_axis(ScaleConfig::new_category(false, vec!["First", "Second", "Third", "Fourth"]));

    let numeric_chart = ChartConfig::<Decimal, Decimal>::default()
        .with_title(Title::from_str("Something completely different"))
        .add_linear_regression_series(
            "set 2",
            ChartData::pairs(vec![
                (dec(10, 1), dec(10, 1)),
                (dec(10, 1), dec(20, 1)),
                (dec(35, 1), dec(30, 1)),
                (dec(40, 1), dec(40, 1)),
                (dec(41, 1), dec(10, 1)),
                (dec(41, 1), dec(30, 1)),
                (dec(50, 1), dec(40, 1)),
                (dec(140, 1), dec(30, 1)),
                (dec(150, 1), dec(10, 1)),
                (dec(200, 1), dec(10, 1)),
            ]),
        )
        .unwrap()
        .add_linear_regression_series(
            "set 1",
            ChartData::pairs(vec![
                (dec(10, 1), dec(110, 1)),
                (dec(10, 1), dec(200, 1)),
                (dec(35, 1), dec(300, 1)),
                (dec(40, 1), dec(400, 1)),
                (dec(41, 1), dec(110, 1)),
                (dec(41, 1), dec(350, 1)),
                (dec(50, 1), dec(400, 1)),
                (dec(140, 1), dec(330, 1)),
                (dec(150, 1), dec(310, 1)),
                (dec(200, 1), dec(110, 1)),
            ]),
        )
        .unwrap();

    let chart_with_custom_labels = ChartConfig::<Decimal, Decimal>::default()
        .with_title(Title::from_str("Custom labels"))
        .add_series(
            ChartType::Line,
            "first_set".to_string(),
            ChartData::with_tooltip(vec![
                (dec(125, 1), dec(125, 1), "tooltip1".to_string()),
                (dec(140, 1), dec(140, 1), "tooltip2".to_string()),
                (dec(150, 1), dec(150, 1), "tooltip3".to_string()),
                (dec(100, 1), dec(100, 1), "tooltip4".to_string()),
            ]),
        )
        .add_series(
            ChartType::Line,
            "second_set".to_string(),
            ChartData::pairs(vec![
                (dec(10, 1), dec(10, 1)),
                (dec(10, 1), dec(20, 1)),
                (dec(35, 1), dec(30, 1)),
                (dec(40, 1), dec(40, 1)),
                (dec(41, 1), dec(10, 1)),
                (dec(41, 1), dec(30, 1)),
                (dec(50, 1), dec(40, 1)),
                (dec(140, 1), dec(30, 1)),
                (dec(150, 1), dec(10, 1)),
                (dec(200, 1), dec(10, 1)),
            ]),
        );

    // Every configuration's data section serializes.
    assert!(chart_y_cat.data.to_json().is_ok());
    assert!(chart_y_cat_bar.data.to_json().is_ok());
    assert!(chart_x_cat.data.to_json().is_ok());
    assert!(numeric_chart.data.to_json().is_ok());
    assert!(chart_with_custom_labels.data.to_json().is_ok());
    assert_eq!(numeric_chart.data.datasets.len(), 4);
}

#[test]
fn enable_legend_turns_the_legend_on() {
    let config = ChartConfig::<i64, i64>::default().enable_legend();
    let legend = config.options.plugins.legend.unwrap();
    assert!(legend.display);
}

#[test]
fn default_config_types_both_axes() {
    let config = ChartConfig::<Decimal, &str>::default();
    let scales = config.options.scales.unwrap();
    let x = scales.x.unwrap();
    let y = scales.y.unwrap();
    assert_eq!(x.axis_type, Some(ScaleType::Linear));
    assert!(!x.reverse);
    assert_eq!(y.axis_type, Some(ScaleType::Category));
    assert!(y.reverse);
}

#[test]
fn legend_title_and_elements_serialize() {
    let legend = Legend::new_position(Position::Top).with_align(Alignment::End);
    assert_eq!(
        legend.to_json(),
        "{\"display\":true,\"position\":\"top\",\"align\":\"end\",\"fullSize\":false}"
    );
    let title = Title::from_str("Hello").with_position(Position::Top);
    assert_eq!(
        title.to_json(),
        "{\"display\":true,\"fullSize\":false,\"text\":[\"Hello\"],\"position\":\"top\"}"
    );
    let axis_title = AxisTitle::new("x axis".to_string());
    assert_eq!(
        axis_title.to_json(),
        "{\"display\":true,\"text\":\"x axis\",\"align\":\"center\"}"
    );
    let point = PointConfig::default().with_radius(5);
    assert_eq!(
        point.to_json(),
        "{\"pointStyle\":\"Circle\",\"rotation\":0,\"radius\":5,\"borderWidth\":1,\"hoverRadius\":4,\"hitRadius\":1,\"hoverBorderWidth\":1}"
    );
    let line = LineConfig::default().with_stepped(true);
    assert_eq!(line.to_json().unwrap(), "{\"stepped\":true}");
}
