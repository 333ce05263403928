//! Regression engine tests: the edge cases and exact fits.

use chart_js_wrapper::{fit, ChartConfig, ChartData, ChartType, Decimal, NumericError};

fn d(v: i64) -> Decimal {
    Decimal::new(v, 0)
}

#[test]
fn fit_of_empty_input_is_r2_zero_and_empty_series() {
    let result = fit(&vec![]).unwrap();
    assert!(result.r_squared.is_zero());
    assert_eq!(result.r_squared.den, 1);
    assert!(result.fitted.to_pairs().is_empty());
}

#[test]
fn fit_of_constant_target_is_r2_one_and_reproduces_input() {
    let pts = vec![(d(1), d(5)), (d(2), d(5)), (d(3), d(5))];
    let result = fit(&pts).unwrap();
    assert!(result.r_squared.is_one());
    assert_eq!(result.fitted.to_pairs(), pts);
}

#[test]
fn fit_of_perfect_line_is_r2_one_and_fitted_equals_x() {
    let pts = vec![(d(1), d(1)), (d(2), d(2)), (d(3), d(3))];
    let result = fit(&pts).unwrap();
    assert!(result.r_squared.is_one());
    assert_eq!(result.fitted.to_pairs(), vec![(d(1), d(1)), (d(2), d(2)), (d(3), d(3))]);
}

#[test]
fn fit_with_fractional_inputs_is_exact() {
    // y = 2x + 1 over x = 0.5, 1.0, 1.5: an exact fit in tenths.
    let pts = vec![
        (Decimal::new(5, 1), Decimal::new(20, 1)),
        (Decimal::new(10, 1), Decimal::new(30, 1)),
        (Decimal::new(15, 1), Decimal::new(40, 1)),
    ];
    let result = fit(&pts).unwrap();
    assert!(result.r_squared.is_one());
    assert_eq!(
        result.fitted.to_pairs(),
        vec![
            (Decimal::new(5, 1), Decimal::new(2, 0)),
            (Decimal::new(10, 1), Decimal::new(3, 0)),
            (Decimal::new(15, 1), Decimal::new(4, 0)),
        ]
    );
}

#[test]
fn fit_with_identical_x_reports_singular() {
    let pts = vec![(d(2), d(1)), (d(2), d(3))];
    assert_eq!(fit(&pts).unwrap_err(), NumericError::Singular);
}

#[test]
fn fit_with_oversized_input_reports_out_of_range() {
    let pts = vec![(d(10_000_000), d(1)), (d(2), d(3))];
    assert_eq!(fit(&pts).unwrap_err(), NumericError::OutOfRange);
}

#[test]
fn fit_r_squared_is_an_exact_rational() {
    // x = 1,2,3 with y = 1,2,4: A = 9, D = 6, T = 14, so R^2 = 81/84.
    let pts = vec![(d(1), d(1)), (d(2), d(2)), (d(3), d(4))];
    let result = fit(&pts).unwrap();
    assert_eq!(result.r_squared.num, 81);
    assert_eq!(result.r_squared.den, 84);
}

#[test]
fn regression_series_appends_scatter_and_labeled_line() {
    let data: ChartData<Decimal, Decimal> =
        ChartData::pairs(vec![(d(1), d(1)), (d(2), d(2)), (d(3), d(3))]);
    let config = ChartConfig::<Decimal, Decimal>::default()
        .add_linear_regression_series("set", data)
        .unwrap();
    assert_eq!(config.data.datasets.len(), 2);
    assert_eq!(config.data.datasets[0].label, "set");
    assert!(matches!(config.data.datasets[0].kind, ChartType::Scatter));
    assert_eq!(config.data.datasets[1].label, "set regression(R^2 = 1.0000)");
    assert!(matches!(config.data.datasets[1].kind, ChartType::Line));
    let json = config.data.to_json().unwrap();
    assert!(json.starts_with("{\"datasets\":["));
    assert!(json.contains("\"data\":[{\"x\":1,\"y\":1},{\"x\":2,\"y\":2},{\"x\":3,\"y\":3}]"));
}

#[test]
fn regression_label_rounds_r2_to_four_digits() {
    // R^2 = 81/84 = 0.96428...; rounded half up at four digits: 0.9643.
    let data: ChartData<Decimal, Decimal> =
        ChartData::pairs(vec![(d(1), d(1)), (d(2), d(2)), (d(3), d(4))]);
    let config = ChartConfig::<Decimal, Decimal>::default()
        .add_linear_regression_series("set", data)
        .unwrap();
    assert_eq!(config.data.datasets[1].label, "set regression(R^2 = 0.9643)");
}
