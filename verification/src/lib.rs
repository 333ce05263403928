//! A typed builder for chart configurations, serialized as the JSON the
//! chart.js schema expects. Heterogeneous axis value types are classified
//! into axis categories and serialized through a per-type strategy trait;
//! a least-squares regression engine derives fitted series from scatter data.

pub mod text;
pub mod numeric;
pub mod dispatch;
pub mod common;
pub mod data;
pub mod regression;
pub mod time_axis;
pub mod chrono_axis;
pub mod options;

pub use options::{
    Align, Alignment, AxisTitle, AxisValue, AxisValueVariant, Boundary, ChartConfig,
    ChartDataSection, ChartOptions, ChartType, CubicInterpolationMode, Dataset, ElementsConfig,
    Fill, FillVariant, JsExpr, Legend, LineConfig, Plugins, PointConfig, PointStyle, Position,
    ScaleConfig, ScalingConfig, Title, Tooltip, TooltipCallbacks, TooltipMode,
};
pub use dispatch::{ScaleType, WithTypeAndSerializer, ValueSerializeWrapper, FormatError,
    wire_string};
pub use data::{ChartData, DataPoint, DataPointWithRadius, DataPointWithTooltip, xy_round_trip};
pub use numeric::{Decimal, Fraction};
pub use regression::{fit, NumericError, RegressionResult};
