//! Chart configuration: the option structs and their builders, each with
//! an exact JSON wire form where the target schema fixes one. Keys follow
//! the target schema, camelCase where it asks for it; absent optional
//! fields are not written.

use vstd::prelude::*;
use vstd::string::*;
use crate::dispatch::{WithTypeAndSerializer, ValueSerializeWrapper, ScaleType, FormatError};
use crate::common::{Rgb, Padding, rgb_json, padding_wire};
use crate::numeric::{Decimal, Fraction, decimal_wire, fixed4_mantissa, append_decimal};
use crate::data::ChartData;
use crate::text::{join_comma, json_string_wire, append_join, append_json_string, dec_digits,
    append_u64};
use crate::regression::{fit, NumericError, r2_of, fitted_seq, bounds_ok, d_of, fitted_fits};

verus! {

/// One `"key":value` JSON object entry.
pub open spec fn entry(key: Seq<char>, v: Seq<char>) -> Seq<char> {
    seq!['"'] + key + seq!['"', ':'] + v
}

/// One `"key":value` object entry as a fresh string.
pub(crate) fn make_entry(key: &str, v: String) -> (r: String)
    ensures
        r@ == entry(key@, v@),
{
    let mut s = String::new();
    proof {
        reveal_strlit("\"");
        reveal_strlit("\":");
    }
    s.append("\"");
    s.append(key);
    s.append("\":");
    s.append(v.as_str());
    proof {
        assert(s@ =~= entry(key@, v@));
    }
    s
}

/// The JSON text of a boolean.
pub open spec fn bool_wire(b: bool) -> Seq<char> {
    if b {
        "true"@
    } else {
        "false"@
    }
}

/// The JSON text of a boolean as a string slice.
pub(crate) fn bool_json(b: bool) -> (r: &'static str)
    ensures
        r@ == bool_wire(b),
{
    if b {
        "true"
    } else {
        "false"
    }
}

/// A string slice wrapped in JSON quotes, for texts known to need no
/// escaping (fixed enum names).
pub(crate) fn quoted(s: &str) -> (r: String)
    ensures
        r@ == seq!['"'] + s@ + seq!['"'],
{
    let mut out = String::new();
    proof {
        reveal_strlit("\"");
    }
    out.append("\"");
    out.append(s);
    out.append("\"");
    proof {
        assert(out@ =~= seq!['"'] + s@ + seq!['"']);
    }
    out
}

/// The kind of a dataset. Serialized as its lower-case name.
#[derive(Clone, Copy, Debug, PartialEq, Eq, Structural)]
pub enum ChartType {
    Bubble,
    Bar,
    Line,
    Doughnut,
    Pie,
    Radar,
    PolarArea,
    Scatter,
}

impl ChartType {
    /// The lower-case name of this chart kind.
    pub open spec fn name(&self) -> Seq<char> {
        match self {
            ChartType::Bubble => "bubble"@,
            ChartType::Bar => "bar"@,
            ChartType::Line => "line"@,
            ChartType::Doughnut => "doughnut"@,
            ChartType::Pie => "pie"@,
            ChartType::Radar => "radar"@,
            ChartType::PolarArea => "polararea"@,
            ChartType::Scatter => "scatter"@,
        }
    }

    /// The lower-case name as a string slice.
    pub fn as_str(&self) -> (r: &'static str)
        ensures
            r@ == self.name(),
    {
        match self {
            ChartType::Bubble => "bubble",
            ChartType::Bar => "bar",
            ChartType::Line => "line",
            ChartType::Doughnut => "doughnut",
            ChartType::Pie => "pie",
            ChartType::Radar => "radar",
            ChartType::PolarArea => "polararea",
            ChartType::Scatter => "scatter",
        }
    }
}

/// The shape drawn for a point. Serialized as its variant name.
#[derive(Clone, Copy, Debug, PartialEq, Eq, Structural)]
pub enum PointStyle {
    Circle,
    Cross,
    CrossRot,
    Dash,
    Line,
    Rect,
    RectRounded,
    RectRot,
    Star,
    Triangle,
}

impl PointStyle {
    /// The wire name of this point style.
    pub open spec fn name(&self) -> Seq<char> {
        match self {
            PointStyle::Circle => "Circle"@,
            PointStyle::Cross => "Cross"@,
            PointStyle::CrossRot => "CrossRot"@,
            PointStyle::Dash => "Dash"@,
            PointStyle::Line => "Line"@,
            PointStyle::Rect => "Rect"@,
            PointStyle::RectRounded => "RectRounded"@,
            PointStyle::RectRot => "RectRot"@,
            PointStyle::Star => "Star"@,
            PointStyle::Triangle => "Triangle"@,
        }
    }

    /// The wire name as a string slice.
    pub fn as_str(&self) -> (r: &'static str)
        ensures
            r@ == self.name(),
    {
        match self {
            PointStyle::Circle => "Circle",
            PointStyle::Cross => "Cross",
            PointStyle::CrossRot => "CrossRot",
            PointStyle::Dash => "Dash",
            PointStyle::Line => "Line",
            PointStyle::Rect => "Rect",
            PointStyle::RectRounded => "RectRounded",
            PointStyle::RectRot => "RectRot",
            PointStyle::Star => "Star",
            PointStyle::Triangle => "Triangle",
        }
    }
}

/// How line segments are interpolated. Serialized as its lower-case name.
#[derive(Clone, Copy, Debug, PartialEq, Eq, Structural)]
pub enum CubicInterpolationMode {
    Default,
    Monotone,
}

impl CubicInterpolationMode {
    /// The lower-case name of this mode.
    pub open spec fn name(&self) -> Seq<char> {
        match self {
            CubicInterpolationMode::Default => "default"@,
            CubicInterpolationMode::Monotone => "monotone"@,
        }
    }

    /// The lower-case name as a string slice.
    pub fn as_str(&self) -> (r: &'static str)
        ensures
            r@ == self.name(),
    {
        match self {
            CubicInterpolationMode::Default => "default",
            CubicInterpolationMode::Monotone => "monotone",
        }
    }
}

/// Horizontal alignment of a label box. Serialized as its lower-case name.
#[derive(Clone, Copy, Debug, PartialEq, Eq, Structural)]
pub enum Alignment {
    Start,
    Center,
    End,
}

impl Alignment {
    /// The lower-case name of this alignment.
    pub open spec fn name(&self) -> Seq<char> {
        match self {
            Alignment::Start => "start"@,
            Alignment::Center => "center"@,
            Alignment::End => "end"@,
        }
    }

    /// The lower-case name as a string slice.
    pub fn as_str(&self) -> (r: &'static str)
        ensures
            r@ == self.name(),
    {
        match self {
            Alignment::Start => "start",
            Alignment::Center => "center",
            Alignment::End => "end",
        }
    }
}

/// Alignment under its wire alias. Serialized as its lower-case name.
#[derive(Clone, Copy, Debug, PartialEq, Eq, Structural)]
pub enum Align {
    Start,
    Center,
    End,
}

impl Align {
    /// The lower-case name of this alignment.
    pub open spec fn name(&self) -> Seq<char> {
        match self {
            Align::Start => "start"@,
            Align::Center => "center"@,
            Align::End => "end"@,
        }
    }

    /// The lower-case name as a string slice.
    pub fn as_str(&self) -> (r: &'static str)
        ensures
            r@ == self.name(),
    {
        match self {
            Align::Start => "start",
            Align::Center => "center",
            Align::End => "end",
        }
    }
}

/// Where a box sits relative to the chart area. Serialized as its
/// lower-case name.
#[derive(Clone, Copy, Debug, PartialEq, Eq, Structural)]
pub enum Position {
    Top,
    Left,
    Bottom,
    Right,
}

impl Position {
    /// The lower-case name of this position.
    pub open spec fn name(&self) -> Seq<char> {
        match self {
            Position::Top => "top"@,
            Position::Left => "left"@,
            Position::Bottom => "bottom"@,
            Position::Right => "right"@,
        }
    }

    /// The lower-case name as a string slice.
    pub fn as_str(&self) -> (r: &'static str)
        ensures
            r@ == self.name(),
    {
        match self {
            Position::Top => "top",
            Position::Left => "left",
            Position::Bottom => "bottom",
            Position::Right => "right",
        }
    }
}

/// A fill boundary. Serialized as its variant name.
#[derive(Clone, Copy, Debug, PartialEq, Eq, Structural)]
pub enum Boundary {
    Start,
    End,
    Origin,
    Stack,
    Shape,
}

impl Boundary {
    /// The wire name of this boundary.
    pub open spec fn name(&self) -> Seq<char> {
        match self {
            Boundary::Start => "Start"@,
            Boundary::End => "End"@,
            Boundary::Origin => "Origin"@,
            Boundary::Stack => "Stack"@,
            Boundary::Shape => "Shape"@,
        }
    }

    /// The wire name as a string slice.
    pub fn as_str(&self) -> (r: &'static str)
        ensures
            r@ == self.name(),
    {
        match self {
            Boundary::Start => "Start",
            Boundary::End => "End",
            Boundary::Origin => "Origin",
            Boundary::Stack => "Stack",
            Boundary::Shape => "Shape",
        }
    }
}

/// How tooltip items are grouped. Serialized as its lower-case name.
#[derive(Clone, Copy, Debug, PartialEq, Eq, Structural)]
pub enum TooltipMode {
    Average,
    Nearest,
}

impl TooltipMode {
    /// The lower-case name of this mode.
    pub open spec fn name(&self) -> Seq<char> {
        match self {
            TooltipMode::Average => "average"@,
            TooltipMode::Nearest => "nearest"@,
        }
    }

    /// The lower-case name as a string slice.
    pub fn as_str(&self) -> (r: &'static str)
        ensures
            r@ == self.name(),
    {
        match self {
            TooltipMode::Average => "average",
            TooltipMode::Nearest => "nearest",
        }
    }
}

/// A raw JavaScript expression, emitted into the rendered page without
/// quoting.
#[derive(Clone, Copy, Debug)]
pub struct JsExpr(pub &'static str);

impl JsExpr {
    /// The raw JavaScript text.
    pub fn text(&self) -> (r: &'static str)
        ensures
            r@ == self.0@,
    {
        self.0
    }
}

/// The default tooltip title callback: shows the point's tooltip text when
/// one was attached.
pub const DISPLAY_FN: &'static str = "
                        function(context){
                            context = context[0];
                            let ttp = context.raw.tooltip || '';
                            if(ttp) return ttp;
                        }";

/// The wire form of an axis title: display flag, text, and alignment.
pub open spec fn axis_title_wire(display: bool, text: Seq<char>, align: Alignment) -> Seq<char> {
    seq!['{'] + entry("display"@, bool_wire(display)) + seq![','] + entry(
        "text"@,
        json_string_wire(text),
    ) + seq![','] + entry("align"@, seq!['"'] + align.name() + seq!['"']) + seq!['}']
}

/// The title of one axis.
#[derive(Clone, Debug)]
pub struct AxisTitle {
    pub display: bool,
    pub text: String,
    pub align: Alignment,
}

impl AxisTitle {
    /// A visible, centered axis title with the given text.
    pub fn new(text: String) -> (r: Self)
        ensures
            r.display == true,
            r.text == text,
            r.align == Alignment::Center,
    {
        AxisTitle { display: true, text, align: Alignment::Center }
    }

    /// The same title with the display flag replaced.
    pub fn with_display(self, display: bool) -> (r: Self)
        ensures
            r == (AxisTitle { display, ..self }),
    {
        AxisTitle { display, ..self }
    }

    /// The same title with the text replaced.
    pub fn with_text(self, text: String) -> (r: Self)
        ensures
            r == (AxisTitle { text, ..self }),
    {
        AxisTitle { text, ..self }
    }

    /// The same title with the alignment replaced.
    pub fn with_align(self, align: Alignment) -> (r: Self)
        ensures
            r == (AxisTitle { align, ..self }),
    {
        AxisTitle { align, ..self }
    }

    /// The JSON wire form of this axis title.
    pub fn to_json(&self) -> (r: String)
        ensures
            r@ == axis_title_wire(self.display, self.text@, self.align),
    {
        let mut s = String::new();
        proof {
            reveal_strlit("{");
            reveal_strlit(",");
            reveal_strlit("}");
        }
        s.append("{");
        let e1 = make_entry("display", bool_json(self.display).to_owned());
        s.append(e1.as_str());
        s.append(",");
        let mut text_json = String::new();
        append_json_string(&mut text_json, self.text.as_str());
        let e2 = make_entry("text", text_json);
        s.append(e2.as_str());
        s.append(",");
        let e3 = make_entry("align", quoted(self.align.as_str()));
        s.append(e3.as_str());
        s.append("}");
        proof {
            assert(s@ =~= axis_title_wire(self.display, self.text@, self.align));
        }
        s
    }
}

/// The wire form of a legend: display flag, position, alignment and size
/// flag, in that order.
pub open spec fn legend_wire(l: Legend) -> Seq<char> {
    seq!['{'] + entry("display"@, bool_wire(l.display)) + seq![','] + entry(
        "position"@,
        seq!['"'] + l.position.name() + seq!['"'],
    ) + seq![','] + entry("align"@, seq!['"'] + l.align.name() + seq!['"']) + seq![','] + entry(
        "fullSize"@,
        bool_wire(l.full_size),
    ) + seq!['}']
}

/// The chart legend.
#[derive(Clone, Copy, Debug, PartialEq, Eq, Structural)]
pub struct Legend {
    pub display: bool,
    pub position: Position,
    pub align: Alignment,
    pub full_size: bool,
}

impl Legend {
    /// A visible legend at the given position, centered, not full size.
    pub fn new_position(position: Position) -> (r: Self)
        ensures
            r == (Legend {
                display: true,
                position,
                align: Alignment::Center,
                full_size: false,
            }),
    {
        Legend { display: true, position, align: Alignment::Center, full_size: false }
    }

    /// The same legend with the alignment replaced.
    pub fn with_align(self, align: Alignment) -> (r: Self)
        ensures
            r == (Legend { align, ..self }),
    {
        Legend { align, ..self }
    }

    /// The same legend with the size flag replaced.
    pub fn with_full_size(self, full_size: bool) -> (r: Self)
        ensures
            r == (Legend { full_size, ..self }),
    {
        Legend { full_size, ..self }
    }

    /// The same legend with the display flag replaced.
    pub fn with_display(self, display: bool) -> (r: Self)
        ensures
            r == (Legend { display, ..self }),
    {
        Legend { display, ..self }
    }

    /// The same legend with the position replaced.
    pub fn with_position(self, position: Position) -> (r: Self)
        ensures
            r == (Legend { position, ..self }),
    {
        Legend { position, ..self }
    }

    /// The JSON wire form of this legend.
    pub fn to_json(&self) -> (r: String)
        ensures
            r@ == legend_wire(*self),
    {
        let mut s = String::new();
        proof {
            reveal_strlit("{");
            reveal_strlit(",");
            reveal_strlit("}");
        }
        s.append("{");
        let e1 = make_entry("display", bool_json(self.display).to_owned());
        s.append(e1.as_str());
        s.append(",");
        let e2 = make_entry("position", quoted(self.position.as_str()));
        s.append(e2.as_str());
        s.append(",");
        let e3 = make_entry("align", quoted(self.align.as_str()));
        s.append(e3.as_str());
        s.append(",");
        let e4 = make_entry("fullSize", bool_json(self.full_size).to_owned());
        s.append(e4.as_str());
        s.append("}");
        proof {
            assert(s@ =~= legend_wire(*self));
        }
        s
    }
}

impl Default for Legend {
    /// A visible legend at the bottom, centered, not full size.
    fn default() -> (r: Self)
        ensures
            r == (Legend {
                display: true,
                position: Position::Bottom,
                align: Alignment::Center,
                full_size: false,
            }),
    {
        Legend {
            display: true,
            position: Position::Bottom,
            align: Alignment::Center,
            full_size: false,
        }
    }
}

/// The wire form of a JSON array of strings.
pub open spec fn string_array_wire(texts: Seq<Seq<char>>) -> Seq<char> {
    seq!['['] + join_comma(texts.map_values(|t: Seq<char>| json_string_wire(t))) + seq![']']
}

/// A JSON array of strings as a fresh string.
pub(crate) fn string_array_json(texts: &Vec<String>) -> (r: String)
    ensures
        r@ == string_array_wire(texts@.map_values(|t: String| t@)),
{
    let ghost wires = texts@.map_values(|t: String| t@).map_values(
        |t: Seq<char>| json_string_wire(t),
    );
    let mut parts: Vec<String> = Vec::new();
    let n = texts.len();
    let mut i: usize = 0;
    proof {
        assert(parts@.map_values(|p: String| p@) =~= wires.take(0));
    }
    while i < n
        invariant
            n == texts@.len(),
            i <= n,
            wires == texts@.map_values(|t: String| t@).map_values(
                |t: Seq<char>| json_string_wire(t),
            ),
            parts@.map_values(|p: String| p@) == wires.take(i as int),
        decreases n - i,
    {
        let mut part = String::new();
        append_json_string(&mut part, texts[i].as_str());
        proof {
            assert(part@ =~= wires[i as int]);
            parts@.lemma_push_map_commute(|p: String| p@, part);
            assert(parts@.push(part).map_values(|p: String| p@) =~= wires.take(i as int + 1));
        }
        parts.push(part);
        i = i + 1;
    }
    let mut s = String::new();
    proof {
        reveal_strlit("[");
        reveal_strlit("]");
        assert(wires.take(n as int) =~= wires);
    }
    s.append("[");
    append_join(&mut s, &parts);
    s.append("]");
    proof {
        assert(s@ =~= string_array_wire(texts@.map_values(|t: String| t@)));
    }
    s
}

/// The object entries a chart title serializes to, in field order; absent
/// padding and position are not written.
pub open spec fn title_parts(t: Title) -> Seq<Seq<char>> {
    seq![
        entry("display"@, bool_wire(t.display)),
        entry("fullSize"@, bool_wire(t.full_size)),
        entry("text"@, string_array_wire(t.text@.map_values(|x: String| x@))),
    ] + (match t.padding {
        Some(p) => seq![entry("padding"@, padding_wire(p))],
        None => Seq::<Seq<char>>::empty(),
    }) + (match t.position {
        Some(p) => seq![entry("position"@, seq!['"'] + p.name() + seq!['"'])],
        None => Seq::<Seq<char>>::empty(),
    })
}

/// The wire form of a chart title.
pub open spec fn title_wire(t: Title) -> Seq<char> {
    seq!['{'] + join_comma(title_parts(t)) + seq!['}']
}

/// A chart title or subtitle; multiple texts render on multiple lines.
#[derive(Clone, Debug)]
pub struct Title {
    pub display: bool,
    pub full_size: bool,
    pub text: Vec<String>,
    pub padding: Option<Padding>,
    pub position: Option<Position>,
}

impl Title {
    /// A visible one-line title with the given text.
    pub fn new(text: String) -> (r: Self)
        ensures
            r.display == true,
            r.full_size == false,
            r.text@ == seq![text],
            r.padding is None,
            r.position is None,
    {
        let mut texts: Vec<String> = Vec::new();
        texts.push(text);
        proof {
            assert(texts@ =~= seq![text]);
        }
        Title { display: true, full_size: false, text: texts, padding: None, position: None }
    }

    /// A visible one-line title from a string slice.
    pub fn from_str(text: &str) -> (r: Self)
        ensures
            r.display == true,
            r.full_size == false,
            r.text@.len() == 1,
            r.text@[0]@ == text@,
            r.padding is None,
            r.position is None,
    {
        Title::new(text.to_owned())
    }

    /// A visible multi-line title with the given lines.
    pub fn from_array(text: Vec<String>) -> (r: Self)
        ensures
            r.display == true,
            r.full_size == false,
            r.text == text,
            r.padding is None,
            r.position is None,
    {
        Title { display: true, full_size: false, text, padding: None, position: None }
    }

    /// The same title with the display flag replaced.
    pub fn with_display(self, display: bool) -> (r: Self)
        ensures
            r == (Title { display, ..self }),
    {
        Title { display, ..self }
    }

    /// The same title with the size flag replaced.
    pub fn with_full_size(self, full_size: bool) -> (r: Self)
        ensures
            r == (Title { full_size, ..self }),
    {
        Title { full_size, ..self }
    }

    /// The same title with the text lines replaced.
    pub fn with_text(self, text: Vec<String>) -> (r: Self)
        ensures
            r == (Title { text, ..self }),
    {
        Title { text, ..self }
    }

    /// The same title with the padding replaced.
    pub fn with_padding(self, padding: Padding) -> (r: Self)
        ensures
            r == (Title { padding: Some(padding), ..self }),
    {
        Title { padding: Some(padding), ..self }
    }

    /// The same title with the position replaced.
    pub fn with_position(self, position: Position) -> (r: Self)
        ensures
            r == (Title { position: Some(position), ..self }),
    {
        Title { position: Some(position), ..self }
    }

    /// The JSON wire form of this title.
    pub fn to_json(&self) -> (r: String)
        ensures
            r@ == title_wire(*self),
    {
        let mut parts: Vec<String> = Vec::new();
        parts.push(make_entry("display", bool_json(self.display).to_owned()));
        parts.push(make_entry("fullSize", bool_json(self.full_size).to_owned()));
        parts.push(make_entry("text", string_array_json(&self.text)));
        if let Some(p) = self.padding {
            parts.push(make_entry("padding", p.to_json()));
        }
        if let Some(p) = self.position {
            parts.push(make_entry("position", quoted(p.as_str())));
        }
        let mut s = String::new();
        proof {
            reveal_strlit("{");
            reveal_strlit("}");
            assert(parts@.map_values(|p: String| p@) =~= title_parts(*self));
        }
        s.append("{");
        append_join(&mut s, &parts);
        s.append("}");
        proof {
            assert(s@ =~= title_wire(*self));
        }
        s
    }
}

/// A fixed axis value a fill can reach to: a label or a number.
#[derive(Clone, Debug)]
pub enum AxisValueVariant {
    Str(String),
    Num(Decimal),
}

impl AxisValueVariant {
    /// Whether this value can be rendered.
    pub open spec fn wire_ok(&self) -> bool {
        match self {
            AxisValueVariant::Str(_) => true,
            AxisValueVariant::Num(d) => d.renderable(),
        }
    }

    /// The wire form: an externally tagged object.
    pub open spec fn wire(&self) -> Seq<char> {
        match self {
            AxisValueVariant::Str(t) => seq!['{'] + entry("Str"@, json_string_wire(t@)) + seq!['}'],
            AxisValueVariant::Num(d) => seq!['{'] + entry("Num"@, d.wire()) + seq!['}'],
        }
    }

    /// The JSON wire form; fails exactly on unrenderable numbers.
    pub fn to_json(&self) -> (r: Result<String, FormatError>)
        ensures
            r is Ok <==> self.wire_ok(),
            r is Ok ==> r->Ok_0@ == self.wire(),
    {
        let mut s = String::new();
        proof {
            reveal_strlit("{");
            reveal_strlit("}");
        }
        s.append("{");
        match self {
            AxisValueVariant::Str(t) => {
                let mut v = String::new();
                append_json_string(&mut v, t.as_str());
                let e = make_entry("Str", v);
                s.append(e.as_str());
            },
            AxisValueVariant::Num(d) => {
                match crate::dispatch::wire_string(d) {
                    Ok(v) => {
                        let e = make_entry("Num", v);
                        s.append(e.as_str());
                    },
                    Err(e) => {
                        return Err(e);
                    },
                }
            },
        }
        s.append("}");
        proof {
            assert(s@ =~= self.wire());
        }
        Ok(s)
    }
}

/// A fill target given as an axis value.
#[derive(Clone, Debug)]
pub struct AxisValue {
    pub value: AxisValueVariant,
}

impl AxisValue {
    /// A fill target holding the given axis value.
    pub fn new(value: AxisValueVariant) -> (r: Self)
        ensures
            r.value == value,
    {
        AxisValue { value }
    }

    /// Whether this value can be rendered.
    pub open spec fn wire_ok(&self) -> bool {
        self.value.wire_ok()
    }

    /// The wire form: an object with a `value` entry.
    pub open spec fn wire(&self) -> Seq<char> {
        seq!['{'] + entry("value"@, self.value.wire()) + seq!['}']
    }

    /// The JSON wire form; fails exactly on unrenderable numbers.
    pub fn to_json(&self) -> (r: Result<String, FormatError>)
        ensures
            r is Ok <==> self.wire_ok(),
            r is Ok ==> r->Ok_0@ == self.wire(),
    {
        let v = match self.value.to_json() {
            Ok(v) => v,
            Err(e) => {
                return Err(e);
            },
        };
        let mut s = String::new();
        proof {
            reveal_strlit("{");
            reveal_strlit("}");
        }
        s.append("{");
        let e = make_entry("value", v);
        s.append(e.as_str());
        s.append("}");
        proof {
            assert(s@ =~= self.wire());
        }
        Ok(s)
    }
}

/// What a filled line reaches to: another dataset by absolute or relative
/// index, a boundary, or a fixed axis value. Untagged on the wire: each
/// form writes its bare value.
#[derive(Clone, Debug)]
pub enum FillVariant {
    AbsIndex(u8),
    RelativeIndex(String),
    Boundary(Boundary),
    AxisValue(AxisValue),
}

impl FillVariant {
    /// Whether this target can be rendered.
    pub open spec fn wire_ok(&self) -> bool {
        match self {
            FillVariant::AxisValue(v) => v.wire_ok(),
            _ => true,
        }
    }

    /// The wire form of this fill target.
    pub open spec fn wire(&self) -> Seq<char> {
        match self {
            FillVariant::AbsIndex(i) => dec_digits(*i as nat),
            FillVariant::RelativeIndex(t) => json_string_wire(t@),
            FillVariant::Boundary(b) => seq!['"'] + b.name() + seq!['"'],
            FillVariant::AxisValue(v) => v.wire(),
        }
    }

    /// The JSON wire form; fails exactly on unrenderable numbers.
    pub fn to_json(&self) -> (r: Result<String, FormatError>)
        ensures
            r is Ok <==> self.wire_ok(),
            r is Ok ==> r->Ok_0@ == self.wire(),
    {
        match self {
            FillVariant::AbsIndex(i) => {
                let mut s = String::new();
                append_u64(&mut s, *i as u64);
                proof {
                    assert(s@ =~= self.wire());
                }
                Ok(s)
            },
            FillVariant::RelativeIndex(t) => {
                let mut s = String::new();
                append_json_string(&mut s, t.as_str());
                proof {
                    assert(s@ =~= self.wire());
                }
                Ok(s)
            },
            FillVariant::Boundary(b) => Ok(quoted(b.as_str())),
            FillVariant::AxisValue(v) => v.to_json(),
        }
    }
}

/// The object entries of a fill: the target, then the optional colors
/// above and below the line.
pub open spec fn fill_parts(f: Fill) -> Seq<Seq<char>> {
    seq![entry("target"@, f.target.wire())] + (match f.above {
        Some(c) => seq![entry("above"@, rgb_json(c.0, c.1, c.2))],
        None => Seq::<Seq<char>>::empty(),
    }) + (match f.below {
        Some(c) => seq![entry("below"@, rgb_json(c.0, c.1, c.2))],
        None => Seq::<Seq<char>>::empty(),
    })
}

/// The wire form of a fill.
pub open spec fn fill_wire(f: Fill) -> Seq<char> {
    seq!['{'] + join_comma(fill_parts(f)) + seq!['}']
}

/// Area fill below or above a line dataset.
#[derive(Clone, Debug)]
pub struct Fill {
    pub target: FillVariant,
    pub above: Option<Rgb>,
    pub below: Option<Rgb>,
}

impl Fill {
    /// A fill of the given target with no colors set.
    pub fn new(target: FillVariant) -> (r: Self)
        ensures
            r.target == target,
            r.above is None,
            r.below is None,
    {
        Fill { target, above: None, below: None }
    }

    /// The same fill with the target replaced.
    pub fn with_target(self, target: FillVariant) -> (r: Self)
        ensures
            r == (Fill { target, ..self }),
    {
        Fill { target, ..self }
    }

    /// The same fill with the color above the line replaced.
    pub fn with_above(self, color: Rgb) -> (r: Self)
        ensures
            r == (Fill { above: Some(color), ..self }),
    {
        Fill { above: Some(color), ..self }
    }

    /// The same fill with the color below the line replaced.
    pub fn with_below(self, color: Rgb) -> (r: Self)
        ensures
            r == (Fill { below: Some(color), ..self }),
    {
        Fill { below: Some(color), ..self }
    }

    /// The JSON wire form; fails exactly on unrenderable numbers in the
    /// target.
    pub fn to_json(&self) -> (r: Result<String, FormatError>)
        ensures
            r is Ok <==> self.target.wire_ok(),
            r is Ok ==> r->Ok_0@ == fill_wire(*self),
    {
        let target = match self.target.to_json() {
            Ok(v) => v,
            Err(e) => {
                return Err(e);
            },
        };
        let mut parts: Vec<String> = Vec::new();
        parts.push(make_entry("target", target));
        if let Some(c) = self.above {
            parts.push(make_entry("above", c.to_json()));
        }
        if let Some(c) = self.below {
            parts.push(make_entry("below", c.to_json()));
        }
        let mut s = String::new();
        proof {
            reveal_strlit("{");
            reveal_strlit("}");
            assert(parts@.map_values(|p: String| p@) =~= fill_parts(*self));
        }
        s.append("{");
        append_join(&mut s, &parts);
        s.append("}");
        proof {
            assert(s@ =~= fill_wire(*self));
        }
        Ok(s)
    }
}

/// The object entries of a line configuration, in field order; absent
/// options are not written, the stepped flag always is.
pub open spec fn line_config_parts(l: LineConfig) -> Seq<Seq<char>> {
    (match l.tension {
        Some(t) => seq![entry("tension"@, t.wire())],
        None => Seq::<Seq<char>>::empty(),
    }) + (match l.cubic_interpolation_mode {
        Some(m) => seq![entry("cubic_interpolation_mode"@, seq!['"'] + m.name() + seq!['"'])],
        None => Seq::<Seq<char>>::empty(),
    }) + (match l.fill {
        Some(f) => seq![entry("fill"@, fill_wire(f))],
        None => Seq::<Seq<char>>::empty(),
    }) + (match l.border_color {
        Some(c) => seq![entry("border_color"@, rgb_json(c.0, c.1, c.2))],
        None => Seq::<Seq<char>>::empty(),
    }) + (match l.background_color {
        Some(c) => seq![entry("background_color"@, rgb_json(c.0, c.1, c.2))],
        None => Seq::<Seq<char>>::empty(),
    }) + seq![entry("stepped"@, bool_wire(l.stepped))]
}

/// The wire form of a line configuration.
pub open spec fn line_config_wire(l: LineConfig) -> Seq<char> {
    seq!['{'] + join_comma(line_config_parts(l)) + seq!['}']
}

/// How line datasets are drawn. Setting a tension clears the stepped flag
/// and setting the stepped flag clears the tension: the two are mutually
/// exclusive renderings.
#[derive(Clone, Debug)]
pub struct LineConfig {
    /// How much bezier rounding to use; absent means none.
    pub tension: Option<Decimal>,
    pub cubic_interpolation_mode: Option<CubicInterpolationMode>,
    pub fill: Option<Fill>,
    pub border_color: Option<Rgb>,
    pub background_color: Option<Rgb>,
    pub stepped: bool,
}

impl LineConfig {
    /// Whether every value in this configuration can be rendered.
    pub open spec fn wire_ok(&self) -> bool {
        &&& (self.tension matches Some(t) ==> t.renderable())
        &&& (self.fill matches Some(f) ==> f.target.wire_ok())
    }

    /// The same configuration with the given tension and the stepped flag
    /// cleared.
    pub fn with_tension(self, tension: Decimal) -> (r: Self)
        ensures
            r == (LineConfig { tension: Some(tension), stepped: false, ..self }),
    {
        LineConfig { tension: Some(tension), stepped: false, ..self }
    }

    /// The same configuration with the given stepped flag and the tension
    /// cleared.
    pub fn with_stepped(self, stepped: bool) -> (r: Self)
        ensures
            r == (LineConfig { stepped, tension: None, ..self }),
    {
        LineConfig { stepped, tension: None, ..self }
    }

    /// The same configuration with the interpolation mode replaced.
    pub fn with_cubic_interpolation_mode(self, mode: CubicInterpolationMode) -> (r: Self)
        ensures
            r == (LineConfig { cubic_interpolation_mode: Some(mode), ..self }),
    {
        LineConfig { cubic_interpolation_mode: Some(mode), ..self }
    }

    /// The same configuration with the fill replaced.
    pub fn with_fill(self, fill: Fill) -> (r: Self)
        ensures
            r == (LineConfig { fill: Some(fill), ..self }),
    {
        LineConfig { fill: Some(fill), ..self }
    }

    /// The same configuration with the border color replaced.
    pub fn with_border_color(self, color: Rgb) -> (r: Self)
        ensures
            r == (LineConfig { border_color: Some(color), ..self }),
    {
        LineConfig { border_color: Some(color), ..self }
    }

    /// The same configuration with the background color replaced.
    pub fn with_background_color(self, color: Rgb) -> (r: Self)
        ensures
            r == (LineConfig { background_color: Some(color), ..self }),
    {
        LineConfig { background_color: Some(color), ..self }
    }

    /// The JSON wire form; fails exactly on unrenderable values.
    pub fn to_json(&self) -> (r: Result<String, FormatError>)
        ensures
            r is Ok <==> self.wire_ok(),
            r is Ok ==> r->Ok_0@ == line_config_wire(*self),
    {
        let mut parts: Vec<String> = Vec::new();
        if let Some(t) = self.tension {
            match crate::dispatch::wire_string(&t) {
                Ok(v) => parts.push(make_entry("tension", v)),
                Err(e) => {
                    return Err(e);
                },
            }
        }
        if let Some(m) = self.cubic_interpolation_mode {
            parts.push(make_entry("cubic_interpolation_mode", quoted(m.as_str())));
        }
        match &self.fill {
            Some(f) => {
                match f.to_json() {
                    Ok(v) => parts.push(make_entry("fill", v)),
                    Err(e) => {
                        return Err(e);
                    },
                }
            },
            None => {},
        }
        if let Some(c) = self.border_color {
            parts.push(make_entry("border_color", c.to_json()));
        }
        if let Some(c) = self.background_color {
            parts.push(make_entry("background_color", c.to_json()));
        }
        parts.push(make_entry("stepped", bool_json(self.stepped).to_owned()));
        let mut s = String::new();
        proof {
            reveal_strlit("{");
            reveal_strlit("}");
            assert(parts@.map_values(|p: String| p@) =~= line_config_parts(*self));
        }
        s.append("{");
        append_join(&mut s, &parts);
        s.append("}");
        proof {
            assert(s@ =~= line_config_wire(*self));
        }
        Ok(s)
    }
}

impl Default for LineConfig {
    /// No options set; not stepped.
    fn default() -> (r: Self)
        ensures
            r.tension is None,
            r.cubic_interpolation_mode is None,
            r.fill is None,
            r.border_color is None,
            r.background_color is None,
            r.stepped == false,
    {
        LineConfig {
            tension: None,
            cubic_interpolation_mode: None,
            fill: None,
            border_color: None,
            background_color: None,
            stepped: false,
        }
    }
}

/// The object entries of a point configuration, in field order.
pub open spec fn point_config_parts(p: PointConfig) -> Seq<Seq<char>> {
    (match p.border_color {
        Some(c) => seq![entry("borderColor"@, rgb_json(c.0, c.1, c.2))],
        None => Seq::<Seq<char>>::empty(),
    }) + (match p.background_color {
        Some(c) => seq![entry("backgroundColor"@, rgb_json(c.0, c.1, c.2))],
        None => Seq::<Seq<char>>::empty(),
    }) + seq![
        entry("pointStyle"@, seq!['"'] + p.point_style.name() + seq!['"']),
        entry("rotation"@, dec_digits(p.rotation as nat)),
        entry("radius"@, dec_digits(p.radius as nat)),
        entry("borderWidth"@, dec_digits(p.border_width as nat)),
        entry("hoverRadius"@, dec_digits(p.hover_radius as nat)),
        entry("hitRadius"@, dec_digits(p.hit_radius as nat)),
        entry("hoverBorderWidth"@, dec_digits(p.hover_border_width as nat)),
    ]
}

/// The wire form of a point configuration.
pub open spec fn point_config_wire(p: PointConfig) -> Seq<char> {
    seq!['{'] + join_comma(point_config_parts(p)) + seq!['}']
}

/// How scatter points are drawn.
#[derive(Clone, Copy, Debug)]
pub struct PointConfig {
    pub border_color: Option<Rgb>,
    pub background_color: Option<Rgb>,
    pub point_style: PointStyle,
    /// Point rotation in degrees.
    pub rotation: u16,
    pub radius: u16,
    pub border_width: u16,
    pub hover_radius: u16,
    pub hit_radius: u16,
    pub hover_border_width: u16,
}

impl Default for PointConfig {
    /// A circle of radius 3, unrotated, with thin borders.
    fn default() -> (r: Self)
        ensures
            r.radius == 3,
            r.point_style == PointStyle::Circle,
            r.rotation == 0,
            r.border_color is None,
            r.background_color is None,
            r.border_width == 1,
            r.hover_radius == 4,
            r.hit_radius == 1,
            r.hover_border_width == 1,
    {
        PointConfig {
            radius: 3,
            point_style: PointStyle::Circle,
            rotation: 0,
            border_color: None,
            background_color: None,
            border_width: 1,
            hover_radius: 4,
            hit_radius: 1,
            hover_border_width: 1,
        }
    }
}

impl PointConfig {
    /// The same configuration with the radius replaced.
    pub fn with_radius(self, radius: u16) -> (r: Self)
        ensures
            r == (PointConfig { radius, ..self }),
    {
        PointConfig { radius, ..self }
    }

    /// The same configuration with the point style replaced.
    pub fn with_point_style(self, style: PointStyle) -> (r: Self)
        ensures
            r == (PointConfig { point_style: style, ..self }),
    {
        PointConfig { point_style: style, ..self }
    }

    /// The same configuration with the rotation replaced.
    pub fn with_rotation(self, rotation: u16) -> (r: Self)
        ensures
            r == (PointConfig { rotation, ..self }),
    {
        PointConfig { rotation, ..self }
    }

    /// The same configuration with the border color replaced.
    pub fn with_border_color(self, color: Rgb) -> (r: Self)
        ensures
            r == (PointConfig { border_color: Some(color), ..self }),
    {
        PointConfig { border_color: Some(color), ..self }
    }

    /// The same configuration with the background color replaced.
    pub fn with_background_color(self, color: Rgb) -> (r: Self)
        ensures
            r == (PointConfig { background_color: Some(color), ..self }),
    {
        PointConfig { background_color: Some(color), ..self }
    }

    /// The same configuration with the border width replaced.
    pub fn with_border_width(self, width: u16) -> (r: Self)
        ensures
            r == (PointConfig { border_width: width, ..self }),
    {
        PointConfig { border_width: width, ..self }
    }

    /// The same configuration with the hover radius replaced.
    pub fn with_hover_radius(self, radius: u16) -> (r: Self)
        ensures
            r == (PointConfig { hover_radius: radius, ..self }),
    {
        PointConfig { hover_radius: radius, ..self }
    }

    /// The same configuration with the hit radius replaced.
    pub fn with_hit_radius(self, radius: u16) -> (r: Self)
        ensures
            r == (PointConfig { hit_radius: radius, ..self }),
    {
        PointConfig { hit_radius: radius, ..self }
    }

    /// The same configuration with the hover border width replaced.
    pub fn with_hover_border_width(self, width: u16) -> (r: Self)
        ensures
            r == (PointConfig { hover_border_width: width, ..self }),
    {
        PointConfig { hover_border_width: width, ..self }
    }

    /// The JSON wire form of this point configuration.
    pub fn to_json(&self) -> (r: String)
        ensures
            r@ == point_config_wire(*self),
    {
        let mut parts: Vec<String> = Vec::new();
        if let Some(c) = self.border_color {
            parts.push(make_entry("borderColor", c.to_json()));
        }
        if let Some(c) = self.background_color {
            parts.push(make_entry("backgroundColor", c.to_json()));
        }
        parts.push(make_entry("pointStyle", quoted(self.point_style.as_str())));
        parts.push(make_entry("rotation", crate::text::fmt_u64(self.rotation as u64)));
        parts.push(make_entry("radius", crate::text::fmt_u64(self.radius as u64)));
        parts.push(make_entry("borderWidth", crate::text::fmt_u64(self.border_width as u64)));
        parts.push(make_entry("hoverRadius", crate::text::fmt_u64(self.hover_radius as u64)));
        parts.push(make_entry("hitRadius", crate::text::fmt_u64(self.hit_radius as u64)));
        parts.push(
            make_entry("hoverBorderWidth", crate::text::fmt_u64(self.hover_border_width as u64)),
        );
        let mut s = String::new();
        proof {
            reveal_strlit("{");
            reveal_strlit("}");
            assert(parts@.map_values(|p: String| p@) =~= point_config_parts(*self));
        }
        s.append("{");
        append_join(&mut s, &parts);
        s.append("}");
        proof {
            assert(s@ =~= point_config_wire(*self));
        }
        s
    }
}

/// The object entries of an elements configuration: the optional line and
/// point blocks.
pub open spec fn elements_parts(e: ElementsConfig) -> Seq<Seq<char>> {
    (match e.line {
        Some(l) => seq![entry("line"@, line_config_wire(l))],
        None => Seq::<Seq<char>>::empty(),
    }) + (match e.point {
        Some(p) => seq![entry("point"@, point_config_wire(p))],
        None => Seq::<Seq<char>>::empty(),
    })
}

/// The wire form of an elements configuration.
pub open spec fn elements_wire(e: ElementsConfig) -> Seq<char> {
    seq!['{'] + join_comma(elements_parts(e)) + seq!['}']
}

/// Drawing options for the elements of one dataset or a whole chart.
#[derive(Clone, Debug)]
pub struct ElementsConfig {
    pub line: Option<LineConfig>,
    pub point: Option<PointConfig>,
}

impl ElementsConfig {
    /// Whether every value in this configuration can be rendered.
    pub open spec fn wire_ok(&self) -> bool {
        self.line matches Some(l) ==> l.wire_ok()
    }

    /// The same configuration with the line block replaced.
    pub fn with_line_config(self, conf: LineConfig) -> (r: Self)
        ensures
            r == (ElementsConfig { line: Some(conf), ..self }),
    {
        ElementsConfig { line: Some(conf), ..self }
    }

    /// The same configuration with the point block replaced.
    pub fn with_point_config(self, conf: PointConfig) -> (r: Self)
        ensures
            r == (ElementsConfig { point: Some(conf), ..self }),
    {
        ElementsConfig { point: Some(conf), ..self }
    }

    /// The JSON wire form; fails exactly on unrenderable values.
    pub fn to_json(&self) -> (r: Result<String, FormatError>)
        ensures
            r is Ok <==> self.wire_ok(),
            r is Ok ==> r->Ok_0@ == elements_wire(*self),
    {
        let mut parts: Vec<String> = Vec::new();
        match &self.line {
            Some(l) => {
                match l.to_json() {
                    Ok(v) => parts.push(make_entry("line", v)),
                    Err(e) => {
                        return Err(e);
                    },
                }
            },
            None => {},
        }
        match &self.point {
            Some(p) => {
                parts.push(make_entry("point", p.to_json()));
            },
            None => {},
        }
        let mut s = String::new();
        proof {
            reveal_strlit("{");
            reveal_strlit("}");
            assert(parts@.map_values(|p: String| p@) =~= elements_parts(*self));
        }
        s.append("{");
        append_join(&mut s, &parts);
        s.append("}");
        proof {
            assert(s@ =~= elements_wire(*self));
        }
        Ok(s)
    }
}

impl Default for ElementsConfig {
    /// No element options set.
    fn default() -> (r: Self)
        ensures
            r.line is None,
            r.point is None,
    {
        ElementsConfig { line: None, point: None }
    }
}

/// The wire form of an array of wrapped axis values.
pub open spec fn wrapped_array_wire<T: WithTypeAndSerializer>(
    ls: Seq<ValueSerializeWrapper<T>>,
) -> Seq<char> {
    seq!['['] + join_comma(ls.map_values(|w: ValueSerializeWrapper<T>| w.0.wire())) + seq![']']
}

/// Whether every wrapped value in the sequence can be rendered.
pub open spec fn wrapped_array_ok<T: WithTypeAndSerializer>(
    ls: Seq<ValueSerializeWrapper<T>>,
) -> bool {
    forall|i: int| 0 <= i < ls.len() ==> (#[trigger] ls[i]).0.wire_ok()
}

/// A JSON array of wrapped axis values; fails exactly when one of them
/// cannot be rendered.
pub(crate) fn wrapped_array_json<T: WithTypeAndSerializer>(v: &Vec<ValueSerializeWrapper<T>>) -> (r:
    Result<String, FormatError>)
    ensures
        r is Ok <==> wrapped_array_ok(v@),
        r is Ok ==> r->Ok_0@ == wrapped_array_wire(v@),
{
    let ghost wires = v@.map_values(|w: ValueSerializeWrapper<T>| w.0.wire());
    let mut parts: Vec<String> = Vec::new();
    let n = v.len();
    let mut i: usize = 0;
    proof {
        assert(parts@.map_values(|p: String| p@) =~= wires.take(0));
    }
    while i < n
        invariant
            n == v@.len(),
            i <= n,
            wires == v@.map_values(|w: ValueSerializeWrapper<T>| w.0.wire()),
            parts@.map_values(|p: String| p@) == wires.take(i as int),
            forall|k: int| 0 <= k < i ==> (#[trigger] v@[k]).0.wire_ok(),
        decreases n - i,
    {
        let mut part = String::new();
        if v[i].append_wire(&mut part).is_err() {
            return Err(FormatError::Unrenderable);
        }
        proof {
            assert(part@ =~= wires[i as int]);
            parts@.lemma_push_map_commute(|p: String| p@, part);
            assert(parts@.push(part).map_values(|p: String| p@) =~= wires.take(i as int + 1));
        }
        parts.push(part);
        i = i + 1;
    }
    let mut s = String::new();
    proof {
        reveal_strlit("[");
        reveal_strlit("]");
        assert(wires.take(n as int) =~= wires);
    }
    s.append("[");
    append_join(&mut s, &parts);
    s.append("]");
    proof {
        assert(s@ =~= wrapped_array_wire(v@));
    }
    Ok(s)
}

/// The object entries of one axis configuration, in field order; absent
/// options are not written, the reverse flag always is.
pub open spec fn scale_config_parts<T: WithTypeAndSerializer>(c: ScaleConfig<T>) -> Seq<Seq<char>> {
    (match c.axis_type {
        Some(t) => seq![entry("type"@, seq!['"'] + t.name() + seq!['"'])],
        None => Seq::<Seq<char>>::empty(),
    }) + (match c.labels {
        Some(ls) => seq![entry("labels"@, wrapped_array_wire(ls@))],
        None => Seq::<Seq<char>>::empty(),
    }) + (match c.align_to_pixels {
        Some(b) => seq![entry("alignToPixels"@, bool_wire(b))],
        None => Seq::<Seq<char>>::empty(),
    }) + seq![entry("reverse"@, bool_wire(c.reverse))] + (match c.max {
        Some(m) => seq![entry("max"@, m.0.wire())],
        None => Seq::<Seq<char>>::empty(),
    }) + (match c.min {
        Some(m) => seq![entry("min"@, m.0.wire())],
        None => Seq::<Seq<char>>::empty(),
    }) + (match c.title {
        Some(t) => seq![entry("title"@, axis_title_wire(t.display, t.text@, t.align))],
        None => Seq::<Seq<char>>::empty(),
    })
}

/// The wire form of one axis configuration.
pub open spec fn scale_config_wire<T: WithTypeAndSerializer>(c: ScaleConfig<T>) -> Seq<char> {
    seq!['{'] + join_comma(scale_config_parts(c)) + seq!['}']
}

/// The configuration of one axis: its scale kind, optional fixed labels,
/// bounds, direction and title.
#[derive(Clone, Debug)]
pub struct ScaleConfig<T: WithTypeAndSerializer> {
    pub axis_type: Option<ScaleType>,
    pub labels: Option<Vec<ValueSerializeWrapper<T>>>,
    pub align_to_pixels: Option<bool>,
    pub reverse: bool,
    pub max: Option<ValueSerializeWrapper<T>>,
    pub min: Option<ValueSerializeWrapper<T>>,
    pub title: Option<AxisTitle>,
}

impl<T: WithTypeAndSerializer> Default for ScaleConfig<T> {
    /// No options set; not reversed.
    fn default() -> (r: Self)
        ensures
            r.axis_type is None,
            r.labels is None,
            r.align_to_pixels is None,
            r.reverse == false,
            r.max is None,
            r.min is None,
            r.title is None,
    {
        ScaleConfig {
            axis_type: None,
            labels: None,
            align_to_pixels: None,
            reverse: false,
            max: None,
            min: None,
            title: None,
        }
    }
}

impl<T: WithTypeAndSerializer> ScaleConfig<T> {
    /// Whether every value in this configuration can be rendered.
    pub open spec fn wire_ok(&self) -> bool {
        &&& (self.labels matches Some(ls) ==> wrapped_array_ok(ls@))
        &&& (self.max matches Some(m) ==> m.0.wire_ok())
        &&& (self.min matches Some(m) ==> m.0.wire_ok())
    }

    /// A category axis with the given fixed labels and direction.
    pub fn new_category(reverse: bool, values: Vec<T>) -> (r: Self)
        ensures
            r.axis_type == Some(ScaleType::Category),
            r.labels matches Some(ls) && ls@.map_values(|w: ValueSerializeWrapper<T>| w.0)
                == values@,
            r.align_to_pixels is None,
            r.reverse == reverse,
            r.max is None,
            r.min is None,
            r.title is None,
    {
        let mut values = values;
        let mut wrapped: Vec<ValueSerializeWrapper<T>> = Vec::new();
        let ghost orig = values@;
        while values.len() > 0
            invariant
                wrapped@.map_values(|w: ValueSerializeWrapper<T>| w.0) + values@ == orig,
            decreases values.len(),
        {
            let x = values.remove(0);
            wrapped.push(ValueSerializeWrapper(x));
            proof {
                assert(wrapped@.map_values(|w: ValueSerializeWrapper<T>| w.0) + values@ =~= orig);
            }
        }
        proof {
            assert(wrapped@.map_values(|w: ValueSerializeWrapper<T>| w.0) =~= orig);
        }
        ScaleConfig {
            axis_type: Some(ScaleType::Category),
            labels: Some(wrapped),
            align_to_pixels: None,
            reverse,
            max: None,
            min: None,
            title: None,
        }
    }

    /// The same configuration with the scale kind replaced.
    pub fn with_type(self, axis_type: ScaleType) -> (r: Self)
        ensures
            r == (ScaleConfig { axis_type: Some(axis_type), ..self }),
    {
        ScaleConfig { axis_type: Some(axis_type), ..self }
    }

    /// The same configuration with the pixel alignment flag replaced.
    pub fn with_align_to_pixels(self, align_to_pixels: bool) -> (r: Self)
        ensures
            r == (ScaleConfig { align_to_pixels: Some(align_to_pixels), ..self }),
    {
        ScaleConfig { align_to_pixels: Some(align_to_pixels), ..self }
    }

    /// The same configuration with the upper bound replaced.
    pub fn with_max(self, max: T) -> (r: Self)
        ensures
            r == (ScaleConfig { max: Some(ValueSerializeWrapper(max)), ..self }),
    {
        ScaleConfig { max: Some(ValueSerializeWrapper(max)), ..self }
    }

    /// The same configuration with the lower bound replaced.
    pub fn with_min(self, min: T) -> (r: Self)
        ensures
            r == (ScaleConfig { min: Some(ValueSerializeWrapper(min)), ..self }),
    {
        ScaleConfig { min: Some(ValueSerializeWrapper(min)), ..self }
    }

    /// The same configuration with a fresh title of the given text.
    pub fn with_str_title(self, title: &str) -> (r: Self)
        ensures
            r.title matches Some(t) && t.display == true && t.text@ == title@ && t.align
                == Alignment::Center,
            r.axis_type == self.axis_type,
            r.labels == self.labels,
            r.align_to_pixels == self.align_to_pixels,
            r.reverse == self.reverse,
            r.max == self.max,
            r.min == self.min,
    {
        ScaleConfig { title: Some(AxisTitle::new(title.to_owned())), ..self }
    }

    /// The same configuration with the title replaced.
    pub fn with_title(self, title: AxisTitle) -> (r: Self)
        ensures
            r == (ScaleConfig { title: Some(title), ..self }),
    {
        ScaleConfig { title: Some(title), ..self }
    }

    /// The same configuration with the fixed labels replaced.
    pub fn with_labels(self, labels: Vec<T>) -> (r: Self)
        ensures
            r.labels matches Some(ls) && ls@.map_values(|w: ValueSerializeWrapper<T>| w.0)
                == labels@,
            r.axis_type == self.axis_type,
            r.align_to_pixels == self.align_to_pixels,
            r.reverse == self.reverse,
            r.max == self.max,
            r.min == self.min,
            r.title == self.title,
    {
        let mut labels = labels;
        let mut wrapped: Vec<ValueSerializeWrapper<T>> = Vec::new();
        let ghost orig = labels@;
        while labels.len() > 0
            invariant
                wrapped@.map_values(|w: ValueSerializeWrapper<T>| w.0) + labels@ == orig,
            decreases labels.len(),
        {
            let x = labels.remove(0);
            wrapped.push(ValueSerializeWrapper(x));
            proof {
                assert(wrapped@.map_values(|w: ValueSerializeWrapper<T>| w.0) + labels@ =~= orig);
            }
        }
        proof {
            assert(wrapped@.map_values(|w: ValueSerializeWrapper<T>| w.0) =~= orig);
        }
        ScaleConfig { labels: Some(wrapped), ..self }
    }

    /// The same configuration with the direction flag replaced.
    pub fn with_reverse(self, reverse: bool) -> (r: Self)
        ensures
            r == (ScaleConfig { reverse, ..self }),
    {
        ScaleConfig { reverse, ..self }
    }

    /// The JSON wire form; fails exactly on unrenderable values.
    #[verifier::rlimit(60)]
    pub fn to_json(&self) -> (r: Result<String, FormatError>)
        ensures
            r is Ok <==> self.wire_ok(),
            r is Ok ==> r->Ok_0@ == scale_config_wire(*self),
    {
        let mut parts: Vec<String> = Vec::new();
        if let Some(t) = self.axis_type {
            parts.push(make_entry("type", quoted(t.as_str())));
        }
        match &self.labels {
            Some(ls) => {
                match wrapped_array_json(ls) {
                    Ok(v) => parts.push(make_entry("labels", v)),
                    Err(e) => {
                        return Err(e);
                    },
                }
            },
            None => {},
        }
        if let Some(b) = self.align_to_pixels {
            parts.push(make_entry("alignToPixels", bool_json(b).to_owned()));
        }
        parts.push(make_entry("reverse", bool_json(self.reverse).to_owned()));
        match &self.max {
            Some(m) => {
                let mut v = String::new();
                if m.append_wire(&mut v).is_err() {
                    return Err(FormatError::Unrenderable);
                }
                parts.push(make_entry("max", v));
            },
            None => {},
        }
        match &self.min {
            Some(m) => {
                let mut v = String::new();
                if m.append_wire(&mut v).is_err() {
                    return Err(FormatError::Unrenderable);
                }
                parts.push(make_entry("min", v));
            },
            None => {},
        }
        match &self.title {
            Some(t) => {
                parts.push(make_entry("title", t.to_json()));
            },
            None => {},
        }
        let mut s = String::new();
        proof {
            reveal_strlit("{");
            reveal_strlit("}");
            assert(parts@.map_values(|p: String| p@) =~= scale_config_parts(*self));
        }
        s.append("{");
        append_join(&mut s, &parts);
        s.append("}");
        proof {
            assert(s@ =~= scale_config_wire(*self));
        }
        Ok(s)
    }
}

/// The object entries of the two-axis scaling block.
pub open spec fn scaling_parts<X: WithTypeAndSerializer, Y: WithTypeAndSerializer>(
    c: ScalingConfig<X, Y>,
) -> Seq<Seq<char>> {
    (match c.x {
        Some(x) => seq![entry("x"@, scale_config_wire(x))],
        None => Seq::<Seq<char>>::empty(),
    }) + (match c.y {
        Some(y) => seq![entry("y"@, scale_config_wire(y))],
        None => Seq::<Seq<char>>::empty(),
    })
}

/// The wire form of the two-axis scaling block.
pub open spec fn scaling_wire<X: WithTypeAndSerializer, Y: WithTypeAndSerializer>(
    c: ScalingConfig<X, Y>,
) -> Seq<char> {
    seq!['{'] + join_comma(scaling_parts(c)) + seq!['}']
}

/// The configuration of both axes; an absent axis keeps the target
/// library's defaults.
#[derive(Clone, Debug)]
pub struct ScalingConfig<X: WithTypeAndSerializer, Y: WithTypeAndSerializer> {
    pub x: Option<ScaleConfig<X>>,
    pub y: Option<ScaleConfig<Y>>,
}

impl<X: WithTypeAndSerializer, Y: WithTypeAndSerializer> ScalingConfig<X, Y> {
    /// Whether every value in both axes can be rendered.
    pub open spec fn wire_ok(&self) -> bool {
        &&& (self.x matches Some(x) ==> x.wire_ok())
        &&& (self.y matches Some(y) ==> y.wire_ok())
    }

    /// The JSON wire form; fails exactly on unrenderable values.
    pub fn to_json(&self) -> (r: Result<String, FormatError>)
        ensures
            r is Ok <==> self.wire_ok(),
            r is Ok ==> r->Ok_0@ == scaling_wire(*self),
    {
        let mut parts: Vec<String> = Vec::new();
        match &self.x {
            Some(x) => {
                match x.to_json() {
                    Ok(v) => parts.push(make_entry("x", v)),
                    Err(e) => {
                        return Err(e);
                    },
                }
            },
            None => {},
        }
        match &self.y {
            Some(y) => {
                match y.to_json() {
                    Ok(v) => parts.push(make_entry("y", v)),
                    Err(e) => {
                        return Err(e);
                    },
                }
            },
            None => {},
        }
        let mut s = String::new();
        proof {
            reveal_strlit("{");
            reveal_strlit("}");
            assert(parts@.map_values(|p: String| p@) =~= scaling_parts(*self));
        }
        s.append("{");
        append_join(&mut s, &parts);
        s.append("}");
        proof {
            assert(s@ =~= scaling_wire(*self));
        }
        Ok(s)
    }
}

/// The object entries of one dataset: its kind, label, points and
/// optional element options, in that order.
pub open spec fn dataset_parts<X: WithTypeAndSerializer, Y: WithTypeAndSerializer>(
    d: Dataset<X, Y>,
) -> Seq<Seq<char>> {
    seq![
        entry("type"@, seq!['"'] + d.kind.name() + seq!['"']),
        entry("label"@, json_string_wire(d.label@)),
        entry("data"@, d.data.wire()),
    ] + (match d.elements {
        Some(e) => seq![entry("elements"@, elements_wire(e))],
        None => Seq::<Seq<char>>::empty(),
    })
}

/// The wire form of one dataset.
pub open spec fn dataset_wire<X: WithTypeAndSerializer, Y: WithTypeAndSerializer>(
    d: Dataset<X, Y>,
) -> Seq<char> {
    seq!['{'] + join_comma(dataset_parts(d)) + seq!['}']
}

/// One dataset: a typed series with its kind, its legend label and
/// optional element options.
#[derive(Clone, Debug)]
pub struct Dataset<X: WithTypeAndSerializer, Y: WithTypeAndSerializer> {
    pub kind: ChartType,
    pub label: String,
    pub data: ChartData<X, Y>,
    pub elements: Option<ElementsConfig>,
}

impl<X: WithTypeAndSerializer, Y: WithTypeAndSerializer> Dataset<X, Y> {
    /// Whether every value in this dataset can be rendered.
    pub open spec fn wire_ok(&self) -> bool {
        &&& self.data.series_ok()
        &&& (self.elements matches Some(e) ==> e.wire_ok())
    }

    /// The JSON wire form; fails exactly on unrenderable values.
    pub fn to_json(&self) -> (r: Result<String, FormatError>)
        ensures
            r is Ok <==> self.wire_ok(),
            r is Ok ==> r->Ok_0@ == dataset_wire(*self),
    {
        let mut parts: Vec<String> = Vec::new();
        parts.push(make_entry("type", quoted(self.kind.as_str())));
        let mut label_json = String::new();
        append_json_string(&mut label_json, self.label.as_str());
        parts.push(make_entry("label", label_json));
        match self.data.to_json() {
            Ok(v) => parts.push(make_entry("data", v)),
            Err(e) => {
                return Err(e);
            },
        }
        match &self.elements {
            Some(e) => {
                match e.to_json() {
                    Ok(v) => parts.push(make_entry("elements", v)),
                    Err(e) => {
                        return Err(e);
                    },
                }
            },
            None => {},
        }
        let mut s = String::new();
        proof {
            reveal_strlit("{");
            reveal_strlit("}");
            assert(parts@.map_values(|p: String| p@) =~= dataset_parts(*self));
        }
        s.append("{");
        append_join(&mut s, &parts);
        s.append("}");
        proof {
            assert(s@ =~= dataset_wire(*self));
        }
        Ok(s)
    }
}

/// The wire form of the data section: an object holding the dataset array.
pub open spec fn data_section_wire<X: WithTypeAndSerializer, Y: WithTypeAndSerializer>(
    d: ChartDataSection<X, Y>,
) -> Seq<char> {
    seq!['{'] + entry(
        "datasets"@,
        seq!['['] + join_comma(
            d.datasets@.map_values(|ds: Dataset<X, Y>| dataset_wire(ds)),
        ) + seq![']'],
    ) + seq!['}']
}

/// The data section of a chart: its datasets, in insertion order.
#[derive(Clone, Debug)]
pub struct ChartDataSection<X: WithTypeAndSerializer, Y: WithTypeAndSerializer> {
    pub datasets: Vec<Dataset<X, Y>>,
}

impl<X: WithTypeAndSerializer, Y: WithTypeAndSerializer> Default for ChartDataSection<X, Y> {
    /// No datasets.
    fn default() -> (r: Self)
        ensures
            r.datasets@.len() == 0,
    {
        ChartDataSection { datasets: Vec::new() }
    }
}

impl<X: WithTypeAndSerializer, Y: WithTypeAndSerializer> ChartDataSection<X, Y> {
    /// Whether every dataset can be rendered.
    pub open spec fn wire_ok(&self) -> bool {
        forall|i: int| 0 <= i < self.datasets@.len() ==> (#[trigger] self.datasets@[i]).wire_ok()
    }

    /// The JSON wire form; fails exactly on unrenderable values.
    pub fn to_json(&self) -> (r: Result<String, FormatError>)
        ensures
            r is Ok <==> self.wire_ok(),
            r is Ok ==> r->Ok_0@ == data_section_wire(*self),
    {
        let ghost wires = self.datasets@.map_values(|ds: Dataset<X, Y>| dataset_wire(ds));
        let mut parts: Vec<String> = Vec::new();
        let n = self.datasets.len();
        let mut i: usize = 0;
        proof {
            assert(parts@.map_values(|p: String| p@) =~= wires.take(0));
        }
        while i < n
            invariant
                n == self.datasets@.len(),
                i <= n,
                wires == self.datasets@.map_values(|ds: Dataset<X, Y>| dataset_wire(ds)),
                parts@.map_values(|p: String| p@) == wires.take(i as int),
                forall|k: int| 0 <= k < i ==> (#[trigger] self.datasets@[k]).wire_ok(),
            decreases n - i,
        {
            let part = match self.datasets[i].to_json() {
                Ok(v) => v,
                Err(e) => {
                    return Err(e);
                },
            };
            proof {
                assert(part@ =~= wires[i as int]);
                parts@.lemma_push_map_commute(|p: String| p@, part);
                assert(parts@.push(part).map_values(|p: String| p@) =~= wires.take(i as int + 1));
            }
            parts.push(part);
            i = i + 1;
        }
        let mut arr = String::new();
        proof {
            reveal_strlit("[");
            reveal_strlit("]");
            assert(wires.take(n as int) =~= wires);
        }
        arr.append("[");
        append_join(&mut arr, &parts);
        arr.append("]");
        let mut s = String::new();
        proof {
            reveal_strlit("{");
            reveal_strlit("}");
        }
        s.append("{");
        let e = make_entry("datasets", arr);
        s.append(e.as_str());
        s.append("}");
        proof {
            assert(s@ =~= data_section_wire(*self));
        }
        Ok(s)
    }
}

/// The tooltip callbacks, each an optional raw JavaScript expression
/// emitted into the rendered page.
#[derive(Clone, Copy, Debug)]
pub struct TooltipCallbacks {
    pub before_title: Option<JsExpr>,
    pub title: Option<JsExpr>,
    pub after_title: Option<JsExpr>,
    pub before_body: Option<JsExpr>,
    pub before_label: Option<JsExpr>,
    pub label: Option<JsExpr>,
    pub label_color: Option<JsExpr>,
    pub label_text_color: Option<JsExpr>,
    pub after_label: Option<JsExpr>,
    pub after_body: Option<JsExpr>,
    pub before_footer: Option<JsExpr>,
    pub footer: Option<JsExpr>,
    pub after_footer: Option<JsExpr>,
}

impl Default for TooltipCallbacks {
    /// Only the title callback is set: it shows a point's attached tooltip
    /// text.
    fn default() -> (r: Self)
        ensures
            r.title matches Some(t) && t.0@ == DISPLAY_FN@,
            r.before_title is None,
            r.after_title is None,
            r.before_body is None,
            r.before_label is None,
            r.label is None,
            r.label_color is None,
            r.label_text_color is None,
            r.after_label is None,
            r.after_body is None,
            r.before_footer is None,
            r.footer is None,
            r.after_footer is None,
    {
        TooltipCallbacks {
            before_title: None,
            title: Some(JsExpr(DISPLAY_FN)),
            after_title: None,
            before_body: None,
            before_label: None,
            label: None,
            label_color: None,
            label_text_color: None,
            after_label: None,
            after_body: None,
            before_footer: None,
            footer: None,
            after_footer: None,
        }
    }
}

/// The tooltip block. It may carry raw JavaScript callbacks, so it is
/// assembled by the rendering layer rather than serialized as JSON here.
#[derive(Clone, Copy, Debug)]
pub struct Tooltip {
    pub enabled: bool,
    pub mode: Option<TooltipMode>,
    pub background_color: Option<Rgb>,
    pub title_color: Option<Rgb>,
    pub callbacks: Option<TooltipCallbacks>,
}

impl Default for Tooltip {
    /// Enabled, with the default callbacks.
    fn default() -> (r: Self)
        ensures
            r.enabled == true,
            r.mode is None,
            r.background_color is None,
            r.title_color is None,
            r.callbacks matches Some(c) && c.title matches Some(t) && t.0@ == DISPLAY_FN@,
    {
        Tooltip {
            enabled: true,
            mode: None,
            background_color: None,
            title_color: None,
            callbacks: Some(TooltipCallbacks::default()),
        }
    }
}

/// The plugin blocks of a chart: titles, legend and tooltip.
#[derive(Clone, Debug)]
pub struct Plugins {
    pub title: Option<Title>,
    pub subtitle: Option<Title>,
    pub legend: Option<Legend>,
    pub tooltip: Option<Tooltip>,
}

impl Default for Plugins {
    /// No titles or legend; the default tooltip.
    fn default() -> (r: Self)
        ensures
            r.title is None,
            r.subtitle is None,
            r.legend is None,
            r.tooltip matches Some(t) && t.enabled == true,
    {
        Plugins { title: None, subtitle: None, legend: None, tooltip: Some(Tooltip::default()) }
    }
}

/// The option section of a chart: axes, aspect ratio, element defaults and
/// plugins.
#[derive(Clone, Debug)]
pub struct ChartOptions<X: WithTypeAndSerializer, Y: WithTypeAndSerializer> {
    pub scales: Option<ScalingConfig<X, Y>>,
    pub aspect_ratio: Option<Decimal>,
    pub elements: Option<ElementsConfig>,
    pub plugins: Plugins,
}

impl<X: WithTypeAndSerializer, Y: WithTypeAndSerializer> Default for ChartOptions<X, Y> {
    /// No axes or element defaults; the default plugins.
    fn default() -> (r: Self)
        ensures
            r.scales is None,
            r.aspect_ratio is None,
            r.elements is None,
            r.plugins.title is None,
            r.plugins.subtitle is None,
            r.plugins.legend is None,
            r.plugins.tooltip is Some,
    {
        ChartOptions {
            scales: None,
            aspect_ratio: None,
            elements: None,
            plugins: Plugins::default(),
        }
    }
}

/// A whole chart configuration: the data section and the option section.
#[derive(Clone, Debug)]
pub struct ChartConfig<X: WithTypeAndSerializer, Y: WithTypeAndSerializer> {
    pub data: ChartDataSection<X, Y>,
    pub options: ChartOptions<X, Y>,
}

impl<X: WithTypeAndSerializer, Y: WithTypeAndSerializer> Default for ChartConfig<X, Y> {
    /// An empty chart whose axes carry the categories of the two value
    /// types; a category y axis is reversed, matching the target library's
    /// label order.
    fn default() -> (r: Self)
        ensures
            r.data.datasets@.len() == 0,
            r.options.scales matches Some(sc) && {
                &&& sc.x matches Some(x) && x.axis_type == Some(X::category()) && x.reverse == false
                    && x.labels is None && x.max is None && x.min is None && x.title is None
                &&& sc.y matches Some(y) && y.axis_type == Some(Y::category()) && (y.reverse <==> (
                Y::category() == ScaleType::Category)) && y.labels is None && y.max is None
                    && y.min is None && y.title is None
            },
            r.options.aspect_ratio is None,
            r.options.elements is None,
            r.options.plugins.title is None,
            r.options.plugins.legend is None,
    {
        let x_conf = ScaleConfig::<X>::default().with_type(X::scale_type());
        let y_type = Y::scale_type();
        let reverse = y_type == ScaleType::Category;
        let y_conf = ScaleConfig::<Y>::default().with_type(y_type).with_reverse(reverse);
        ChartConfig {
            data: ChartDataSection::default(),
            options: ChartOptions {
                scales: Some(ScalingConfig { x: Some(x_conf), y: Some(y_conf) }),
                aspect_ratio: None,
                elements: None,
                plugins: Plugins::default(),
            },
        }
    }
}

impl<X: WithTypeAndSerializer, Y: WithTypeAndSerializer> ChartConfig<X, Y> {
    /// An empty chart with the given options.
    pub fn new(options: ChartOptions<X, Y>) -> (r: Self)
        ensures
            r.data.datasets@.len() == 0,
            r.options == options,
    {
        ChartConfig { data: ChartDataSection::default(), options }
    }

    /// The same chart with the x axis configuration replaced; the y axis
    /// keeps whatever was set.
    pub fn set_x_axis(self, conf: ScaleConfig<X>) -> (r: Self)
        ensures
            r.data == self.data,
            r.options.scales matches Some(sc) && sc.x == Some(conf) && sc.y == (match self.options
                .scales {
                Some(s) => s.y,
                None => None,
            }),
            r.options.aspect_ratio == self.options.aspect_ratio,
            r.options.elements == self.options.elements,
            r.options.plugins == self.options.plugins,
    {
        let mut cfg = self;
        let scales = match cfg.options.scales {
            Some(s) => ScalingConfig { x: Some(conf), y: s.y },
            None => ScalingConfig { x: Some(conf), y: None },
        };
        cfg.options.scales = Some(scales);
        cfg
    }

    /// The same chart with the y axis configuration replaced; the x axis
    /// keeps whatever was set.
    pub fn set_y_axis(self, conf: ScaleConfig<Y>) -> (r: Self)
        ensures
            r.data == self.data,
            r.options.scales matches Some(sc) && sc.y == Some(conf) && sc.x == (match self.options
                .scales {
                Some(s) => s.x,
                None => None,
            }),
            r.options.aspect_ratio == self.options.aspect_ratio,
            r.options.elements == self.options.elements,
            r.options.plugins == self.options.plugins,
    {
        let mut cfg = self;
        let scales = match cfg.options.scales {
            Some(s) => ScalingConfig { x: s.x, y: Some(conf) },
            None => ScalingConfig { x: None, y: Some(conf) },
        };
        cfg.options.scales = Some(scales);
        cfg
    }

    /// The same chart with the element defaults replaced.
    pub fn with_elements(self, elements: ElementsConfig) -> (r: Self)
        ensures
            r.data == self.data,
            r.options.scales == self.options.scales,
            r.options.aspect_ratio == self.options.aspect_ratio,
            r.options.elements == Some(elements),
            r.options.plugins == self.options.plugins,
    {
        let mut cfg = self;
        cfg.options.elements = Some(elements);
        cfg
    }

    /// The same chart with the aspect ratio replaced.
    pub fn with_aspect_ratio(self, ratio: Decimal) -> (r: Self)
        ensures
            r.data == self.data,
            r.options.scales == self.options.scales,
            r.options.aspect_ratio == Some(ratio),
            r.options.elements == self.options.elements,
            r.options.plugins == self.options.plugins,
    {
        let mut cfg = self;
        cfg.options.aspect_ratio = Some(ratio);
        cfg
    }

    /// The same chart with the given dataset appended.
    pub fn add_series_direct(self, series: Dataset<X, Y>) -> (r: Self)
        ensures
            r.data.datasets@ == self.data.datasets@.push(series),
            r.options == self.options,
    {
        let mut cfg = self;
        cfg.data.datasets.push(series);
        cfg
    }

    /// The same chart with a dataset of the given kind, label, element
    /// options and points appended.
    pub fn add_series_with_config(
        self,
        kind: ChartType,
        title: String,
        config: ElementsConfig,
        data: ChartData<X, Y>,
    ) -> (r: Self)
        ensures
            r.data.datasets@ == self.data.datasets@.push(
                Dataset { kind, label: title, data, elements: Some(config) },
            ),
            r.options == self.options,
    {
        let mut cfg = self;
        cfg.data.datasets.push(Dataset { kind, label: title, data, elements: Some(config) });
        cfg
    }

    /// The same chart with a dataset of the given kind, label and points
    /// appended.
    pub fn add_series(self, kind: ChartType, title: String, data: ChartData<X, Y>) -> (r: Self)
        ensures
            r.data.datasets@ == self.data.datasets@.push(
                Dataset { kind, label: title, data, elements: None },
            ),
            r.options == self.options,
    {
        let mut cfg = self;
        cfg.data.datasets.push(Dataset { kind, label: title, data, elements: None });
        cfg
    }

    /// The same chart with the legend displayed; other legend settings
    /// keep their values, or the defaults when no legend was set.
    pub fn enable_legend(self) -> (r: Self)
        ensures
            r.data == self.data,
            r.options.scales == self.options.scales,
            r.options.aspect_ratio == self.options.aspect_ratio,
            r.options.elements == self.options.elements,
            r.options.plugins.title == self.options.plugins.title,
            r.options.plugins.subtitle == self.options.plugins.subtitle,
            r.options.plugins.tooltip == self.options.plugins.tooltip,
            r.options.plugins.legend matches Some(l) && l.display == true && (match self.options
                .plugins.legend {
                Some(o) => l == (Legend { display: true, ..o }),
                None => l == (Legend { display: true, ..Legend::default_spec() }),
            }),
    {
        let mut cfg = self;
        let legend = match cfg.options.plugins.legend {
            Some(mut l) => {
                l.display = true;
                l
            },
            None => {
                let mut l = Legend::default();
                l.display = true;
                l
            },
        };
        cfg.options.plugins.legend = Some(legend);
        cfg
    }

    /// The same chart with the title replaced.
    pub fn with_title(self, title: Title) -> (r: Self)
        ensures
            r.data == self.data,
            r.options.scales == self.options.scales,
            r.options.aspect_ratio == self.options.aspect_ratio,
            r.options.elements == self.options.elements,
            r.options.plugins.title == Some(title),
            r.options.plugins.subtitle == self.options.plugins.subtitle,
            r.options.plugins.legend == self.options.plugins.legend,
            r.options.plugins.tooltip == self.options.plugins.tooltip,
    {
        let mut cfg = self;
        cfg.options.plugins.title = Some(title);
        cfg
    }

    /// The same chart with the legend replaced.
    pub fn with_legend(self, legend: Legend) -> (r: Self)
        ensures
            r.data == self.data,
            r.options.scales == self.options.scales,
            r.options.aspect_ratio == self.options.aspect_ratio,
            r.options.elements == self.options.elements,
            r.options.plugins.title == self.options.plugins.title,
            r.options.plugins.subtitle == self.options.plugins.subtitle,
            r.options.plugins.legend == Some(legend),
            r.options.plugins.tooltip == self.options.plugins.tooltip,
    {
        let mut cfg = self;
        cfg.options.plugins.legend = Some(legend);
        cfg
    }

    /// The same chart with the tooltip block replaced.
    pub fn with_tooltip(self, tooltip: Tooltip) -> (r: Self)
        ensures
            r.data == self.data,
            r.options.scales == self.options.scales,
            r.options.aspect_ratio == self.options.aspect_ratio,
            r.options.elements == self.options.elements,
            r.options.plugins.title == self.options.plugins.title,
            r.options.plugins.subtitle == self.options.plugins.subtitle,
            r.options.plugins.legend == self.options.plugins.legend,
            r.options.plugins.tooltip == Some(tooltip),
    {
        let mut cfg = self;
        cfg.options.plugins.tooltip = Some(tooltip);
        cfg
    }

    /// The same chart with the subtitle replaced.
    pub fn with_subtitle(self, subtitle: Title) -> (r: Self)
        ensures
            r.data == self.data,
            r.options.scales == self.options.scales,
            r.options.aspect_ratio == self.options.aspect_ratio,
            r.options.elements == self.options.elements,
            r.options.plugins.title == self.options.plugins.title,
            r.options.plugins.subtitle == Some(subtitle),
            r.options.plugins.legend == self.options.plugins.legend,
            r.options.plugins.tooltip == self.options.plugins.tooltip,
    {
        let mut cfg = self;
        cfg.options.plugins.subtitle = Some(subtitle);
        cfg
    }
}

impl Legend {
    /// The default legend as a specification value.
    pub open spec fn default_spec() -> Legend {
        Legend {
            display: true,
            position: Position::Bottom,
            align: Alignment::Center,
            full_size: false,
        }
    }
}

/// The label of a derived regression series: the scatter title followed by
/// the R² value rounded at four fractional digits. The R² of a
/// least-squares line never exceeds one; the mantissa formula clamps at
/// one all the same, which keeps the arithmetic bounded.
pub open spec fn regression_label_wire(title: Seq<char>, r2: Fraction) -> Seq<char> {
    let num = if r2.num > r2.den {
        r2.den as int
    } else {
        r2.num as int
    };
    title + " regression(R^2 = "@ + decimal_wire(fixed4_mantissa(num, r2.den as int), 4) + ")"@
}

/// Builds the label of a derived regression series.
fn regression_label(title: &str, r2: &Fraction) -> (r: String)
    requires
        r2.wf(),
        r2.num >= 0,
        r2.den <= 4410000000000000000000000000000000000,
    ensures
        r@ == regression_label_wire(title@, *r2),
{
    let clamped = Fraction {
        num: if r2.num > r2.den {
            r2.den
        } else {
            r2.num
        },
        den: r2.den,
    };
    let m = clamped.fixed4();
    let mut s = String::new();
    s.append(title);
    proof {
        reveal_strlit(" regression(R^2 = ");
        reveal_strlit(")");
    }
    s.append(" regression(R^2 = ");
    append_decimal(&mut s, &Decimal { mantissa: m as i64, exp: 4 });
    s.append(")");
    proof {
        assert(s@ =~= regression_label_wire(title@, *r2));
    }
    s
}

impl ChartConfig<Decimal, Decimal> {
    /// The same chart with two datasets appended: the given points as a
    /// scatter series, and the least-squares line fitted to them, labeled
    /// with the R² value. A fit that cannot be computed exactly reports
    /// its numeric error and leaves the chart unbuilt.
    pub fn add_linear_regression_series(self, title: &str, data: ChartData<Decimal, Decimal>) -> (r:
        Result<Self, NumericError>)
        ensures
            ({
                let pts = data.xy_seq();
                let base = self.data.datasets@.len() as int;
                &&& (r == Err::<ChartConfig<Decimal, Decimal>, NumericError>(
                    NumericError::OutOfRange,
                ) <==> (!bounds_ok(pts) || (pts.len() > 0 && bounds_ok(pts) && d_of(pts) > 0
                    && !fitted_fits(pts))))
                &&& (r == Err::<ChartConfig<Decimal, Decimal>, NumericError>(
                    NumericError::Singular,
                ) <==> (bounds_ok(pts) && pts.len() > 0 && d_of(pts) == 0))
                &&& (r matches Ok(c) ==> {
                    &&& c.options == self.options
                    &&& c.data.datasets@.len() == base + 2
                    &&& c.data.datasets@.take(base) == self.data.datasets@
                    &&& c.data.datasets@[base].kind == ChartType::Scatter
                    &&& c.data.datasets@[base].label@ == title@
                    &&& c.data.datasets@[base].data is Vector2D
                    &&& c.data.datasets@[base].data.xy_seq() == pts
                    &&& c.data.datasets@[base].elements is None
                    &&& c.data.datasets@[base + 1].kind == ChartType::Line
                    &&& c.data.datasets@[base + 1].label@ == regression_label_wire(
                        title@,
                        r2_of(pts),
                    )
                    &&& c.data.datasets@[base + 1].data is Vector2D
                    &&& c.data.datasets@[base + 1].data.xy_seq() == fitted_seq(pts)
                    &&& c.data.datasets@[base + 1].elements is None
                })
            }),
    {
        let ghost pts = data.xy_seq();
        let pairs = data.to_pairs();
        let fitted = match fit(&pairs) {
            Ok(f) => f,
            Err(e) => {
                return Err(e);
            },
        };
        let label = regression_label(title, &fitted.r_squared);
        let scatter = ChartData::pairs(pairs);
        let mut cfg = self;
        let ghost before = cfg.data.datasets@;
        cfg.data.datasets.push(
            Dataset {
                kind: ChartType::Scatter,
                label: title.to_owned(),
                data: scatter,
                elements: None,
            },
        );
        cfg.data.datasets.push(
            Dataset { kind: ChartType::Line, label, data: fitted.fitted, elements: None },
        );
        proof {
            assert(cfg.data.datasets@.take(before.len() as int) =~= before);
        }
        Ok(cfg)
    }
}

} // verus!
