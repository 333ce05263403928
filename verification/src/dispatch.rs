//! Per-type axis classification and serialization dispatch. Every value
//! type usable on an axis implements [`WithTypeAndSerializer`], which fixes
//! its axis category and its exact wire text. New value types plug in by
//! adding an impl; no central switch has to change.

use vstd::prelude::*;
use vstd::string::*;
use crate::text::{int_wire, dec_digits, json_string_wire, append_i64, append_u64,
    append_json_string};
use crate::numeric::Decimal;

verus! {

/// The semantic kind of a chart axis. Serialized as its lower-case name.
#[derive(Clone, Copy, Debug, PartialEq, Eq, Structural)]
pub enum ScaleType {
    Linear,
    Logarithmic,
    Category,
    Time,
    TimeSeries,
    RadialLinear,
}

impl ScaleType {
    /// The lower-case name of this category.
    pub open spec fn name(&self) -> Seq<char> {
        match self {
            ScaleType::Linear => "linear"@,
            ScaleType::Logarithmic => "logarithmic"@,
            ScaleType::Category => "category"@,
            ScaleType::Time => "time"@,
            ScaleType::TimeSeries => "timeseries"@,
            ScaleType::RadialLinear => "radiallinear"@,
        }
    }

    /// The lower-case name of this category as a string slice.
    pub fn as_str(&self) -> (r: &'static str)
        ensures
            r@ == self.name(),
    {
        match self {
            ScaleType::Linear => "linear",
            ScaleType::Logarithmic => "logarithmic",
            ScaleType::Category => "category",
            ScaleType::Time => "time",
            ScaleType::TimeSeries => "timeseries",
            ScaleType::RadialLinear => "radiallinear",
        }
    }
}

/// Raised when a value cannot be rendered under its bound strategy,
/// such as a decimal with an oversized exponent or an out-of-range clock
/// value.
#[derive(Clone, Copy, Debug, PartialEq, Eq, Structural)]
pub enum FormatError {
    Unrenderable,
}

/// The capability an axis value type carries: a fixed axis category and an
/// exact wire text. The category belongs to the type, never to an
/// instance, so every value of one type lands on one kind of axis.
pub trait WithTypeAndSerializer: Sized {
    /// The axis category of this value type.
    spec fn category() -> ScaleType;

    /// Whether this particular value can be rendered at all.
    spec fn wire_ok(&self) -> bool;

    /// The exact wire text this value serializes to.
    spec fn wire(&self) -> Seq<char>;

    /// The axis category, as executable code.
    fn scale_type() -> (t: ScaleType)
        ensures
            t == Self::category(),
    ;

    /// Appends the wire text of this value to `out`; fails exactly on
    /// values that cannot be rendered, leaving `out` unchanged.
    fn append_wire(&self, out: &mut String) -> (r: Result<(), FormatError>)
        ensures
            r is Ok <==> self.wire_ok(),
            r is Ok ==> final(out)@ == old(out)@ + self.wire(),
            r is Err ==> final(out)@ == old(out)@,
    ;
}

/// The wire text of a value as a fresh string; fails exactly on values
/// that cannot be rendered.
pub fn wire_string<T: WithTypeAndSerializer>(v: &T) -> (r: Result<String, FormatError>)
    ensures
        r is Ok <==> v.wire_ok(),
        r is Ok ==> r->Ok_0@ == v.wire(),
{
    let mut s = String::new();
    match v.append_wire(&mut s) {
        Ok(()) => {
            proof {
                assert(s@ =~= v.wire());
            }
            Ok(s)
        },
        Err(e) => Err(e),
    }
}

impl WithTypeAndSerializer for i64 {
    open spec fn category() -> ScaleType {
        ScaleType::Linear
    }

    open spec fn wire_ok(&self) -> bool {
        true
    }

    open spec fn wire(&self) -> Seq<char> {
        int_wire(*self as int)
    }

    fn scale_type() -> (t: ScaleType) {
        ScaleType::Linear
    }

    fn append_wire(&self, out: &mut String) -> (r: Result<(), FormatError>) {
        append_i64(out, *self);
        Ok(())
    }
}

impl WithTypeAndSerializer for i32 {
    open spec fn category() -> ScaleType {
        ScaleType::Linear
    }

    open spec fn wire_ok(&self) -> bool {
        true
    }

    open spec fn wire(&self) -> Seq<char> {
        int_wire(*self as int)
    }

    fn scale_type() -> (t: ScaleType) {
        ScaleType::Linear
    }

    fn append_wire(&self, out: &mut String) -> (r: Result<(), FormatError>) {
        append_i64(out, *self as i64);
        Ok(())
    }
}

impl WithTypeAndSerializer for i16 {
    open spec fn category() -> ScaleType {
        ScaleType::Linear
    }

    open spec fn wire_ok(&self) -> bool {
        true
    }

    open spec fn wire(&self) -> Seq<char> {
        int_wire(*self as int)
    }

    fn scale_type() -> (t: ScaleType) {
        ScaleType::Linear
    }

    fn append_wire(&self, out: &mut String) -> (r: Result<(), FormatError>) {
        append_i64(out, *self as i64);
        Ok(())
    }
}

impl WithTypeAndSerializer for i8 {
    open spec fn category() -> ScaleType {
        ScaleType::Linear
    }

    open spec fn wire_ok(&self) -> bool {
        true
    }

    open spec fn wire(&self) -> Seq<char> {
        int_wire(*self as int)
    }

    fn scale_type() -> (t: ScaleType) {
        ScaleType::Linear
    }

    fn append_wire(&self, out: &mut String) -> (r: Result<(), FormatError>) {
        append_i64(out, *self as i64);
        Ok(())
    }
}

impl WithTypeAndSerializer for u64 {
    open spec fn category() -> ScaleType {
        ScaleType::Linear
    }

    open spec fn wire_ok(&self) -> bool {
        true
    }

    open spec fn wire(&self) -> Seq<char> {
        dec_digits(*self as nat)
    }

    fn scale_type() -> (t: ScaleType) {
        ScaleType::Linear
    }

    fn append_wire(&self, out: &mut String) -> (r: Result<(), FormatError>) {
        append_u64(out, *self);
        Ok(())
    }
}

impl WithTypeAndSerializer for u32 {
    open spec fn category() -> ScaleType {
        ScaleType::Linear
    }

    open spec fn wire_ok(&self) -> bool {
        true
    }

    open spec fn wire(&self) -> Seq<char> {
        dec_digits(*self as nat)
    }

    fn scale_type() -> (t: ScaleType) {
        ScaleType::Linear
    }

    fn append_wire(&self, out: &mut String) -> (r: Result<(), FormatError>) {
        append_u64(out, *self as u64);
        Ok(())
    }
}

impl WithTypeAndSerializer for u16 {
    open spec fn category() -> ScaleType {
        ScaleType::Linear
    }

    open spec fn wire_ok(&self) -> bool {
        true
    }

    open spec fn wire(&self) -> Seq<char> {
        dec_digits(*self as nat)
    }

    fn scale_type() -> (t: ScaleType) {
        ScaleType::Linear
    }

    fn append_wire(&self, out: &mut String) -> (r: Result<(), FormatError>) {
        append_u64(out, *self as u64);
        Ok(())
    }
}

impl WithTypeAndSerializer for u8 {
    open spec fn category() -> ScaleType {
        ScaleType::Linear
    }

    open spec fn wire_ok(&self) -> bool {
        true
    }

    open spec fn wire(&self) -> Seq<char> {
        dec_digits(*self as nat)
    }

    fn scale_type() -> (t: ScaleType) {
        ScaleType::Linear
    }

    fn append_wire(&self, out: &mut String) -> (r: Result<(), FormatError>) {
        append_u64(out, *self as u64);
        Ok(())
    }
}

impl WithTypeAndSerializer for u128 {
    open spec fn category() -> ScaleType {
        ScaleType::Linear
    }

    open spec fn wire_ok(&self) -> bool {
        true
    }

    open spec fn wire(&self) -> Seq<char> {
        dec_digits(*self as nat)
    }

    fn scale_type() -> (t: ScaleType) {
        ScaleType::Linear
    }

    fn append_wire(&self, out: &mut String) -> (r: Result<(), FormatError>) {
        crate::text::append_u128(out, *self);
        Ok(())
    }
}

impl WithTypeAndSerializer for i128 {
    open spec fn category() -> ScaleType {
        ScaleType::Linear
    }

    open spec fn wire_ok(&self) -> bool {
        true
    }

    open spec fn wire(&self) -> Seq<char> {
        int_wire(*self as int)
    }

    fn scale_type() -> (t: ScaleType) {
        ScaleType::Linear
    }

    fn append_wire(&self, out: &mut String) -> (r: Result<(), FormatError>) {
        crate::text::append_i128(out, *self);
        Ok(())
    }
}

impl WithTypeAndSerializer for usize {
    open spec fn category() -> ScaleType {
        ScaleType::Linear
    }

    open spec fn wire_ok(&self) -> bool {
        true
    }

    open spec fn wire(&self) -> Seq<char> {
        dec_digits(*self as nat)
    }

    fn scale_type() -> (t: ScaleType) {
        ScaleType::Linear
    }

    fn append_wire(&self, out: &mut String) -> (r: Result<(), FormatError>) {
        append_u64(out, *self as u64);
        Ok(())
    }
}

impl WithTypeAndSerializer for isize {
    open spec fn category() -> ScaleType {
        ScaleType::Linear
    }

    open spec fn wire_ok(&self) -> bool {
        true
    }

    open spec fn wire(&self) -> Seq<char> {
        int_wire(*self as int)
    }

    fn scale_type() -> (t: ScaleType) {
        ScaleType::Linear
    }

    fn append_wire(&self, out: &mut String) -> (r: Result<(), FormatError>) {
        append_i64(out, *self as i64);
        Ok(())
    }
}

impl WithTypeAndSerializer for Decimal {
    open spec fn category() -> ScaleType {
        ScaleType::Linear
    }

    open spec fn wire_ok(&self) -> bool {
        self.renderable()
    }

    open spec fn wire(&self) -> Seq<char> {
        Decimal::wire(self)
    }

    fn scale_type() -> (t: ScaleType) {
        ScaleType::Linear
    }

    fn append_wire(&self, out: &mut String) -> (r: Result<(), FormatError>) {
        if self.exp <= 12 {
            crate::numeric::append_decimal(out, self);
            Ok(())
        } else {
            Err(FormatError::Unrenderable)
        }
    }
}

impl WithTypeAndSerializer for String {
    open spec fn category() -> ScaleType {
        ScaleType::Category
    }

    open spec fn wire_ok(&self) -> bool {
        true
    }

    open spec fn wire(&self) -> Seq<char> {
        json_string_wire(self@)
    }

    fn scale_type() -> (t: ScaleType) {
        ScaleType::Category
    }

    fn append_wire(&self, out: &mut String) -> (r: Result<(), FormatError>) {
        append_json_string(out, self.as_str());
        Ok(())
    }
}

impl<'a> WithTypeAndSerializer for &'a str {
    open spec fn category() -> ScaleType {
        ScaleType::Category
    }

    open spec fn wire_ok(&self) -> bool {
        true
    }

    open spec fn wire(&self) -> Seq<char> {
        json_string_wire((*self)@)
    }

    fn scale_type() -> (t: ScaleType) {
        ScaleType::Category
    }

    fn append_wire(&self, out: &mut String) -> (r: Result<(), FormatError>) {
        append_json_string(out, *self);
        Ok(())
    }
}

/// Binds a raw value to its resolved serialization strategy at the point
/// of insertion: downstream code serializes through the bound strategy
/// without re-discovering the concrete type.
#[derive(Clone, Debug)]
pub struct ValueSerializeWrapper<T: WithTypeAndSerializer>(pub T);

impl<T: WithTypeAndSerializer> ValueSerializeWrapper<T> {
    /// Wraps a raw value, binding the strategy resolved for its type.
    pub fn new(value: T) -> (r: Self)
        ensures
            r.0 == value,
    {
        ValueSerializeWrapper(value)
    }

    /// Delegates to the bound strategy.
    pub fn append_wire(&self, out: &mut String) -> (r: Result<(), FormatError>)
        ensures
            r is Ok <==> self.0.wire_ok(),
            r is Ok ==> final(out)@ == old(out)@ + self.0.wire(),
            r is Err ==> final(out)@ == old(out)@,
    {
        self.0.append_wire(out)
    }
}

} // verus!
