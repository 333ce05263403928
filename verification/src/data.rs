//! The chart data model: a series is an ordered sequence of points, in one
//! of three shapes (plain pairs, pairs with a radius, pairs with a tooltip),
//! and serializes as an ordered JSON array of point objects — never as an
//! array of arrays.

use vstd::prelude::*;
use vstd::string::*;
use crate::dispatch::{WithTypeAndSerializer, ValueSerializeWrapper, FormatError};
use crate::text::{join_comma, json_string_wire, dec_digits, append_u64, append_json_string,
    append_join};

verus! {

/// One plotted point, written as the object `{"x":…,"y":…}`.
#[derive(Clone, Debug)]
pub struct DataPoint<X, Y> {
    pub x: X,
    pub y: Y,
}

/// One plotted point with a tooltip text, written `{"x":…,"y":…,"tooltip":…}`.
#[derive(Clone, Debug)]
pub struct DataPointWithTooltip<X, Y> {
    pub x: X,
    pub y: Y,
    pub tooltip: String,
}

/// One plotted point with a bubble radius, written `{"x":…,"y":…,"r":…}`.
#[derive(Clone, Debug)]
pub struct DataPointWithRadius<X, Y> {
    pub x: X,
    pub y: Y,
    pub r: u32,
}

/// The wire text of a plain point object: the `x` key, then the `y` key,
/// in exactly that order.
pub open spec fn point2_wire(xw: Seq<char>, yw: Seq<char>) -> Seq<char> {
    "{\"x\":"@ + xw + ",\"y\":"@ + yw + "}"@
}

/// The wire text of a point object with a radius.
pub open spec fn point_radius_wire(xw: Seq<char>, yw: Seq<char>, r: nat) -> Seq<char> {
    "{\"x\":"@ + xw + ",\"y\":"@ + yw + ",\"r\":"@ + dec_digits(r) + "}"@
}

/// The wire text of a point object with a tooltip.
pub open spec fn point_tooltip_wire(xw: Seq<char>, yw: Seq<char>, t: Seq<char>) -> Seq<char> {
    "{\"x\":"@ + xw + ",\"y\":"@ + yw + ",\"tooltip\":"@ + json_string_wire(t) + "}"@
}

/// A data series: an ordered collection of points in exactly one of three
/// shapes. Insertion order is preserved and becomes point order on the
/// rendered axis.
#[derive(Clone, Debug)]
pub enum ChartData<X: WithTypeAndSerializer, Y: WithTypeAndSerializer> {
    Vector2D(Vec<(ValueSerializeWrapper<X>, ValueSerializeWrapper<Y>)>),
    VectorWithRadius(Vec<DataPointWithRadius<ValueSerializeWrapper<X>, ValueSerializeWrapper<Y>>>),
    VectorWithText(Vec<DataPointWithTooltip<ValueSerializeWrapper<X>, ValueSerializeWrapper<Y>>>),
}

impl<X: WithTypeAndSerializer, Y: WithTypeAndSerializer> ChartData<X, Y> {
    /// The x/y pairs of this series, in order; radius and tooltip are
    /// dropped.
    pub open spec fn xy_seq(&self) -> Seq<(X, Y)> {
        match self {
            ChartData::Vector2D(v) => v@.map_values(
                |p: (ValueSerializeWrapper<X>, ValueSerializeWrapper<Y>)| (p.0.0, p.1.0),
            ),
            ChartData::VectorWithRadius(v) => v@.map_values(
                |p: DataPointWithRadius<ValueSerializeWrapper<X>, ValueSerializeWrapper<Y>>| (
                    p.x.0,
                    p.y.0,
                ),
            ),
            ChartData::VectorWithText(v) => v@.map_values(
                |p: DataPointWithTooltip<ValueSerializeWrapper<X>, ValueSerializeWrapper<Y>>| (
                    p.x.0,
                    p.y.0,
                ),
            ),
        }
    }

    /// The radii of this series, in order; empty for the other shapes.
    pub open spec fn radius_seq(&self) -> Seq<u32> {
        match self {
            ChartData::VectorWithRadius(v) => v@.map_values(
                |p: DataPointWithRadius<ValueSerializeWrapper<X>, ValueSerializeWrapper<Y>>| p.r,
            ),
            _ => Seq::<u32>::empty(),
        }
    }

    /// The tooltips of this series, in order; empty for the other shapes.
    pub open spec fn tooltip_seq(&self) -> Seq<Seq<char>> {
        match self {
            ChartData::VectorWithText(v) => v@.map_values(
                |p: DataPointWithTooltip<ValueSerializeWrapper<X>, ValueSerializeWrapper<Y>>|
                    p.tooltip@,
            ),
            _ => Seq::<Seq<char>>::empty(),
        }
    }

    /// Whether every value in this series can be rendered.
    pub open spec fn series_ok(&self) -> bool {
        forall|i: int| 0 <= i < self.xy_seq().len() ==> (#[trigger] self.xy_seq()[i]).0.wire_ok()
            && self.xy_seq()[i].1.wire_ok()
    }

    /// The wire texts of the point objects of this series, in order.
    pub open spec fn point_wires(&self) -> Seq<Seq<char>> {
        match self {
            ChartData::Vector2D(v) => v@.map_values(
                |p: (ValueSerializeWrapper<X>, ValueSerializeWrapper<Y>)| point2_wire(
                    p.0.0.wire(),
                    p.1.0.wire(),
                ),
            ),
            ChartData::VectorWithRadius(v) => v@.map_values(
                |p: DataPointWithRadius<ValueSerializeWrapper<X>, ValueSerializeWrapper<Y>>|
                    point_radius_wire(p.x.0.wire(), p.y.0.wire(), p.r as nat),
            ),
            ChartData::VectorWithText(v) => v@.map_values(
                |p: DataPointWithTooltip<ValueSerializeWrapper<X>, ValueSerializeWrapper<Y>>|
                    point_tooltip_wire(p.x.0.wire(), p.y.0.wire(), p.tooltip@),
            ),
        }
    }

    /// The wire text of this series: an ordered JSON array of point
    /// objects.
    pub open spec fn wire(&self) -> Seq<char> {
        seq!['['] + join_comma(self.point_wires()) + seq![']']
    }

    /// A plain pairs series from ordered x/y tuples, wrapping each raw
    /// value with its resolved strategy.
    pub fn pairs(v: Vec<(X, Y)>) -> (r: Self)
        ensures
            r is Vector2D,
            r.xy_seq() == v@,
    {
        let mut v = v;
        let mut out: Vec<(ValueSerializeWrapper<X>, ValueSerializeWrapper<Y>)> = Vec::new();
        let ghost orig = v@;
        while v.len() > 0
            invariant
                out@.map_values(
                    |p: (ValueSerializeWrapper<X>, ValueSerializeWrapper<Y>)| (p.0.0, p.1.0),
                ) + v@ == orig,
            decreases v.len(),
        {
            let p = v.remove(0);
            out.push((ValueSerializeWrapper(p.0), ValueSerializeWrapper(p.1)));
            proof {
                assert(out@.map_values(
                    |p: (ValueSerializeWrapper<X>, ValueSerializeWrapper<Y>)| (p.0.0, p.1.0),
                ) + v@ =~= orig);
            }
        }
        let r = ChartData::Vector2D(out);
        proof {
            assert(r.xy_seq() =~= orig);
        }
        r
    }

    /// A radius series from ordered x/y/radius tuples.
    pub fn with_radius(v: Vec<(X, Y, u32)>) -> (r: Self)
        ensures
            r is VectorWithRadius,
            r.xy_seq() == v@.map_values(|t: (X, Y, u32)| (t.0, t.1)),
            r.radius_seq() == v@.map_values(|t: (X, Y, u32)| t.2),
    {
        let mut v = v;
        let mut out: Vec<DataPointWithRadius<ValueSerializeWrapper<X>, ValueSerializeWrapper<Y>>> =
            Vec::new();
        let ghost orig = v@;
        while v.len() > 0
            invariant
                out@.map_values(
                    |p: DataPointWithRadius<ValueSerializeWrapper<X>, ValueSerializeWrapper<Y>>| (
                        p.x.0,
                        p.y.0,
                        p.r,
                    ),
                ) + v@ == orig,
            decreases v.len(),
        {
            let p = v.remove(0);
            out.push(
                DataPointWithRadius {
                    x: ValueSerializeWrapper(p.0),
                    y: ValueSerializeWrapper(p.1),
                    r: p.2,
                },
            );
            proof {
                assert(out@.map_values(
                    |p: DataPointWithRadius<ValueSerializeWrapper<X>, ValueSerializeWrapper<Y>>| (
                        p.x.0,
                        p.y.0,
                        p.r,
                    ),
                ) + v@ =~= orig);
            }
        }
        let r = ChartData::VectorWithRadius(out);
        proof {
            assert(r.xy_seq() =~= orig.map_values(|t: (X, Y, u32)| (t.0, t.1)));
            assert(r.radius_seq() =~= orig.map_values(|t: (X, Y, u32)| t.2));
        }
        r
    }

    /// A tooltip series from ordered x/y/text tuples.
    pub fn with_tooltip(v: Vec<(X, Y, String)>) -> (r: Self)
        ensures
            r is VectorWithText,
            r.xy_seq() == v@.map_values(|t: (X, Y, String)| (t.0, t.1)),
            r.tooltip_seq() == v@.map_values(|t: (X, Y, String)| t.2@),
    {
        let mut v = v;
        let mut out: Vec<DataPointWithTooltip<ValueSerializeWrapper<X>, ValueSerializeWrapper<Y>>> =
            Vec::new();
        let ghost orig = v@;
        while v.len() > 0
            invariant
                out@.map_values(
                    |p: DataPointWithTooltip<ValueSerializeWrapper<X>, ValueSerializeWrapper<Y>>| (
                        p.x.0,
                        p.y.0,
                        p.tooltip,
                    ),
                ) + v@ == orig,
            decreases v.len(),
        {
            let p = v.remove(0);
            out.push(
                DataPointWithTooltip {
                    x: ValueSerializeWrapper(p.0),
                    y: ValueSerializeWrapper(p.1),
                    tooltip: p.2,
                },
            );
            proof {
                assert(out@.map_values(
                    |p: DataPointWithTooltip<ValueSerializeWrapper<X>, ValueSerializeWrapper<Y>>| (
                        p.x.0,
                        p.y.0,
                        p.tooltip,
                    ),
                ) + v@ =~= orig);
            }
        }
        let r = ChartData::VectorWithText(out);
        proof {
            assert(r.xy_seq() =~= orig.map_values(|t: (X, Y, String)| (t.0, t.1)));
            assert(r.tooltip_seq() =~= orig.map_values(|t: (X, Y, String)| t.2@));
        }
        r
    }

    /// The x/y pairs of this series, in order, as raw values; radius and
    /// tooltip are dropped.
    pub fn to_pairs(self) -> (r: Vec<(X, Y)>)
        ensures
            r@ == self.xy_seq(),
    {
        let ghost goal = self.xy_seq();
        let mut out: Vec<(X, Y)> = Vec::new();
        match self {
            ChartData::Vector2D(mut v) => {
                let ghost orig = v@;
                while v.len() > 0
                    invariant
                        out@ + v@.map_values(
                            |p: (ValueSerializeWrapper<X>, ValueSerializeWrapper<Y>)| (
                                p.0.0,
                                p.1.0,
                            ),
                        ) == goal,
                    decreases v.len(),
                {
                    let p = v.remove(0);
                    out.push((p.0.0, p.1.0));
                    proof {
                        assert(out@ + v@.map_values(
                            |p: (ValueSerializeWrapper<X>, ValueSerializeWrapper<Y>)| (
                                p.0.0,
                                p.1.0,
                            ),
                        ) =~= goal);
                    }
                }
            },
            ChartData::VectorWithRadius(mut v) => {
                while v.len() > 0
                    invariant
                        out@ + v@.map_values(
                            |p: DataPointWithRadius<
                                ValueSerializeWrapper<X>,
                                ValueSerializeWrapper<Y>,
                            >| (p.x.0, p.y.0),
                        ) == goal,
                    decreases v.len(),
                {
                    let p = v.remove(0);
                    out.push((p.x.0, p.y.0));
                    proof {
                        assert(out@ + v@.map_values(
                            |p: DataPointWithRadius<
                                ValueSerializeWrapper<X>,
                                ValueSerializeWrapper<Y>,
                            >| (p.x.0, p.y.0),
                        ) =~= goal);
                    }
                }
            },
            ChartData::VectorWithText(mut v) => {
                while v.len() > 0
                    invariant
                        out@ + v@.map_values(
                            |p: DataPointWithTooltip<
                                ValueSerializeWrapper<X>,
                                ValueSerializeWrapper<Y>,
                            >| (p.x.0, p.y.0),
                        ) == goal,
                    decreases v.len(),
                {
                    let p = v.remove(0);
                    out.push((p.x.0, p.y.0));
                    proof {
                        assert(out@ + v@.map_values(
                            |p: DataPointWithTooltip<
                                ValueSerializeWrapper<X>,
                                ValueSerializeWrapper<Y>,
                            >| (p.x.0, p.y.0),
                        ) =~= goal);
                    }
                }
            },
        }
        proof {
            assert(out@ =~= goal);
        }
        out
    }

    /// The JSON wire text of this series: an ordered array of point
    /// objects with keys in x-then-y order. Fails exactly when some value
    /// cannot be rendered.
    pub fn to_json(&self) -> (r: Result<String, FormatError>)
        ensures
            r is Ok <==> self.series_ok(),
            r is Ok ==> r->Ok_0@ == self.wire(),
    {
        let ghost wires = self.point_wires();
        let mut parts: Vec<String> = Vec::new();
        match self {
            ChartData::Vector2D(v) => {
                let n = v.len();
                let mut i: usize = 0;
                proof {
                    assert(wires.take(0) =~= Seq::<Seq<char>>::empty());
                }
                while i < n
                    invariant
                        n == v@.len(),
                        i <= n,
                        *self is Vector2D && self->Vector2D_0 == *v,
                        wires == self.point_wires(),
                        parts@.map_values(|p: String| p@) == wires.take(i as int),
                        forall|k: int| 0 <= k < i ==> (#[trigger] self.xy_seq()[k]).0.wire_ok()
                            && self.xy_seq()[k].1.wire_ok(),
                    decreases n - i,
                {
                    let mut part = String::new();
                    proof {
                        reveal_strlit("{\"x\":");
                        reveal_strlit(",\"y\":");
                        reveal_strlit("}");
                    }
                    part.append("{\"x\":");
                    if v[i].0.append_wire(&mut part).is_err() {
                        proof {
                            assert(!(self.xy_seq()[i as int].0.wire_ok()));
                        }
                        return Err(FormatError::Unrenderable);
                    }
                    part.append(",\"y\":");
                    if v[i].1.append_wire(&mut part).is_err() {
                        proof {
                            assert(!(self.xy_seq()[i as int].1.wire_ok()));
                        }
                        return Err(FormatError::Unrenderable);
                    }
                    part.append("}");
                    proof {
                        assert(part@ =~= wires[i as int]);
                        parts@.lemma_push_map_commute(|p: String| p@, part);
                        assert(parts@.push(part).map_values(|p: String| p@) =~= wires.take(
                            i as int + 1,
                        ));
                    }
                    parts.push(part);
                    i = i + 1;
                }
            },
            ChartData::VectorWithRadius(v) => {
                let n = v.len();
                let mut i: usize = 0;
                proof {
                    assert(wires.take(0) =~= Seq::<Seq<char>>::empty());
                }
                while i < n
                    invariant
                        n == v@.len(),
                        i <= n,
                        *self is VectorWithRadius && self->VectorWithRadius_0 == *v,
                        wires == self.point_wires(),
                        parts@.map_values(|p: String| p@) == wires.take(i as int),
                        forall|k: int| 0 <= k < i ==> (#[trigger] self.xy_seq()[k]).0.wire_ok()
                            && self.xy_seq()[k].1.wire_ok(),
                    decreases n - i,
                {
                    let mut part = String::new();
                    proof {
                        reveal_strlit("{\"x\":");
                        reveal_strlit(",\"y\":");
                        reveal_strlit(",\"r\":");
                        reveal_strlit("}");
                    }
                    part.append("{\"x\":");
                    if v[i].x.append_wire(&mut part).is_err() {
                        proof {
                            assert(!(self.xy_seq()[i as int].0.wire_ok()));
                        }
                        return Err(FormatError::Unrenderable);
                    }
                    part.append(",\"y\":");
                    if v[i].y.append_wire(&mut part).is_err() {
                        proof {
                            assert(!(self.xy_seq()[i as int].1.wire_ok()));
                        }
                        return Err(FormatError::Unrenderable);
                    }
                    part.append(",\"r\":");
                    append_u64(&mut part, v[i].r as u64);
                    part.append("}");
                    proof {
                        assert(part@ =~= wires[i as int]);
                        parts@.lemma_push_map_commute(|p: String| p@, part);
                        assert(parts@.push(part).map_values(|p: String| p@) =~= wires.take(
                            i as int + 1,
                        ));
                    }
                    parts.push(part);
                    i = i + 1;
                }
            },
            ChartData::VectorWithText(v) => {
                let n = v.len();
                let mut i: usize = 0;
                proof {
                    assert(wires.take(0) =~= Seq::<Seq<char>>::empty());
                }
                while i < n
                    invariant
                        n == v@.len(),
                        i <= n,
                        *self is VectorWithText && self->VectorWithText_0 == *v,
                        wires == self.point_wires(),
                        parts@.map_values(|p: String| p@) == wires.take(i as int),
                        forall|k: int| 0 <= k < i ==> (#[trigger] self.xy_seq()[k]).0.wire_ok()
                            && self.xy_seq()[k].1.wire_ok(),
                    decreases n - i,
                {
                    let mut part = String::new();
                    proof {
                        reveal_strlit("{\"x\":");
                        reveal_strlit(",\"y\":");
                        reveal_strlit(",\"tooltip\":");
                        reveal_strlit("}");
                    }
                    part.append("{\"x\":");
                    if v[i].x.append_wire(&mut part).is_err() {
                        proof {
                            assert(!(self.xy_seq()[i as int].0.wire_ok()));
                        }
                        return Err(FormatError::Unrenderable);
                    }
                    part.append(",\"y\":");
                    if v[i].y.append_wire(&mut part).is_err() {
                        proof {
                            assert(!(self.xy_seq()[i as int].1.wire_ok()));
                        }
                        return Err(FormatError::Unrenderable);
                    }
                    part.append(",\"tooltip\":");
                    append_json_string(&mut part, v[i].tooltip.as_str());
                    part.append("}");
                    proof {
                        assert(part@ =~= wires[i as int]);
                        parts@.lemma_push_map_commute(|p: String| p@, part);
                        assert(parts@.push(part).map_values(|p: String| p@) =~= wires.take(
                            i as int + 1,
                        ));
                    }
                    parts.push(part);
                    i = i + 1;
                }
            },
        }
        let mut s = String::new();
        proof {
            reveal_strlit("[");
            reveal_strlit("]");
            assert(parts@.map_values(|p: String| p@) =~= wires);
        }
        s.append("[");
        append_join(&mut s, &parts);
        s.append("]");
        proof {
            assert(s@ =~= self.wire());
        }
        Ok(s)
    }
}

/// Round-trip law: converting any series to its x/y pairs and building a
/// plain pairs series back from them preserves the x/y values and their
/// order exactly, whatever radius or tooltip data the original carried.
pub fn xy_round_trip<X: WithTypeAndSerializer, Y: WithTypeAndSerializer>(d: ChartData<X, Y>) -> (r:
    ChartData<X, Y>)
    ensures
        r is Vector2D,
        r.xy_seq() == d.xy_seq(),
{
    ChartData::pairs(d.to_pairs())
}

} // verus!
