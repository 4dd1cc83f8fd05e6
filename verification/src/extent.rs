//! Component-wise extrema of the vertex positions.
//!
//! Floats are compared through their bit patterns. `order_key` maps a
//! pattern to an integer that grows with the number it encodes: the
//! magnitude bits for a clear sign bit, their negation for a set one. Both
//! zeros get key 0; a NaN sorts beyond the infinity of its sign.

use vstd::prelude::*;
use crate::vertex::Vertex;

verus! {

/// Three float bit patterns: a position, or one corner of a bounding box.
#[derive(Clone, Copy, Debug, PartialEq, Eq, Structural)]
pub struct Point {
    pub x: u32,
    pub y: u32,
    pub z: u32,
}

/// The smallest and the largest value of each position component.
#[derive(Clone, Copy, Debug, PartialEq, Eq, Structural)]
pub struct Bounds {
    pub min: Point,
    pub max: Point,
}

/// Where the float with bit pattern `bits` stands in the numeric order.
pub open spec fn order_key(bits: u32) -> int {
    if bits >= 0x8000_0000 {
        0x8000_0000 - bits
    } else {
        bits as int
    }
}

/// The first element of `s` that no other element precedes in the order.
pub open spec fn least(s: Seq<u32>) -> u32
    decreases s.len(),
{
    if s.len() <= 1 {
        s[0]
    } else {
        let m = least(s.drop_last());
        if order_key(s.last()) < order_key(m) {
            s.last()
        } else {
            m
        }
    }
}

/// The first element of `s` that precedes no other element in the order.
pub open spec fn greatest(s: Seq<u32>) -> u32
    decreases s.len(),
{
    if s.len() <= 1 {
        s[0]
    } else {
        let m = greatest(s.drop_last());
        if order_key(m) < order_key(s.last()) {
            s.last()
        } else {
            m
        }
    }
}

/// The x, y or z components (`axis` 0, 1, 2) of the vertices, in order.
pub open spec fn component(vertices: Seq<Vertex>, axis: int) -> Seq<u32> {
    Seq::new(vertices.len(), |i: int| vertices[i].words()[axis])
}

/// The bounding box of the positions of `vertices`.
pub open spec fn bounds_of(vertices: Seq<Vertex>) -> Bounds {
    Bounds {
        min: Point {
            x: least(component(vertices, 0)),
            y: least(component(vertices, 1)),
            z: least(component(vertices, 2)),
        },
        max: Point {
            x: greatest(component(vertices, 0)),
            y: greatest(component(vertices, 1)),
            z: greatest(component(vertices, 2)),
        },
    }
}

/// `least(s)` is an element of `s`, and none comes before it.
pub proof fn lemma_least_is_minimum(s: Seq<u32>)
    requires
        s.len() > 0,
    ensures
        s.contains(least(s)),
        forall|i: int| 0 <= i < s.len() ==> order_key(least(s)) <= order_key(#[trigger] s[i]),
    decreases s.len(),
{
    if s.len() > 1 {
        let t = s.drop_last();
        lemma_least_is_minimum(t);
        let j = choose|j: int| 0 <= j < t.len() && t[j] == least(t);
        assert(s[j] == t[j]);
        assert forall|i: int| 0 <= i < s.len() implies order_key(least(s)) <= order_key(
            #[trigger] s[i],
        ) by {
            if i < t.len() {
                assert(s[i] == t[i]);
            }
        }
    }
}

/// `greatest(s)` is an element of `s`, and none comes after it.
pub proof fn lemma_greatest_is_maximum(s: Seq<u32>)
    requires
        s.len() > 0,
    ensures
        s.contains(greatest(s)),
        forall|i: int| 0 <= i < s.len() ==> order_key(#[trigger] s[i]) <= order_key(greatest(s)),
    decreases s.len(),
{
    if s.len() > 1 {
        let t = s.drop_last();
        lemma_greatest_is_maximum(t);
        let j = choose|j: int| 0 <= j < t.len() && t[j] == greatest(t);
        assert(s[j] == t[j]);
        assert forall|i: int| 0 <= i < s.len() implies order_key(#[trigger] s[i]) <= order_key(
            greatest(s),
        ) by {
            if i < t.len() {
                assert(s[i] == t[i]);
            }
        }
    }
}

/// The bounding box encloses every position, and each of its six values
/// is a component of some vertex: no vertex comes before `min` or after
/// `max` on any axis.
pub proof fn lemma_bounds_enclose(vertices: Seq<Vertex>, k: int, axis: int)
    requires
        0 <= k < vertices.len(),
        0 <= axis < 3,
    ensures
        ({
            let b = bounds_of(vertices);
            let low = seq![b.min.x, b.min.y, b.min.z][axis];
            let high = seq![b.max.x, b.max.y, b.max.z][axis];
            &&& order_key(low) <= order_key(vertices[k].words()[axis]) <= order_key(high)
            &&& component(vertices, axis).contains(low)
            &&& component(vertices, axis).contains(high)
        }),
{
    let s = component(vertices, axis);
    lemma_least_is_minimum(s);
    lemma_greatest_is_maximum(s);
    assert(s[k] == vertices[k].words()[axis]);
}

/// Whether the float with pattern `a` comes strictly before the one with
/// pattern `b`.
pub fn precedes(a: u32, b: u32) -> (r: bool)
    ensures
        r == (order_key(a) < order_key(b)),
{
    let ka: i64 = if a >= 0x8000_0000 {
        0x8000_0000i64 - (a as i64)
    } else {
        a as i64
    };
    let kb: i64 = if b >= 0x8000_0000 {
        0x8000_0000i64 - (b as i64)
    } else {
        b as i64
    };
    ka < kb
}

/// The bounding box of the positions, or `None` where there is no vertex.
pub fn position_bounds(vertices: &Vec<Vertex>) -> (r: Option<Bounds>)
    ensures
        vertices@.len() == 0 ==> r.is_none(),
        vertices@.len() > 0 ==> r == Some(bounds_of(vertices@)),
{
    if vertices.len() == 0 {
        return None;
    }
    let first = vertices[0];
    let mut min = Point { x: first.x, y: first.y, z: first.z };
    let mut max = Point { x: first.x, y: first.y, z: first.z };
    let mut k: usize = 1;
    proof {
        let one = vertices@.take(1);
        assert(component(one, 0).len() == 1 && component(one, 1).len() == 1 && component(one, 2).len() == 1);
    }
    while k < vertices.len()
        invariant
            1 <= k <= vertices.len(),
            (Bounds { min, max }) == bounds_of(vertices@.take(k as int)),
        decreases vertices.len() - k,
    {
        let v = vertices[k];
        proof {
            let was = vertices@.take(k as int);
            let now = vertices@.take(k + 1);
            assert forall|axis: int| 0 <= axis < 3 implies {
                &&& (#[trigger] component(now, axis)).drop_last() == component(was, axis)
                &&& component(now, axis).last() == v.words()[axis]
                &&& component(now, axis).len() > 1
            } by {
                assert(component(now, axis).drop_last() =~= component(was, axis));
            }
            assert(component(now, 0).len() > 1);
            assert(component(now, 1).len() > 1);
            assert(component(now, 2).len() > 1);
        }
        if precedes(v.x, min.x) {
            min.x = v.x;
        }
        if precedes(v.y, min.y) {
            min.y = v.y;
        }
        if precedes(v.z, min.z) {
            min.z = v.z;
        }
        if precedes(max.x, v.x) {
            max.x = v.x;
        }
        if precedes(max.y, v.y) {
            max.y = v.y;
        }
        if precedes(max.z, v.z) {
            max.z = v.z;
        }
        k += 1;
    }
    assert(vertices@.take(k as int) =~= vertices@);
    Some(Bounds { min, max })
}

} // verus!
