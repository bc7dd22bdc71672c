use vstd::arithmetic::div_mod::{
    lemma_mod_add_multiples_vanish, lemma_mod_bound, lemma_mod_self_0, lemma_small_mod,
};
use vstd::prelude::*;

verus! {

/// One vertex of a triangle fan: the shape's center, or the rim point at
/// angle `step * 2π / segments` around it.
#[derive(Clone, Copy, Debug, PartialEq, Eq, Structural)]
pub enum FanPoint {
    Center,
    Rim { step: u32, segments: u32 },
}

/// The rim point at `step` of a fan with `n` segments.
pub open spec fn rim(step: int, n: u32) -> FanPoint {
    FanPoint::Rim { step: step as u32, segments: n }
}

/// The fan of `n` segments: triple `i` is (center, rim `i`, rim `i + 1`).
pub open spec fn fan_spec(n: u32) -> Seq<FanPoint> {
    Seq::new(
        (3 * n) as nat,
        |k: int|
            if k % 3 == 0 {
                FanPoint::Center
            } else if k % 3 == 1 {
                rim(k / 3, n)
            } else {
                rim(k / 3 + 1, n)
            },
    )
}

/// Builds the triangle fan of a circle with `segments` segments.
pub fn circle_fan(segments: u32) -> (r: Vec<FanPoint>)
    ensures
        r@ == fan_spec(segments),
{
    let mut v: Vec<FanPoint> = Vec::new();
    let mut i: u32 = 0;
    while i < segments
        invariant
            i <= segments,
            v@ == fan_spec(segments).take(3 * i as int),
        decreases segments - i,
    {
        let ghost prev = v@;
        v.push(FanPoint::Center);
        v.push(FanPoint::Rim { step: i, segments });
        v.push(FanPoint::Rim { step: i + 1, segments });
        proof {
            let f = fan_spec(segments);
            let k = 3 * i as int;
            assert(k % 3 == 0 && k / 3 == i);
            assert((k + 1) % 3 == 1 && (k + 1) / 3 == i);
            assert((k + 2) % 3 == 2 && (k + 2) / 3 == i);
            assert(v@ =~= f.take(k + 3));
        }
        i = i + 1;
    }
    proof {
        assert(fan_spec(segments).take(3 * segments as int) =~= fan_spec(segments));
    }
    v
}

/// A shape to tessellate. `P` is the type of a position and `L` that of a
/// length: the library only reads the segment count, and whoever turns fan
/// points into coordinates reads the rest.
#[derive(Debug)]
pub enum Shape<P, L> {
    Circle { center: P, radius: L, segments: u32 },
}

impl<P, L> Shape<P, L> {
    /// The fan this shape tessellates into.
    pub open spec fn fan(&self) -> Seq<FanPoint> {
        match self {
            Shape::Circle { segments, .. } => fan_spec(*segments),
        }
    }

    /// Produces the shape's vertices as fan points, three per triangle.
    pub fn generate_vertices(&self) -> (r: Vec<FanPoint>)
        ensures
            r@ == self.fan(),
    {
        match self {
            Shape::Circle { segments, .. } => circle_fan(*segments),
        }
    }
}

/// A vertex of a scene: a fan point of the shape at index `shape`.
#[derive(Clone, Copy, Debug, PartialEq, Eq, Structural)]
pub struct ShapeVertex {
    pub shape: usize,
    pub point: FanPoint,
}

/// The fan points `pts`, each tagged with the shape index `j`.
pub open spec fn tagged(pts: Seq<FanPoint>, j: int) -> Seq<ShapeVertex> {
    pts.map_values(|p: FanPoint| ShapeVertex { shape: j as usize, point: p })
}

/// The vertices of a scene: the fans of its shapes, one after another, in order.
pub open spec fn scene_spec<P, L>(shapes: Seq<Shape<P, L>>) -> Seq<ShapeVertex>
    decreases shapes.len(),
{
    if shapes.len() == 0 {
        Seq::empty()
    } else {
        scene_spec(shapes.drop_last()) + tagged(shapes.last().fan(), shapes.len() - 1)
    }
}

/// Tessellates every shape of a scene into one vertex list, in shape order.
pub fn scene_vertices<P, L>(shapes: &Vec<Shape<P, L>>) -> (r: Vec<ShapeVertex>)
    ensures
        r@ == scene_spec(shapes@),
{
    let mut v: Vec<ShapeVertex> = Vec::new();
    let mut j: usize = 0;
    while j < shapes.len()
        invariant
            j <= shapes@.len(),
            v@ == scene_spec(shapes@.take(j as int)),
        decreases shapes@.len() - j,
    {
        let pts = shapes[j].generate_vertices();
        let ghost start = v@;
        let mut k: usize = 0;
        while k < pts.len()
            invariant
                k <= pts@.len(),
                v@ == start + tagged(pts@.take(k as int), j as int),
            decreases pts@.len() - k,
        {
            v.push(ShapeVertex { shape: j, point: pts[k] });
            proof {
                assert(tagged(pts@.take(k + 1), j as int) =~= tagged(pts@.take(k as int), j as int).push(
                    ShapeVertex { shape: j, point: pts@[k as int] },
                ));
            }
            k = k + 1;
        }
        proof {
            let t = shapes@.take(j + 1);
            assert(t.drop_last() =~= shapes@.take(j as int));
            assert(pts@.take(k as int) =~= pts@);
        }
        j = j + 1;
    }
    proof {
        assert(shapes@.take(j as int) =~= shapes@);
    }
    v
}

/// Whether two fan points are the same rim point: the same segment count,
/// and steps that differ by whole turns.
pub open spec fn same_rim_point(a: FanPoint, b: FanPoint) -> bool {
    match (a, b) {
        (FanPoint::Rim { step: s, segments: n }, FanPoint::Rim { step: t, segments: m }) => n == m
            && n > 0 && s % n == t % n,
        _ => false,
    }
}

/// A fan of `n` segments has `3 * n` vertices, none when `n` is zero, and
/// the first vertex of every triple is the center.
pub proof fn lemma_fan_triples_start_at_center(n: u32)
    ensures
        fan_spec(n).len() == 3 * n,
        n == 0 ==> fan_spec(n) == Seq::<FanPoint>::empty(),
        forall|i: int| 0 <= i < n ==> #[trigger] fan_spec(n)[3 * i] == FanPoint::Center,
{
    assert forall|i: int| 0 <= i < n implies #[trigger] fan_spec(n)[3 * i] == FanPoint::Center by {
        assert((3 * i) % 3 == 0);
    }
    if n == 0 {
        assert(fan_spec(n) =~= Seq::<FanPoint>::empty());
    }
}

/// The two other vertices of triple `i` are rim points of the same fan, at
/// steps `i` and `i + 1`.
pub proof fn lemma_fan_triples_end_on_rim(n: u32)
    ensures
        forall|i: int|
            0 <= i < n ==> {
                &&& #[trigger] fan_spec(n)[3 * i + 1] == rim(i, n)
                &&& fan_spec(n)[3 * i + 2] == rim(i + 1, n)
            },
{
    assert forall|i: int| 0 <= i < n implies #[trigger] fan_spec(n)[3 * i + 1] == rim(i, n)
        && fan_spec(n)[3 * i + 2] == rim(i + 1, n) by {
        assert((3 * i + 1) % 3 == 1 && (3 * i + 1) / 3 == i);
        assert((3 * i + 2) % 3 == 2 && (3 * i + 2) / 3 == i);
    }
}

/// The fan has no gaps: the second point of triple `i` is the third point of
/// triple `i - 1`, taken around the circle (triple `n - 1` before triple 0).
pub proof fn lemma_fan_shares_edges(n: u32)
    ensures
        forall|i: int|
            0 <= i < n ==> same_rim_point(
                #[trigger] fan_spec(n)[3 * i + 1],
                fan_spec(n)[3 * ((i + n - 1) % (n as int)) + 2],
            ),
{
    lemma_fan_triples_end_on_rim(n);
    assert forall|i: int| 0 <= i < n implies same_rim_point(
        #[trigger] fan_spec(n)[3 * i + 1],
        fan_spec(n)[3 * ((i + n - 1) % (n as int)) + 2],
    ) by {
        let p = (i + n - 1) % (n as int);
        lemma_mod_bound(i + n - 1, n as int);
        assert(fan_spec(n)[3 * p + 2] == rim(p + 1, n));
        if i == 0 {
            lemma_small_mod((n - 1) as nat, n as nat);
            assert(p == n - 1);
            lemma_mod_self_0(n as int);
        } else {
            lemma_mod_add_multiples_vanish(i - 1, n as int);
            lemma_small_mod((i - 1) as nat, n as nat);
            assert(p == i - 1);
        }
    }
}

} // verus!
