//! The layout of the vertex list.
//!
//! A mesh of `n` triangles, each edge cut into `s` steps, is a list of
//! `n * 3 * s` vertices: triangle after triangle, within a triangle edge
//! after edge (A to B, B to C, C to A), within an edge step after step. The
//! end point of an edge is left out, because it is the start of the next one.
//!
//! A [`VertexSlot`] says which point of which edge a list position holds and
//! which way its normal points. The coordinates themselves are computed by
//! the caller from the three corners of the triangle.
//!
//! Normal rule: the first point of an edge is a corner of the triangle and
//! carries no normal; after it the sign alternates, starting with the
//! reversed face normal at step 1.

use vstd::prelude::*;
use vstd::arithmetic::div_mod::lemma_fundamental_div_mod_converse;
use crate::error::ConfigError;

verus! {

/// A corner of a triangle.
#[derive(Clone, Copy, Debug, PartialEq, Eq, Structural)]
pub enum Corner {
    A,
    B,
    C,
}

/// A directed edge of a triangle.
#[derive(Clone, Copy, Debug, PartialEq, Eq, Structural)]
pub enum Edge {
    AB,
    BC,
    CA,
}

/// The direction of a vertex normal, relative to the face normal
/// `normalize(cross(B - A, C - A))`.
#[derive(Clone, Copy, Debug, PartialEq, Eq, Structural)]
pub enum NormalSign {
    /// The zero vector.
    Zero,
    /// The face normal.
    Plus,
    /// The face normal reversed.
    Minus,
}

/// What one position of the vertex list holds.
#[derive(Clone, Copy, Debug, PartialEq, Eq, Structural)]
pub struct VertexSlot {
    /// The triangle, counted from 0.
    pub triangle: usize,
    /// The edge of that triangle.
    pub edge: Edge,
    /// The step along the edge: the point `start + step * (end - start) / s`.
    pub step: usize,
    /// The direction of the normal.
    pub normal: NormalSign,
}

impl Edge {
    /// The corner at which the edge starts.
    pub open spec fn start_spec(self) -> Corner {
        match self {
            Edge::AB => Corner::A,
            Edge::BC => Corner::B,
            Edge::CA => Corner::C,
        }
    }

    /// The corner at which the edge ends.
    pub open spec fn end_spec(self) -> Corner {
        match self {
            Edge::AB => Corner::B,
            Edge::BC => Corner::C,
            Edge::CA => Corner::A,
        }
    }

    /// The position of the edge within its triangle: 0, 1 or 2.
    pub open spec fn ordinal(self) -> nat {
        match self {
            Edge::AB => 0,
            Edge::BC => 1,
            Edge::CA => 2,
        }
    }

    /// The corner at which the edge starts.
    #[verifier::when_used_as_spec(start_spec)]
    pub fn start(self) -> (c: Corner)
        ensures
            c == self.start_spec(),
    {
        match self {
            Edge::AB => Corner::A,
            Edge::BC => Corner::B,
            Edge::CA => Corner::C,
        }
    }

    /// The corner at which the edge ends.
    #[verifier::when_used_as_spec(end_spec)]
    pub fn end(self) -> (c: Corner)
        ensures
            c == self.end_spec(),
    {
        match self {
            Edge::AB => Corner::B,
            Edge::BC => Corner::C,
            Edge::CA => Corner::A,
        }
    }
}

/// The edge at position `e` of a triangle.
pub open spec fn edge_at(e: nat) -> Edge {
    if e == 0 {
        Edge::AB
    } else if e == 1 {
        Edge::BC
    } else {
        Edge::CA
    }
}

/// The normal direction at step `step` of an edge.
pub open spec fn normal_at(step: nat) -> NormalSign {
    if step == 0 {
        NormalSign::Zero
    } else if step % 2 == 1 {
        NormalSign::Minus
    } else {
        NormalSign::Plus
    }
}

/// The number of vertices of `n` triangles with `s` steps per edge.
pub open spec fn vertex_count(n: nat, s: nat) -> nat {
    n * 3 * s
}

/// The list position of step `step` of edge `e` of triangle `t`.
pub open spec fn position_of(t: nat, e: nat, step: nat, s: nat) -> nat {
    t * (3 * s) + e * s + step
}

/// The slot at list position `k`, with `s` steps per edge.
pub open spec fn slot_at(k: nat, s: nat) -> VertexSlot
    recommends
        s > 0,
{
    VertexSlot {
        triangle: (k / (3 * s)) as usize,
        edge: edge_at((k % (3 * s)) / s),
        step: (k % s) as usize,
        normal: normal_at(k % s),
    }
}

/// The whole vertex layout of `n` triangles with `s` steps per edge.
pub open spec fn layout(n: nat, s: nat) -> Seq<VertexSlot> {
    Seq::new(vertex_count(n, s), |k: int| slot_at(k as nat, s))
}

/// The three edges run round the triangle: each ends at the corner at which
/// the next one starts, and the third ends where the first starts. So the
/// end point of an edge, which the layout leaves out, is the first point of
/// the edge after it.
pub proof fn lemma_edges_run_round(e: nat)
    requires
        e < 3,
    ensures
        edge_at(e).ordinal() == e,
        edge_at(e).end_spec() == edge_at((e + 1) % 3).start_spec(),
{
}

/// After the corner the normals alternate: step 1 carries the reversed face
/// normal, and every later step carries the opposite of the step before it.
pub proof fn lemma_normals_alternate(step: nat)
    requires
        step >= 1,
    ensures
        normal_at(0) == NormalSign::Zero,
        normal_at(1) == NormalSign::Minus,
        normal_at(step) != NormalSign::Zero,
        normal_at(step) != normal_at(step + 1),
        normal_at(step) == normal_at(step + 2),
{
}

/// Step `step` of edge `e` of triangle `t` stands at `position_of(t, e, step, s)`,
/// which lies inside the list, and nothing else stands there: `slot_at` takes
/// the position apart again.
pub proof fn lemma_position_roundtrip(n: nat, s: nat, t: nat, e: nat, step: nat)
    requires
        t < n,
        e < 3,
        step < s,
    ensures
        position_of(t, e, step, s) < vertex_count(n, s),
        position_of(t, e, step, s) / (3 * s) == t,
        (position_of(t, e, step, s) % (3 * s)) / s == e,
        position_of(t, e, step, s) % s == step,
        t <= usize::MAX ==> slot_at(position_of(t, e, step, s), s) == (VertexSlot {
            triangle: t as usize,
            edge: edge_at(e),
            step: step as usize,
            normal: normal_at(step),
        }),
{
    let k = position_of(t, e, step, s) as int;
    let within = (e * s + step) as int;
    assert(0 <= within < 3 * s) by (nonlinear_arith)
        requires
            e < 3,
            step < s,
            within == e * s + step,
    ;
    assert(k == t * (3 * s) + within);
    lemma_fundamental_div_mod_converse(k, 3 * s as int, t as int, within);
    lemma_fundamental_div_mod_converse(within, s as int, e as int, step as int);
    assert(k == (t * 3 + e) * s + step) by (nonlinear_arith)
        requires
            k == t * (3 * s) + e * s + step,
    ;
    lemma_fundamental_div_mod_converse(k, s as int, (t * 3 + e) as int, step as int);
    assert(k < n * 3 * s) by (nonlinear_arith)
        requires
            k == t * (3 * s) + within,
            within < 3 * s,
            t < n,
            0 < s,
    ;
}

/// Every position of the list is the position of exactly the step, edge and
/// triangle that `slot_at` names.
pub proof fn lemma_slot_in_range(n: nat, s: nat, k: nat)
    requires
        k < vertex_count(n, s),
    ensures
        s > 0,
        k / (3 * s) < n,
        (k % (3 * s)) / s < 3,
        k % s < s,
        k <= usize::MAX ==> slot_at(k, s).triangle == k / (3 * s) && slot_at(k, s).step == k % s,
        position_of(k / (3 * s), (k % (3 * s)) / s, k % s, s) == k,
{
    assert(s > 0) by (nonlinear_arith)
        requires
            k < n * 3 * s,
    ;
    let d = (3 * s) as int;
    let t = k as int / d;
    let within = k as int % d;
    let e = within / (s as int);
    let step = within % (s as int);
    assert(k == d * t + within && 0 <= within < d && 0 <= t) by (nonlinear_arith)
        requires
            d > 0,
            k >= 0,
            t == k as int / d,
            within == k as int % d,
    ;
    assert(within == s * e + step && 0 <= step < s && 0 <= e) by (nonlinear_arith)
        requires
            s > 0,
            within >= 0,
            e == within / (s as int),
            step == within % (s as int),
    ;
    assert(e < 3) by (nonlinear_arith)
        requires
            within == s * e + step,
            within < 3 * s,
            0 <= step,
            s > 0,
    ;
    assert(t < n) by (nonlinear_arith)
        requires
            k == d * t + within,
            0 <= within,
            d == 3 * s,
            k < n * 3 * s,
            s > 0,
    ;
    assert(k == (t * 3 + e) * s + step) by (nonlinear_arith)
        requires
            k == d * t + within,
            d == 3 * s,
            within == s * e + step,
    ;
    lemma_fundamental_div_mod_converse(k as int, s as int, t * 3 + e, step);
    assert(k == t * (3 * s) + e * s + step) by (nonlinear_arith)
        requires
            k == (t * 3 + e) * s + step,
    ;
}

/// The edge at position `e` of a triangle.
fn edge_of(e: usize) -> (edge: Edge)
    requires
        e < 3,
    ensures
        edge == edge_at(e as nat),
{
    if e == 0 {
        Edge::AB
    } else if e == 1 {
        Edge::BC
    } else {
        Edge::CA
    }
}

/// The normal direction at step `step` of an edge.
fn normal_of(step: usize) -> (sign: NormalSign)
    ensures
        sign == normal_at(step as nat),
{
    if step == 0 {
        NormalSign::Zero
    } else if step % 2 == 1 {
        NormalSign::Minus
    } else {
        NormalSign::Plus
    }
}

/// The number of vertices of `num_triangles` triangles with `subdivisions`
/// steps per edge, or `None` if that number does not fit the machine word.
pub fn vertex_total(num_triangles: usize, subdivisions: usize) -> (total: Option<usize>)
    ensures
        vertex_count(num_triangles as nat, subdivisions as nat) <= usize::MAX ==> total == Some(
            vertex_count(num_triangles as nat, subdivisions as nat) as usize,
        ),
        vertex_count(num_triangles as nat, subdivisions as nat) > usize::MAX ==> total is None,
{
    if subdivisions == 0 {
        assert(num_triangles * 3 * 0 == 0);
        return Some(0);
    }
    match num_triangles.checked_mul(3) {
        None => {
            assert(num_triangles * 3 * subdivisions > usize::MAX) by (nonlinear_arith)
                requires
                    num_triangles * 3 > usize::MAX,
                    subdivisions > 0,
            ;
            None
        },
        Some(corners) => corners.checked_mul(subdivisions),
    }
}

/// Lays out the vertex list of `num_triangles` triangles whose edges are cut
/// into `subdivisions` steps each.
///
/// Fails exactly when `subdivisions` is 0. Otherwise the list holds
/// `num_triangles * 3 * subdivisions` slots, and position `k` holds
/// `slot_at(k, subdivisions)`. No triangles give an empty list.
pub fn generate(num_triangles: usize, subdivisions: usize) -> (r: Result<
    Vec<VertexSlot>,
    ConfigError,
>)
    requires
        vertex_count(num_triangles as nat, subdivisions as nat) <= usize::MAX,
    ensures
        subdivisions == 0 ==> r is Err && r->Err_0 == ConfigError::ZeroSubdivisions,
        subdivisions > 0 ==> r is Ok && r->Ok_0@ == layout(
            num_triangles as nat,
            subdivisions as nat,
        ),
        r is Ok ==> r->Ok_0@.len() == num_triangles * 3 * subdivisions,
{
    if subdivisions == 0 {
        return Err(ConfigError::ZeroSubdivisions);
    }
    let ghost n = num_triangles as nat;
    let ghost s = subdivisions as nat;
    let mut out: Vec<VertexSlot> = Vec::new();
    let mut t: usize = 0;
    while t < num_triangles
        invariant
            s == subdivisions,
            n == num_triangles,
            s > 0,
            vertex_count(n, s) <= usize::MAX,
            t <= num_triangles,
            out@.len() == position_of(t as nat, 0, 0, s),
            forall|k: int| 0 <= k < out@.len() ==> out@[k] == slot_at(k as nat, s),
        decreases num_triangles - t,
    {
        let mut e: usize = 0;
        while e < 3
            invariant
                s == subdivisions,
                n == num_triangles,
                s > 0,
                vertex_count(n, s) <= usize::MAX,
                t < num_triangles,
                e <= 3,
                out@.len() == position_of(t as nat, e as nat, 0, s),
                forall|k: int| 0 <= k < out@.len() ==> out@[k] == slot_at(k as nat, s),
            decreases 3 - e,
        {
            let edge = edge_of(e);
            let mut step: usize = 0;
            while step < subdivisions
                invariant
                    s == subdivisions,
                    n == num_triangles,
                    s > 0,
                    vertex_count(n, s) <= usize::MAX,
                    t < num_triangles,
                    e < 3,
                    edge == edge_at(e as nat),
                    step <= subdivisions,
                    out@.len() == position_of(t as nat, e as nat, step as nat, s),
                    forall|k: int| 0 <= k < out@.len() ==> out@[k] == slot_at(k as nat, s),
                decreases subdivisions - step,
            {
                proof {
                    lemma_position_roundtrip(n, s, t as nat, e as nat, step as nat);
                }
                out.push(VertexSlot { triangle: t, edge, step, normal: normal_of(step) });
                step = step + 1;
            }
            proof {
                assert(position_of(t as nat, e as nat, s, s) == position_of(
                    t as nat,
                    (e + 1) as nat,
                    0,
                    s,
                )) by (nonlinear_arith);
            }
            e = e + 1;
        }
        proof {
            assert(position_of(t as nat, 3, 0, s) == position_of((t + 1) as nat, 0, 0, s))
                by (nonlinear_arith);
        }
        t = t + 1;
    }
    proof {
        assert(position_of(n, 0, 0, s) == vertex_count(n, s)) by (nonlinear_arith);
        assert(out@ =~= layout(n, s));
    }
    Ok(out)
}

/// `made` holds, position by position, what `make` returns for the slots of
/// `slots`.
pub open spec fn made_from<T, F: Fn(VertexSlot) -> T>(
    made: Seq<T>,
    slots: Seq<VertexSlot>,
    make: F,
) -> bool {
    &&& made.len() == slots.len()
    &&& forall|k: int| 0 <= k < slots.len() ==> make.ensures((#[trigger] slots[k],), made[k])
}

/// Builds the vertex list of `num_triangles` triangles whose edges are cut
/// into `subdivisions` steps each: `make` is called once for every slot of
/// the layout, in the order of the list, and its results are the vertices.
///
/// Fails exactly when `subdivisions` is 0, and then `make` is not called.
pub fn generate_with<T, F: Fn(VertexSlot) -> T>(
    num_triangles: usize,
    subdivisions: usize,
    make: &F,
) -> (r: Result<Vec<T>, ConfigError>)
    requires
        vertex_count(num_triangles as nat, subdivisions as nat) <= usize::MAX,
        forall|k: int|
            0 <= k < vertex_count(num_triangles as nat, subdivisions as nat) ==> make.requires(
                (#[trigger] layout(num_triangles as nat, subdivisions as nat)[k],),
            ),
    ensures
        subdivisions == 0 ==> r is Err && r->Err_0 == ConfigError::ZeroSubdivisions,
        subdivisions > 0 ==> r is Ok && made_from(
            r->Ok_0@,
            layout(num_triangles as nat, subdivisions as nat),
            *make,
        ),
        r is Ok ==> r->Ok_0@.len() == num_triangles * 3 * subdivisions,
{
    let slots = match generate(num_triangles, subdivisions) {
        Ok(slots) => slots,
        Err(e) => {
            return Err(e);
        },
    };
    let mut made: Vec<T> = Vec::new();
    let mut k: usize = 0;
    while k < slots.len()
        invariant
            slots@ == layout(num_triangles as nat, subdivisions as nat),
            slots@.len() == vertex_count(num_triangles as nat, subdivisions as nat),
            forall|j: int| 0 <= j < slots@.len() ==> make.requires((#[trigger] slots@[j],)),
            k <= slots@.len(),
            made@.len() == k,
            forall|j: int| 0 <= j < k ==> make.ensures((#[trigger] slots@[j],), made@[j]),
        decreases slots@.len() - k,
    {
        let vertex = make(slots[k]);
        made.push(vertex);
        k = k + 1;
    }
    Ok(made)
}

} // verus!
