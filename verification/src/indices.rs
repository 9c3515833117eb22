//! The two index lists over the vertex layout.
//!
//! The line list draws every triangle as a closed ring of separate segments:
//! for a triangle whose vertices start at `base` and number `m = 3 * s`, it
//! holds `base, base+1, base+1, base+2, .., base+m-1, base+m-1, base`, which
//! reads in pairs as the segments `base -> base+1`, .., `base+m-1 -> base`.
//! The triangle list holds for every triangle the first vertex of each of
//! its three edges, which are its corners A, B and C.

use vstd::prelude::*;
use vstd::arithmetic::div_mod::lemma_fundamental_div_mod_converse;
use vstd::seq_lib::{to_multiset_contains, to_multiset_remove};
use crate::error::ConfigError;
use crate::layout::{
    edge_at, lemma_position_roundtrip, position_of, slot_at, vertex_count, NormalSign, VertexSlot,
};

verus! {

/// The largest number of vertices that 16-bit indices can tell apart.
pub const MAX_VERTICES: usize = 0x1_0000;

/// The number of line indices that one triangle takes: two for each of its
/// `3 * s` segments.
pub open spec fn ring_len(s: nat) -> nat {
    6 * s
}

/// The vertex, counted within its triangle, at position `q` of the
/// triangle's run of line indices.
pub open spec fn ring_vertex(q: nat, s: nat) -> nat
    recommends
        q < ring_len(s),
{
    if q + 1 == ring_len(s) {
        0
    } else {
        (q + 1) / 2
    }
}

/// The vertex index at position `p` of the line list.
pub open spec fn line_index_at(p: nat, s: nat) -> nat
    recommends
        s > 0,
{
    (p / ring_len(s)) * (3 * s) + ring_vertex(p % ring_len(s), s)
}

/// The vertex index at position `p` of the triangle list.
pub open spec fn triangle_index_at(p: nat, s: nat) -> nat {
    (p / 3) * (3 * s) + (p % 3) * s
}

/// `list` is the line list of `n` triangles with `s` steps per edge.
pub open spec fn is_line_list(list: Seq<u16>, n: nat, s: nat) -> bool {
    &&& list.len() == n * ring_len(s)
    &&& forall|p: int| 0 <= p < list.len() ==> list[p] == line_index_at(p as nat, s)
}

/// `list` is the triangle list of `n` triangles with `s` steps per edge.
pub open spec fn is_triangle_list(list: Seq<u16>, n: nat, s: nat) -> bool {
    &&& list.len() == n * 3
    &&& forall|p: int| 0 <= p < list.len() ==> list[p] == triangle_index_at(p as nat, s)
}

/// The line list of `n` triangles with `s` steps per edge, for a layout of at
/// most `MAX_VERTICES` vertices.
pub open spec fn line_list(n: nat, s: nat) -> Seq<u16> {
    Seq::new(n * ring_len(s), |p: int| line_index_at(p as nat, s) as u16)
}

/// The triangle list of `n` triangles with `s` steps per edge, for a layout
/// of at most `MAX_VERTICES` vertices.
pub open spec fn triangle_list(n: nat, s: nat) -> Seq<u16> {
    Seq::new(n * 3, |p: int| triangle_index_at(p as nat, s) as u16)
}

/// There is one line list and one triangle list for a mesh.
pub proof fn lemma_lists_are_unique(lines: Seq<u16>, triangles: Seq<u16>, n: nat, s: nat)
    ensures
        is_line_list(lines, n, s) ==> lines == line_list(n, s),
        is_triangle_list(triangles, n, s) ==> triangles == triangle_list(n, s),
{
    if is_line_list(lines, n, s) {
        assert(lines =~= line_list(n, s));
    }
    if is_triangle_list(triangles, n, s) {
        assert(triangles =~= triangle_list(n, s));
    }
}

/// The first position of the line list that holds vertex `v`.
pub open spec fn first_occurrence(v: nat, s: nat) -> nat
    recommends
        s > 0,
{
    let local = v % (3 * s);
    (v / (3 * s)) * ring_len(s) + if local == 0 {
        0nat
    } else {
        (2 * local - 1) as nat
    }
}

/// The second position of the line list that holds vertex `v`.
pub open spec fn second_occurrence(v: nat, s: nat) -> nat
    recommends
        s > 0,
{
    let local = v % (3 * s);
    (v / (3 * s)) * ring_len(s) + if local == 0 {
        (ring_len(s) - 1) as nat
    } else {
        2 * local
    }
}

/// Position `q` of the run of triangle `t` is position `t * ring_len(s) + q`
/// of the line list and holds vertex `ring_vertex(q, s)` of that triangle.
pub proof fn lemma_line_index(t: nat, q: nat, s: nat)
    requires
        q < ring_len(s),
    ensures
        (t * ring_len(s) + q) / ring_len(s) == t,
        (t * ring_len(s) + q) % ring_len(s) == q,
        line_index_at(t * ring_len(s) + q, s) == t * (3 * s) + ring_vertex(q, s),
        ring_vertex(q, s) < 3 * s,
{
    lemma_fundamental_div_mod_converse(
        (t * ring_len(s) + q) as int,
        ring_len(s) as int,
        t as int,
        q as int,
    );
}

/// Every index of either list names a vertex of the layout.
pub proof fn lemma_indices_in_range(n: nat, s: nat, p: nat)
    requires
        s > 0,
    ensures
        p < n * ring_len(s) ==> line_index_at(p, s) < vertex_count(n, s),
        p < n * 3 ==> triangle_index_at(p, s) < vertex_count(n, s),
{
    if p < n * ring_len(s) {
        let d = ring_len(s) as int;
        let t = p as int / d;
        let q = p as int % d;
        assert(p == d * t + q && 0 <= q < d && 0 <= t) by (nonlinear_arith)
            requires
                d > 0,
                p >= 0,
                t == p as int / d,
                q == p as int % d,
        ;
        assert(t < n) by (nonlinear_arith)
            requires
                p == d * t + q,
                0 <= q,
                p < n * d,
                d > 0,
        ;
        assert(t * (3 * s) + 3 * s <= n * 3 * s) by (nonlinear_arith)
            requires
                0 <= t < n,
                s > 0,
        ;
    }
    if p < n * 3 {
        let t = p / 3;
        let c = p % 3;
        assert(t * (3 * s) + c * s < n * 3 * s) by (nonlinear_arith)
            requires
                t < n,
                c < 3,
                s > 0,
        ;
    }
}

/// The line list is symmetric: every vertex of the layout stands at exactly
/// two positions of it. The first vertex of a triangle opens and closes the
/// triangle's run; every other vertex ends one segment and starts the next.
pub proof fn lemma_each_vertex_twice(n: nat, s: nat, v: nat)
    requires
        v < vertex_count(n, s),
    ensures
        first_occurrence(v, s) < second_occurrence(v, s) < n * ring_len(s),
        forall|p: nat|
            p < n * ring_len(s) ==> (#[trigger] line_index_at(p, s) == v <==> p
                == first_occurrence(v, s) || p == second_occurrence(v, s)),
{
    assert(s > 0) by (nonlinear_arith)
        requires
            v < n * 3 * s,
    ;
    let m = (3 * s) as int;
    let d = ring_len(s) as int;
    let t = v as int / m;
    let local = v as int % m;
    assert(v == m * t + local && 0 <= local < m && 0 <= t) by (nonlinear_arith)
        requires
            m > 0,
            v >= 0,
            t == v as int / m,
            local == v as int % m,
    ;
    assert(t < n) by (nonlinear_arith)
        requires
            v == m * t + local,
            0 <= local,
            v < n * 3 * s,
            m == 3 * s,
            s > 0,
    ;
    assert(t * d + d <= n * d) by (nonlinear_arith)
        requires
            0 <= t < n,
            d > 0,
    ;
    assert forall|p: nat| p < n * ring_len(s) implies (#[trigger] line_index_at(p, s) == v <==> p
        == first_occurrence(v, s) || p == second_occurrence(v, s)) by {
        let u = p as int / d;
        let q = p as int % d;
        assert(p == d * u + q && 0 <= q < d && 0 <= u) by (nonlinear_arith)
            requires
                d > 0,
                p >= 0,
                u == p as int / d,
                q == p as int % d,
        ;
        let w = ring_vertex(q as nat, s) as int;
        assert(0 <= w < m);
        assert(line_index_at(p, s) == u * m + w);
        if line_index_at(p, s) == v {
            lemma_fundamental_div_mod_converse(v as int, m, u, w);
            assert(u == t && w == local);
            assert(p == t * d + q) by (nonlinear_arith)
                requires
                    p == d * u + q,
                    u == t,
            ;
        }
        if p == first_occurrence(v, s) || p == second_occurrence(v, s) {
            let q2 = p - t * d;
            assert(0 <= q2 < d);
            lemma_fundamental_div_mod_converse(p as int, d, t, q2);
            assert(u == t && q == q2);
            assert(w == local);
            assert(u * m + w == v) by (nonlinear_arith)
                requires
                    v == m * t + local,
                    u == t,
                    w == local,
            ;
        }
    }
}

/// A value that stands at exactly two positions of a sequence is in it twice.
proof fn lemma_count_at_two_positions<A>(list: Seq<A>, x: A, i: int, j: int)
    requires
        0 <= i < j < list.len(),
        forall|p: int| 0 <= p < list.len() ==> (list[p] == x <==> p == i || p == j),
    ensures
        list.to_multiset().count(x) == 2,
{
    broadcast use vstd::multiset::group_multiset_axioms;

    let without_j = list.remove(j);
    let without_both = without_j.remove(i);
    to_multiset_remove(list, j);
    to_multiset_remove(without_j, i);
    assert(list.contains(x)) by {
        assert(list[j] == x);
    }
    assert(without_j.contains(x)) by {
        assert(without_j[i] == x);
    }
    assert(!without_both.contains(x)) by {
        if without_both.contains(x) {
            let p = choose|p: int| 0 <= p < without_both.len() && without_both[p] == x;
            if p < i {
                assert(without_both[p] == list[p]);
            } else if p + 1 < j {
                assert(without_both[p] == list[p + 1]);
            } else {
                assert(without_both[p] == list[p + 2]);
            }
        }
    }
    to_multiset_contains(list, x);
    to_multiset_contains(without_j, x);
    to_multiset_contains(without_both, x);
}

/// Counted as a bag, the line list holds every vertex of the layout exactly
/// twice.
pub proof fn lemma_line_list_holds_each_vertex_twice(n: nat, s: nat, v: u16)
    requires
        vertex_count(n, s) <= MAX_VERTICES,
        v < vertex_count(n, s),
    ensures
        line_list(n, s).to_multiset().count(v) == 2,
{
    assert(s > 0) by (nonlinear_arith)
        requires
            v < n * 3 * s,
    ;
    lemma_each_vertex_twice(n, s, v as nat);
    let list = line_list(n, s);
    let i = first_occurrence(v as nat, s) as int;
    let j = second_occurrence(v as nat, s) as int;
    assert forall|p: int| 0 <= p < list.len() implies (list[p] == v <==> p == i || p == j) by {
        lemma_indices_in_range(n, s, p as nat);
        assert(line_index_at(p as nat, s) < MAX_VERTICES);
        assert(list[p] == line_index_at(p as nat, s));
    }
    lemma_count_at_two_positions(list, v, i, j);
}

/// Read in pairs, the line list closes a ring round every triangle: segment
/// `k` of triangle `t` runs from the triangle's vertex `k` to its vertex
/// `k + 1`, and its last segment runs back to vertex 0.
pub proof fn lemma_segments_close_ring(s: nat, t: nat, k: nat)
    requires
        k < 3 * s,
    ensures
        line_index_at(t * ring_len(s) + 2 * k, s) == t * (3 * s) + k,
        line_index_at(t * ring_len(s) + 2 * k + 1, s) == t * (3 * s) + (if k + 1 == 3 * s {
            0
        } else {
            k + 1
        }),
{
    lemma_line_index(t, 2 * k, s);
    lemma_line_index(t, 2 * k + 1, s);
}

/// The triangle list names the corners: position `p` holds the vertex at
/// which edge `p % 3` of triangle `p / 3` starts, and that edge starts at
/// corner A, B or C in turn.
pub proof fn lemma_triangle_list_names_corners(n: nat, s: nat, p: nat)
    requires
        s > 0,
        p < n * 3,
        vertex_count(n, s) <= usize::MAX,
    ensures
        triangle_index_at(p, s) == position_of(p / 3, p % 3, 0, s),
        slot_at(triangle_index_at(p, s), s) == (VertexSlot {
            triangle: (p / 3) as usize,
            edge: edge_at(p % 3),
            step: 0,
            normal: NormalSign::Zero,
        }),
{
    lemma_position_roundtrip(n, s, p / 3, p % 3, 0);
    assert(n <= n * 3 * s) by (nonlinear_arith)
        requires
            s > 0,
    ;
}

/// Builds the line list and the triangle list, in this order, for the
/// layout of `num_triangles` triangles with `subdivisions` steps per edge.
///
/// Fails exactly when `subdivisions` is 0. Otherwise the line list has
/// `num_triangles * (2 + 2 * (3 * subdivisions - 1))` entries and the
/// triangle list `num_triangles * 3`, each entry is the one that
/// `line_index_at` or `triangle_index_at` gives for its position, and each
/// names a vertex of the layout. The indices are 16 bits wide, so the layout
/// may hold at most 65536 vertices.
pub fn build_indices(num_triangles: usize, subdivisions: usize) -> (r: Result<
    (Vec<u16>, Vec<u16>),
    ConfigError,
>)
    requires
        vertex_count(num_triangles as nat, subdivisions as nat) <= MAX_VERTICES,
    ensures
        subdivisions == 0 ==> r is Err && r->Err_0 == ConfigError::ZeroSubdivisions,
        subdivisions > 0 ==> r is Ok,
        r matches Ok(lists) ==> {
            &&& is_line_list(lists.0@, num_triangles as nat, subdivisions as nat)
            &&& is_triangle_list(lists.1@, num_triangles as nat, subdivisions as nat)
            &&& lists.0@.len() == num_triangles * (2 + 2 * (3 * subdivisions - 1))
            &&& forall|p: int|
                0 <= p < lists.0@.len() ==> (#[trigger] lists.0@[p]) < vertex_count(
                    num_triangles as nat,
                    subdivisions as nat,
                )
            &&& forall|p: int|
                0 <= p < lists.1@.len() ==> (#[trigger] lists.1@[p]) < vertex_count(
                    num_triangles as nat,
                    subdivisions as nat,
                )
        },
{
    if subdivisions == 0 {
        return Err(ConfigError::ZeroSubdivisions);
    }
    let ghost n = num_triangles as nat;
    let ghost s = subdivisions as nat;
    let mut lines: Vec<u16> = Vec::new();
    let mut triangles: Vec<u16> = Vec::new();
    let mut t: usize = 0;
    while t < num_triangles
        invariant
            n == num_triangles,
            s == subdivisions,
            s > 0,
            vertex_count(n, s) <= 0x1_0000,
            t <= num_triangles,
            lines@.len() == t * ring_len(s),
            triangles@.len() == t * 3,
            forall|p: int| 0 <= p < lines@.len() ==> lines@[p] == line_index_at(p as nat, s),
            forall|p: int|
                0 <= p < triangles@.len() ==> triangles@[p] == triangle_index_at(p as nat, s),
        decreases num_triangles - t,
    {
        proof {
            assert(t * (3 * s) + 3 * s <= n * 3 * s) by (nonlinear_arith)
                requires
                    t < n,
                    s > 0,
            ;
        }
        let per_triangle: usize = 3 * subdivisions;
        assert(t * per_triangle == t * (3 * s)) by (nonlinear_arith)
            requires
                per_triangle == 3 * s,
        ;
        let base: usize = t * per_triangle;

        proof {
            lemma_line_index(t as nat, 0, s);
        }
        lines.push(base as u16);
        let mut j: usize = 1;
        while j < per_triangle
            invariant
                n == num_triangles,
                s == subdivisions,
                s > 0,
                t < num_triangles,
                per_triangle == 3 * s,
                base == t * (3 * s),
                base + per_triangle <= 0x1_0000,
                1 <= j <= per_triangle,
                lines@.len() == t * ring_len(s) + 2 * j - 1,
                forall|p: int| 0 <= p < lines@.len() ==> lines@[p] == line_index_at(p as nat, s),
            decreases per_triangle - j,
        {
            proof {
                lemma_line_index(t as nat, (2 * j - 1) as nat, s);
                lemma_line_index(t as nat, (2 * j) as nat, s);
            }
            lines.push((base + j) as u16);
            lines.push((base + j) as u16);
            j = j + 1;
        }
        proof {
            lemma_line_index(t as nat, (ring_len(s) - 1) as nat, s);
            assert(t * ring_len(s) + ring_len(s) == (t + 1) * ring_len(s)) by (nonlinear_arith);
        }
        lines.push(base as u16);

        proof {
            let p = (t * 3) as nat;
            assert(triangle_index_at(p, s) == base && triangle_index_at(p + 1, s) == base + s
                && triangle_index_at(p + 2, s) == base + 2 * s) by (nonlinear_arith)
                requires
                    p == t * 3,
                    base == t * (3 * s),
            ;
        }
        triangles.push(base as u16);
        triangles.push((base + subdivisions) as u16);
        triangles.push((base + 2 * subdivisions) as u16);
        t = t + 1;
    }
    proof {
        assert(n * ring_len(s) == n * (2 + 2 * (3 * s - 1))) by (nonlinear_arith);
        assert forall|p: int| 0 <= p < lines@.len() implies (#[trigger] lines@[p]) < vertex_count(
            n,
            s,
        ) by {
            lemma_indices_in_range(n, s, p as nat);
        }
        assert forall|p: int| 0 <= p < triangles@.len() implies (#[trigger] triangles@[p])
            < vertex_count(n, s) by {
            lemma_indices_in_range(n, s, p as nat);
        }
    }
    Ok((lines, triangles))
}

} // verus!
