//! Brushes: convex polyhedra given by their corners and triangular sides, each side
//! carrying a material, and the text that a Quake 3 map file holds for them.

use vstd::prelude::*;
use glam::DVec3;
use crate::hull::{
    HullErrorKind, convex_hull, corners_from, hull_error_view, hull_of, hull_outcome,
};
use crate::vector::{all_convertible, coords_text, format_coords};

verus! {

/// The texture of a side when none is chosen.
pub open spec fn default_texture() -> Seq<char> {
    "mtrl/invisible"@
}

/// The plane of a side, given by three points on it.
#[derive(Debug, Default, Clone, Copy, PartialEq)]
pub struct SideGeom(pub [DVec3; 3]);

/// The material of a side.
#[derive(Debug, PartialEq)]
pub struct SideMtrl {
    pub texture: String,
}

impl Default for SideMtrl {
    /// The default material: the invisible texture.
    fn default() -> (m: SideMtrl)
        ensures
            m.texture@ == default_texture(),
    {
        SideMtrl { texture: String::from_str("mtrl/invisible") }
    }
}

impl Clone for SideMtrl {
    fn clone(&self) -> (m: SideMtrl)
        ensures
            m.texture@ == self.texture@,
    {
        SideMtrl { texture: self.texture.clone() }
    }
}

/// One side of a brush: its plane and its material.
#[derive(Debug, Default, PartialEq)]
pub struct Side {
    pub geom: SideGeom,
    pub mtrl: SideMtrl,
}

impl Clone for Side {
    fn clone(&self) -> (s: Side)
        ensures
            s.geom == self.geom,
            s.mtrl.texture@ == self.mtrl.texture@,
    {
        Side { geom: self.geom, mtrl: self.mtrl.clone() }
    }
}

/// The text of a side in a map file: its three points, its texture, and the texture's
/// offset, rotation and scale.
pub open spec fn side_text(geom: SideGeom, texture: Seq<char>) -> Seq<char> {
    "( "@ + coords_text(geom.0[0]) + " ) ( "@ + coords_text(geom.0[1]) + " ) ( "@
        + coords_text(geom.0[2]) + " ) "@ + texture + " 0 0 0 0.5 0.5 0"@
}

impl Side {
    /// The text of this side in a map file.
    pub fn bake(&self) -> (s: String)
        ensures
            s@ == side_text(self.geom, self.mtrl.texture@),
    {
        let mut s = String::from_str("( ");
        s.append(format_coords(&self.geom.0[0]).as_str());
        s.append(" ) ( ");
        s.append(format_coords(&self.geom.0[1]).as_str());
        s.append(" ) ( ");
        s.append(format_coords(&self.geom.0[2]).as_str());
        s.append(" ) ");
        s.append(self.mtrl.texture.as_str());
        s.append(" 0 0 0 0.5 0.5 0");
        s
    }
}

/// The plane through three of the `vertices`, named by their indices.
pub open spec fn side_geom(vertices: Seq<DVec3>, tri: [usize; 3]) -> SideGeom {
    SideGeom([vertices[tri[0] as int], vertices[tri[1] as int], vertices[tri[2] as int]])
}

/// The triangles that a list of indices describes, three consecutive indices each; indices
/// after the last full triple are left out.
pub open spec fn triangles(indices: Seq<usize>) -> Seq<[usize; 3]> {
    Seq::new(
        (indices.len() / 3) as nat,
        |t: int| [indices[3 * t], indices[3 * t + 1], indices[3 * t + 2]],
    )
}

/// The items of `items` whose flag in `keep` is set, in order.
pub open spec fn select<A>(items: Seq<A>, keep: Seq<bool>) -> Seq<A>
    decreases items.len(),
{
    if items.len() == 0 {
        seq![]
    } else {
        let rest = select(items.drop_last(), keep.drop_last());
        if keep.last() {
            rest.push(items.last())
        } else {
            rest
        }
    }
}

/// Every index names one of `n` vertices.
pub open spec fn indices_below(indices: Seq<usize>, n: nat) -> bool {
    forall|k: int| 0 <= k < indices.len() ==> (#[trigger] indices[k] as int) < n
}

/// Every corner of every triangle names one of `n` vertices.
pub open spec fn triangles_below(tris: Seq<[usize; 3]>, n: nat) -> bool {
    forall|i: int, j: int| 0 <= i < tris.len() && 0 <= j < 3 ==> (#[trigger] tris[i][j] as int) < n
}

/// `keep` records which triangles survive when each triangle, in order, is compared with
/// `equivalent` to every triangle kept before it: a triangle is kept when every comparison
/// answered `false`, and dropped when one answered `true`. The comparison is made as
/// `equivalent(candidate, earlier)`.
pub open spec fn dedup_against_kept<F: Fn(SideGeom, SideGeom) -> bool>(
    equivalent: F,
    vertices: Seq<DVec3>,
    tris: Seq<[usize; 3]>,
    keep: Seq<bool>,
) -> bool {
    &&& keep.len() == tris.len()
    &&& forall|t: int|
        #![trigger keep[t]]
        0 <= t < tris.len() ==> {
            let earlier = select(tris.take(t), keep.take(t));
            let cand = side_geom(vertices, tris[t]);
            &&& (keep[t] ==> forall|a: int|
                0 <= a < earlier.len() ==> equivalent.ensures(
                    (cand, side_geom(vertices, #[trigger] earlier[a])),
                    false,
                ))
            &&& (!keep[t] ==> exists|a: int|
                0 <= a < earlier.len() && equivalent.ensures(
                    (cand, side_geom(vertices, #[trigger] earlier[a])),
                    true,
                ))
        }
}

/// Where an item that `select` keeps comes from: a kept position `t` holding it, such that
/// what is kept before it is what `select` keeps of the items before `t`.
pub proof fn lemma_select_source<A>(items: Seq<A>, keep: Seq<bool>, b: int) -> (t: int)
    requires
        items.len() == keep.len(),
        0 <= b < select(items, keep).len(),
    ensures
        0 <= t < items.len(),
        keep[t],
        items[t] == select(items, keep)[b],
        select(items, keep).take(b) == select(items.take(t), keep.take(t)),
    decreases items.len(),
{
    let n = items.len() - 1;
    let rest = select(items.drop_last(), keep.drop_last());
    if b < rest.len() {
        let t = lemma_select_source(items.drop_last(), keep.drop_last(), b);
        assert(items.drop_last().take(t) =~= items.take(t));
        assert(keep.drop_last().take(t) =~= keep.take(t));
        assert(select(items, keep).take(b) =~= rest.take(b));
        t
    } else {
        assert(items.take(n) =~= items.drop_last());
        assert(keep.take(n) =~= keep.drop_last());
        assert(select(items, keep).take(b) =~= rest);
        n
    }
}

proof fn lemma_select_push<A>(items: Seq<A>, keep: Seq<bool>, x: A, b: bool)
    requires
        items.len() == keep.len(),
    ensures
        select(items.push(x), keep.push(b)) == if b {
            select(items, keep).push(x)
        } else {
            select(items, keep)
        },
{
    assert(items.push(x).drop_last() =~= items);
    assert(keep.push(b).drop_last() =~= keep);
}

/// The prefix of a deduplication record is the record of the prefix.
proof fn lemma_dedup_prefix<F: Fn(SideGeom, SideGeom) -> bool>(
    equivalent: F,
    vertices: Seq<DVec3>,
    tris: Seq<[usize; 3]>,
    keep: Seq<bool>,
)
    requires
        dedup_against_kept(equivalent, vertices, tris, keep),
        tris.len() > 0,
    ensures
        dedup_against_kept(equivalent, vertices, tris.drop_last(), keep.drop_last()),
{
    let t2 = tris.drop_last();
    let k2 = keep.drop_last();
    assert forall|t: int| 0 <= t < t2.len() implies {
        let earlier = select(t2.take(t), k2.take(t));
        let cand = side_geom(vertices, t2[t]);
        &&& (#[trigger] k2[t] ==> forall|a: int|
            0 <= a < earlier.len() ==> equivalent.ensures(
                (cand, side_geom(vertices, #[trigger] earlier[a])),
                false,
            ))
        &&& (!k2[t] ==> exists|a: int|
            0 <= a < earlier.len() && equivalent.ensures(
                (cand, side_geom(vertices, #[trigger] earlier[a])),
                true,
            ))
    } by {
        assert(t2.take(t) =~= tris.take(t));
        assert(k2.take(t) =~= keep.take(t));
        assert(k2[t] == keep[t]);
        assert(t2[t] == tris[t]);
    }
}

/// Deduplication leaves no two sides that were found equivalent: of any two triangles it
/// keeps, comparing the later one with the earlier one answered `false`.
pub proof fn lemma_kept_triangles_unlike<F: Fn(SideGeom, SideGeom) -> bool>(
    equivalent: F,
    vertices: Seq<DVec3>,
    tris: Seq<[usize; 3]>,
    keep: Seq<bool>,
)
    requires
        dedup_against_kept(equivalent, vertices, tris, keep),
    ensures
        forall|a: int, b: int|
            0 <= a < b < select(tris, keep).len() ==> equivalent.ensures(
                (
                    side_geom(vertices, #[trigger] select(tris, keep)[b]),
                    side_geom(vertices, #[trigger] select(tris, keep)[a]),
                ),
                false,
            ),
    decreases tris.len(),
{
    if tris.len() > 0 {
        let n = tris.len() - 1;
        lemma_dedup_prefix(equivalent, vertices, tris, keep);
        lemma_kept_triangles_unlike(equivalent, vertices, tris.drop_last(), keep.drop_last());
        let rest = select(tris.drop_last(), keep.drop_last());
        assert(tris.take(n) =~= tris.drop_last());
        assert(keep.take(n) =~= keep.drop_last());
        assert(keep[n] == keep.last());
        if keep.last() {
            assert(select(tris, keep) == rest.push(tris.last()));
            assert forall|a: int, b: int|
                0 <= a < b < select(tris, keep).len() implies equivalent.ensures(
                    (
                        side_geom(vertices, #[trigger] select(tris, keep)[b]),
                        side_geom(vertices, #[trigger] select(tris, keep)[a]),
                    ),
                    false,
                ) by {
                if b == rest.len() {
                    assert(select(tris, keep)[b] == tris[n]);
                    assert(select(tris, keep)[a] == rest[a]);
                } else {
                    assert(select(tris, keep)[b] == rest[b]);
                    assert(select(tris, keep)[a] == rest[a]);
                }
            }
        }
    }
}

/// Groups `indices` into triangles and keeps each triangle that `equivalent` finds unlike
/// every triangle kept before it.
fn dedup_triangles<F: Fn(SideGeom, SideGeom) -> bool>(
    vertices: &Vec<DVec3>,
    indices: &Vec<usize>,
    equivalent: &F,
) -> (kept: Vec<[usize; 3]>)
    requires
        indices_below(indices@, vertices@.len()),
        forall|a: SideGeom, b: SideGeom| equivalent.requires((a, b)),
    ensures
        exists|keep: Seq<bool>|
            dedup_against_kept(*equivalent, vertices@, triangles(indices@), keep)
                && kept@ == select(triangles(indices@), keep),
        triangles_below(kept@, vertices@.len()),
{
    let ghost tris = triangles(indices@);
    let ghost mut keep: Seq<bool> = seq![];
    let n = indices.len();
    let m = n / 3;
    let mut kept: Vec<[usize; 3]> = Vec::new();
    let mut t: usize = 0;
    assert(tris.take(0) =~= Seq::<[usize; 3]>::empty());
    while t < m
        invariant
            m == tris.len(),
            3 * m <= n,
            n == indices@.len(),
            tris == triangles(indices@),
            indices_below(indices@, vertices@.len()),
            forall|a: SideGeom, b: SideGeom| equivalent.requires((a, b)),
            t <= m,
            keep.len() == t,
            kept@ == select(tris.take(t as int), keep),
            dedup_against_kept(*equivalent, vertices@, tris.take(t as int), keep),
            triangles_below(kept@, vertices@.len()),
        decreases m - t,
    {
        assert(3 * t + 2 < n);
        let base = 3 * t;
        let tri = [indices[base], indices[base + 1], indices[base + 2]];
        assert(tri == tris[t as int]);
        let side1 = SideGeom([vertices[tri[0]], vertices[tri[1]], vertices[tri[2]]]);
        let mut unique = true;
        let mut a: usize = 0;
        while a < kept.len()
            invariant
                forall|x: SideGeom, y: SideGeom| equivalent.requires((x, y)),
                triangles_below(kept@, vertices@.len()),
                a <= kept@.len(),
                unique ==> forall|b: int|
                    0 <= b < a ==> equivalent.ensures(
                        (side1, side_geom(vertices@, #[trigger] kept@[b])),
                        false,
                    ),
                !unique ==> exists|b: int|
                    0 <= b < a && equivalent.ensures(
                        (side1, side_geom(vertices@, #[trigger] kept@[b])),
                        true,
                    ),
            decreases kept@.len() - a,
        {
            let s = kept[a];
            let side2 = SideGeom([vertices[s[0]], vertices[s[1]], vertices[s[2]]]);
            assert(side2 == side_geom(vertices@, kept@[a as int]));
            let same = equivalent(side1, side2);
            if same {
                unique = false;
            }
            a = a + 1;
        }
        proof {
            let ghost old_keep = keep;
            let ghost prev = tris.take(t as int);
            let ghost next = tris.take(t + 1);
            assert(next =~= prev.push(tri));
            lemma_select_push(prev, old_keep, tri, unique);
            keep = old_keep.push(unique);
            assert forall|u: int| 0 <= u < next.len() implies {
                let earlier = select(next.take(u), keep.take(u));
                let cand = side_geom(vertices@, next[u]);
                &&& (#[trigger] keep[u] ==> forall|b: int|
                    0 <= b < earlier.len() ==> equivalent.ensures(
                        (cand, side_geom(vertices@, #[trigger] earlier[b])),
                        false,
                    ))
                &&& (!keep[u] ==> exists|b: int|
                    0 <= b < earlier.len() && equivalent.ensures(
                        (cand, side_geom(vertices@, #[trigger] earlier[b])),
                        true,
                    ))
            } by {
                if u < t {
                    assert(next.take(u) =~= prev.take(u));
                    assert(keep.take(u) =~= old_keep.take(u));
                    assert(next[u] == prev[u]);
                    assert(keep[u] == old_keep[u]);
                } else {
                    assert(next.take(u) =~= prev);
                    assert(keep.take(u) =~= old_keep);
                    assert(next[u] == tri);
                }
            }
            assert(dedup_against_kept(*equivalent, vertices@, next, keep));
        }
        if unique {
            kept.push(tri);
        }
        t = t + 1;
    }
    assert(tris.take(m as int) =~= tris);
    kept
}

/// The lines of the given sides in a map file, each ended by a line feed.
pub open spec fn sides_text(sides: Seq<(SideGeom, Seq<char>)>) -> Seq<char>
    decreases sides.len(),
{
    if sides.len() == 0 {
        seq![]
    } else {
        sides_text(sides.drop_last()) + side_text(sides.last().0, sides.last().1) + "\n"@
    }
}

/// A convex polyhedron: its corners, and its sides as triples of corner indices with a
/// material each.
#[derive(Debug)]
pub struct Brush {
    vertices: Vec<DVec3>,
    sides: Vec<([usize; 3], SideMtrl)>,
}

/// A brush as seen from outside: its corners, and for each side the indices of its three
/// corners and its texture.
pub type BrushView = (Seq<DVec3>, Seq<([usize; 3], Seq<char>)>);

/// The sides of a brush as they are stored: the texture of a material is what is seen of it.
pub open spec fn sides_view(sides: Seq<([usize; 3], SideMtrl)>) -> Seq<([usize; 3], Seq<char>)> {
    sides.map_values(|s: ([usize; 3], SideMtrl)| (s.0, s.1.texture@))
}

/// Each of `tris` with the default texture.
pub open spec fn with_default_texture(tris: Seq<[usize; 3]>) -> Seq<([usize; 3], Seq<char>)> {
    tris.map_values(|t: [usize; 3]| (t, default_texture()))
}

/// A brush that was built from a hull with the given corners and triangle indices: it has
/// those corners, and its sides are the triangles that survive the comparison with
/// `equivalent` (see `dedup_against_kept`), each with the default texture.
pub open spec fn built_from_hull<F: Fn(SideGeom, SideGeom) -> bool>(
    brush: BrushView,
    equivalent: F,
    vertices: Seq<DVec3>,
    indices: Seq<usize>,
) -> bool {
    &&& brush.0 == vertices
    &&& exists|keep: Seq<bool>|
        dedup_against_kept(equivalent, vertices, triangles(indices), keep)
            && brush.1 == with_default_texture(select(triangles(indices), keep))
}

/// The sides of a brush, each made from its corner indices and texture.
pub open spec fn sides_of(brush: BrushView) -> Seq<(SideGeom, Seq<char>)> {
    brush.1.map_values(|s: ([usize; 3], Seq<char>)| (side_geom(brush.0, s.0), s.1))
}

/// The text of a brush in a map file: an opening brace, its sides one per line, and a
/// closing brace, each line ended by a line feed.
pub open spec fn brush_text(brush: BrushView) -> Seq<char> {
    "{\n"@ + sides_text(sides_of(brush)) + "}\n"@
}

/// No brush built from a hull has two sides that were found equivalent: of any two of its
/// sides, comparing the later one with the earlier one answered `false`.
pub proof fn lemma_brush_sides_unlike<F: Fn(SideGeom, SideGeom) -> bool>(
    brush: BrushView,
    equivalent: F,
    vertices: Seq<DVec3>,
    indices: Seq<usize>,
)
    requires
        built_from_hull(brush, equivalent, vertices, indices),
    ensures
        forall|a: int, b: int|
            0 <= a < b < brush.1.len() ==> equivalent.ensures(
                (#[trigger] sides_of(brush)[b].0, #[trigger] sides_of(brush)[a].0),
                false,
            ),
{
    let keep = choose|keep: Seq<bool>|
        dedup_against_kept(equivalent, vertices, triangles(indices), keep)
            && brush.1 == with_default_texture(select(triangles(indices), keep));
    lemma_kept_triangles_unlike(equivalent, vertices, triangles(indices), keep);
    let kept = select(triangles(indices), keep);
    assert forall|a: int, b: int| 0 <= a < b < brush.1.len() implies equivalent.ensures(
        (#[trigger] sides_of(brush)[b].0, #[trigger] sides_of(brush)[a].0),
        false,
    ) by {
        assert(brush.1[a].0 == kept[a]);
        assert(brush.1[b].0 == kept[b]);
        assert(sides_of(brush)[a].0 == side_geom(vertices, kept[a]));
        assert(sides_of(brush)[b].0 == side_geom(vertices, kept[b]));
    }
}

/// A copy of the points, in order.
pub(crate) fn copy_points(v: &Vec<DVec3>) -> (r: Vec<DVec3>)
    ensures
        r@ == v@,
{
    let mut r: Vec<DVec3> = Vec::new();
    let mut i: usize = 0;
    while i < v.len()
        invariant
            i <= v@.len(),
            r@ == v@.take(i as int),
        decreases v@.len() - i,
    {
        r.push(v[i]);
        assert(v@.take(i + 1) =~= v@.take(i as int).push(v@[i as int]));
        i = i + 1;
    }
    assert(v@.take(i as int) =~= v@);
    r
}

/// A copy of the sides, in order: the same corner indices and textures.
pub(crate) fn copy_sides(v: &Vec<([usize; 3], SideMtrl)>) -> (r: Vec<([usize; 3], SideMtrl)>)
    ensures
        sides_view(r@) == sides_view(v@),
        r@.len() == v@.len(),
        forall|i: int| 0 <= i < r@.len() ==> (#[trigger] r@[i]).0 == v@[i].0,
{
    let mut r: Vec<([usize; 3], SideMtrl)> = Vec::new();
    let mut i: usize = 0;
    while i < v.len()
        invariant
            i <= v@.len(),
            r@.len() == i,
            forall|k: int| 0 <= k < i ==> (#[trigger] r@[k]).0 == v@[k].0 && r@[k].1.texture@
                == v@[k].1.texture@,
        decreases v@.len() - i,
    {
        r.push((v[i].0, v[i].1.clone()));
        i = i + 1;
    }
    assert(sides_view(r@) =~= sides_view(v@));
    r
}

impl Clone for Brush {
    fn clone(&self) -> (r: Brush)
        ensures
            r@ == self@,
    {
        proof { use_type_invariant(self); }
        let vertices = copy_points(&self.vertices);
        let sides = copy_sides(&self.sides);
        assert forall|i: int, j: int| 0 <= i < sides@.len() && 0 <= j < 3 implies (#[trigger] sides@[i].0[j]
            as int) < vertices@.len() by {
            assert(sides@[i].0 == self.sides@[i].0);
        }
        Brush { vertices, sides }
    }
}

impl View for Brush {
    type V = BrushView;

    closed spec fn view(&self) -> BrushView {
        (self.vertices@, sides_view(self.sides@))
    }
}

impl Brush {
    /// Every side names three of the brush's corners.
    #[verifier::type_invariant]
    closed spec fn well_formed(self) -> bool {
        forall|i: int, j: int|
            0 <= i < self.sides@.len() && 0 <= j < 3 ==> (#[trigger] self.sides@[i].0[j] as int)
                < self.vertices@.len()
    }

    /// Every side of the brush names three of its corners.
    pub open spec fn sides_in_range(brush: BrushView) -> bool {
        forall|i: int, j: int|
            0 <= i < brush.1.len() && 0 <= j < 3 ==> (#[trigger] brush.1[i].0[j] as int)
                < brush.0.len()
    }

    /// The brush made of a hull's corners and triangles (the hull's facets, three corner
    /// indices each). A triangle equivalent to one already taken is left out, as decided by
    /// `equivalent(candidate, earlier)`; every side gets the default material. Indices after
    /// the last full triple are ignored.
    pub fn from_hull_parts<F: Fn(SideGeom, SideGeom) -> bool>(
        vertices: Vec<DVec3>,
        indices: Vec<usize>,
        equivalent: &F,
    ) -> (brush: Brush)
        requires
            indices_below(indices@, vertices@.len()),
            forall|a: SideGeom, b: SideGeom| equivalent.requires((a, b)),
        ensures
            built_from_hull(brush@, *equivalent, vertices@, indices@),
            Self::sides_in_range(brush@),
    {
        let kept = dedup_triangles(&vertices, &indices, equivalent);
        let mut sides: Vec<([usize; 3], SideMtrl)> = Vec::new();
        let mut i: usize = 0;
        while i < kept.len()
            invariant
                i <= kept@.len(),
                sides@.len() == i,
                triangles_below(kept@, vertices@.len()),
                forall|k: int| 0 <= k < i ==> (#[trigger] sides@[k]).0 == kept@[k]
                    && sides@[k].1.texture@ == default_texture(),
            decreases kept@.len() - i,
        {
            sides.push((kept[i], SideMtrl::default()));
            i = i + 1;
        }
        assert(sides_view(sides@) =~= with_default_texture(kept@));
        let brush = Brush { vertices, sides };
        brush
    }

    /// The brush that is the convex hull of `vertices`, computed by chull with at most
    /// `max_iter` steps where given. Sides that `equivalent` finds to duplicate an earlier
    /// side are dropped (see `from_hull_parts`). It fails as chull does, and always on three
    /// or fewer points: `Empty` on none, `Degenerated` on one to three.
    pub fn try_from_vertices<F: Fn(SideGeom, SideGeom) -> bool>(
        vertices: &[DVec3],
        max_iter: Option<usize>,
        equivalent: &F,
    ) -> (r: Result<Brush, chull::ErrorKind>)
        requires
            all_convertible(vertices@),
            forall|a: SideGeom, b: SideGeom| equivalent.requires((a, b)),
        ensures
            vertices@.len() == 0 ==> r is Err && hull_error_view(r->Err_0) == HullErrorKind::Empty,
            1 <= vertices@.len() <= 3 ==> r is Err && hull_error_view(r->Err_0)
                == HullErrorKind::Degenerated,
            r matches Ok(brush) ==> exists|hv: Seq<DVec3>, hi: Seq<usize>|
                hull_of(vertices@, max_iter, hv, hi) && built_from_hull(brush@, *equivalent, hv, hi),
            r matches Err(e) ==> hull_outcome(vertices@, max_iter, Err(e)),
    {
        match convex_hull(vertices, max_iter) {
            Ok((hv, hi)) => {
                let ghost hvv = hv@;
                let ghost hiv = hi@;
                let brush = Self::from_hull_parts(hv, hi, equivalent);
                assert(corners_from(vertices@, hvv));
                assert(hull_of(vertices@, max_iter, hvv, hiv));
                Ok(brush)
            },
            Err(e) => Err(e),
        }
    }

    /// The corners of the brush and its sides as stored.
    pub fn side_vertex_indices(&self) -> (r: (&Vec<DVec3>, &Vec<([usize; 3], SideMtrl)>))
        ensures
            r.0@ == self@.0,
            sides_view(r.1@) == self@.1,
    {
        (&self.vertices, &self.sides)
    }

    /// The sides of the brush, each with its plane through its three corners.
    pub fn to_sides_iter(&self) -> (r: Vec<Side>)
        ensures
            r@.len() == self@.1.len(),
            forall|i: int| 0 <= i < r@.len() ==> (#[trigger] r@[i]).geom == sides_of(self@)[i].0
                && r@[i].mtrl.texture@ == sides_of(self@)[i].1,
    {
        proof { use_type_invariant(self); }
        let mut r: Vec<Side> = Vec::new();
        let mut i: usize = 0;
        while i < self.sides.len()
            invariant
                i <= self.sides@.len(),
                r@.len() == i,
                forall|k: int| 0 <= k < i ==> (#[trigger] r@[k]).geom == sides_of(self@)[k].0
                    && r@[k].mtrl.texture@ == sides_of(self@)[k].1,
                forall|a: int, b: int|
                    0 <= a < self.sides@.len() && 0 <= b < 3 ==> (#[trigger] self.sides@[a].0[b] as int)
                        < self.vertices@.len(),
            decreases self.sides@.len() - i,
        {
            let idx = self.sides[i].0;
            let geom = SideGeom([self.vertices[idx[0]], self.vertices[idx[1]], self.vertices[idx[2]]]);
            r.push(Side { geom, mtrl: self.sides[i].1.clone() });
            i = i + 1;
        }
        r
    }

    /// The sides of the brush, as `to_sides_iter` gives them, consuming the brush.
    pub fn into_sides_iter(self) -> (r: Vec<Side>)
        ensures
            r@.len() == self@.1.len(),
            forall|i: int| 0 <= i < r@.len() ==> (#[trigger] r@[i]).geom == sides_of(self@)[i].0
                && r@[i].mtrl.texture@ == sides_of(self@)[i].1,
    {
        self.to_sides_iter()
    }

    /// The text of the brush in a map file: its sides, one per line, between braces.
    pub fn bake(&self) -> (s: String)
        ensures
            s@ == brush_text(self@),
    {
        let sides = self.to_sides_iter();
        let ghost all = sides_of(self@);
        let mut s = String::from_str("{\n");
        let mut i: usize = 0;
        assert(all.take(0) =~= Seq::<(SideGeom, Seq<char>)>::empty());
        while i < sides.len()
            invariant
                i <= sides@.len(),
                sides@.len() == all.len(),
                forall|k: int| 0 <= k < sides@.len() ==> (#[trigger] sides@[k]).geom == all[k].0
                    && sides@[k].mtrl.texture@ == all[k].1,
                s@ == "{\n"@ + sides_text(all.take(i as int)),
            decreases sides@.len() - i,
        {
            let line = sides[i].bake();
            s.append(line.as_str());
            s.append("\n");
            assert(all.take(i + 1).drop_last() =~= all.take(i as int));
            i = i + 1;
        }
        assert(all.take(i as int) =~= all);
        s.append("}\n");
        s
    }

    /// The corners of the brush.
    pub fn vertices(&self) -> (r: &Vec<DVec3>)
        ensures
            r@ == self@.0,
    {
        &self.vertices
    }

    /// The corners of the brush, in order.
    pub fn vertices_iter(&self) -> (r: &[DVec3])
        ensures
            r@ == self@.0,
    {
        self.vertices.as_slice()
    }
}

} // verus!
