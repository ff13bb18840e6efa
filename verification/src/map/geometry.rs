//! Brushes as the editor keeps them: every triangle of the hull is stored, and triangles
//! that lie in the plane of an earlier one are left out only when the brush is listed or
//! written.

use vstd::prelude::*;
use glam::DVec3;
use crate::brush::{
    BrushView, SideGeom, SideMtrl, copy_points, copy_sides, default_texture, indices_below,
    lemma_select_source, select, side_geom, sides_view,
};
use crate::hull::{
    HullErrorKind, convex_hull, corners_from, hull_error_view, hull_of, hull_outcome,
};
use crate::vector::{all_convertible, coords_text, format_coords};

verus! {

/// One side of a brush: its plane and its material.
#[derive(Debug, Default, PartialEq)]
pub struct Side {
    pub geom: SideGeom,
    pub mtrl: SideMtrl,
}

/// The text of a side in a map file of the editor's format: its three points, its texture,
/// and the texture's offset, rotation, scale and flags.
pub open spec fn side_text(geom: SideGeom, texture: Seq<char>) -> Seq<char> {
    "( "@ + coords_text(geom.0[0]) + " ) ( "@ + coords_text(geom.0[1]) + " ) ( "@
        + coords_text(geom.0[2]) + " ) "@ + texture + " 0 0 0 0.5 0.5 0 0 0"@
}

impl Side {
    /// The text of this side in a map file.
    pub fn bake(&self) -> (s: String)
        ensures
            s@ == side_text(self.geom, self.mtrl.texture@),
    {
        let mut s = String::from_str("( ");
        s.append(format_coords(&self.geom.0[0]).as_str());
        s.append(" ) ( ");
        s.append(format_coords(&self.geom.0[1]).as_str());
        s.append(" ) ( ");
        s.append(format_coords(&self.geom.0[2]).as_str());
        s.append(" ) ");
        s.append(self.mtrl.texture.as_str());
        s.append(" 0 0 0 0.5 0.5 0 0 0");
        s
    }
}

/// The triangles of a hull's index list, three indices each with the first two swapped, so
/// that the second corner is the one the side's plane is measured from.
pub open spec fn reordered_triangles(indices: Seq<usize>) -> Seq<[usize; 3]> {
    Seq::new(
        (indices.len() / 3) as nat,
        |t: int| [indices[3 * t + 1], indices[3 * t], indices[3 * t + 2]],
    )
}

/// `keep` records which of `geoms` survive when each is compared with `equivalent` to
/// every one before it, kept or not, as `equivalent(earlier, candidate)`, earliest first
/// and stopping at the first `true`: one is kept when every comparison answered `false`,
/// and dropped when one answered `true`.
pub open spec fn dedup_against_earlier<F: Fn(SideGeom, SideGeom) -> bool>(
    equivalent: F,
    geoms: Seq<SideGeom>,
    keep: Seq<bool>,
) -> bool {
    &&& keep.len() == geoms.len()
    &&& forall|i: int|
        #![trigger keep[i]]
        0 <= i < geoms.len() ==> {
            &&& (keep[i] ==> forall|j: int|
                0 <= j < i ==> equivalent.ensures((#[trigger] geoms[j], geoms[i]), false))
            &&& (!keep[i] ==> exists|j: int|
                0 <= j < i && equivalent.ensures((#[trigger] geoms[j], geoms[i]), true))
        }
}

/// A brush of the editor: its corners, and every triangle of its hull as a side with a
/// material.
#[derive(Debug)]
pub struct Brush {
    vertices: Vec<DVec3>,
    sides: Vec<([usize; 3], SideMtrl)>,
}

/// The planes and textures of the sides of a brush, in order.
pub open spec fn triangles_of(brush: BrushView) -> Seq<(SideGeom, Seq<char>)> {
    brush.1.map_values(|s: ([usize; 3], Seq<char>)| (side_geom(brush.0, s.0), s.1))
}

/// The planes of the sides of a brush, in order.
pub open spec fn geoms_of(brush: BrushView) -> Seq<SideGeom> {
    triangles_of(brush).map_values(|s: (SideGeom, Seq<char>)| s.0)
}

/// The sides that survive deduplication by `equivalent` (see `dedup_against_earlier`).
pub open spec fn unique_sides_of<F: Fn(SideGeom, SideGeom) -> bool>(
    brush: BrushView,
    equivalent: F,
    result: Seq<(SideGeom, Seq<char>)>,
) -> bool {
    exists|keep: Seq<bool>|
        dedup_against_earlier(equivalent, geoms_of(brush), keep)
            && result == select(triangles_of(brush), keep)
}

/// The sides that `to_sides_unique` keeps are pairwise unlike: of any two, comparing the
/// earlier one with the later one answered `false`.
pub proof fn lemma_unique_sides_unlike<F: Fn(SideGeom, SideGeom) -> bool>(
    brush: BrushView,
    equivalent: F,
    sides: Seq<(SideGeom, Seq<char>)>,
)
    requires
        unique_sides_of(brush, equivalent, sides),
    ensures
        forall|a: int, b: int|
            0 <= a < b < sides.len() ==> equivalent.ensures(
                (#[trigger] sides[a].0, #[trigger] sides[b].0),
                false,
            ),
{
    let tris = triangles_of(brush);
    let geoms = geoms_of(brush);
    let keep = choose|keep: Seq<bool>|
        dedup_against_earlier(equivalent, geoms, keep) && sides == select(tris, keep);
    assert forall|a: int, b: int| 0 <= a < b < sides.len() implies equivalent.ensures(
        (#[trigger] sides[a].0, #[trigger] sides[b].0),
        false,
    ) by {
        let tb = lemma_select_source(tris, keep, b);
        let before = select(tris.take(tb), keep.take(tb));
        assert(before[a] == sides.take(b)[a]);
        let ta = lemma_select_source(tris.take(tb), keep.take(tb), a);
        assert(tris[ta] == sides[a]);
        assert(geoms[ta] == sides[a].0);
        assert(geoms[tb] == sides[b].0);
    }
}

/// The lines of the given sides in a map file, each ended by a line feed.
pub open spec fn sides_text(sides: Seq<(SideGeom, Seq<char>)>) -> Seq<char>
    decreases sides.len(),
{
    if sides.len() == 0 {
        seq![]
    } else {
        sides_text(sides.drop_last()) + side_text(sides.last().0, sides.last().1) + "\n"@
    }
}

/// The sides as planes with textures.
pub open spec fn side_list(sides: Seq<Side>) -> Seq<(SideGeom, Seq<char>)> {
    sides.map_values(|s: Side| (s.geom, s.mtrl.texture@))
}

impl View for Brush {
    type V = BrushView;

    closed spec fn view(&self) -> BrushView {
        (self.vertices@, sides_view(self.sides@))
    }
}

impl Clone for Brush {
    fn clone(&self) -> (r: Brush)
        ensures
            r@ == self@,
    {
        proof { use_type_invariant(self); }
        let vertices = copy_points(&self.vertices);
        let sides = copy_sides(&self.sides);
        assert forall|i: int, j: int| 0 <= i < sides@.len() && 0 <= j < 3 implies (#[trigger] sides@[i].0[j]
            as int) < vertices@.len() by {
            assert(sides@[i].0 == self.sides@[i].0);
        }
        Brush { vertices, sides }
    }
}

impl Brush {
    /// Every side names three of the brush's corners.
    #[verifier::type_invariant]
    closed spec fn well_formed(self) -> bool {
        forall|i: int, j: int|
            0 <= i < self.sides@.len() && 0 <= j < 3 ==> (#[trigger] self.sides@[i].0[j] as int)
                < self.vertices@.len()
    }

    /// The brush made of a hull's corners and triangles: every triangle becomes a side with
    /// its first two corners swapped and the default material. Indices after the last full
    /// triple are ignored.
    pub fn from_hull_parts(vertices: Vec<DVec3>, indices: Vec<usize>) -> (brush: Brush)
        requires
            indices_below(indices@, vertices@.len()),
        ensures
            brush@.0 == vertices@,
            brush@.1 == reordered_triangles(indices@).map_values(
                |t: [usize; 3]| (t, default_texture()),
            ),
    {
        let n = indices.len();
        let m = n / 3;
        let mut sides: Vec<([usize; 3], SideMtrl)> = Vec::new();
        let mut t: usize = 0;
        while t < m
            invariant
                m == n / 3,
                n == indices@.len(),
                3 * m <= n,
                t <= m,
                indices_below(indices@, vertices@.len()),
                sides@.len() == t,
                forall|k: int| 0 <= k < t ==> (#[trigger] sides@[k]).0 == reordered_triangles(indices@)[k]
                    && sides@[k].1.texture@ == default_texture(),
                forall|k: int, j: int| 0 <= k < t && 0 <= j < 3 ==> (#[trigger] sides@[k].0[j] as int)
                    < vertices@.len(),
            decreases m - t,
        {
            assert(3 * t + 2 < n);
            let base = 3 * t;
            let tri = [indices[base + 1], indices[base], indices[base + 2]];
            sides.push((tri, SideMtrl::default()));
            t = t + 1;
        }
        assert(sides_view(sides@) =~= reordered_triangles(indices@).map_values(
            |t: [usize; 3]| (t, default_texture()),
        ));
        Brush { vertices, sides }
    }

    /// The brush that is the convex hull of `vertices`, computed by chull with at most
    /// `max_iter` steps where given (see `from_hull_parts`). It fails as chull does, and
    /// always on three or fewer
    /// points: `Empty` on none, `Degenerated` on one to three.
    pub fn try_from_vertices(vertices: &[DVec3], max_iter: Option<usize>) -> (r: Result<Brush, chull::ErrorKind>)
        requires
            all_convertible(vertices@),
        ensures
            vertices@.len() == 0 ==> r is Err && hull_error_view(r->Err_0) == HullErrorKind::Empty,
            1 <= vertices@.len() <= 3 ==> r is Err && hull_error_view(r->Err_0)
                == HullErrorKind::Degenerated,
            r matches Ok(brush) ==> exists|hv: Seq<DVec3>, hi: Seq<usize>|
                hull_of(vertices@, max_iter, hv, hi) && brush@.0 == hv && brush@.1
                    == reordered_triangles(hi).map_values(|t: [usize; 3]| (t, default_texture())),
            r matches Err(e) ==> hull_outcome(vertices@, max_iter, Err(e)),
    {
        match convex_hull(vertices, max_iter) {
            Ok((hv, hi)) => {
                let ghost hvv = hv@;
                let ghost hiv = hi@;
                let brush = Self::from_hull_parts(hv, hi);
                assert(corners_from(vertices@, hvv));
                assert(hull_of(vertices@, max_iter, hvv, hiv));
                Ok(brush)
            },
            Err(e) => Err(e),
        }
    }

    /// The corners of the brush and its sides as stored.
    pub fn side_vertex_indices(&self) -> (r: (&Vec<DVec3>, &Vec<([usize; 3], SideMtrl)>))
        ensures
            r.0@ == self@.0,
            sides_view(r.1@) == self@.1,
    {
        (&self.vertices, &self.sides)
    }

    /// Every stored side of the brush, as a plane through its three corners with its
    /// material.
    pub fn triangles(&self) -> (r: Vec<Side>)
        ensures
            side_list(r@) == triangles_of(self@),
    {
        proof { use_type_invariant(self); }
        let mut r: Vec<Side> = Vec::new();
        let mut i: usize = 0;
        while i < self.sides.len()
            invariant
                i <= self.sides@.len(),
                r@.len() == i,
                forall|k: int| 0 <= k < i ==> (#[trigger] r@[k]).geom == triangles_of(self@)[k].0
                    && r@[k].mtrl.texture@ == triangles_of(self@)[k].1,
                forall|a: int, b: int|
                    0 <= a < self.sides@.len() && 0 <= b < 3 ==> (#[trigger] self.sides@[a].0[b] as int)
                        < self.vertices@.len(),
            decreases self.sides@.len() - i,
        {
            let idx = self.sides[i].0;
            let geom = SideGeom([self.vertices[idx[0]], self.vertices[idx[1]], self.vertices[idx[2]]]);
            r.push(Side { geom, mtrl: self.sides[i].1.clone() });
            i = i + 1;
        }
        assert(side_list(r@) =~= triangles_of(self@));
        r
    }

    /// The sides of the brush without repeats: a triangle is left out when `equivalent`
    /// finds it equal to an earlier triangle (see `dedup_against_earlier`).
    pub fn to_sides_unique<F: Fn(SideGeom, SideGeom) -> bool>(&self, equivalent: &F) -> (r: Vec<Side>)
        requires
            forall|a: SideGeom, b: SideGeom| equivalent.requires((a, b)),
        ensures
            unique_sides_of(self@, *equivalent, side_list(r@)),
    {
        let all = self.triangles();
        let ghost geoms = geoms_of(self@);
        let ghost tris = triangles_of(self@);
        assert(side_list(all@).len() == tris.len());
        let mut keep: Vec<bool> = Vec::new();
        let mut i: usize = 0;
        while i < all.len()
            invariant
                i <= all@.len(),
                side_list(all@) == tris,
                geoms == tris.map_values(|s: (SideGeom, Seq<char>)| s.0),
                forall|a: SideGeom, b: SideGeom| equivalent.requires((a, b)),
                keep@.len() == i,
                dedup_against_earlier(*equivalent, geoms.take(i as int), keep@),
            decreases all@.len() - i,
        {
            let mut found = false;
            let mut j: usize = 0;
            assert(all@[i as int].geom == geoms[i as int]);
            while j < i && !found
                invariant
                    j <= i < all@.len(),
                    side_list(all@) == tris,
                    geoms == tris.map_values(|s: (SideGeom, Seq<char>)| s.0),
                    forall|a: SideGeom, b: SideGeom| equivalent.requires((a, b)),
                    !found ==> forall|k: int|
                        0 <= k < j ==> equivalent.ensures((#[trigger] geoms[k], geoms[i as int]), false),
                    found ==> exists|k: int|
                        0 <= k < j && equivalent.ensures((#[trigger] geoms[k], geoms[i as int]), true),
                decreases i - j,
            {
                assert(all@[j as int].geom == geoms[j as int]);
                if equivalent(all[j].geom, all[i].geom) {
                    found = true;
                }
                j = j + 1;
            }
            proof {
                let prev = geoms.take(i as int);
                let next = geoms.take(i + 1);
                let k2 = keep@.push(!found);
                assert forall|u: int| 0 <= u < next.len() implies {
                    &&& (#[trigger] k2[u] ==> forall|j: int|
                        0 <= j < u ==> equivalent.ensures((#[trigger] next[j], next[u]), false))
                    &&& (!k2[u] ==> exists|j: int|
                        0 <= j < u && equivalent.ensures((#[trigger] next[j], next[u]), true))
                } by {
                    if u < i {
                        assert(k2[u] == keep@[u]);
                        assert(next[u] == prev[u]);
                        assert forall|j: int| 0 <= j < u implies next[j] == prev[j] by {}
                        if !k2[u] {
                            let w = choose|j: int| 0 <= j < u && equivalent.ensures((#[trigger] prev[j], prev[u]), true);
                            assert(next[w] == prev[w]);
                        }
                    } else {
                        assert(next[u] == geoms[i as int]);
                        assert forall|j: int| 0 <= j < u implies next[j] == geoms[j] by {}
                        if !k2[u] {
                            let w = choose|k: int| 0 <= k < j && equivalent.ensures((#[trigger] geoms[k], geoms[i as int]), true);
                            assert(next[w] == geoms[w]);
                        }
                    }
                }
                assert(dedup_against_earlier(*equivalent, next, k2));
            }
            keep.push(!found);
            i = i + 1;
        }
        assert(geoms.take(i as int) =~= geoms);
        let mut r: Vec<Side> = Vec::new();
        let mut k: usize = 0;
        let ghost kv = keep@;
        assert(tris.take(0) =~= Seq::<(SideGeom, Seq<char>)>::empty());
        assert(kv.take(0) =~= Seq::<bool>::empty());
        while k < all.len()
            invariant
                k <= all@.len(),
                keep@ == kv,
                kv.len() == all@.len(),
                side_list(all@) == tris,
                side_list(r@) == select(tris.take(k as int), kv.take(k as int)),
            decreases all@.len() - k,
        {
            let ghost before = side_list(r@);
            if keep[k] {
                r.push(all[k].clone());
                assert(side_list(r@) =~= before.push(tris[k as int]));
            } else {
                assert(side_list(r@) =~= before);
            }
            assert(tris.take(k + 1).drop_last() =~= tris.take(k as int));
            assert(kv.take(k + 1).drop_last() =~= kv.take(k as int));
            k = k + 1;
        }
        assert(tris.take(k as int) =~= tris);
        assert(kv.take(k as int) =~= kv);
        r
    }

    /// The text of the brush in a map file: between braces, one line for each side that
    /// `to_sides_unique` keeps.
    pub fn bake<F: Fn(SideGeom, SideGeom) -> bool>(&self, equivalent: &F) -> (s: String)
        requires
            forall|a: SideGeom, b: SideGeom| equivalent.requires((a, b)),
        ensures
            exists|sides: Seq<(SideGeom, Seq<char>)>|
                unique_sides_of(self@, *equivalent, sides) && s@ == "{\n"@ + sides_text(sides) + "}\n"@,
    {
        let sides = self.to_sides_unique(equivalent);
        let ghost all = side_list(sides@);
        let mut s = String::from_str("{\n");
        let mut i: usize = 0;
        assert(all.take(0) =~= Seq::<(SideGeom, Seq<char>)>::empty());
        while i < sides.len()
            invariant
                i <= sides@.len(),
                all == side_list(sides@),
                s@ == "{\n"@ + sides_text(all.take(i as int)),
            decreases sides@.len() - i,
        {
            let line = sides[i].bake();
            s.append(line.as_str());
            s.append("\n");
            assert(all.take(i + 1).drop_last() =~= all.take(i as int));
            i = i + 1;
        }
        assert(all.take(i as int) =~= all);
        s.append("}\n");
        s
    }

    /// The corners of the brush.
    pub fn vertices(&self) -> (r: &Vec<DVec3>)
        ensures
            r@ == self@.0,
    {
        &self.vertices
    }
}

impl Clone for Side {
    fn clone(&self) -> (s: Side)
        ensures
            s.geom == self.geom,
            s.mtrl.texture@ == self.mtrl.texture@,
    {
        Side { geom: self.geom, mtrl: self.mtrl.clone() }
    }
}

} // verus!
