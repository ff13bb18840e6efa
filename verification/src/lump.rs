//! Lumps: convex polyhedra taken straight from a convex hull, one face for each triangle
//! of the hull, every face with the default texture.

use vstd::prelude::*;
use glam::DVec3;
use crate::brush::{
    BrushView, SideGeom, brush_text, copy_points, default_texture, indices_below, side_geom,
    sides_of, sides_text, triangles, with_default_texture,
};
use crate::hull::{
    HullErrorKind, convex_hull, corners_from, hull_error_view, hull_of, hull_outcome,
};
use crate::map::MapElement;
use crate::vector::{all_convertible, format_coords};

verus! {

/// A point in 3D space.
pub type Point = DVec3;

/// A face of a lump: three points on its plane and its texture.
#[derive(Debug, PartialEq)]
pub struct Face {
    pub points: [Point; 3],
    pub texture: String,
}

impl Clone for Face {
    fn clone(&self) -> (r: Face)
        ensures
            r.points == self.points,
            r.texture@ == self.texture@,
    {
        Face { points: self.points, texture: self.texture.clone() }
    }
}

/// A convex polyhedron: its corners, and its faces as triples of corner indices with a
/// texture each.
#[derive(Debug)]
pub struct Lump {
    points: Vec<Point>,
    faces: Vec<([usize; 3], String)>,
}

/// The faces of a lump as they are stored: the text of a texture is what is seen of it.
pub open spec fn faces_view(faces: Seq<([usize; 3], String)>) -> Seq<([usize; 3], Seq<char>)> {
    faces.map_values(|f: ([usize; 3], String)| (f.0, f.1@))
}

impl View for Lump {
    type V = BrushView;

    closed spec fn view(&self) -> BrushView {
        (self.points@, faces_view(self.faces@))
    }
}

impl Clone for Lump {
    fn clone(&self) -> (r: Lump)
        ensures
            r@ == self@,
    {
        proof { use_type_invariant(self); }
        let mut faces: Vec<([usize; 3], String)> = Vec::new();
        let mut i: usize = 0;
        while i < self.faces.len()
            invariant
                i <= self.faces@.len(),
                faces@.len() == i,
                forall|k: int| 0 <= k < i ==> (#[trigger] faces@[k]).0 == self.faces@[k].0
                    && faces@[k].1@ == self.faces@[k].1@,
                forall|a: int, b: int|
                    0 <= a < self.faces@.len() && 0 <= b < 3 ==> (#[trigger] self.faces@[a].0[b] as int)
                        < self.points@.len(),
            decreases self.faces@.len() - i,
        {
            faces.push((self.faces[i].0, self.faces[i].1.clone()));
            i = i + 1;
        }
        let points = copy_points(&self.points);
        assert(faces_view(faces@) =~= faces_view(self.faces@));
        Lump { points, faces }
    }
}

impl Lump {
    /// Every face names three of the lump's corners.
    #[verifier::type_invariant]
    closed spec fn well_formed(self) -> bool {
        forall|i: int, j: int|
            0 <= i < self.faces@.len() && 0 <= j < 3 ==> (#[trigger] self.faces@[i].0[j] as int)
                < self.points@.len()
    }

    /// The lump made of a hull's corners and triangles (three corner indices each): one
    /// face per triangle, in order, each with the default texture.
    pub fn from_hull_parts(points: Vec<Point>, indices: Vec<usize>) -> (lump: Lump)
        requires
            indices@.len() % 3 == 0,
            indices_below(indices@, points@.len()),
        ensures
            lump@ == (points@, with_default_texture(triangles(indices@))),
    {
        let ghost tris = triangles(indices@);
        let n = indices.len();
        let mut faces: Vec<([usize; 3], String)> = Vec::new();
        let mut t: usize = 0;
        while 3 * t < n
            invariant
                n == indices@.len(),
                n % 3 == 0,
                3 * t <= n,
                tris == triangles(indices@),
                indices_below(indices@, points@.len()),
                faces@.len() == t,
                forall|k: int| 0 <= k < t ==> (#[trigger] faces@[k]).0 == tris[k]
                    && faces@[k].1@ == default_texture(),
                forall|a: int, b: int|
                    0 <= a < t && 0 <= b < 3 ==> (#[trigger] faces@[a].0[b] as int) < points@.len(),
            decreases n - 3 * t,
        {
            let base = 3 * t;
            let tri = [indices[base], indices[base + 1], indices[base + 2]];
            assert(tri == tris[t as int]);
            faces.push((tri, String::from_str("mtrl/invisible")));
            t = t + 1;
        }
        assert(faces_view(faces@) =~= with_default_texture(tris));
        Lump { points, faces }
    }

    /// The lump that is the convex hull of `points`, computed by chull with at most
    /// `max_iter` steps where given: one face per triangle of the hull. It fails as chull
    /// does, and always on three or fewer
    /// points: `Empty` on none, `Degenerated` on one to three.
    pub fn try_from_points(points: &[Point], max_iter: Option<usize>) -> (r: Result<Lump, chull::ErrorKind>)
        requires
            all_convertible(points@),
        ensures
            points@.len() == 0 ==> r is Err && hull_error_view(r->Err_0) == HullErrorKind::Empty,
            1 <= points@.len() <= 3 ==> r is Err && hull_error_view(r->Err_0)
                == HullErrorKind::Degenerated,
            r matches Ok(lump) ==> exists|hv: Seq<DVec3>, hi: Seq<usize>|
                hull_of(points@, max_iter, hv, hi) && lump@ == (hv, with_default_texture(
                    triangles(hi),
                )),
            r matches Err(e) ==> hull_outcome(points@, max_iter, Err(e)),
    {
        match convex_hull(points, max_iter) {
            Ok((hv, hi)) => {
                let ghost hvv = hv@;
                let ghost hiv = hi@;
                let lump = Self::from_hull_parts(hv, hi);
                assert(corners_from(points@, hvv));
                assert(hull_of(points@, max_iter, hvv, hiv));
                Ok(lump)
            },
            Err(e) => Err(e),
        }
    }

    /// The faces of the lump, each with the three corners it names.
    pub fn to_faces(&self) -> (r: Vec<Face>)
        ensures
            r@.len() == self@.1.len(),
            forall|i: int| 0 <= i < r@.len() ==> SideGeom((#[trigger] r@[i]).points)
                == sides_of(self@)[i].0 && r@[i].texture@ == sides_of(self@)[i].1,
    {
        proof { use_type_invariant(self); }
        let mut r: Vec<Face> = Vec::new();
        let mut i: usize = 0;
        while i < self.faces.len()
            invariant
                i <= self.faces@.len(),
                r@.len() == i,
                forall|k: int| 0 <= k < i ==> SideGeom((#[trigger] r@[k]).points)
                    == sides_of(self@)[k].0 && r@[k].texture@ == sides_of(self@)[k].1,
                forall|a: int, b: int|
                    0 <= a < self.faces@.len() && 0 <= b < 3 ==> (#[trigger] self.faces@[a].0[b] as int)
                        < self.points@.len(),
            decreases self.faces@.len() - i,
        {
            let idx = self.faces[i].0;
            let points = [self.points[idx[0]], self.points[idx[1]], self.points[idx[2]]];
            assert(SideGeom(points) == side_geom(self@.0, self@.1[i as int].0));
            r.push(Face { points, texture: self.faces[i].1.clone() });
            i = i + 1;
        }
        r
    }

    /// The corners of the lump, in order.
    pub fn points(&self) -> (r: &[Point])
        ensures
            r@ == self@.0,
    {
        self.points.as_slice()
    }
}

impl MapElement for Lump {
    /// The text of the lump in a map file: its faces, one per line, between braces.
    fn bake(self) -> (s: String)
        ensures
            s@ == brush_text(self@),
    {
        let faces = self.to_faces();
        let ghost all = sides_of(self@);
        let mut s = String::from_str("{\n");
        let mut i: usize = 0;
        assert(all.take(0) =~= Seq::<(SideGeom, Seq<char>)>::empty());
        while i < faces.len()
            invariant
                i <= faces@.len(),
                faces@.len() == all.len(),
                forall|k: int| 0 <= k < faces@.len() ==> SideGeom((#[trigger] faces@[k]).points)
                    == all[k].0 && faces@[k].texture@ == all[k].1,
                s@ == "{\n"@ + sides_text(all.take(i as int)),
            decreases faces@.len() - i,
        {
            let f = &faces[i];
            s.append("( ");
            s.append(format_coords(&f.points[0]).as_str());
            s.append(" ) ( ");
            s.append(format_coords(&f.points[1]).as_str());
            s.append(" ) ( ");
            s.append(format_coords(&f.points[2]).as_str());
            s.append(" ) ");
            s.append(f.texture.as_str());
            s.append(" 0 0 0 0.5 0.5 0");
            s.append("\n");
            assert(all.take(i + 1).drop_last() =~= all.take(i as int));
            i = i + 1;
        }
        assert(all.take(i as int) =~= all);
        s.append("}\n");
        s
    }
}

} // verus!
