//! Maps: what a map file holds, and the editor's map geometry.

use vstd::prelude::*;
use crate::brush::{BrushView, brush_text};
use crate::lump::Lump;

pub mod geometry;

verus! {

/// Something that a map file holds, written out as its text.
pub trait MapElement {
    /// The text of this element in a map file.
    fn bake(self) -> String;
}

/// A map made of lumps: the lumps of its geometry.
pub struct LumpMap {
    geometry: Vec<Lump>,
}

/// The lumps as seen from outside.
pub open spec fn lump_views(lumps: Seq<Lump>) -> Seq<BrushView> {
    lumps.map_values(|l: Lump| l@)
}

/// The texts of the lumps, one after the other.
pub open spec fn lumps_text(lumps: Seq<BrushView>) -> Seq<char>
    decreases lumps.len(),
{
    if lumps.len() == 0 {
        seq![]
    } else {
        lumps_text(lumps.drop_last()) + brush_text(lumps.last())
    }
}

/// The text of a map: its lumps between an opening and a closing brace, each on a line of
/// its own.
pub open spec fn map_text(lumps: Seq<BrushView>) -> Seq<char> {
    "{\n"@ + lumps_text(lumps) + "}\n"@
}

impl View for LumpMap {
    type V = Seq<BrushView>;

    closed spec fn view(&self) -> Seq<BrushView> {
        lump_views(self.geometry@)
    }
}

impl LumpMap {
    /// The map of the given lumps, in order.
    pub fn from_lumps(lumps: Vec<Lump>) -> (map: LumpMap)
        ensures
            map@ == lump_views(lumps@),
    {
        LumpMap { geometry: lumps }
    }
}

impl MapElement for LumpMap {
    /// The text of the map: its lumps, each as `Lump`'s `bake` writes it, between braces.
    fn bake(self) -> (s: String)
        ensures
            s@ == map_text(self@),
    {
        let ghost all = self@;
        let mut s = String::from_str("{\n");
        let mut i: usize = 0;
        assert(all.take(0) =~= Seq::<BrushView>::empty());
        while i < self.geometry.len()
            invariant
                i <= self.geometry@.len(),
                all == lump_views(self.geometry@),
                s@ == "{\n"@ + lumps_text(all.take(i as int)),
            decreases self.geometry@.len() - i,
        {
            let lump = self.geometry[i].clone();
            let text = lump.bake();
            s.append(text.as_str());
            assert(all.take(i + 1).drop_last() =~= all.take(i as int));
            i = i + 1;
        }
        assert(all.take(i as int) =~= all);
        s.append("}\n");
        s
    }
}

} // verus!
