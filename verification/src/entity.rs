//! Ready-made entities.

use vstd::prelude::*;
use crate::brush::Brush;
use crate::qmap::{QEntity, brushes_view, copy_brushes};

verus! {

/// The world entity of a map with nothing but brushes.
#[derive(Debug)]
pub struct SimpleWorldspawn {
    pub brushes: Vec<Brush>,
}

impl Clone for SimpleWorldspawn {
    fn clone(&self) -> (r: SimpleWorldspawn)
        ensures
            brushes_view(r.brushes@) == brushes_view(self.brushes@),
    {
        SimpleWorldspawn { brushes: copy_brushes(&self.brushes) }
    }
}

impl SimpleWorldspawn {
    /// A world entity holding the given brushes.
    pub fn new(brushes: Vec<Brush>) -> (w: SimpleWorldspawn)
        ensures
            w.brushes@ == brushes@,
    {
        SimpleWorldspawn { brushes }
    }

    /// The map entity for this world: its one parameter names its class, "worldspawn", and
    /// it holds the same brushes.
    pub fn into_entity(self) -> (e: QEntity)
        ensures
            e@.0 == seq![("classname"@, "worldspawn"@)],
            e@.1 == brushes_view(self.brushes@),
    {
        let mut e = QEntity::new(self.brushes);
        let _ = e.insert_parameter(String::from_str("classname"), String::from_str("worldspawn"));
        assert(e@.0 =~= seq![("classname"@, "worldspawn"@)]);
        e
    }
}

} // verus!
