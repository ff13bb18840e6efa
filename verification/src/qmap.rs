//! Quake 3 map files: entities holding brushes, and the text of a whole map.

use vstd::prelude::*;
use crate::brush::{Brush, BrushView, brush_text};
use crate::entity::SimpleWorldspawn;
use vstd::std_specs::convert::FromSpecImpl;
use crate::text::{decimal, lemma_single_line, lines, push_decimal, split_lines, views};

verus! {

/// An entity of a map: its key/value parameters, each key at most once, in the order they
/// are written, and its brushes.
#[derive(Debug)]
pub struct QEntity {
    parameters: Vec<(String, String)>,
    brushes: Vec<Brush>,
}

/// An entity as seen from outside: its parameters as pairs of texts, and its brushes.
pub type QEntityView = (Seq<(Seq<char>, Seq<char>)>, Seq<BrushView>);

/// The parameters as pairs of texts.
pub open spec fn parameters_view(ps: Seq<(String, String)>) -> Seq<(Seq<char>, Seq<char>)> {
    ps.map_values(|p: (String, String)| (p.0@, p.1@))
}

/// The brushes as seen from outside.
pub open spec fn brushes_view(bs: Seq<Brush>) -> Seq<BrushView> {
    bs.map_values(|b: Brush| b@)
}

/// A copy of the brushes, in order.
pub(crate) fn copy_brushes(v: &Vec<Brush>) -> (r: Vec<Brush>)
    ensures
        brushes_view(r@) == brushes_view(v@),
{
    let mut r: Vec<Brush> = Vec::new();
    let mut i: usize = 0;
    while i < v.len()
        invariant
            i <= v@.len(),
            r@.len() == i,
            forall|k: int| 0 <= k < i ==> (#[trigger] r@[k])@ == v@[k]@,
        decreases v@.len() - i,
    {
        r.push(v[i].clone());
        i = i + 1;
    }
    assert(brushes_view(r@) =~= brushes_view(v@));
    r
}

impl Clone for QEntity {
    fn clone(&self) -> (r: QEntity)
        ensures
            r@ == self@,
    {
        let mut parameters: Vec<(String, String)> = Vec::new();
        let mut i: usize = 0;
        while i < self.parameters.len()
            invariant
                i <= self.parameters@.len(),
                parameters@.len() == i,
                forall|k: int| 0 <= k < i ==> (#[trigger] parameters@[k]).0@ == self.parameters@[k].0@
                    && parameters@[k].1@ == self.parameters@[k].1@,
            decreases self.parameters@.len() - i,
        {
            parameters.push((self.parameters[i].0.clone(), self.parameters[i].1.clone()));
            i = i + 1;
        }
        proof { use_type_invariant(self); }
        assert(parameters_view(parameters@) =~= parameters_view(self.parameters@));
        QEntity { parameters, brushes: copy_brushes(&self.brushes) }
    }
}

impl View for QEntity {
    type V = QEntityView;

    closed spec fn view(&self) -> QEntityView {
        (parameters_view(self.parameters@), brushes_view(self.brushes@))
    }
}

/// No key occurs twice among the parameters.
pub open spec fn keys_distinct(ps: Seq<(Seq<char>, Seq<char>)>) -> bool {
    forall|i: int, j: int| 0 <= i < j < ps.len() ==> (#[trigger] ps[i]).0 != (#[trigger] ps[j]).0
}

/// `key` is one of the keys of the parameters.
pub open spec fn has_key(ps: Seq<(Seq<char>, Seq<char>)>, key: Seq<char>) -> bool {
    exists|i: int| 0 <= i < ps.len() && (#[trigger] ps[i]).0 == key
}

/// One line per parameter: the key and the value, each in double quotes, separated by a
/// space.
pub open spec fn parameters_text(ps: Seq<(Seq<char>, Seq<char>)>) -> Seq<char>
    decreases ps.len(),
{
    if ps.len() == 0 {
        seq![]
    } else {
        parameters_text(ps.drop_last()) + "\""@ + ps.last().0 + "\" \""@ + ps.last().1 + "\"\n"@
    }
}

/// Each brush preceded by a comment line with its number, counted from zero.
pub open spec fn brushes_text(bs: Seq<BrushView>) -> Seq<char>
    decreases bs.len(),
{
    if bs.len() == 0 {
        seq![]
    } else {
        brushes_text(bs.drop_last()) + "// brush "@ + decimal((bs.len() - 1) as nat) + "\n"@
            + brush_text(bs.last())
    }
}

/// The text of an entity in a map file: between braces, its parameters, then its brushes.
pub open spec fn entity_text(e: QEntityView) -> Seq<char> {
    "{\n"@ + parameters_text(e.0) + brushes_text(e.1) + "}\n"@
}

impl QEntity {
    /// Every key occurs once.
    #[verifier::type_invariant]
    closed spec fn well_formed(self) -> bool {
        keys_distinct(parameters_view(self.parameters@))
    }

    /// An entity holding the given brushes, without parameters.
    pub fn new(brushes: Vec<Brush>) -> (e: QEntity)
        ensures
            e@.0.len() == 0,
            e@.1 == brushes_view(brushes@),
    {
        let e = QEntity { parameters: Vec::new(), brushes };
        assert(e@.0 =~= Seq::<(Seq<char>, Seq<char>)>::empty());
        e
    }

    /// Sets the parameter `key` to `value`, as a map's insertion does: a key that is
    /// already there keeps its place and gets the new value, and its old value is
    /// returned; a new key is added after the others. The brushes are left as they are.
    pub fn insert_parameter(&mut self, key: String, value: String) -> (r: Option<String>)
        ensures
            final(self)@.1 == old(self)@.1,
            has_key(old(self)@.0, key@) ==> exists|i: int|
                {
                    &&& 0 <= i < old(self)@.0.len()
                    &&& (#[trigger] old(self)@.0[i]).0 == key@
                    &&& final(self)@.0 == old(self)@.0.update(i, (key@, value@))
                    &&& r matches Some(v) && v@ == old(self)@.0[i].1
                },
            !has_key(old(self)@.0, key@) ==> final(self)@.0 == old(self)@.0.push((key@, value@))
                && r is None,
    {
        proof { use_type_invariant(&*self); }
        let ghost before = old(self)@.0;
        let mut ps: Vec<(String, String)> = Vec::new();
        std::mem::swap(&mut ps, &mut self.parameters);
        assert(parameters_view(ps@) == before);
        let mut i: usize = 0;
        while i < ps.len() && !(ps[i].0 == key)
            invariant
                i <= ps@.len(),
                parameters_view(ps@) == before,
                forall|k: int| 0 <= k < i ==> (#[trigger] before[k]).0 != key@,
            decreases ps@.len() - i,
        {
            assert(before[i as int].0 == ps@[i as int].0@);
            i = i + 1;
        }
        if i < ps.len() {
            assert(before[i as int].0 == key@) by {
                assert(before[i as int].0 == ps@[i as int].0@);
            }
            let old_pair = ps.remove(i);
            ps.insert(i, (key, value));
            let ghost after = before.update(i as int, (key@, value@));
            assert(parameters_view(ps@) =~= after);
            assert forall|a: int, b: int| 0 <= a < b < after.len() implies (#[trigger] after[a]).0
                != (#[trigger] after[b]).0 by {
                assert(before[a].0 != before[b].0);
            }
            self.parameters = ps;
            Some(old_pair.1)
        } else {
            ps.push((key, value));
            assert(parameters_view(ps@) =~= before.push((key@, value@)));
            assert(!has_key(before, key@));
            assert(keys_distinct(parameters_view(ps@)));
            self.parameters = ps;
            None
        }
    }

    /// The parameters, in the order they are written.
    pub fn parameters(&self) -> (r: &Vec<(String, String)>)
        ensures
            parameters_view(r@) == self@.0,
    {
        &self.parameters
    }

    /// The brushes.
    pub fn brushes(&self) -> (r: &Vec<Brush>)
        ensures
            brushes_view(r@) == self@.1,
    {
        &self.brushes
    }

    /// The text of this entity in a map file.
    pub fn bake(&self) -> (s: String)
        ensures
            s@ == entity_text(self@),
    {
        let ghost ps = parameters_view(self.parameters@);
        let ghost bs = brushes_view(self.brushes@);
        let mut s = String::from_str("{\n");
        let mut i: usize = 0;
        assert(ps.take(0) =~= Seq::<(Seq<char>, Seq<char>)>::empty());
        while i < self.parameters.len()
            invariant
                i <= self.parameters@.len(),
                ps == parameters_view(self.parameters@),
                s@ == "{\n"@ + parameters_text(ps.take(i as int)),
            decreases self.parameters@.len() - i,
        {
            s.append("\"");
            s.append(self.parameters[i].0.as_str());
            s.append("\" \"");
            s.append(self.parameters[i].1.as_str());
            s.append("\"\n");
            assert(ps.take(i + 1).drop_last() =~= ps.take(i as int));
            i = i + 1;
        }
        assert(ps.take(i as int) =~= ps);
        let ghost head = s@;
        let mut j: usize = 0;
        assert(bs.take(0) =~= Seq::<BrushView>::empty());
        while j < self.brushes.len()
            invariant
                j <= self.brushes@.len(),
                bs == brushes_view(self.brushes@),
                s@ == head + brushes_text(bs.take(j as int)),
            decreases self.brushes@.len() - j,
        {
            s.append("// brush ");
            push_decimal(&mut s, j as u64);
            s.append("\n");
            let b = self.brushes[j].bake();
            s.append(b.as_str());
            assert(bs.take(j + 1).drop_last() =~= bs.take(j as int));
            j = j + 1;
        }
        assert(bs.take(j as int) =~= bs);
        s.append("}\n");
        s
    }
}

/// A whole map: its entities, and lines of metadata written as comments at the top.
#[derive(Debug)]
pub struct QMap {
    pub entities: Vec<QEntity>,
    pub metadata: Vec<String>,
}

/// A map as seen from outside: its entities, and its metadata texts.
pub type QMapView = (Seq<QEntityView>, Seq<Seq<char>>);

impl View for QMap {
    type V = QMapView;

    open spec fn view(&self) -> QMapView {
        (self.entities@.map_values(|e: QEntity| e@), views(self.metadata@))
    }
}

/// Each line as a comment: `// ` before it and a line feed after it.
pub open spec fn comment_lines(ls: Seq<Seq<char>>) -> Seq<char>
    decreases ls.len(),
{
    if ls.len() == 0 {
        seq![]
    } else {
        comment_lines(ls.drop_last()) + "// "@ + ls.last() + "\n"@
    }
}

/// Every line of every metadata text, as a comment.
pub open spec fn metadata_text(ms: Seq<Seq<char>>) -> Seq<char>
    decreases ms.len(),
{
    if ms.len() == 0 {
        seq![]
    } else {
        metadata_text(ms.drop_last()) + comment_lines(lines(ms.last()))
    }
}

/// Each entity preceded by a comment line with its number, counted from zero.
pub open spec fn entities_text(es: Seq<QEntityView>) -> Seq<char>
    decreases es.len(),
{
    if es.len() == 0 {
        seq![]
    } else {
        entities_text(es.drop_last()) + "// entity "@ + decimal((es.len() - 1) as nat) + "\n"@
            + entity_text(es.last())
    }
}

/// The text of a map file: the metadata comments, then the entities.
pub open spec fn qmap_text(m: QMapView) -> Seq<char> {
    metadata_text(m.1) + entities_text(m.0)
}

/// The metadata lines that Trenchbroom reads to know the game and the map format.
pub open spec fn tb_neverball_metadata() -> Seq<Seq<char>> {
    seq!["Game: Neverball"@, "Format: Quake3"@]
}

/// The two comment lines that `with_tb_neverball_metadata` puts at the top of a map that
/// had no metadata.
pub proof fn lemma_neverball_header()
    ensures
        metadata_text(tb_neverball_metadata()) == "// Game: Neverball\n// Format: Quake3\n"@,
{
    reveal_strlit("Game: Neverball");
    reveal_strlit("Format: Quake3");
    reveal_strlit("// ");
    reveal_strlit("\n");
    reveal_strlit("// Game: Neverball\n// Format: Quake3\n");
    let g = "Game: Neverball"@;
    let f = "Format: Quake3"@;
    lemma_single_line(g);
    lemma_single_line(f);
    let ms = tb_neverball_metadata();
    assert(ms.drop_last() =~= seq![g]);
    assert(ms.drop_last().drop_last() =~= Seq::<Seq<char>>::empty());
    assert(seq![g].drop_last() =~= Seq::<Seq<char>>::empty());
    assert(seq![f].drop_last() =~= Seq::<Seq<char>>::empty());
    assert(comment_lines(seq![g]) =~= "// "@ + g + "\n"@) by {
        assert(comment_lines(Seq::<Seq<char>>::empty()) == Seq::<char>::empty());
    }
    assert(comment_lines(seq![f]) =~= "// "@ + f + "\n"@) by {
        assert(comment_lines(Seq::<Seq<char>>::empty()) == Seq::<char>::empty());
    }
    assert(metadata_text(seq![g]) =~= "// "@ + g + "\n"@) by {
        assert(metadata_text(Seq::<Seq<char>>::empty()) == Seq::<char>::empty());
    }
    assert(metadata_text(ms) == metadata_text(seq![g]) + comment_lines(seq![f]));
    assert(metadata_text(ms) =~= "// Game: Neverball\n// Format: Quake3\n"@);
}

/// The map of a world made of the given brushes, with the metadata that Trenchbroom reads
/// to know the game is Neverball.
pub fn brushes_to_map(brushes: Vec<Brush>) -> (m: QMap)
    ensures
        m@.0 == seq![(seq![("classname"@, "worldspawn"@)], brushes_view(brushes@))],
        m@.1 == tb_neverball_metadata(),
{
    let ghost bv = brushes_view(brushes@);
    let entity = SimpleWorldspawn::new(brushes).into_entity();
    let ghost ev = entity@;
    let mut entities: Vec<QEntity> = Vec::new();
    entities.push(entity);
    let m = QMap::new(entities).with_tb_neverball_metadata();
    assert(m.entities@.map_values(|e: QEntity| e@) =~= seq![ev]);
    assert(views(m.metadata@) =~= tb_neverball_metadata());
    m
}

/// The text of a Neverball map of one world: the two header comments, the world entity
/// with its class name, and its brushes.
pub proof fn lemma_neverball_map_text(bs: Seq<BrushView>)
    ensures
        qmap_text((seq![(seq![("classname"@, "worldspawn"@)], bs)], tb_neverball_metadata()))
            == "// Game: Neverball\n// Format: Quake3\n// entity 0\n{\n\"classname\" \"worldspawn\"\n"@
            + brushes_text(bs) + "}\n"@,
{
    lemma_neverball_header();
    reveal_strlit("// Game: Neverball\n// Format: Quake3\n// entity 0\n{\n\"classname\" \"worldspawn\"\n");
    reveal_strlit("// Game: Neverball\n// Format: Quake3\n");
    reveal_strlit("// entity ");
    reveal_strlit("\n");
    reveal_strlit("{\n");
    reveal_strlit("\"");
    reveal_strlit("\" \"");
    reveal_strlit("\"\n");
    reveal_strlit("classname");
    reveal_strlit("worldspawn");
    reveal_strlit("\"classname\" \"worldspawn\"\n");
    reveal_strlit("// entity 0\n");
    let e = (seq![("classname"@, "worldspawn"@)], bs);
    let es = seq![e];
    assert(es.drop_last() =~= Seq::<QEntityView>::empty());
    assert(decimal(0) =~= seq!['0']);
    let ps = seq![("classname"@, "worldspawn"@)];
    assert(ps.drop_last() =~= Seq::<(Seq<char>, Seq<char>)>::empty());
    assert(parameters_text(ps) =~= "\""@ + "classname"@ + "\" \""@ + "worldspawn"@ + "\"\n"@) by {
        assert(parameters_text(Seq::<(Seq<char>, Seq<char>)>::empty()) == Seq::<char>::empty());
    }
    assert(parameters_text(ps) =~= "\"classname\" \"worldspawn\"\n"@);
    assert(entities_text(es) =~= "// entity "@ + decimal(0) + "\n"@ + entity_text(e)) by {
        assert(entities_text(Seq::<QEntityView>::empty()) == Seq::<char>::empty());
    }
    assert(entities_text(es) =~= "// entity 0\n"@ + entity_text(e));
    assert(qmap_text((es, tb_neverball_metadata())) =~= "// Game: Neverball\n// Format: Quake3\n// entity 0\n{\n\"classname\" \"worldspawn\"\n"@
        + brushes_text(bs) + "}\n"@);
}

impl Clone for QMap {
    fn clone(&self) -> (r: QMap)
        ensures
            r@ == self@,
    {
        let mut entities: Vec<QEntity> = Vec::new();
        let mut i: usize = 0;
        while i < self.entities.len()
            invariant
                i <= self.entities@.len(),
                entities@.len() == i,
                forall|k: int| 0 <= k < i ==> (#[trigger] entities@[k])@ == self.entities@[k]@,
            decreases self.entities@.len() - i,
        {
            entities.push(self.entities[i].clone());
            i = i + 1;
        }
        let mut metadata: Vec<String> = Vec::new();
        let mut j: usize = 0;
        while j < self.metadata.len()
            invariant
                j <= self.metadata@.len(),
                metadata@.len() == j,
                forall|k: int| 0 <= k < j ==> (#[trigger] metadata@[k])@ == self.metadata@[k]@,
            decreases self.metadata@.len() - j,
        {
            metadata.push(self.metadata[j].clone());
            j = j + 1;
        }
        let r = QMap { entities, metadata };
        assert(r@.0 =~= self@.0);
        assert(r@.1 =~= self@.1);
        r
    }
}

impl QMap {
    /// A map of the given entities, without metadata.
    pub fn new(entities: Vec<QEntity>) -> (m: QMap)
        ensures
            m.entities@ == entities@,
            m.metadata@.len() == 0,
    {
        QMap { entities, metadata: Vec::new() }
    }

    /// The map with one more metadata text after the ones it has.
    pub fn with_metadata(self, metadata: String) -> (m: QMap)
        ensures
            m.entities@ == self.entities@,
            m.metadata@ == self.metadata@.push(metadata),
    {
        let mut m = self;
        m.metadata.push(metadata);
        m
    }

    /// The map with the metadata lines that tell Trenchbroom the game is Neverball and the
    /// format is Quake 3, after the metadata it has.
    pub fn with_tb_neverball_metadata(self) -> (m: QMap)
        ensures
            m.entities@ == self.entities@,
            m@.1 == self@.1 + tb_neverball_metadata(),
    {
        let game = String::from_str("Game: Neverball");
        let format = String::from_str("Format: Quake3");
        let ghost g = game@;
        let ghost f = format@;
        let m = self.with_metadata(game).with_metadata(format);
        assert(views(m.metadata@) =~= views(self.metadata@).push(g).push(f));
        assert(seq![g, f] =~= tb_neverball_metadata());
        m
    }

    /// The text of the map file: for each line of each metadata text a comment, then each
    /// entity after a comment with its number.
    pub fn to_string(&self) -> (s: String)
        ensures
            s@ == qmap_text(self@),
    {
        self.bake()
    }

    /// The text of the map file, as `to_string` gives it.
    pub fn bake(&self) -> (s: String)
        ensures
            s@ == qmap_text(self@),
    {
        let ghost ms = views(self.metadata@);
        let ghost es = self@.0;
        let mut s = String::new();
        let mut i: usize = 0;
        assert(ms.take(0) =~= Seq::<Seq<char>>::empty());
        while i < self.metadata.len()
            invariant
                i <= self.metadata@.len(),
                ms == views(self.metadata@),
                s@ == metadata_text(ms.take(i as int)),
            decreases self.metadata@.len() - i,
        {
            let ls = split_lines(self.metadata[i].as_str());
            let ghost before = s@;
            let mut k: usize = 0;
            assert(views(ls@).take(0) =~= Seq::<Seq<char>>::empty());
            while k < ls.len()
                invariant
                    k <= ls@.len(),
                    s@ == before + comment_lines(views(ls@).take(k as int)),
                decreases ls@.len() - k,
            {
                s.append("// ");
                s.append(ls[k].as_str());
                s.append("\n");
                assert(views(ls@).take(k + 1).drop_last() =~= views(ls@).take(k as int));
                k = k + 1;
            }
            assert(views(ls@).take(k as int) =~= views(ls@));
            assert(ms.take(i + 1).drop_last() =~= ms.take(i as int));
            i = i + 1;
        }
        assert(ms.take(i as int) =~= ms);
        let ghost head = s@;
        let mut j: usize = 0;
        assert(es.take(0) =~= Seq::<QEntityView>::empty());
        while j < self.entities.len()
            invariant
                j <= self.entities@.len(),
                es == self@.0,
                s@ == head + entities_text(es.take(j as int)),
            decreases self.entities@.len() - j,
        {
            s.append("// entity ");
            push_decimal(&mut s, j as u64);
            s.append("\n");
            let e = self.entities[j].bake();
            s.append(e.as_str());
            assert(es.take(j + 1).drop_last() =~= es.take(j as int));
            j = j + 1;
        }
        assert(es.take(j as int) =~= es);
        s
    }
}

impl From<SimpleWorldspawn> for QEntity {
    /// The map entity for a world, as `SimpleWorldspawn::into_entity` makes it.
    fn from(item: SimpleWorldspawn) -> (e: QEntity)
        ensures
            e@.0 == seq![("classname"@, "worldspawn"@)],
            e@.1 == brushes_view(item.brushes@),
    {
        item.into_entity()
    }
}

/// The entity is stated by the `ensures` of `from` above, over its view: its strings cannot
/// be built as spec values, so no `from_spec` value is claimed.
impl FromSpecImpl<SimpleWorldspawn> for QEntity {
    open spec fn obeys_from_spec() -> bool {
        false
    }

    open spec fn from_spec(v: SimpleWorldspawn) -> QEntity {
        arbitrary()
    }
}

impl<'a> From<&'a QMap> for String {
    /// The text of the map file, as `QMap::to_string` gives it.
    fn from(map: &'a QMap) -> (s: String)
        ensures
            s@ == qmap_text(map@),
    {
        map.bake()
    }
}

/// The text is stated by the `ensures` of `from` above, over its view: a string cannot be
/// built as a spec value, so no `from_spec` value is claimed.
impl<'a> FromSpecImpl<&'a QMap> for String {
    open spec fn obeys_from_spec() -> bool {
        false
    }

    open spec fn from_spec(v: &'a QMap) -> String {
        arbitrary()
    }
}

} // verus!
