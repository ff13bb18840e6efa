# curveball

Curve generator for Neverball levels: it builds curved shapes out of convex brushes and
writes them as Quake 3 map text that Trenchbroom reads.

The library in `src/` is verified with Verus:

- `brush`, `map::geometry`, `lump`: convex polyhedra made from the convex hull of a point
  set (computed by the `chull` crate), their sides, the deduplication of coplanar sides
  and the text of each brush in a map file.
- `qmap`, `entity`, `map`: entities, whole maps, and their text.
- `curve`: the checks on every curve's parameters, the error messages, and the joining of
  cross-sections into brushes.
- `text`, `vector`, `hull`: decimal numbers and line splitting, points (glam's `DVec3`),
  and the call into `chull`.

Where the points of a curve lie is computed with floating-point trigonometry; that part,
together with the command-line tool, lives in `app/`, which hands the cross-sections to
the library.
