# tilebound

Collision detection of axis-aligned boxes against two-dimensional tilemaps, with
its rules proved by Verus.

## Layout

- `src/` is the verified library.
  - `plane`: axes, axis masks, endpoints, endpoint ranges and pairs, axis vectors
    and integer tile scales.
  - `view`: the `TileMap` / `TileMapView` traits, slice indices with padding, and
    the array, bit-packed and sub-byte-packed tilemaps, and tilemaps over `ndarray`
    and `mdarray` arrays (`NdMap`, `MdMap`), which call those crates.
  - `solid` and `halfslope`: the two tile kinds (solid tiles and vertex masks
    with half slopes), their collision ranges and the decisions taken while a
    vertex moves across tiles.
  - `ctx` and `ops`: the scene, attachment state and the index steps taken while
    displacing a box.
  - `bitseq`: a bit sequence over `bitvec`, the only place where that crate is
    called.
- `app/` holds what works on floating-point positions (vertices, edges, deltas,
  bounding boxes and the sweep loops) on top of the library.
- `tests/` holds the tests, run against the compiled library.
