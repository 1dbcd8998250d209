# naga (verified core)

A Verus-verified library holding:

- `ast`: the syntax tree of a WGSL translation unit, with `Dependency`
  equality that compares names only, and the insertion-ordered
  `index_set::FastIndexSet` that de-duplicates dependencies by it;
- `arena`, `span`, `ir`, `directive`, `number`: the handles, arenas, source
  spans and shader vocabulary the tree is built from;
- `memory`: the bump-arena `Allocator` over `bumpalo`, and the arena-bound `Vec`;
- `dxc`: which prebuilt DXC compiler release a build target gets, and its URL;
- `text`: exact string-slice comparison.

`app/` is the build-script side: environment, bindgen, download, Cargo
directives.
