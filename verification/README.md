# panda3d

Readers for the file formats of the Panda3D engine, verified with Verus:

- `multifile`, `multifile2`, `subfile`: Multifile archives (header, subfile index, extraction).
- `bam`, `datagram`, `nodes`: Binary Asset (BAM) scene graphs, object by object, into a
  `NodeStorage` of typed scene graph objects. The library has no readers for Texture,
  TextureAttrib, TextureStage, TransformState, TransformBlendTable, TransparencyAttrib,
  and UserVertexTransform objects: a file that holds one of them is refused with
  `UnsupportedType` (and one holding a SequenceNode or SparseArray with `InvalidTypeHandle`),
  while most model files hold a TransformState.
- `scene`, `scene_graph`, `scene_walk`: turning a loaded scene graph into a renderer's scene
  (mesh data, render effects, material settings, skeleton and animation steps, and the walk
  that lists the whole scene).
- `sgi`: SGI images, plain and run-length encoded, decoded from planar rows (bottom row first)
  to interleaved pixels (top row first), with an opaque alpha channel added to RGB images.

Every function in `src/` carries a contract over a mathematical model of its input and output;
the public `lemma_*` proof functions state properties that hold across calls. The `app/` crate
holds what the library leaves out: file access, text output, and the floating-point arithmetic
on the float bits the library keeps.
