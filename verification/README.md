# miimic

Decoding, validation and resource handling for Nintendo Mii characters,
verified with Verus.

The library (`src/`) holds the logic that turns serialized Mii data into
validated renderer parameters and loads what a head model is built from:

- `data`, `mii`, `mii::format`: hexadecimal and Base64 text, the ten
  supported serialized layouts, checksums and field ranges.
- `expression`: the 70 facial expressions and how each adjusts a Mii.
- `resource`, `resource::shape`: the AFL 2.3 high resource archive, its
  entries, textures and meshes (floating-point attributes are kept as their
  IEEE 754 bit patterns).
- `mask`, `faceline`, `model`, `model::assembly`: the layers of the face
  mask and faceline textures, and the meshes of a head model in draw order.
- `glb`: the integer parts of binary glTF export.
- `render`, `query`, `cli`, `ffi`: render requests as the library, the HTTP
  service, the command line and foreign callers build them.

`app/` is the command-line front end. `tests/` exercises the library.
