# kardashev_ui

The browser client of the Kardashev game: input handling, mesh generation and
the bookkeeping of its GPU renderer. The logic lives in a library verified
with Verus; a thin program around it talks to the browser.

- `src/input`: DOM mouse buttons, wheel modes, key codes and modifier keys,
  and the set of mouse buttons held down.
- `src/graphics/mesh`: index lists of the generated shapes (rectangle, quad,
  circles, cuboid, UV spheres) and the triangulation of convex faces. Vertex
  data is made by a caller-supplied function, so the library fixes which
  vertex sits where and which triangles join them.
- `src/graphics`: backend selection and identifiers, per-backend resource
  maps, draw batching, resource counters, buffer sizing and growth, point
  light slots and material bind group layouts.
- `app/`: the browser entry point, event listeners, floating-point vertex
  positions, the process-wide resource counters and serializable copies of
  the configuration enums.
- `tests/`: tests of the library on concrete values.

## Collections

- `PerBackend` holds one value per backend in a `Vec` of pairs whose type
  invariant says no backend occurs twice; it is read as a `Map` from backend
  to value. Its values are of any type, so what the collection holds cannot
  be named as a map of plain values, which a collection of an outside crate
  would need before the verified code could reason about it.
- `DrawBatcher` keeps its batches in a `Vec` of (key, batch) pairs with
  distinct keys, in the order the keys were first pushed. A hash map keyed by
  a struct gives no verified facts about lookups, and walking it visits the
  keys in an order that changes from process to process; the list makes the
  order of the prepared items part of the contract.
- Mesh builders leave tangents and bitangents to the caller (see
  `MeshData`).
