# snake_engine

A small Vulkan 2D engine, split in two.

- `src/` is the verified library (Verus): the command queue and the job
  scheduler (first come, first served; an update takes jobs one at a time
  until none is pending, so jobs added while it runs are run by it too), the
  string-keyed caches of pipelines and descriptor sets, the texture pool
  (one texture per file name, compared in lower case), the list of drawables, the keys under which render
  data is shared, and the renderer's decision rules: which GPU and
  queue families to use, which composite-alpha mode, where each object's quad
  starts in the vertex buffer, how a colour is packed for the shaders, when the
  swapchain is rebuilt, and how validation messages are classified.
  Texture decoding and PNG encoding are done by the `image` crate behind
  trusted wrappers; of decoding the library states only that a decoded
  buffer covers every pixel, of encoding that the file is fixed by the
  pixels and the size.
- `app/` is the plumbing around it: the window (winit), the Vulkan calls
  (vulkano), the entity world (hecs), the thread pool (rayon), text rendering
  (ab_glyph) and physics (rapier2d). Floating-point geometry stays there too.
- `tests/` exercises the library on concrete values.

Shaders are read at start-up from `shaders/<name>.vert.spv` and
`shaders/<name>.frag.spv`; assets from `assets/`.
