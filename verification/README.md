# learn_bevy_wgpu

Render-graph plugins for bevy that draw to the primary window with wgpu.

- `src/` is the verified library (Verus): the render-graph wiring of each
  plugin, what the main render pass records (skip, clear, or clear and draw,
  with the indexed draw's ranges, the pass's labels and attachments, and how
  the draw binds its buffers), the packed vertex buffer layout and its
  non-overlap law, the index data of the pentagon, and the settings of the
  pipeline (entry points, color target, multisampling, primitive state) with
  the optional device features the primitive state needs.
- `app/` is the bevy program: plugin and render-node implementations that
  carry out what the library decides, the vertex data, and the GPU calls.
- `extras/shader.wgsl` is the shader of the pentagon pipeline.
