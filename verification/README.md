# quadrender

The verified core of a small wgpu renderer, written in Verus.

`src/` is the library. Every function in it is checked by Verus against its
`requires` and `ensures`:

- `renderer::bindings` and `renderer::shaders`: bind group layouts, entry by
  entry, for the renderer's shaders and bindable resources.
- `renderer::shader_type`: vertex formats, WGSL struct text, attribute
  packing and the location offsets of vertex and instance buffers.
- `renderer::texture`: how a texture builder's options resolve into a
  format, usage, view formats and sampler.
- `renderer::pipeline`, `renderer::pipeline_store`, `renderer::slot_key`,
  `renderer::mesh`: typed handles, pipeline descriptions and the pipeline
  slot map.
- `renderer::instance`: instance bytes gathered per pass and the instance
  ranges batches draw.
- `renderer::model`, `sprite`, `resource_manager`, `utils`, `time`: index
  rewinding, atlas frame indices, resource handles, a reusable pool, and a
  tick timer.

Calls into wgpu, slotmap and std that the library relies on stand behind
small trusted wrappers, each with a doc comment saying what its contract
claims.

`app/` holds the device side (creating textures, bind groups, shaders and
pipelines on a `wgpu::Device`) and the floating-point parts (transforms,
display scaling, frame rate). `tests/` exercises the library; pipeline tests
run on wgpu's no-op device.
