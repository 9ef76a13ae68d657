use quadrender::renderer::pipeline::{PipelineRef, RawPipelineRef};
use quadrender::renderer::pipeline_store::PipelineStore;

const SHADER: &str = "@vertex fn vs_main(@builtin(vertex_index) i: u32) -> @builtin(position) vec4<f32> {
    return vec4<f32>(f32(i), 0.0, 0.0, 1.0);
}
@fragment fn fs_main() -> @location(0) vec4<f32> {
    return vec4<f32>(1.0, 1.0, 1.0, 1.0);
}";

fn pipeline(device: &wgpu::Device, label: &str) -> wgpu::RenderPipeline {
    let module = device.create_shader_module(wgpu::ShaderModuleDescriptor {
        label: Some(label),
        source: wgpu::ShaderSource::Wgsl(SHADER.into()),
    });
    device.create_render_pipeline(&wgpu::RenderPipelineDescriptor {
        label: Some(label),
        layout: None,
        vertex: wgpu::VertexState {
            module: &module,
            entry_point: Some("vs_main"),
            buffers: &[],
            compilation_options: Default::default(),
        },
        fragment: Some(wgpu::FragmentState {
            module: &module,
            entry_point: Some("fs_main"),
            targets: &[Some(wgpu::ColorTargetState {
                format: wgpu::TextureFormat::Rgba8Unorm,
                blend: None,
                write_mask: wgpu::ColorWrites::ALL,
            })],
            compilation_options: Default::default(),
        }),
        primitive: Default::default(),
        depth_stencil: None,
        multisample: Default::default(),
        multiview_mask: None,
        cache: None,
    })
}

#[test]
fn added_pipelines_are_found_by_their_handles() {
    let (device, _queue) = wgpu::Device::noop(&Default::default());
    let mut store = PipelineStore::new();
    assert!(store.has_room());
    assert!(store.get(RawPipelineRef::null()).is_none());
    let first: PipelineRef<(), ()> = store.add(None, pipeline(&device, "first"));
    assert!(!first.is_null());
    assert!(store.get(first.raw()).is_some());
    let second: PipelineRef<(), ()> = store.add(None, pipeline(&device, "second"));
    assert_ne!(first.raw().as_ffi(), second.raw().as_ffi());
    assert!(store.get(second.raw()).is_some());
    let second_before = store.get(second.raw()).unwrap().clone();
    let again = pipeline(&device, "again");
    let again_copy = again.clone();
    let replaced: PipelineRef<(), ()> = store.add(first.builder_key(), again);
    assert_eq!(replaced.raw().as_ffi(), first.raw().as_ffi());
    assert!(store.get(first.raw()) == Some(&again_copy));
    assert!(store.get(second.raw()) == Some(&second_before));
    assert!(store.get(RawPipelineRef::from_ffi(first.raw().as_ffi() + 2)).is_none());
}
