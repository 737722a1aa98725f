use kardashev_ui::graphics::backend::{BackendId, BackendType, PerBackend};
use kardashev_ui::graphics::buffer::{grow_capacity, padded_buffer_size, wgpu_buffer_size};
use kardashev_ui::graphics::draw_batch::{instance_draw, DrawBatcher, MeshMaterialPairKey};
use kardashev_ui::graphics::render_frame::RenderFrameInfo;
use std::time::Duration;
use kardashev_ui::graphics::id::IdCounter;
use kardashev_ui::graphics::loading::{BackendResource, BackendResourceId, OnGpu};
use kardashev_ui::graphics::material_layout::{MaterialBindGroupLayoutBuilder, MaterialBinding, MaterialBindingKind};
use kardashev_ui::graphics::pipeline::{add_point_light, Channel, MAX_POINT_LIGHTS};
use kardashev_ui::graphics::stats::{texture_memory_size, track, track_with, ResourceUsages, Track, TrackedResource};
use kardashev_ui::graphics::{
    backend_to_try, select_surface_format, settle_backend, MemoryHints, SelectBackendType, SurfaceSize, WindowHandle,
};

#[test]
fn ids_count_up_from_one() {
    let mut ids = IdCounter::new();
    assert_eq!(ids.allocate(), 1);
    assert_eq!(ids.allocate(), 2);
    let backend = BackendId::new(&mut ids);
    assert_eq!(backend.get(), 3);
    let window = WindowHandle::new(&mut ids);
    assert_eq!(window.id(), 4);
    let resource: BackendResourceId<u8> = BackendResourceId::new(&mut ids);
    assert_eq!(resource.get(), 5);
    assert_eq!(ids.allocate(), 6);
    assert_eq!(ids.peek(), 7);
    assert_eq!(ids.peek(), 7);
}

#[test]
fn backend_ids_are_distinct() {
    let mut ids = IdCounter::new();
    let a = BackendId::new(&mut ids);
    let b = BackendId::new(&mut ids);
    assert_ne!(a, b);
    assert_eq!(a, a);
}

#[test]
fn backend_types() {
    assert!(BackendType::WebGpu.uses_shared_backend());
    assert!(!BackendType::WebGl.uses_shared_backend());
    assert_eq!(BackendType::default(), BackendType::WebGl);
    assert_eq!(SelectBackendType::default(), SelectBackendType::AutoDetect);
    assert_eq!(MemoryHints::default(), MemoryHints::Performance);
}

#[test]
fn backend_selection() {
    assert_eq!(backend_to_try(SelectBackendType::AutoDetect), BackendType::WebGpu);
    assert_eq!(backend_to_try(SelectBackendType::Select(BackendType::WebGl)), BackendType::WebGl);
    let detected: Result<(BackendType, Option<u8>), &str> = settle_backend(SelectBackendType::AutoDetect, Ok(7));
    assert_eq!(detected, Ok((BackendType::WebGpu, Some(7))));
    let fallback: Result<(BackendType, Option<u8>), &str> = settle_backend(SelectBackendType::AutoDetect, Err("no gpu"));
    assert_eq!(fallback, Ok((BackendType::WebGl, None)));
    let chosen: Result<(BackendType, Option<u8>), &str> =
        settle_backend(SelectBackendType::Select(BackendType::WebGpu), Ok(1));
    assert_eq!(chosen, Ok((BackendType::WebGpu, Some(1))));
    let failed: Result<(BackendType, Option<u8>), &str> =
        settle_backend(SelectBackendType::Select(BackendType::WebGpu), Err("no gpu"));
    assert_eq!(failed, Err("no gpu"));
}

#[test]
fn surface_format_prefers_srgb() {
    assert_eq!(select_surface_format(&[false, true, true]), 1);
    assert_eq!(select_surface_format(&[false, false]), 0);
    assert_eq!(select_surface_format(&[true]), 0);
}

#[test]
fn canvas_size_is_at_least_one_pixel() {
    assert_eq!(SurfaceSize::from_canvas_size(0, 0), SurfaceSize { width: 1, height: 1 });
    assert_eq!(SurfaceSize::from_canvas_size(640, 480), SurfaceSize { width: 640, height: 480 });
    assert_eq!(SurfaceSize::from_canvas_size(3, 0), SurfaceSize { width: 3, height: 1 });
}

#[test]
fn per_backend_inserts_once() {
    let mut ids = IdCounter::new();
    let a = BackendId::new(&mut ids);
    let b = BackendId::new(&mut ids);
    let mut per: PerBackend<String> = PerBackend::default();
    assert!(per.get(a).is_none());
    let failed: Result<&String, &str> = per.get_or_try_insert(a, || Err("failed"));
    assert_eq!(failed, Err("failed"));
    assert!(per.get(a).is_none());
    let v: Result<&String, &str> = per.get_or_try_insert(a, || Ok("first".to_string()));
    assert_eq!(v.unwrap(), "first");
    let again: Result<&String, &str> = per.get_or_try_insert(a, || Ok("second".to_string()));
    assert_eq!(again.unwrap(), "first");
    assert!(per.get(b).is_none());
    let other: Result<&String, &str> = per.get_or_try_insert(b, || Ok("other".to_string()));
    assert_eq!(other.unwrap(), "other");
    assert_eq!(per.get(a).unwrap(), "first");
}

#[test]
fn loaded_resources_share_their_identifier() {
    let mut ids = IdCounter::new();
    let r = BackendResource::new(42u32, &mut ids);
    let s = BackendResource::new(42u32, &mut ids);
    let copy = r.clone();
    assert!(copy.same_as(&r));
    assert!(!s.same_as(&r));
    assert_eq!(*copy.get(), 42);
    assert_eq!(r.id().get(), 1);
    assert!(r.id().same_as(&copy.id()));
    assert!(copy == r);
    assert!(s != r);
    assert!(r.id() == copy.id());
    assert!(r.id() != s.id());
}

#[test]
fn on_gpu_loads_once_per_backend() {
    let mut ids = IdCounter::new();
    let backend = BackendId::new(&mut ids);
    let other = BackendId::new(&mut ids);
    let mut gpu: OnGpu<&str> = OnGpu::default();
    assert!(gpu.get(backend).is_none());
    let err: Result<(), u8> = gpu.load(backend, &mut ids, || Err(9));
    assert_eq!(err, Err(9));
    assert!(gpu.get(backend).is_none());
    let ok: Result<(), u8> = gpu.load(backend, &mut ids, || Ok("mesh"));
    assert_eq!(ok, Ok(()));
    let loaded = gpu.get(backend).unwrap();
    assert_eq!(*loaded.get(), "mesh");
    assert_eq!(loaded.id().get(), 3);
    let again: Result<(), u8> = gpu.load(backend, &mut ids, || Ok("other mesh"));
    assert_eq!(again, Ok(()));
    assert_eq!(*gpu.get(backend).unwrap().get(), "mesh");
    assert!(gpu.get(other).is_none());
    assert_eq!(ids.allocate(), 4);
}

fn key(mesh: usize, material: usize) -> MeshMaterialPairKey {
    MeshMaterialPairKey { mesh, material }
}

#[test]
fn draw_batcher_groups_instances_by_key() {
    let mut batcher: DrawBatcher<&str, u32> = DrawBatcher::new();
    assert!(batcher.prepare().is_none());
    batcher.push(key(1, 1), || "a", 10);
    batcher.push(key(2, 1), || "b", 20);
    batcher.push(key(1, 1), || "never made", 11);
    batcher.push(key(3, 3), || "c", 30);
    batcher.push(key(2, 1), || "never made", 21);
    batcher.push(key(1, 1), || "never made", 12);
    let batch = batcher.prepare().unwrap();
    assert_eq!(batch.instances, vec![10, 11, 12, 20, 21, 30]);
    assert_eq!(batch.items.len(), 3);
    assert_eq!(batch.items[0].value, "a");
    assert_eq!(batch.items[0].range, 0..3);
    assert_eq!(batch.items[1].value, "b");
    assert_eq!(batch.items[1].range, 3..5);
    assert_eq!(batch.items[2].value, "c");
    assert_eq!(batch.items[2].range, 5..6);
    assert!(batcher.prepare().is_none());
}

#[test]
fn resource_usages_count_up_and_down() {
    let mut stats = ResourceUsages::default();
    assert_eq!(stats, ResourceUsages::new());
    stats.begin(TrackedResource::Buffer { size: 256 });
    stats.begin(TrackedResource::Texture { size: 1024 });
    stats.begin(TrackedResource::Sampler);
    assert_eq!(stats.buffers, 1);
    assert_eq!(stats.buffer_memory, 256);
    assert_eq!(stats.textures, 1);
    assert_eq!(stats.texture_memory, 1024);
    assert_eq!(stats.samplers, 1);
    stats.end(TrackedResource::Buffer { size: 256 });
    assert_eq!(stats.buffers, 0);
    assert_eq!(stats.buffer_memory, 0);
    stats.end(TrackedResource::Texture { size: 1024 });
    stats.end(TrackedResource::Sampler);
    assert_eq!(stats, ResourceUsages::new());
}

#[test]
fn tracked_values_are_counted_while_alive() {
    let mut stats = ResourceUsages::new();
    let buffer: Track<&str> = track("buffer", TrackedResource::Buffer { size: 64 }, &mut stats);
    let texture = track_with("texture", 4096, &mut stats);
    let view = Track::new(5u8, TrackedResource::TextureView, &mut stats);
    assert_eq!(*buffer.get(), "buffer");
    assert_eq!(stats.buffers, 1);
    assert_eq!(stats.buffer_memory, 64);
    assert_eq!(stats.textures, 1);
    assert_eq!(stats.texture_memory, 4096);
    assert_eq!(stats.texture_views, 1);
    assert_eq!(buffer.into_inner(&mut stats), "buffer");
    assert_eq!(texture.into_inner(&mut stats), "texture");
    assert_eq!(view.into_inner(&mut stats), 5);
    assert_eq!(stats, ResourceUsages::new());
}

#[test]
fn texture_memory_is_pixels_times_byte_cost() {
    assert_eq!(texture_memory_size(16, 8, 2, Some(8)), 2048);
    assert_eq!(texture_memory_size(16, 8, 1, None), 512);
    assert_eq!(texture_memory_size(0, 8, 1, Some(4)), 0);
}

#[test]
fn buffer_sizes_are_padded() {
    assert_eq!(padded_buffer_size(0), 4);
    assert_eq!(padded_buffer_size(1), 4);
    assert_eq!(padded_buffer_size(4), 4);
    assert_eq!(padded_buffer_size(5), 8);
    assert_eq!(padded_buffer_size(63), 64);
    assert_eq!(wgpu_buffer_size::<[u8; 3]>(), 4);
    assert_eq!(wgpu_buffer_size::<[f32; 5]>(), 20);
    assert_eq!(wgpu_buffer_size::<u64>(), 8);
    assert_eq!(wgpu_buffer_size::<()>(), 4);
}

#[test]
fn buffers_grow_by_doubling() {
    assert_eq!(grow_capacity(1024, 100), None);
    assert_eq!(grow_capacity(1024, 1024), None);
    assert_eq!(grow_capacity(1024, 1025), Some(2048));
    assert_eq!(grow_capacity(1024, 5000), Some(5000));
    assert_eq!(grow_capacity(0, 3), Some(3));
}

#[test]
fn debug_channels_are_numbered() {
    let channels = [
        Channel::Position,
        Channel::Normal,
        Channel::Diffuse,
        Channel::Occlusion,
        Channel::Specular,
        Channel::Shininess,
        Channel::Emission,
    ];
    let numbers: Vec<u32> = channels.iter().map(|c| c.as_u32()).collect();
    assert_eq!(numbers, vec![0, 1, 2, 3, 4, 5, 6]);
}

#[test]
fn point_lights_fill_up() {
    let mut lights = [0u8; MAX_POINT_LIGHTS];
    let mut count = 0u32;
    for k in 0..MAX_POINT_LIGHTS {
        assert!(add_point_light(&mut lights, &mut count, (k + 1) as u8));
        assert_eq!(count as usize, k + 1);
    }
    assert!(!add_point_light(&mut lights, &mut count, 99));
    assert_eq!(count as usize, MAX_POINT_LIGHTS);
    assert_eq!(lights[0], 1);
    assert_eq!(lights[15], 16);
    assert!(!lights.contains(&99));
}

#[test]
fn material_layout_bindings_are_numbered() {
    let mut builder = MaterialBindGroupLayoutBuilder::default();
    builder.set_label("material bind group").push_view().push_sampler();
    builder.push_many_views_and_samplers(2);
    builder.push_view_and_sampler();
    assert_eq!(builder.label(), Some("material bind group"));
    let entries = builder.entries();
    assert_eq!(entries.len(), 8);
    for (k, e) in entries.iter().enumerate() {
        let kind = if k % 2 == 0 { MaterialBindingKind::View } else { MaterialBindingKind::Sampler };
        assert_eq!(*e, MaterialBinding { binding: k as u32, kind });
    }
    let empty = MaterialBindGroupLayoutBuilder::default();
    assert_eq!(empty.label(), None);
    assert!(empty.entries().is_empty());
}

#[test]
fn counters_report_what_fits() {
    let mut stats = ResourceUsages::new();
    assert!(stats.fits_begin(TrackedResource::Buffer { size: u64::MAX }));
    assert!(!stats.fits_end(TrackedResource::Buffer { size: 0 }));
    assert!(!stats.fits_end(TrackedResource::ShaderModule));
    stats.begin(TrackedResource::Buffer { size: 10 });
    assert!(!stats.fits_begin(TrackedResource::Buffer { size: u64::MAX - 9 }));
    assert!(stats.fits_begin(TrackedResource::Buffer { size: u64::MAX - 10 }));
    assert!(stats.fits_end(TrackedResource::Buffer { size: 10 }));
    assert!(!stats.fits_end(TrackedResource::Buffer { size: 11 }));
    stats.buffers = usize::MAX;
    assert!(!stats.fits_begin(TrackedResource::Buffer { size: 0 }));
    let t = Track::new((), TrackedResource::Sampler, &mut stats);
    assert_eq!(t.tracked_resource(), TrackedResource::Sampler);
}

#[test]
fn counting_order_does_not_matter() {
    let mut a = ResourceUsages::new();
    a.begin(TrackedResource::Texture { size: 7 });
    a.begin(TrackedResource::BindGroup);
    let mut b = ResourceUsages::new();
    b.begin(TrackedResource::BindGroup);
    b.begin(TrackedResource::Texture { size: 7 });
    assert_eq!(a, b);
    a.end(TrackedResource::BindGroup);
    a.begin(TrackedResource::BindGroup);
    assert_eq!(a, b);
}

#[test]
fn legacy_draw_calls_bind_instance_indices() {
    let d = instance_draw(3, 7);
    assert_eq!(d.slice, 3..7);
    assert_eq!(d.instances, 0..4);
    let empty = instance_draw(5, 5);
    assert_eq!(empty.instances, 0..0);
}

#[test]
fn frame_time_is_recorded() {
    let mut info = RenderFrameInfo::default();
    assert_eq!(info.frame_time(), Duration::ZERO);
    info.record_frame(Duration::from_millis(16));
    assert_eq!(info.frame_time(), Duration::from_millis(16));
}

#[test]
fn resource_handles_are_ordered_by_identifier() {
    let mut ids = IdCounter::new();
    let a = BackendResource::new('a', &mut ids);
    let b = BackendResource::new('b', &mut ids);
    assert!(a < b);
    assert!(a.id() < b.id());
    assert_eq!(a.partial_cmp(&a.clone()), Some(std::cmp::Ordering::Equal));
    assert_eq!(b.id().partial_cmp(&a.id()), Some(std::cmp::Ordering::Greater));
}
