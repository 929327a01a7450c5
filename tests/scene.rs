use raytracer::material::{Material, MaterialKind};
use raytracer::protocol::{handle_signal, workgroup_counts, FrameAction, WindowSignal};
use raytracer::vector::Vec4;
use raytracer::world::{
    CameraFrame, SceneError, WorldData, CAPACITY, RECORD_BYTES, RECORD_WORDS,
};

fn bits(v: [f32; 4]) -> Vec4 {
    [v[0].to_bits(), v[1].to_bits(), v[2].to_bits(), v[3].to_bits()]
}

fn axis_camera() -> CameraFrame {
    CameraFrame {
        u: bits([1.0, 0.0, 0.0, 0.0]),
        v: bits([0.0, 1.0, 0.0, 0.0]),
        w: bits([0.0, 0.0, 1.0, 0.0]),
        pix_delta_x: bits([0.0033333334, 0.0, 0.0, 0.0]),
        pix_delta_y: bits([0.0, -0.0033333334, 0.0, 0.0]),
        pixel_up_left: bits([-1.3316667, 0.99833333, -1.0, 0.0]),
    }
}

fn other_camera() -> CameraFrame {
    CameraFrame {
        pix_delta_x: bits([0.005, 0.0, 0.0, 0.0]),
        pix_delta_y: bits([0.0, -0.005, 0.0, 0.0]),
        pixel_up_left: bits([-0.9975, 0.9975, -1.0, 0.0]),
        ..axis_camera()
    }
}

fn scene_800x600() -> WorldData {
    WorldData::new(
        800,
        600,
        bits([0.0, 0.0, 0.0, 0.0]),
        bits([0.0, 0.0, -1.0, 0.0]),
        90.0f32.to_bits(),
        10,
        5,
        axis_camera(),
    )
}

#[test]
fn lambertian_has_tag_zero_and_no_fuzz() {
    let m = Material::lambertian(bits([0.2, 0.8, 0.4, 1.0]));
    assert_eq!(m.kind(), MaterialKind::Lambertian);
    assert_eq!(m.kind_tag(), 0);
    assert_eq!(m.fuzz(), 0);
    assert_eq!(m.color(), bits([0.2, 0.8, 0.4, 1.0]));
}

#[test]
fn metallic_has_tag_one_and_keeps_fuzz() {
    let m = Material::metallic(bits([0.8, 0.8, 0.8, 1.0]), 0.3f32.to_bits());
    assert_eq!(m.kind(), MaterialKind::Metallic);
    assert_eq!(m.kind_tag(), 1);
    assert_eq!(m.fuzz(), 0.3f32.to_bits());
    assert_eq!(m.color(), bits([0.8, 0.8, 0.8, 1.0]));
}

#[test]
fn material_words_follow_layout() {
    let m = Material::metallic(bits([0.1, 0.2, 0.3, 1.0]), 0.5f32.to_bits());
    let mut out = vec![7u32];
    m.push_words(&mut out);
    let mut expected = vec![7u32];
    expected.extend_from_slice(&bits([0.1, 0.2, 0.3, 1.0]));
    expected.extend_from_slice(&[1, 0.5f32.to_bits(), 0, 0]);
    assert_eq!(out, expected);
}

#[test]
fn new_record_is_empty_with_counters_at_zero() {
    let world = scene_800x600();
    assert_eq!(world.window_width(), 800);
    assert_eq!(world.window_height(), 600);
    assert_eq!(world.sample_per_pixels(), 10);
    assert_eq!(world.max_depth(), 5);
    assert_eq!(world.frame(), 0);
    assert_eq!(world.frames_since_change(), 0);
    assert_eq!(world.sphere_count(), 0);
    assert_eq!(world.vfov(), 90.0f32.to_bits());
    assert_eq!(world.camera(), axis_camera());
    for i in 0..CAPACITY {
        assert_eq!(world.sphere(i), [0, 0, 0, 0]);
        let m = world.material(i);
        assert_eq!(m.kind(), MaterialKind::Lambertian);
        assert_eq!(m.color(), [0, 0, 0, 0]);
        assert_eq!(m.kind_tag(), 0);
        assert_eq!(m.fuzz(), 0);
    }
}

#[test]
fn scenario_one_sphere_one_frame() {
    let mut world = scene_800x600();
    let r = world.add_sphere(
        bits([0.0, -100.5, -1.0, 100.0]),
        Material::lambertian(bits([0.2, 0.8, 0.4, 1.0])),
    );
    assert_eq!(r, Ok(()));
    world.next_frame();
    assert_eq!(world.sphere_count(), 1);
    assert_eq!(world.frame(), 1);
    assert_eq!(world.camera().w, bits([0.0, 0.0, 1.0, 0.0]));
    assert_eq!(world.camera().u, bits([1.0, 0.0, 0.0, 0.0]));
    assert_eq!(world.camera().v, bits([0.0, 1.0, 0.0, 0.0]));
    assert_eq!(world.sphere(0), bits([0.0, -100.5, -1.0, 100.0]));
    assert_eq!(world.material(0).color(), bits([0.2, 0.8, 0.4, 1.0]));
}

#[test]
fn capacity_is_128_and_overflow_is_refused() {
    let mut world = scene_800x600();
    for i in 0..127u32 {
        let s = bits([i as f32, 0.0, -1.0, 0.5]);
        assert_eq!(world.add_sphere(s, Material::lambertian(bits([1.0, 0.0, 0.0, 1.0]))), Ok(()));
    }
    assert_eq!(world.sphere_count(), 127);
    let last = bits([127.0, 0.0, -1.0, 0.5]);
    assert_eq!(world.add_sphere(last, Material::metallic(bits([1.0; 4]), 0)), Ok(()));
    assert_eq!(world.sphere_count(), 128);
    assert_eq!(world.sphere(127), last);
    let before = world.to_words();
    let r = world.add_sphere(bits([9.0, 9.0, 9.0, 1.0]), Material::lambertian(bits([0.0; 4])));
    assert_eq!(r, Err(SceneError::CapacityExceeded));
    assert_eq!(world.sphere_count(), 128);
    assert_eq!(world.to_words(), before);
}

#[test]
fn next_frame_n_times_adds_n() {
    let mut world = scene_800x600();
    let before = world.to_words();
    for _ in 0..37 {
        world.next_frame();
    }
    assert_eq!(world.frame(), 37);
    assert_eq!(world.frames_since_change(), 37);
    let after = world.to_words();
    for i in 0..RECORD_WORDS {
        if i != 4 && i != 5 {
            assert_eq!(after[i], before[i]);
        }
    }
}

#[test]
fn resize_matches_fresh_record_and_keeps_scene() {
    let mut world = scene_800x600();
    let s0 = bits([0.0, -100.5, -1.0, 100.0]);
    let s1 = bits([0.0, 0.0, -1.2, 0.5]);
    let m0 = Material::lambertian(bits([0.2, 0.8, 0.4, 1.0]));
    let m1 = Material::metallic(bits([0.0, 1.0, 0.0, 1.0]), 0.25f32.to_bits());
    world.add_sphere(s0, m0).unwrap();
    world.add_sphere(s1, m1).unwrap();
    world.next_frame();
    world.next_frame();
    world.update_size(400, 400, other_camera());

    let mut fresh = WorldData::new(
        400,
        400,
        bits([0.0, 0.0, 0.0, 0.0]),
        bits([0.0, 0.0, -1.0, 0.0]),
        90.0f32.to_bits(),
        10,
        5,
        other_camera(),
    );
    fresh.add_sphere(s0, m0).unwrap();
    fresh.add_sphere(s1, m1).unwrap();
    fresh.next_frame();
    fresh.next_frame();

    assert_eq!(world.frame(), 2);
    assert_eq!(world.frames_since_change(), 0);
    assert_eq!(world.window_width(), 400);
    assert_eq!(world.camera(), other_camera());
    let a = world.to_words();
    let b = fresh.to_words();
    for i in 0..RECORD_WORDS {
        if i != 5 {
            assert_eq!(a[i], b[i], "word {}", i);
        }
    }
    assert_eq!(a[5], 0);
    assert_eq!(b[5], 2);
}

#[test]
fn repeated_resize_is_idempotent() {
    let mut world = scene_800x600();
    world.add_sphere(bits([1.0, 0.0, -1.0, 0.5]), Material::lambertian(bits([0.0, 1.0, 0.0, 1.0]))).unwrap();
    world.next_frame();
    world.update_size(1024, 768, other_camera());
    let once = world.to_words();
    world.update_size(1024, 768, other_camera());
    assert_eq!(world.to_words(), once);
}

#[test]
fn record_layout_offsets() {
    let mut world = scene_800x600();
    let s = bits([0.0, 0.0, -1.2, 0.5]);
    world.add_sphere(s, Material::metallic(bits([0.5, 0.6, 0.7, 1.0]), 0.1f32.to_bits())).unwrap();
    world.next_frame();
    let w = world.to_words();
    assert_eq!(w.len(), 1576);
    assert_eq!(RECORD_WORDS, 1576);
    assert_eq!(&w[0..8], &[800, 600, 10, 5, 1, 1, 90.0f32.to_bits(), 1]);
    assert_eq!(&w[8..12], &bits([0.0, 0.0, 0.0, 0.0]));
    assert_eq!(&w[12..16], &bits([0.0, 0.0, -1.0, 0.0]));
    assert_eq!(&w[16..20], &axis_camera().u);
    assert_eq!(&w[24..28], &axis_camera().w);
    assert_eq!(&w[36..40], &axis_camera().pixel_up_left);
    assert_eq!(&w[40..44], &s);
    assert_eq!(&w[44..48], &[0, 0, 0, 0]);
    let mat0 = 40 + 4 * 128;
    assert_eq!(mat0, 552);
    assert_eq!(&w[mat0..mat0 + 4], &bits([0.5, 0.6, 0.7, 1.0]));
    assert_eq!(&w[mat0 + 4..mat0 + 8], &[1, 0.1f32.to_bits(), 0, 0]);
    assert_eq!(&w[mat0 + 8..mat0 + 16], &[0, 0, 0, 0, 0, 0, 0, 0]);
    assert!(w[mat0 + 8..].iter().all(|&x| x == 0));
}

#[test]
fn record_bytes_are_the_words_in_memory_order() {
    let mut world = scene_800x600();
    world.add_sphere(bits([0.0, 0.0, -1.2, 0.5]), Material::lambertian(bits([1.0; 4]))).unwrap();
    let words = world.to_words();
    let bytes = world.to_bytes();
    assert_eq!(bytes.len(), 6304);
    assert_eq!(RECORD_BYTES, 6304);
    assert_eq!(RECORD_BYTES % 16, 0);
    for (i, word) in words.iter().enumerate() {
        assert_eq!(&bytes[4 * i..4 * i + 4], &word.to_ne_bytes());
    }
}

#[test]
fn redraw_signal_advances_and_asks_for_upload() {
    let mut world = scene_800x600();
    let a = handle_signal(&mut world, WindowSignal::RedrawRequested);
    assert_eq!(a, FrameAction::UploadAndRender);
    assert_eq!(world.frame(), 1);
    assert_eq!(world.frames_since_change(), 1);
}

#[test]
fn resize_signal_rebuilds_and_asks_for_reconfigure() {
    let mut world = scene_800x600();
    handle_signal(&mut world, WindowSignal::RedrawRequested);
    let a = handle_signal(
        &mut world,
        WindowSignal::Resized { width: 640, height: 480, camera: other_camera() },
    );
    assert_eq!(a, FrameAction::Reconfigure { width: 640, height: 480 });
    assert_eq!(world.window_width(), 640);
    assert_eq!(world.window_height(), 480);
    assert_eq!(world.frame(), 1);
    assert_eq!(world.frames_since_change(), 0);
    assert_eq!(world.camera(), other_camera());
}

#[test]
fn close_and_other_signals_leave_record() {
    let mut world = scene_800x600();
    let before = world.to_words();
    assert_eq!(handle_signal(&mut world, WindowSignal::CloseRequested), FrameAction::Exit);
    assert_eq!(handle_signal(&mut world, WindowSignal::Other), FrameAction::Ignore);
    assert_eq!(world.to_words(), before);
}

#[test]
fn workgroups_cover_every_pixel() {
    assert_eq!(workgroup_counts(800, 600), (100, 75, 1));
    assert_eq!(workgroup_counts(801, 1), (101, 1, 1));
    assert_eq!(workgroup_counts(0, 0), (0, 0, 1));
    assert_eq!(workgroup_counts(u32::MAX, 7), (536870912, 1, 1));
}
