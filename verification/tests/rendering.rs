use snake_engine::drw::texture::Texture;
use snake_engine::gpu::debug::{message_kind, message_level, LogLevel, MessageKind};
use snake_engine::render::{
    has_area, pack_rgba8, select_composite_alpha, vertex_offsets, AcquireOutcome,
    CompositeAlphaMode, PresentOutcome, Rgba8, SwapchainState,
};
use snake_engine::utils::vulkan::{
    device_score, enable_layer, graphics_family, select_render_device, transfer_family,
    DeviceCandidate, DeviceChoice, DeviceKind, QueueFamilyInfo,
};

#[test]
fn colour_word_layout() {
    assert_eq!(pack_rgba8(Rgba8 { r: 0x12, g: 0x34, b: 0x56, a: 0x78 }), 0x7856_3412);
    assert_eq!(pack_rgba8(Rgba8 { r: 255, g: 255, b: 255, a: 255 }), u32::MAX);
    assert_eq!(pack_rgba8(Rgba8 { r: 0, g: 0, b: 0, a: 0 }), 0);
    assert_eq!(pack_rgba8(Rgba8 { r: 1, g: 0, b: 0, a: 0 }), 1);
    assert_eq!(pack_rgba8(Rgba8 { r: 0, g: 0, b: 0, a: 1 }), 1 << 24);
}

#[test]
fn colour_word_channels_come_back() {
    let colour = Rgba8 { r: 200, g: 17, b: 3, a: 99 };
    let word = pack_rgba8(colour);
    assert_eq!((word & 0xff) as u8, colour.r);
    assert_eq!(((word >> 8) & 0xff) as u8, colour.g);
    assert_eq!(((word >> 16) & 0xff) as u8, colour.b);
    assert_eq!((word >> 24) as u8, colour.a);
    assert_ne!(word, pack_rgba8(Rgba8 { r: 200, g: 17, b: 3, a: 98 }));
}

#[test]
fn quad_offsets() {
    assert_eq!(vertex_offsets(0), Vec::<u32>::new());
    assert_eq!(vertex_offsets(4), vec![0, 4, 8, 12]);
}

#[test]
fn frames_need_area() {
    assert!(has_area(640, 480));
    assert!(!has_area(0, 480));
    assert!(!has_area(640, 0));
}

#[test]
fn swapchain_rebuild_requests() {
    let mut state = SwapchainState::new();
    assert!(!state.take_recreate());
    assert!(state.image_acquired(AcquireOutcome::Acquired { suboptimal: false }));
    assert!(!state.recreate_swapchain);
    assert!(state.image_acquired(AcquireOutcome::Acquired { suboptimal: true }));
    assert!(state.take_recreate());
    assert!(!state.recreate_swapchain);
    assert!(!state.image_acquired(AcquireOutcome::OutOfDate));
    assert!(state.recreate_swapchain);
    assert!(state.take_recreate());
    state.frame_presented(PresentOutcome::Presented);
    assert!(!state.recreate_swapchain);
    state.frame_presented(PresentOutcome::OutOfDate);
    assert!(state.recreate_swapchain);
    state.take_recreate();
    state.window_resized();
    assert!(state.take_recreate());
}

use CompositeAlphaMode::{Inherit, Opaque, PostMultiplied, PreMultiplied};

#[test]
fn composite_alpha_preference() {
    assert_eq!(select_composite_alpha(&vec![Opaque, PreMultiplied, PostMultiplied, Inherit]), Some(PreMultiplied));
    assert_eq!(select_composite_alpha(&vec![Opaque, PostMultiplied, Inherit]), Some(PostMultiplied));
    assert_eq!(select_composite_alpha(&vec![Opaque, Inherit]), Some(Inherit));
    assert_eq!(select_composite_alpha(&vec![Opaque]), Some(Opaque));
    assert_eq!(select_composite_alpha(&vec![]), None);
}

fn family(graphics: bool, transfer: bool, presents: bool) -> QueueFamilyInfo {
    QueueFamilyInfo { graphics, transfer, presents }
}

#[test]
fn queue_families() {
    let families = vec![family(false, true, false), family(true, true, false), family(true, true, true), family(false, true, true)];
    assert_eq!(graphics_family(&families), Some(2));
    assert_eq!(transfer_family(&families), Some(0));
    let only_graphics = vec![family(true, true, false), family(true, true, true)];
    assert_eq!(graphics_family(&only_graphics), Some(1));
    assert_eq!(transfer_family(&only_graphics), Some(1));
    let nothing = vec![family(false, false, true)];
    assert_eq!(graphics_family(&nothing), None);
    assert_eq!(transfer_family(&nothing), None);
}

#[test]
fn device_scores() {
    assert_eq!(device_score(DeviceKind::DiscreteGpu), 0);
    assert_eq!(device_score(DeviceKind::IntegratedGpu), 1);
    assert_eq!(device_score(DeviceKind::VirtualGpu), 2);
    assert_eq!(device_score(DeviceKind::Cpu), 3);
    assert_eq!(device_score(DeviceKind::Other), 4);
    assert_eq!(device_score(DeviceKind::Unknown), 5);
}

fn device(kind: DeviceKind, has_extensions: bool, queue_families: Vec<QueueFamilyInfo>) -> DeviceCandidate {
    DeviceCandidate { kind, has_extensions, queue_families }
}

#[test]
fn render_device_choice() {
    let candidates = vec![
        device(DeviceKind::Cpu, true, vec![family(true, true, true)]),
        device(DeviceKind::DiscreteGpu, false, vec![family(true, true, true)]),
        device(DeviceKind::IntegratedGpu, true, vec![family(false, true, false), family(true, true, true)]),
        device(DeviceKind::IntegratedGpu, true, vec![family(true, true, true)]),
    ];
    assert_eq!(
        select_render_device(&candidates),
        DeviceChoice { device: 2, graphics_family: 1, transfer_family: 0 }
    );
}

#[test]
fn render_device_first_of_best_score() {
    let candidates = vec![
        device(DeviceKind::Unknown, true, vec![family(true, false, true)]),
        device(DeviceKind::DiscreteGpu, true, vec![family(true, true, true)]),
        device(DeviceKind::DiscreteGpu, true, vec![family(false, true, false), family(true, true, true)]),
    ];
    assert_eq!(
        select_render_device(&candidates),
        DeviceChoice { device: 1, graphics_family: 0, transfer_family: 0 }
    );
}

#[test]
fn validation_layer_enabled_once() {
    let mut layers = vec![String::from("VK_LAYER_MESA_overlay")];
    enable_layer(&mut layers, String::from("VK_LAYER_KHRONOS_validation"));
    assert_eq!(layers, vec!["VK_LAYER_MESA_overlay", "VK_LAYER_KHRONOS_validation"]);
    enable_layer(&mut layers, String::from("VK_LAYER_KHRONOS_validation"));
    assert_eq!(layers.len(), 2);
}

#[test]
fn debug_message_classes() {
    assert_eq!(message_kind(true, true, false), MessageKind::General);
    assert_eq!(message_kind(false, true, true), MessageKind::Validation);
    assert_eq!(message_kind(false, false, true), MessageKind::Performance);
    assert_eq!(MessageKind::Validation.label(), "validation");
    assert_eq!(message_level(false, true, true, false), LogLevel::Warning);
    assert_eq!(message_level(true, false, false, true), LogLevel::Error);
    assert_eq!(message_level(false, false, true, true), LogLevel::Info);
    assert_eq!(message_level(false, false, false, true), LogLevel::Debug);
}

fn png_2x1() -> Vec<u8> {
    let mut bytes: Vec<u8> = Vec::new();
    let image = image::RgbaImage::from_raw(2, 1, vec![255, 0, 0, 255, 0, 255, 0, 128]).unwrap();
    image.write_to(&mut std::io::Cursor::new(&mut bytes), image::ImageFormat::Png).unwrap();
    bytes
}

#[test]
fn texture_decodes_png() {
    let texture = Texture::from_slice(&png_2x1()).unwrap();
    assert_eq!((texture.width, texture.height), (2, 1));
    assert_eq!(texture.image, vec![255, 0, 0, 255, 0, 255, 0, 128]);
    let decoded = Texture::decode(&png_2x1()).unwrap();
    assert_eq!(decoded.image.len(), 8);
}

#[test]
fn texture_from_no_bytes() {
    assert!(Texture::from_slice(&[]).is_none());
}

#[test]
fn texture_from_garbage() {
    assert!(Texture::decode(&[1, 2, 3, 4]).is_none());
    assert!(Texture::from_slice(&[1, 2, 3, 4]).is_none());
    assert!(Texture::from_slice(&png_2x1()).is_some());
}

#[test]
fn texture_new_keeps_fields() {
    let t = Texture::new(vec![1, 2, 3, 4], 1, 1);
    assert_eq!((t.image.clone(), t.width, t.height), (vec![1, 2, 3, 4], 1, 1));
}

#[test]
fn texture_encodes_png_that_decodes_back() {
    let texture = Texture::new(vec![255, 0, 0, 255, 0, 255, 0, 128], 2, 1);
    let png = texture.to_png().unwrap();
    assert_eq!(png, png_2x1());
    assert_eq!(&png[..8], &[0x89, b'P', b'N', b'G', 0x0d, 0x0a, 0x1a, 0x0a]);
    let back = Texture::from_slice(&png).unwrap();
    assert_eq!((back.width, back.height), (2, 1));
    assert_eq!(back.image, texture.image);
}

#[test]
fn texture_png_leaves_out_bytes_past_the_pixels() {
    let padded = Texture::new(vec![255, 0, 0, 255, 0, 255, 0, 128, 9, 9, 9, 9], 2, 1);
    assert_eq!(padded.to_png().unwrap(), png_2x1());
}
