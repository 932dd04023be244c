use pandora::error::WindowError;
use pandora::surface::{PhysicalSize, SurfaceCapabilities};
use pandora::window::Window;
use wgpu::{CompositeAlphaMode, PresentMode, TextureFormat, TextureUsages};

fn capabilities() -> SurfaceCapabilities {
    SurfaceCapabilities {
        formats: vec![TextureFormat::Bgra8Unorm, TextureFormat::Bgra8UnormSrgb],
        present_modes: vec![PresentMode::Fifo, PresentMode::Immediate],
        alpha_modes: vec![CompositeAlphaMode::Opaque],
    }
}

fn nothing_supported() -> SurfaceCapabilities {
    SurfaceCapabilities { formats: vec![], present_modes: vec![], alpha_modes: vec![] }
}

fn open(width: u32, height: u32) -> Window<&'static str> {
    match Window::new("surface", PhysicalSize { width, height }, true, &capabilities()) {
        Ok(window) => window,
        Err(error) => panic!("no window: {:?}", error),
    }
}

#[test]
fn new_sets_up_the_window() {
    let window = open(800, 600);
    assert_eq!(window.surface, "surface");
    assert_eq!(window.size, PhysicalSize { width: 800, height: 600 });
    assert_eq!(window.config.width, 800);
    assert_eq!(window.config.height, 600);
    assert_eq!(window.config.format, TextureFormat::Bgra8UnormSrgb);
    assert_eq!(window.config.present_mode, PresentMode::Fifo);
    assert_eq!(window.config.alpha_mode, CompositeAlphaMode::Opaque);
    assert_eq!(window.config.usage, TextureUsages::RENDER_ATTACHMENT);
    assert_eq!(window.config.desired_maximum_frame_latency, 2);
    assert!(window.config.view_formats.is_empty());
}

#[test]
fn new_refuses_an_unsupported_surface() {
    let r = Window::new(1u8, PhysicalSize { width: 800, height: 600 }, false, &capabilities());
    assert!(matches!(r, Err(WindowError::SurfaceNotSupported)));
}

#[test]
fn new_refuses_an_unsupported_surface_without_capabilities() {
    let r = Window::new(1u8, PhysicalSize { width: 800, height: 600 }, false, &nothing_supported());
    assert!(matches!(r, Err(WindowError::SurfaceNotSupported)));
}

#[test]
fn resize_takes_up_a_drawable_size() {
    let mut window = open(800, 600);
    assert!(window.resize(PhysicalSize { width: 1024, height: 768 }));
    assert_eq!(window.size, PhysicalSize { width: 1024, height: 768 });
    assert_eq!(window.config.width, 1024);
    assert_eq!(window.config.height, 768);
    assert_eq!(window.config.format, TextureFormat::Bgra8UnormSrgb);
    assert_eq!(window.config.present_mode, PresentMode::Fifo);
    assert_eq!(window.config.desired_maximum_frame_latency, 2);
    assert_eq!(window.surface, "surface");
}

#[test]
fn resize_takes_up_the_smallest_and_the_largest_size() {
    let mut window = open(800, 600);
    assert!(window.resize(PhysicalSize { width: 1, height: 1 }));
    assert_eq!(window.config.width, 1);
    assert_eq!(window.config.height, 1);
    assert!(window.resize(PhysicalSize { width: u32::MAX, height: u32::MAX }));
    assert_eq!(window.size, PhysicalSize { width: u32::MAX, height: u32::MAX });
    assert_eq!(window.config.width, u32::MAX);
    assert_eq!(window.config.height, u32::MAX);
}

#[test]
fn resize_ignores_a_zero_width() {
    let mut window = open(800, 600);
    assert!(!window.resize(PhysicalSize { width: 0, height: 768 }));
    assert_eq!(window.size, PhysicalSize { width: 800, height: 600 });
    assert_eq!(window.config.width, 800);
    assert_eq!(window.config.height, 600);
}

#[test]
fn resize_ignores_a_zero_height() {
    let mut window = open(800, 600);
    assert!(!window.resize(PhysicalSize { width: 1024, height: 0 }));
    assert_eq!(window.size, PhysicalSize { width: 800, height: 600 });
    assert_eq!(window.config.width, 800);
    assert_eq!(window.config.height, 600);
}

#[test]
fn resize_ignores_an_empty_size() {
    let mut window = open(800, 600);
    assert!(!window.resize(PhysicalSize { width: 0, height: 0 }));
    assert_eq!(window.size, PhysicalSize { width: 800, height: 600 });
    assert_eq!(window.config.width, 800);
    assert_eq!(window.config.height, 600);
}

#[test]
fn resize_to_the_same_size_asks_to_configure() {
    let mut window = open(800, 600);
    assert!(window.resize(PhysicalSize { width: 800, height: 600 }));
    assert_eq!(window.size, PhysicalSize { width: 800, height: 600 });
    assert_eq!(window.config.width, 800);
    assert_eq!(window.config.height, 600);
}

#[test]
fn resize_fits_settings_that_were_changed_by_hand() {
    let mut window = open(800, 600);
    window.config.width = 5;
    let size = window.size;
    assert!(window.resize(size));
    assert_eq!(window.config.width, 800);
    assert_eq!(window.config.height, 600);
}
