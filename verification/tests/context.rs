use adi_gpu::error::Error;
use adi_gpu::resources::{NativeTexture, Shader, Style, Variant, VwShape};
use adi_gpu::surface::{create_surface_xcb, SurfaceError, WindowConnection};
use adi_gpu::vw::{close, Host, Vw, COLOR_FORMAT, FIRST_FREE, IMAGE_COUNT};

fn host(width: u32, height: u32, memory: u64) -> Host {
    Host { connection: WindowConnection::Xcb(9, 3), width, height, memory }
}

#[test]
fn context_starts_with_a_swapchain_of_the_window() {
    let vw = Vw::new("t", host(640, 480, 1000)).unwrap();
    assert!(vw.live());
    assert_eq!((vw.width(), vw.height()), (640, 480));
    assert_eq!(vw.image_count(), IMAGE_COUNT);
    assert_eq!(vw.image_count(), 2);
    assert_eq!(vw.color_format(), COLOR_FORMAT);
    assert_eq!(vw.image(), 0);
    assert_eq!(vw.used(), 0);
    assert_eq!(vw.memory(), 1000);
    assert_eq!(vw.instance, 1);
    assert_eq!(vw.request(), create_surface_xcb(1, 9, 3));
}

#[test]
fn context_is_refused_on_an_unsupported_connection() {
    let made = Vw::new(
        "t",
        Host { connection: WindowConnection::Wayland, width: 1, height: 1, memory: 1 },
    );
    assert!(matches!(made, Err(SurfaceError::Wayland)));
}

#[test]
fn close_tears_the_swapchain_down_and_keeps_the_size() {
    let mut vw = Vw::new("t", host(640, 480, 1000)).unwrap();
    close(&mut vw);
    assert!(!vw.live());
    assert_eq!(vw.image_count(), 0);
    assert_eq!((vw.width(), vw.height()), (640, 480));
    vw.set_size(10, 20);
    vw.build();
    assert!(vw.live());
    assert_eq!(vw.image_count(), 2);
    assert_eq!((vw.width(), vw.height()), (10, 20));
}

#[test]
fn images_take_turns() {
    let mut vw = Vw::new("t", host(1, 1, 0)).unwrap();
    assert_eq!(vw.acquire(), 1);
    assert_eq!(vw.acquire(), 0);
    assert_eq!(vw.acquire(), 1);
    assert_eq!(vw.image(), 1);
}

#[test]
fn allocation_takes_handles_and_bytes() {
    let mut vw = Vw::new("t", host(1, 1, 100)).unwrap();
    assert_eq!(vw.allocate(2, 40), Some(FIRST_FREE));
    assert_eq!(vw.used(), 40);
    assert_eq!(vw.allocate(3, 60), Some(FIRST_FREE + 2));
    assert_eq!(vw.used(), 100);
    assert_eq!(vw.allocate(1, 1), None);
    assert_eq!(vw.used(), 100);
    assert_eq!(vw.allocate(1, 0), Some(FIRST_FREE + 5));
    assert!(vw.has_room(1, 0));
    assert!(!vw.has_room(1, 1));
    assert!(!vw.has_room(u64::MAX, 0));
    assert_eq!(vw.allocate(u64::MAX, 0), None);
    assert_eq!(vw.take(4), FIRST_FREE + 6);
    assert_eq!(vw.take(1), FIRST_FREE + 10);
}

#[test]
fn shader_and_style_take_consecutive_handles() {
    let mut vw = Vw::new("t", host(1, 1, 0)).unwrap();
    let shader = Shader::create(&mut vw, &[1, 2, 3], &[4], 1).unwrap();
    assert_eq!(
        shader,
        Shader { vertex: FIRST_FREE, fragment: FIRST_FREE + 1, textures: 1, has_data: 0 }
    );
    let style = Style::create(&mut vw, &shader).unwrap();
    assert_eq!(
        style,
        Style {
            pipeline: FIRST_FREE + 2,
            descsetlayout: FIRST_FREE + 3,
            pipeline_layout: FIRST_FREE + 4,
        }
    );
    assert_eq!(vw.used(), 0);
}

#[test]
fn vertex_buffer_has_a_vertex_for_every_four_words() {
    let mut vw = Vw::new("t", host(1, 1, 1000)).unwrap();
    let buffer = VwShape::create(&mut vw, vec![0; 9]).unwrap();
    assert_eq!(buffer.count(), 2);
    assert_eq!(buffer.memory(), FIRST_FREE);
    assert_eq!(buffer.buffer(), FIRST_FREE + 1);
    assert_eq!(buffer.data(), &vec![0; 9]);
    assert_eq!(vw.used(), 36);
    let other = VwShape::create(&mut vw, vec![7; 16]).unwrap();
    assert_eq!(other.count(), 4);
    assert_eq!(other.memory(), FIRST_FREE + 2);
    assert_eq!(vw.used(), 100);
}

#[test]
fn vertex_buffer_is_refused_without_memory() {
    let mut vw = Vw::new("t", host(1, 1, 35)).unwrap();
    assert_eq!(VwShape::create(&mut vw, vec![0; 9]).unwrap_err(), Error::OutOfMemory);
    assert_eq!(vw.used(), 0);
    assert!(VwShape::create(&mut vw, vec![0; 8]).is_ok());
    assert_eq!(vw.used(), 32);
}

#[test]
fn texture_takes_six_handles_and_four_bytes_a_pixel() {
    let mut vw = Vw::new("t", host(1, 1, 100)).unwrap();
    let mut texture = NativeTexture::create(&mut vw, 3, 2, vec![1, 2, 3, 4, 5, 6]).unwrap();
    assert_eq!(texture.wh(), (3, 2));
    assert_eq!(texture.first(), FIRST_FREE);
    assert_eq!(texture.image_view(), FIRST_FREE + 5);
    assert_eq!(texture.pixels(), &vec![1, 2, 3, 4, 5, 6]);
    assert_eq!(vw.used(), 24);
    texture.set_pixels(vec![9, 8, 7, 6, 5, 4]);
    assert_eq!(texture.pixels(), &vec![9, 8, 7, 6, 5, 4]);
    assert_eq!(texture.wh(), (3, 2));
    assert_eq!(texture.first(), FIRST_FREE);
    assert_eq!(vw.used(), 24);
    assert_eq!(
        NativeTexture::create(&mut vw, 5, 4, vec![0; 20]).unwrap_err(),
        Error::OutOfMemory
    );
    assert_eq!(vw.used(), 24);
    let empty = NativeTexture::create(&mut vw, 0, 7, vec![]).unwrap();
    assert_eq!(empty.wh(), (0, 7));
    assert_eq!(empty.first(), FIRST_FREE + 6);
}

#[test]
fn variants_have_their_uniform_sizes() {
    assert_eq!(Variant::Solid.words(), 21);
    assert_eq!(Variant::Tinted.words(), 21);
    assert_eq!(Variant::Faded.words(), 18);
    assert_eq!(Variant::Gradient.words(), 17);
    assert_eq!(Variant::Texture.words(), 17);
    assert_eq!(Variant::Complex.words(), 17);
    assert_eq!(Variant::Solid.params(), 4);
    assert_eq!(Variant::Faded.params(), 1);
    assert!(!Variant::Solid.textured());
    assert!(!Variant::Gradient.textured());
    assert!(Variant::Texture.textured());
    assert!(Variant::Faded.textured());
    assert!(Variant::Tinted.textured());
    assert!(Variant::Complex.textured());
    assert!(Variant::Gradient.colored());
    assert!(Variant::Complex.colored());
    assert!(!Variant::Tinted.colored());
    let slots: Vec<usize> = [
        Variant::Solid,
        Variant::Gradient,
        Variant::Texture,
        Variant::Faded,
        Variant::Tinted,
        Variant::Complex,
    ]
    .iter()
    .map(|v| v.slot())
    .collect();
    assert_eq!(slots, vec![0, 1, 2, 3, 4, 5]);
}

#[test]
fn errors_have_their_own_text() {
    assert_eq!(Error::OutOfMemory.message(), "Out of device memory");
    assert_eq!(Error::NotReady.message(), "The display is not ready");
}
