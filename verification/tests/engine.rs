use adi_gpu::renderer::FOV;
use adi_gpu::values::{identity_transform, ONE};
use adi_gpu::vw::FIRST_FREE;
use adi_gpu::{
    Bindings, Camera, Command, Error, Fog, Host, Projection, Renderer, Rgb, Shader, State, Style,
    SurfaceError, Variant, Vec3, WindowConnection,
};

const IDENTITY: [u32; 16] = [ONE, 0, 0, 0, 0, ONE, 0, 0, 0, 0, ONE, 0, 0, 0, 0, ONE];

const BLUE: Rgb = Rgb { red: 0, green: 0, blue: ONE };

const ORIGIN: Camera =
    Camera { position: Vec3 { x: 0, y: 0, z: 0 }, rotation: Vec3 { x: 0, y: 0, z: 0 } };

fn begin(image: u32, color: Rgb) -> Command {
    Command::Begin { image, color, scene_camera: ORIGIN, scene_fog: None }
}

/// The first handle after those of the six styles.
const AFTER_STYLES: u64 = FIRST_FREE + 30;

fn host(width: u32, height: u32, memory: u64) -> Host {
    Host { connection: WindowConnection::Xcb(9, 3), width, height, memory }
}

fn engine(width: u32, height: u32) -> Renderer {
    Renderer::new("t", host(width, height, 1 << 20)).unwrap()
}

fn bits(values: &[f32]) -> Vec<u32> {
    values.iter().map(|v| v.to_bits()).collect()
}

fn rgba(r: f32, g: f32, b: f32, a: f32) -> [u32; 4] {
    [r.to_bits(), g.to_bits(), b.to_bits(), a.to_bits()]
}

#[test]
fn one_is_the_pattern_of_one() {
    assert_eq!(ONE, 1.0f32.to_bits());
}

#[test]
fn identity_has_ones_on_its_diagonal() {
    let expected: Vec<u32> = [
        1.0f32, 0.0, 0.0, 0.0, 0.0, 1.0, 0.0, 0.0, 0.0, 0.0, 1.0, 0.0, 0.0, 0.0, 0.0, 1.0,
    ]
    .iter()
    .map(|v| v.to_bits())
    .collect();
    assert_eq!(identity_transform().to_vec(), expected);
    assert_eq!(identity_transform(), IDENTITY);
}

#[test]
fn new_engine_is_ready_at_the_size_of_the_window() {
    let renderer = engine(640, 480);
    assert_eq!(renderer.state(), State::Ready);
    assert_eq!(renderer.wh(), (640, 480));
    assert_eq!(renderer.shape_count(), 0);
    assert_eq!(renderer.name(), "t");
    assert_eq!(renderer.vw().image_count(), 2);
    assert_eq!(renderer.vw().used(), 0);
    assert_eq!(renderer.get_projection(), Projection { height: 480, width: 640, fov: FOV });
    assert_eq!(renderer.get_projection().fov, 90);
    assert_eq!(renderer.background(), BLUE);
    assert_eq!(renderer.get_camera(), ORIGIN);
    assert_eq!(renderer.vw().name(), "t");
    assert_eq!(renderer.get_fog(), None);
    assert!(renderer.models().is_empty());
    assert!(renderer.gradients().is_empty());
    assert!(renderer.texcoords_list().is_empty());
}

#[test]
fn new_engine_has_a_style_for_every_variant() {
    let renderer = engine(1, 1);
    let variants = [
        Variant::Solid,
        Variant::Gradient,
        Variant::Texture,
        Variant::Faded,
        Variant::Tinted,
        Variant::Complex,
    ];
    for (slot, variant) in variants.iter().enumerate() {
        let first = FIRST_FREE + 5 * slot as u64;
        assert_eq!(
            renderer.shader(*variant),
            Shader {
                vertex: first,
                fragment: first + 1,
                textures: if variant.textured() { 1 } else { 0 },
                has_data: 0,
            }
        );
        assert_eq!(
            renderer.style(*variant),
            Style { pipeline: first + 2, descsetlayout: first + 3, pipeline_layout: first + 4 }
        );
    }
}

#[test]
fn new_engine_is_refused_on_an_unsupported_connection() {
    let made = Renderer::new(
        "t",
        Host { connection: WindowConnection::Web, width: 1, height: 1, memory: 1 },
    );
    assert!(matches!(made, Err(SurfaceError::Web)));
}

#[test]
fn settings_are_kept() {
    let mut renderer = engine(1, 1);
    renderer.color(Rgb { red: 1, green: 2, blue: 3 });
    renderer.camera(Vec3 { x: 4, y: 5, z: 6 }, Vec3 { x: 7, y: 8, z: 9 });
    renderer.fog(Some(Fog { begin: 10, end: 11 }));
    assert_eq!(renderer.background(), Rgb { red: 1, green: 2, blue: 3 });
    assert_eq!(
        renderer.get_camera(),
        Camera { position: Vec3 { x: 4, y: 5, z: 6 }, rotation: Vec3 { x: 7, y: 8, z: 9 } }
    );
    assert_eq!(renderer.get_fog(), Some(Fog { begin: 10, end: 11 }));
    renderer.fog(None);
    assert_eq!(renderer.get_fog(), None);
}

#[test]
fn frame_begins_with_the_settings_of_the_moment() {
    let mut renderer = engine(1, 1);
    let camera =
        Camera { position: Vec3 { x: 4, y: 5, z: 6 }, rotation: Vec3 { x: 7, y: 8, z: 9 } };
    renderer.color(Rgb { red: 1, green: 2, blue: 3 });
    renderer.camera(camera.position, camera.rotation);
    renderer.fog(Some(Fog { begin: 10, end: 11 }));
    let frame = renderer.update().unwrap();
    assert_eq!(
        frame[0],
        Command::Begin {
            image: 1,
            color: Rgb { red: 1, green: 2, blue: 3 },
            scene_camera: camera,
            scene_fog: Some(Fog { begin: 10, end: 11 }),
        }
    );
}

#[test]
fn empty_frame_clears_submits_presents_and_waits() {
    let mut renderer = engine(1, 1);
    renderer.color(Rgb { red: 5, green: 6, blue: 7 });
    let frame = renderer.update().unwrap();
    assert_eq!(
        frame,
        vec![
            begin(1, Rgb { red: 5, green: 6, blue: 7 }),
            Command::Submit,
            Command::Present { image: 1 },
            Command::Wait,
        ]
    );
    assert_eq!(renderer.state(), State::Ready);
    let frame = renderer.update().unwrap();
    assert_eq!(frame[0], begin(0, Rgb { red: 5, green: 6, blue: 7 }));
    assert_eq!(frame[2], Command::Present { image: 0 });
}

#[test]
fn frame_goes_from_ready_to_begun_and_back() {
    let mut renderer = engine(1, 1);
    assert_eq!(renderer.end_frame().unwrap_err(), Error::NotReady);
    let opening = renderer.begin_frame().unwrap();
    assert_eq!(opening, begin(1, BLUE));
    assert_eq!(renderer.state(), State::FrameBegun);
    assert_eq!(renderer.begin_frame().unwrap_err(), Error::NotReady);
    assert_eq!(renderer.update().unwrap_err(), Error::NotReady);
    assert_eq!(renderer.resize((2, 2)).unwrap_err(), Error::NotReady);
    assert_eq!(renderer.model(vec![0; 4]).unwrap_err(), Error::NotReady);
    assert_eq!(renderer.wh(), (1, 1));
    let closing = renderer.end_frame().unwrap();
    assert_eq!(closing, vec![Command::Submit, Command::Present { image: 1 }, Command::Wait]);
    assert_eq!(renderer.state(), State::Ready);
}

#[test]
fn solid_shape_is_drawn_with_its_buffer_and_its_instance() {
    let mut renderer = engine(640, 480);
    let place = renderer
        .solid(bits(&[0.0, 0.0, 0.0, 1.0, 0.0, 0.0, 0.0, 1.0, 0.0]), rgba(1.0, 0.0, 0.0, 1.0))
        .unwrap();
    assert_eq!(place, 0);
    assert_eq!(renderer.shape_count(), 1);
    let shape = &renderer.shapes()[0];
    assert_eq!(shape.model(), 0);
    assert_eq!(shape.buffer(), AFTER_STYLES + 1);
    assert_eq!(shape.count(), 2);
    assert!(!shape.hastx());
    let instance = shape.instance();
    assert_eq!(instance.first(), AFTER_STYLES + 2);
    assert_eq!(instance.descriptor_set(), AFTER_STYLES + 5);
    assert_eq!(instance.variant(), Variant::Solid);
    assert_eq!(instance.style(), renderer.style(Variant::Solid));
    let mut words = IDENTITY.to_vec();
    words.extend_from_slice(&rgba(1.0, 0.0, 0.0, 1.0));
    words.push(0);
    assert_eq!(instance.uniform(), &words);
    assert_eq!(
        instance.bindings(),
        Bindings {
            texture: 0,
            colors: 0,
            texcoords: 0,
            blending: false,
            fog: false,
            camera: false,
        }
    );
    assert_eq!(renderer.vw().used(), 4 * 9 + 4 * 21);
    let frame = renderer.update().unwrap();
    assert_eq!(
        frame,
        vec![
            begin(1, BLUE),
            Command::Draw {
                vertex_buffer: AFTER_STYLES + 1,
                vertex_count: 2,
                descriptor_set: AFTER_STYLES + 5,
                pipeline: FIRST_FREE + 2,
                blending: false,
                fog: false,
                camera: false,
            },
            Command::Submit,
            Command::Present { image: 1 },
            Command::Wait,
        ]
    );
}

#[test]
fn solid_makes_both_model_and_shape_or_neither() {
    // Room for the vertices, but not for the instance as well.
    let mut renderer = Renderer::new("t", host(1, 1, 4 * 8 + 4 * 21 - 1)).unwrap();
    assert_eq!(renderer.solid(vec![0; 8], [1, 2, 3, 4]).unwrap_err(), Error::OutOfMemory);
    assert_eq!(renderer.models().len(), 0);
    assert_eq!(renderer.shape_count(), 0);
    assert_eq!(renderer.vw().used(), 0);
    let mut renderer = Renderer::new("t", host(1, 1, 4 * 8 + 4 * 21)).unwrap();
    assert_eq!(renderer.solid(vec![0; 8], [1, 2, 3, 4]), Ok(0));
    assert_eq!(renderer.models().len(), 1);
    assert_eq!(renderer.shape_count(), 1);
    assert_eq!(renderer.vw().used(), 4 * 8 + 4 * 21);
    assert_eq!(renderer.solid(vec![], [1, 2, 3, 4]).unwrap_err(), Error::OutOfMemory);
}

#[test]
fn shapes_are_drawn_in_the_order_in_which_they_were_made() {
    let mut renderer = engine(1, 1);
    let far = renderer.model(vec![0; 12]).unwrap();
    let near = renderer.model(vec![0; 4]).unwrap();
    assert_eq!((far, near), (0, 1));
    let a = renderer.shape_solid(near, &IDENTITY, [1, 1, 1, 1], true, false, true).unwrap();
    let b = renderer.shape_solid(far, &IDENTITY, [2, 2, 2, 2], false, true, false).unwrap();
    let c = renderer.shape_solid(near, &IDENTITY, [3, 3, 3, 3], false, false, false).unwrap();
    assert_eq!((a, b, c), (0, 1, 2));
    let frame = renderer.update().unwrap();
    assert_eq!(frame.len(), 7);
    let drawn: Vec<(u64, u32, bool, bool, bool)> = frame
        .iter()
        .filter_map(|command| match command {
            Command::Draw { vertex_buffer, vertex_count, blending, fog, camera, .. } => {
                Some((*vertex_buffer, *vertex_count, *blending, *fog, *camera))
            }
            _ => None,
        })
        .collect();
    let far_buffer = renderer.models()[0].buffer();
    let near_buffer = renderer.models()[1].buffer();
    assert_eq!(
        drawn,
        vec![
            (near_buffer, 1, true, false, true),
            (far_buffer, 3, false, true, false),
            (near_buffer, 1, false, false, false),
        ]
    );
    let sets: Vec<u64> = renderer.shapes().iter().map(|s| s.instance().descriptor_set()).collect();
    let recorded: Vec<u64> = frame
        .iter()
        .filter_map(|command| match command {
            Command::Draw { descriptor_set, .. } => Some(*descriptor_set),
            _ => None,
        })
        .collect();
    assert_eq!(recorded, sets);
}

#[test]
fn transform_writes_the_transform_and_nothing_else() {
    let mut renderer = engine(1, 1);
    let model = renderer.model(vec![0; 4]).unwrap();
    let color = rgba(0.25, 0.5, 0.75, 1.0);
    let place = renderer.shape_solid(model, &IDENTITY, color, false, false, true).unwrap();
    let other = renderer.shape_solid(model, &IDENTITY, [9, 9, 9, 9], false, false, false).unwrap();
    let used = renderer.vw().used();
    let first = renderer.shapes()[place].instance().first();
    let untouched = renderer.shapes()[other].instance().uniform().clone();
    let mut moved = [0u32; 16];
    for (i, word) in moved.iter_mut().enumerate() {
        *word = 100 + i as u32;
    }
    assert_eq!(renderer.transform(place, &moved), Ok(()));
    let uniform = renderer.shapes()[place].instance().uniform();
    assert_eq!(uniform.len(), 21);
    assert_eq!(&uniform[..16], &moved);
    assert_eq!(&uniform[16..20], &color);
    assert_eq!(uniform[20], 1);
    assert_eq!(renderer.shapes()[place].instance().first(), first);
    assert_eq!(renderer.vw().used(), used);
    assert_eq!(renderer.shapes()[other].instance().uniform(), &untouched);
    assert_eq!(renderer.transform(place, &IDENTITY), Ok(()));
    let uniform = renderer.shapes()[place].instance().uniform();
    assert_eq!(&uniform[..16], &IDENTITY);
    assert_eq!(&uniform[16..20], &color);
}

#[test]
fn every_variant_binds_what_it_takes() {
    let mut renderer = engine(1, 1);
    let model = renderer.model(vec![0; 12]).unwrap();
    let colors = renderer.gradient(vec![1; 12]).unwrap();
    let tc = renderer.texcoords(vec![2; 12]).unwrap();
    let texture = renderer.texture(2, 2, vec![3; 4]).unwrap();
    let view = texture.image_view();
    let colors_buffer = renderer.gradients()[colors].buffer();
    let tc_buffer = renderer.texcoords_list()[tc].buffer();

    let g = renderer.shape_gradient(model, &IDENTITY, colors, true, true, true).unwrap();
    let t = renderer.shape_texture(model, &IDENTITY, &texture, tc, false, true, false).unwrap();
    let f = renderer.shape_faded(model, &IDENTITY, &texture, tc, 77, false, true).unwrap();
    let i = renderer
        .shape_tinted(model, &IDENTITY, &texture, tc, [5, 6, 7, 8], true, false, false)
        .unwrap();
    let c = renderer
        .shape_complex(model, &IDENTITY, &texture, tc, colors, false, false, true)
        .unwrap();
    assert_eq!((g, t, f, i, c), (0, 1, 2, 3, 4));

    let expected = [
        (Variant::Gradient, 17, false, 0, colors_buffer, 0, true, true, true),
        (Variant::Texture, 17, true, view, 0, tc_buffer, false, true, false),
        (Variant::Faded, 18, true, view, 0, tc_buffer, true, false, true),
        (Variant::Tinted, 21, true, view, 0, tc_buffer, true, false, false),
        (Variant::Complex, 17, true, view, colors_buffer, tc_buffer, false, false, true),
    ];
    for (place, want) in expected.iter().enumerate() {
        let shape = &renderer.shapes()[place];
        let instance = shape.instance();
        assert_eq!(instance.variant(), want.0);
        assert_eq!(instance.uniform().len(), want.1);
        assert_eq!(shape.hastx(), want.2);
        assert_eq!(instance.style(), renderer.style(want.0));
        assert_eq!(
            instance.bindings(),
            Bindings {
                texture: want.3,
                colors: want.4,
                texcoords: want.5,
                blending: want.6,
                fog: want.7,
                camera: want.8,
            }
        );
        assert_eq!(&instance.uniform()[..16], &IDENTITY);
        assert_eq!(
            *instance.uniform().last().unwrap(),
            if want.8 { 1 } else { 0 }
        );
    }
    assert_eq!(renderer.shapes()[2].instance().uniform()[16], 77);
    assert_eq!(&renderer.shapes()[3].instance().uniform()[16..20], &[5, 6, 7, 8]);
}

#[test]
fn resize_gives_the_new_size_and_drops_the_shapes() {
    let mut renderer = engine(640, 480);
    renderer.solid(vec![0; 12], [1, 2, 3, 4]).unwrap();
    renderer.update().unwrap();
    assert_eq!(renderer.vw().image(), 1);
    let used = renderer.vw().used();
    assert_eq!(renderer.resize((800, 600)), Ok(()));
    assert_eq!(renderer.wh(), (800, 600));
    assert_eq!(renderer.shape_count(), 0);
    assert_eq!(renderer.state(), State::Ready);
    assert_eq!(renderer.get_projection(), Projection { height: 600, width: 800, fov: 90 });
    assert_eq!(renderer.vw().image_count(), 2);
    assert_eq!(renderer.vw().image(), 0);
    // The uniform buffer of the dropped shape is given back; the model stays.
    assert_eq!(used, 4 * 12 + 4 * 21);
    assert_eq!(renderer.vw().used(), 4 * 12);
    assert_eq!(renderer.models().len(), 1);
    let frame = renderer.update().unwrap();
    assert_eq!(frame.len(), 4);
}

#[test]
fn resize_twice_to_the_same_size_changes_nothing() {
    let mut renderer = engine(640, 480);
    renderer.resize((300, 200)).unwrap();
    let before = (
        renderer.state(),
        renderer.wh(),
        renderer.vw().live(),
        renderer.vw().image_count(),
        renderer.vw().color_format(),
        renderer.get_projection(),
        renderer.shape_count(),
    );
    renderer.resize((300, 200)).unwrap();
    let after = (
        renderer.state(),
        renderer.wh(),
        renderer.vw().live(),
        renderer.vw().image_count(),
        renderer.vw().color_format(),
        renderer.get_projection(),
        renderer.shape_count(),
    );
    assert_eq!(before, after);
    assert_eq!(after.0, State::Ready);
    assert_eq!(after.3, 2);
}

#[test]
fn resize_goes_from_ready_to_resizing_and_back() {
    let mut renderer = engine(640, 480);
    renderer.solid(vec![0; 4], [1, 2, 3, 4]).unwrap();
    assert_eq!(renderer.finish_resize((1, 1)).unwrap_err(), Error::NotReady);
    assert_eq!(renderer.begin_resize(), Ok(()));
    assert_eq!(renderer.state(), State::Resizing);
    assert!(!renderer.vw().live());
    assert_eq!(renderer.vw().image_count(), 0);
    assert_eq!(renderer.shape_count(), 0);
    assert_eq!(renderer.wh(), (640, 480));
    assert_eq!(renderer.begin_resize().unwrap_err(), Error::NotReady);
    assert_eq!(renderer.update().unwrap_err(), Error::NotReady);
    assert_eq!(renderer.solid(vec![0; 4], [1, 2, 3, 4]).unwrap_err(), Error::NotReady);
    assert_eq!(renderer.finish_resize((10, 20)), Ok(()));
    assert_eq!(renderer.state(), State::Ready);
    assert!(renderer.vw().live());
    assert_eq!(renderer.wh(), (10, 20));
}

#[test]
fn closed_engine_refuses_everything() {
    let mut renderer = engine(640, 480);
    let model = renderer.model(vec![0; 4]).unwrap();
    let mut texture = renderer.texture(1, 1, vec![5]).unwrap();
    renderer.shape_solid(model, &IDENTITY, [1, 2, 3, 4], false, false, false).unwrap();
    assert_eq!(renderer.vw().used(), 16 + 4 + 84);
    renderer.close();
    assert_eq!(renderer.state(), State::Uninitialized);
    assert!(!renderer.vw().live());
    assert_eq!(renderer.shape_count(), 0);
    assert_eq!(renderer.vw().used(), 16 + 4);
    assert_eq!(renderer.update().unwrap_err(), Error::NotReady);
    assert_eq!(renderer.resize((1, 1)).unwrap_err(), Error::NotReady);
    assert_eq!(renderer.model(vec![0; 4]).unwrap_err(), Error::NotReady);
    assert_eq!(renderer.gradient(vec![0; 4]).unwrap_err(), Error::NotReady);
    assert_eq!(renderer.texcoords(vec![0; 4]).unwrap_err(), Error::NotReady);
    assert_eq!(renderer.texture(1, 1, vec![0]).unwrap_err(), Error::NotReady);
    assert_eq!(renderer.set_texture(&mut texture, vec![6]).unwrap_err(), Error::NotReady);
    assert_eq!(texture.pixels(), &vec![5]);
    assert_eq!(
        renderer.shape_solid(model, &IDENTITY, [1, 2, 3, 4], false, false, false).unwrap_err(),
        Error::NotReady
    );
    assert_eq!(renderer.wh(), (640, 480));
    renderer.close();
    assert_eq!(renderer.state(), State::Uninitialized);
}

#[test]
fn failed_allocation_leaves_the_engine_as_it_was() {
    let mut renderer = Renderer::new("t", host(1, 1, 100)).unwrap();
    let model = renderer.model(vec![0; 4]).unwrap();
    assert_eq!(renderer.vw().used(), 16);
    // 84 bytes are left: exactly one solid instance.
    assert_eq!(renderer.model(vec![0; 22]).unwrap_err(), Error::OutOfMemory);
    assert_eq!(renderer.gradient(vec![0; 22]).unwrap_err(), Error::OutOfMemory);
    assert_eq!(renderer.texcoords(vec![0; 22]).unwrap_err(), Error::OutOfMemory);
    assert_eq!(renderer.texture(11, 2, vec![0; 22]).unwrap_err(), Error::OutOfMemory);
    assert_eq!(renderer.vw().used(), 16);
    assert_eq!(renderer.models().len(), 1);
    assert_eq!(renderer.state(), State::Ready);
    assert_eq!(renderer.shape_solid(model, &IDENTITY, [0; 4], false, false, false), Ok(0));
    assert_eq!(renderer.vw().used(), 100);
    assert_eq!(
        renderer.shape_solid(model, &IDENTITY, [0; 4], false, false, false).unwrap_err(),
        Error::OutOfMemory
    );
    assert_eq!(renderer.shape_count(), 1);
    assert_eq!(renderer.update().unwrap().len(), 5);
}

#[test]
fn set_texture_replaces_the_pixels_and_keeps_the_image() {
    let mut renderer = engine(1, 1);
    let mut texture = renderer.texture(2, 3, vec![1, 2, 3, 4, 5, 6]).unwrap();
    let used = renderer.vw().used();
    assert_eq!(used, 24);
    let first = texture.first();
    assert_eq!(renderer.set_texture(&mut texture, vec![6, 5, 4, 3, 2, 1]), Ok(()));
    assert_eq!(texture.pixels(), &vec![6, 5, 4, 3, 2, 1]);
    assert_eq!(texture.wh(), (2, 3));
    assert_eq!(texture.first(), first);
    assert_eq!(renderer.vw().used(), used);
}
