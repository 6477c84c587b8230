//! The frame engine: the state of one display on its backend context.
//!
//! The engine is a state machine. It is made ready, with a swapchain sized
//! to the window. A frame takes it from ready to begun and back; a resize
//! takes it from ready to resizing and back, and empties the list of shapes.
//! Closing it, or losing the device, leaves it uninitialized for good.

use vstd::prelude::*;
use crate::command::Command;
use crate::error::Error;
use crate::instance::{Bindings, Shape, ShapeView, VwInstance, VwInstanceView};
use crate::resources::{fits, NativeTexture, Shader, Style, Variant, VwShape, VwShapeView};
use crate::surface::SurfaceError;
use crate::values::{identity, identity_transform, Camera, Fog, Rgb, Vec3, ONE};
use crate::vw::{close, Host, Vw, VwView, COLOR_FORMAT, FIRST_FREE, IMAGE_COUNT, INSTANCE};

verus! {

/// The vertical field of view, in degrees.
pub const FOV: u32 = 90;

/// The states of the frame engine.
#[derive(Clone, Copy, Debug, PartialEq, Eq, Structural)]
pub enum State {
    /// No swapchain stands, and none will: the display was closed or lost.
    Uninitialized,
    /// A swapchain stands, and no frame is being recorded.
    Ready,
    /// A frame is being recorded.
    FrameBegun,
    /// The swapchain was torn down and the next one is not built yet.
    Resizing,
}

/// What the projection matrix is computed from: the aspect ratio, as the
/// height over the width, and the vertical field of view in degrees.
#[derive(Clone, Copy, Debug, PartialEq, Eq, Structural)]
pub struct Projection {
    pub height: u32,
    pub width: u32,
    pub fov: u32,
}

/// The projection for a swapchain of the given dimensions.
pub open spec fn projection(width: u32, height: u32) -> Projection {
    Projection { height, width, fov: FOV }
}

/// The bindings of a draw that binds neither texture nor colors.
pub open spec fn plain(blending: bool, fog: bool, camera: bool) -> Bindings {
    Bindings { texture: 0, colors: 0, texcoords: 0, blending, fog, camera }
}

/// The shader that a new engine has at a place: the four textured variants
/// sample one texture, the other two none.
pub open spec fn initial_shader(slot: int) -> Shader {
    Shader {
        vertex: (FIRST_FREE + 5 * slot) as u64,
        fragment: (FIRST_FREE + 5 * slot + 1) as u64,
        textures: if slot < 2 {
            0
        } else {
            1
        },
        has_data: 0,
    }
}

/// The bytes of device memory that the uniform buffers of a list of shapes
/// take: four for every word.
pub open spec fn bytes_of(shapes: Seq<ShapeView>) -> nat
    decreases shapes.len(),
{
    if shapes.len() == 0 {
        0
    } else {
        bytes_of(shapes.drop_last()) + 4 * (shapes.last().instance.variant.words() as nat)
    }
}

/// A shape at the end of a list adds the bytes of its own uniform buffer.
pub proof fn lemma_bytes_push(shapes: Seq<ShapeView>, shape: ShapeView)
    ensures
        bytes_of(shapes.push(shape)) == bytes_of(shapes) + 4 * (
        shape.instance.variant.words() as nat),
{
    assert(shapes.push(shape).drop_last() =~= shapes);
}

/// A shape that is replaced by one of its own variant leaves the bytes of
/// the list as they were.
pub proof fn lemma_bytes_update(shapes: Seq<ShapeView>, place: int, shape: ShapeView)
    requires
        0 <= place < shapes.len(),
        shape.instance.variant == shapes[place].instance.variant,
    ensures
        bytes_of(shapes.update(place, shape)) == bytes_of(shapes),
    decreases shapes.len(),
{
    let after = shapes.update(place, shape);
    if place == shapes.len() - 1 {
        assert(after.drop_last() =~= shapes.drop_last());
    } else {
        assert(after.drop_last() =~= shapes.drop_last().update(place, shape));
        lemma_bytes_update(shapes.drop_last(), place, shape);
    }
}

/// The style that a new engine has at a place: each style takes five
/// handles, two for the modules of its shader and three of its own.
pub open spec fn initial_style(slot: int) -> Style {
    Style {
        pipeline: (FIRST_FREE + 5 * slot + 2) as u64,
        descsetlayout: (FIRST_FREE + 5 * slot + 3) as u64,
        pipeline_layout: (FIRST_FREE + 5 * slot + 4) as u64,
    }
}

/// Makes the shader of a variant that samples `textures` textures, and
/// compiles its style.
fn compile(vw: &mut Vw, textures: u32) -> (made: (Shader, Style))
    requires
        old(vw).wf(),
        old(vw)@.next_handle + 5 <= u64::MAX,
    ensures
        final(vw).wf(),
        final(vw)@ == old(vw)@.taken(5, 0),
        made.0 == (Shader {
            vertex: old(vw)@.next_handle,
            fragment: (old(vw)@.next_handle + 1) as u64,
            textures,
            has_data: 0,
        }),
        made.1 == (Style {
            pipeline: (old(vw)@.next_handle + 2) as u64,
            descsetlayout: (old(vw)@.next_handle + 3) as u64,
            pipeline_layout: (old(vw)@.next_handle + 4) as u64,
        }),
{
    let modules = vw.take(2);
    let shader = Shader { vertex: modules, fragment: modules + 1, textures, has_data: 0 };
    let first = vw.take(3);
    (shader, Style { pipeline: first, descsetlayout: first + 1, pipeline_layout: first + 2 })
}

/// Records the commands that end a frame on an image.
fn record(shapes: &Vec<Shape>, image: u32) -> (commands: Vec<Command>)
    requires
        forall|i: int| 0 <= i < shapes@.len() ==> (#[trigger] shapes@[i]).wf(),
    ensures
        commands@ == closing(shape_views(shapes@), image),
{
    let mut commands: Vec<Command> = Vec::new();
    let mut i: usize = 0;
    while i < shapes.len()
        invariant
            i <= shapes@.len(),
            forall|k: int| 0 <= k < shapes@.len() ==> (#[trigger] shapes@[k]).wf(),
            commands@ == draws(shape_views(shapes@)).subrange(0, i as int),
        decreases shapes@.len() - i,
    {
        let command = shapes[i].draw();
        commands.push(command);
        i = i + 1;
        assert(commands@ =~= draws(shape_views(shapes@)).subrange(0, i as int));
    }
    assert(commands@ =~= draws(shape_views(shapes@)));
    commands.push(Command::Submit);
    commands.push(Command::Present { image });
    commands.push(Command::Wait);
    assert(commands@ =~= closing(shape_views(shapes@), image));
    commands
}

/// Uploads vertex data and puts the buffer at the end of a list.
fn upload(vw: &mut Vw, list: &mut Vec<VwShape>, data: Vec<u32>) -> (place: Result<usize, Error>)
    requires
        old(vw).wf(),
        forall|i: int|
            0 <= i < buffer_views(old(list)@).len() ==> (#[trigger] buffer_views(
                old(list)@,
            )[i]).wf(),
    ensures
        final(vw).wf(),
        forall|i: int|
            0 <= i < buffer_views(final(list)@).len() ==> (#[trigger] buffer_views(
                final(list)@,
            )[i]).wf(),
        place is Ok <==> fits(old(vw)@, 2, data@.len()),
        place matches Ok(i) ==> {
            &&& i == old(list)@.len()
            &&& buffer_views(final(list)@) == buffer_views(old(list)@).push(
                VwShapeView::uploaded(old(vw)@, data@),
            )
            &&& final(vw)@ == old(vw)@.taken(2, (4 * data@.len()) as u64)
        },
        place matches Err(e) ==> {
            &&& e == Error::OutOfMemory
            &&& final(vw)@ == old(vw)@
            &&& buffer_views(final(list)@) == buffer_views(old(list)@)
        },
{
    let ghost uploaded = VwShapeView::uploaded(vw@, data@);
    match VwShape::create(vw, data) {
        Ok(buffer) => {
            let place = list.len();
            list.push(buffer);
            assert(buffer_views(list@) =~= buffer_views(old(list)@).push(uploaded));
            assert forall|i: int| 0 <= i < buffer_views(list@).len() implies (#[trigger] buffer_views(
                list@,
            )[i]).wf() by {
                if i < place {
                    assert(buffer_views(list@)[i] == buffer_views(old(list)@)[i]);
                }
            }
            Ok(place)
        },
        Err(e) => Err(e),
    }
}

/// The frame engine of one display.
pub struct Renderer {
    vw: Vw,
    shapes: Vec<Shape>,
    shaders: [Shader; 6],
    styles: [Style; 6],
    projection: Projection,
    state: State,
    color: Rgb,
    camera: Camera,
    fog: Option<Fog>,
    models: Vec<VwShape>,
    gradients: Vec<VwShape>,
    texcoords: Vec<VwShape>,
    /// The bytes that the uniform buffers of the live shapes take.
    instance_bytes: u64,
}

/// What a frame engine is, to its callers.
pub struct RendererView {
    pub state: State,
    pub vw: VwView,
    /// The live shapes, in the order in which they were made.
    pub shapes: Seq<ShapeView>,
    /// The six shaders and the six styles, each at the place of its variant.
    pub shaders: Seq<Shader>,
    pub styles: Seq<Style>,
    pub projection: Projection,
    /// The color that the next frame is cleared to.
    pub color: Rgb,
    pub camera: Camera,
    pub fog: Option<Fog>,
    pub models: Seq<VwShapeView>,
    pub gradients: Seq<VwShapeView>,
    pub texcoords: Seq<VwShapeView>,
}

/// The views of a list of shapes.
pub open spec fn shape_views(shapes: Seq<Shape>) -> Seq<ShapeView> {
    Seq::new(shapes.len(), |i: int| shapes[i]@)
}

/// The views of a list of vertex buffers.
pub open spec fn buffer_views(buffers: Seq<VwShape>) -> Seq<VwShapeView> {
    Seq::new(buffers.len(), |i: int| buffers[i]@)
}

/// The draw commands of a list of shapes, one for each shape, in the order
/// of the list.
pub open spec fn draws(shapes: Seq<ShapeView>) -> Seq<Command> {
    Seq::new(shapes.len(), |i: int| shapes[i].draw())
}

/// The commands that end a frame on an image: after the draws, submit,
/// present and wait.
pub open spec fn closing(shapes: Seq<ShapeView>, image: u32) -> Seq<Command> {
    draws(shapes) + seq![Command::Submit, Command::Present { image }, Command::Wait]
}

impl View for Renderer {
    type V = RendererView;

    closed spec fn view(&self) -> RendererView {
        RendererView {
            state: self.state,
            vw: self.vw@,
            shapes: shape_views(self.shapes@),
            shaders: self.shaders@,
            styles: self.styles@,
            projection: self.projection,
            color: self.color,
            camera: self.camera,
            fog: self.fog,
            models: buffer_views(self.models@),
            gradients: buffer_views(self.gradients@),
            texcoords: buffer_views(self.texcoords@),
        }
    }
}

impl RendererView {
    /// The style of a variant.
    pub open spec fn style(self, variant: Variant) -> Style {
        self.styles[variant.slot() as int]
    }

    /// The image that the next frame is drawn to: the images take turns.
    pub open spec fn next_image(self) -> u32 {
        ((self.vw.image + 1) % 2) as u32
    }

    /// The command that begins the next frame.
    pub open spec fn opening(self) -> Command {
        Command::Begin {
            image: self.next_image(),
            color: self.color,
            scene_camera: self.camera,
            scene_fog: self.fog,
        }
    }

    /// All the commands of the next frame.
    pub open spec fn frame(self) -> Seq<Command> {
        seq![self.opening()] + closing(self.shapes, self.next_image())
    }

    /// What holds of every engine, over its view: a swapchain stands exactly
    /// while the engine is ready or inside a frame, and then it has two
    /// images; the projection is that of the swapchain's dimensions; there
    /// are shapes only while a swapchain stands, and the memory of their
    /// uniform buffers is among the memory taken; every shape is well-formed
    /// and drawn with the style of its variant; every vertex buffer is
    /// well-formed.
    pub open spec fn wf(self) -> bool {
        &&& self.vw.live == (self.state is Ready || self.state is FrameBegun)
        &&& self.vw.live ==> self.vw.image_count == IMAGE_COUNT && self.vw.image < IMAGE_COUNT
        &&& !self.vw.live ==> self.vw.image_count == 0 && self.vw.image == 0
        &&& self.vw.color_format == COLOR_FORMAT
        &&& self.vw.used <= self.vw.memory
        &&& self.vw.next_handle >= FIRST_FREE
        &&& self.projection == projection(self.vw.width, self.vw.height)
        &&& self.shaders.len() == 6
        &&& self.styles.len() == 6
        &&& bytes_of(self.shapes) <= self.vw.used
        &&& self.vw.live || self.shapes.len() == 0
        &&& forall|i: int|
            0 <= i < self.shapes.len() ==> (#[trigger] self.shapes[i]).wf()
                && self.shapes[i].instance.style == self.style(self.shapes[i].instance.variant)
        &&& forall|i: int| 0 <= i < self.models.len() ==> (#[trigger] self.models[i]).wf()
        &&& forall|i: int| 0 <= i < self.gradients.len() ==> (#[trigger] self.gradients[i]).wf()
        &&& forall|i: int| 0 <= i < self.texcoords.len() ==> (#[trigger] self.texcoords[i]).wf()
    }

    /// The context after the swapchain was torn down and every shape was
    /// dropped: the memory of the shapes' uniform buffers is given back.
    pub open spec fn dropped(self) -> VwView {
        VwView {
            live: false,
            image_count: 0,
            image: 0,
            ..self.vw.released(bytes_of(self.shapes) as u64)
        }
    }

    /// The engine after a resize to `width` by `height`: ready, with a new
    /// swapchain of those dimensions and the projection for them, and with
    /// no shape.
    pub open spec fn resized(self, width: u32, height: u32) -> RendererView {
        RendererView {
            state: State::Ready,
            vw: VwView {
                width,
                height,
                live: true,
                image_count: IMAGE_COUNT,
                image: 0,
                ..self.dropped()
            },
            shapes: Seq::empty(),
            projection: projection(width, height),
            ..self
        }
    }

    /// The engine that is made for a window titled `name` on a host: ready,
    /// with a swapchain of the window's dimensions, the shaders and styles
    /// of the six variants, no shape and no buffer, and a blue background.
    pub open spec fn opened(name: Seq<char>, host: Host) -> RendererView {
        RendererView {
            state: State::Ready,
            vw: VwView {
                width: host.width,
                height: host.height,
                live: true,
                image_count: IMAGE_COUNT,
                color_format: COLOR_FORMAT,
                image: 0,
                used: 0,
                memory: host.memory,
                next_handle: (FIRST_FREE + 30) as u64,
                request: host.connection.surface(INSTANCE)->Ok_0,
                name,
            },
            shapes: Seq::empty(),
            shaders: Seq::new(6, |slot: int| initial_shader(slot)),
            styles: Seq::new(6, |slot: int| initial_style(slot)),
            projection: projection(host.width, host.height),
            color: Rgb { red: 0, green: 0, blue: ONE },
            camera: Camera {
                position: Vec3 { x: 0, y: 0, z: 0 },
                rotation: Vec3 { x: 0, y: 0, z: 0 },
            },
            fog: None,
            models: Seq::empty(),
            gradients: Seq::empty(),
            texcoords: Seq::empty(),
        }
    }

    /// The failure of an operation that starts from the ready state and
    /// allocates: not ready, or else out of memory.
    pub open spec fn refusal(self) -> Error {
        if self.state is Ready {
            Error::OutOfMemory
        } else {
            Error::NotReady
        }
    }

    /// Whether a shape of a variant can be made: the engine is ready, and
    /// the device has four handles and the bytes of the uniform buffer left.
    pub open spec fn can_draw(self, variant: Variant) -> bool {
        self.state is Ready && self.vw.has_room(4, (4 * variant.words()) as u64)
    }

    /// The context after `words` words were uploaded under `handles` handles.
    pub open spec fn charged(self, handles: u64, words: nat) -> VwView {
        self.vw.taken(handles, (4 * words) as u64)
    }

    /// The shape that a draw of `variant` makes of the model at place
    /// `model`: the model's buffer, with an instance made on the engine's
    /// context and bound to the variant's style.
    pub open spec fn shape(
        self,
        variant: Variant,
        model: usize,
        transform: Seq<u32>,
        params: Seq<u32>,
        bindings: Bindings,
    ) -> ShapeView {
        ShapeView::paired(
            model,
            self.models[model as int].buffer,
            self.models[model as int].count,
            VwInstanceView::made(
                self.vw,
                self.style(variant),
                variant,
                transform,
                params,
                bindings,
            ),
        )
    }

    /// The engine after a shape was made and put at the end of the list.
    pub open spec fn with_shape(
        self,
        variant: Variant,
        model: usize,
        transform: Seq<u32>,
        params: Seq<u32>,
        bindings: Bindings,
    ) -> RendererView {
        RendererView {
            shapes: self.shapes.push(self.shape(variant, model, transform, params, bindings)),
            vw: self.charged(4, variant.words() as nat),
            ..self
        }
    }

    /// The engine after a model was uploaded.
    pub open spec fn with_model(self, data: Seq<u32>) -> RendererView {
        RendererView {
            models: self.models.push(VwShapeView::uploaded(self.vw, data)),
            vw: self.charged(2, data.len()),
            ..self
        }
    }

    /// The engine after a gradient was uploaded.
    pub open spec fn with_gradient(self, data: Seq<u32>) -> RendererView {
        RendererView {
            gradients: self.gradients.push(VwShapeView::uploaded(self.vw, data)),
            vw: self.charged(2, data.len()),
            ..self
        }
    }

    /// The engine after texture coordinates were uploaded.
    pub open spec fn with_texcoords(self, data: Seq<u32>) -> RendererView {
        RendererView {
            texcoords: self.texcoords.push(VwShapeView::uploaded(self.vw, data)),
            vw: self.charged(2, data.len()),
            ..self
        }
    }

    /// The engine after a transform was written to the shape at `shape`.
    pub open spec fn with_transform(self, shape: usize, transform: Seq<u32>) -> RendererView {
        RendererView {
            shapes: self.shapes.update(shape as int, self.shapes[shape as int].moved(transform)),
            ..self
        }
    }

    /// The engine after a frame was begun.
    pub open spec fn begun(self) -> RendererView {
        RendererView {
            state: State::FrameBegun,
            vw: VwView { image: self.next_image(), ..self.vw },
            ..self
        }
    }

    /// The engine after the frame that was begun was ended.
    pub open spec fn ended(self) -> RendererView {
        RendererView { state: State::Ready, ..self }
    }

    /// The engine after the swapchain was torn down for a resize.
    pub open spec fn torn_down(self) -> RendererView {
        RendererView { state: State::Resizing, vw: self.dropped(), shapes: Seq::empty(), ..self }
    }

    /// The engine after it was closed.
    pub open spec fn closed(self) -> RendererView {
        RendererView {
            state: State::Uninitialized,
            vw: self.dropped(),
            shapes: Seq::empty(),
            ..self
        }
    }
}

impl Renderer {
    /// The engine's invariant: that of its context, of its shapes and of its
    /// vertex buffers, and what its view says of them.
    pub closed spec fn wf(&self) -> bool {
        &&& self.vw.wf()
        &&& self@.wf()
        &&& self.instance_bytes == bytes_of(self@.shapes)
        &&& forall|i: int| 0 <= i < self.shapes@.len() ==> (#[trigger] self.shapes@[i]).wf()
    }

    /// A well-formed engine has a well-formed view.
    pub proof fn lemma_wf(&self)
        requires
            self.wf(),
        ensures
            self@.wf(),
    {
    }

    /// Makes the engine for a window titled `window_name`: creates the
    /// backend context with its first swapchain, sized to the window, and
    /// compiles the six styles. Fails where no surface can be made on the
    /// window's connection, and only there.
    pub fn new(window_name: &str, host: Host) -> (made: Result<Renderer, SurfaceError>)
        ensures
            made is Ok <==> host.connection.supported(),
            made matches Err(e) ==> host.connection.surface(INSTANCE) == Err::<
                crate::surface::SurfaceCreateInfo,
                SurfaceError,
            >(e),
            made matches Ok(renderer) ==> renderer.wf() && renderer@ == RendererView::opened(
                window_name@,
                host,
            ),
    {
        let mut vw = match Vw::new(window_name, host) {
            Ok(vw) => vw,
            Err(e) => {
                return Err(e);
            },
        };
        let solid = compile(&mut vw, 0);
        let gradient = compile(&mut vw, 0);
        let texture = compile(&mut vw, 1);
        let faded = compile(&mut vw, 1);
        let tinted = compile(&mut vw, 1);
        let complex = compile(&mut vw, 1);
        let renderer = Renderer {
            vw,
            shapes: Vec::new(),
            shaders: [solid.0, gradient.0, texture.0, faded.0, tinted.0, complex.0],
            styles: [solid.1, gradient.1, texture.1, faded.1, tinted.1, complex.1],
            projection: Projection { height: host.height, width: host.width, fov: FOV },
            state: State::Ready,
            color: Rgb { red: 0, green: 0, blue: ONE },
            camera: Camera {
                position: Vec3 { x: 0, y: 0, z: 0 },
                rotation: Vec3 { x: 0, y: 0, z: 0 },
            },
            fog: None,
            models: Vec::new(),
            gradients: Vec::new(),
            texcoords: Vec::new(),
            instance_bytes: 0,
        };
        proof {
            renderer.vw.lemma_wf();
            assert(renderer@.shaders =~= Seq::new(6, |slot: int| initial_shader(slot)));
            assert(renderer@.styles =~= Seq::new(6, |slot: int| initial_style(slot)));
            assert(renderer@.shapes =~= Seq::empty());
            assert(renderer@.models =~= Seq::empty());
            assert(renderer@.gradients =~= Seq::empty());
            assert(renderer@.texcoords =~= Seq::empty());
            assert(renderer@.vw == RendererView::opened(window_name@, host).vw);
        }
        Ok(renderer)
    }

    /// Begins a frame: acquires the next image and starts recording with the
    /// command that clears it to the background color. The engine must be
    /// ready, and is then inside a frame.
    pub fn begin_frame(&mut self) -> (begun: Result<Command, Error>)
        requires
            old(self).wf(),
        ensures
            final(self).wf(),
            begun is Ok <==> old(self)@.state is Ready,
            begun matches Ok(command) ==> command == old(self)@.opening() && final(self)@ == old(
                self,
            )@.begun(),
            begun matches Err(e) ==> e == Error::NotReady && final(self)@ == old(self)@,
    {
        if self.state != State::Ready {
            return Err(Error::NotReady);
        }
        let image = self.vw.acquire();
        self.state = State::FrameBegun;
        Ok(
            Command::Begin {
                image,
                color: self.color,
                scene_camera: self.camera,
                scene_fog: self.fog,
            },
        )
    }

    /// Ends the frame that was begun: records one draw for every live shape,
    /// in the order in which the shapes were made, then submits, presents
    /// the image and waits for the device. The engine is ready again.
    pub fn end_frame(&mut self) -> (ended: Result<Vec<Command>, Error>)
        requires
            old(self).wf(),
        ensures
            final(self).wf(),
            ended is Ok <==> old(self)@.state is FrameBegun,
            ended matches Ok(commands) ==> commands@ == closing(
                old(self)@.shapes,
                old(self)@.vw.image,
            ) && final(self)@ == old(self)@.ended(),
            ended matches Err(e) ==> e == Error::NotReady && final(self)@ == old(self)@,
    {
        if self.state != State::FrameBegun {
            return Err(Error::NotReady);
        }
        let commands = record(&self.shapes, self.vw.image());
        self.state = State::Ready;
        Ok(commands)
    }

    /// Runs one frame, from its beginning to the wait for the device, and
    /// returns the commands that it recorded. The engine must be ready, and
    /// is ready again.
    pub fn update(&mut self) -> (frame: Result<Vec<Command>, Error>)
        requires
            old(self).wf(),
        ensures
            final(self).wf(),
            frame is Ok <==> old(self)@.state is Ready,
            frame matches Ok(commands) ==> commands@ == old(self)@.frame() && final(self)@ == old(
                self,
            )@.begun().ended(),
            frame matches Err(e) ==> e == Error::NotReady && final(self)@ == old(self)@,
    {
        let opening = match self.begin_frame() {
            Ok(command) => command,
            Err(e) => {
                return Err(e);
            },
        };
        let closing = match self.end_frame() {
            Ok(commands) => commands,
            Err(e) => {
                return Err(e);
            },
        };
        let mut commands: Vec<Command> = Vec::new();
        commands.push(opening);
        let mut closing = closing;
        let ghost tail = closing@;
        commands.append(&mut closing);
        assert(commands@ =~= seq![opening] + tail);
        Ok(commands)
    }

    /// Begins a resize: tears the whole swapchain down and drops every
    /// shape, which gives the memory of the shapes' uniform buffers back.
    /// The engine must be ready, and is then resizing.
    pub fn begin_resize(&mut self) -> (begun: Result<(), Error>)
        requires
            old(self).wf(),
        ensures
            final(self).wf(),
            begun is Ok <==> old(self)@.state is Ready,
            begun is Ok ==> final(self)@ == old(self)@.torn_down(),
            begun matches Err(e) ==> e == Error::NotReady && final(self)@ == old(self)@,
    {
        if self.state != State::Ready {
            return Err(Error::NotReady);
        }
        close(&mut self.vw);
        self.vw.release(self.instance_bytes);
        self.shapes = Vec::new();
        self.instance_bytes = 0;
        self.state = State::Resizing;
        assert(self@.shapes =~= Seq::empty());
        Ok(())
    }

    /// Ends a resize: builds the swapchain anew at `size`, width first, and
    /// computes the projection for it. The engine must be resizing, and is
    /// then ready.
    pub fn finish_resize(&mut self, size: (u32, u32)) -> (ended: Result<(), Error>)
        requires
            old(self).wf(),
        ensures
            final(self).wf(),
            ended is Ok <==> old(self)@.state is Resizing,
            ended is Ok ==> final(self)@ == old(self)@.resized(size.0, size.1),
            ended matches Err(e) ==> e == Error::NotReady && final(self)@ == old(self)@,
    {
        if self.state != State::Resizing {
            return Err(Error::NotReady);
        }
        self.vw.set_size(size.0, size.1);
        self.vw.build();
        self.projection = Projection { height: size.1, width: size.0, fov: FOV };
        self.state = State::Ready;
        assert(self@.shapes =~= Seq::empty());
        Ok(())
    }

    /// Resizes the display to `size`, width first: tears the swapchain down,
    /// builds it anew at the new dimensions, drops every shape, and computes
    /// the projection anew. The engine must be ready, and is ready again.
    /// Shapes have to be made anew after a resize; models, gradients,
    /// texture coordinates and textures stay.
    pub fn resize(&mut self, size: (u32, u32)) -> (resized: Result<(), Error>)
        requires
            old(self).wf(),
        ensures
            final(self).wf(),
            resized is Ok <==> old(self)@.state is Ready,
            resized is Ok ==> {
                &&& final(self)@ == old(self)@.resized(size.0, size.1)
                &&& final(self)@.vw.width == size.0
                &&& final(self)@.vw.height == size.1
                &&& final(self)@.shapes.len() == 0
                &&& final(self)@.state is Ready
            },
            resized matches Err(e) ==> e == Error::NotReady && final(self)@ == old(self)@,
    {
        match self.begin_resize() {
            Ok(()) => {},
            Err(e) => {
                return Err(e);
            },
        }
        self.finish_resize(size)
    }

    /// Uploads the vertices of a model, four words to the vertex, and puts
    /// the model at the end of the list of models. Returns the model's
    /// place. Takes two handles and four bytes for every word.
    pub fn model(&mut self, vertices: Vec<u32>) -> (place: Result<usize, Error>)
        requires
            old(self).wf(),
        ensures
            final(self).wf(),
            place is Ok <==> old(self)@.state is Ready && fits(old(self)@.vw, 2, vertices@.len()),
            place matches Ok(i) ==> i == old(self)@.models.len() && final(self)@ == old(
                self,
            )@.with_model(vertices@),
            place matches Err(e) ==> e == old(self)@.refusal() && final(self)@ == old(self)@,
    {
        if self.state != State::Ready {
            return Err(Error::NotReady);
        }
        upload(&mut self.vw, &mut self.models, vertices)
    }

    /// Uploads the colors of a gradient, one color of four words to the
    /// vertex, and puts the gradient at the end of the list of gradients.
    /// Returns the gradient's place.
    pub fn gradient(&mut self, colors: Vec<u32>) -> (place: Result<usize, Error>)
        requires
            old(self).wf(),
        ensures
            final(self).wf(),
            place is Ok <==> old(self)@.state is Ready && fits(old(self)@.vw, 2, colors@.len()),
            place matches Ok(i) ==> i == old(self)@.gradients.len() && final(self)@ == old(
                self,
            )@.with_gradient(colors@),
            place matches Err(e) ==> e == old(self)@.refusal() && final(self)@ == old(self)@,
    {
        if self.state != State::Ready {
            return Err(Error::NotReady);
        }
        upload(&mut self.vw, &mut self.gradients, colors)
    }

    /// Uploads texture coordinates, four words to the vertex, and puts them
    /// at the end of the list of texture coordinates. Returns their place.
    pub fn texcoords(&mut self, coords: Vec<u32>) -> (place: Result<usize, Error>)
        requires
            old(self).wf(),
        ensures
            final(self).wf(),
            place is Ok <==> old(self)@.state is Ready && fits(old(self)@.vw, 2, coords@.len()),
            place matches Ok(i) ==> i == old(self)@.texcoords.len() && final(self)@ == old(
                self,
            )@.with_texcoords(coords@),
            place matches Err(e) ==> e == old(self)@.refusal() && final(self)@ == old(self)@,
    {
        if self.state != State::Ready {
            return Err(Error::NotReady);
        }
        upload(&mut self.vw, &mut self.texcoords, coords)
    }

    /// Uploads an image of `w` by `h` pixels, given row by row, as a texture
    /// with its sampler and view. Takes six handles and four bytes for every
    /// pixel.
    pub fn texture(&mut self, w: u32, h: u32, pixels: Vec<u32>) -> (made: Result<
        NativeTexture,
        Error,
    >)
        requires
            old(self).wf(),
            pixels@.len() == w * h,
        ensures
            final(self).wf(),
            made is Ok <==> old(self)@.state is Ready && fits(old(self)@.vw, 6, (w * h) as nat),
            made matches Ok(texture) ==> {
                &&& texture.wf()
                &&& texture@ == crate::resources::NativeTextureView::uploaded(
                    old(self)@.vw,
                    w,
                    h,
                    pixels@,
                )
                &&& final(self)@ == (RendererView {
                    vw: old(self)@.charged(6, (w * h) as nat),
                    ..old(self)@
                })
            },
            made matches Err(e) ==> e == old(self)@.refusal() && final(self)@ == old(self)@,
    {
        if self.state != State::Ready {
            return Err(Error::NotReady);
        }
        NativeTexture::create(&mut self.vw, w, h, pixels)
    }

    /// Writes new pixels into a texture's memory. Neither the texture nor
    /// the engine allocates anything: the texture keeps its handles and its
    /// dimensions, so there are as many pixels as before.
    pub fn set_texture(&self, texture: &mut NativeTexture, pixels: Vec<u32>) -> (set: Result<
        (),
        Error,
    >)
        requires
            self.wf(),
            old(texture).wf(),
            pixels@.len() == old(texture)@.w * old(texture)@.h,
        ensures
            final(texture).wf(),
            set is Ok <==> self@.state is Ready,
            set is Ok ==> final(texture)@ == (crate::resources::NativeTextureView {
                pixels: pixels@,
                ..old(texture)@
            }),
            set matches Err(e) ==> e == Error::NotReady && final(texture)@ == old(texture)@,
    {
        if self.state != State::Ready {
            return Err(Error::NotReady);
        }
        texture.set_pixels(pixels);
        Ok(())
    }

    /// Makes a shape of a model: selects the style of the variant, allocates
    /// an instance for it, writes the transform and the parameters into the
    /// instance's uniform buffer, and puts the shape at the end of the list
    /// of live shapes. Returns the shape's place.
    pub fn shape(
        &mut self,
        variant: Variant,
        model: usize,
        transform: &[u32; 16],
        params: &[u32],
        bindings: Bindings,
    ) -> (place: Result<usize, Error>)
        requires
            old(self).wf(),
            model < old(self)@.models.len(),
            params@.len() == variant.params(),
            bindings.suits(variant),
        ensures
            final(self).wf(),
            place is Ok <==> old(self)@.can_draw(variant),
            place matches Ok(i) ==> {
                &&& i == old(self)@.shapes.len()
                &&& final(self)@ == old(self)@.with_shape(
                    variant,
                    model,
                    transform@,
                    params@,
                    bindings,
                )
                &&& final(self)@.shapes[i as int].instance.params() == params@
                &&& final(self)@.shapes[i as int].instance.transform() == transform@
            },
            place matches Err(e) ==> e == old(self)@.refusal() && final(self)@ == old(self)@,
    {
        if self.state != State::Ready {
            return Err(Error::NotReady);
        }
        let style = self.styles[variant.slot()];
        let instance = match VwInstance::create(
            &mut self.vw,
            style,
            variant,
            transform,
            params,
            bindings,
        ) {
            Ok(instance) => instance,
            Err(e) => {
                return Err(e);
            },
        };
        assert(self.models@[model as int]@ == old(self)@.models[model as int]);
        let shape = Shape::new(model, &self.models[model], instance);
        let place = self.shapes.len();
        self.shapes.push(shape);
        proof {
            lemma_bytes_push(
                old(self)@.shapes,
                old(self)@.shape(variant, model, transform@, params@, bindings),
            );
        }
        self.instance_bytes = self.instance_bytes + 4 * (variant.words() as u64);
        proof {
            let made = old(self)@.shape(variant, model, transform@, params@, bindings);
            assert(shape@ == made);
            assert(self@.shapes =~= old(self)@.shapes.push(made));
            assert forall|i: int| 0 <= i < self@.shapes.len() implies (#[trigger] self@.shapes[i]).wf()
                && self@.shapes[i].instance.style == self@.style(
                self@.shapes[i].instance.variant,
            ) by {
                if i < old(self)@.shapes.len() {
                    assert(self@.shapes[i] == old(self)@.shapes[i]);
                }
            }
        }
        Ok(place)
    }

    /// Draws a model in one color: red, green, blue and alpha.
    pub fn shape_solid(
        &mut self,
        model: usize,
        transform: &[u32; 16],
        color: [u32; 4],
        blending: bool,
        fog: bool,
        camera: bool,
    ) -> (place: Result<usize, Error>)
        requires
            old(self).wf(),
            model < old(self)@.models.len(),
        ensures
            final(self).wf(),
            place is Ok <==> old(self)@.can_draw(Variant::Solid),
            place matches Ok(i) ==> {
                &&& i == old(self)@.shapes.len()
                &&& final(self)@ == old(self)@.with_shape(
                    Variant::Solid,
                    model,
                    transform@,
                    color@,
                    plain(blending, fog, camera),
                )
                &&& final(self)@.shapes[i as int].instance.params() == color@
            },
            place matches Err(e) ==> e == old(self)@.refusal() && final(self)@ == old(self)@,
    {
        let bindings = Bindings { texture: 0, colors: 0, texcoords: 0, blending, fog, camera };
        self.shape(Variant::Solid, model, transform, color.as_slice(), bindings)
    }

    /// Draws a model with the colors of the gradient at place `colors`, one
    /// color to the vertex.
    pub fn shape_gradient(
        &mut self,
        model: usize,
        transform: &[u32; 16],
        colors: usize,
        blending: bool,
        fog: bool,
        camera: bool,
    ) -> (place: Result<usize, Error>)
        requires
            old(self).wf(),
            model < old(self)@.models.len(),
            colors < old(self)@.gradients.len(),
        ensures
            final(self).wf(),
            place is Ok <==> old(self)@.can_draw(Variant::Gradient),
            place matches Ok(i) ==> {
                &&& i == old(self)@.shapes.len()
                &&& final(self)@ == old(self)@.with_shape(
                    Variant::Gradient,
                    model,
                    transform@,
                    Seq::empty(),
                    (Bindings {
                        colors: old(self)@.gradients[colors as int].buffer,
                        ..plain(blending, fog, camera)
                    }),
                )
            },
            place matches Err(e) ==> e == old(self)@.refusal() && final(self)@ == old(self)@,
    {
        assert(self.gradients@[colors as int]@ == old(self)@.gradients[colors as int]);
        let bindings = Bindings {
            texture: 0,
            colors: self.gradients[colors].buffer(),
            texcoords: 0,
            blending,
            fog,
            camera,
        };
        let none: [u32; 0] = [];
        assert(none@ =~= Seq::<u32>::empty());
        self.shape(Variant::Gradient, model, transform, none.as_slice(), bindings)
    }

    /// Draws a model with a texture, at the texture coordinates at place
    /// `tc`.
    pub fn shape_texture(
        &mut self,
        model: usize,
        transform: &[u32; 16],
        texture: &NativeTexture,
        tc: usize,
        blending: bool,
        fog: bool,
        camera: bool,
    ) -> (place: Result<usize, Error>)
        requires
            old(self).wf(),
            texture.wf(),
            model < old(self)@.models.len(),
            tc < old(self)@.texcoords.len(),
        ensures
            final(self).wf(),
            place is Ok <==> old(self)@.can_draw(Variant::Texture),
            place matches Ok(i) ==> {
                &&& i == old(self)@.shapes.len()
                &&& final(self)@ == old(self)@.with_shape(
                    Variant::Texture,
                    model,
                    transform@,
                    Seq::empty(),
                    (Bindings {
                        texture: texture@.image_view(),
                        texcoords: old(self)@.texcoords[tc as int].buffer,
                        ..plain(blending, fog, camera)
                    }),
                )
            },
            place matches Err(e) ==> e == old(self)@.refusal() && final(self)@ == old(self)@,
    {
        assert(self.texcoords@[tc as int]@ == old(self)@.texcoords[tc as int]);
        let bindings = Bindings {
            texture: texture.image_view(),
            colors: 0,
            texcoords: self.texcoords[tc].buffer(),
            blending,
            fog,
            camera,
        };
        let none: [u32; 0] = [];
        assert(none@ =~= Seq::<u32>::empty());
        self.shape(Variant::Texture, model, transform, none.as_slice(), bindings)
    }

    /// Draws a model with a texture that is faded by `alpha`. A faded shape
    /// is always blended.
    pub fn shape_faded(
        &mut self,
        model: usize,
        transform: &[u32; 16],
        texture: &NativeTexture,
        tc: usize,
        alpha: u32,
        fog: bool,
        camera: bool,
    ) -> (place: Result<usize, Error>)
        requires
            old(self).wf(),
            texture.wf(),
            model < old(self)@.models.len(),
            tc < old(self)@.texcoords.len(),
        ensures
            final(self).wf(),
            place is Ok <==> old(self)@.can_draw(Variant::Faded),
            place matches Ok(i) ==> {
                &&& i == old(self)@.shapes.len()
                &&& final(self)@ == old(self)@.with_shape(
                    Variant::Faded,
                    model,
                    transform@,
                    seq![alpha],
                    (Bindings {
                        texture: texture@.image_view(),
                        texcoords: old(self)@.texcoords[tc as int].buffer,
                        ..plain(true, fog, camera)
                    }),
                )
                &&& final(self)@.shapes[i as int].instance.params() == seq![alpha]
            },
            place matches Err(e) ==> e == old(self)@.refusal() && final(self)@ == old(self)@,
    {
        assert(self.texcoords@[tc as int]@ == old(self)@.texcoords[tc as int]);
        let bindings = Bindings {
            texture: texture.image_view(),
            colors: 0,
            texcoords: self.texcoords[tc].buffer(),
            blending: true,
            fog,
            camera,
        };
        let params: [u32; 1] = [alpha];
        assert(params@ =~= seq![alpha]);
        self.shape(Variant::Faded, model, transform, params.as_slice(), bindings)
    }

    /// Draws a model with a texture that is tinted by one color: red, green,
    /// blue and alpha.
    pub fn shape_tinted(
        &mut self,
        model: usize,
        transform: &[u32; 16],
        texture: &NativeTexture,
        tc: usize,
        tint: [u32; 4],
        blending: bool,
        fog: bool,
        camera: bool,
    ) -> (place: Result<usize, Error>)
        requires
            old(self).wf(),
            texture.wf(),
            model < old(self)@.models.len(),
            tc < old(self)@.texcoords.len(),
        ensures
            final(self).wf(),
            place is Ok <==> old(self)@.can_draw(Variant::Tinted),
            place matches Ok(i) ==> {
                &&& i == old(self)@.shapes.len()
                &&& final(self)@ == old(self)@.with_shape(
                    Variant::Tinted,
                    model,
                    transform@,
                    tint@,
                    (Bindings {
                        texture: texture@.image_view(),
                        texcoords: old(self)@.texcoords[tc as int].buffer,
                        ..plain(blending, fog, camera)
                    }),
                )
                &&& final(self)@.shapes[i as int].instance.params() == tint@
            },
            place matches Err(e) ==> e == old(self)@.refusal() && final(self)@ == old(self)@,
    {
        assert(self.texcoords@[tc as int]@ == old(self)@.texcoords[tc as int]);
        let bindings = Bindings {
            texture: texture.image_view(),
            colors: 0,
            texcoords: self.texcoords[tc].buffer(),
            blending,
            fog,
            camera,
        };
        self.shape(Variant::Tinted, model, transform, tint.as_slice(), bindings)
    }

    /// Draws a model with a texture that is tinted by the colors of the
    /// gradient at place `tints`, one color to the vertex.
    pub fn shape_complex(
        &mut self,
        model: usize,
        transform: &[u32; 16],
        texture: &NativeTexture,
        tc: usize,
        tints: usize,
        blending: bool,
        fog: bool,
        camera: bool,
    ) -> (place: Result<usize, Error>)
        requires
            old(self).wf(),
            texture.wf(),
            model < old(self)@.models.len(),
            tc < old(self)@.texcoords.len(),
            tints < old(self)@.gradients.len(),
        ensures
            final(self).wf(),
            place is Ok <==> old(self)@.can_draw(Variant::Complex),
            place matches Ok(i) ==> {
                &&& i == old(self)@.shapes.len()
                &&& final(self)@ == old(self)@.with_shape(
                    Variant::Complex,
                    model,
                    transform@,
                    Seq::empty(),
                    (Bindings {
                        texture: texture@.image_view(),
                        colors: old(self)@.gradients[tints as int].buffer,
                        texcoords: old(self)@.texcoords[tc as int].buffer,
                        ..plain(blending, fog, camera)
                    }),
                )
            },
            place matches Err(e) ==> e == old(self)@.refusal() && final(self)@ == old(self)@,
    {
        assert(self.texcoords@[tc as int]@ == old(self)@.texcoords[tc as int]);
        assert(self.gradients@[tints as int]@ == old(self)@.gradients[tints as int]);
        let bindings = Bindings {
            texture: texture.image_view(),
            colors: self.gradients[tints].buffer(),
            texcoords: self.texcoords[tc].buffer(),
            blending,
            fog,
            camera,
        };
        let none: [u32; 0] = [];
        assert(none@ =~= Seq::<u32>::empty());
        self.shape(Variant::Complex, model, transform, none.as_slice(), bindings)
    }

    /// Uploads vertices and draws them at once in one color, where they are,
    /// with neither blending nor fog nor camera. Either both the model and
    /// the shape are made, or nothing is.
    pub fn solid(&mut self, vertices: Vec<u32>, color: [u32; 4]) -> (place: Result<usize, Error>)
        requires
            old(self).wf(),
        ensures
            final(self).wf(),
            place is Ok <==> old(self)@.state is Ready && fits(
                old(self)@.vw,
                6,
                (vertices@.len() + Variant::Solid.words()) as nat,
            ),
            place matches Ok(i) ==> {
                &&& i == old(self)@.shapes.len()
                &&& final(self)@ == old(self)@.with_model(vertices@).with_shape(
                    Variant::Solid,
                    old(self)@.models.len() as usize,
                    identity(),
                    color@,
                    plain(false, false, false),
                )
                &&& final(self)@.shapes[i as int].instance.params() == color@
                &&& final(self)@.shapes[i as int].count == vertices@.len() / 4
            },
            place matches Err(e) ==> e == old(self)@.refusal() && final(self)@ == old(self)@,
    {
        if self.state != State::Ready {
            return Err(Error::NotReady);
        }
        let len = vertices.len();
        if len > 0xffff_ffff - 21 {
            return Err(Error::OutOfMemory);
        }
        let words: u64 = len as u64 + 21;
        if !self.vw.has_room(6, 4 * words) {
            return Err(Error::OutOfMemory);
        }
        let ghost data = vertices@;
        let model = match self.model(vertices) {
            Ok(model) => model,
            Err(e) => {
                return Err(e);
            },
        };
        let transform = identity_transform();
        let place = self.shape_solid(model, &transform, color, false, false, false);
        proof {
            let shape = self@.shapes[old(self)@.shapes.len() as int];
            assert(shape.count == old(self)@.with_model(data).models[model as int].count);
        }
        place
    }

    /// Writes a transform to the shape at place `shape`. Only the transform
    /// in the instance's uniform buffer changes: nothing is allocated, and
    /// the shape's parameters are what they were.
    pub fn transform(&mut self, shape: usize, transform: &[u32; 16]) -> (moved: Result<(), Error>)
        requires
            old(self).wf(),
            shape < old(self)@.shapes.len(),
        ensures
            final(self).wf(),
            moved is Ok <==> old(self)@.state is Ready,
            moved is Ok ==> {
                &&& final(self)@ == old(self)@.with_transform(shape, transform@)
                &&& final(self)@.shapes[shape as int].instance.params() == old(
                    self,
                )@.shapes[shape as int].instance.params()
                &&& final(self)@.shapes[shape as int].instance.transform() == transform@
            },
            moved matches Err(e) ==> e == Error::NotReady && final(self)@ == old(self)@,
    {
        if self.state != State::Ready {
            return Err(Error::NotReady);
        }
        self.shapes[shape].set_transform(transform);
        proof {
            let before = old(self)@.shapes[shape as int];
            crate::instance::lemma_moved(before.instance, transform@);
            lemma_bytes_update(old(self)@.shapes, shape as int, before.moved(transform@));
            assert(self@.shapes =~= old(self)@.shapes.update(
                shape as int,
                before.moved(transform@),
            ));
            assert forall|i: int| 0 <= i < self@.shapes.len() implies (#[trigger] self@.shapes[i]).wf()
                && self@.shapes[i].instance.style == self@.style(
                self@.shapes[i].instance.variant,
            ) by {
                if i != shape {
                    assert(self@.shapes[i] == old(self)@.shapes[i]);
                }
            }
        }
        Ok(())
    }

    /// Closes the display, from any state, when it is no longer wanted or
    /// when the device has failed: tears the swapchain down and drops every
    /// shape. The engine is uninitialized from then on, and refuses every
    /// operation that starts from the ready state.
    pub fn close(&mut self)
        requires
            old(self).wf(),
        ensures
            final(self).wf(),
            final(self)@ == old(self)@.closed(),
    {
        close(&mut self.vw);
        self.vw.release(self.instance_bytes);
        self.shapes = Vec::new();
        self.instance_bytes = 0;
        self.state = State::Uninitialized;
        assert(self@.shapes =~= Seq::empty());
    }

    /// The engine's state.
    pub fn state(&self) -> (state: State)
        ensures
            state == self@.state,
    {
        self.state
    }

    /// The width and height of the swapchain.
    pub fn wh(&self) -> (wh: (u32, u32))
        ensures
            wh == (self@.vw.width, self@.vw.height),
    {
        (self.vw.width(), self.vw.height())
    }

    /// The backend context.
    pub fn vw(&self) -> (vw: &Vw)
        ensures
            vw@ == self@.vw,
    {
        &self.vw
    }

    /// What the projection matrix is computed from.
    pub fn get_projection(&self) -> (projection: Projection)
        ensures
            projection == self@.projection,
    {
        self.projection
    }

    /// The number of live shapes.
    pub fn shape_count(&self) -> (n: usize)
        ensures
            n == self@.shapes.len(),
    {
        self.shapes.len()
    }

    /// The live shapes, in the order in which they were made.
    pub fn shapes(&self) -> (shapes: &Vec<Shape>)
        ensures
            shape_views(shapes@) == self@.shapes,
    {
        &self.shapes
    }

    /// The models, in the order in which they were uploaded.
    pub fn models(&self) -> (models: &Vec<VwShape>)
        ensures
            buffer_views(models@) == self@.models,
    {
        &self.models
    }

    /// The gradients, in the order in which they were uploaded.
    pub fn gradients(&self) -> (gradients: &Vec<VwShape>)
        ensures
            buffer_views(gradients@) == self@.gradients,
    {
        &self.gradients
    }

    /// The texture coordinates, in the order in which they were uploaded.
    pub fn texcoords_list(&self) -> (texcoords: &Vec<VwShape>)
        ensures
            buffer_views(texcoords@) == self@.texcoords,
    {
        &self.texcoords
    }

    /// The style of a variant.
    pub fn style(&self, variant: Variant) -> (style: Style)
        requires
            self.wf(),
        ensures
            style == self@.style(variant),
    {
        self.styles[variant.slot()]
    }

    /// The color that the next frame is cleared to.
    pub fn background(&self) -> (color: Rgb)
        ensures
            color == self@.color,
    {
        self.color
    }

    /// Where the camera stands and how it is turned.
    pub fn get_camera(&self) -> (camera: Camera)
        ensures
            camera == self@.camera,
    {
        self.camera
    }

    /// The fog, if there is any.
    pub fn get_fog(&self) -> (fog: Option<Fog>)
        ensures
            fog == self@.fog,
    {
        self.fog
    }

    /// The window's title.
    pub fn name(&self) -> (name: &str)
        ensures
            name@ == self@.vw.name,
    {
        self.vw.name()
    }

    /// The shader of a variant.
    pub fn shader(&self, variant: Variant) -> (shader: Shader)
        requires
            self.wf(),
        ensures
            shader == self@.shaders[variant.slot() as int],
    {
        self.shaders[variant.slot()]
    }

    /// Sets the color that frames are cleared to, from the next one on.
    pub fn color(&mut self, color: Rgb)
        requires
            old(self).wf(),
        ensures
            final(self).wf(),
            final(self)@ == (RendererView { color, ..old(self)@ }),
    {
        self.color = color;
    }

    /// Moves the camera, from the next frame on.
    pub fn camera(&mut self, position: Vec3, rotation: Vec3)
        requires
            old(self).wf(),
        ensures
            final(self).wf(),
            final(self)@ == (RendererView {
                camera: Camera { position, rotation },
                ..old(self)@
            }),
    {
        self.camera = Camera { position, rotation };
    }

    /// Sets the fog, or with `None` takes it away.
    pub fn fog(&mut self, fog: Option<Fog>)
        requires
            old(self).wf(),
        ensures
            final(self).wf(),
            final(self)@ == (RendererView { fog, ..old(self)@ }),
    {
        self.fog = fog;
    }
}

} // verus!
