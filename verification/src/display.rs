//! The display: one frame engine, tagged with the backend that it runs on.
//!
//! Every operation looks at the tag once and forwards to the engine of that
//! backend. A texture or a shape carries the tag of the display that made
//! it, and a display takes only those that carry its own.

use vstd::prelude::*;
use crate::command::Command;
use crate::error::Error;
use crate::instance::Bindings;
use crate::renderer::{plain, Renderer, RendererView};
use crate::values::{Camera, Fog, Rgb, Vec3};
use crate::resources::{fits, NativeTexture, NativeTextureView, Variant};

verus! {

/// The backends, in the order in which they are tried.
#[derive(Clone, Copy, Debug, PartialEq, Eq, Structural)]
pub enum Backend {
    Vulkan,
    OpenGL,
}

/// A model, by its place among the models of the display that uploaded it.
#[derive(Clone, Copy, Debug, PartialEq, Eq, Structural)]
pub struct Model(pub usize);

/// A gradient, by its place among the gradients of its display.
#[derive(Clone, Copy, Debug, PartialEq, Eq, Structural)]
pub struct Gradient(pub usize);

/// Texture coordinates, by their place among those of their display.
#[derive(Clone, Copy, Debug, PartialEq, Eq, Structural)]
pub struct TexCoords(pub usize);

/// A live shape: the backend of the display that made it, and its place
/// among the display's shapes.
#[derive(Clone, Copy, Debug, PartialEq, Eq, Structural)]
pub struct ShapeHandle {
    pub backend: Backend,
    pub index: usize,
}

/// What one call of `update` did: it handed on the input that was waiting,
/// or, where none was, it ran a frame.
#[derive(Debug)]
pub enum Update<I> {
    Input(I),
    Frame(Vec<Command>),
}

/// A texture, tagged with the backend of the display that made it.
#[derive(Debug)]
pub enum Texture {
    Vulkan(NativeTexture),
    OpenGL(NativeTexture),
}

impl Texture {
    pub open spec fn spec_backend(&self) -> Backend {
        match self {
            Texture::Vulkan(_) => Backend::Vulkan,
            Texture::OpenGL(_) => Backend::OpenGL,
        }
    }

    /// The backend of the display that made the texture.
    #[verifier::when_used_as_spec(spec_backend)]
    pub fn backend(&self) -> (backend: Backend)
        ensures
            backend == self.spec_backend(),
    {
        match self {
            Texture::Vulkan(_) => Backend::Vulkan,
            Texture::OpenGL(_) => Backend::OpenGL,
        }
    }

    /// The texture itself, whatever its backend.
    pub open spec fn native(&self) -> NativeTexture {
        match self {
            Texture::Vulkan(texture) => *texture,
            Texture::OpenGL(texture) => *texture,
        }
    }

    /// The texture's invariant.
    pub open spec fn wf(&self) -> bool {
        self.native().wf()
    }

    /// The width and height.
    pub fn wh(&self) -> (wh: (u32, u32))
        ensures
            wh == (self@.w, self@.h),
    {
        match self {
            Texture::Vulkan(texture) => texture.wh(),
            Texture::OpenGL(texture) => texture.wh(),
        }
    }

    /// The pixels, row by row.
    pub fn pixels(&self) -> (pixels: &Vec<u32>)
        ensures
            pixels@ == self@.pixels,
    {
        match self {
            Texture::Vulkan(texture) => texture.pixels(),
            Texture::OpenGL(texture) => texture.pixels(),
        }
    }

    /// The first of the texture's six handles.
    pub fn first(&self) -> (h: u64)
        ensures
            h == self@.first,
    {
        match self {
            Texture::Vulkan(texture) => texture.first(),
            Texture::OpenGL(texture) => texture.first(),
        }
    }
}

impl View for Texture {
    type V = NativeTextureView;

    open spec fn view(&self) -> NativeTextureView {
        self.native()@
    }
}

/// A display on one of the backends.
pub enum Display {
    Vulkan(Renderer),
    OpenGL(Renderer),
}

impl View for Display {
    type V = RendererView;

    open spec fn view(&self) -> RendererView {
        self.engine()@
    }
}

impl Display {
    pub open spec fn spec_backend(&self) -> Backend {
        match self {
            Display::Vulkan(_) => Backend::Vulkan,
            Display::OpenGL(_) => Backend::OpenGL,
        }
    }

    /// The backend that the display runs on. It is chosen when the display
    /// is made and never changes.
    #[verifier::when_used_as_spec(spec_backend)]
    pub fn backend(&self) -> (backend: Backend)
        ensures
            backend == self.spec_backend(),
    {
        match self {
            Display::Vulkan(_) => Backend::Vulkan,
            Display::OpenGL(_) => Backend::OpenGL,
        }
    }

    /// The display's frame engine, whatever its backend.
    pub open spec fn engine(&self) -> Renderer {
        match self {
            Display::Vulkan(display) => *display,
            Display::OpenGL(display) => *display,
        }
    }

    /// The display's invariant: that of its engine.
    pub open spec fn wf(&self) -> bool {
        self.engine().wf()
    }

    pub open spec fn spec_accepts(&self, texture: &Texture) -> bool {
        self.backend() == texture.backend()
    }

    /// Whether the display takes a texture: whether the texture carries the
    /// tag of the display's own backend.
    #[verifier::when_used_as_spec(spec_accepts)]
    pub fn accepts(&self, texture: &Texture) -> (ok: bool)
        ensures
            ok == (self.backend() == texture.backend()),
    {
        match self {
            Display::Vulkan(_) => match texture {
                Texture::Vulkan(_) => true,
                Texture::OpenGL(_) => false,
            },
            Display::OpenGL(_) => match texture {
                Texture::Vulkan(_) => false,
                Texture::OpenGL(_) => true,
            },
        }
    }

    pub open spec fn spec_holds(&self, shape: &ShapeHandle) -> bool {
        self.backend() == shape.backend && shape.index < self@.shapes.len()
    }

    /// Whether a shape is one of the display's live shapes: whether it
    /// carries the tag of the display's backend and a place in its list.
    #[verifier::when_used_as_spec(spec_holds)]
    pub fn holds(&self, shape: &ShapeHandle) -> (ok: bool)
        ensures
            ok == self.spec_holds(shape),
    {
        match self {
            Display::Vulkan(display) => match shape.backend {
                Backend::Vulkan => shape.index < display.shape_count(),
                Backend::OpenGL => false,
            },
            Display::OpenGL(display) => match shape.backend {
                Backend::Vulkan => false,
                Backend::OpenGL => shape.index < display.shape_count(),
            },
        }
    }

    /// The handle of the shape that is made next.
    pub open spec fn next_shape(&self) -> ShapeHandle {
        ShapeHandle { backend: self.backend(), index: self@.shapes.len() as usize }
    }

    /// The text of the refusal of `new`.
    pub open spec fn refused() -> Seq<char> {
        "Use new_display(), not Display::new()"@
    }

    /// Always refuses: a display is made by `new_display`, which chooses the
    /// backend.
    pub fn new(_title: &str) -> (made: Result<Display, String>)
        ensures
            made matches Err(text) && text@ == Display::refused(),
    {
        Err("Use new_display(), not Display::new()".to_owned())
    }

    /// The display's frame engine.
    pub fn renderer(&self) -> (renderer: &Renderer)
        ensures
            *renderer == self.engine(),
    {
        match self {
            Display::Vulkan(display) => display,
            Display::OpenGL(display) => display,
        }
    }

    /// Sets the background color, which frames are cleared to from the next
    /// one on.
    pub fn color(&mut self, color: Rgb)
        requires
            old(self).wf(),
        ensures
            final(self).wf(),
            final(self).backend() == old(self).backend(),
            final(self)@ == (RendererView { color, ..old(self)@ }),
    {
        match self {
            Display::Vulkan(display) => display.color(color),
            Display::OpenGL(display) => display.color(color),
        }
    }

    /// Hands on the input that is waiting, if there is one, and else runs
    /// one frame: at most one input comes back from a call, and a call
    /// that hands one on draws nothing.
    pub fn update<I>(&mut self, input: Option<I>) -> (done: Result<Update<I>, Error>)
        requires
            old(self).wf(),
        ensures
            final(self).wf(),
            final(self).backend() == old(self).backend(),
            input matches Some(i) ==> done == Ok::<Update<I>, Error>(Update::Input(i)) && final(self)@ == old(self)@,
            input is None ==> {
                &&& done is Ok <==> old(self)@.state is Ready
                &&& done matches Ok(update) ==> {
                    &&& update matches Update::Frame(commands) && commands@ == old(self)@.frame()
                    &&& final(self)@ == old(self)@.begun().ended()
                }
                &&& done matches Err(e) ==> e == Error::NotReady && final(self)@ == old(self)@
            },
    {
        match input {
            Some(input) => Ok(Update::Input(input)),
            None => {
                let frame = match self {
                    Display::Vulkan(display) => display.update(),
                    Display::OpenGL(display) => display.update(),
                };
                match frame {
                    Ok(commands) => Ok(Update::Frame(commands)),
                    Err(e) => Err(e),
                }
            },
        }
    }

    /// Moves the camera, from the next frame on.
    pub fn camera(&mut self, xyz: Vec3, rotate_xyz: Vec3)
        requires
            old(self).wf(),
        ensures
            final(self).wf(),
            final(self).backend() == old(self).backend(),
            final(self)@ == (RendererView {
                camera: Camera { position: xyz, rotation: rotate_xyz },
                ..old(self)@
            }),
    {
        match self {
            Display::Vulkan(display) => display.camera(xyz, rotate_xyz),
            Display::OpenGL(display) => display.camera(xyz, rotate_xyz),
        }
    }

    /// Sets the fog, or with `None` takes it away.
    pub fn fog(&mut self, fog: Option<Fog>)
        requires
            old(self).wf(),
        ensures
            final(self).wf(),
            final(self).backend() == old(self).backend(),
            final(self)@ == (RendererView { fog, ..old(self)@ }),
    {
        match self {
            Display::Vulkan(display) => display.fog(fog),
            Display::OpenGL(display) => display.fog(fog),
        }
    }

    /// Uploads the vertices of a model, four words to the vertex. Fails if
    /// the display is not ready or the device has no room, and then leaves
    /// the display as it was.
    pub fn model(&mut self, vertices: Vec<u32>) -> (made: Result<Model, Error>)
        requires
            old(self).wf(),
        ensures
            final(self).wf(),
            final(self).backend() == old(self).backend(),
            made is Ok <==> old(self)@.state is Ready && fits(old(self)@.vw, 2, vertices@.len()),
            made matches Ok(model) ==> model.0 == old(self)@.models.len() && final(self)@ == old(
                self,
            )@.with_model(vertices@),
            made matches Err(e) ==> e == old(self)@.refusal() && final(self)@ == old(self)@,
    {
        let place = match self {
            Display::Vulkan(display) => display.model(vertices),
            Display::OpenGL(display) => display.model(vertices),
        };
        match place {
            Ok(place) => Ok(Model(place)),
            Err(e) => Err(e),
        }
    }

    /// Uploads the colors of a gradient, one color of four words to the
    /// vertex. Fails as `model` does.
    pub fn gradient(&mut self, colors: Vec<u32>) -> (made: Result<Gradient, Error>)
        requires
            old(self).wf(),
        ensures
            final(self).wf(),
            final(self).backend() == old(self).backend(),
            made is Ok <==> old(self)@.state is Ready && fits(old(self)@.vw, 2, colors@.len()),
            made matches Ok(gradient) ==> gradient.0 == old(self)@.gradients.len() && final(self)@ == old(self)@.with_gradient(colors@),
            made matches Err(e) ==> e == old(self)@.refusal() && final(self)@ == old(self)@,
    {
        let place = match self {
            Display::Vulkan(display) => display.gradient(colors),
            Display::OpenGL(display) => display.gradient(colors),
        };
        match place {
            Ok(place) => Ok(Gradient(place)),
            Err(e) => Err(e),
        }
    }

    /// Uploads texture coordinates, four words to the vertex. Fails as
    /// `model` does.
    pub fn texcoords(&mut self, texcoords: Vec<u32>) -> (made: Result<TexCoords, Error>)
        requires
            old(self).wf(),
        ensures
            final(self).wf(),
            final(self).backend() == old(self).backend(),
            made is Ok <==> old(self)@.state is Ready && fits(old(self)@.vw, 2, texcoords@.len()),
            made matches Ok(tc) ==> tc.0 == old(self)@.texcoords.len() && final(self)@ == old(
                self,
            )@.with_texcoords(texcoords@),
            made matches Err(e) ==> e == old(self)@.refusal() && final(self)@ == old(self)@,
    {
        let place = match self {
            Display::Vulkan(display) => display.texcoords(texcoords),
            Display::OpenGL(display) => display.texcoords(texcoords),
        };
        match place {
            Ok(place) => Ok(TexCoords(place)),
            Err(e) => Err(e),
        }
    }

    /// Uploads an image of `w` by `h` pixels, given row by row, as a
    /// texture. The texture carries the tag of the display's backend.
    pub fn texture(&mut self, w: u32, h: u32, pixels: Vec<u32>) -> (made: Result<Texture, Error>)
        requires
            old(self).wf(),
            pixels@.len() == w * h,
        ensures
            final(self).wf(),
            final(self).backend() == old(self).backend(),
            made is Ok <==> old(self)@.state is Ready && fits(old(self)@.vw, 6, (w * h) as nat),
            made matches Ok(texture) ==> {
                &&& texture.backend() == old(self).backend()
                &&& texture.wf()
                &&& texture@ == NativeTextureView::uploaded(old(self)@.vw, w, h, pixels@)
                &&& final(self)@ == (RendererView {
                    vw: old(self)@.charged(6, (w * h) as nat),
                    ..old(self)@
                })
            },
            made matches Err(e) ==> e == old(self)@.refusal() && final(self)@ == old(self)@,
    {
        match self {
            Display::Vulkan(display) => match display.texture(w, h, pixels) {
                Ok(texture) => Ok(Texture::Vulkan(texture)),
                Err(e) => Err(e),
            },
            Display::OpenGL(display) => match display.texture(w, h, pixels) {
                Ok(texture) => Ok(Texture::OpenGL(texture)),
                Err(e) => Err(e),
            },
        }
    }

    /// Writes new pixels into a texture of this display's backend. The
    /// texture keeps its handles and its dimensions, so there are as many
    /// pixels as before; the display allocates nothing.
    pub fn set_texture(&mut self, texture: &mut Texture, pixels: Vec<u32>) -> (set: Result<
        (),
        Error,
    >)
        requires
            old(self).wf(),
            old(texture).wf(),
            old(self).accepts(old(texture)),
            pixels@.len() == old(texture)@.w * old(texture)@.h,
        ensures
            final(self).wf(),
            final(texture).wf(),
            final(self).backend() == old(self).backend(),
            final(texture).backend() == old(texture).backend(),
            final(self)@ == old(self)@,
            set is Ok <==> old(self)@.state is Ready,
            set is Ok ==> final(texture)@ == (NativeTextureView {
                pixels: pixels@,
                ..old(texture)@
            }),
            set matches Err(e) ==> e == Error::NotReady && final(texture)@ == old(texture)@,
    {
        match self {
            Display::Vulkan(display) => match texture {
                Texture::Vulkan(texture) => display.set_texture(texture, pixels),
                Texture::OpenGL(_) => vstd::pervasive::unreached(),
            },
            Display::OpenGL(display) => match texture {
                Texture::OpenGL(texture) => display.set_texture(texture, pixels),
                Texture::Vulkan(_) => vstd::pervasive::unreached(),
            },
        }
    }

    /// Draws a model in one color: red, green, blue and alpha.
    pub fn shape_solid(
        &mut self,
        model: &Model,
        transform: &[u32; 16],
        color: [u32; 4],
        blending: bool,
        fog: bool,
        camera: bool,
    ) -> (made: Result<ShapeHandle, Error>)
        requires
            old(self).wf(),
            model.0 < old(self)@.models.len(),
        ensures
            final(self).wf(),
            final(self).backend() == old(self).backend(),
            made is Ok <==> old(self)@.can_draw(Variant::Solid),
            made matches Ok(shape) ==> {
                &&& shape == old(self).next_shape()
                &&& final(self)@ == old(self)@.with_shape(
                    Variant::Solid,
                    model.0,
                    transform@,
                    color@,
                    plain(blending, fog, camera),
                )
                &&& final(self)@.shapes[shape.index as int].instance.params() == color@
            },
            made matches Err(e) ==> e == old(self)@.refusal() && final(self)@ == old(self)@,
    {
        match self {
            Display::Vulkan(display) => match display.shape_solid(
                model.0,
                transform,
                color,
                blending,
                fog,
                camera,
            ) {
                Ok(index) => Ok(ShapeHandle { backend: Backend::Vulkan, index }),
                Err(e) => Err(e),
            },
            Display::OpenGL(display) => match display.shape_solid(
                model.0,
                transform,
                color,
                blending,
                fog,
                camera,
            ) {
                Ok(index) => Ok(ShapeHandle { backend: Backend::OpenGL, index }),
                Err(e) => Err(e),
            },
        }
    }

    /// Draws a model with the colors of a gradient, one color to the vertex.
    pub fn shape_gradient(
        &mut self,
        model: &Model,
        transform: &[u32; 16],
        colors: Gradient,
        blending: bool,
        fog: bool,
        camera: bool,
    ) -> (made: Result<ShapeHandle, Error>)
        requires
            old(self).wf(),
            model.0 < old(self)@.models.len(),
            colors.0 < old(self)@.gradients.len(),
        ensures
            final(self).wf(),
            final(self).backend() == old(self).backend(),
            made is Ok <==> old(self)@.can_draw(Variant::Gradient),
            made matches Ok(shape) ==> {
                &&& shape == old(self).next_shape()
                &&& final(self)@ == old(self)@.with_shape(
                    Variant::Gradient,
                    model.0,
                    transform@,
                    Seq::empty(),
                    (Bindings {
                        colors: old(self)@.gradients[colors.0 as int].buffer,
                        ..plain(blending, fog, camera)
                    }),
                )
            },
            made matches Err(e) ==> e == old(self)@.refusal() && final(self)@ == old(self)@,
    {
        match self {
            Display::Vulkan(display) => match display.shape_gradient(
                model.0,
                transform,
                colors.0,
                blending,
                fog,
                camera,
            ) {
                Ok(index) => Ok(ShapeHandle { backend: Backend::Vulkan, index }),
                Err(e) => Err(e),
            },
            Display::OpenGL(display) => match display.shape_gradient(
                model.0,
                transform,
                colors.0,
                blending,
                fog,
                camera,
            ) {
                Ok(index) => Ok(ShapeHandle { backend: Backend::OpenGL, index }),
                Err(e) => Err(e),
            },
        }
    }

    /// Draws a model with a texture of this display's backend, at the given
    /// texture coordinates.
    pub fn shape_texture(
        &mut self,
        model: &Model,
        transform: &[u32; 16],
        texture: &Texture,
        tc: TexCoords,
        blending: bool,
        fog: bool,
        camera: bool,
    ) -> (made: Result<ShapeHandle, Error>)
        requires
            old(self).wf(),
            texture.wf(),
            old(self).accepts(texture),
            model.0 < old(self)@.models.len(),
            tc.0 < old(self)@.texcoords.len(),
        ensures
            final(self).wf(),
            final(self).backend() == old(self).backend(),
            made is Ok <==> old(self)@.can_draw(Variant::Texture),
            made matches Ok(shape) ==> {
                &&& shape == old(self).next_shape()
                &&& final(self)@ == old(self)@.with_shape(
                    Variant::Texture,
                    model.0,
                    transform@,
                    Seq::empty(),
                    (Bindings {
                        texture: texture@.image_view(),
                        texcoords: old(self)@.texcoords[tc.0 as int].buffer,
                        ..plain(blending, fog, camera)
                    }),
                )
            },
            made matches Err(e) ==> e == old(self)@.refusal() && final(self)@ == old(self)@,
    {
        match self {
            Display::Vulkan(display) => match display.shape_texture(
                model.0,
                transform,
                match texture {
                    Texture::Vulkan(texture) => texture,
                    Texture::OpenGL(_) => vstd::pervasive::unreached(),
                },
                tc.0,
                blending,
                fog,
                camera,
            ) {
                Ok(index) => Ok(ShapeHandle { backend: Backend::Vulkan, index }),
                Err(e) => Err(e),
            },
            Display::OpenGL(display) => match display.shape_texture(
                model.0,
                transform,
                match texture {
                    Texture::OpenGL(texture) => texture,
                    Texture::Vulkan(_) => vstd::pervasive::unreached(),
                },
                tc.0,
                blending,
                fog,
                camera,
            ) {
                Ok(index) => Ok(ShapeHandle { backend: Backend::OpenGL, index }),
                Err(e) => Err(e),
            },
        }
    }

    /// Draws a model with a texture of this display's backend, faded by
    /// `alpha`. A faded shape is always blended.
    pub fn shape_faded(
        &mut self,
        model: &Model,
        transform: &[u32; 16],
        texture: &Texture,
        tc: TexCoords,
        alpha: u32,
        fog: bool,
        camera: bool,
    ) -> (made: Result<ShapeHandle, Error>)
        requires
            old(self).wf(),
            texture.wf(),
            old(self).accepts(texture),
            model.0 < old(self)@.models.len(),
            tc.0 < old(self)@.texcoords.len(),
        ensures
            final(self).wf(),
            final(self).backend() == old(self).backend(),
            made is Ok <==> old(self)@.can_draw(Variant::Faded),
            made matches Ok(shape) ==> {
                &&& shape == old(self).next_shape()
                &&& final(self)@ == old(self)@.with_shape(
                    Variant::Faded,
                    model.0,
                    transform@,
                    seq![alpha],
                    (Bindings {
                        texture: texture@.image_view(),
                        texcoords: old(self)@.texcoords[tc.0 as int].buffer,
                        ..plain(true, fog, camera)
                    }),
                )
                &&& final(self)@.shapes[shape.index as int].instance.params() == seq![alpha]
            },
            made matches Err(e) ==> e == old(self)@.refusal() && final(self)@ == old(self)@,
    {
        match self {
            Display::Vulkan(display) => match display.shape_faded(
                model.0,
                transform,
                match texture {
                    Texture::Vulkan(texture) => texture,
                    Texture::OpenGL(_) => vstd::pervasive::unreached(),
                },
                tc.0,
                alpha,
                fog,
                camera,
            ) {
                Ok(index) => Ok(ShapeHandle { backend: Backend::Vulkan, index }),
                Err(e) => Err(e),
            },
            Display::OpenGL(display) => match display.shape_faded(
                model.0,
                transform,
                match texture {
                    Texture::OpenGL(texture) => texture,
                    Texture::Vulkan(_) => vstd::pervasive::unreached(),
                },
                tc.0,
                alpha,
                fog,
                camera,
            ) {
                Ok(index) => Ok(ShapeHandle { backend: Backend::OpenGL, index }),
                Err(e) => Err(e),
            },
        }
    }

    /// Draws a model with a texture of this display's backend, tinted by
    /// one color: red, green, blue and alpha.
    pub fn shape_tinted(
        &mut self,
        model: &Model,
        transform: &[u32; 16],
        texture: &Texture,
        tc: TexCoords,
        tint: [u32; 4],
        blending: bool,
        fog: bool,
        camera: bool,
    ) -> (made: Result<ShapeHandle, Error>)
        requires
            old(self).wf(),
            texture.wf(),
            old(self).accepts(texture),
            model.0 < old(self)@.models.len(),
            tc.0 < old(self)@.texcoords.len(),
        ensures
            final(self).wf(),
            final(self).backend() == old(self).backend(),
            made is Ok <==> old(self)@.can_draw(Variant::Tinted),
            made matches Ok(shape) ==> {
                &&& shape == old(self).next_shape()
                &&& final(self)@ == old(self)@.with_shape(
                    Variant::Tinted,
                    model.0,
                    transform@,
                    tint@,
                    (Bindings {
                        texture: texture@.image_view(),
                        texcoords: old(self)@.texcoords[tc.0 as int].buffer,
                        ..plain(blending, fog, camera)
                    }),
                )
                &&& final(self)@.shapes[shape.index as int].instance.params() == tint@
            },
            made matches Err(e) ==> e == old(self)@.refusal() && final(self)@ == old(self)@,
    {
        match self {
            Display::Vulkan(display) => match display.shape_tinted(
                model.0,
                transform,
                match texture {
                    Texture::Vulkan(texture) => texture,
                    Texture::OpenGL(_) => vstd::pervasive::unreached(),
                },
                tc.0,
                tint,
                blending,
                fog,
                camera,
            ) {
                Ok(index) => Ok(ShapeHandle { backend: Backend::Vulkan, index }),
                Err(e) => Err(e),
            },
            Display::OpenGL(display) => match display.shape_tinted(
                model.0,
                transform,
                match texture {
                    Texture::OpenGL(texture) => texture,
                    Texture::Vulkan(_) => vstd::pervasive::unreached(),
                },
                tc.0,
                tint,
                blending,
                fog,
                camera,
            ) {
                Ok(index) => Ok(ShapeHandle { backend: Backend::OpenGL, index }),
                Err(e) => Err(e),
            },
        }
    }

    /// Draws a model with a texture of this display's backend, tinted by
    /// the colors of a gradient, one color to the vertex.
    pub fn shape_complex(
        &mut self,
        model: &Model,
        transform: &[u32; 16],
        texture: &Texture,
        tc: TexCoords,
        tints: Gradient,
        blending: bool,
        fog: bool,
        camera: bool,
    ) -> (made: Result<ShapeHandle, Error>)
        requires
            old(self).wf(),
            texture.wf(),
            old(self).accepts(texture),
            model.0 < old(self)@.models.len(),
            tc.0 < old(self)@.texcoords.len(),
            tints.0 < old(self)@.gradients.len(),
        ensures
            final(self).wf(),
            final(self).backend() == old(self).backend(),
            made is Ok <==> old(self)@.can_draw(Variant::Complex),
            made matches Ok(shape) ==> {
                &&& shape == old(self).next_shape()
                &&& final(self)@ == old(self)@.with_shape(
                    Variant::Complex,
                    model.0,
                    transform@,
                    Seq::empty(),
                    (Bindings {
                        texture: texture@.image_view(),
                        colors: old(self)@.gradients[tints.0 as int].buffer,
                        texcoords: old(self)@.texcoords[tc.0 as int].buffer,
                        ..plain(blending, fog, camera)
                    }),
                )
            },
            made matches Err(e) ==> e == old(self)@.refusal() && final(self)@ == old(self)@,
    {
        match self {
            Display::Vulkan(display) => match display.shape_complex(
                model.0,
                transform,
                match texture {
                    Texture::Vulkan(texture) => texture,
                    Texture::OpenGL(_) => vstd::pervasive::unreached(),
                },
                tc.0,
                tints.0,
                blending,
                fog,
                camera,
            ) {
                Ok(index) => Ok(ShapeHandle { backend: Backend::Vulkan, index }),
                Err(e) => Err(e),
            },
            Display::OpenGL(display) => match display.shape_complex(
                model.0,
                transform,
                match texture {
                    Texture::OpenGL(texture) => texture,
                    Texture::Vulkan(_) => vstd::pervasive::unreached(),
                },
                tc.0,
                tints.0,
                blending,
                fog,
                camera,
            ) {
                Ok(index) => Ok(ShapeHandle { backend: Backend::OpenGL, index }),
                Err(e) => Err(e),
            },
        }
    }

    /// Writes a transform to one of the display's live shapes. Only the
    /// transform in the uniform buffer of the shape's instance changes:
    /// nothing is allocated, and the shape's parameters are what they were.
    pub fn transform(&mut self, shape: &ShapeHandle, transform: &[u32; 16]) -> (moved: Result<
        (),
        Error,
    >)
        requires
            old(self).wf(),
            old(self).holds(shape),
        ensures
            final(self).wf(),
            final(self).backend() == old(self).backend(),
            moved is Ok <==> old(self)@.state is Ready,
            moved is Ok ==> {
                &&& final(self)@ == old(self)@.with_transform(shape.index, transform@)
                &&& final(self)@.shapes[shape.index as int].instance.params() == old(
                    self,
                )@.shapes[shape.index as int].instance.params()
                &&& final(self)@.shapes[shape.index as int].instance.transform() == transform@
            },
            moved matches Err(e) ==> e == Error::NotReady && final(self)@ == old(self)@,
    {
        match self {
            Display::Vulkan(display) => display.transform(shape.index, transform),
            Display::OpenGL(display) => display.transform(shape.index, transform),
        }
    }

    /// Resizes the display to `wh`, width first. Every shape is dropped and
    /// has to be made anew.
    pub fn resize(&mut self, wh: (u32, u32)) -> (resized: Result<(), Error>)
        requires
            old(self).wf(),
        ensures
            final(self).wf(),
            final(self).backend() == old(self).backend(),
            resized is Ok <==> old(self)@.state is Ready,
            resized is Ok ==> {
                &&& final(self)@ == old(self)@.resized(wh.0, wh.1)
                &&& final(self)@.vw.width == wh.0
                &&& final(self)@.vw.height == wh.1
                &&& final(self)@.shapes.len() == 0
                &&& final(self)@.state is Ready
            },
            resized matches Err(e) ==> e == Error::NotReady && final(self)@ == old(self)@,
    {
        match self {
            Display::Vulkan(display) => display.resize(wh),
            Display::OpenGL(display) => display.resize(wh),
        }
    }

    /// The width and height of the display.
    pub fn wh(&self) -> (wh: (u32, u32))
        ensures
            wh == (self@.vw.width, self@.vw.height),
    {
        match self {
            Display::Vulkan(display) => display.wh(),
            Display::OpenGL(display) => display.wh(),
        }
    }

    /// Closes the display, when it is no longer wanted or when the device
    /// has failed: tears the swapchain down and drops every shape. The
    /// display refuses every draw and every upload from then on.
    pub fn close(&mut self)
        requires
            old(self).wf(),
        ensures
            final(self).wf(),
            final(self).backend() == old(self).backend(),
            final(self)@ == old(self)@.closed(),
    {
        match self {
            Display::Vulkan(display) => display.close(),
            Display::OpenGL(display) => display.close(),
        }
    }
}

} // verus!
