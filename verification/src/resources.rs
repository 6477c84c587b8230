//! What the resource allocator hands out: shaders, styles, vertex buffers,
//! textures, and the instances that bind them for one draw.

use vstd::prelude::*;
use crate::error::Error;
use crate::vw::{Vw, VwView, FIRST_FREE};

verus! {

/// The number of words that a transform takes at the start of every uniform
/// buffer: a 4 by 4 matrix.
pub const TRANSFORM_WORDS: usize = 16;

/// The ways to draw a shape.
#[derive(Clone, Copy, Debug, PartialEq, Eq, Structural)]
pub enum Variant {
    /// One color for the whole shape.
    Solid,
    /// One color per vertex.
    Gradient,
    /// A texture.
    Texture,
    /// A texture, faded by one alpha value.
    Faded,
    /// A texture, tinted by one color.
    Tinted,
    /// A texture, tinted by one color per vertex.
    Complex,
}

impl Variant {
    pub open spec fn spec_textured(self) -> bool {
        !(self is Solid || self is Gradient)
    }

    /// Whether shapes of this variant carry texture coordinates.
    #[verifier::when_used_as_spec(spec_textured)]
    pub fn textured(self) -> (t: bool)
        ensures
            t == self.spec_textured(),
    {
        match self {
            Variant::Solid => false,
            Variant::Gradient => false,
            _ => true,
        }
    }

    pub open spec fn spec_colored(self) -> bool {
        self is Gradient || self is Complex
    }

    /// Whether shapes of this variant carry one color per vertex.
    #[verifier::when_used_as_spec(spec_colored)]
    pub fn colored(self) -> (c: bool)
        ensures
            c == self.spec_colored(),
    {
        match self {
            Variant::Gradient => true,
            Variant::Complex => true,
            _ => false,
        }
    }

    pub open spec fn spec_params(self) -> usize {
        match self {
            Variant::Solid => 4,
            Variant::Tinted => 4,
            Variant::Faded => 1,
            _ => 0,
        }
    }

    /// The number of words of the variant's own parameters in a uniform
    /// buffer: 4 for a color, 1 for an alpha value.
    #[verifier::when_used_as_spec(spec_params)]
    pub fn params(self) -> (n: usize)
        ensures
            n == self.spec_params(),
    {
        match self {
            Variant::Solid => 4,
            Variant::Tinted => 4,
            Variant::Faded => 1,
            _ => 0,
        }
    }

    pub open spec fn spec_words(self) -> usize {
        (TRANSFORM_WORDS + self.spec_params() + 1) as usize
    }

    /// The number of words in a uniform buffer of this variant: the
    /// transform, the parameters, and the camera flag.
    #[verifier::when_used_as_spec(spec_words)]
    pub fn words(self) -> (n: usize)
        ensures
            n == self.spec_words(),
    {
        TRANSFORM_WORDS + self.params() + 1
    }

    pub open spec fn spec_slot(self) -> usize {
        match self {
            Variant::Solid => 0,
            Variant::Gradient => 1,
            Variant::Texture => 2,
            Variant::Faded => 3,
            Variant::Tinted => 4,
            Variant::Complex => 5,
        }
    }

    /// The variant's place among the styles of a renderer.
    #[verifier::when_used_as_spec(spec_slot)]
    pub fn slot(self) -> (i: usize)
        ensures
            i == self.spec_slot(),
            i < 6,
    {
        match self {
            Variant::Solid => 0,
            Variant::Gradient => 1,
            Variant::Texture => 2,
            Variant::Faded => 3,
            Variant::Tinted => 4,
            Variant::Complex => 5,
        }
    }
}

/// The two modules of a shader program.
#[derive(Clone, Copy, Debug, PartialEq, Eq, Structural)]
pub struct Shader {
    pub vertex: u64,
    pub fragment: u64,
    /// The number of textures that the program samples.
    pub textures: u32,
    pub has_data: u8,
}

impl Shader {
    /// Makes a shader from the code of its vertex and fragment stage. Both
    /// stages have code. Takes two handles, the vertex module's first.
    pub fn create(vw: &mut Vw, vert: &[u8], frag: &[u8], textures: u32) -> (made: Result<
        Shader,
        Error,
    >)
        requires
            old(vw).wf(),
            vert@.len() > 0,
            frag@.len() > 0,
        ensures
            final(vw).wf(),
            made is Ok <==> old(vw)@.has_room(2, 0),
            made matches Ok(shader) ==> {
                &&& shader.vertex == old(vw)@.next_handle
                &&& shader.fragment == old(vw)@.next_handle + 1
                &&& shader.textures == textures
                &&& shader.has_data == 0
                &&& final(vw)@ == old(vw)@.taken(2, 0)
            },
            made matches Err(e) ==> e == Error::OutOfMemory && *final(vw) == *old(vw),
    {
        match vw.allocate(2, 0) {
            Some(first) => Ok(Shader { vertex: first, fragment: first + 1, textures, has_data: 0 }),
            None => Err(Error::OutOfMemory),
        }
    }
}

/// A compiled pipeline: a shader program with its fixed state and the layout
/// of its descriptor sets. Every instance of one variant shares one style.
#[derive(Clone, Copy, Debug, PartialEq, Eq, Structural)]
pub struct Style {
    pub pipeline: u64,
    pub descsetlayout: u64,
    pub pipeline_layout: u64,
}

impl Style {
    /// Compiles the pipeline for a shader. Takes three handles: the
    /// pipeline's, the descriptor set layout's, the pipeline layout's.
    pub fn create(vw: &mut Vw, shader: &Shader) -> (made: Result<Style, Error>)
        requires
            old(vw).wf(),
        ensures
            final(vw).wf(),
            made is Ok <==> old(vw)@.has_room(3, 0),
            made matches Ok(style) ==> {
                &&& style.pipeline == old(vw)@.next_handle
                &&& style.descsetlayout == old(vw)@.next_handle + 1
                &&& style.pipeline_layout == old(vw)@.next_handle + 2
                &&& final(vw)@ == old(vw)@.taken(3, 0)
            },
            made matches Err(e) ==> e == Error::OutOfMemory && *final(vw) == *old(vw),
    {
        match vw.allocate(3, 0) {
            Some(first) => Ok(
                Style { pipeline: first, descsetlayout: first + 1, pipeline_layout: first + 2 },
            ),
            None => Err(Error::OutOfMemory),
        }
    }
}

/// A buffer of vertex data on the device: positions, colors or texture
/// coordinates, four words to the vertex. It is not changed once made.
#[derive(Debug)]
pub struct VwShape {
    vertex_buffer_memory: u64,
    vertex_input_buffer: u64,
    vertice_count: u32,
    data: Vec<u32>,
}

/// What a vertex buffer is, to its callers.
pub struct VwShapeView {
    pub memory: u64,
    pub buffer: u64,
    pub count: u32,
    pub data: Seq<u32>,
}

impl View for VwShape {
    type V = VwShapeView;

    closed spec fn view(&self) -> VwShapeView {
        VwShapeView {
            memory: self.vertex_buffer_memory,
            buffer: self.vertex_input_buffer,
            count: self.vertice_count,
            data: self.data@,
        }
    }
}

impl VwShapeView {
    /// The buffer's invariant: it has handles, and one vertex for every four
    /// words of data.
    pub open spec fn wf(self) -> bool {
        &&& self.memory >= FIRST_FREE
        &&& self.buffer == self.memory + 1
        &&& self.data.len() <= u32::MAX
        &&& self.count == self.data.len() / 4
    }

    /// The buffer that an upload of `data` makes on a context seen as `vw`.
    pub open spec fn uploaded(vw: VwView, data: Seq<u32>) -> VwShapeView {
        VwShapeView {
            memory: vw.next_handle,
            buffer: (vw.next_handle + 1) as u64,
            count: (data.len() / 4) as u32,
            data,
        }
    }
}

/// Whether `words` words can be uploaded to a context seen as `vw`: with
/// `handles` handles to name what is made, and four bytes to the word.
pub open spec fn fits(vw: VwView, handles: u64, words: nat) -> bool {
    &&& words <= u32::MAX
    &&& vw.has_room(handles, (4 * words) as u64)
}

impl VwShape {
    /// Uploads vertex data. Takes two handles, the memory's first, and four
    /// bytes for every word.
    pub fn create(vw: &mut Vw, data: Vec<u32>) -> (made: Result<VwShape, Error>)
        requires
            old(vw).wf(),
        ensures
            final(vw).wf(),
            made is Ok <==> fits(old(vw)@, 2, data@.len()),
            made matches Ok(shape) ==> {
                &&& shape@ == VwShapeView::uploaded(old(vw)@, data@)
                &&& shape@.wf()
                &&& final(vw)@ == old(vw)@.taken(2, (4 * data@.len()) as u64)
            },
            made matches Err(e) ==> e == Error::OutOfMemory && *final(vw) == *old(vw),
    {
        let len = data.len();
        if len > 0xffff_ffff {
            return Err(Error::OutOfMemory);
        }
        let words: u64 = len as u64;
        let count: u32 = (len / 4) as u32;
        match vw.allocate(2, 4 * words) {
            Some(first) => Ok(
                VwShape {
                    vertex_buffer_memory: first,
                    vertex_input_buffer: first + 1,
                    vertice_count: count,
                    data,
                },
            ),
            None => Err(Error::OutOfMemory),
        }
    }

    /// The handle of the buffer's memory.
    pub fn memory(&self) -> (h: u64)
        ensures
            h == self@.memory,
    {
        self.vertex_buffer_memory
    }

    /// The handle of the buffer.
    pub fn buffer(&self) -> (h: u64)
        ensures
            h == self@.buffer,
    {
        self.vertex_input_buffer
    }

    /// The number of vertices.
    pub fn count(&self) -> (n: u32)
        ensures
            n == self@.count,
    {
        self.vertice_count
    }

    /// The words that the buffer holds.
    pub fn data(&self) -> (words: &Vec<u32>)
        ensures
            words@ == self@.data,
    {
        &self.data
    }
}

/// A texture on the device: its images, sampler and view, and its pixels.
#[derive(Debug)]
pub struct NativeTexture {
    mappable_image: u64,
    mappable_memory: u64,
    image: u64,
    memory: u64,
    sampler: u64,
    view: u64,
    w: u32,
    h: u32,
    size: u64,
    pitch: u64,
    staged: u8,
    pixels: Vec<u32>,
}

/// What a texture is, to its callers.
pub struct NativeTextureView {
    /// The first of the texture's six handles: the mappable image, its
    /// memory, the image, its memory, the sampler, the image view.
    pub first: u64,
    pub w: u32,
    pub h: u32,
    pub pixels: Seq<u32>,
}

impl View for NativeTexture {
    type V = NativeTextureView;

    closed spec fn view(&self) -> NativeTextureView {
        NativeTextureView { first: self.mappable_image, w: self.w, h: self.h, pixels: self.pixels@ }
    }
}

impl NativeTextureView {
    /// The handle of the image view, which a descriptor set binds.
    pub open spec fn image_view(self) -> u64 {
        (self.first + 5) as u64
    }

    /// The texture's invariant: it has handles, and one pixel for every point.
    pub open spec fn wf(self) -> bool {
        &&& self.first >= FIRST_FREE
        &&& self.first + 5 <= u64::MAX
        &&& self.pixels.len() == self.w * self.h
    }

    /// The texture that an upload of `pixels` makes on a context seen as `vw`.
    pub open spec fn uploaded(vw: VwView, w: u32, h: u32, pixels: Seq<u32>) -> NativeTextureView {
        NativeTextureView { first: vw.next_handle, w, h, pixels }
    }
}

impl NativeTexture {
    /// The texture's invariant, with that of the fields that the view does
    /// not show: the six handles follow one another, the size is four bytes
    /// for every pixel and the pitch four bytes for every pixel of a row.
    pub closed spec fn wf(&self) -> bool {
        &&& self@.wf()
        &&& self.mappable_memory == self.mappable_image + 1
        &&& self.image == self.mappable_image + 2
        &&& self.memory == self.mappable_image + 3
        &&& self.sampler == self.mappable_image + 4
        &&& self.view == self.mappable_image + 5
        &&& self.size == 4 * (self.w * self.h)
        &&& self.pitch == 4 * self.w
        &&& self.staged == 0
    }

    /// Uploads an image of `w` by `h` pixels, given row by row. Takes six
    /// handles and four bytes for every pixel.
    pub fn create(vw: &mut Vw, w: u32, h: u32, pixels: Vec<u32>) -> (made: Result<
        NativeTexture,
        Error,
    >)
        requires
            old(vw).wf(),
            pixels@.len() == w * h,
        ensures
            final(vw).wf(),
            made is Ok <==> fits(old(vw)@, 6, (w * h) as nat),
            made matches Ok(texture) ==> {
                &&& texture@ == NativeTextureView::uploaded(old(vw)@, w, h, pixels@)
                &&& texture.wf()
                &&& final(vw)@ == old(vw)@.taken(6, (4 * (w * h)) as u64)
            },
            made matches Err(e) ==> e == Error::OutOfMemory && *final(vw) == *old(vw),
    {
        assert((w as u64) * (h as u64) <= 0xffff_ffff * 0xffff_ffff) by (nonlinear_arith)
            requires
                w <= 0xffff_ffff,
                h <= 0xffff_ffff,
        ;
        let points: u64 = (w as u64) * (h as u64);
        if points > 0xffff_ffff {
            return Err(Error::OutOfMemory);
        }
        let wide: u64 = w as u64;
        match vw.allocate(6, 4 * points) {
            Some(first) => Ok(
                NativeTexture {
                    mappable_image: first,
                    mappable_memory: first + 1,
                    image: first + 2,
                    memory: first + 3,
                    sampler: first + 4,
                    view: first + 5,
                    w,
                    h,
                    size: 4 * points,
                    pitch: 4 * wide,
                    staged: 0,
                    pixels,
                },
            ),
            None => Err(Error::OutOfMemory),
        }
    }

    /// Writes new pixels into the texture's memory. The image is not made
    /// anew: its handles and its dimensions stay, so there are as many pixels
    /// as before.
    pub fn set_pixels(&mut self, pixels: Vec<u32>)
        requires
            old(self).wf(),
            pixels@.len() == old(self)@.w * old(self)@.h,
        ensures
            final(self).wf(),
            final(self)@ == (NativeTextureView { pixels: pixels@, ..old(self)@ }),
    {
        self.pixels = pixels;
    }

    /// The width and height.
    pub fn wh(&self) -> (wh: (u32, u32))
        ensures
            wh == (self@.w, self@.h),
    {
        (self.w, self.h)
    }

    /// The handle of the image view, which a descriptor set binds.
    pub fn image_view(&self) -> (h: u64)
        requires
            self.wf(),
        ensures
            h == self@.image_view(),
            h >= FIRST_FREE,
    {
        self.view
    }

    /// The first of the texture's six handles.
    pub fn first(&self) -> (h: u64)
        ensures
            h == self@.first,
    {
        self.mappable_image
    }

    /// The pixels, row by row.
    pub fn pixels(&self) -> (pixels: &Vec<u32>)
        ensures
            pixels@ == self@.pixels,
    {
        &self.pixels
    }
}

} // verus!
