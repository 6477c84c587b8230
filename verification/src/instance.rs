//! Instances: the parameters of one draw, as the device sees them, and the
//! shapes that pair an instance with its vertex buffer.

use vstd::prelude::*;
use crate::command::Command;
use crate::error::Error;
use crate::resources::{Style, Variant, VwShape, TRANSFORM_WORDS};
use crate::vw::{Vw, VwView, FIRST_FREE};

verus! {

/// The word that the camera flag takes in a uniform buffer.
pub open spec fn flag(camera: bool) -> u32 {
    if camera {
        1
    } else {
        0
    }
}

/// What a uniform buffer holds: the transform, then the variant's own
/// parameters, then the camera flag.
pub open spec fn uniform(transform: Seq<u32>, params: Seq<u32>, camera: bool) -> Seq<u32> {
    transform + params + seq![flag(camera)]
}

/// What a draw binds beside its vertex buffer, and how it is drawn. A handle
/// is 0 where the variant binds nothing of the kind.
#[derive(Clone, Copy, Debug, PartialEq, Eq, Structural)]
pub struct Bindings {
    /// The image view of the texture.
    pub texture: u64,
    /// The buffer of the colors, one to the vertex.
    pub colors: u64,
    /// The buffer of the texture coordinates.
    pub texcoords: u64,
    pub blending: bool,
    pub fog: bool,
    pub camera: bool,
}

impl Bindings {
    /// Whether these bindings are what a variant takes: a texture and its
    /// coordinates for the textured ones, colors for those with one color to
    /// the vertex, and nothing else.
    pub open spec fn suits(self, variant: Variant) -> bool {
        &&& (self.texture != 0) == variant.textured()
        &&& (self.texcoords != 0) == variant.textured()
        &&& (self.colors != 0) == variant.colored()
    }
}

/// One draw's parameters on the device: a uniform buffer with its memory,
/// and the descriptor set that binds it, with a texture where there is one,
/// to the pipeline of a style.
#[derive(Debug)]
pub struct VwInstance {
    matrix_buffer: u64,
    uniform_memory: u64,
    desc_set: u64,
    desc_pool: u64,
    pipeline: Style,
    variant: Variant,
    uniform: Vec<u32>,
    bindings: Bindings,
}

/// What an instance is, to its callers.
pub struct VwInstanceView {
    /// The first of the instance's four handles: the uniform buffer, its
    /// memory, the descriptor pool, the descriptor set.
    pub first: u64,
    pub style: Style,
    pub variant: Variant,
    /// The words in the uniform buffer.
    pub uniform: Seq<u32>,
    pub bindings: Bindings,
}

impl View for VwInstance {
    type V = VwInstanceView;

    closed spec fn view(&self) -> VwInstanceView {
        VwInstanceView {
            first: self.matrix_buffer,
            style: self.pipeline,
            variant: self.variant,
            uniform: self.uniform@,
            bindings: self.bindings,
        }
    }
}

impl VwInstanceView {
    /// The handle of the descriptor set.
    pub open spec fn descriptor_set(self) -> u64 {
        (self.first + 3) as u64
    }

    /// The transform: the first sixteen words of the uniform buffer.
    pub open spec fn transform(self) -> Seq<u32> {
        self.uniform.subrange(0, TRANSFORM_WORDS as int)
    }

    /// The variant's own parameters: the words between the transform and the
    /// camera flag.
    pub open spec fn params(self) -> Seq<u32> {
        self.uniform.subrange(TRANSFORM_WORDS as int, self.uniform.len() - 1)
    }

    /// The instance's invariant: it has handles, its uniform buffer has the
    /// length that its variant asks for and ends in the camera flag, and it
    /// binds what its variant takes.
    pub open spec fn wf(self) -> bool {
        &&& self.first >= FIRST_FREE
        &&& self.first + 3 <= u64::MAX
        &&& self.uniform.len() == self.variant.words()
        &&& self.uniform.last() == flag(self.bindings.camera)
        &&& self.bindings.suits(self.variant)
    }

    /// The instance that is made on a context seen as `vw`.
    pub open spec fn made(
        vw: VwView,
        style: Style,
        variant: Variant,
        transform: Seq<u32>,
        params: Seq<u32>,
        bindings: Bindings,
    ) -> VwInstanceView {
        VwInstanceView {
            first: vw.next_handle,
            style,
            variant,
            uniform: uniform(transform, params, bindings.camera),
            bindings,
        }
    }

    /// The instance after a transform was written to it: the first sixteen
    /// words are the transform's, every other word is as it was, and so is
    /// all that is not in the uniform buffer.
    pub open spec fn moved(self, transform: Seq<u32>) -> VwInstanceView {
        VwInstanceView {
            uniform: transform + self.uniform.skip(TRANSFORM_WORDS as int),
            ..self
        }
    }
}

/// The regions of a uniform buffer hold what it was made of.
pub proof fn lemma_uniform_regions(
    style: Style,
    variant: Variant,
    first: u64,
    transform: Seq<u32>,
    params: Seq<u32>,
    bindings: Bindings,
)
    requires
        transform.len() == TRANSFORM_WORDS,
    ensures
        ({
            let made = VwInstanceView {
                first,
                style,
                variant,
                uniform: uniform(transform, params, bindings.camera),
                bindings,
            };
            &&& made.transform() == transform
            &&& made.params() == params
            &&& made.uniform.len() == TRANSFORM_WORDS + params.len() + 1
            &&& made.uniform.last() == flag(bindings.camera)
        }),
{
    let u = uniform(transform, params, bindings.camera);
    assert(u.subrange(0, TRANSFORM_WORDS as int) =~= transform);
    assert(u.subrange(TRANSFORM_WORDS as int, u.len() - 1) =~= params);
}

/// A transform written to a well-formed instance replaces the transform and
/// nothing else: the parameters, the camera flag, the handles and the
/// bindings are as before, and the instance is still well-formed.
pub proof fn lemma_moved(instance: VwInstanceView, transform: Seq<u32>)
    requires
        instance.wf(),
        transform.len() == TRANSFORM_WORDS,
    ensures
        instance.moved(transform).wf(),
        instance.moved(transform).transform() == transform,
        instance.moved(transform).params() == instance.params(),
        instance.moved(transform).uniform.len() == instance.uniform.len(),
        instance.moved(transform).first == instance.first,
        instance.moved(transform).style == instance.style,
        instance.moved(transform).bindings == instance.bindings,
{
    let after = instance.moved(transform);
    assert(after.uniform.len() == instance.uniform.len());
    assert(after.transform() =~= transform);
    assert(after.params() =~= instance.params());
    assert(after.uniform.last() == instance.uniform.last());
}

/// Lays out a uniform buffer.
fn layout(transform: &[u32; 16], params: &[u32], camera: bool) -> (words: Vec<u32>)
    ensures
        words@ == uniform(transform@, params@, camera),
{
    let mut words: Vec<u32> = Vec::new();
    let mut i: usize = 0;
    while i < 16
        invariant
            i <= 16,
            words@ == transform@.subrange(0, i as int),
        decreases 16 - i,
    {
        words.push(transform[i]);
        i = i + 1;
        assert(words@ =~= transform@.subrange(0, i as int));
    }
    assert(words@ =~= transform@);
    let mut j: usize = 0;
    while j < params.len()
        invariant
            j <= params@.len(),
            words@ == transform@ + params@.subrange(0, j as int),
        decreases params@.len() - j,
    {
        words.push(params[j]);
        j = j + 1;
        assert(words@ =~= transform@ + params@.subrange(0, j as int));
    }
    assert(params@.subrange(0, j as int) =~= params@);
    let last: u32 = if camera {
        1
    } else {
        0
    };
    words.push(last);
    assert(words@ =~= uniform(transform@, params@, camera));
    words
}

impl VwInstance {
    /// The invariant of the instance, with that of the fields that the view
    /// does not show: the four handles follow one another.
    pub closed spec fn wf(&self) -> bool {
        &&& self@.wf()
        &&& self.uniform_memory == self.matrix_buffer + 1
        &&& self.desc_pool == self.matrix_buffer + 2
        &&& self.desc_set == self.matrix_buffer + 3
    }

    /// Makes an instance for one draw with a style: allocates the uniform
    /// buffer and the descriptor set, and writes the transform, the
    /// parameters and the camera flag into the buffer at once. Takes four
    /// handles and four bytes for every word of the buffer.
    pub fn create(
        vw: &mut Vw,
        style: Style,
        variant: Variant,
        transform: &[u32; 16],
        params: &[u32],
        bindings: Bindings,
    ) -> (made: Result<VwInstance, Error>)
        requires
            old(vw).wf(),
            params@.len() == variant.params(),
            bindings.suits(variant),
        ensures
            final(vw).wf(),
            made is Ok <==> old(vw)@.has_room(4, (4 * variant.words()) as u64),
            made matches Ok(instance) ==> {
                &&& instance@ == VwInstanceView::made(
                    old(vw)@,
                    style,
                    variant,
                    transform@,
                    params@,
                    bindings,
                )
                &&& instance.wf()
                &&& instance@.transform() == transform@
                &&& instance@.params() == params@
                &&& final(vw)@ == old(vw)@.taken(4, (4 * variant.words()) as u64)
            },
            made matches Err(e) ==> e == Error::OutOfMemory && *final(vw) == *old(vw),
    {
        let words: u64 = variant.words() as u64;
        match vw.allocate(4, 4 * words) {
            Some(first) => {
                let uniform = layout(transform, params, bindings.camera);
                proof {
                    lemma_uniform_regions(style, variant, first, transform@, params@, bindings);
                }
                Ok(
                    VwInstance {
                        matrix_buffer: first,
                        uniform_memory: first + 1,
                        desc_set: first + 3,
                        desc_pool: first + 2,
                        pipeline: style,
                        variant,
                        uniform,
                        bindings,
                    },
                )
            },
            None => Err(Error::OutOfMemory),
        }
    }

    /// Writes a transform over the one in the uniform buffer. Nothing is
    /// allocated, and no word outside the transform changes.
    pub fn set_transform(&mut self, transform: &[u32; 16])
        requires
            old(self).wf(),
        ensures
            final(self).wf(),
            final(self)@ == old(self)@.moved(transform@),
            final(self)@.params() == old(self)@.params(),
            final(self)@.transform() == transform@,
    {
        let mut i: usize = 0;
        while i < 16
            invariant
                i <= 16,
                self.uniform@.len() == old(self).uniform@.len(),
                self.uniform@.len() >= 17,
                self.uniform@ == transform@.subrange(0, i as int) + old(self).uniform@.skip(
                    i as int,
                ),
                self.matrix_buffer == old(self).matrix_buffer,
                self.uniform_memory == old(self).uniform_memory,
                self.desc_set == old(self).desc_set,
                self.desc_pool == old(self).desc_pool,
                self.pipeline == old(self).pipeline,
                self.variant == old(self).variant,
                self.bindings == old(self).bindings,
            decreases 16 - i,
        {
            self.uniform.set(i, transform[i]);
            i = i + 1;
            assert(self.uniform@ =~= transform@.subrange(0, i as int) + old(self).uniform@.skip(
                i as int,
            ));
        }
        proof {
            assert(transform@.subrange(0, 16) =~= transform@);
            lemma_moved(old(self)@, transform@);
        }
    }

    /// The handle of the uniform buffer, the first of the instance's four.
    pub fn first(&self) -> (h: u64)
        ensures
            h == self@.first,
    {
        self.matrix_buffer
    }

    /// The handle of the descriptor set.
    pub fn descriptor_set(&self) -> (h: u64)
        requires
            self.wf(),
        ensures
            h == self@.descriptor_set(),
    {
        self.desc_set
    }

    /// The style whose pipeline the instance is drawn with.
    pub fn style(&self) -> (style: Style)
        ensures
            style == self@.style,
    {
        self.pipeline
    }

    /// The variant that the instance is drawn as.
    pub fn variant(&self) -> (variant: Variant)
        ensures
            variant == self@.variant,
    {
        self.variant
    }

    /// The words in the uniform buffer.
    pub fn uniform(&self) -> (words: &Vec<u32>)
        ensures
            words@ == self@.uniform,
    {
        &self.uniform
    }

    /// What the instance binds, and how it is drawn.
    pub fn bindings(&self) -> (bindings: Bindings)
        ensures
            bindings == self@.bindings,
    {
        self.bindings
    }
}

/// A drawable shape: a vertex buffer with the instance that it is drawn with.
#[derive(Debug)]
pub struct Shape {
    model: usize,
    vertex_buffer: u64,
    vertice_count: u32,
    hastx: bool,
    instance: VwInstance,
}

/// What a shape is, to its callers.
pub struct ShapeView {
    /// The model that the shape draws, by its place among the models.
    pub model: usize,
    /// The handle of the model's vertex buffer, and its number of vertices.
    pub buffer: u64,
    pub count: u32,
    /// Whether the shape carries texture coordinates.
    pub hastx: bool,
    pub instance: VwInstanceView,
}

impl View for Shape {
    type V = ShapeView;

    closed spec fn view(&self) -> ShapeView {
        ShapeView {
            model: self.model,
            buffer: self.vertex_buffer,
            count: self.vertice_count,
            hastx: self.hastx,
            instance: self.instance@,
        }
    }
}

impl ShapeView {
    /// The shape's invariant: a well-formed instance on a buffer that is
    /// there, with texture coordinates if and only if its variant is
    /// textured.
    pub open spec fn wf(self) -> bool {
        &&& self.instance.wf()
        &&& self.buffer >= FIRST_FREE
        &&& self.hastx == self.instance.variant.textured()
    }

    /// The shape that pairs a model with an instance.
    pub open spec fn paired(model: usize, buffer: u64, count: u32, instance: VwInstanceView)
        -> ShapeView {
        ShapeView { model, buffer, count, hastx: instance.variant.textured(), instance }
    }

    /// The command that draws the shape.
    pub open spec fn draw(self) -> Command {
        Command::Draw {
            vertex_buffer: self.buffer,
            vertex_count: self.count,
            descriptor_set: self.instance.descriptor_set(),
            pipeline: self.instance.style.pipeline,
            blending: self.instance.bindings.blending,
            fog: self.instance.bindings.fog,
            camera: self.instance.bindings.camera,
        }
    }

    /// The shape after a transform was written to its instance.
    pub open spec fn moved(self, transform: Seq<u32>) -> ShapeView {
        ShapeView { instance: self.instance.moved(transform), ..self }
    }
}

impl Shape {
    /// The invariant of the shape and of its instance.
    pub closed spec fn wf(&self) -> bool {
        &&& self@.wf()
        &&& self.instance.wf()
    }

    /// Pairs the model at place `model`, whose buffer is `buffer`, with an
    /// instance.
    pub fn new(model: usize, buffer: &VwShape, instance: VwInstance) -> (shape: Shape)
        requires
            buffer@.wf(),
            instance.wf(),
        ensures
            shape.wf(),
            shape@ == ShapeView::paired(model, buffer@.buffer, buffer@.count, instance@),
    {
        let hastx = instance.variant().textured();
        Shape {
            model,
            vertex_buffer: buffer.buffer(),
            vertice_count: buffer.count(),
            hastx,
            instance,
        }
    }

    /// Writes a transform to the shape's instance. The vertex buffer and
    /// every word of the instance outside the transform stay.
    pub fn set_transform(&mut self, transform: &[u32; 16])
        requires
            old(self).wf(),
        ensures
            final(self).wf(),
            final(self)@ == old(self)@.moved(transform@),
            final(self)@.instance.params() == old(self)@.instance.params(),
            final(self)@.instance.transform() == transform@,
    {
        self.instance.set_transform(transform);
    }

    /// The command that draws the shape: it binds the shape's vertex buffer
    /// and its instance's descriptor set.
    pub fn draw(&self) -> (command: Command)
        requires
            self.wf(),
        ensures
            command == self@.draw(),
    {
        Command::Draw {
            vertex_buffer: self.vertex_buffer,
            vertex_count: self.vertice_count,
            descriptor_set: self.instance.descriptor_set(),
            pipeline: self.instance.style().pipeline,
            blending: self.instance.bindings().blending,
            fog: self.instance.bindings().fog,
            camera: self.instance.bindings().camera,
        }
    }

    /// The place of the shape's model among the models.
    pub fn model(&self) -> (model: usize)
        ensures
            model == self@.model,
    {
        self.model
    }

    /// The handle of the vertex buffer.
    pub fn buffer(&self) -> (h: u64)
        ensures
            h == self@.buffer,
    {
        self.vertex_buffer
    }

    /// The number of vertices.
    pub fn count(&self) -> (n: u32)
        ensures
            n == self@.count,
    {
        self.vertice_count
    }

    /// Whether the shape carries texture coordinates.
    pub fn hastx(&self) -> (t: bool)
        ensures
            t == self@.hastx,
    {
        self.hastx
    }

    /// The shape's instance.
    pub fn instance(&self) -> (instance: &VwInstance)
        requires
            self.wf(),
        ensures
            instance@ == self@.instance,
            instance.wf(),
    {
        &self.instance
    }
}

} // verus!
