//! What holds of displays over several operations.

use vstd::prelude::*;
use crate::display::{Display, Texture};
use crate::instance::Bindings;
use crate::renderer::{projection, RendererView};
use crate::resources::{Variant, TRANSFORM_WORDS};
use crate::selector::{decided, outcome};
use crate::vw::{Host, COLOR_FORMAT, IMAGE_COUNT};

verus! {

/// A display that was just opened is ready, has the dimensions of the
/// window, two images in its swapchain, and no shape.
pub proof fn lemma_opened(title: Seq<char>, host: Host)
    ensures
        RendererView::opened(title, host).state is Ready,
        RendererView::opened(title, host).vw.width == host.width,
        RendererView::opened(title, host).vw.height == host.height,
        RendererView::opened(title, host).vw.live,
        RendererView::opened(title, host).vw.image_count == IMAGE_COUNT,
        RendererView::opened(title, host).vw.color_format == COLOR_FORMAT,
        RendererView::opened(title, host).shapes.len() == 0,
        RendererView::opened(title, host).projection == projection(host.width, host.height),
        RendererView::opened(title, host).vw.name == title,
{
}

/// Opening a display fails if and only if the attempts on both backends
/// failed; and where it succeeds, the display has the dimensions that the
/// host reported to the first attempt that succeeded.
pub proof fn lemma_opening_fails_iff_all_fail(
    made: Result<Display, String>,
    title: Seq<char>,
    first: Result<Host, String>,
    second: Result<Host, String>,
)
    requires
        decided(made, title, first, second),
    ensures
        made is Err <==> outcome(first) is Err && outcome(second) is Err,
        made matches Ok(display) ==> {
            let host = if outcome(first) is Ok {
                outcome(first)->Ok_0
            } else {
                outcome(second)->Ok_0
            };
            &&& display@.vw.width == host.width
            &&& display@.vw.height == host.height
            &&& display@.state is Ready
            &&& display@.shapes.len() == 0
        },
{
}

/// After a resize the display has the new dimensions and no live shape, and
/// is ready.
pub proof fn lemma_resize(before: RendererView, width: u32, height: u32)
    ensures
        before.resized(width, height).vw.width == width,
        before.resized(width, height).vw.height == height,
        before.resized(width, height).shapes.len() == 0,
        before.resized(width, height).state is Ready,
        before.resized(width, height).projection == projection(width, height),
        before.wf() ==> before.resized(width, height).wf(),
{
}

/// A resize to the dimensions that the display was just resized to changes
/// nothing: the engine is ready as before, and the swapchain is the same in
/// existence, dimensions, number of images and format.
pub proof fn lemma_resize_twice(before: RendererView, width: u32, height: u32)
    ensures
        before.resized(width, height).resized(width, height) == before.resized(width, height),
        before.resized(width, height).resized(width, height).state is Ready,
        before.resized(width, height).resized(width, height).vw.same_swapchain(
            before.resized(width, height).vw,
        ),
        before.resized(width, height).vw.image_count == IMAGE_COUNT,
        before.wf() ==> before.resized(width, height).vw.color_format == COLOR_FORMAT,
{
}

/// A resize after a resize leaves what the last one alone would have left,
/// but for the image that was drawn last, which is the first either way.
pub proof fn lemma_resize_then_resize(
    before: RendererView,
    first: (u32, u32),
    second: (u32, u32),
)
    ensures
        before.resized(first.0, first.1).resized(second.0, second.1) == before.resized(
            second.0,
            second.1,
        ),
{
}

/// A transform that is written to a shape leaves the shape's parameters,
/// its color among them, as they were, and leaves every other shape alone.
pub proof fn lemma_transform_keeps_params(before: RendererView, shape: usize, transform: Seq<u32>)
    requires
        before.wf(),
        shape < before.shapes.len(),
        transform.len() == TRANSFORM_WORDS,
    ensures
        before.with_transform(shape, transform).wf(),
        before.with_transform(shape, transform).shapes.len() == before.shapes.len(),
        before.with_transform(shape, transform).shapes[shape as int].instance.params()
            == before.shapes[shape as int].instance.params(),
        before.with_transform(shape, transform).shapes[shape as int].instance.transform()
            == transform,
        before.with_transform(shape, transform).shapes[shape as int].instance.first
            == before.shapes[shape as int].instance.first,
        before.with_transform(shape, transform).vw == before.vw,
        forall|other: int|
            0 <= other < before.shapes.len() && other != shape ==> #[trigger] before.with_transform(
                shape,
                transform,
            ).shapes[other] == before.shapes[other],
{
    let after = before.with_transform(shape, transform);
    crate::instance::lemma_moved(before.shapes[shape as int].instance, transform);
    crate::renderer::lemma_bytes_update(
        before.shapes,
        shape as int,
        before.shapes[shape as int].moved(transform),
    );
    assert forall|i: int| 0 <= i < after.shapes.len() implies (#[trigger] after.shapes[i]).wf()
        && after.shapes[i].instance.style == after.style(after.shapes[i].instance.variant) by {
        if i != shape {
            assert(after.shapes[i] == before.shapes[i]);
        }
    }
}

/// The color of a solid shape is the one that it was made with, whatever
/// transform is written to the shape afterwards.
pub proof fn lemma_solid_color_survives_transform(
    before: RendererView,
    model: usize,
    first: Seq<u32>,
    color: Seq<u32>,
    bindings: Bindings,
    second: Seq<u32>,
)
    requires
        before.wf(),
        before.can_draw(Variant::Solid),
        before.shapes.len() < usize::MAX,
        first.len() == TRANSFORM_WORDS,
        second.len() == TRANSFORM_WORDS,
        color.len() == 4,
        bindings.suits(Variant::Solid),
    ensures
        ({
            let place = before.shapes.len() as usize;
            let made = before.with_shape(Variant::Solid, model, first, color, bindings);
            let moved = made.with_transform(place, second);
            &&& made.shapes[place as int].instance.params() == color
            &&& made.shapes[place as int].instance.transform() == first
            &&& moved.shapes[place as int].instance.params() == color
            &&& moved.shapes[place as int].instance.transform() == second
        }),
{
    let place = before.shapes.len() as usize;
    let made = before.with_shape(Variant::Solid, model, first, color, bindings);
    let shape = made.shapes[place as int];
    crate::instance::lemma_uniform_regions(
        before.style(Variant::Solid),
        Variant::Solid,
        before.vw.next_handle,
        first,
        color,
        bindings,
    );
    crate::instance::lemma_moved(shape.instance, second);
}

/// A display refuses every texture that was made on the other backend.
pub proof fn lemma_foreign_texture_refused(maker: Display, other: Display, texture: Texture)
    requires
        texture.backend() == maker.backend(),
        other.backend() != maker.backend(),
    ensures
        maker.accepts(&texture),
        !other.accepts(&texture),
{
}

} // verus!
