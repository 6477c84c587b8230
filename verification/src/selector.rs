//! The choice of the backend when a display is opened.
//!
//! The backends are tried in a fixed order, Vulkan first. Whoever opens a
//! display brings, for each backend, the attempt to start it: a function
//! from the window's title to what the host reports once the backend runs,
//! or to the reason why it does not. An attempt is made only when every
//! attempt before it has failed.

use vstd::prelude::*;
use crate::display::{Backend, Display};
use crate::renderer::{Renderer, RendererView};
use crate::vw::{Host, INSTANCE};

verus! {

/// The failures of both backends as one text: the first, a line break, the
/// second.
pub open spec fn joined(first: Seq<char>, second: Seq<char>) -> Seq<char> {
    first + seq!['\n'] + second
}

/// What an attempt comes to: the host that a display can be made on, or the
/// text of the failure. An attempt fails when the backend did not start, and
/// when it started on a window connection that cannot be rendered to.
pub open spec fn outcome(reply: Result<Host, String>) -> Result<Host, Seq<char>> {
    match reply {
        Ok(host) => match host.connection.surface(INSTANCE) {
            Ok(_) => Ok(host),
            Err(e) => Err(e.text()),
        },
        Err(text) => Err(text@),
    }
}

/// Whether `made` is the display that a successful attempt on `backend`
/// makes for a window titled `title` on `host`.
pub open spec fn opened_on(
    made: Result<Display, String>,
    backend: Backend,
    title: Seq<char>,
    host: Host,
) -> bool {
    made matches Ok(display) && display.wf() && display.backend() == backend && display@
        == RendererView::opened(title, host)
}

/// Whether `made` is what the two attempts decide: the display on the first
/// backend whose attempt succeeded, or the joined failures of both. The
/// second reply counts only where the first attempt failed.
pub open spec fn decided(
    made: Result<Display, String>,
    title: Seq<char>,
    first: Result<Host, String>,
    second: Result<Host, String>,
) -> bool {
    match outcome(first) {
        Ok(host) => opened_on(made, Backend::Vulkan, title, host),
        Err(vulkan) => match outcome(second) {
            Ok(host) => opened_on(made, Backend::OpenGL, title, host),
            Err(opengl) => made matches Err(text) && text@ == joined(vulkan, opengl),
        },
    }
}

/// `String::push_str` of the standard library: appends a string slice to the
/// end of the string.
#[verifier::external_body]
fn push_str(text: &mut String, more: &str)
    ensures
        final(text)@ == old(text)@ + more@,
{
    text.push_str(more)
}

/// `String::push` of the standard library: appends one character to the end
/// of the string.
#[verifier::external_body]
fn push(text: &mut String, c: char)
    ensures
        final(text)@ == old(text)@.push(c),
{
    text.push(c)
}

/// Makes the display on a backend from the reply of the attempt to start it.
/// Fails with the reply's own text where the backend did not start, and with
/// the diagnostic of the window connection where no surface can be made on
/// it.
pub fn attempt(backend: Backend, title: &str, reply: Result<Host, String>) -> (made: Result<
    Display,
    String,
>)
    ensures
        match outcome(reply) {
            Ok(host) => opened_on(made, backend, title@, host),
            Err(text) => made matches Err(e) && e@ == text,
        },
{
    match reply {
        Ok(host) => match Renderer::new(title, host) {
            Ok(renderer) => match backend {
                Backend::Vulkan => Ok(Display::Vulkan(renderer)),
                Backend::OpenGL => Ok(Display::OpenGL(renderer)),
            },
            Err(e) => Err(e.message()),
        },
        Err(text) => Err(text),
    }
}

/// Opens a display titled `title` on the first backend that starts: Vulkan
/// is tried first, OpenGL only if Vulkan failed. The backend is fixed for
/// the life of the display. If both fail, the error holds both failures, in
/// the order of the attempts, joined by a line break.
pub fn new_display<V, G>(title: &str, vulkan: V, opengl: G) -> (made: Result<Display, String>)
    where V: FnOnce(&str) -> Result<Host, String>, G: FnOnce(&str) -> Result<Host, String>
    requires
        vulkan.requires((title,)),
        opengl.requires((title,)),
    ensures
        exists|first: Result<Host, String>|
            {
                &&& #[trigger] vulkan.ensures((title,), first)
                &&& outcome(first) is Ok ==> decided(made, title@, first, first)
                &&& outcome(first) is Err ==> exists|second: Result<Host, String>|
                    #[trigger] opengl.ensures((title,), second) && decided(
                        made,
                        title@,
                        first,
                        second,
                    )
            },
{
    let mut err = String::new();

    // Try Vulkan first.
    let first = vulkan(title);
    match attempt(Backend::Vulkan, title, first) {
        Ok(display) => {
            return Ok(display);
        },
        Err(text) => {
            push_str(&mut err, text.as_str());
        },
    }

    // Fall back on OpenGL.
    push(&mut err, '\n');
    let second = opengl(title);
    match attempt(Backend::OpenGL, title, second) {
        Ok(display) => {
            return Ok(display);
        },
        Err(text) => {
            push_str(&mut err, text.as_str());
        },
    }

    // No more options.
    proof {
        assert(err@ =~= joined(outcome(first)->Err_0, outcome(second)->Err_0));
        assert(decided(Err::<Display, String>(err), title@, first, second));
    }
    Err(err)
}

} // verus!
