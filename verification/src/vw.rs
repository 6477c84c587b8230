//! The backend context and its swapchain.
//!
//! A context names its objects by handles that it assigns itself. The objects
//! of the context and of the swapchain have fixed handles; every buffer,
//! image or descriptor that is allocated later gets the next free one. Handle
//! 0 names nothing.

use vstd::prelude::*;
use crate::surface::{create_surface, SurfaceCreateInfo, SurfaceError, WindowConnection};

verus! {

/// The number of presentable images: the swapchain is double-buffered.
pub const IMAGE_COUNT: u32 = 2;

/// The format of the presentable images: 8-bit BGRA, unsigned normalized.
pub const COLOR_FORMAT: u32 = 44;

pub const INSTANCE: usize = 1;

pub const SURFACE: u64 = 2;

pub const GPU: usize = 3;

pub const DEVICE: usize = 4;

pub const PRESENT_QUEUE: usize = 5;

pub const COMMAND_BUFFER: usize = 6;

pub const SWAPCHAIN: u64 = 7;

pub const PRESENT_IMAGES: u64 = 8;

pub const PRESENT_IMAGE_VIEWS: u64 = 10;

pub const FRAME_BUFFERS: u64 = 12;

pub const DEPTH_IMAGE: u64 = 14;

pub const DEPTH_IMAGE_VIEW: u64 = 15;

pub const DEPTH_IMAGE_MEMORY: u64 = 16;

pub const RENDER_PASS: u64 = 17;

pub const PRESENTING_COMPLETE: u64 = 18;

pub const RENDERING_COMPLETE: u64 = 19;

pub const SUBMIT_FENCE: u64 = 20;

/// The first handle that an allocation can get.
pub const FIRST_FREE: u64 = 21;

/// What the host reports of the window and of the device behind it.
#[derive(Clone, Copy, Debug, PartialEq, Eq, Structural)]
pub struct Host {
    pub connection: WindowConnection,
    /// The window's current width and height.
    pub width: u32,
    pub height: u32,
    /// The bytes of device memory that allocations may take in all.
    pub memory: u64,
}

/// A backend context: the device's objects and the one swapchain on them.
pub struct Vw {
    pub instance: usize,
    surface: u64,
    present_queue_index: u32,
    present_queue: usize,
    gpu: usize,
    device: usize,
    command_buffer: usize,
    swapchain: u64,
    width: u32,
    height: u32,
    present_images: [u64; 2],
    frame_buffers: [u64; 2],
    color_format: u32,
    image_count: u32,
    submit_fence: u64,
    present_image_views: [u64; 2],
    depth_image: u64,
    depth_image_view: u64,
    depth_image_memory: u64,
    render_pass: u64,
    next_image_index: u32,
    presenting_complete_sem: u64,
    rendering_complete_sem: u64,
    /// The bytes of device memory that are taken.
    offsets: u64,
    memory: u64,
    next_handle: u64,
    request: SurfaceCreateInfo,
    name: String,
}

/// What a context is, to its callers.
pub struct VwView {
    /// The swapchain's dimensions.
    pub width: u32,
    pub height: u32,
    /// Whether a swapchain stands.
    pub live: bool,
    pub image_count: u32,
    pub color_format: u32,
    /// The presentable image that the last frame was drawn to.
    pub image: u32,
    /// The bytes of device memory taken, and the bytes there are.
    pub used: u64,
    pub memory: u64,
    /// The handle that the next allocation gets.
    pub next_handle: u64,
    /// The request that the surface was created from.
    pub request: SurfaceCreateInfo,
    /// The name that the instance was created under: the window's title.
    pub name: Seq<char>,
}

impl View for Vw {
    type V = VwView;

    closed spec fn view(&self) -> VwView {
        VwView {
            width: self.width,
            height: self.height,
            live: self.swapchain != 0,
            image_count: self.image_count,
            color_format: self.color_format,
            image: self.next_image_index,
            used: self.offsets,
            memory: self.memory,
            next_handle: self.next_handle,
            request: self.request,
            name: self.name@,
        }
    }
}

impl VwView {
    /// Two swapchains are equivalent when they agree on existence, dimensions,
    /// number of images and format.
    pub open spec fn same_swapchain(self, other: VwView) -> bool {
        &&& self.live == other.live
        &&& self.width == other.width
        &&& self.height == other.height
        &&& self.image_count == other.image_count
        &&& self.color_format == other.color_format
    }

    /// The view after `handles` handles and `bytes` bytes were taken.
    pub open spec fn taken(self, handles: u64, bytes: u64) -> VwView {
        VwView {
            used: (self.used + bytes) as u64,
            next_handle: (self.next_handle + handles) as u64,
            ..self
        }
    }

    /// The view after `bytes` bytes were given back.
    pub open spec fn released(self, bytes: u64) -> VwView {
        VwView { used: (self.used - bytes) as u64, ..self }
    }

    /// Whether `handles` more handles and `bytes` more bytes are to be had.
    pub open spec fn has_room(self, handles: u64, bytes: u64) -> bool {
        &&& self.next_handle + handles <= u64::MAX
        &&& self.used + bytes <= self.memory
    }
}

impl Vw {
    /// The context's invariant: its own objects carry their fixed handles, the
    /// swapchain's objects carry theirs while it stands and 0 while it does
    /// not, and no more memory is taken than there is.
    pub closed spec fn wf(&self) -> bool {
        &&& self.instance == INSTANCE
        &&& self.surface == SURFACE
        &&& self.present_queue_index == 0
        &&& self.present_queue == PRESENT_QUEUE
        &&& self.gpu == GPU
        &&& self.device == DEVICE
        &&& self.command_buffer == COMMAND_BUFFER
        &&& self.color_format == COLOR_FORMAT
        &&& self.next_handle >= FIRST_FREE
        &&& self.offsets <= self.memory
        &&& self.request.instance == INSTANCE
        &&& self.request.s_type == crate::surface::SURFACE_CREATE_INFO
        &&& if self.swapchain != 0 {
            &&& self.swapchain == SWAPCHAIN
            &&& self.image_count == IMAGE_COUNT
            &&& self.next_image_index < IMAGE_COUNT
            &&& self.present_images[0] == PRESENT_IMAGES
            &&& self.present_images[1] == PRESENT_IMAGES + 1
            &&& self.present_image_views[0] == PRESENT_IMAGE_VIEWS
            &&& self.present_image_views[1] == PRESENT_IMAGE_VIEWS + 1
            &&& self.frame_buffers[0] == FRAME_BUFFERS
            &&& self.frame_buffers[1] == FRAME_BUFFERS + 1
            &&& self.depth_image == DEPTH_IMAGE
            &&& self.depth_image_view == DEPTH_IMAGE_VIEW
            &&& self.depth_image_memory == DEPTH_IMAGE_MEMORY
            &&& self.render_pass == RENDER_PASS
            &&& self.presenting_complete_sem == PRESENTING_COMPLETE
            &&& self.rendering_complete_sem == RENDERING_COMPLETE
            &&& self.submit_fence == SUBMIT_FENCE
        } else {
            &&& self.image_count == 0
            &&& self.next_image_index == 0
            &&& self.present_images[0] == 0
            &&& self.present_images[1] == 0
            &&& self.present_image_views[0] == 0
            &&& self.present_image_views[1] == 0
            &&& self.frame_buffers[0] == 0
            &&& self.frame_buffers[1] == 0
            &&& self.depth_image == 0
            &&& self.depth_image_view == 0
            &&& self.depth_image_memory == 0
            &&& self.render_pass == 0
            &&& self.presenting_complete_sem == 0
            &&& self.rendering_complete_sem == 0
            &&& self.submit_fence == 0
        }
    }

    /// What holds of every well-formed context, over its view.
    pub proof fn lemma_wf(&self)
        requires
            self.wf(),
        ensures
            self@.next_handle >= FIRST_FREE,
            self@.used <= self@.memory,
            self@.color_format == COLOR_FORMAT,
            self@.live ==> self@.image_count == IMAGE_COUNT && self@.image < IMAGE_COUNT,
            !self@.live ==> self@.image_count == 0 && self@.image == 0,
            self@.request.instance == INSTANCE,
    {
    }

    /// Creates the context for a window of the host: the instance, named
    /// after the window, the surface on the window's connection, the device with its queue and
    /// command buffer, and then the first swapchain, sized to the window.
    /// Fails where no surface can be made on the connection, and only there.
    pub fn new(window_name: &str, host: Host) -> (made: Result<Vw, SurfaceError>)
        ensures
            made is Ok <==> host.connection.supported(),
            made matches Err(e) ==> Err::<SurfaceCreateInfo, SurfaceError>(e)
                == host.connection.surface(INSTANCE),
            made matches Ok(vw) ==> {
                &&& vw.wf()
                &&& vw@.live
                &&& vw@.width == host.width
                &&& vw@.height == host.height
                &&& vw@.image_count == IMAGE_COUNT
                &&& vw@.color_format == COLOR_FORMAT
                &&& vw@.image == 0
                &&& vw@.used == 0
                &&& vw@.memory == host.memory
                &&& vw@.next_handle == FIRST_FREE
                &&& vw@.name == window_name@
                &&& Ok::<SurfaceCreateInfo, SurfaceError>(vw@.request)
                    == host.connection.surface(INSTANCE)
            },
    {
        let instance: usize = INSTANCE;
        let request = match create_surface(instance, host.connection) {
            Ok(request) => request,
            Err(e) => {
                return Err(e);
            },
        };
        let mut vw = Vw {
            instance,
            surface: SURFACE,
            present_queue_index: 0,
            present_queue: PRESENT_QUEUE,
            gpu: GPU,
            device: DEVICE,
            command_buffer: COMMAND_BUFFER,
            swapchain: 0,
            width: host.width,
            height: host.height,
            present_images: [0, 0],
            frame_buffers: [0, 0],
            color_format: COLOR_FORMAT,
            image_count: 0,
            submit_fence: 0,
            present_image_views: [0, 0],
            depth_image: 0,
            depth_image_view: 0,
            depth_image_memory: 0,
            render_pass: 0,
            next_image_index: 0,
            presenting_complete_sem: 0,
            rendering_complete_sem: 0,
            offsets: 0,
            memory: host.memory,
            next_handle: FIRST_FREE,
            request,
            name: window_name.to_owned(),
        };
        vw.build();
        Ok(vw)
    }

    /// Builds the swapchain at the context's dimensions. No swapchain stands
    /// before: the one before it was torn down.
    pub fn build(&mut self)
        requires
            old(self).wf(),
            !old(self)@.live,
        ensures
            final(self).wf(),
            final(self)@ == (VwView {
                live: true,
                image_count: IMAGE_COUNT,
                image: 0,
                ..old(self)@
            }),
    {
        self.swapchain = SWAPCHAIN;
        self.present_images = [PRESENT_IMAGES, PRESENT_IMAGES + 1];
        self.present_image_views = [PRESENT_IMAGE_VIEWS, PRESENT_IMAGE_VIEWS + 1];
        self.frame_buffers = [FRAME_BUFFERS, FRAME_BUFFERS + 1];
        self.depth_image = DEPTH_IMAGE;
        self.depth_image_view = DEPTH_IMAGE_VIEW;
        self.depth_image_memory = DEPTH_IMAGE_MEMORY;
        self.render_pass = RENDER_PASS;
        self.presenting_complete_sem = PRESENTING_COMPLETE;
        self.rendering_complete_sem = RENDERING_COMPLETE;
        self.submit_fence = SUBMIT_FENCE;
        self.image_count = IMAGE_COUNT;
        self.next_image_index = 0;
    }

    /// Sets the dimensions that the next swapchain is built at.
    pub fn set_size(&mut self, width: u32, height: u32)
        requires
            old(self).wf(),
        ensures
            final(self).wf(),
            final(self)@ == (VwView { width, height, ..old(self)@ }),
    {
        self.width = width;
        self.height = height;
    }

    /// Acquires the next presentable image: the images take turns.
    pub fn acquire(&mut self) -> (image: u32)
        requires
            old(self).wf(),
            old(self)@.live,
        ensures
            final(self).wf(),
            image == (old(self)@.image + 1) % 2,
            final(self)@ == (VwView { image, ..old(self)@ }),
    {
        let image: u32 = if self.next_image_index == 0 {
            1
        } else {
            0
        };
        self.next_image_index = image;
        image
    }

    /// Takes `handles` consecutive handles and `bytes` bytes of device memory,
    /// and returns the first of the handles; or, where either is not to be
    /// had, takes nothing.
    pub fn allocate(&mut self, handles: u64, bytes: u64) -> (first: Option<u64>)
        requires
            old(self).wf(),
        ensures
            final(self).wf(),
            first is Some <==> old(self)@.has_room(handles, bytes),
            first matches Some(h) ==> h == old(self)@.next_handle && h >= FIRST_FREE
                && final(self)@ == old(self)@.taken(handles, bytes),
            first is None ==> *final(self) == *old(self),
    {
        if handles > u64::MAX - self.next_handle || bytes > self.memory - self.offsets {
            return None;
        }
        let first = self.next_handle;
        self.next_handle = self.next_handle + handles;
        self.offsets = self.offsets + bytes;
        Some(first)
    }

    /// Gives `bytes` bytes of device memory back, which were taken.
    pub fn release(&mut self, bytes: u64)
        requires
            old(self).wf(),
            bytes <= old(self)@.used,
        ensures
            final(self).wf(),
            final(self)@ == old(self)@.released(bytes),
    {
        self.offsets = self.offsets - bytes;
    }

    /// Takes `handles` consecutive handles, which are there, and returns the
    /// first of them.
    pub fn take(&mut self, handles: u64) -> (first: u64)
        requires
            old(self).wf(),
            old(self)@.next_handle + handles <= u64::MAX,
        ensures
            final(self).wf(),
            first == old(self)@.next_handle,
            first >= FIRST_FREE,
            final(self)@ == old(self)@.taken(handles, 0),
    {
        let first = self.next_handle;
        self.next_handle = self.next_handle + handles;
        first
    }

    /// Whether `handles` more handles and `bytes` more bytes are to be had.
    pub fn has_room(&self, handles: u64, bytes: u64) -> (room: bool)
        requires
            self.wf(),
        ensures
            room == self@.has_room(handles, bytes),
    {
        handles <= u64::MAX - self.next_handle && bytes <= self.memory - self.offsets
    }

    /// The swapchain's width.
    pub fn width(&self) -> (w: u32)
        ensures
            w == self@.width,
    {
        self.width
    }

    /// The swapchain's height.
    pub fn height(&self) -> (h: u32)
        ensures
            h == self@.height,
    {
        self.height
    }

    /// Whether a swapchain stands.
    pub fn live(&self) -> (live: bool)
        ensures
            live == self@.live,
    {
        self.swapchain != 0
    }

    /// The number of presentable images: 2 while a swapchain stands, else 0.
    pub fn image_count(&self) -> (n: u32)
        ensures
            n == self@.image_count,
    {
        self.image_count
    }

    /// The format of the presentable images.
    pub fn color_format(&self) -> (format: u32)
        ensures
            format == self@.color_format,
    {
        self.color_format
    }

    /// The presentable image that the last frame was drawn to.
    pub fn image(&self) -> (image: u32)
        ensures
            image == self@.image,
    {
        self.next_image_index
    }

    /// The bytes of device memory that are taken.
    pub fn used(&self) -> (bytes: u64)
        ensures
            bytes == self@.used,
    {
        self.offsets
    }

    /// The bytes of device memory that there are.
    pub fn memory(&self) -> (bytes: u64)
        ensures
            bytes == self@.memory,
    {
        self.memory
    }

    /// The name that the instance was created under.
    pub fn name(&self) -> (name: &str)
        ensures
            name@ == self@.name,
    {
        self.name.as_str()
    }

    /// The request that the surface was created from.
    pub fn request(&self) -> (request: SurfaceCreateInfo)
        ensures
            request == self@.request,
    {
        self.request
    }
}

/// Tears the swapchain down: its images, views, framebuffers, depth buffer,
/// render pass and synchronization objects. The dimensions stay.
pub fn close(renderer: &mut Vw)
    requires
        old(renderer).wf(),
    ensures
        final(renderer).wf(),
        final(renderer)@ == (VwView {
            live: false,
            image_count: 0,
            image: 0,
            ..old(renderer)@
        }),
{
    renderer.swapchain = 0;
    renderer.present_images = [0, 0];
    renderer.present_image_views = [0, 0];
    renderer.frame_buffers = [0, 0];
    renderer.depth_image = 0;
    renderer.depth_image_view = 0;
    renderer.depth_image_memory = 0;
    renderer.render_pass = 0;
    renderer.presenting_complete_sem = 0;
    renderer.rendering_complete_sem = 0;
    renderer.submit_fence = 0;
    renderer.image_count = 0;
    renderer.next_image_index = 0;
}

} // verus!
