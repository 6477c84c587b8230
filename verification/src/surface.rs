//! The request for a presentation surface, by kind of window connection.

use vstd::prelude::*;

verus! {

/// The structure type that tags a request for a surface on an XCB window.
pub const SURFACE_CREATE_INFO: u32 = 1000005000;

/// How the window system reaches a window: the kind of connection, with the
/// connection and the window where the kind has them.
#[derive(Clone, Copy, Debug, PartialEq, Eq, Structural)]
pub enum WindowConnection {
    /// An XCB connection and the window's id on it.
    Xcb(usize, u32),
    Wayland,
    DirectFB,
    Windows,
    Android,
    IOS,
    AldaronsOS,
    Arduino,
    Switch,
    Web,
    NoOS,
}

/// Why no surface can be made on a window connection.
#[derive(Clone, Copy, Debug, PartialEq, Eq, Structural)]
pub enum SurfaceError {
    Wayland,
    DirectFB,
    Windows,
    Android,
    IOS,
    AldaronsOS,
    Arduino,
    Switch,
    Web,
    NoOS,
}

/// The request that the device takes to create a surface on an XCB window.
#[derive(Clone, Copy, Debug, PartialEq, Eq, Structural)]
pub struct SurfaceCreateInfo {
    pub s_type: u32,
    /// No extension structure: always 0.
    pub p_next: usize,
    pub flags: u32,
    pub connection: usize,
    pub window: u32,
    /// The instance that the surface is created on.
    pub instance: usize,
}

impl WindowConnection {
    /// The request for a surface on this connection, or the reason why
    /// rendering on it is not supported.
    pub open spec fn surface(self, instance: usize) -> Result<SurfaceCreateInfo, SurfaceError> {
        match self {
            WindowConnection::Xcb(connection, window) => Ok(
                xcb_request(instance, connection, window),
            ),
            WindowConnection::Wayland => Err(SurfaceError::Wayland),
            WindowConnection::DirectFB => Err(SurfaceError::DirectFB),
            WindowConnection::Windows => Err(SurfaceError::Windows),
            WindowConnection::Android => Err(SurfaceError::Android),
            WindowConnection::IOS => Err(SurfaceError::IOS),
            WindowConnection::AldaronsOS => Err(SurfaceError::AldaronsOS),
            WindowConnection::Arduino => Err(SurfaceError::Arduino),
            WindowConnection::Switch => Err(SurfaceError::Switch),
            WindowConnection::Web => Err(SurfaceError::Web),
            WindowConnection::NoOS => Err(SurfaceError::NoOS),
        }
    }

    /// Whether a surface can be made on this connection.
    pub open spec fn supported(self) -> bool {
        self is Xcb
    }
}

/// The request for a surface on the XCB window `window` of `connection`.
pub open spec fn xcb_request(instance: usize, connection: usize, window: u32) -> SurfaceCreateInfo {
    SurfaceCreateInfo {
        s_type: SURFACE_CREATE_INFO,
        p_next: 0,
        flags: 0,
        connection,
        window,
        instance,
    }
}

impl SurfaceError {
    /// The diagnostic for this failure, as text.
    pub open spec fn text(self) -> Seq<char> {
        match self {
            SurfaceError::Wayland => "Wayland Rendering Not Supported Yet"@,
            SurfaceError::DirectFB => "DirectFB Rendering Not Supported Yet"@,
            SurfaceError::Windows => "Windows Rendering Not Supported Yet"@,
            SurfaceError::Android => "Android Rendering Not Supported Yet"@,
            SurfaceError::IOS => "IOS Rendering Not Supported Yet"@,
            SurfaceError::AldaronsOS => "AldaronsOS Rendering Not Supported Yet"@,
            SurfaceError::Arduino => "Arduino Rendering Not Supported Yet"@,
            SurfaceError::Switch => "Switch Rendering Not Supported Yet"@,
            SurfaceError::Web => "Web Assembly Rendering Not Supported Yet"@,
            SurfaceError::NoOS => "No OS Rendering Not Supported Yet"@,
        }
    }

    /// The diagnostic for this failure.
    pub fn message(&self) -> (text: String)
        ensures
            text@ == self.text(),
    {
        match self {
            SurfaceError::Wayland => "Wayland Rendering Not Supported Yet".to_owned(),
            SurfaceError::DirectFB => "DirectFB Rendering Not Supported Yet".to_owned(),
            SurfaceError::Windows => "Windows Rendering Not Supported Yet".to_owned(),
            SurfaceError::Android => "Android Rendering Not Supported Yet".to_owned(),
            SurfaceError::IOS => "IOS Rendering Not Supported Yet".to_owned(),
            SurfaceError::AldaronsOS => "AldaronsOS Rendering Not Supported Yet".to_owned(),
            SurfaceError::Arduino => "Arduino Rendering Not Supported Yet".to_owned(),
            SurfaceError::Switch => "Switch Rendering Not Supported Yet".to_owned(),
            SurfaceError::Web => "Web Assembly Rendering Not Supported Yet".to_owned(),
            SurfaceError::NoOS => "No OS Rendering Not Supported Yet".to_owned(),
        }
    }
}

/// Builds the request for a surface on an XCB window.
pub fn create_surface_xcb(instance: usize, connection: usize, window: u32) -> (info:
    SurfaceCreateInfo)
    ensures
        info == xcb_request(instance, connection, window),
{
    SurfaceCreateInfo {
        s_type: SURFACE_CREATE_INFO,
        p_next: 0,
        flags: 0,
        connection,
        window,
        instance,
    }
}

/// Builds the request for a surface on `connection`. Only an XCB connection
/// can be rendered to; every other kind is refused with its own diagnostic.
pub fn create_surface(instance: usize, connection: WindowConnection) -> (request: Result<
    SurfaceCreateInfo,
    SurfaceError,
>)
    ensures
        request == connection.surface(instance),
        request is Ok <==> connection.supported(),
{
    match connection {
        WindowConnection::Xcb(connection, window) => Ok(
            create_surface_xcb(instance, connection, window),
        ),
        WindowConnection::Wayland => Err(SurfaceError::Wayland),
        WindowConnection::DirectFB => Err(SurfaceError::DirectFB),
        WindowConnection::Windows => Err(SurfaceError::Windows),
        WindowConnection::Android => Err(SurfaceError::Android),
        WindowConnection::IOS => Err(SurfaceError::IOS),
        WindowConnection::AldaronsOS => Err(SurfaceError::AldaronsOS),
        WindowConnection::Arduino => Err(SurfaceError::Arduino),
        WindowConnection::Switch => Err(SurfaceError::Switch),
        WindowConnection::Web => Err(SurfaceError::Web),
        WindowConnection::NoOS => Err(SurfaceError::NoOS),
    }
}

} // verus!
