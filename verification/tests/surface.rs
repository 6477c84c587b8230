use adi_gpu::surface::{
    create_surface, create_surface_xcb, SurfaceCreateInfo, SurfaceError, WindowConnection,
    SURFACE_CREATE_INFO,
};

#[test]
fn xcb_request_holds_connection_and_window() {
    let info = create_surface_xcb(1, 0xdead, 77);
    assert_eq!(
        info,
        SurfaceCreateInfo {
            s_type: SURFACE_CREATE_INFO,
            p_next: 0,
            flags: 0,
            connection: 0xdead,
            window: 77,
            instance: 1,
        }
    );
}

#[test]
fn surface_on_xcb_is_the_xcb_request() {
    let made = create_surface(1, WindowConnection::Xcb(42, 7));
    assert_eq!(made, Ok(create_surface_xcb(1, 42, 7)));
}

#[test]
fn surface_on_other_connections_is_refused() {
    let cases = [
        (WindowConnection::Wayland, SurfaceError::Wayland),
        (WindowConnection::DirectFB, SurfaceError::DirectFB),
        (WindowConnection::Windows, SurfaceError::Windows),
        (WindowConnection::Android, SurfaceError::Android),
        (WindowConnection::IOS, SurfaceError::IOS),
        (WindowConnection::AldaronsOS, SurfaceError::AldaronsOS),
        (WindowConnection::Arduino, SurfaceError::Arduino),
        (WindowConnection::Switch, SurfaceError::Switch),
        (WindowConnection::Web, SurfaceError::Web),
        (WindowConnection::NoOS, SurfaceError::NoOS),
    ];
    for (connection, error) in cases {
        assert_eq!(create_surface(1, connection), Err(error));
    }
}

#[test]
fn surface_errors_have_their_own_text() {
    assert_eq!(SurfaceError::Wayland.message(), "Wayland Rendering Not Supported Yet");
    assert_eq!(SurfaceError::DirectFB.message(), "DirectFB Rendering Not Supported Yet");
    assert_eq!(SurfaceError::Windows.message(), "Windows Rendering Not Supported Yet");
    assert_eq!(SurfaceError::Android.message(), "Android Rendering Not Supported Yet");
    assert_eq!(SurfaceError::IOS.message(), "IOS Rendering Not Supported Yet");
    assert_eq!(SurfaceError::AldaronsOS.message(), "AldaronsOS Rendering Not Supported Yet");
    assert_eq!(SurfaceError::Arduino.message(), "Arduino Rendering Not Supported Yet");
    assert_eq!(SurfaceError::Switch.message(), "Switch Rendering Not Supported Yet");
    assert_eq!(SurfaceError::Web.message(), "Web Assembly Rendering Not Supported Yet");
    assert_eq!(SurfaceError::NoOS.message(), "No OS Rendering Not Supported Yet");
}
