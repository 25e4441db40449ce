use pqwindow::config::{DisplayConfig, Tuple};
use pqwindow::request::{
    fullscreen_mode, needs_monitor, needs_video_mode, resolve_title, select_fullscreen,
    BuildError, FullscreenChoice, FullscreenMode, WindowRequest,
};
use pqwindow::surface::{native_surface, NativeHandle, Platform};

#[test]
fn explicit_bounds_are_kept() {
    let mut c = DisplayConfig::default();
    c.title = Some("game".to_string());
    c.dimensions = Tuple::from((1024, 768));
    c.min_dimensions = Tuple::from((640, 480));
    c.max_dimensions = Tuple::from((1920, 1080));
    let r = WindowRequest::new().apply_config(&c);
    assert_eq!(r.title.as_deref(), Some("game"));
    assert_eq!(r.visible, Some(true));
    assert_eq!(r.inner_size, Some(Tuple { v1: 1024, v2: 768 }));
    assert_eq!(r.min_inner_size, Some(Tuple { v1: 640, v2: 480 }));
    assert_eq!(r.max_inner_size, Some(Tuple { v1: 1920, v2: 1080 }));
    assert_eq!(r.fullscreen, FullscreenMode::Windowed);
}

#[test]
fn bounds_out_of_order_are_not_checked() {
    let mut c = DisplayConfig::default();
    c.dimensions = Tuple::from((100, 100));
    c.min_dimensions = Tuple::from((500, 500));
    c.max_dimensions = Tuple::from((50, 50));
    c.visibility = 0;
    let r = WindowRequest::new().apply_config(&c);
    assert_eq!(r.inner_size, Some(Tuple { v1: 100, v2: 100 }));
    assert_eq!(r.min_inner_size, Some(Tuple { v1: 500, v2: 500 }));
    assert_eq!(r.max_inner_size, Some(Tuple { v1: 50, v2: 50 }));
    assert_eq!(r.visible, Some(false));
}

#[test]
fn unreadable_title_falls_back() {
    assert_eq!(resolve_title(&None), "窗口Title设置失败");
    assert_eq!(resolve_title(&Some("abc".to_string())), "abc");
    let mut c = DisplayConfig::default();
    c.title = None;
    let r = WindowRequest::new().apply_config(&c);
    assert_eq!(r.title.as_deref(), Some("窗口Title设置失败"));
}

#[test]
fn fullscreen_codes() {
    assert_eq!(fullscreen_mode(0), Ok(FullscreenMode::Windowed));
    assert_eq!(fullscreen_mode(1), Ok(FullscreenMode::Exclusive));
    assert_eq!(fullscreen_mode(2), Ok(FullscreenMode::Borderless));
    assert_eq!(fullscreen_mode(3), Err(BuildError::UnknownFullscreen { code: 3 }));
    assert!(!needs_monitor(0));
    assert!(needs_monitor(1) && needs_monitor(2));
    assert!(needs_video_mode(1) && !needs_video_mode(2));
}

#[test]
fn valid_codes_resolve_with_a_monitor() {
    assert_eq!(select_fullscreen::<u8, u16>(0, None, None), Ok(None));
    assert_eq!(select_fullscreen::<u8, u16>(0, Some(1), Some(2)), Ok(None));
    assert_eq!(
        select_fullscreen::<u8, u16>(1, Some(1), Some(2)),
        Ok(Some(FullscreenChoice::Exclusive(2)))
    );
    assert_eq!(
        select_fullscreen::<u8, u16>(2, Some(1), None),
        Ok(Some(FullscreenChoice::Borderless(1)))
    );
}

#[test]
fn fullscreen_without_monitor_fails() {
    assert_eq!(select_fullscreen::<u8, u16>(1, None, None), Err(BuildError::NoMonitor));
    assert_eq!(select_fullscreen::<u8, u16>(2, None, None), Err(BuildError::NoMonitor));
    assert_eq!(select_fullscreen::<u8, u16>(1, Some(1), None), Err(BuildError::NoVideoMode));
}

#[test]
fn unknown_fullscreen_code_fails() {
    for code in [3u8, 7, 200, 255] {
        assert_eq!(
            select_fullscreen::<u8, u16>(code, Some(1), Some(2)),
            Err(BuildError::UnknownFullscreen { code })
        );
    }
}

#[test]
fn native_surface_of_matching_platform() {
    assert_eq!(native_surface(Platform::Windows, NativeHandle::Windows { hwnd: 0x1000 }), Ok(0x1000));
    assert_eq!(native_surface(Platform::MacOS, NativeHandle::MacOS { ns_window: 42 }), Ok(42));
    assert_eq!(
        native_surface(Platform::Android, NativeHandle::Android { a_native_window: 7 }),
        Ok(7)
    );
    assert_eq!(native_surface(Platform::IOS, NativeHandle::IOS { ui_window: 9 }), Ok(9));
}

#[test]
fn native_surface_missing_or_null() {
    assert_eq!(
        native_surface(Platform::Windows, NativeHandle::Windows { hwnd: 0 }),
        Err(BuildError::NoNativeHandle)
    );
    assert_eq!(
        native_surface(Platform::MacOS, NativeHandle::Windows { hwnd: 5 }),
        Err(BuildError::NoNativeHandle)
    );
    assert_eq!(native_surface(Platform::Unsupported, NativeHandle::Other), Err(BuildError::NoNativeHandle));
}
