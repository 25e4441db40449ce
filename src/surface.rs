//! The native surface handle of a window: the one pointer-sized field that the
//! running platform's handle carries.
use crate::request::BuildError;
use vstd::prelude::*;

verus! {

/// The platform the library was built for.
#[derive(PartialEq, Eq, Structural, Clone, Copy, Debug)]
pub enum Platform {
    Windows,
    MacOS,
    Android,
    IOS,
    /// A platform with no native surface handle to hand out.
    Unsupported,
}

/// A window's raw handle, with each address as an integer.
#[derive(PartialEq, Eq, Structural, Clone, Copy, Debug)]
pub enum NativeHandle {
    Windows { hwnd: usize },
    MacOS { ns_window: usize },
    Android { a_native_window: usize },
    IOS { ui_window: usize },
    /// A handle of a kind that none of the platforms above gives.
    Other,
}

/// The surface address that a handle gives on a platform: its one field where
/// handle and platform agree, `0` where they do not.
pub open spec fn surface_of(platform: Platform, handle: NativeHandle) -> usize {
    match (platform, handle) {
        (Platform::Windows, NativeHandle::Windows { hwnd }) => hwnd,
        (Platform::MacOS, NativeHandle::MacOS { ns_window }) => ns_window,
        (Platform::Android, NativeHandle::Android { a_native_window }) => a_native_window,
        (Platform::IOS, NativeHandle::IOS { ui_window }) => ui_window,
        _ => 0,
    }
}

/// The native surface of a window on the given platform. A handle of another
/// platform's kind, or a null address, gives `NoNativeHandle`.
pub fn native_surface(platform: Platform, handle: NativeHandle) -> (r: Result<usize, BuildError>)
    ensures
        surface_of(platform, handle) != 0 ==> r == Ok::<usize, BuildError>(
            surface_of(platform, handle),
        ),
        surface_of(platform, handle) == 0 ==> r == Err::<usize, BuildError>(
            BuildError::NoNativeHandle,
        ),
        r is Ok ==> r->Ok_0 != 0,
{
    let address: usize = match (platform, handle) {
        (Platform::Windows, NativeHandle::Windows { hwnd }) => hwnd,
        (Platform::MacOS, NativeHandle::MacOS { ns_window }) => ns_window,
        (Platform::Android, NativeHandle::Android { a_native_window }) => a_native_window,
        (Platform::IOS, NativeHandle::IOS { ui_window }) => ui_window,
        _ => 0,
    };
    if address == 0 {
        Err(BuildError::NoNativeHandle)
    } else {
        Ok(address)
    }
}

} // verus!
