use winkit::errors::{get_last_err, hresult_from_win32, Error};
use winkit::geom::{Ellipse2D, Point2D, Rect2D, RoundedRect2D, Size2D};
use winkit::invoke::{
    check_bool, check_last_err, check_nonzero_isize, check_nonzero_u16, check_ptr, check_res,
    Win32Pointer,
};
use winkit::proc::{ComLibrary, ComLibraryHandle};
use winkit::strings::{to_wide, to_wide_truncated};
use winkit::types::{Hwnd, Resource, ResourceId};

fn parts(error: Error) -> (&'static str, i32) {
    match error {
        Error::Unexpected { function, code } => (function, code),
    }
}

#[test]
fn hresults_carry_win32_codes() {
    assert_eq!(hresult_from_win32(0), 0);
    // ERROR_ACCESS_DENIED
    assert_eq!(hresult_from_win32(5), 0x80070005u32 as i32);
    // ERROR_CLASS_ALREADY_EXISTS
    assert_eq!(hresult_from_win32(1410), 0x80070582u32 as i32);
    assert_eq!(hresult_from_win32(0xFFFF), 0x8007FFFFu32 as i32);
    // Only the low 16 bits of the code are kept.
    assert_eq!(hresult_from_win32(0x1_0005), 0x80070005u32 as i32);
    assert_eq!(hresult_from_win32(u32::MAX), 0x8007FFFFu32 as i32);
    let error = get_last_err("CreateWindowExW", 1400);
    assert_eq!(parts(error), ("CreateWindowExW", 0x80070578u32 as i32));
    assert_eq!(error.code(), Some(0x80070578u32 as i32));
    assert_eq!(error.function(), "CreateWindowExW");
}

#[test]
fn checks_pass_values_and_report_failures() {
    assert_eq!(check_nonzero_u16(7, "RegisterClassExW", 5).unwrap(), 7);
    assert_eq!(
        parts(check_nonzero_u16(0, "RegisterClassExW", 5).unwrap_err()),
        ("RegisterClassExW", 0x80070005u32 as i32)
    );
    assert_eq!(check_nonzero_isize(-3, "GetWindowLongPtrW", 5).unwrap(), -3);
    assert_eq!(
        parts(check_nonzero_isize(0, "GetWindowLongPtrW", 0).unwrap_err()),
        ("GetWindowLongPtrW", 0)
    );

    // The last-error check looks at the code alone.
    assert_eq!(check_last_err(0isize, "SetWindowLongPtrW", 0).unwrap(), 0);
    assert_eq!(
        parts(check_last_err(12isize, "SetWindowLongPtrW", 1400).unwrap_err()),
        ("SetWindowLongPtrW", 0x80070578u32 as i32)
    );

    assert!(check_bool(true, "DestroyWindow", 1400).is_ok());
    assert_eq!(
        parts(check_bool(false, "DestroyWindow", 1400).unwrap_err()),
        ("DestroyWindow", 0x80070578u32 as i32)
    );

    assert_eq!(check_res(Ok::<u8, i32>(9), "EndDraw").unwrap(), 9);
    assert_eq!(
        parts(check_res(Err::<u8, i32>(-2003238900), "EndDraw").unwrap_err()),
        ("EndDraw", -2003238900)
    );

    assert_eq!(check_ptr(Hwnd(44), "CreateWindowExW", 5).unwrap(), Hwnd(44));
    assert_eq!(
        parts(check_ptr(Hwnd(0), "CreateWindowExW", 5).unwrap_err()),
        ("CreateWindowExW", 0x80070005u32 as i32)
    );
    assert!(Hwnd(0).is_null());
    assert!(!Hwnd(-1).is_null());
}

#[test]
fn resources() {
    let icon = Resource::new("icon.ico", 1);
    assert_eq!(icon.path(), "icon.ico");
    assert_eq!(icon.id(), 1);
    assert_eq!(icon.id_string(), "1");
    assert_eq!(Resource::new("a", -120).id_string(), "-120");
    assert_eq!(Resource::new("a", 0).id_string(), "0");
    assert_eq!(Resource::new("a", isize::MAX).id_string(), isize::MAX.to_string());
    assert_eq!(Resource::new("a", isize::MIN).id_string(), isize::MIN.to_string());

    let id = ResourceId::from(1007);
    assert_eq!(id, ResourceId(1007));
    assert_eq!(id.value(), 1007);
    assert_eq!(id.to_string(), "1007");
    assert_eq!(ResourceId::default(), ResourceId(0));
}

#[test]
fn geometry() {
    assert_eq!(Point2D::zero(), Point2D { x: 0, y: 0 });
    assert_eq!(Point2D::default(), Point2D::zero());
    assert_eq!(Size2D::zero(), Size2D { width: 0, height: 0 });
    assert_eq!(Size2D::default(), Size2D::zero());
    assert_eq!(Size2D::pixel(), Size2D { width: 1, height: 1 });
    assert_eq!(Rect2D::zero(), Rect2D { left: 0, top: 0, right: 0, bottom: 0 });
    assert_eq!(Rect2D::default(), Rect2D::zero());

    let rect = Rect2D::from_size_and_origin(
        Size2D { width: 10, height: 20 },
        Point2D { x: 2, y: 5 },
    );
    assert_eq!(rect, Rect2D { left: 2, top: 5, right: 12, bottom: 25 });
    assert_eq!(rect.width(), 10);
    assert_eq!(rect.height(), 20);

    // A window rectangle widened by the chrome has negative left and top.
    let adjusted = Rect2D { left: -8, top: -31, right: 728, bottom: 648 };
    assert_eq!(adjusted.width(), 736);
    assert_eq!(adjusted.height(), 679);
    assert_eq!(adjusted.size(), Some(Size2D { width: 736, height: 679 }));
    assert_eq!(
        Rect2D { left: -2, top: 0, right: i32::MAX, bottom: 0 }.size(),
        None
    );
    assert_eq!(
        Rect2D { left: 0, top: i32::MAX, right: 0, bottom: i32::MIN }.size(),
        None
    );

    assert_eq!(
        Rect2D::checked_from_size_and_origin(
            Size2D { width: 10, height: 20 },
            Point2D { x: 2, y: 5 }
        ),
        Some(rect)
    );
    assert_eq!(
        Rect2D::checked_from_size_and_origin(
            Size2D { width: 1, height: 0 },
            Point2D { x: i32::MAX, y: 0 }
        ),
        None
    );
    assert_eq!(
        Rect2D::checked_from_size_and_origin(
            Size2D { width: 0, height: -1 },
            Point2D { x: 0, y: i32::MIN }
        ),
        None
    );
}

#[test]
fn rounded_rects_and_ellipses() {
    let rounded = RoundedRect2D::from_size_and_origin(
        Size2D { width: 10, height: 20 },
        Point2D { x: 2, y: 5 },
        8,
    );
    assert_eq!(rounded.rect, Rect2D { left: 2, top: 5, right: 12, bottom: 25 });
    assert_eq!((rounded.radius_x, rounded.radius_y), (8, 8));
    assert_eq!(rounded.width(), 10);
    assert_eq!(rounded.height(), 20);
    assert_eq!(RoundedRect2D::zero(), RoundedRect2D::default());
    assert_eq!(RoundedRect2D::zero().rect, Rect2D::zero());

    let circle = Ellipse2D::new_circle(Point2D { x: 10, y: 10 }, 20);
    assert_eq!(circle.center, Point2D { x: 10, y: 10 });
    assert_eq!((circle.radius_x, circle.radius_y), (20, 20));
    assert_eq!(Ellipse2D::zero(), Ellipse2D::default());
    assert_eq!(Ellipse2D::zero().radius_x, 0);
}

#[test]
fn com_library_is_initialized_once() {
    let mut library = ComLibrary::new();
    assert_eq!(library.handles(), 0);
    let (first, initialize) = ComLibraryHandle::acquire(&mut library);
    assert!(initialize);
    let (second, initialize) = ComLibraryHandle::acquire(&mut library);
    assert!(!initialize);
    assert_eq!(library.handles(), 2);
    assert!(!first.release(&mut library));
    assert!(second.release(&mut library));
    assert_eq!(library.handles(), 0);
    let (third, initialize) = ComLibraryHandle::acquire(&mut library);
    assert!(initialize);
    assert!(third.release(&mut library));
}

#[test]
fn wide_strings() {
    assert_eq!(to_wide("Main Window"), Some("Main Window".encode_utf16().collect()));
    assert_eq!(to_wide("aö𝄞"), Some(vec![0x61, 0xF6, 0xD834, 0xDD1E]));
    assert_eq!(to_wide("\u{FFFF}\u{10000}\u{10FFFF}"), Some(vec![0xFFFF, 0xD800, 0xDC00, 0xDBFF, 0xDFFF]));
    assert_eq!(to_wide(""), Some(vec![]));
    assert_eq!(to_wide("a\0"), Some(vec![0x61]));
    assert_eq!(to_wide("a\0b"), None);
    assert_eq!(to_wide("\0a"), None);
    assert_eq!(to_wide("a\0\0"), None);
}

#[test]
fn truncated_wide_strings() {
    assert_eq!(to_wide_truncated("New Title"), "New Title".encode_utf16().collect::<Vec<u16>>());
    assert_eq!(to_wide_truncated("My\0String"), vec![0x4D, 0x79]);
    assert_eq!(to_wide_truncated("\0abc"), vec![]);
    assert_eq!(to_wide_truncated("abc\0"), vec![0x61, 0x62, 0x63]);
    assert_eq!(to_wide_truncated(""), vec![]);
    assert_eq!(to_wide_truncated("𝄞\0𝄞"), vec![0xD834, 0xDD1E]);
}
