use winkit::errors::Error;
use winkit::geom::{Rect2D, Size2D};
use winkit::keyboard::adapter::{WM_CHAR, WM_KEYDOWN, WM_KEYUP};
use winkit::keyboard::KeyCode;
use winkit::types::{Hwnd, ResourceId};
use winkit::window::class::{class_key, class_name};
use winkit::window::lifecycle::{WM_CLOSE, WM_NCCREATE, WM_NCDESTROY, WM_PAINT};
use winkit::window::{
    ClassRegistry, ClassRequest, HandleCell, MessageOutcome, NativeShare, Theme, WindowClass,
    WindowInner, WindowState,
};

fn wide(text: &str) -> Vec<u16> {
    text.encode_utf16().collect()
}

/// Requests a class and performs the registration if one is ordered.
/// Returns the share and whether a native registration took place.
fn obtain(registry: &mut ClassRegistry, prefix: &str, icon: Option<ResourceId>) -> (WindowClass, bool) {
    assert!(class_key(prefix, icon).is_some());
    match WindowClass::get_or_create(registry, prefix, icon) {
        ClassRequest::Shared(class) => (class, false),
        ClassRequest::MustRegister(name) => {
            assert!(!registry.is_registered(&name));
            (WindowClass::register(registry, name, Ok(())).unwrap(), true)
        }
    }
}

fn main_class(registry: &mut ClassRegistry) -> WindowClass {
    obtain(registry, "MainWindow", None).0
}

fn new_window(registry: &mut ClassRegistry) -> WindowInner {
    WindowInner::new(
        Size2D { width: 720, height: 640 },
        "Main Window",
        Theme::LightMode,
        main_class(registry),
    )
}

/// Runs the creation protocol up to a live native window.
fn live_window(registry: &mut ClassRegistry, hwnd: isize) -> WindowInner {
    let mut inner = new_window(registry);
    inner.request_create();
    assert!(inner.wnd_proc_setup(Hwnd(hwnd), WM_NCCREATE));
    inner
}

#[test]
fn class_names_append_the_icon() {
    assert_eq!(class_name("MainWindow", None), "MainWindow");
    assert_eq!(class_name("MainWindow", Some(ResourceId(1))), "MainWindow-1");
    assert_eq!(class_name("MainWindow", Some(ResourceId(-42))), "MainWindow--42");
    assert_eq!(class_name("w", Some(ResourceId(0))), "w-0");
    assert_eq!(
        class_name("w", Some(ResourceId(isize::MIN))),
        format!("w-{}", isize::MIN)
    );
}

#[test]
fn class_keys_are_wide_names() {
    assert_eq!(class_key("MainWindow", None), Some(wide("MainWindow")));
    assert_eq!(class_key("Main", Some(ResourceId(12))), Some(wide("Main-12")));
    assert_eq!(class_key("𝄞", None), Some(vec![0xD834, 0xDD1E]));
    assert_eq!(class_key("", None), Some(vec![]));
    // An interior nul has no wide form; a trailing one is the terminator.
    assert_eq!(class_key("Main\0Window", None), None);
    assert_eq!(class_key("Main\0", None), Some(wide("Main")));
    assert_eq!(class_key("Main\0", Some(ResourceId(3))), None);
    assert_eq!(class_key("\0", None), Some(vec![]));
    assert_eq!(class_key("\0\0", None), None);
}

#[test]
fn same_class_is_registered_once() {
    let mut registry = ClassRegistry::new();
    let (first, registered) = obtain(&mut registry, "MainWindow", Some(ResourceId(1)));
    assert!(registered);
    let (second, registered) = obtain(&mut registry, "MainWindow", Some(ResourceId(1)));
    assert!(!registered);
    assert_eq!(first.class_name(), second.class_name());
    assert_eq!(first.class_name(), &wide("MainWindow-1"));
    assert_eq!(registry.registrations(), 1);
    assert_eq!(registry.strong_count(&wide("MainWindow-1")), 2);
    assert!(registry.holds(&first));
    assert!(registry.holds(&second));

    // Another icon is another class.
    let (other, registered) = obtain(&mut registry, "MainWindow", Some(ResourceId(2)));
    assert!(registered);
    assert_eq!(registry.registrations(), 2);
    assert_eq!(registry.strong_count(&wide("MainWindow-2")), 1);

    // The class stays registered until its last share is back.
    assert!(!first.unregister(&mut registry));
    assert!(registry.is_registered(&wide("MainWindow-1")));
    assert!(registry.holds(&second));
    assert!(second.unregister(&mut registry));
    assert!(!registry.is_registered(&wide("MainWindow-1")));
    assert_eq!(registry.strong_count(&wide("MainWindow-1")), 0);
    assert!(registry.is_registered(&wide("MainWindow-2")));

    // Only now is it registered again.
    let (again, registered) = obtain(&mut registry, "MainWindow", Some(ResourceId(1)));
    assert!(registered);
    assert_eq!(registry.registrations(), 3);
    assert!(registry.holds(&again));
    assert!(other.unregister(&mut registry));
    assert!(again.unregister(&mut registry));
}

#[test]
fn stale_share_is_not_held() {
    let mut registry = ClassRegistry::new();
    let (first, _) = obtain(&mut registry, "MainWindow", None);
    let name = first.class_name().clone();
    assert!(first.unregister(&mut registry));
    let (second, _) = obtain(&mut registry, "MainWindow", None);
    assert_eq!(second.class_name(), &name);
    assert!(registry.holds(&second));
    assert_eq!(registry.strong_count(&name), 1);
}

#[test]
fn failed_registration_leaves_the_registry_alone() {
    let mut registry = ClassRegistry::new();
    let name = match WindowClass::get_or_create(&mut registry, "MainWindow", None) {
        ClassRequest::MustRegister(name) => name,
        ClassRequest::Shared(_) => panic!("nothing was registered yet"),
    };
    let error = Error::Unexpected { function: "RegisterClassExW", code: -2147023486 };
    let res = WindowClass::register(&mut registry, name.clone(), Err(error));
    match res {
        Err(Error::Unexpected { function, code }) => {
            assert_eq!(function, "RegisterClassExW");
            assert_eq!(code, -2147023486);
        }
        Ok(_) => panic!("a failed registration must not hand out a share"),
    }
    assert!(!registry.is_registered(&name));
    assert_eq!(registry.registrations(), 0);
    // The next request orders the registration again.
    assert!(matches!(
        WindowClass::get_or_create(&mut registry, "MainWindow", None),
        ClassRequest::MustRegister(_)
    ));
}

#[test]
fn construction_protocol() {
    let mut registry = ClassRegistry::new();
    let mut inner = new_window(&mut registry);
    assert_eq!(inner.hwnd(), None);
    assert_eq!(inner.size(), Size2D { width: 720, height: 640 });
    assert_eq!(inner.title(), "Main Window");
    assert_eq!(inner.current_theme(), Theme::LightMode);
    assert_eq!(inner.state(), WindowState::Active);
    assert_eq!(inner.lifecycle().share, NativeShare::NotTaken);
    assert_eq!(inner.lifecycle().handle, HandleCell::Unassigned);

    // Before the share is checked out the setup callback installs nothing.
    assert!(!inner.wnd_proc_setup(Hwnd(7), WM_NCCREATE));
    assert_eq!(inner.hwnd(), None);

    let params = inner.request_create();
    assert_eq!(params.class_name, wide("MainWindow"));
    assert_eq!(params.title, wide("Main Window"));
    assert_eq!(
        params.client_rect,
        Rect2D { left: 0, top: 0, right: 720, bottom: 640 }
    );
    assert_eq!(inner.lifecycle().share, NativeShare::CheckedOut);

    // Only the first message of the window installs the object.
    assert!(!inner.wnd_proc_setup(Hwnd(7), WM_PAINT));
    assert!(!inner.wnd_proc_setup(Hwnd(0), WM_NCCREATE));
    assert_eq!(inner.hwnd(), None);
    assert!(inner.wnd_proc_setup(Hwnd(7), WM_NCCREATE));
    assert_eq!(inner.hwnd(), Some(Hwnd(7)));
    assert!(!inner.wnd_proc_setup(Hwnd(8), WM_NCCREATE));
    assert_eq!(inner.hwnd(), Some(Hwnd(7)));
    assert_eq!(inner.window_class().class_name(), &wide("MainWindow"));
}

#[test]
fn close_request_is_handed_out_once() {
    let mut registry = ClassRegistry::new();
    let mut inner = live_window(&mut registry, 11);
    assert!(!inner.clear_close_request());

    let outcome = inner.handle_message(WM_CLOSE, 0, 0);
    assert_eq!(
        outcome,
        MessageOutcome { handled: true, release_native_share: false }
    );
    // The close message does not destroy the window.
    assert_eq!(inner.hwnd(), Some(Hwnd(11)));
    assert_eq!(inner.state(), WindowState::CloseRequested);
    assert!(inner.clear_close_request());
    assert!(!inner.clear_close_request());
    assert_eq!(inner.state(), WindowState::Active);

    // Two close messages before a poll are one request.
    inner.handle_message(WM_CLOSE, 0, 0);
    inner.handle_message(WM_CLOSE, 0, 0);
    assert!(inner.clear_close_request());
    assert!(!inner.clear_close_request());

    // Other messages do not raise it.
    inner.handle_message(WM_PAINT, 0, 0);
    inner.handle_message(WM_KEYDOWN, 0x41, 0x1E0001);
    assert!(!inner.clear_close_request());
}

#[test]
fn redraw_request_is_handed_out_once() {
    let mut registry = ClassRegistry::new();
    let mut inner = live_window(&mut registry, 11);
    assert!(!inner.clear_redraw_request());
    let outcome = inner.handle_message(WM_PAINT, 0, 0);
    assert_eq!(
        outcome,
        MessageOutcome { handled: false, release_native_share: false }
    );
    assert!(inner.clear_redraw_request());
    assert!(!inner.clear_redraw_request());
    assert!(!inner.clear_close_request());
}

#[test]
fn keyboard_messages_reach_the_tracker() {
    let mut registry = ClassRegistry::new();
    let mut inner = live_window(&mut registry, 11);
    let handled = MessageOutcome { handled: true, release_native_share: false };
    assert_eq!(inner.handle_message(WM_KEYDOWN, 0x41, 0x1E0001), handled);
    assert_eq!(inner.handle_message(WM_CHAR, 0x61, 0x1E0001), handled);
    assert!(inner.keyboard().is_key_pressed(KeyCode::A));
    assert_eq!(inner.handle_message(WM_KEYUP, 0x41, 0xC01E0001), handled);
    assert!(!inner.keyboard().is_key_pressed(KeyCode::A));
    // A keyboard message with an unknown key is handled and changes nothing.
    assert_eq!(inner.handle_message(WM_KEYDOWN, 0x07, 0x1E0001), handled);
    let drained = inner.keyboard().drain_input();
    assert_eq!(drained.chars(), &vec!['a']);
    // Any other message is forwarded.
    assert_eq!(
        inner.handle_message(0x0005, 0, 0),
        MessageOutcome { handled: false, release_native_share: false }
    );
}

#[test]
fn managed_teardown_releases_once() {
    let mut registry = ClassRegistry::new();
    let mut inner = live_window(&mut registry, 21);

    // Dropping the handle asks for the native window to be destroyed...
    assert_eq!(inner.destroy(), Some(Hwnd(21)));
    // ...which brings the final message, and with it the native share.
    let outcome = inner.handle_message(WM_NCDESTROY, 0, 0);
    assert_eq!(
        outcome,
        MessageOutcome { handled: false, release_native_share: true }
    );
    assert_eq!(inner.hwnd(), None);
    assert_eq!(inner.lifecycle().handle, HandleCell::Cleared);
    assert_eq!(inner.lifecycle().share, NativeShare::Released);

    // Nothing is released or destroyed a second time.
    assert_eq!(inner.destroy(), None);
    let outcome = inner.handle_message(WM_NCDESTROY, 0, 0);
    assert_eq!(
        outcome,
        MessageOutcome { handled: false, release_native_share: false }
    );
    assert!(!inner.wnd_proc_setup(Hwnd(22), WM_NCCREATE));

    // The class share goes back with the object.
    let class = inner.into_class();
    assert!(class.unregister(&mut registry));
}

#[test]
fn native_teardown_makes_drop_a_no_op() {
    let mut registry = ClassRegistry::new();
    let mut inner = live_window(&mut registry, 31);
    inner.handle_message(WM_CLOSE, 0, 0);
    assert!(inner.clear_close_request());

    // The native side destroys the window on its own.
    let outcome = inner.handle_message(WM_NCDESTROY, 0, 0);
    assert!(outcome.release_native_share);
    assert!(!outcome.handled);
    assert_eq!(inner.hwnd(), None);

    // Dropping the handle now has nothing to destroy.
    assert_eq!(inner.destroy(), None);
    assert_eq!(inner.destroy(), None);
    assert_eq!(inner.lifecycle().share, NativeShare::Released);
    assert!(inner.lifecycle().dropped);
}

#[test]
fn double_drop_destroys_once() {
    let mut registry = ClassRegistry::new();
    let mut inner = live_window(&mut registry, 41);
    assert_eq!(inner.destroy(), Some(Hwnd(41)));
    // The final message has not arrived yet; a second drop still asks for
    // nothing.
    assert_eq!(inner.destroy(), None);
    assert_eq!(inner.hwnd(), Some(Hwnd(41)));
}

#[test]
fn failed_creation_returns_the_share() {
    let mut registry = ClassRegistry::new();

    // Failure before the native window reported itself.
    let mut inner = new_window(&mut registry);
    assert!(!inner.create_failed());
    inner.request_create();
    assert!(inner.create_failed());
    assert!(!inner.create_failed());
    assert_eq!(inner.lifecycle().share, NativeShare::Released);
    assert_eq!(inner.destroy(), None);

    // Failure after the first message: the handle is dead as well.
    let mut inner = live_window(&mut registry, 51);
    assert!(inner.create_failed());
    assert_eq!(inner.hwnd(), None);
    assert_eq!(inner.destroy(), None);
    assert!(!inner.handle_message(WM_NCDESTROY, 0, 0).release_native_share);

    // Failure after the native side cleaned up by itself.
    let mut inner = live_window(&mut registry, 52);
    assert!(inner.handle_message(WM_NCDESTROY, 0, 0).release_native_share);
    assert!(!inner.create_failed());
}

#[test]
fn theme_is_recorded() {
    let mut registry = ClassRegistry::new();
    let mut inner = new_window(&mut registry);
    inner.set_theme(Theme::DarkMode);
    assert_eq!(inner.current_theme(), Theme::DarkMode);
    assert_eq!(inner.title(), "Main Window");
}
