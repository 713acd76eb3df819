use x11_window::proxy::{ProxySlot, WakeRequest, WindowProxy, WindowProxyData};
use x11_window::window::{Window, WindowAttributes, XConnection};

fn proxy_connection() -> XConnection {
    XConnection {
        display: 11,
        default_screen: 0,
        next_window: 42,
        wm_delete_window: 55,
        modes: Vec::new(),
        im: Some(21),
        ic: Some(22),
        detectable_autorepeat: true,
    }
}

fn proxy_attrs() -> WindowAttributes {
    WindowAttributes {
        dimensions: None,
        min_dimensions: None,
        max_dimensions: None,
        monitor: None,
        title: String::from("proxy"),
        visible: false,
        transparent: false,
    }
}

#[test]
fn wakeup_sends_to_recorded_window() {
    let w = Window::new(&proxy_connection(), &proxy_attrs()).unwrap();
    let proxy = w.create_window_proxy();
    let r = proxy.wakeup_event_loop(&w.x.window_proxy_data);
    assert_eq!(r, Some(WakeRequest { display: 11, window: 42 }));
}

#[test]
fn wakeup_after_teardown_is_noop() {
    let w = Window::new(&proxy_connection(), &proxy_attrs()).unwrap();
    // the proxy is cloned before teardown
    let proxy = w.create_window_proxy();
    let clone = proxy.clone();
    let mut x = w.x;
    let _actions = x.teardown();
    // after teardown the slot is empty and every clone is a no-op
    assert_eq!(proxy.wakeup_event_loop(&x.window_proxy_data), None);
    assert_eq!(clone.wakeup_event_loop(&x.window_proxy_data), None);
}

#[test]
fn wakeup_on_empty_slot_is_noop() {
    let proxy = WindowProxy {};
    let slot = ProxySlot { data: None };
    assert_eq!(proxy.wakeup_event_loop(&slot), None);
}

#[test]
fn wakeup_on_populated_slot_targets_it() {
    let proxy = WindowProxy {};
    let slot = ProxySlot { data: Some(WindowProxyData { display: 3, window: 9 }) };
    assert_eq!(proxy.wakeup_event_loop(&slot), Some(WakeRequest { display: 3, window: 9 }));
}
