use grab_window::{
    dispatch, dispatch_with_modifiers, push_decimal, push_signed, Event, EventInterest, GrabMode,
    GrabState, Request, ResourceIds, Screen, Window, WindowConfig,
};

fn press(detail: u8) -> Event {
    Event::ButtonPress { window: 42, detail, x: 10, y: -3, state: 0 }
}

fn all_events() -> EventInterest {
    EventInterest {
        exposure: true,
        button_press: true,
        button_release: true,
        pointer_motion: true,
        enter_window: true,
        leave_window: true,
        key_press: true,
        key_release: true,
    }
}

fn no_events() -> EventInterest {
    EventInterest {
        exposure: false,
        button_press: false,
        button_release: false,
        pointer_motion: false,
        enter_window: false,
        leave_window: false,
        key_press: false,
        key_release: false,
    }
}

#[test]
fn normal_session() {
    let screen = Screen { root: 1, root_visual: 33 };
    let ids = ResourceIds { window: 0x200001, font: 0x200002, cursor: 0x200003 };
    let (mut window, setup) = Window::create(&screen, &ids);
    assert_eq!(window.id(), 0x200001);
    assert_eq!(window.grabs(), GrabState { keyboard: true, pointer: true });
    let config = WindowConfig {
        id: 0x200001,
        parent: 1,
        visual: 33,
        x: 455,
        y: 140,
        width: 1000,
        height: 800,
        border_width: 0,
        override_redirect: true,
        background_pixel: 31,
        events: all_events(),
    };
    assert_eq!(
        setup,
        vec![
            Request::CreateWindow { config },
            Request::MapWindow { window: 0x200001 },
            Request::Flush,
            Request::SetInputFocus { window: 0x200001 },
            Request::GrabKeyboard {
                window: 0x200001,
                owner_events: true,
                pointer_mode: GrabMode::Async,
                keyboard_mode: GrabMode::Async,
            },
            Request::OpenCursorFont { font: 0x200002 },
            Request::CreateGlyphCursor {
                cursor: 0x200003,
                font: 0x200002,
                source_char: 58,
                mask_char: 59,
            },
            Request::GrabPointer {
                window: 0x200001,
                owner_events: true,
                events: no_events(),
                pointer_mode: GrabMode::Async,
                keyboard_mode: GrabMode::Async,
                confine_to: 0x200001,
                cursor: 0x200003,
            },
            Request::Flush,
        ]
    );

    let exposed = dispatch(&Event::Exposure { window: 0x200001, x: 0, y: 0, width: 1000, height: 800 });
    assert!(!exposed.stop);
    assert_eq!(
        exposed.lines,
        vec![
            "Window 2097153 exposed. Region to be redrawn at location (0,0) with dimensions (1000,800)"
                .to_string()
        ]
    );

    let ended = dispatch(&Event::ButtonPress { window: 0x200001, detail: 1, x: 5, y: 6, state: 0 });
    assert!(ended.stop);
    assert_eq!(ended.lines, vec!["0".to_string()]);

    let released = window.teardown();
    assert_eq!(released, vec![Request::UngrabKeyboard, Request::UngrabPointer, Request::Flush]);
    assert_eq!(window.grabs(), GrabState { keyboard: false, pointer: false });
}

#[test]
fn scroll_events() {
    let up = dispatch_with_modifiers(&press(4), "0");
    assert!(!up.stop);
    assert_eq!(
        up.lines,
        vec!["0".to_string(), "Wheel Button up in window 42, at coordinates (10,-3)".to_string()]
    );
    let down = dispatch_with_modifiers(&press(5), "0");
    assert!(!down.stop);
    assert_eq!(
        down.lines,
        vec!["0".to_string(), "Wheel Button down in window 42, at coordinates (10,-3)".to_string()]
    );
    let other = dispatch_with_modifiers(&press(3), "0");
    assert_eq!(other.lines[1], "Button 3 pressed in window 42, at coordinates (10,-3)");
}

#[test]
fn only_primary_button_press_terminates() {
    assert!(dispatch(&press(1)).stop);
    for detail in [0u8, 2, 3, 4, 5, 6, 255] {
        assert!(!dispatch(&press(detail)).stop);
    }
    let release = Event::ButtonRelease { window: 42, detail: 1, x: 0, y: 0, state: 0 };
    assert!(!dispatch(&release).stop);
    assert!(!dispatch(&Event::KeyPress { window: 42, state: 0 }).stop);
}

#[test]
fn every_kind_has_its_report() {
    let cases = vec![
        (
            Event::Exposure { window: 7, x: 1, y: 2, width: 3, height: 4 },
            vec!["Window 7 exposed. Region to be redrawn at location (1,2) with dimensions (3,4)"],
        ),
        (
            Event::ButtonPress { window: 7, detail: 255, x: -1, y: 2, state: 0 },
            vec!["m", "Button 255 pressed in window 7, at coordinates (-1,2)"],
        ),
        (
            Event::ButtonRelease { window: 7, detail: 2, x: 3, y: 4, state: 0 },
            vec!["m", "Button 2 released in window 7, at coordinates (3,4)"],
        ),
        (
            Event::PointerMotion { window: 7, x: 100, y: -200 },
            vec!["Mouse moved in window 7 at coordinates (100,-200)"],
        ),
        (
            Event::PointerEnter { window: 7, x: 0, y: 0 },
            vec!["Mouse entered window 7 at coordinates (0,0)"],
        ),
        (
            Event::PointerLeave { window: 7, x: 32767, y: -32768 },
            vec!["Mouse left window 7 at coordinates (32767,-32768)"],
        ),
        (Event::KeyPress { window: 7, state: 0 }, vec!["m", "Key pressed in window 7"]),
        (Event::KeyRelease { window: 7, state: 0 }, vec!["m", "Key released in window 7"]),
        (
            Event::Unrecognized { description: "FocusIn(..)".to_string() },
            vec!["Unknown event: FocusIn(..)"],
        ),
    ];
    let mut seen: Vec<String> = Vec::new();
    for (event, expected) in cases {
        let step = dispatch_with_modifiers(&event, "m");
        assert!(!step.stop);
        assert_eq!(step.lines, expected);
        let own = step.lines.last().unwrap().clone();
        assert!(!seen.contains(&own));
        seen.push(own);
    }
}

#[test]
fn unrecognized_event_keeps_the_loop_running() {
    let step = dispatch(&Event::Unrecognized { description: String::new() });
    assert!(!step.stop);
    assert_eq!(step.lines, vec!["Unknown event: ".to_string()]);
}

#[test]
fn events_are_handled_independently() {
    let key = Event::KeyRelease { window: 9, state: 1 };
    let alone = dispatch(&key);
    let _ = dispatch(&press(3));
    let _ = dispatch(&Event::PointerMotion { window: 9, x: 1, y: 1 });
    let after = dispatch(&key);
    assert_eq!(alone.lines, after.lines);
    assert_eq!(alone.stop, after.stop);
}

#[test]
fn modifier_mask_is_named_by_x11rb() {
    let step = dispatch(&Event::KeyPress { window: 3, state: 0x104 });
    assert_eq!(step.lines, vec!["Control | Button1".to_string(), "Key pressed in window 3".to_string()]);
    let shift = dispatch(&Event::ButtonRelease { window: 3, detail: 3, x: 0, y: 0, state: 1 });
    assert_eq!(shift.lines[0], "Shift");
    let none = dispatch(&Event::KeyRelease { window: 3, state: 0 });
    assert_eq!(none.lines[0], "0");
}

#[test]
fn teardown_releases_grabs_once() {
    let screen = Screen { root: 5, root_visual: 6 };
    let ids = ResourceIds { window: 7, font: 8, cursor: 9 };
    let (mut window, _) = Window::create(&screen, &ids);
    assert_eq!(window.teardown(), vec![Request::UngrabKeyboard, Request::UngrabPointer, Request::Flush]);
    assert_eq!(window.teardown(), Vec::<Request>::new());
    assert_eq!(window.id(), 7);
}

#[test]
fn decimal_text() {
    let mut s = String::from("n=");
    push_decimal(&mut s, 0);
    assert_eq!(s, "n=0");
    let mut s = String::new();
    push_decimal(&mut s, u32::MAX);
    assert_eq!(s, "4294967295");
    let mut s = String::new();
    push_signed(&mut s, i16::MIN);
    assert_eq!(s, "-32768");
    let mut s = String::new();
    push_signed(&mut s, 1090);
    assert_eq!(s, "1090");
}
