use view_core::config::choose_config;
use view_core::label::{Alignment, LabelSpec};
use view_core::render_loop::{Action, Event, PointerState, RenderLoop};
use view_core::surface::{SurfaceBinding, SurfaceDescriptor};
use view_core::view::{ViewController, UNIT};

#[test]
fn resize_twice_equals_resize_once() {
    let mut s = SurfaceBinding::new(640, 480);
    assert!(s.on_resize(800, 600));
    let once = s.descriptor();
    assert!(!s.on_resize(800, 600));
    assert_eq!(s.descriptor(), once);
    assert_eq!(once, SurfaceDescriptor { width: 800, height: 600 });
}

#[test]
fn resize_to_zero_area_is_ignored() {
    let mut s = SurfaceBinding::new(640, 480);
    assert!(!s.on_resize(0, 0));
    assert!(!s.on_resize(0, 300));
    assert!(!s.on_resize(300, 0));
    assert_eq!(s.descriptor(), SurfaceDescriptor { width: 640, height: 480 });
}

#[test]
fn drag_then_scroll_scenario() {
    let mut r = RenderLoop::new(640, 480);
    assert_eq!(r.handle(Event::PointerMoved { x: 300, y: 200 }), Action::Nothing);
    assert_eq!(r.handle(Event::LeftPressed), Action::Nothing);
    assert_eq!(r.handle(Event::PointerMoved { x: 320, y: 210 }), Action::Nothing);
    let t = r.transform();
    assert_eq!((t.a, t.b, t.c, t.d, t.den), (UNIT, 0, 0, UNIT, UNIT));
    assert_eq!((t.e, t.f), (20 * UNIT, 10 * UNIT));
    let before = t.view_point(320, 210).unwrap();
    assert_eq!(before.0, 300 * before.2);
    assert_eq!(before.1, 200 * before.2);

    assert_eq!(r.handle(Event::Scroll { lines: 1 }), Action::Nothing);
    let t = r.transform();
    assert_eq!(t.a * 10, 11 * t.den);
    assert_eq!(t.d * 10, 11 * t.den);
    let after = t.view_point(320, 210).unwrap();
    assert_eq!(after.0, 300 * after.2);
    assert_eq!(after.1, 200 * after.2);
    assert_eq!(t.map_point(300, 200), Some((320 * t.den, 210 * t.den)));
}

#[test]
fn moving_without_drag_only_tracks_pointer() {
    let mut r = RenderLoop::new(640, 480);
    r.handle(Event::PointerMoved { x: 10, y: 20 });
    r.handle(Event::PointerMoved { x: 50, y: 70 });
    assert_eq!(r.transform(), ViewController::new().transform());
    assert_eq!(r.pointer(), PointerState { x: 50, y: 70, dragging: false });
}

#[test]
fn release_ends_the_drag() {
    let mut r = RenderLoop::new(640, 480);
    r.handle(Event::LeftPressed);
    r.handle(Event::PointerMoved { x: 5, y: 5 });
    r.handle(Event::LeftReleased);
    r.handle(Event::PointerMoved { x: 100, y: 100 });
    let t = r.transform();
    assert_eq!((t.e, t.f), (5 * UNIT, 5 * UNIT));
    assert!(!r.pointer().dragging);
}

#[test]
fn resize_events_reconfigure_only_on_change() {
    let mut r = RenderLoop::new(640, 480);
    assert_eq!(r.handle(Event::Resized { width: 640, height: 480 }), Action::Nothing);
    assert_eq!(r.handle(Event::Resized { width: 0, height: 0 }), Action::Nothing);
    assert_eq!(
        r.handle(Event::Resized { width: 1024, height: 768 }),
        Action::ResizeSurface { width: 1024, height: 768 }
    );
    assert_eq!(r.surface(), SurfaceDescriptor { width: 1024, height: 768 });
}

#[test]
fn drained_queue_requests_redraw_and_redraw_draws_current_state() {
    let mut r = RenderLoop::new(640, 480);
    assert_eq!(r.handle(Event::EventsCleared), Action::RequestRedraw);
    r.handle(Event::Resized { width: 800, height: 600 });
    r.handle(Event::Scroll { lines: 2 });
    let t = r.transform();
    assert_eq!(
        r.handle(Event::RedrawRequested),
        Action::Draw { transform: t, width: 800, height: 600 }
    );
}

#[test]
fn close_stops_the_loop() {
    let mut r = RenderLoop::new(640, 480);
    assert!(!r.is_stopped());
    assert_eq!(r.handle(Event::CloseRequested), Action::Exit);
    assert!(r.is_stopped());
    assert_eq!(r.handle(Event::EventsCleared), Action::Nothing);
    assert_eq!(r.handle(Event::LeftPressed), Action::Nothing);
    assert!(!r.pointer().dragging);
}

#[test]
fn label_anchor_is_vertically_centred() {
    let label = LabelSpec {
        text: "Hallo Leute".to_string(),
        x: 200,
        y: 100,
        width: 280,
        height: 20,
        align: Alignment::Left,
        font: 0,
    };
    // (200, 110) as numerators over 2
    assert_eq!(label.anchor(), (400, 220));
    let odd = LabelSpec { height: 7, ..label };
    assert_eq!(odd.anchor(), (400, 207));
}

#[test]
fn no_config_offered_gives_none() {
    assert_eq!(choose_config(&vec![]), None);
}

#[test]
fn config_with_transparency_is_preferred() {
    assert_eq!(choose_config(&vec![(false, 4), (false, 2), (true, 8)]), Some(2));
}

#[test]
fn config_with_fewer_samples_replaces_earlier_pick() {
    assert_eq!(choose_config(&vec![(true, 4), (false, 2)]), Some(1));
    assert_eq!(choose_config(&vec![(false, 2), (false, 2), (false, 3)]), Some(0));
}
