use plato_core::framebuffer::refresh::UpdateMode;
use plato_core::geom::{Point, Rectangle};
use plato_core::input::event::{DeviceEvent, FingerStatus, TimeVal};
use plato_core::view::event::{Align, Event, GestureEvent, ViewId};
use plato_core::view::labeled_icon::LabeledIcon;
use plato_core::view::search_bar::SearchBar;

fn rect(x0: i32, y0: i32, x1: i32, y1: i32) -> Rectangle {
    Rectangle::new(Point { x: x0, y: y0 }, Point { x: x1, y: y1 })
}

#[test]
fn rectangle_extent_and_membership() {
    let r = rect(10, 20, 110, 70);
    assert_eq!(r.width(), 100);
    assert_eq!(r.height(), 50);
    assert!(r.includes(Point { x: 10, y: 20 }));
    assert!(r.includes(Point { x: 109, y: 69 }));
    assert!(!r.includes(Point { x: 110, y: 69 }));
    assert!(!r.includes(Point { x: 109, y: 70 }));
    assert!(!r.includes(Point { x: 9, y: 20 }));
    assert_eq!(rect(-5, -5, 5, 5).width(), 10);
}

#[test]
fn labeled_icon_lays_out_icon_and_label() {
    let view = LabeledIcon::new(
        "home",
        rect(10, 20, 210, 60),
        Event::Show(ViewId::MainMenu),
        "Library".to_string(),
    );
    assert_eq!(view.rect, rect(10, 20, 210, 60));
    assert_eq!(view.icon.name, "home");
    assert_eq!(view.icon.rect, rect(10, 20, 50, 60));
    assert_eq!(view.icon.event, Event::Validate);
    assert_eq!(view.label.rect, rect(50, 20, 210, 60));
    assert_eq!(view.label.text, "Library");
    assert_eq!(view.label.align, Align::Left(0));
    assert_eq!(view.label.event, Some(Event::Validate));
    assert_eq!(view.event, Event::Show(ViewId::MainMenu));
    assert_eq!(view.render(), rect(10, 20, 210, 60));
    assert_eq!(*view.rect(), rect(10, 20, 210, 60));
}

#[test]
fn labeled_icon_update_sets_the_text() {
    let mut view =
        LabeledIcon::new("home", rect(0, 0, 100, 10), Event::Validate, "one".to_string());
    assert!(view.update("two".to_string()));
    assert_eq!(view.label.text, "two");
    assert!(!view.update("two".to_string()));
    assert_eq!(view.label.text, "two");
    assert_eq!(view.label.rect, rect(10, 0, 100, 10));
}

#[test]
fn labeled_icon_answers_validation() {
    let r = rect(10, 20, 210, 60);
    let view = LabeledIcon::new("home", r, Event::Show(ViewId::SortMenu), "Sort".to_string());
    let mut bus = vec![Event::Validate];
    assert!(view.handle_event(&Event::Validate, &mut bus));
    assert_eq!(bus, vec![Event::Validate, Event::ToggleNear(ViewId::SortMenu, r)]);

    let view = LabeledIcon::new("x", r, Event::Close(ViewId::Keyboard), "Close".to_string());
    let mut bus = Vec::new();
    assert!(view.handle_event(&Event::Validate, &mut bus));
    assert_eq!(bus, vec![Event::Close(ViewId::Keyboard)]);

    let mut bus = Vec::new();
    assert!(!view.handle_event(&Event::Show(ViewId::Keyboard), &mut bus));
    assert!(!view.handle_event(&Event::Render(r, UpdateMode::Gui), &mut bus));
    assert!(bus.is_empty());
}

#[test]
fn labeled_icon_resize_moves_children_and_event() {
    let mut view = LabeledIcon::new(
        "home",
        rect(0, 0, 100, 10),
        Event::ToggleNear(ViewId::MainMenu, rect(0, 0, 100, 10)),
        "Menu".to_string(),
    );
    view.resize(rect(5, 5, 205, 35));
    assert_eq!(view.rect, rect(5, 5, 205, 35));
    assert_eq!(view.icon.rect, rect(5, 5, 35, 35));
    assert_eq!(view.label.rect, rect(35, 5, 205, 35));
    assert_eq!(view.event, Event::ToggleNear(ViewId::MainMenu, rect(5, 5, 205, 35)));
    assert_eq!(view.label.text, "Menu");

    let mut view =
        LabeledIcon::new("home", rect(0, 0, 100, 10), Event::Validate, "Menu".to_string());
    view.resize(rect(5, 5, 205, 35));
    assert_eq!(view.event, Event::Validate);
}

#[test]
fn search_bar_lays_out_five_children() {
    let bar = SearchBar::new(rect(0, 100, 600, 150), "Search", "verne", 2);
    assert_eq!(bar.rect, rect(0, 100, 600, 150));
    assert_eq!(bar.search_icon.name, "search");
    assert_eq!(bar.search_icon.rect, rect(0, 100, 50, 150));
    assert_eq!(bar.search_icon.event, Event::Focus(Some(ViewId::SearchInput)));
    assert_eq!(bar.left_separator.rect, rect(50, 100, 52, 150));
    assert_eq!(bar.input_field.rect, rect(52, 100, 548, 150));
    assert_eq!(bar.input_field.id, ViewId::SearchInput);
    assert!(!bar.input_field.border);
    assert_eq!(bar.input_field.text, "verne");
    assert_eq!(bar.input_field.placeholder, "Search");
    assert_eq!(bar.right_separator.rect, rect(548, 100, 550, 150));
    assert_eq!(bar.close_icon.name, "close");
    assert_eq!(bar.close_icon.rect, rect(550, 100, 600, 150));
    assert_eq!(bar.close_icon.event, Event::Close(ViewId::SearchBar));
    assert_eq!(bar.render(), rect(0, 100, 600, 150));
    assert_eq!(*bar.rect(), rect(0, 100, 600, 150));
}

#[test]
fn search_bar_resize() {
    let mut bar = SearchBar::new(rect(0, 100, 600, 150), "Search", "", 2);
    bar.resize(rect(10, 0, 410, 40));
    assert_eq!(bar.rect, rect(10, 0, 410, 40));
    assert_eq!(bar.search_icon.rect, rect(10, 0, 50, 40));
    assert_eq!(bar.left_separator.rect, rect(50, 0, 52, 40));
    assert_eq!(bar.input_field.rect, rect(52, 0, 368, 40));
    assert_eq!(bar.right_separator.rect, rect(368, 0, 370, 40));
    assert_eq!(bar.close_icon.rect, rect(370, 0, 410, 40));
    assert_eq!(bar.input_field.placeholder, "Search");
    assert_eq!(bar.thickness, 2);
}

#[test]
fn search_bar_keeps_what_happens_on_it() {
    let bar = SearchBar::new(rect(0, 100, 600, 150), "Search", "", 2);
    let inside = Point { x: 300, y: 120 };
    let outside = Point { x: 300, y: 150 };
    assert!(bar.handle_event(&Event::Gesture(GestureEvent::Tap(inside))));
    assert!(!bar.handle_event(&Event::Gesture(GestureEvent::Tap(outside))));
    assert!(bar.handle_event(&Event::Gesture(GestureEvent::HoldFinger(inside))));
    assert!(!bar.handle_event(&Event::Gesture(GestureEvent::HoldFinger(outside))));
    assert!(bar.handle_event(&Event::Gesture(GestureEvent::Swipe { start: inside, end: outside })));
    assert!(!bar.handle_event(&Event::Gesture(GestureEvent::Swipe { start: outside, end: inside })));
    let finger = |position| {
        Event::Device(DeviceEvent::Finger {
            id: 0,
            time: TimeVal { sec: 0, usec: 0 },
            status: FingerStatus::Motion,
            position,
        })
    };
    assert!(bar.handle_event(&finger(inside)));
    assert!(!bar.handle_event(&finger(outside)));
    assert!(!bar.handle_event(&Event::Validate));
    assert!(!bar.handle_event(&Event::Device(DeviceEvent::NetUp)));
}

#[test]
fn rectangles_that_can_be_laid_out() {
    assert!(rect(0, 0, 10, 10).is_ordered());
    assert!(rect(5, 5, 5, 5).is_ordered());
    assert!(!rect(5, 5, 4, 5).is_ordered());
    assert!(!rect(i32::MIN, 0, i32::MAX, 1).is_ordered());
    assert!(rect(-1, 0, i32::MAX - 1, 1).is_ordered());

    assert!(LabeledIcon::fits(&rect(10, 20, 210, 60)));
    assert!(!LabeledIcon::fits(&rect(10, 60, 210, 20)));
    assert!(!LabeledIcon::fits(&rect(i32::MAX - 5, 0, i32::MAX, 10)));
    assert!(LabeledIcon::fits(&rect(i32::MAX - 10, 0, i32::MAX, 10)));

    assert!(SearchBar::fits(&rect(0, 100, 600, 150), 2));
    assert!(!SearchBar::fits(&rect(0, 150, 600, 100), 2));
    assert!(!SearchBar::fits(&rect(i32::MIN, 0, i32::MIN + 10, 50), 2));
    assert!(!SearchBar::fits(&rect(0, 0, 600, 50), i32::MAX));
    assert!(SearchBar::fits(&rect(i32::MIN + 50, 0, i32::MIN + 100, 50), 0));
}
