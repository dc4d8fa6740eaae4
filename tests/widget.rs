use egui::{Key, Modifiers, PointerButton};
use egui_bind::widget::{decide, find_first_press};
use egui_bind::{show_frame, Bind, Decision, EitherBind, InputEvent, KeyBind, KeyOrPointer, PointerBind};

fn key_down(key: Key, modifiers: Modifiers) -> InputEvent {
    InputEvent::Key { key, pressed: true, modifiers }
}

fn key_up(key: Key) -> InputEvent {
    InputEvent::Key { key, pressed: false, modifiers: Modifiers::NONE }
}

fn button_down(button: PointerButton, modifiers: Modifiers) -> InputEvent {
    InputEvent::PointerButton { button, pressed: true, modifiers }
}

#[test]
fn idle_click_starts_listening() {
    let mut value = KeyBind(None);
    let mut editing = false;
    let events = vec![key_down(Key::A, Modifiers::NONE)];
    let finished = show_frame(&mut value, &mut editing, true, true, &events);
    assert!(!finished);
    assert!(editing);
    assert_eq!(value, KeyBind(None));
}

#[test]
fn listening_key_press_while_hovered_binds_key() {
    let mut value = KeyBind(Some((Key::A, Modifiers::NONE)));
    let mut editing = true;
    let events = vec![InputEvent::Other, key_up(Key::C), key_down(Key::B, Modifiers::CTRL)];
    let finished = show_frame(&mut value, &mut editing, true, false, &events);
    assert!(finished);
    assert!(!editing);
    assert_eq!(value, KeyBind(Some((Key::B, Modifiers::CTRL))));
}

#[test]
fn listening_cancel_key_clears_wherever_pointer_is() {
    for hovered in [true, false] {
        let mut value = KeyBind(Some((Key::A, Modifiers::NONE)));
        let mut editing = true;
        let events = vec![key_down(Key::Escape, Modifiers::NONE)];
        let finished = show_frame(&mut value, &mut editing, hovered, false, &events);
        assert!(finished);
        assert!(!editing);
        assert_eq!(value, KeyBind(None));
    }
}

#[test]
fn listening_pointer_leaves_without_event_keeps_binding() {
    let mut value = PointerBind(Some((PointerButton::Secondary, Modifiers::NONE)));
    let mut editing = true;
    let finished = show_frame(&mut value, &mut editing, false, false, &vec![]);
    assert!(finished);
    assert!(!editing);
    assert_eq!(value, PointerBind(Some((PointerButton::Secondary, Modifiers::NONE))));
}

#[test]
fn listening_hovered_without_event_keeps_listening() {
    let mut value = EitherBind(None);
    let mut editing = true;
    let events = vec![key_up(Key::A), InputEvent::Other];
    let finished = show_frame(&mut value, &mut editing, true, false, &events);
    assert!(!finished);
    assert!(editing);
    assert_eq!(value, EitherBind(None));
}

#[test]
fn idle_frames_without_click_change_nothing() {
    let mut value = KeyBind(Some((Key::Z, Modifiers::ALT)));
    let mut editing = false;
    let events = vec![key_down(Key::Escape, Modifiers::NONE), button_down(PointerButton::Primary, Modifiers::NONE)];
    for hovered in [true, false, true] {
        let finished = show_frame(&mut value, &mut editing, hovered, false, &events);
        assert!(!finished);
        assert!(!editing);
        assert_eq!(value, KeyBind(Some((Key::Z, Modifiers::ALT))));
    }
}

#[test]
fn first_press_wins() {
    let mut value = EitherBind(None);
    let mut editing = true;
    let events = vec![
        key_up(Key::A),
        button_down(PointerButton::Middle, Modifiers::SHIFT),
        key_down(Key::B, Modifiers::NONE),
    ];
    assert!(show_frame(&mut value, &mut editing, true, false, &events));
    assert_eq!(value, EitherBind(Some((KeyOrPointer::Pointer(PointerButton::Middle), Modifiers::SHIFT))));
}

#[test]
fn pointer_press_on_key_target_while_hovered_waits() {
    let mut value = KeyBind(None);
    let mut editing = true;
    let events = vec![button_down(PointerButton::Primary, Modifiers::NONE)];
    assert!(!show_frame(&mut value, &mut editing, true, false, &events));
    assert!(editing);
    assert_eq!(value, KeyBind(None));
}

#[test]
fn key_press_away_from_widget_cancels_without_change() {
    let mut value = KeyBind(Some((Key::A, Modifiers::NONE)));
    let mut editing = true;
    let events = vec![key_down(Key::B, Modifiers::NONE)];
    assert!(show_frame(&mut value, &mut editing, false, false, &events));
    assert!(!editing);
    assert_eq!(value, KeyBind(Some((Key::A, Modifiers::NONE))));
}

#[test]
fn find_first_press_skips_releases_and_others() {
    assert_eq!(find_first_press(&vec![]), None);
    assert_eq!(find_first_press(&vec![key_up(Key::A), InputEvent::Other]), None);
    assert_eq!(
        find_first_press(&vec![key_up(Key::A), key_down(Key::C, Modifiers::NONE), key_down(Key::D, Modifiers::NONE)]),
        Some(key_down(Key::C, Modifiers::NONE))
    );
}

#[test]
fn decide_covers_each_outcome() {
    let esc = Some(key_down(Key::Escape, Modifiers::NONE));
    assert_eq!(decide(esc, false, true, true, false), Decision::Clear);
    assert_eq!(decide(esc, true, false, true, false), Decision::SetKey(Key::Escape, Modifiers::NONE));
    assert_eq!(decide(esc, false, false, true, false), Decision::Stop);
    let click = Some(button_down(PointerButton::Primary, Modifiers::CTRL));
    assert_eq!(decide(click, true, true, false, true), Decision::SetPointer(PointerButton::Primary, Modifiers::CTRL));
    assert_eq!(decide(click, true, true, true, false), Decision::Wait);
    assert_eq!(decide(None, true, true, true, true), Decision::Wait);
    assert_eq!(decide(None, false, true, true, true), Decision::Stop);
}

#[test]
fn bind_widget_runs_frames() {
    let mut value = EitherBind(None);
    let mut editing = false;
    let bind = Bind::new("jump", &mut value);
    assert_eq!(bind.text(), "unbound");
    assert!(!bind.show(&mut editing, true, true, &vec![]));
    assert!(editing);
    let bind = Bind::new("jump", &mut value);
    assert_eq!(bind.id(), egui::Id::new("jump"));
    assert!(bind.show(&mut editing, true, false, &vec![key_down(Key::Space, Modifiers::NONE)]));
    assert!(!editing);
    assert_eq!(value.0, Some((KeyOrPointer::Key(Key::Space), Modifiers::NONE)));
}

#[test]
fn cancel_key_binds_on_target_that_cannot_clear() {
    let mut value = (Key::A, Modifiers::NONE);
    let mut editing = true;
    let events = vec![key_down(Key::Escape, Modifiers::NONE)];
    assert!(show_frame(&mut value, &mut editing, true, false, &events));
    assert_eq!(value, (Key::Escape, Modifiers::NONE));

    let mut value = (Key::A, Modifiers::NONE);
    let mut editing = true;
    assert!(show_frame(&mut value, &mut editing, false, false, &events));
    assert!(!editing);
    assert_eq!(value, (Key::A, Modifiers::NONE));
}
