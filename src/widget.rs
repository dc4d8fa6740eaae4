use vstd::prelude::*;

use crate::input::{is_cancel, is_cancel_key};
use crate::target::{binding_text, BindTarget, Binding, KeyOrPointer};

verus! {

#[verifier::external_type_specification]
#[verifier::external_body]
pub struct ExId(egui::Id);

/// Relies on `egui::Id::new`: hashes the source into an id.
#[verifier::external_body]
fn make_id<T: std::hash::Hash>(source: T) -> egui::Id {
    egui::Id::new(source)
}

/// One input event of a frame, as far as the widget reads it.
#[derive(Clone, Copy, Debug, PartialEq, Eq)]
pub enum InputEvent {
    /// A key went down (`pressed`) or up.
    Key { key: egui::Key, pressed: bool, modifiers: egui::Modifiers },
    /// A pointer button went down (`pressed`) or up.
    PointerButton { button: egui::PointerButton, pressed: bool, modifiers: egui::Modifiers },
    /// Any other event.
    Other,
}

/// Whether an event is a key press or a pointer button press.
pub open spec fn is_press(e: InputEvent) -> bool {
    match e {
        InputEvent::Key { pressed, .. } => pressed,
        InputEvent::PointerButton { pressed, .. } => pressed,
        InputEvent::Other => false,
    }
}

/// `i` is the position of the first press among `events`.
pub open spec fn is_first_press_at(events: Seq<InputEvent>, i: int) -> bool {
    &&& 0 <= i < events.len()
    &&& is_press(events[i])
    &&& forall|j: int| 0 <= j < i ==> !is_press(#[trigger] events[j])
}

/// The first press among `events`, if there is one.
pub open spec fn first_press(events: Seq<InputEvent>) -> Option<InputEvent> {
    if exists|i: int| is_first_press_at(events, i) {
        Some(events[choose|i: int| is_first_press_at(events, i)])
    } else {
        None
    }
}

/// What a widget that is listening does with a frame.
#[derive(Clone, Copy, Debug, PartialEq, Eq)]
pub enum Decision {
    /// Clear the binding and stop listening.
    Clear,
    /// Bind the key and stop listening.
    SetKey(egui::Key, egui::Modifiers),
    /// Bind the pointer button and stop listening.
    SetPointer(egui::PointerButton, egui::Modifiers),
    /// Stop listening and leave the binding as it is.
    Stop,
    /// Go on listening.
    Wait,
}

/// The decision on the first press of a frame: the cancel key clears a
/// clearable target wherever the pointer is; a key or a button that the
/// target takes is bound while the pointer hovers; otherwise listening ends
/// once the pointer has left the widget.
pub open spec fn decision(
    event: Option<InputEvent>,
    hovered: bool,
    clearable: bool,
    takes_key: bool,
    takes_pointer: bool,
) -> Decision {
    let fallback = if hovered {
        Decision::Wait
    } else {
        Decision::Stop
    };
    match event {
        Some(InputEvent::Key { key, modifiers, .. }) => {
            if is_cancel_key(key) && clearable {
                Decision::Clear
            } else if takes_key && hovered {
                Decision::SetKey(key, modifiers)
            } else {
                fallback
            }
        },
        Some(InputEvent::PointerButton { button, modifiers, .. }) => {
            if takes_pointer && hovered {
                Decision::SetPointer(button, modifiers)
            } else {
                fallback
            }
        },
        _ => fallback,
    }
}

/// Finds the first key press or pointer button press among `events`.
pub fn find_first_press(events: &Vec<InputEvent>) -> (r: Option<InputEvent>)
    ensures
        r == first_press(events@),
{
    let mut i: usize = 0;
    while i < events.len()
        invariant
            i <= events@.len(),
            forall|j: int| 0 <= j < i ==> !is_press(#[trigger] events@[j]),
        decreases events@.len() - i,
    {
        let e = events[i];
        let pressed = match e {
            InputEvent::Key { pressed, .. } => pressed,
            InputEvent::PointerButton { pressed, .. } => pressed,
            InputEvent::Other => false,
        };
        if pressed {
            proof {
                assert(is_first_press_at(events@, i as int));
                let c = choose|c: int| is_first_press_at(events@, c);
                assert(c == i) by {
                    if c < i {
                        assert(!is_press(events@[c]));
                    } else if c > i {
                        assert(!is_press(events@[i as int]));
                    }
                }
            }
            return Some(e);
        }
        i = i + 1;
    }
    proof {
        assert forall|c: int| !is_first_press_at(events@, c) by {
            if 0 <= c < events@.len() {
                assert(!is_press(events@[c]));
            }
        }
    }
    None
}

/// Decides what a listening widget does with the first press of a frame.
pub fn decide(
    event: Option<InputEvent>,
    hovered: bool,
    clearable: bool,
    takes_key: bool,
    takes_pointer: bool,
) -> (r: Decision)
    ensures
        r == decision(event, hovered, clearable, takes_key, takes_pointer),
{
    let fallback = if hovered {
        Decision::Wait
    } else {
        Decision::Stop
    };
    match event {
        Some(InputEvent::Key { key, modifiers, .. }) => {
            if is_cancel(key) && clearable {
                Decision::Clear
            } else if takes_key && hovered {
                Decision::SetKey(key, modifiers)
            } else {
                fallback
            }
        },
        Some(InputEvent::PointerButton { button, modifiers, .. }) => {
            if takes_pointer && hovered {
                Decision::SetPointer(button, modifiers)
            } else {
                fallback
            }
        },
        _ => fallback,
    }
}

/// The relation between the state before and after one frame of the widget,
/// and what the frame returns. Not listening, no event is read: the binding
/// stays, nothing finishes, and a click starts listening. Listening, the
/// decision on the frame's first press is carried out on the binding, and
/// unless the decision is to wait, listening ends and the frame reports it.
pub open spec fn frame_step<B: BindTarget>(
    before: B,
    after: B,
    editing: bool,
    editing_after: bool,
    hovered: bool,
    clicked: bool,
    events: Seq<InputEvent>,
    finished: bool,
) -> bool {
    if !editing {
        &&& !finished
        &&& editing_after == clicked
        &&& after == before
    } else {
        let d = decision(
            first_press(events),
            hovered,
            B::spec_clearable(),
            B::spec_is_key(),
            B::spec_is_pointer(),
        );
        &&& finished == (d != Decision::Wait)
        &&& editing_after == (d == Decision::Wait)
        &&& match d {
            Decision::Clear => after.binding() == None::<Binding>,
            Decision::SetKey(k, m) => after.binding() == Some((KeyOrPointer::Key(k), m)),
            Decision::SetPointer(p, m) => after.binding() == Some((KeyOrPointer::Pointer(p), m)),
            _ => after == before,
        }
    }
}

/// A frame in which the widget is not listening and is not clicked changes
/// nothing and reports nothing; so any number of such frames in a row do too.
pub proof fn lemma_idle_frame_changes_nothing<B: BindTarget>(
    before: B,
    after: B,
    editing_after: bool,
    hovered: bool,
    events: Seq<InputEvent>,
    finished: bool,
)
    requires
        frame_step(before, after, false, editing_after, hovered, false, events, finished),
    ensures
        after == before,
        !editing_after,
        !finished,
{
}

/// One frame of a binding widget on `value`. `editing` is the widget's
/// stored flag: whether it is listening. While listening, the first press of
/// the frame is taken and decided on; a decision other than waiting ends
/// listening, and then the result is `true`. While not listening, a click
/// starts listening. The result is `true` exactly on the frame that ends
/// listening.
pub fn show_frame<B: BindTarget>(
    value: &mut B,
    editing: &mut bool,
    hovered: bool,
    clicked: bool,
    events: &Vec<InputEvent>,
) -> (r: bool)
    ensures
        frame_step(*old(value), *final(value), *old(editing), *final(editing), hovered, clicked, events@, r),
{
    if *editing {
        let event = find_first_press(events);
        let d = decide(event, hovered, B::clearable(), B::is_key(), B::is_pointer());
        let finished = match d {
            Decision::Clear => {
                value.clear();
                true
            },
            Decision::SetKey(k, m) => {
                value.set_key(k, m);
                true
            },
            Decision::SetPointer(p, m) => {
                value.set_pointer(p, m);
                true
            },
            Decision::Stop => true,
            Decision::Wait => false,
        };
        if finished {
            *editing = false;
            return true;
        }
    }
    if clicked {
        *editing = true;
    }
    false
}

/// Widget that shows a binding and, once clicked, listens for a new one.
pub struct Bind<'a, B: BindTarget> {
    /// Tells this widget's stored state apart from that of others.
    pub id: egui::Id,
    /// The binding being shown and edited.
    pub value: &'a mut B,
}

impl<'a, B: BindTarget> Bind<'a, B> {
    /// Creates a widget for `value`, identified by `id_source`.
    pub fn new<T: std::hash::Hash>(id_source: T, value: &'a mut B) -> (r: Self)
        ensures
            *r.value == *old(value),
            *final(r.value) == *final(value),
    {
        Bind { id: make_id(id_source), value }
    }

    /// The id that the widget was made with.
    pub fn id(&self) -> (r: egui::Id)
        ensures
            r == self.id,
    {
        self.id
    }

    /// The binding as the widget shows it.
    pub fn text(&self) -> (r: String)
        ensures
            r@ == binding_text(old(self.value).binding()),
    {
        self.value.format()
    }

    /// Runs the widget for one frame; see [`show_frame`].
    pub fn show(self, editing: &mut bool, hovered: bool, clicked: bool, events: &Vec<InputEvent>) -> (r: bool)
        ensures
            frame_step(*old(self.value), *final(self.value), *old(editing), *final(editing), hovered, clicked, events@, r),
    {
        show_frame(self.value, editing, hovered, clicked, events)
    }
}

} // verus!
