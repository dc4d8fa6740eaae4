use vstd::prelude::*;

verus! {

#[verifier::external_type_specification]
pub struct ExKey(egui::Key);

#[verifier::external_type_specification]
pub struct ExModifiers(egui::Modifiers);

#[verifier::external_type_specification]
pub struct ExPointerButton(egui::PointerButton);

/// The key that, while a binding is being edited, clears it.
pub open spec fn is_cancel_key(k: egui::Key) -> bool {
    k == egui::Key::Escape
}

/// What `egui::Key::name` gives for a key.
pub uninterp spec fn key_name_of(k: egui::Key) -> Seq<char>;

/// `a` and `b` joined by a `+`, or `b` alone when `a` is empty.
pub open spec fn plus_join(a: Seq<char>, b: Seq<char>) -> Seq<char> {
    if a.len() == 0 {
        b
    } else {
        a + "+"@ + b
    }
}

/// The held modifiers by name, as in `Ctrl+Alt+Shift`; `command` counts as
/// `Ctrl`, `mac_cmd` alone is not shown.
pub open spec fn modifiers_text(m: egui::Modifiers) -> Seq<char> {
    let s0 = if m.ctrl || m.command {
        "Ctrl"@
    } else {
        Seq::<char>::empty()
    };
    let s1 = if m.alt {
        plus_join(s0, "Alt"@)
    } else {
        s0
    };
    if m.shift {
        plus_join(s1, "Shift"@)
    } else {
        s1
    }
}

/// The name shown for a pointer button.
pub open spec fn button_text(b: egui::PointerButton) -> Seq<char> {
    match b {
        egui::PointerButton::Primary => "LeftClick"@,
        egui::PointerButton::Secondary => "RightClick"@,
        egui::PointerButton::Middle => "MiddleClick"@,
        egui::PointerButton::Extra1 => "Mouse4"@,
        egui::PointerButton::Extra2 => "Mouse5"@,
    }
}

/// Relies on `egui::Key::name`: a fixed English name of the key.
#[verifier::external_body]
fn key_name(k: egui::Key) -> (r: String)
    ensures
        r@ == key_name_of(k),
{
    k.name().to_string()
}

/// Relies on `egui::ModifierNames::format` with the long names, off macOS:
/// `Ctrl` when `ctrl` or `command` is held, then `Alt`, then `Shift`,
/// joined by `+`.
#[verifier::external_body]
fn modifier_names(m: &egui::Modifiers) -> (r: String)
    ensures
        r@ == modifiers_text(*m),
{
    egui::ModifierNames::NAMES.format(m, false)
}

/// Whether `k` is the key that clears a binding being edited.
pub fn is_cancel(k: egui::Key) -> (r: bool)
    ensures
        r == is_cancel_key(k),
{
    match k {
        egui::Key::Escape => true,
        _ => false,
    }
}

/// Appends `name` to `s`, with a `+` between them unless `s` is empty.
pub fn append_joined(s: String, name: &str) -> (r: String)
    ensures
        r@ == plus_join(s@, name@),
{
    let mut s = s;
    if !s.as_str().is_empty() {
        s.append("+");
    }
    s.append(name);
    s
}

/// The modifiers followed by the key's name, as in `Ctrl+Shift+F`.
pub fn key_text(k: egui::Key, m: egui::Modifiers) -> (r: String)
    ensures
        r@ == plus_join(modifiers_text(m), key_name_of(k)),
{
    let name = key_name(k);
    append_joined(modifier_names(&m), name.as_str())
}

/// The modifiers followed by the button's name, as in `Ctrl+LeftClick`.
pub fn pointer_text(b: egui::PointerButton, m: egui::Modifiers) -> (r: String)
    ensures
        r@ == plus_join(modifiers_text(m), button_text(b)),
{
    let name = match b {
        egui::PointerButton::Primary => "LeftClick",
        egui::PointerButton::Secondary => "RightClick",
        egui::PointerButton::Middle => "MiddleClick",
        egui::PointerButton::Extra1 => "Mouse4",
        egui::PointerButton::Extra2 => "Mouse5",
    };
    append_joined(modifier_names(&m), name)
}

} // verus!
