use vstd::prelude::*;

use crate::input::{button_text, key_name_of, key_text, modifiers_text, plus_join, pointer_text};

verus! {

/// What a binding is set to: a key or a pointer button.
#[derive(Clone, Copy, Debug, PartialEq, Eq)]
pub enum KeyOrPointer {
    /// A keyboard key.
    Key(egui::Key),
    /// A pointer button.
    Pointer(egui::PointerButton),
}

/// A stored binding: what it is set to, and the modifiers held with it.
pub type Binding = (KeyOrPointer, egui::Modifiers);

/// The placeholder shown for a binding that is not set.
fn unbound() -> (r: String)
    ensures
        r@ == "unbound"@,
{
    String::from_str("unbound")
}

/// The text shown for a binding.
pub open spec fn binding_text(b: Option<Binding>) -> Seq<char> {
    match b {
        None => "unbound"@,
        Some((KeyOrPointer::Key(k), m)) => plus_join(modifiers_text(m), key_name_of(k)),
        Some((KeyOrPointer::Pointer(p), m)) => plus_join(modifiers_text(m), button_text(p)),
    }
}

/// The text of a binding, computed.
pub fn format_binding(b: Option<Binding>) -> (r: String)
    ensures
        r@ == binding_text(b),
{
    match b {
        None => unbound(),
        Some((KeyOrPointer::Key(k), m)) => key_text(k, m),
        Some((KeyOrPointer::Pointer(p), m)) => pointer_text(p, m),
    }
}

/// A value that a binding widget can edit. The three capability flags say
/// which of `clear`, `set_key` and `set_pointer` may be called on it.
pub trait BindTarget: Sized {
    /// The binding this value holds.
    spec fn binding(&self) -> Option<Binding>;

    /// Whether the value can be cleared.
    spec fn spec_clearable() -> bool;

    /// Whether the value takes a key.
    spec fn spec_is_key() -> bool;

    /// Whether the value takes a pointer button.
    spec fn spec_is_pointer() -> bool;

    /// Whether the value can be cleared.
    fn clearable() -> (r: bool)
        ensures
            r == Self::spec_clearable(),
    ;

    /// Whether the value takes a key.
    fn is_key() -> (r: bool)
        ensures
            r == Self::spec_is_key(),
    ;

    /// Whether the value takes a pointer button.
    fn is_pointer() -> (r: bool)
        ensures
            r == Self::spec_is_pointer(),
    ;

    /// The binding as text, or the placeholder when it is not set.
    fn format(&self) -> (r: String)
        ensures
            r@ == binding_text(self.binding()),
    ;

    /// Unsets the binding.
    fn clear(&mut self)
        requires
            Self::spec_clearable(),
        ensures
            final(self).binding() == None::<Binding>,
    ;

    /// Binds a key with its modifiers, replacing what was bound.
    fn set_key(&mut self, key: egui::Key, modifiers: egui::Modifiers)
        requires
            Self::spec_is_key(),
        ensures
            final(self).binding() == Some((KeyOrPointer::Key(key), modifiers)),
    ;

    /// Binds a pointer button with its modifiers, replacing what was bound.
    fn set_pointer(&mut self, button: egui::PointerButton, modifiers: egui::Modifiers)
        requires
            Self::spec_is_pointer(),
        ensures
            final(self).binding() == Some((KeyOrPointer::Pointer(button), modifiers)),
    ;
}

/// A key with its modifiers, or nothing.
#[derive(Clone, Copy, Debug, PartialEq, Eq)]
pub struct KeyBind(pub Option<(egui::Key, egui::Modifiers)>);

impl BindTarget for KeyBind {
    open spec fn binding(&self) -> Option<Binding> {
        match self.0 {
            None => None,
            Some((k, m)) => Some((KeyOrPointer::Key(k), m)),
        }
    }

    open spec fn spec_clearable() -> bool {
        true
    }

    open spec fn spec_is_key() -> bool {
        true
    }

    open spec fn spec_is_pointer() -> bool {
        false
    }

    fn clearable() -> (r: bool) {
        true
    }

    fn is_key() -> (r: bool) {
        true
    }

    fn is_pointer() -> (r: bool) {
        false
    }

    fn format(&self) -> (r: String) {
        match self.0 {
            None => unbound(),
            Some((k, m)) => key_text(k, m),
        }
    }

    fn clear(&mut self) {
        self.0 = None;
    }

    fn set_key(&mut self, key: egui::Key, modifiers: egui::Modifiers) {
        self.0 = Some((key, modifiers));
    }

    fn set_pointer(&mut self, button: egui::PointerButton, modifiers: egui::Modifiers) {
        // Takes no pointer button: never called.
    }
}

/// A key with its modifiers, always set: it cannot be cleared.
impl BindTarget for (egui::Key, egui::Modifiers) {
    open spec fn binding(&self) -> Option<Binding> {
        Some((KeyOrPointer::Key(self.0), self.1))
    }

    open spec fn spec_clearable() -> bool {
        false
    }

    open spec fn spec_is_key() -> bool {
        true
    }

    open spec fn spec_is_pointer() -> bool {
        false
    }

    fn clearable() -> (r: bool) {
        false
    }

    fn is_key() -> (r: bool) {
        true
    }

    fn is_pointer() -> (r: bool) {
        false
    }

    fn format(&self) -> (r: String) {
        key_text(self.0, self.1)
    }

    fn clear(&mut self) {
        // Not clearable: never called.
    }

    fn set_key(&mut self, key: egui::Key, modifiers: egui::Modifiers) {
        *self = (key, modifiers);
    }

    fn set_pointer(&mut self, button: egui::PointerButton, modifiers: egui::Modifiers) {
        // Takes no pointer button: never called.
    }
}

/// A pointer button with its modifiers, always set: it cannot be cleared.
impl BindTarget for (egui::PointerButton, egui::Modifiers) {
    open spec fn binding(&self) -> Option<Binding> {
        Some((KeyOrPointer::Pointer(self.0), self.1))
    }

    open spec fn spec_clearable() -> bool {
        false
    }

    open spec fn spec_is_key() -> bool {
        false
    }

    open spec fn spec_is_pointer() -> bool {
        true
    }

    fn clearable() -> (r: bool) {
        false
    }

    fn is_key() -> (r: bool) {
        false
    }

    fn is_pointer() -> (r: bool) {
        true
    }

    fn format(&self) -> (r: String) {
        pointer_text(self.0, self.1)
    }

    fn clear(&mut self) {
        // Not clearable: never called.
    }

    fn set_key(&mut self, key: egui::Key, modifiers: egui::Modifiers) {
        // Takes no key: never called.
    }

    fn set_pointer(&mut self, button: egui::PointerButton, modifiers: egui::Modifiers) {
        *self = (button, modifiers);
    }
}

/// A pointer button with its modifiers, or nothing.
#[derive(Clone, Copy, Debug, PartialEq, Eq)]
pub struct PointerBind(pub Option<(egui::PointerButton, egui::Modifiers)>);

impl BindTarget for PointerBind {
    open spec fn binding(&self) -> Option<Binding> {
        match self.0 {
            None => None,
            Some((p, m)) => Some((KeyOrPointer::Pointer(p), m)),
        }
    }

    open spec fn spec_clearable() -> bool {
        true
    }

    open spec fn spec_is_key() -> bool {
        false
    }

    open spec fn spec_is_pointer() -> bool {
        true
    }

    fn clearable() -> (r: bool) {
        true
    }

    fn is_key() -> (r: bool) {
        false
    }

    fn is_pointer() -> (r: bool) {
        true
    }

    fn format(&self) -> (r: String) {
        match self.0 {
            None => unbound(),
            Some((p, m)) => pointer_text(p, m),
        }
    }

    fn clear(&mut self) {
        self.0 = None;
    }

    fn set_key(&mut self, key: egui::Key, modifiers: egui::Modifiers) {
        // Takes no key: never called.
    }

    fn set_pointer(&mut self, button: egui::PointerButton, modifiers: egui::Modifiers) {
        self.0 = Some((button, modifiers));
    }
}

/// A key or a pointer button with its modifiers, or nothing: whichever
/// kind arrives is taken.
#[derive(Clone, Copy, Debug, PartialEq, Eq)]
pub struct EitherBind(pub Option<Binding>);

impl BindTarget for EitherBind {
    open spec fn binding(&self) -> Option<Binding> {
        self.0
    }

    open spec fn spec_clearable() -> bool {
        true
    }

    open spec fn spec_is_key() -> bool {
        true
    }

    open spec fn spec_is_pointer() -> bool {
        true
    }

    fn clearable() -> (r: bool) {
        true
    }

    fn is_key() -> (r: bool) {
        true
    }

    fn is_pointer() -> (r: bool) {
        true
    }

    fn format(&self) -> (r: String) {
        format_binding(self.0)
    }

    fn clear(&mut self) {
        self.0 = None;
    }

    fn set_key(&mut self, key: egui::Key, modifiers: egui::Modifiers) {
        self.0 = Some((KeyOrPointer::Key(key), modifiers));
    }

    fn set_pointer(&mut self, button: egui::PointerButton, modifiers: egui::Modifiers) {
        self.0 = Some((KeyOrPointer::Pointer(button), modifiers));
    }
}

/// A target with nothing bound, as `clear` leaves it, shows the placeholder.
pub proof fn lemma_cleared_shows_placeholder<B: BindTarget>(cleared: B)
    requires
        cleared.binding() == None::<Binding>,
    ensures
        binding_text(cleared.binding()) == "unbound"@,
{
}

/// A target that takes keys shows the key and modifiers last set, whatever
/// was set before: a second `set_key` replaces the first one whole.
pub proof fn lemma_set_key_last_wins<B: BindTarget>(
    first: B,
    second: B,
    k1: egui::Key,
    m1: egui::Modifiers,
    k2: egui::Key,
    m2: egui::Modifiers,
)
    requires
        B::spec_is_key(),
        first.binding() == Some((KeyOrPointer::Key(k1), m1)),
        second.binding() == Some((KeyOrPointer::Key(k2), m2)),
    ensures
        binding_text(first.binding()) == plus_join(modifiers_text(m1), key_name_of(k1)),
        binding_text(second.binding()) == plus_join(modifiers_text(m2), key_name_of(k2)),
{
}

/// On a target that takes both kinds, the last of `set_key` and
/// `set_pointer` decides what is shown, whatever was bound before.
pub proof fn lemma_either_last_write_wins(
    keyed: EitherBind,
    pointed: EitherBind,
    k: egui::Key,
    p: egui::PointerButton,
    mk: egui::Modifiers,
    mp: egui::Modifiers,
)
    requires
        keyed.binding() == Some((KeyOrPointer::Key(k), mk)),
        pointed.binding() == Some((KeyOrPointer::Pointer(p), mp)),
    ensures
        binding_text(keyed.binding()) == plus_join(modifiers_text(mk), key_name_of(k)),
        binding_text(pointed.binding()) == plus_join(modifiers_text(mp), button_text(p)),
{
}

} // verus!
