//! Hotkey actions and key bindings. A binding pairs a textual key
//! combination with the action it triggers; the OS-level registration
//! and its numeric ids live in the shell.

use vstd::prelude::*;

verus! {

/// What a hotkey does when pressed.
#[derive(Clone, Copy, Debug)]
pub enum HotKeyAction {
    Capture,
    Editor,
    Clipboard,
    Save,
    SaveDefault,
    Settings,
    Reset,
    Nothing,
}

impl HotKeyAction {
    /// The action's display label.
    pub fn display_name(&self) -> (r: String)
        ensures
            r@ == self.spec_display_name(),
    {
        match self {
            HotKeyAction::Capture => String::from_str("Capture"),
            HotKeyAction::Editor => String::from_str("Editor"),
            HotKeyAction::Clipboard => String::from_str("Clipboard"),
            HotKeyAction::Save => String::from_str("Save"),
            HotKeyAction::SaveDefault => String::from_str("Save Default"),
            HotKeyAction::Settings => String::from_str("Settings"),
            HotKeyAction::Reset => String::from_str("Reset"),
            HotKeyAction::Nothing => String::from_str("None"),
        }
    }

    pub open spec fn spec_display_name(self) -> Seq<char> {
        match self {
            HotKeyAction::Capture => "Capture"@,
            HotKeyAction::Editor => "Editor"@,
            HotKeyAction::Clipboard => "Clipboard"@,
            HotKeyAction::Save => "Save"@,
            HotKeyAction::SaveDefault => "Save Default"@,
            HotKeyAction::Settings => "Settings"@,
            HotKeyAction::Reset => "Reset"@,
            HotKeyAction::Nothing => "None"@,
        }
    }

    /// Whether two actions compare equal under the action comparison,
    /// which also lets `SaveDefault` pass for `Save`.
    pub open spec fn eq_spec_def(self, other: HotKeyAction) -> bool {
        ||| (self is Capture && other is Capture)
        ||| (self is Editor && other is Editor)
        ||| (self is Clipboard && other is Clipboard)
        ||| (self is Save && other is Save)
        ||| (self is SaveDefault && other is Save)
        ||| (self is Settings && other is Settings)
        ||| (self is Reset && other is Reset)
        ||| (self is Nothing && other is Nothing)
    }
}

impl PartialEq for HotKeyAction {
    fn eq(&self, other: &Self) -> (r: bool) {
        matches!(
            (self, other),
            (HotKeyAction::Capture, HotKeyAction::Capture)
                | (HotKeyAction::Editor, HotKeyAction::Editor)
                | (HotKeyAction::Clipboard, HotKeyAction::Clipboard)
                | (HotKeyAction::Save, HotKeyAction::Save)
                | (HotKeyAction::SaveDefault, HotKeyAction::Save)
                | (HotKeyAction::Settings, HotKeyAction::Settings)
                | (HotKeyAction::Reset, HotKeyAction::Reset)
                | (HotKeyAction::Nothing, HotKeyAction::Nothing)
        )
    }
}

impl vstd::std_specs::cmp::PartialEqSpecImpl for HotKeyAction {
    open spec fn obeys_eq_spec() -> bool {
        true
    }

    open spec fn eq_spec(&self, other: &HotKeyAction) -> bool {
        self.eq_spec_def(*other)
    }
}

/// A key combination: modifier flags plus a key, as the interface
/// resolves it.
#[derive(Clone, Copy, Debug, PartialEq, Eq, Structural)]
pub struct KeyCombo {
    pub ctrl: bool,
    pub alt: bool,
    pub shift: bool,
    pub key: char,
}

/// One key binding: the OS-level hotkey id and text, the in-app
/// shortcut, and the bound action.
#[derive(Clone, Debug)]
pub struct Binding {
    pub id: u32,
    pub key_bind: String,
    pub shortcut: Option<KeyCombo>,
    pub action: HotKeyAction,
}

impl Default for Binding {
    /// An empty binding: no key, no shortcut, no action.
    fn default() -> (r: Binding)
        ensures
            r.id == 0 && r.key_bind@ == Seq::<char>::empty() && r.shortcut is None && r.action
                is Nothing,
    {
        Binding { id: 0, key_bind: String::new(), shortcut: None, action: HotKeyAction::Nothing }
    }
}

/// Two bindings compare equal when their shortcuts do.
pub open spec fn spec_binding_eq(a: Binding, b: Binding) -> bool {
    a.shortcut == b.shortcut
}

impl PartialEq for Binding {
    fn eq(&self, other: &Self) -> (r: bool) {
        match (&self.shortcut, &other.shortcut) {
            (Option::Some(a), Option::Some(b)) => *a == *b,
            (Option::None, Option::None) => true,
            _ => false,
        }
    }
}

impl vstd::std_specs::cmp::PartialEqSpecImpl for Binding {
    open spec fn obeys_eq_spec() -> bool {
        true
    }

    open spec fn eq_spec(&self, other: &Binding) -> bool {
        spec_binding_eq(*self, *other)
    }
}

/// The action bound to a pressed OS hotkey id: the first binding with
/// that id, or nothing.
pub open spec fn spec_resolve_hotkey(bindings: Seq<Binding>, id: u32) -> HotKeyAction
    decreases bindings.len(),
{
    if bindings.len() == 0 {
        HotKeyAction::Nothing
    } else if bindings[0].id == id {
        bindings[0].action
    } else {
        spec_resolve_hotkey(bindings.drop_first(), id)
    }
}

/// Resolve a pressed OS hotkey id to its bound action.
pub fn resolve_hotkey(bindings: &Vec<Binding>, id: u32) -> (r: HotKeyAction)
    ensures
        r == spec_resolve_hotkey(bindings@, id),
{
    let mut i: usize = 0;
    proof {
        assert(bindings@.skip(0) =~= bindings@);
    }
    while i < bindings.len()
        invariant
            i <= bindings@.len(),
            spec_resolve_hotkey(bindings@, id) == spec_resolve_hotkey(
                bindings@.skip(i as int),
                id,
            ),
        decreases bindings@.len() - i,
    {
        let ghost rest = bindings@.skip(i as int);
        proof {
            assert(rest[0] == bindings@[i as int]);
            assert(rest.drop_first() =~= bindings@.skip(i + 1));
        }
        if bindings[i].id == id {
            return bindings[i].action;
        }
        i = i + 1;
    }
    proof {
        assert(bindings@.skip(bindings@.len() as int).len() == 0);
    }
    HotKeyAction::Nothing
}

} // verus!
