//! The persisted configuration: general options, the default export
//! path and filename pattern, and the two keybinding sets. Loading and
//! storing it to disk is the shell's job; the library owns the values
//! and their comparisons.

use vstd::prelude::*;

use crate::keybinds::{Binding, HotKeyAction, KeyCombo, spec_binding_eq};

verus! {

/// What the settings page is about to do with the configuration.
#[derive(Clone, Copy, Debug, PartialEq, Eq, Structural)]
pub enum Status {
    Normal,
    ToGoBack,
    ToDiscard,
    ToReset,
    ToSave,
}

impl Default for Status {
    fn default() -> (r: Status)
        ensures
            r is Normal,
    {
        Status::Normal
    }
}

/// The default export filename: an optional prefix and postfix around
/// an optional timestamp.
#[derive(Clone, Debug)]
pub struct Filename {
    pub timestamp: bool,
    pub prefix: String,
    pub postfix: String,
}

impl Default for Filename {
    /// By default the name is just the timestamp.
    fn default() -> (r: Filename)
        ensures
            r.timestamp && r.prefix@ == Seq::<char>::empty() && r.postfix@ == Seq::<
                char,
            >::empty(),
    {
        Filename { timestamp: true, prefix: String::new(), postfix: String::new() }
    }
}

/// What a filename pattern renders to, given the current timestamp
/// text: prefix, then the timestamp if requested (or if the name would
/// otherwise be empty), then the postfix.
pub open spec fn spec_filename(f: Filename, ts: Seq<char>) -> Seq<char> {
    if f.timestamp || (f.prefix@.len() == 0 && f.postfix@.len() == 0) {
        f.prefix@ + ts + f.postfix@
    } else {
        f.prefix@ + f.postfix@
    }
}

impl Filename {
    /// Render the pattern with the given timestamp text. The clock that
    /// produces the timestamp lives in the shell.
    pub fn to_name(&self, ts: &str) -> (r: String)
        ensures
            r@ == spec_filename(*self, ts@),
    {
        let mut name: String = self.prefix.clone();
        if self.timestamp || (self.prefix.as_str().unicode_len() == 0
            && self.postfix.as_str().unicode_len() == 0) {
            name.append(ts);
        }
        name.append(self.postfix.as_str());
        name
    }

    fn eq_fields(&self, other: &Filename) -> (r: bool)
        ensures
            r == spec_filename_eq(*self, *other),
    {
        self.timestamp == other.timestamp && self.prefix.eq(&other.prefix) && self.postfix.eq(
            &other.postfix,
        )
    }
}

/// Two filename patterns compare equal by their contents.
pub open spec fn spec_filename_eq(a: Filename, b: Filename) -> bool {
    a.timestamp == b.timestamp && a.prefix@ == b.prefix@ && a.postfix@ == b.postfix@
}

/// The whole configuration.
#[derive(Clone, Debug)]
pub struct Config {
    /// What the settings page is about to do; never persisted.
    pub status: Status,
    pub start_minimized: bool,
    /// Directory for default exports. The shell resolves the platform's
    /// pictures directory into it on startup.
    pub default_path: String,
    pub default_filename: Filename,
    /// System-wide hotkeys, registered by the shell.
    pub hotkeys: Vec<Binding>,
    /// Hotkeys handled inside the application.
    pub in_app_hotkeys: Vec<Binding>,
    pub is_dark: bool,
}

/// Two binding lists compare equal elementwise, each pair by shortcut.
pub open spec fn spec_bindings_eq(a: Seq<Binding>, b: Seq<Binding>) -> bool {
    a.len() == b.len() && forall|i: int|
        0 <= i < a.len() ==> spec_binding_eq(#[trigger] a[i], b[i])
}

fn bindings_eq(a: &Vec<Binding>, b: &Vec<Binding>) -> (r: bool)
    ensures
        r == spec_bindings_eq(a@, b@),
{
    if a.len() != b.len() {
        return false;
    }
    let mut i: usize = 0;
    while i < a.len()
        invariant
            i <= a@.len(),
            a@.len() == b@.len(),
            forall|j: int| 0 <= j < i ==> spec_binding_eq(#[trigger] a@[j], b@[j]),
        decreases a@.len() - i,
    {
        if !a[i].eq(&b[i]) {
            return false;
        }
        i = i + 1;
    }
    true
}

/// What configuration equality compares: everything but the transient
/// status.
pub open spec fn spec_config_eq(a: Config, b: Config) -> bool {
    &&& a.start_minimized == b.start_minimized
    &&& spec_bindings_eq(a.in_app_hotkeys@, b.in_app_hotkeys@)
    &&& spec_bindings_eq(a.hotkeys@, b.hotkeys@)
    &&& a.is_dark == b.is_dark
    &&& spec_filename_eq(a.default_filename, b.default_filename)
    &&& a.default_path@ == b.default_path@
}

impl PartialEq for Config {
    fn eq(&self, other: &Self) -> (r: bool) {
        self.start_minimized == other.start_minimized && bindings_eq(
            &self.in_app_hotkeys,
            &other.in_app_hotkeys,
        ) && bindings_eq(&self.hotkeys, &other.hotkeys) && self.is_dark == other.is_dark
            && self.default_filename.eq_fields(&other.default_filename) && self.default_path.eq(
            &other.default_path,
        )
    }
}

impl vstd::std_specs::cmp::PartialEqSpecImpl for Config {
    open spec fn obeys_eq_spec() -> bool {
        true
    }

    open spec fn eq_spec(&self, other: &Config) -> bool {
        spec_config_eq(*self, *other)
    }
}

fn in_app_binding(text: &str, combo: KeyCombo, action: HotKeyAction) -> (r: Binding)
    ensures
        r.id == 0 && r.key_bind@ == text@ && r.shortcut == Some(combo) && r.action == action,
{
    Binding { id: 0, key_bind: String::from_str(text), shortcut: Some(combo), action }
}

/// The key combination `Alt` plus a letter, optionally with `Shift`.
fn alt_combo(key: char, shift: bool) -> (r: KeyCombo)
    ensures
        r == (KeyCombo { ctrl: false, alt: true, shift, key }),
{
    KeyCombo { ctrl: false, alt: true, shift, key }
}

impl Config {
    /// The default in-app keybindings. The OS-level ids are zero here;
    /// the shell fills them in when it registers the bindings.
    pub fn default_in_app_keybindings() -> (r: Vec<Binding>)
        ensures
            r@.len() == 6,
            r@[0].action is Editor && r@[0].key_bind@ == "Alt+E"@ && r@[0].shortcut == Some(
                KeyCombo { ctrl: false, alt: true, shift: false, key: 'E' },
            ),
            r@[1].action is Clipboard && r@[1].key_bind@ == "Alt+Shift+C"@ && r@[1].shortcut
                == Some(KeyCombo { ctrl: false, alt: true, shift: true, key: 'C' }),
            r@[2].action is Save && r@[2].key_bind@ == "Alt+S"@ && r@[2].shortcut == Some(
                KeyCombo { ctrl: false, alt: true, shift: false, key: 'S' },
            ),
            r@[3].action is SaveDefault && r@[3].key_bind@ == "Alt+D"@ && r@[3].shortcut == Some(
                KeyCombo { ctrl: false, alt: true, shift: false, key: 'D' },
            ),
            r@[4].action is Settings && r@[4].key_bind@ == "Alt+I"@ && r@[4].shortcut == Some(
                KeyCombo { ctrl: false, alt: true, shift: false, key: 'I' },
            ),
            r@[5].action is Reset && r@[5].key_bind@ == "Alt+R"@ && r@[5].shortcut == Some(
                KeyCombo { ctrl: false, alt: true, shift: false, key: 'R' },
            ),
    {
        let mut r: Vec<Binding> = Vec::new();
        r.push(in_app_binding("Alt+E", alt_combo('E', false), HotKeyAction::Editor));
        r.push(in_app_binding("Alt+Shift+C", alt_combo('C', true), HotKeyAction::Clipboard));
        r.push(in_app_binding("Alt+S", alt_combo('S', false), HotKeyAction::Save));
        r.push(in_app_binding("Alt+D", alt_combo('D', false), HotKeyAction::SaveDefault));
        r.push(in_app_binding("Alt+I", alt_combo('I', false), HotKeyAction::Settings));
        r.push(in_app_binding("Alt+R", alt_combo('R', false), HotKeyAction::Reset));
        r
    }
}

impl Default for Config {
    /// The default configuration: dark, not minimized, timestamped
    /// filenames, one system-wide capture hotkey and the in-app set.
    /// The default export directory is left empty for the shell to
    /// resolve.
    fn default() -> (r: Config)
        ensures
            r.status is Normal,
            !r.start_minimized,
            r.default_path@ == Seq::<char>::empty(),
            r.default_filename.timestamp && r.default_filename.prefix@ == Seq::<char>::empty()
                && r.default_filename.postfix@ == Seq::<char>::empty(),
            r.hotkeys@.len() == 1 && r.hotkeys@[0].action is Capture && r.hotkeys@[0].key_bind@
                == "Alt+C"@,
            r.in_app_hotkeys@.len() == 6,
            r.is_dark,
    {
        let mut hotkeys: Vec<Binding> = Vec::new();
        hotkeys.push(in_app_binding("Alt+C", alt_combo('C', false), HotKeyAction::Capture));
        Config {
            status: Status::Normal,
            start_minimized: false,
            default_path: String::new(),
            default_filename: Filename::default(),
            hotkeys,
            in_app_hotkeys: Config::default_in_app_keybindings(),
            is_dark: true,
        }
    }
}

} // verus!
