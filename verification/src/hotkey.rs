//! Keyboard shortcuts written as `Modifier+Modifier+Key`.

use vstd::prelude::*;
use vstd::string::StringExecFns;
use crate::strings::{chars_of, chars_of_all, str_equals, string_of, strings_of};
use crate::text::{
    eq_ignoring_ascii_case, join, join_chars, join_of_split, rows, same_ignoring_ascii_case,
    split_chars, split_on,
};

verus! {

/// A shortcut: one key and the modifiers held with it.
#[derive(Debug, Clone)]
pub struct HotkeyConfig {
    pub key: String,
    pub modifiers: Vec<String>,
}

/// The mathematical content of a [`HotkeyConfig`].
pub struct HotkeyConfigView {
    pub key: Seq<char>,
    pub modifiers: Seq<Seq<char>>,
}

impl View for HotkeyConfig {
    type V = HotkeyConfigView;

    open spec fn view(&self) -> HotkeyConfigView {
        HotkeyConfigView { key: self.key@, modifiers: self.modifiers.deep_view() }
    }
}

/// The shortcut that a text stands for: its last piece between `+` signs is
/// the key, the pieces before it are the modifiers.
pub open spec fn parsed_shortcut(shortcut: Seq<char>) -> HotkeyConfigView {
    HotkeyConfigView {
        key: split_on(shortcut, '+').last(),
        modifiers: split_on(shortcut, '+').drop_last(),
    }
}

/// The text of a shortcut: the modifiers and then the key, with `+` between.
pub open spec fn shortcut_text(config: HotkeyConfigView) -> Seq<char> {
    join(config.modifiers.push(config.key), seq!['+'])
}

/// The shortcut that summons the window where the user has set none.
pub open spec fn default_hotkey(target_os: Seq<char>) -> Seq<char> {
    if target_os == "macos"@ {
        "Command+Shift+Space"@
    } else {
        "Control+Shift+Space"@
    }
}

/// The names under which a modifier may be written.
pub open spec fn modifier_names() -> Seq<Seq<char>> {
    seq![
        "Command"@,
        "Cmd"@,
        "Control"@,
        "Ctrl"@,
        "Alt"@,
        "Option"@,
        "Shift"@,
        "Super"@,
        "Meta"@,
    ]
}

/// The names of the letter and digit keys.
pub open spec fn character_key_names() -> Seq<Seq<char>> {
    seq![
        "A"@, "B"@, "C"@, "D"@, "E"@, "F"@, "G"@, "H"@, "I"@, "J"@, "K"@, "L"@, "M"@,
        "N"@, "O"@, "P"@, "Q"@, "R"@, "S"@, "T"@, "U"@, "V"@, "W"@, "X"@, "Y"@, "Z"@,
        "0"@, "1"@, "2"@, "3"@, "4"@, "5"@, "6"@, "7"@, "8"@, "9"@,
    ]
}

/// The names of the function keys.
pub open spec fn function_key_names() -> Seq<Seq<char>> {
    seq![
        "F1"@, "F2"@, "F3"@, "F4"@, "F5"@, "F6"@, "F7"@, "F8"@, "F9"@, "F10"@, "F11"@, "F12"@,
    ]
}

/// The names of the editing and navigation keys.
pub open spec fn control_key_names() -> Seq<Seq<char>> {
    seq![
        "Space"@, "Enter"@, "Tab"@, "Escape"@, "Backspace"@, "Delete"@, "Insert"@, "Home"@,
        "End"@, "PageUp"@, "PageDown"@, "ArrowUp"@, "ArrowDown"@, "ArrowLeft"@, "ArrowRight"@,
    ]
}

/// The names of the punctuation keys.
pub open spec fn punctuation_key_names() -> Seq<Seq<char>> {
    seq![
        "Grave"@, "Minus"@, "Equal"@, "BracketLeft"@, "BracketRight"@, "Backslash"@,
        "Semicolon"@, "Quote"@, "Comma"@, "Period"@, "Slash"@,
    ]
}

/// Whether `name` is one of `names`, whatever the case of its ASCII letters.
pub open spec fn named_in(names: Seq<Seq<char>>, name: Seq<char>) -> bool {
    exists|i: int| 0 <= i < names.len() && same_ignoring_ascii_case(#[trigger] names[i], name)
}

/// Whether `name` names a key.
pub open spec fn is_key_name(name: Seq<char>) -> bool {
    named_in(character_key_names(), name) || named_in(function_key_names(), name) || named_in(
        control_key_names(),
        name,
    ) || named_in(punctuation_key_names(), name)
}

/// Whether a text is a usable shortcut: at least one modifier, each of them
/// known, and then a known key.
pub open spec fn valid_hotkey(shortcut: Seq<char>) -> bool {
    let parts = split_on(shortcut, '+');
    &&& parts.len() > 1
    &&& is_key_name(parts.last())
    &&& forall|i: int| 0 <= i < parts.len() - 1 ==> named_in(modifier_names(), #[trigger] parts[i])
}

fn name_list(names: &Vec<&'static str>) -> (out: Vec<Vec<char>>)
    ensures
        out@.len() == names@.len(),
        forall|i: int| 0 <= i < out@.len() ==> (#[trigger] out@[i])@ == names@[i]@,
{
    let mut out: Vec<Vec<char>> = Vec::new();
    let mut i: usize = 0;
    while i < names.len()
        invariant
            i <= names.len(),
            out@.len() == i,
            forall|k: int| 0 <= k < i ==> (#[trigger] out@[k])@ == names@[k]@,
        decreases names.len() - i,
    {
        out.push(chars_of(names[i]));
        i += 1;
    }
    out
}

fn is_named_in(names: &Vec<Vec<char>>, name: &Vec<char>) -> (found: bool)
    ensures
        found == named_in(rows(names@), name@),
{
    let mut i: usize = 0;
    while i < names.len()
        invariant
            i <= names.len(),
            forall|k: int| 0 <= k < i ==> !same_ignoring_ascii_case(#[trigger] rows(names@)[k], name@),
        decreases names.len() - i,
    {
        if eq_ignoring_ascii_case(&names[i], name) {
            assert(same_ignoring_ascii_case(rows(names@)[i as int], name@));
            return true;
        }
        i += 1;
    }
    false
}

fn modifier_list() -> (out: Vec<Vec<char>>)
    ensures
        rows(out@) == modifier_names(),
{
    let names: Vec<&'static str> = vec![
        "Command", "Cmd", "Control", "Ctrl", "Alt", "Option", "Shift", "Super", "Meta",
    ];
    let out = name_list(&names);
    assert(rows(out@) =~= modifier_names());
    out
}

fn character_key_list() -> (out: Vec<Vec<char>>)
    ensures
        rows(out@) == character_key_names(),
{
    let names: Vec<&'static str> = vec![
        "A", "B", "C", "D", "E", "F", "G", "H", "I", "J", "K", "L", "M", "N", "O", "P", "Q", "R",
        "S", "T", "U", "V", "W", "X", "Y", "Z", "0", "1", "2", "3", "4", "5", "6", "7", "8", "9",
    ];
    let out = name_list(&names);
    assert(rows(out@) =~= character_key_names());
    out
}

fn function_key_list() -> (out: Vec<Vec<char>>)
    ensures
        rows(out@) == function_key_names(),
{
    let names: Vec<&'static str> = vec![
        "F1", "F2", "F3", "F4", "F5", "F6", "F7", "F8", "F9", "F10", "F11", "F12",
    ];
    let out = name_list(&names);
    assert(rows(out@) =~= function_key_names());
    out
}

fn control_key_list() -> (out: Vec<Vec<char>>)
    ensures
        rows(out@) == control_key_names(),
{
    let names: Vec<&'static str> = vec![
        "Space", "Enter", "Tab", "Escape", "Backspace", "Delete", "Insert", "Home", "End",
        "PageUp", "PageDown", "ArrowUp", "ArrowDown", "ArrowLeft", "ArrowRight",
    ];
    let out = name_list(&names);
    assert(rows(out@) =~= control_key_names());
    out
}

fn punctuation_key_list() -> (out: Vec<Vec<char>>)
    ensures
        rows(out@) == punctuation_key_names(),
{
    let names: Vec<&'static str> = vec![
        "Grave", "Minus", "Equal", "BracketLeft", "BracketRight", "Backslash", "Semicolon",
        "Quote", "Comma", "Period", "Slash",
    ];
    let out = name_list(&names);
    assert(rows(out@) =~= punctuation_key_names());
    out
}

impl HotkeyConfig {
    /// Reads a shortcut from its text.
    pub fn from_shortcut_string(shortcut: &str) -> (config: Self)
        ensures
            config@ == parsed_shortcut(shortcut@),
    {
        let text = chars_of(shortcut);
        let mut parts = split_chars(&text, '+');
        proof {
            join_of_split(text@, '+');
        }
        let ghost pieces = rows(parts@);
        let last = parts.pop();
        let key = match last {
            Some(key) => string_of(&key),
            None => String::from_str("Space"),
        };
        let modifiers = strings_of(&parts);
        proof {
            assert(rows(parts@) =~= pieces.drop_last());
            assert(key@ == pieces.last());
        }
        HotkeyConfig { key, modifiers }
    }

    /// Writes the shortcut as text.
    pub fn to_shortcut_string(&self) -> (text: String)
        ensures
            text@ == shortcut_text(self@),
    {
        let mut parts = chars_of_all(&self.modifiers);
        let key = chars_of(self.key.as_str());
        proof {
            assert(rows(parts@.push(key)) =~= self@.modifiers.push(self@.key));
        }
        parts.push(key);
        let mut sep: Vec<char> = Vec::new();
        sep.push('+');
        assert(sep@ =~= seq!['+']);
        let joined = join_chars(&parts, &sep);
        string_of(&joined)
    }
}

/// The shortcut that summons the window where the user has set none, by the
/// name of the build target.
pub fn get_default_hotkey(target_os: &str) -> (shortcut: String)
    ensures
        shortcut@ == default_hotkey(target_os@),
{
    if str_equals(target_os, "macos") {
        String::from_str("Command+Shift+Space")
    } else {
        String::from_str("Control+Shift+Space")
    }
}

/// Whether a text is a usable shortcut.
pub fn validate_hotkey(shortcut: &str) -> (valid: bool)
    ensures
        valid == valid_hotkey(shortcut@),
{
    let text = chars_of(shortcut);
    let parts = split_chars(&text, '+');
    proof {
        join_of_split(text@, '+');
    }
    let count = parts.len();
    let key = &parts[count - 1];
    assert(key@ == rows(parts@).last());
    let characters = character_key_list();
    let functions = function_key_list();
    let controls = control_key_list();
    let punctuation = punctuation_key_list();
    if !(is_named_in(&characters, key) || is_named_in(&functions, key) || is_named_in(
        &controls,
        key,
    ) || is_named_in(&punctuation, key)) {
        return false;
    }
    let modifiers = modifier_list();
    let mut i: usize = 0;
    while i < count - 1
        invariant
            i <= count - 1,
            count == parts@.len(),
            count >= 1,
            rows(parts@) == split_on(shortcut@, '+'),
            rows(modifiers@) == modifier_names(),
            forall|k: int| 0 <= k < i ==> named_in(modifier_names(), #[trigger] rows(parts@)[k]),
        decreases count - 1 - i,
    {
        if !is_named_in(&modifiers, &parts[i]) {
            assert(!named_in(modifier_names(), rows(parts@)[i as int]));
            return false;
        }
        i += 1;
    }
    count > 1
}

/// A shortcut that is read and written again is the text that was read.
pub proof fn shortcut_round_trip(shortcut: Seq<char>)
    ensures
        shortcut_text(parsed_shortcut(shortcut)) == shortcut,
{
    join_of_split(shortcut, '+');
    let parts = split_on(shortcut, '+');
    assert(parts.drop_last().push(parts.last()) =~= parts);
}

/// A shortcut without a modifier is never valid, and neither is one that
/// ends in a `+`.
pub proof fn bare_key_is_invalid(shortcut: Seq<char>)
    requires
        forall|k: int| 0 <= k < shortcut.len() ==> shortcut[k] != '+',
    ensures
        !valid_hotkey(shortcut),
{
    crate::text::first_index_is(shortcut, '+', shortcut.len() as int);
}

} // verus!
