//! Key-dispatch rules: how one character that a script asks for becomes a
//! synthetic input action.
use vstd::prelude::*;
use crate::focus::{after_key, needs_check, title_view, FocusGuard, WindowHandle};

verus! {

/// How characters are sent: as inserted text, or as key presses.
#[derive(PartialEq, Eq, Structural, Debug, Clone, Copy)]
pub enum InputMode {
    Character,
    Keyboard,
}

/// One synthetic input action.
#[derive(PartialEq, Eq, Structural, Debug, Clone, Copy)]
pub enum KeyAction {
    /// Insert the character as text.
    Text(char),
    /// Press the key of the character.
    Down(char),
    /// Release the key of the character.
    Up(char),
}

/// The mode that the script variable `input_mode` names: `"character"`
/// selects text insertion, anything else key presses.
pub open spec fn mode_named(name: Seq<char>) -> InputMode {
    if name == seq!['c', 'h', 'a', 'r', 'a', 'c', 't', 'e', 'r'] {
        InputMode::Character
    } else {
        InputMode::Keyboard
    }
}

/// The character with ASCII upper-case letters mapped to lower case.
pub open spec fn ascii_lower(c: char) -> char {
    if 'A' <= c && c <= 'Z' {
        ((c as u32) + 32) as char
    } else {
        c
    }
}

/// The action for character `c`: text in character mode, otherwise a key
/// press or release of the lower-cased character.
pub open spec fn action_for(c: char, is_up: bool, mode: InputMode) -> KeyAction {
    match mode {
        InputMode::Character => KeyAction::Text(c),
        InputMode::Keyboard => if is_up {
            KeyAction::Up(ascii_lower(c))
        } else {
            KeyAction::Down(ascii_lower(c))
        },
    }
}

/// Reads the value of the script variable `input_mode`.
pub fn input_mode_of(name: &str) -> (r: InputMode)
    ensures
        r == mode_named(name@),
{
    let lit = "character";
    proof {
        reveal_strlit("character");
    }
    assert(lit@ =~= seq!['c', 'h', 'a', 'r', 'a', 'c', 't', 'e', 'r']);
    let n = name.unicode_len();
    if n != lit.unicode_len() {
        return InputMode::Keyboard;
    }
    let mut i: usize = 0;
    while i < n
        invariant
            n == name@.len(),
            n == lit@.len(),
            lit@ == seq!['c', 'h', 'a', 'r', 'a', 'c', 't', 'e', 'r'],
            i <= n,
            forall|j: int| 0 <= j < i ==> name@[j] == lit@[j],
        decreases n - i,
    {
        if name.get_char(i) != lit.get_char(i) {
            assert(name@[i as int] != lit@[i as int]);
            assert(name@ != lit@);
            return InputMode::Keyboard;
        }
        i = i + 1;
    }
    assert(name@ =~= lit@);
    InputMode::Character
}

/// Reads the script variable `input_mode`, which may be unset: an unset or
/// unreadable variable means key presses.
pub fn input_mode_or_default(name: Option<&str>) -> (r: InputMode)
    ensures
        name is None ==> r == InputMode::Keyboard,
        name matches Some(n) ==> r == mode_named(n@),
{
    match name {
        Some(n) => input_mode_of(n),
        None => InputMode::Keyboard,
    }
}

/// Maps ASCII upper-case letters to lower case and leaves every other
/// character as it is.
pub fn to_ascii_lower(c: char) -> (r: char)
    ensures
        r == ascii_lower(c),
{
    if 'A' <= c && c <= 'Z' {
        ((c as u8) + 32) as char
    } else {
        c
    }
}

/// The action for character `c` in the given mode.
pub fn key_action(c: char, is_up: bool, mode: InputMode) -> (r: KeyAction)
    ensures
        r == action_for(c, is_up, mode),
{
    match mode {
        InputMode::Character => KeyAction::Text(c),
        InputMode::Keyboard => if is_up {
            KeyAction::Up(to_ascii_lower(c))
        } else {
            KeyAction::Down(to_ascii_lower(c))
        },
    }
}

/// The action for `c` once the guard is up to date with the foreground
/// window: none when the script rejected that window.
pub fn guarded_action(guard: &FocusGuard, c: char, is_up: bool, mode: InputMode) -> (r: Option<
    KeyAction,
>)
    ensures
        !guard@.accepts ==> r is None,
        guard@.accepts ==> r == Some(action_for(c, is_up, mode)),
{
    if guard.accepts() {
        Some(key_action(c, is_up, mode))
    } else {
        None
    }
}

/// One key of a script's key request, while `foreground` has focus.
/// `checked` holds the title of `foreground` and the script's `accepts`
/// answer for it, and is given exactly when `guard.changed(foreground)`, so
/// the script is asked only when focus moved. The guard takes the new
/// answer, then decides whether `c` is dispatched.
pub fn key_step(
    guard: &mut FocusGuard,
    foreground: WindowHandle,
    checked: Option<(Option<String>, bool)>,
    c: char,
    is_up: bool,
    mode: InputMode,
) -> (r: Option<KeyAction>)
    requires
        checked is Some <==> needs_check(old(guard)@, foreground),
    ensures
        checked matches Some((title, answer)) ==> final(guard)@ == after_key(
            old(guard)@,
            foreground,
            title_view(title),
            answer,
        ),
        checked is None ==> final(guard)@ == old(guard)@,
        !needs_check(final(guard)@, foreground),
        !final(guard)@.accepts ==> r is None,
        final(guard)@.accepts ==> r == Some(action_for(c, is_up, mode)),
{
    match checked {
        Some((title, answer)) => guard.record(foreground, title, answer),
        None => {},
    }
    guarded_action(guard, c, is_up, mode)
}

} // verus!
