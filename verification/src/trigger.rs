//! The trigger-string grammar for the direct-grab backend.
//!
//! A trigger reads as modifier names separated by `+`, ending in one key
//! name: `ctrl+space`, `ctrl+shift+f5`, `escape`.  Matching ignores ASCII
//! case.  Keys are letters, digits, the function keys, and a fixed set of
//! named keys; modifiers are `ctrl`/`control`, `shift`, `alt`/`option`,
//! and `super`/`meta`/`cmd`/`command`.

use vstd::prelude::*;

use crate::text::{lowered, lowered_char_at, u32s};

verus! {

/// The non-modifier key of a combination.
#[derive(Debug, Clone, Copy, PartialEq, Eq, Structural)]
pub enum Key {
    Space,
    Escape,
    Tab,
    Enter,
    Backspace,
    Delete,
    Up,
    Down,
    Left,
    Right,
    Home,
    End,
    PageUp,
    PageDown,
    /// A letter or digit, held as its lowercase ASCII scalar value.
    Character(u8),
    /// A function key, numbered 1 through 12.
    Function(u8),
}

/// A structured key combination: the modifier set and the key.
#[derive(Debug, Clone, Copy, PartialEq, Eq, Structural)]
pub struct KeyCombo {
    pub ctrl: bool,
    pub shift: bool,
    pub alt: bool,
    pub meta: bool,
    pub key: Key,
}

/// One modifier name.
#[derive(Debug, Clone, Copy, PartialEq, Eq, Structural)]
pub enum ModifierKind {
    Ctrl,
    Shift,
    Alt,
    Meta,
}

/// The position of the first `+` in `s`, or `s.len()` when there is none.
pub open spec fn first_plus(s: Seq<char>) -> int
    decreases s.len(),
{
    if s.len() == 0 {
        0
    } else if s[0] == '+' {
        0
    } else {
        1 + first_plus(s.skip(1))
    }
}

/// `first_plus` is in range, everything before it is not `+`, and when it
/// is in bounds it points at a `+`.
pub proof fn lemma_first_plus(s: Seq<char>)
    ensures
        0 <= first_plus(s) <= s.len(),
        forall|j: int| 0 <= j < first_plus(s) ==> s[j] != '+',
        first_plus(s) < s.len() ==> s[first_plus(s)] == '+',
    decreases s.len(),
{
    if s.len() > 0 && s[0] != '+' {
        let rest = s.skip(1);
        lemma_first_plus(rest);
        assert forall|j: int| 0 <= j < first_plus(s) implies s[j] != '+' by {
            if j > 0 {
                assert(s[j] == rest[j - 1]);
            }
        }
        if first_plus(s) < s.len() {
            assert(s[first_plus(s)] == rest[first_plus(rest)]);
        }
    }
}

/// `first_plus` is the one position with no `+` before it that is either
/// the end or a `+`.
pub proof fn lemma_first_plus_is(s: Seq<char>, k: int)
    requires
        0 <= k <= s.len(),
        forall|j: int| 0 <= j < k ==> s[j] != '+',
        k == s.len() || s[k] == '+',
    ensures
        first_plus(s) == k,
    decreases s.len(),
{
    if s.len() > 0 && s[0] != '+' {
        let rest = s.skip(1);
        assert forall|j: int| 0 <= j < k - 1 implies rest[j] != '+' by {
            assert(rest[j] == s[j + 1]);
        }
        if k < s.len() {
            assert(rest[k - 1] == s[k]);
        }
        lemma_first_plus_is(rest, k - 1);
    }
}

/// The key named by a (lowercased) token, if any.
pub open spec fn key_of_token(t: Seq<u32>) -> Option<Key> {
    if t == u32s("space"@) {
        Some(Key::Space)
    } else if t == u32s("escape"@) || t == u32s("esc"@) {
        Some(Key::Escape)
    } else if t == u32s("tab"@) {
        Some(Key::Tab)
    } else if t == u32s("enter"@) || t == u32s("return"@) {
        Some(Key::Enter)
    } else if t == u32s("backspace"@) {
        Some(Key::Backspace)
    } else if t == u32s("delete"@) {
        Some(Key::Delete)
    } else if t == u32s("up"@) {
        Some(Key::Up)
    } else if t == u32s("down"@) {
        Some(Key::Down)
    } else if t == u32s("left"@) {
        Some(Key::Left)
    } else if t == u32s("right"@) {
        Some(Key::Right)
    } else if t == u32s("home"@) {
        Some(Key::Home)
    } else if t == u32s("end"@) {
        Some(Key::End)
    } else if t == u32s("pageup"@) {
        Some(Key::PageUp)
    } else if t == u32s("pagedown"@) {
        Some(Key::PageDown)
    } else if t == u32s("f1"@) {
        Some(Key::Function(1))
    } else if t == u32s("f2"@) {
        Some(Key::Function(2))
    } else if t == u32s("f3"@) {
        Some(Key::Function(3))
    } else if t == u32s("f4"@) {
        Some(Key::Function(4))
    } else if t == u32s("f5"@) {
        Some(Key::Function(5))
    } else if t == u32s("f6"@) {
        Some(Key::Function(6))
    } else if t == u32s("f7"@) {
        Some(Key::Function(7))
    } else if t == u32s("f8"@) {
        Some(Key::Function(8))
    } else if t == u32s("f9"@) {
        Some(Key::Function(9))
    } else if t == u32s("f10"@) {
        Some(Key::Function(10))
    } else if t == u32s("f11"@) {
        Some(Key::Function(11))
    } else if t == u32s("f12"@) {
        Some(Key::Function(12))
    } else if t.len() == 1 && (97 <= t[0] <= 122 || 48 <= t[0] <= 57) {
        Some(Key::Character(t[0] as u8))
    } else {
        None
    }
}

/// The modifier named by a (lowercased) token, if any.
pub open spec fn modifier_of_token(t: Seq<u32>) -> Option<ModifierKind> {
    if t == u32s("ctrl"@) || t == u32s("control"@) {
        Some(ModifierKind::Ctrl)
    } else if t == u32s("shift"@) {
        Some(ModifierKind::Shift)
    } else if t == u32s("alt"@) || t == u32s("option"@) {
        Some(ModifierKind::Alt)
    } else if t == u32s("super"@) || t == u32s("meta"@) || t == u32s("cmd"@) || t == u32s(
        "command"@,
    ) {
        Some(ModifierKind::Meta)
    } else {
        None
    }
}

/// Parses the remainder of a trigger, with the modifiers seen so far.
pub open spec fn spec_parse_rec(
    s: Seq<char>,
    ctrl: bool,
    shift: bool,
    alt: bool,
    meta: bool,
) -> Option<KeyCombo>
    decreases s.len(),
    via spec_parse_rec_dec
{
    let cut = first_plus(s);
    let token = lowered(s.subrange(0, cut));
    if cut == s.len() {
        match key_of_token(token) {
            Some(k) => Some(KeyCombo { ctrl, shift, alt, meta, key: k }),
            None => None,
        }
    } else {
        let rest = s.subrange(cut + 1, s.len() as int);
        match modifier_of_token(token) {
            Some(ModifierKind::Ctrl) => spec_parse_rec(rest, true, shift, alt, meta),
            Some(ModifierKind::Shift) => spec_parse_rec(rest, ctrl, true, alt, meta),
            Some(ModifierKind::Alt) => spec_parse_rec(rest, ctrl, shift, true, meta),
            Some(ModifierKind::Meta) => spec_parse_rec(rest, ctrl, shift, alt, true),
            None => None,
        }
    }
}

#[via_fn]
proof fn spec_parse_rec_dec(s: Seq<char>, ctrl: bool, shift: bool, alt: bool, meta: bool) {
    lemma_first_plus(s);
}

/// What a whole trigger string parses to, if anything.
pub open spec fn spec_parse_trigger(s: Seq<char>) -> Option<KeyCombo> {
    spec_parse_rec(s, false, false, false, false)
}

/// Compares the ASCII-lowercased characters `a..b` of `s` with `lit`.
fn token_eq(s: &str, a: usize, b: usize, lit: &str) -> (r: bool)
    requires
        a <= b <= s@.len(),
    ensures
        r == (lowered(s@.subrange(a as int, b as int)) == u32s(lit@)),
{
    let ln = lit.unicode_len();
    if b - a != ln {
        assert(lowered(s@.subrange(a as int, b as int)).len() == b - a);
        assert(u32s(lit@).len() == ln);
        return false;
    }
    for k in 0..ln
        invariant
            a <= b <= s@.len(),
            ln == lit@.len(),
            b - a == ln,
            forall|j: int|
                0 <= j < k ==> lowered(s@.subrange(a as int, b as int))[j] == u32s(lit@)[j],
    {
        if lowered_char_at(s, a + k) != lit.get_char(k) as u32 {
            assert(lowered(s@.subrange(a as int, b as int))[k as int] != u32s(lit@)[k as int]);
            return false;
        }
        assert(lowered(s@.subrange(a as int, b as int))[k as int] == u32s(lit@)[k as int]);
    }
    assert(lowered(s@.subrange(a as int, b as int)) =~= u32s(lit@));
    true
}

/// Classifies the characters `a..b` of `s` as a key name.
fn classify_key(s: &str, a: usize, b: usize) -> (r: Option<Key>)
    requires
        a <= b <= s@.len(),
    ensures
        r == key_of_token(lowered(s@.subrange(a as int, b as int))),
{
    if token_eq(s, a, b, "space") {
        Some(Key::Space)
    } else if token_eq(s, a, b, "escape") || token_eq(s, a, b, "esc") {
        Some(Key::Escape)
    } else if token_eq(s, a, b, "tab") {
        Some(Key::Tab)
    } else if token_eq(s, a, b, "enter") || token_eq(s, a, b, "return") {
        Some(Key::Enter)
    } else if token_eq(s, a, b, "backspace") {
        Some(Key::Backspace)
    } else if token_eq(s, a, b, "delete") {
        Some(Key::Delete)
    } else if token_eq(s, a, b, "up") {
        Some(Key::Up)
    } else if token_eq(s, a, b, "down") {
        Some(Key::Down)
    } else if token_eq(s, a, b, "left") {
        Some(Key::Left)
    } else if token_eq(s, a, b, "right") {
        Some(Key::Right)
    } else if token_eq(s, a, b, "home") {
        Some(Key::Home)
    } else if token_eq(s, a, b, "end") {
        Some(Key::End)
    } else if token_eq(s, a, b, "pageup") {
        Some(Key::PageUp)
    } else if token_eq(s, a, b, "pagedown") {
        Some(Key::PageDown)
    } else if token_eq(s, a, b, "f1") {
        Some(Key::Function(1))
    } else if token_eq(s, a, b, "f2") {
        Some(Key::Function(2))
    } else if token_eq(s, a, b, "f3") {
        Some(Key::Function(3))
    } else if token_eq(s, a, b, "f4") {
        Some(Key::Function(4))
    } else if token_eq(s, a, b, "f5") {
        Some(Key::Function(5))
    } else if token_eq(s, a, b, "f6") {
        Some(Key::Function(6))
    } else if token_eq(s, a, b, "f7") {
        Some(Key::Function(7))
    } else if token_eq(s, a, b, "f8") {
        Some(Key::Function(8))
    } else if token_eq(s, a, b, "f9") {
        Some(Key::Function(9))
    } else if token_eq(s, a, b, "f10") {
        Some(Key::Function(10))
    } else if token_eq(s, a, b, "f11") {
        Some(Key::Function(11))
    } else if token_eq(s, a, b, "f12") {
        Some(Key::Function(12))
    } else if b - a == 1 {
        let x = lowered_char_at(s, a);
        assert(x == lowered(s@.subrange(a as int, b as int))[0]);
        if (97 <= x && x <= 122) || (48 <= x && x <= 57) {
            Some(Key::Character(x as u8))
        } else {
            None
        }
    } else {
        None
    }
}

/// Classifies the characters `a..b` of `s` as a modifier name.
fn classify_modifier(s: &str, a: usize, b: usize) -> (r: Option<ModifierKind>)
    requires
        a <= b <= s@.len(),
    ensures
        r == modifier_of_token(lowered(s@.subrange(a as int, b as int))),
{
    if token_eq(s, a, b, "ctrl") || token_eq(s, a, b, "control") {
        Some(ModifierKind::Ctrl)
    } else if token_eq(s, a, b, "shift") {
        Some(ModifierKind::Shift)
    } else if token_eq(s, a, b, "alt") || token_eq(s, a, b, "option") {
        Some(ModifierKind::Alt)
    } else if token_eq(s, a, b, "super") || token_eq(s, a, b, "meta") || token_eq(s, a, b, "cmd")
        || token_eq(s, a, b, "command") {
        Some(ModifierKind::Meta)
    } else {
        None
    }
}

/// Parses the trigger text from position `pos` on.
fn parse_rec(s: &str, pos: usize, ctrl: bool, shift: bool, alt: bool, meta: bool) -> (r: Option<
    KeyCombo,
>)
    requires
        pos <= s@.len(),
    ensures
        r == spec_parse_rec(s@.subrange(pos as int, s@.len() as int), ctrl, shift, alt, meta),
    decreases s@.len() - pos,
{
    let ghost tail = s@.subrange(pos as int, s@.len() as int);
    let n = s.unicode_len();
    let mut cut = pos;
    loop
        invariant
            pos <= cut <= n,
            n == s@.len(),
            forall|j: int| pos <= j < cut ==> s@[j] != '+',
        ensures
            pos <= cut <= n,
            forall|j: int| pos <= j < cut ==> s@[j] != '+',
            cut == n || s@[cut as int] == '+',
        decreases n - cut,
    {
        if cut == n {
            break ;
        }
        if s.get_char(cut) == '+' {
            break ;
        }
        cut = cut + 1;
    }
    proof {
        assert forall|j: int| 0 <= j < cut - pos implies tail[j] != '+' by {
            assert(tail[j] == s@[pos + j]);
        }
        if cut < n {
            assert(tail[cut - pos] == s@[cut as int]);
        }
        lemma_first_plus_is(tail, cut - pos);
        assert(tail.subrange(0, cut - pos) =~= s@.subrange(pos as int, cut as int));
    }
    if cut == n {
        match classify_key(s, pos, cut) {
            Some(k) => Some(KeyCombo { ctrl, shift, alt, meta, key: k }),
            None => None,
        }
    } else {
        proof {
            assert(tail.subrange(cut - pos + 1, tail.len() as int) =~= s@.subrange(
                cut + 1,
                s@.len() as int,
            ));
        }
        match classify_modifier(s, pos, cut) {
            Some(ModifierKind::Ctrl) => parse_rec(s, cut + 1, true, shift, alt, meta),
            Some(ModifierKind::Shift) => parse_rec(s, cut + 1, ctrl, true, alt, meta),
            Some(ModifierKind::Alt) => parse_rec(s, cut + 1, ctrl, shift, true, meta),
            Some(ModifierKind::Meta) => parse_rec(s, cut + 1, ctrl, shift, alt, true),
            None => None,
        }
    }
}

/// Parses a trigger string into a structured key combination; an
/// unparsable string yields a descriptive error naming the input.
pub fn parse_trigger(s: &str) -> (r: Result<KeyCombo, String>)
    ensures
        match spec_parse_trigger(s@) {
            Some(c) => r matches Ok(rc) && rc == c,
            None => r matches Err(e) && e@ == "Invalid shortcut: "@ + s@,
        },
{
    proof {
        assert(s@.subrange(0, s@.len() as int) =~= s@);
    }
    match parse_rec(s, 0, false, false, false, false) {
        Some(c) => Ok(c),
        None => Err(String::from_str("Invalid shortcut: ").concat(s)),
    }
}

/// Whether a trigger string is valid in the grammar.
pub fn is_valid_trigger(s: &str) -> (r: bool)
    ensures
        r == (spec_parse_trigger(s@) is Some),
{
    proof {
        assert(s@.subrange(0, s@.len() as int) =~= s@);
    }
    match parse_rec(s, 0, false, false, false, false) {
        Some(_) => true,
        None => false,
    }
}

} // verus!
