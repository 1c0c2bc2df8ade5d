//! Hotkey binding strings.
//!
//! A binding such as "ctrl+alt+l" is parsed into the modifier mask and the
//! virtual-key code that global hotkey registration needs. Registering the
//! hotkeys and running their message loop happen outside the library; only
//! the parsing lives here.

use vstd::prelude::*;
use vstd::string::StrSliceExecFns;

verus! {

/// Modifier mask bit for the Alt key.
pub const MOD_ALT_MASK: u32 = 0x1;

/// Modifier mask bit for the Control key.
pub const MOD_CONTROL_MASK: u32 = 0x2;

/// Modifier mask bit for the Shift key.
pub const MOD_SHIFT_MASK: u32 = 0x4;

/// Identifier under which the toggle-visibility hotkey is registered.
pub const HOTKEY_TOGGLE: i32 = 1;

/// Identifier under which the exit hotkey is registered.
pub const HOTKEY_EXIT: i32 = 2;

/// The blank characters trimmed around a binding part.
pub open spec fn spec_is_space(c: char) -> bool {
    c == ' ' || c == '\t'
}

/// A part without its leading blanks.
pub open spec fn spec_trim_start(s: Seq<char>) -> Seq<char>
    decreases s.len(),
{
    if s.len() > 0 && spec_is_space(s[0]) {
        spec_trim_start(s.drop_first())
    } else {
        s
    }
}

/// A part without its trailing blanks.
pub open spec fn spec_trim_end(s: Seq<char>) -> Seq<char>
    decreases s.len(),
{
    if s.len() > 0 && spec_is_space(s.last()) {
        spec_trim_end(s.drop_last())
    } else {
        s
    }
}

/// A part without its surrounding blanks.
pub open spec fn spec_trim(s: Seq<char>) -> Seq<char> {
    spec_trim_end(spec_trim_start(s))
}

/// An uppercase ASCII letter folded to lowercase; other characters stay.
pub open spec fn spec_lower_char(c: char) -> char {
    let u = c as u32;
    if 65 <= u <= 90 {
        ((u + 32) as u8) as char
    } else {
        c
    }
}

/// A string folded to lowercase, character by character.
pub open spec fn spec_to_lower(s: Seq<char>) -> Seq<char> {
    Seq::new(s.len(), |i: int| spec_lower_char(s[i]))
}

/// The virtual-key code a (lowercased, trimmed) key name stands for.
pub open spec fn spec_vk_code(s: Seq<char>) -> Option<u32> {
    if s == "a"@ {
        Option::Some(0x41)
    } else if s == "b"@ {
        Option::Some(0x42)
    } else if s == "c"@ {
        Option::Some(0x43)
    } else if s == "d"@ {
        Option::Some(0x44)
    } else if s == "e"@ {
        Option::Some(0x45)
    } else if s == "f"@ {
        Option::Some(0x46)
    } else if s == "g"@ {
        Option::Some(0x47)
    } else if s == "h"@ {
        Option::Some(0x48)
    } else if s == "i"@ {
        Option::Some(0x49)
    } else if s == "j"@ {
        Option::Some(0x4A)
    } else if s == "k"@ {
        Option::Some(0x4B)
    } else if s == "l"@ {
        Option::Some(0x4C)
    } else if s == "m"@ {
        Option::Some(0x4D)
    } else if s == "n"@ {
        Option::Some(0x4E)
    } else if s == "o"@ {
        Option::Some(0x4F)
    } else if s == "p"@ {
        Option::Some(0x50)
    } else if s == "q"@ {
        Option::Some(0x51)
    } else if s == "r"@ {
        Option::Some(0x52)
    } else if s == "s"@ {
        Option::Some(0x53)
    } else if s == "t"@ {
        Option::Some(0x54)
    } else if s == "u"@ {
        Option::Some(0x55)
    } else if s == "v"@ {
        Option::Some(0x56)
    } else if s == "w"@ {
        Option::Some(0x57)
    } else if s == "x"@ {
        Option::Some(0x58)
    } else if s == "y"@ {
        Option::Some(0x59)
    } else if s == "z"@ {
        Option::Some(0x5A)
    } else if s == "0"@ {
        Option::Some(0x30)
    } else if s == "1"@ {
        Option::Some(0x31)
    } else if s == "2"@ {
        Option::Some(0x32)
    } else if s == "3"@ {
        Option::Some(0x33)
    } else if s == "4"@ {
        Option::Some(0x34)
    } else if s == "5"@ {
        Option::Some(0x35)
    } else if s == "6"@ {
        Option::Some(0x36)
    } else if s == "7"@ {
        Option::Some(0x37)
    } else if s == "8"@ {
        Option::Some(0x38)
    } else if s == "9"@ {
        Option::Some(0x39)
    } else if s == "f1"@ {
        Option::Some(0x70)
    } else if s == "f2"@ {
        Option::Some(0x71)
    } else if s == "f3"@ {
        Option::Some(0x72)
    } else if s == "f4"@ {
        Option::Some(0x73)
    } else if s == "f5"@ {
        Option::Some(0x74)
    } else if s == "f6"@ {
        Option::Some(0x75)
    } else if s == "f7"@ {
        Option::Some(0x76)
    } else if s == "f8"@ {
        Option::Some(0x77)
    } else if s == "f9"@ {
        Option::Some(0x78)
    } else if s == "f10"@ {
        Option::Some(0x79)
    } else if s == "f11"@ {
        Option::Some(0x7A)
    } else if s == "f12"@ {
        Option::Some(0x7B)
    } else if s == "space"@ {
        Option::Some(0x20)
    } else if s == "enter"@ {
        Option::Some(0xD)
    } else if s == "escape"@ {
        Option::Some(0x1B)
    } else if s == "tab"@ {
        Option::Some(0x9)
    } else {
        Option::None
    }
}

/// Folds one binding part into the accumulated modifier mask and key code:
/// modifier names set their mask bit; a known key name becomes the key
/// code (a later one wins); an unknown part changes nothing.
pub open spec fn spec_apply_part(part: Seq<char>, modifiers: u32, vk: Option<u32>) -> (
    u32,
    Option<u32>,
) {
    let p = spec_trim(part);
    if p == "ctrl"@ || p == "control"@ {
        (modifiers | MOD_CONTROL_MASK, vk)
    } else if p == "alt"@ {
        (modifiers | MOD_ALT_MASK, vk)
    } else if p == "shift"@ {
        (modifiers | MOD_SHIFT_MASK, vk)
    } else {
        match spec_vk_code(p) {
            Option::Some(code) => (modifiers, Option::Some(code)),
            Option::None => (modifiers, vk),
        }
    }
}

/// Walks a (lowercased) binding left to right, splitting on '+' and
/// folding each part in turn.
pub open spec fn spec_parse_chars(
    s: Seq<char>,
    part: Seq<char>,
    modifiers: u32,
    vk: Option<u32>,
) -> (u32, Option<u32>)
    decreases s.len(),
{
    if s.len() == 0 {
        spec_apply_part(part, modifiers, vk)
    } else if s[0] == '+' {
        let folded = spec_apply_part(part, modifiers, vk);
        spec_parse_chars(s.drop_first(), Seq::empty(), folded.0, folded.1)
    } else {
        spec_parse_chars(s.drop_first(), part.push(s[0]), modifiers, vk)
    }
}

/// The modifier mask and virtual-key code of a binding string, or nothing
/// when no part names a key.
pub open spec fn spec_parse_hotkey(s: Seq<char>) -> Option<(u32, u32)> {
    let folded = spec_parse_chars(spec_to_lower(s), Seq::empty(), 0, Option::None);
    match folded.1 {
        Option::Some(code) => Option::Some((folded.0, code)),
        Option::None => Option::None,
    }
}

fn chars_eq_str(v: &Vec<char>, s: &str) -> (r: bool)
    ensures
        r == (v@ == s@),
{
    let n = s.unicode_len();
    if v.len() != n {
        proof {
            assert(v@.len() != s@.len());
        }
        return false;
    }
    let mut i: usize = 0;
    while i < n
        invariant
            i <= n,
            n == s@.len(),
            v@.len() == n,
            forall|j: int| 0 <= j < i ==> v@[j] == s@[j],
        decreases n - i,
    {
        if v[i] != s.get_char(i) {
            return false;
        }
        i = i + 1;
    }
    proof {
        assert(v@ =~= s@);
    }
    true
}

fn vk_code_for(part: &Vec<char>) -> (r: Option<u32>)
    ensures
        r == spec_vk_code(part@),
{
    if chars_eq_str(part, "a") {
        Option::Some(0x41)
    } else if chars_eq_str(part, "b") {
        Option::Some(0x42)
    } else if chars_eq_str(part, "c") {
        Option::Some(0x43)
    } else if chars_eq_str(part, "d") {
        Option::Some(0x44)
    } else if chars_eq_str(part, "e") {
        Option::Some(0x45)
    } else if chars_eq_str(part, "f") {
        Option::Some(0x46)
    } else if chars_eq_str(part, "g") {
        Option::Some(0x47)
    } else if chars_eq_str(part, "h") {
        Option::Some(0x48)
    } else if chars_eq_str(part, "i") {
        Option::Some(0x49)
    } else if chars_eq_str(part, "j") {
        Option::Some(0x4A)
    } else if chars_eq_str(part, "k") {
        Option::Some(0x4B)
    } else if chars_eq_str(part, "l") {
        Option::Some(0x4C)
    } else if chars_eq_str(part, "m") {
        Option::Some(0x4D)
    } else if chars_eq_str(part, "n") {
        Option::Some(0x4E)
    } else if chars_eq_str(part, "o") {
        Option::Some(0x4F)
    } else if chars_eq_str(part, "p") {
        Option::Some(0x50)
    } else if chars_eq_str(part, "q") {
        Option::Some(0x51)
    } else if chars_eq_str(part, "r") {
        Option::Some(0x52)
    } else if chars_eq_str(part, "s") {
        Option::Some(0x53)
    } else if chars_eq_str(part, "t") {
        Option::Some(0x54)
    } else if chars_eq_str(part, "u") {
        Option::Some(0x55)
    } else if chars_eq_str(part, "v") {
        Option::Some(0x56)
    } else if chars_eq_str(part, "w") {
        Option::Some(0x57)
    } else if chars_eq_str(part, "x") {
        Option::Some(0x58)
    } else if chars_eq_str(part, "y") {
        Option::Some(0x59)
    } else if chars_eq_str(part, "z") {
        Option::Some(0x5A)
    } else if chars_eq_str(part, "0") {
        Option::Some(0x30)
    } else if chars_eq_str(part, "1") {
        Option::Some(0x31)
    } else if chars_eq_str(part, "2") {
        Option::Some(0x32)
    } else if chars_eq_str(part, "3") {
        Option::Some(0x33)
    } else if chars_eq_str(part, "4") {
        Option::Some(0x34)
    } else if chars_eq_str(part, "5") {
        Option::Some(0x35)
    } else if chars_eq_str(part, "6") {
        Option::Some(0x36)
    } else if chars_eq_str(part, "7") {
        Option::Some(0x37)
    } else if chars_eq_str(part, "8") {
        Option::Some(0x38)
    } else if chars_eq_str(part, "9") {
        Option::Some(0x39)
    } else if chars_eq_str(part, "f1") {
        Option::Some(0x70)
    } else if chars_eq_str(part, "f2") {
        Option::Some(0x71)
    } else if chars_eq_str(part, "f3") {
        Option::Some(0x72)
    } else if chars_eq_str(part, "f4") {
        Option::Some(0x73)
    } else if chars_eq_str(part, "f5") {
        Option::Some(0x74)
    } else if chars_eq_str(part, "f6") {
        Option::Some(0x75)
    } else if chars_eq_str(part, "f7") {
        Option::Some(0x76)
    } else if chars_eq_str(part, "f8") {
        Option::Some(0x77)
    } else if chars_eq_str(part, "f9") {
        Option::Some(0x78)
    } else if chars_eq_str(part, "f10") {
        Option::Some(0x79)
    } else if chars_eq_str(part, "f11") {
        Option::Some(0x7A)
    } else if chars_eq_str(part, "f12") {
        Option::Some(0x7B)
    } else if chars_eq_str(part, "space") {
        Option::Some(0x20)
    } else if chars_eq_str(part, "enter") {
        Option::Some(0xD)
    } else if chars_eq_str(part, "escape") {
        Option::Some(0x1B)
    } else if chars_eq_str(part, "tab") {
        Option::Some(0x9)
    } else {
        Option::None
    }
}

proof fn lemma_trim_start_skip(s: Seq<char>, a: int)
    requires
        0 <= a <= s.len(),
        forall|j: int| 0 <= j < a ==> spec_is_space(#[trigger] s[j]),
        a < s.len() ==> !spec_is_space(s[a]),
    ensures
        spec_trim_start(s) == s.skip(a),
    decreases a,
{
    if a > 0 {
        assert(spec_is_space(s[0]));
        lemma_trim_start_skip(s.drop_first(), a - 1);
        assert(s.drop_first().skip(a - 1) =~= s.skip(a));
    } else {
        assert(s.skip(0) =~= s);
    }
}

proof fn lemma_trim_end_take(s: Seq<char>, b: int)
    requires
        0 <= b <= s.len(),
        forall|j: int| b <= j < s.len() ==> spec_is_space(#[trigger] s[j]),
        b > 0 ==> !spec_is_space(s[b - 1]),
    ensures
        spec_trim_end(s) == s.take(b),
    decreases s.len() - b,
{
    if b < s.len() {
        assert(spec_is_space(s.last()));
        lemma_trim_end_take(s.drop_last(), b);
        assert(s.drop_last().take(b) =~= s.take(b));
    } else {
        assert(s.take(s.len() as int) =~= s);
        if s.len() > 0 {
            assert(!spec_is_space(s.last()));
        }
    }
}

fn is_space_char(c: char) -> (r: bool)
    ensures
        r == spec_is_space(c),
{
    c == ' ' || c == '\t'
}

fn trim_chars(v: &Vec<char>) -> (r: Vec<char>)
    ensures
        r@ == spec_trim(v@),
{
    let mut a: usize = 0;
    while a < v.len()
        invariant_except_break
            a <= v@.len(),
            forall|j: int| 0 <= j < a ==> spec_is_space(#[trigger] v@[j]),
        ensures
            a <= v@.len(),
            forall|j: int| 0 <= j < a ==> spec_is_space(#[trigger] v@[j]),
            a < v@.len() ==> !spec_is_space(v@[a as int]),
        decreases v@.len() - a,
    {
        if !is_space_char(v[a]) {
            break;
        }
        a = a + 1;
    }
    proof {
        lemma_trim_start_skip(v@, a as int);
    }
    let ghost t = v@.skip(a as int);
    let mut b: usize = v.len();
    while b > a
        invariant_except_break
            a <= b <= v@.len(),
            t == v@.skip(a as int),
            forall|j: int| b <= j < v@.len() ==> spec_is_space(#[trigger] v@[j]),
        ensures
            a <= b <= v@.len(),
            forall|j: int| b <= j < v@.len() ==> spec_is_space(#[trigger] v@[j]),
            b > a ==> !spec_is_space(v@[b - 1]),
        decreases b,
    {
        if !is_space_char(v[b - 1]) {
            break;
        }
        b = b - 1;
    }
    proof {
        assert forall|j: int| (b - a) <= j < t.len() implies spec_is_space(#[trigger] t[j]) by {
            assert(t[j] == v@[a + j]);
        }
        if b > a {
            assert(t[b - a - 1] == v@[b - 1]);
        }
        lemma_trim_end_take(t, b - a);
    }
    let mut r: Vec<char> = Vec::new();
    let mut i: usize = a;
    while i < b
        invariant
            a <= i <= b <= v@.len(),
            r@.len() == i - a,
            forall|j: int| 0 <= j < r@.len() ==> r@[j] == v@[a + j],
        decreases b - i,
    {
        r.push(v[i]);
        i = i + 1;
    }
    proof {
        assert(r@ =~= t.take(b - a));
    }
    r
}

fn apply_part(part: &Vec<char>, modifiers: u32, vk: Option<u32>) -> (r: (u32, Option<u32>))
    ensures
        r == spec_apply_part(part@, modifiers, vk),
{
    let p = trim_chars(part);
    if chars_eq_str(&p, "ctrl") || chars_eq_str(&p, "control") {
        (modifiers | MOD_CONTROL_MASK, vk)
    } else if chars_eq_str(&p, "alt") {
        (modifiers | MOD_ALT_MASK, vk)
    } else if chars_eq_str(&p, "shift") {
        (modifiers | MOD_SHIFT_MASK, vk)
    } else {
        match vk_code_for(&p) {
            Option::Some(code) => (modifiers, Option::Some(code)),
            Option::None => (modifiers, vk),
        }
    }
}

fn lower_char(c: char) -> (r: char)
    ensures
        r == spec_lower_char(c),
{
    let u = c as u32;
    if 65 <= u && u <= 90 {
        ((u + 32) as u8) as char
    } else {
        c
    }
}

/// Parses a binding string such as "ctrl+alt+l" into the modifier mask and
/// the virtual-key code to register, or nothing when no part of the string
/// names a key. Case does not matter; blanks around parts are ignored.
pub fn parse_hotkey(hotkey: &str) -> (r: Option<(u32, u32)>)
    ensures
        r == spec_parse_hotkey(hotkey@),
{
    let ghost lowered = spec_to_lower(hotkey@);
    let n = hotkey.unicode_len();
    let mut part: Vec<char> = Vec::new();
    let mut modifiers: u32 = 0;
    let mut vk: Option<u32> = Option::None;
    let mut i: usize = 0;
    proof {
        assert(lowered.skip(0) =~= lowered);
    }
    while i < n
        invariant
            i <= n,
            n == hotkey@.len(),
            lowered == spec_to_lower(hotkey@),
            spec_parse_chars(lowered, Seq::empty(), 0, Option::None) == spec_parse_chars(
                lowered.skip(i as int),
                part@,
                modifiers,
                vk,
            ),
        decreases n - i,
    {
        let c = lower_char(hotkey.get_char(i));
        proof {
            let rest = lowered.skip(i as int);
            assert(rest.len() > 0);
            assert(rest[0] == lowered[i as int]);
            assert(rest[0] == c);
            assert(rest.drop_first() =~= lowered.skip(i as int + 1));
        }
        if c == '+' {
            let folded = apply_part(&part, modifiers, vk);
            modifiers = folded.0;
            vk = folded.1;
            part = Vec::new();
        } else {
            part.push(c);
        }
        i = i + 1;
    }
    proof {
        assert(lowered.skip(n as int) =~= Seq::<char>::empty());
    }
    let folded = apply_part(&part, modifiers, vk);
    match folded.1 {
        Option::Some(code) => Option::Some((folded.0, code)),
        Option::None => Option::None,
    }
}

} // verus!
