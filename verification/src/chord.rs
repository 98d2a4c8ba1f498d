//! Keybinding chords: normalizing recorded ones (the physical-key recorder writes letters in
//! upper case and keys as `KeyX`/`DigitN`, while keybindings are written `cmd+x`, `ctrl+1`), and
//! taking the keybinding-editor chord out of the command palette's input.
use vstd::prelude::*;
use crate::copy_mode::{UiEvent, UiKey};

use crate::text::{
    chars_of, is_ascii_digit, is_ascii_letter, is_ascii_lower, lower_char, push_char,
    to_ascii_lower,
};

verus! {

/// Whether a key name is exactly one ASCII letter.
pub open spec fn is_single_ascii_letter(s: Seq<char>) -> bool {
    s.len() == 1 && is_ascii_letter(s[0])
}

/// The normalized form of a chord's key name, if it is one the recorder writes differently
/// from keybindings: a single letter (lowercased), `KeyX` (the letter, lowercased) or `DigitN`
/// (the digit). Named keys such as `Tab` or `F5` have none.
pub open spec fn normalized_key(key: Seq<char>) -> Option<Seq<char>> {
    if is_single_ascii_letter(key) {
        Some(seq![lower_char(key[0])])
    } else if key.len() == 4 && key[0] == 'K' && key[1] == 'e' && key[2] == 'y' && is_ascii_letter(
        key[3],
    ) {
        Some(seq![lower_char(key[3])])
    } else if key.len() == 6 && key[0] == 'D' && key[1] == 'i' && key[2] == 'g' && key[3] == 'i'
        && key[4] == 't' && is_ascii_digit(key[5]) {
        Some(seq![key[5]])
    } else {
        None
    }
}

/// The index of the last occurrence of `c` in `s`, or -1.
pub open spec fn last_index_of(s: Seq<char>, c: char) -> int
    decreases s.len(),
{
    if s.len() == 0 {
        -1
    } else if s.last() == c {
        s.len() - 1
    } else {
        last_index_of(s.drop_last(), c)
    }
}

/// A recorded chord with its key normalized: the part after the last `+` (the whole chord when
/// there is none) is replaced by its normalized form; a chord whose key has none is unchanged.
pub open spec fn normalized_chord(chord: Seq<char>) -> Seq<char> {
    let p = last_index_of(chord, '+');
    if p >= 0 {
        match normalized_key(chord.skip(p + 1)) {
            Some(key) => chord.take(p).push('+') + key,
            None => chord,
        }
    } else {
        match normalized_key(chord) {
            Some(key) => key,
            None => chord,
        }
    }
}

proof fn lemma_last_index_of_bounds(s: Seq<char>, c: char)
    ensures
        -1 <= last_index_of(s, c) < s.len(),
        last_index_of(s, c) >= 0 ==> s[last_index_of(s, c)] == c,
        forall|j: int| last_index_of(s, c) < j < s.len() ==> s[j] != c,
    decreases s.len(),
{
    if s.len() > 0 && s.last() != c {
        let t = s.drop_last();
        lemma_last_index_of_bounds(t, c);
        assert forall|j: int| last_index_of(s, c) < j < s.len() implies s[j] != c by {
            if j < s.len() - 1 {
                assert(s[j] == t[j]);
            }
        }
    }
}

fn is_single_ascii_letter_exec(cs: &[char], from: usize) -> (r: bool)
    requires
        from <= cs@.len(),
    ensures
        r == is_single_ascii_letter(cs@.skip(from as int)),
{
    cs.len() - from == 1 && (('A' <= cs[from] && cs[from] <= 'Z') || ('a' <= cs[from] && cs[from]
        <= 'z'))
}

/// The normalized key of `cs[from..]`.
fn normalize_recorded_key(cs: &[char], from: usize) -> (r: Option<char>)
    requires
        from <= cs@.len(),
    ensures
        match normalized_key(cs@.skip(from as int)) {
            Some(key) => r == Some(key[0]) && key.len() == 1,
            None => r is None,
        },
{
    let ghost key = cs@.skip(from as int);
    let n = cs.len() - from;
    if is_single_ascii_letter_exec(cs, from) {
        return Some(to_ascii_lower(cs[from]));
    }
    if n == 4 && cs[from] == 'K' && cs[from + 1] == 'e' && cs[from + 2] == 'y' {
        let letter = cs[from + 3];
        if ('A' <= letter && letter <= 'Z') || ('a' <= letter && letter <= 'z') {
            return Some(to_ascii_lower(letter));
        }
    }
    if n == 6 && cs[from] == 'D' && cs[from + 1] == 'i' && cs[from + 2] == 'g' && cs[from + 3]
        == 'i' && cs[from + 4] == 't' {
        let digit = cs[from + 5];
        if '0' <= digit && digit <= '9' {
            return Some(digit);
        }
    }
    None
}

/// Lowercase a single-letter key in a recorded chord (`cmd+alt+X` becomes `cmd+alt+x`,
/// `ctrl+KeyV` becomes `ctrl+v`, `ctrl+shift+Digit1` becomes `ctrl+shift+1`); multi-character
/// key names like `Tab` and `F5`, and non-letters, are left untouched.
pub fn normalize_recorded_chord(chord: String) -> (r: String)
    ensures
        r@ == normalized_chord(chord@),
{
    let cs = chars_of(chord.as_str());
    let n = cs.len();
    let mut p: usize = n;
    while p > 0 && cs[p - 1] != '+'
        invariant
            cs@ == chord@,
            p <= n == cs@.len(),
            forall|j: int| p <= j < n ==> cs@[j] != '+',
        decreases p,
    {
        p = p - 1;
    }
    let found = p > 0;
    proof {
        lemma_last_index_of_bounds(chord@, '+');
    }
    if found {
        let plus = p - 1;
        assert(last_index_of(chord@, '+') == plus);
        match normalize_recorded_key(cs.as_slice(), plus + 1) {
            Some(key) => {
                let mut out = String::new();
                let mut i: usize = 0;
                while i < plus
                    invariant
                        cs@ == chord@,
                        plus < n == cs@.len(),
                        i <= plus,
                        out@ == cs@.subrange(0, i as int),
                    decreases plus - i,
                {
                    push_char(&mut out, cs[i]);
                    i = i + 1;
                }
                push_char(&mut out, '+');
                push_char(&mut out, key);
                proof {
                    let k = normalized_key(chord@.skip(plus + 1)).unwrap();
                    assert(k =~= seq![key]);
                    assert(out@ =~= chord@.take(plus as int).push('+') + k);
                }
                out
            },
            None => chord,
        }
    } else {
        assert(last_index_of(chord@, '+') == -1) by {
            if last_index_of(chord@, '+') >= 0 {
                assert(chord@[last_index_of(chord@, '+')] == '+');
            }
        }
        assert(cs@.skip(0) =~= cs@);
        match normalize_recorded_key(cs.as_slice(), 0) {
            Some(key) => {
                let mut out = String::new();
                push_char(&mut out, key);
                proof {
                    let k = normalized_key(chord@).unwrap();
                    assert(out@ =~= k);
                }
                out
            },
            None => chord,
        }
    }
}

proof fn lemma_lower_char_idempotent(c: char)
    ensures
        lower_char(lower_char(c)) == lower_char(c),
        is_ascii_letter(c) ==> is_ascii_lower(lower_char(c)),
{
}

proof fn lemma_normalized_key_shape(key: Seq<char>)
    ensures
        normalized_key(key) matches Some(k) ==> k.len() == 1 && k[0] != '+' && (normalized_key(k)
            is None || normalized_key(k) == Some(k)),
{
    if let Some(k) = normalized_key(key) {
        lemma_lower_char_idempotent(key[0]);
        if key.len() == 4 {
            lemma_lower_char_idempotent(key[3]);
        }
    }
}

/// Normalizing a chord twice gives the same chord as normalizing it once.
pub proof fn lemma_normalized_chord_idempotent(chord: Seq<char>)
    ensures
        normalized_chord(normalized_chord(chord)) == normalized_chord(chord),
{
    let p = last_index_of(chord, '+');
    lemma_last_index_of_bounds(chord, '+');
    if p >= 0 {
        let key = chord.skip(p + 1);
        lemma_normalized_key_shape(key);
        if let Some(k) = normalized_key(key) {
            let r = chord.take(p).push('+') + k;
            assert(r.drop_last() =~= chord.take(p).push('+'));
            assert(r.last() == k[0]);
            assert(last_index_of(r.drop_last(), '+') == p);
            assert(last_index_of(r, '+') == p);
            assert(r.skip(p + 1) =~= k);
            assert(r.take(p) =~= chord.take(p));
        }
    } else {
        lemma_normalized_key_shape(chord);
        if let Some(k) = normalized_key(chord) {
            assert(k.drop_last().len() == 0);
            assert(last_index_of(k.drop_last(), '+') == -1);
            assert(last_index_of(k, '+') == -1);
        }
    }
}

/// Normalizing a chord keeps everything up to and including its last `+` (the modifiers) and
/// only rewrites the key after it; a chord whose key is not a letter, `KeyX` or `DigitN` comes
/// back unchanged.
pub proof fn lemma_normalized_chord_keeps_modifiers(chord: Seq<char>)
    ensures
        ({
            let p = last_index_of(chord, '+');
            &&& -1 <= p < chord.len()
            &&& p + 1 <= normalized_chord(chord).len()
            &&& normalized_chord(chord).take(p + 1) == chord.take(p + 1)
            &&& normalized_key(chord.skip(p + 1)) is None ==> normalized_chord(chord) == chord
            &&& normalized_key(chord.skip(p + 1)) matches Some(k) ==> normalized_chord(chord)
                == chord.take(p + 1) + k
        }),
{
    let p = last_index_of(chord, '+');
    lemma_last_index_of_bounds(chord, '+');
    if p >= 0 {
        if let Some(k) = normalized_key(chord.skip(p + 1)) {
            assert(chord.take(p).push('+') =~= chord.take(p + 1));
            assert((chord.take(p + 1) + k).take(p + 1) =~= chord.take(p + 1));
        }
    } else {
        assert(chord.skip(0) =~= chord);
        assert(chord.take(0) =~= Seq::<char>::empty());
        if let Some(k) = normalized_key(chord) {
            assert(chord.take(0) + k =~= k);
            assert(k.take(0) =~= chord.take(0));
        }
    }
}

/// The chord that opens the keybinding editor from the command palette: shift+command+comma on
/// macOS (either command flag, no alt or ctrl), shift+ctrl+comma elsewhere (no alt).
pub open spec fn is_configure_keybind_chord(event: UiEvent, macos: bool) -> bool {
    match event {
        UiEvent::Key { key, pressed, modifiers, .. } => key == UiKey::Comma && pressed && if macos {
            modifiers.shift && (modifiers.command || modifiers.mac_cmd) && !modifiers.alt
                && !modifiers.ctrl
        } else {
            modifiers.shift && modifiers.ctrl && !modifiers.alt
        },
        _ => false,
    }
}

/// The first place holding the chord.
pub open spec fn first_chord_from(events: Seq<UiEvent>, macos: bool, start: int) -> Option<int>
    decreases events.len() - start,
{
    if start < 0 || start >= events.len() {
        None
    } else if is_configure_keybind_chord(events[start], macos) {
        Some(start)
    } else {
        first_chord_from(events, macos, start + 1)
    }
}

proof fn lemma_first_chord_in_range(events: Seq<UiEvent>, macos: bool, start: int)
    ensures
        first_chord_from(events, macos, start) matches Some(i) ==> start <= i < events.len(),
    decreases events.len() - start,
{
    if start >= 0 && start < events.len() && !is_configure_keybind_chord(events[start], macos) {
        lemma_first_chord_in_range(events, macos, start + 1);
    }
}

/// While the command palette is open, takes the first keybinding-editor chord out of the
/// frame's events so no global binding on the same chord fires too; whether one was taken.
pub fn take_configure_keybind_chord(events: &mut Vec<UiEvent>, palette_open: bool, macos: bool) -> (r:
    bool)
    ensures
        r == (palette_open && first_chord_from(old(events)@, macos, 0) is Some),
        r ==> final(events)@ == old(events)@.remove(first_chord_from(old(events)@, macos, 0)->0),
        !r ==> final(events)@ == old(events)@,
{
    if !palette_open {
        return false;
    }
    let mut i: usize = 0;
    while i < events.len()
        invariant
            palette_open,
            events@ == old(events)@,
            i <= events@.len(),
            first_chord_from(events@, macos, 0) == first_chord_from(events@, macos, i as int),
        decreases events@.len() - i,
    {
        let hit = match &events[i] {
            UiEvent::Key { key, pressed, modifiers, .. } => *key == UiKey::Comma && *pressed && if macos {
                modifiers.shift && (modifiers.command || modifiers.mac_cmd) && !modifiers.alt
                    && !modifiers.ctrl
            } else {
                modifiers.shift && modifiers.ctrl && !modifiers.alt
            },
            _ => false,
        };
        if hit {
            proof {
                lemma_first_chord_in_range(events@, macos, 0);
            }
            events.remove(i);
            return true;
        }
        i = i + 1;
    }
    false
}

} // verus!
