//! The key normalizer: raw host key events become canonical tokens.
//!
//! The host delivers a key as a numeric key identifier (ASCII characters use
//! their code point; other keys use host-specific values) together with four
//! independent modifier flags. Hosts encode letter case in one of two ways:
//! either as a distinct upper-case key identifier, or as the lower-case
//! identifier plus the Shift flag. Normalization folds both encodings into the
//! upper-case identifier, so the rest of the engine compares canonical key
//! identifiers and never inspects the Shift flag for letters.

use vstd::prelude::*;
use vstd::string::StringExecFns;

verus! {

/// The four modifier flags of a key event, each independent.
#[derive(Clone, Copy, PartialEq, Eq, Structural, Debug)]
pub struct Modifiers {
    /// Shift was held.
    pub shift: bool,
    /// Control was held.
    pub control: bool,
    /// Alt was held.
    pub alt: bool,
    /// Meta (super/command) was held.
    pub meta: bool,
}

/// Canonical identifier of a logical key.
///
/// Only the keys the command table can bind are named; every other key keeps
/// its canonical numeric identifier in `Other`.
#[derive(Clone, Copy, PartialEq, Eq, Structural, Debug)]
pub enum KeyId {
    /// `;` — the default leader key.
    Semicolon,
    /// `.` — matched only to suppress a host accelerator.
    Period,
    /// The Escape key.
    Escape,
    /// `q` — the quit compose-command.
    LowerQ,
    /// `n` — the new-tab compose-command.
    LowerN,
    /// `h` — scroll left.
    LowerH,
    /// `j` — scroll down.
    LowerJ,
    /// `k` — scroll up.
    LowerK,
    /// `l` — scroll right.
    LowerL,
    /// `r` — reload.
    LowerR,
    /// `H` — history back.
    UpperH,
    /// `I` — toggle the developer inspector.
    UpperI,
    /// `L` — history forward.
    UpperL,
    /// `R` — reload bypassing the cache.
    UpperR,
    /// Any other key, by its canonical numeric identifier.
    Other(u32),
}

/// A normalized key event: canonical key identifier plus modifier flags.
/// Immutable, created once per event, compared by value.
#[derive(Clone, Copy, PartialEq, Eq, Structural, Debug)]
pub struct KeyToken {
    /// Canonical key identifier.
    pub id: KeyId,
    /// Modifier flags as delivered by the host.
    pub mods: Modifiers,
}

/// Folds the shift-plus-lower-case-letter encoding into the upper-case key
/// identifier; every other identifier is already canonical.
pub open spec fn spec_canonical_keyval(keyval: u32, m: Modifiers) -> u32 {
    if m.shift && 97 <= keyval && keyval <= 122 {
        (keyval - 32) as u32
    } else {
        keyval
    }
}

/// Maps a canonical numeric key identifier to its [`KeyId`].
pub open spec fn spec_key_id(kv: u32) -> KeyId {
    if kv == 59 {
        KeyId::Semicolon
    } else if kv == 46 {
        KeyId::Period
    } else if kv == 65307 {
        KeyId::Escape
    } else if kv == 113 {
        KeyId::LowerQ
    } else if kv == 110 {
        KeyId::LowerN
    } else if kv == 104 {
        KeyId::LowerH
    } else if kv == 106 {
        KeyId::LowerJ
    } else if kv == 107 {
        KeyId::LowerK
    } else if kv == 108 {
        KeyId::LowerL
    } else if kv == 114 {
        KeyId::LowerR
    } else if kv == 72 {
        KeyId::UpperH
    } else if kv == 73 {
        KeyId::UpperI
    } else if kv == 76 {
        KeyId::UpperL
    } else if kv == 82 {
        KeyId::UpperR
    } else {
        KeyId::Other(kv)
    }
}

/// What [`normalize`] returns for a raw key event.
pub open spec fn spec_normalize(keyval: u32, m: Modifiers) -> KeyToken {
    KeyToken { id: spec_key_id(spec_canonical_keyval(keyval, m)), mods: m }
}

/// Turn a raw (key identifier, modifier flags) pair into a canonical token.
/// Deterministic, no side effects, no failure modes.
pub fn normalize(keyval: u32, mods: Modifiers) -> (t: KeyToken)
    ensures
        t == spec_normalize(keyval, mods),
{
    let kv: u32 = if mods.shift && 97 <= keyval && keyval <= 122 {
        keyval - 32
    } else {
        keyval
    };
    let id: KeyId = match kv {
        59 => KeyId::Semicolon,
        46 => KeyId::Period,
        65307 => KeyId::Escape,
        113 => KeyId::LowerQ,
        110 => KeyId::LowerN,
        104 => KeyId::LowerH,
        106 => KeyId::LowerJ,
        107 => KeyId::LowerK,
        108 => KeyId::LowerL,
        114 => KeyId::LowerR,
        72 => KeyId::UpperH,
        73 => KeyId::UpperI,
        76 => KeyId::UpperL,
        82 => KeyId::UpperR,
        _ => KeyId::Other(kv),
    };
    KeyToken { id, mods }
}

/// The character for one decimal digit.
pub open spec fn digit_char(d: nat) -> char {
    if d == 0 {
        '0'
    } else if d == 1 {
        '1'
    } else if d == 2 {
        '2'
    } else if d == 3 {
        '3'
    } else if d == 4 {
        '4'
    } else if d == 5 {
        '5'
    } else if d == 6 {
        '6'
    } else if d == 7 {
        '7'
    } else if d == 8 {
        '8'
    } else {
        '9'
    }
}

/// The decimal digits of `n`, most significant first, no leading zeros
/// (except for `n == 0` itself).
pub open spec fn dec_seq(n: nat) -> Seq<char>
    decreases n,
{
    if n < 10 {
        seq![digit_char(n)]
    } else {
        dec_seq(n / 10) + seq![digit_char(n % 10)]
    }
}

/// Append the single decimal digit `d` to `s`.
fn push_digit(s: &mut String, d: u32)
    requires
        d < 10,
    ensures
        final(s)@ == old(s)@ + seq![digit_char(d as nat)],
{
    match d {
        0 => {
            s.append("0");
            proof {
                reveal_strlit("0");
                assert(s@ =~= old(s)@ + seq![digit_char(d as nat)]);
            }
        },
        1 => {
            s.append("1");
            proof {
                reveal_strlit("1");
                assert(s@ =~= old(s)@ + seq![digit_char(d as nat)]);
            }
        },
        2 => {
            s.append("2");
            proof {
                reveal_strlit("2");
                assert(s@ =~= old(s)@ + seq![digit_char(d as nat)]);
            }
        },
        3 => {
            s.append("3");
            proof {
                reveal_strlit("3");
                assert(s@ =~= old(s)@ + seq![digit_char(d as nat)]);
            }
        },
        4 => {
            s.append("4");
            proof {
                reveal_strlit("4");
                assert(s@ =~= old(s)@ + seq![digit_char(d as nat)]);
            }
        },
        5 => {
            s.append("5");
            proof {
                reveal_strlit("5");
                assert(s@ =~= old(s)@ + seq![digit_char(d as nat)]);
            }
        },
        6 => {
            s.append("6");
            proof {
                reveal_strlit("6");
                assert(s@ =~= old(s)@ + seq![digit_char(d as nat)]);
            }
        },
        7 => {
            s.append("7");
            proof {
                reveal_strlit("7");
                assert(s@ =~= old(s)@ + seq![digit_char(d as nat)]);
            }
        },
        8 => {
            s.append("8");
            proof {
                reveal_strlit("8");
                assert(s@ =~= old(s)@ + seq![digit_char(d as nat)]);
            }
        },
        _ => {
            s.append("9");
            proof {
                reveal_strlit("9");
                assert(s@ =~= old(s)@ + seq![digit_char(d as nat)]);
            }
        },
    }
}

/// Append the decimal rendering of `n` to `s`.
pub fn push_dec(s: &mut String, n: u32)
    ensures
        final(s)@ == old(s)@ + dec_seq(n as nat),
    decreases n,
{
    if n >= 10 {
        push_dec(s, n / 10);
    }
    push_digit(s, n % 10);
    proof {
        assert(s@ =~= old(s)@ + dec_seq(n as nat));
    }
}

/// The printable ASCII characters in code-point order, starting at space
/// (code point 32): the characters a printable canonical key identifier can
/// label itself with.
spec fn printable_table() -> Seq<char> {
    " !\"#$%&'()*+,-./0123456789:;<=>?@ABCDEFGHIJKLMNOPQRSTUVWXYZ[\\]^_`abcdefghijklmnopqrstuvwxyz{|}~"@
}

/// Each entry of the printable table is the character of its code point.
proof fn lemma_printable_table_char(i: int)
    requires
        0 <= i < 95,
    ensures
        printable_table()[i] == ((32 + i) as u32) as char,
{
    reveal_strlit(
        " !\"#$%&'()*+,-./0123456789:;<=>?@ABCDEFGHIJKLMNOPQRSTUVWXYZ[\\]^_`abcdefghijklmnopqrstuvwxyz{|}~",
    );
}

/// The printable ASCII characters as an executable table.
fn printable_str() -> (r: &'static str)
    ensures
        r@ == printable_table(),
        r.is_ascii(),
        r@.len() == 95,
{
    let r =
        " !\"#$%&'()*+,-./0123456789:;<=>?@ABCDEFGHIJKLMNOPQRSTUVWXYZ[\\]^_`abcdefghijklmnopqrstuvwxyz{|}~";
    proof {
        reveal_strlit(
            " !\"#$%&'()*+,-./0123456789:;<=>?@ABCDEFGHIJKLMNOPQRSTUVWXYZ[\\]^_`abcdefghijklmnopqrstuvwxyz{|}~",
        );
    }
    r
}

/// Append the character whose printable code point is `v` to `s`.
fn push_printable(s: &mut String, v: u32)
    requires
        32 <= v <= 126,
    ensures
        final(s)@ == old(s)@ + seq![(v as char)],
{
    let p = printable_str();
    let label = p.substring_ascii((v - 32) as usize, (v - 31) as usize);
    s.append(label);
    proof {
        lemma_printable_table_char(v - 32);
        assert(s@ =~= old(s)@ + seq![(v as char)]);
    }
}

/// The modifier prefix of a token's diagnostic string, in the fixed order
/// Shift, Meta, Control, Alt.
pub open spec fn spec_mods_prefix(m: Modifiers) -> Seq<char> {
    (if m.shift {
        "Shift+"@
    } else {
        Seq::<char>::empty()
    }) + (if m.meta {
        "Meta+"@
    } else {
        Seq::<char>::empty()
    }) + (if m.control {
        "Control+"@
    } else {
        Seq::<char>::empty()
    }) + (if m.alt {
        "Alt+"@
    } else {
        Seq::<char>::empty()
    })
}

/// The label of a key in the diagnostic string: the key's own character
/// whenever its canonical identifier has one (the named keys, and any other
/// identifier that is a printable ASCII code point), and the numeric
/// `Key(<identifier>)` for host-specific keys outside that range.
pub open spec fn spec_key_label(id: KeyId) -> Seq<char> {
    match id {
        KeyId::Semicolon => ";"@,
        KeyId::Period => "."@,
        KeyId::Escape => "Escape"@,
        KeyId::LowerQ => "q"@,
        KeyId::LowerN => "n"@,
        KeyId::LowerH => "h"@,
        KeyId::LowerJ => "j"@,
        KeyId::LowerK => "k"@,
        KeyId::LowerL => "l"@,
        KeyId::LowerR => "r"@,
        KeyId::UpperH => "H"@,
        KeyId::UpperI => "I"@,
        KeyId::UpperL => "L"@,
        KeyId::UpperR => "R"@,
        KeyId::Other(v) => {
            if 32 <= v <= 126 {
                seq![(v as char)]
            } else {
                "Key("@ + dec_seq(v as nat) + ")"@
            }
        },
    }
}

/// The full diagnostic string of a token, e.g. `Control+Shift+k`.
pub open spec fn spec_describe(t: KeyToken) -> Seq<char> {
    spec_mods_prefix(t.mods) + spec_key_label(t.id)
}

/// The human-readable rendering of a token, for diagnostics: the modifier
/// prefix followed by the key's label.
pub fn describe(t: &KeyToken) -> (r: String)
    ensures
        r@ == spec_describe(*t),
{
    let mut r = String::new();
    if t.mods.shift {
        r.append("Shift+");
    }
    if t.mods.meta {
        r.append("Meta+");
    }
    if t.mods.control {
        r.append("Control+");
    }
    if t.mods.alt {
        r.append("Alt+");
    }
    proof {
        assert(r@ =~= spec_mods_prefix(t.mods));
    }
    match t.id {
        KeyId::Semicolon => r.append(";"),
        KeyId::Period => r.append("."),
        KeyId::Escape => r.append("Escape"),
        KeyId::LowerQ => r.append("q"),
        KeyId::LowerN => r.append("n"),
        KeyId::LowerH => r.append("h"),
        KeyId::LowerJ => r.append("j"),
        KeyId::LowerK => r.append("k"),
        KeyId::LowerL => r.append("l"),
        KeyId::LowerR => r.append("r"),
        KeyId::UpperH => r.append("H"),
        KeyId::UpperI => r.append("I"),
        KeyId::UpperL => r.append("L"),
        KeyId::UpperR => r.append("R"),
        KeyId::Other(v) => {
            if 32 <= v && v <= 126 {
                push_printable(&mut r, v);
            } else {
                r.append("Key(");
                push_dec(&mut r, v);
                r.append(")");
            }
            proof {
                assert(r@ =~= spec_describe(*t));
            }
        },
    }
    proof {
        assert(r@ =~= spec_describe(*t));
    }
    r
}

} // verus!
