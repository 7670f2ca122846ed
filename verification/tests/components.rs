//! Component-level tests: the key normalizer and its diagnostic strings, the
//! leader timer's boundary, the mode oracle, and the inspector tracker.

use frameless::inspector::{InspectorCmd, InspectorTracker};
use frameless::keys::{describe, normalize, push_dec, KeyId, KeyToken, Modifiers};
use frameless::leader::LeaderTimer;
use frameless::mode::{Mode, ModeOracle};

fn mods(shift: bool, control: bool, alt: bool, meta: bool) -> Modifiers {
    Modifiers { shift, control, alt, meta }
}

#[test]
fn normalize_maps_known_keys() {
    let m = mods(false, false, false, false);
    assert_eq!(normalize(59, m).id, KeyId::Semicolon);
    assert_eq!(normalize(46, m).id, KeyId::Period);
    assert_eq!(normalize(65307, m).id, KeyId::Escape);
    assert_eq!(normalize(113, m).id, KeyId::LowerQ);
    assert_eq!(normalize(110, m).id, KeyId::LowerN);
    assert_eq!(normalize(104, m).id, KeyId::LowerH);
    assert_eq!(normalize(106, m).id, KeyId::LowerJ);
    assert_eq!(normalize(107, m).id, KeyId::LowerK);
    assert_eq!(normalize(108, m).id, KeyId::LowerL);
    assert_eq!(normalize(114, m).id, KeyId::LowerR);
    assert_eq!(normalize(72, m).id, KeyId::UpperH);
    assert_eq!(normalize(73, m).id, KeyId::UpperI);
    assert_eq!(normalize(76, m).id, KeyId::UpperL);
    assert_eq!(normalize(82, m).id, KeyId::UpperR);
    assert_eq!(normalize(120, m).id, KeyId::Other(120));
}

#[test]
fn normalize_folds_both_case_encodings() {
    // Upper-case key identifier delivered directly.
    let direct = normalize(72, mods(true, false, false, false));
    // Lower-case identifier plus the Shift flag.
    let folded = normalize(104, mods(true, false, false, false));
    assert_eq!(direct, folded);
    assert_eq!(folded.id, KeyId::UpperH);
    // Without Shift the lower-case identifier stays lower-case.
    assert_eq!(normalize(104, mods(false, false, false, false)).id, KeyId::LowerH);
    // Shift only folds letters, not other keys.
    assert_eq!(normalize(59, mods(true, false, false, false)).id, KeyId::Semicolon);
}

#[test]
fn normalize_keeps_the_modifier_flags() {
    let m = mods(false, true, true, false);
    let t = normalize(106, m);
    assert_eq!(t, KeyToken { id: KeyId::LowerJ, mods: m });
}

#[test]
fn describe_renders_modifiers_in_fixed_order() {
    let t = normalize(107, mods(false, true, false, false));
    assert_eq!(describe(&t), "Control+k");
    let t = normalize(113, mods(false, true, false, true));
    assert_eq!(describe(&t), "Meta+Control+q");
    let t = normalize(65307, mods(false, false, true, false));
    assert_eq!(describe(&t), "Alt+Escape");
    let t = normalize(59, mods(false, false, false, false));
    assert_eq!(describe(&t), ";");
}

#[test]
fn describe_renders_printable_keys_as_their_character() {
    // An unnamed key whose canonical identifier is a printable ASCII code
    // point is labelled with that character itself.
    let t = normalize(120, mods(false, false, false, false));
    assert_eq!(describe(&t), "x");
    let t = normalize(107, mods(true, true, false, false));
    // Shift folds k to K (identifier 75), and the label shows the fold.
    assert_eq!(describe(&t), "Shift+Control+K");
    let t = normalize(120, mods(true, true, true, true));
    assert_eq!(describe(&t), "Shift+Meta+Control+Alt+X");
    // The whole printable range works, including its two ends.
    let t = normalize(32, mods(false, false, false, false));
    assert_eq!(describe(&t), " ");
    let t = normalize(126, mods(false, false, false, false));
    assert_eq!(describe(&t), "~");
}

#[test]
fn describe_renders_unprintable_keys_numerically() {
    // Host-specific identifiers outside printable ASCII have no character of
    // their own; they are labelled by their number.
    let t = normalize(65470, mods(false, false, false, false));
    assert_eq!(describe(&t), "Key(65470)");
    let t = normalize(31, mods(false, false, false, false));
    assert_eq!(describe(&t), "Key(31)");
    let t = normalize(127, mods(false, true, false, false));
    assert_eq!(describe(&t), "Control+Key(127)");
}

#[test]
fn push_dec_renders_decimals() {
    let mut s = String::new();
    push_dec(&mut s, 0);
    assert_eq!(s, "0");
    let mut s = String::from("id=");
    push_dec(&mut s, 1234567890);
    assert_eq!(s, "id=1234567890");
    let mut s = String::new();
    push_dec(&mut s, u32::MAX);
    assert_eq!(s, "4294967295");
}

#[test]
fn leader_timer_boundary_is_strict() {
    let mut t = LeaderTimer::new();
    assert!(!t.is_composing(0));
    t.arm(1000);
    assert!(t.is_composing(1000));
    assert!(t.is_composing(1499));
    assert!(!t.is_composing(1500));
    // A clock reading older than the arming time never counts as composing.
    assert!(!t.is_composing(999));
}

#[test]
fn mode_oracle_defaults_to_normal_and_guards_generations() {
    let mut o = ModeOracle::new();
    assert_eq!(o.current_mode(), Mode::Normal);
    let g1 = o.issue_query();
    let g2 = o.issue_query();
    assert_eq!(g1, 1);
    assert_eq!(g2, 2);
    // Out-of-order resolution: the newer answer wins.
    o.on_query_result(g2, true);
    o.on_query_result(g1, false);
    assert_eq!(o.current_mode(), Mode::Insert);
    // A completion for a stale generation is ignored entirely.
    o.on_query_result(g1, false);
    assert_eq!(o.current_mode(), Mode::Insert);
    // The latest generation's completion is applied.
    o.on_query_result(g2, false);
    assert_eq!(o.current_mode(), Mode::Normal);
}

#[test]
fn inspector_tracker_toggles_and_forces_closed() {
    let mut t = InspectorTracker::new();
    assert!(!t.visible);
    assert_eq!(t.toggle(), InspectorCmd::Show);
    assert!(t.visible);
    assert_eq!(t.toggle(), InspectorCmd::Close);
    assert!(!t.visible);
    // Toggling twice restored the original state: a balanced pair.
    t.force_closed();
    assert!(!t.visible);
    assert_eq!(t.toggle(), InspectorCmd::Show);
    t.force_closed();
    assert!(!t.visible);
}
