use cmux_linux::ghostty::input::{
    map_keycode_to_ghostty, map_mods, GhosttyKey, GDK_ALT_MASK, GDK_CONTROL_MASK, GDK_SHIFT_MASK,
    GDK_SUPER_MASK, GHOSTTY_MODS_ALT, GHOSTTY_MODS_CTRL, GHOSTTY_MODS_SHIFT, GHOSTTY_MODS_SUPER,
};

#[test]
fn input_keycode_a_maps_to_ghostty_a() {
    let result = map_keycode_to_ghostty(38);
    assert_ne!(result, GhosttyKey::Unidentified, "keycode 38 (hardware 'a') must map to a valid key");
    assert_eq!(result, GhosttyKey::A, "keycode 38 must map to GHOSTTY_KEY_A");
}

#[test]
fn input_keycode_return_maps_to_enter() {
    let result = map_keycode_to_ghostty(36);
    assert_eq!(result, GhosttyKey::Enter, "keycode 36 (Return) must map to GHOSTTY_KEY_ENTER");
}

#[test]
fn input_keycode_escape_maps_correctly() {
    let result = map_keycode_to_ghostty(9);
    assert_eq!(result, GhosttyKey::Escape, "keycode 9 (Escape) must map to GHOSTTY_KEY_ESCAPE");
}

#[test]
fn input_unknown_keycode_returns_invalid() {
    let result = map_keycode_to_ghostty(0);
    assert_eq!(
        result,
        GhosttyKey::Unidentified,
        "unknown keycode must map to GHOSTTY_KEY_UNIDENTIFIED without panic"
    );
}

#[test]
fn input_test_map_mods() {
    let shift = map_mods(GDK_SHIFT_MASK);
    assert_eq!(shift, GHOSTTY_MODS_SHIFT);
    let ctrl = map_mods(GDK_CONTROL_MASK);
    assert_eq!(ctrl, GHOSTTY_MODS_CTRL);
    let combined = map_mods(GDK_SHIFT_MASK | GDK_CONTROL_MASK);
    assert_eq!(
        combined,
        GHOSTTY_MODS_SHIFT | GHOSTTY_MODS_CTRL,
        "Combined modifiers must have both bits set"
    );
}

#[test]
fn test_input_keycode_a_maps_to_ghostty_a() {
    let result = map_keycode_to_ghostty(38);
    assert_ne!(result, GhosttyKey::Unidentified, "keycode 38 (hardware 'a') must map to a valid key");
}

#[test]
fn test_input_keycode_return_maps_to_enter() {
    let result = map_keycode_to_ghostty(36);
    assert_eq!(result, GhosttyKey::Enter, "keycode 36 (Return) must map to GHOSTTY_KEY_ENTER");
}

#[test]
fn test_input_keycode_escape_maps_correctly() {
    let result = map_keycode_to_ghostty(9);
    assert_eq!(result, GhosttyKey::Escape, "keycode 9 (Escape) must map to GHOSTTY_KEY_ESCAPE");
}

#[test]
fn test_input_unknown_keycode_returns_invalid() {
    let result = map_keycode_to_ghostty(0);
    assert_eq!(
        result,
        GhosttyKey::Unidentified,
        "unknown keycode must map to GHOSTTY_KEY_INVALID without panic"
    );
}

#[test]
fn test_input_test_map_mods() {
    let shift = map_mods(GDK_SHIFT_MASK);
    assert_ne!(shift, 0, "SHIFT modifier must map to non-zero");
    let ctrl = map_mods(GDK_CONTROL_MASK);
    assert_ne!(ctrl, 0, "CONTROL modifier must map to non-zero");
    let combined = map_mods(GDK_SHIFT_MASK | GDK_CONTROL_MASK);
    assert_ne!(combined, 0, "Combined modifiers must map to non-zero");
    assert_ne!(combined, shift, "Combined must differ from shift alone");
    assert_ne!(combined, ctrl, "Combined must differ from ctrl alone");
}

#[test]
fn keycode_table_edges() {
    assert_eq!(map_keycode_to_ghostty(10), GhosttyKey::Digit1);
    assert_eq!(map_keycode_to_ghostty(19), GhosttyKey::Digit0);
    assert_eq!(map_keycode_to_ghostty(63), GhosttyKey::NumpadMultiply);
    assert_eq!(map_keycode_to_ghostty(135), GhosttyKey::ContextMenu);
    // Num Lock, Scroll Lock and Print Screen have no engine key.
    assert_eq!(map_keycode_to_ghostty(77), GhosttyKey::Unidentified);
    assert_eq!(map_keycode_to_ghostty(78), GhosttyKey::Unidentified);
    assert_eq!(map_keycode_to_ghostty(107), GhosttyKey::Unidentified);
    assert_eq!(map_keycode_to_ghostty(136), GhosttyKey::Unidentified);
    assert_eq!(map_keycode_to_ghostty(u32::MAX), GhosttyKey::Unidentified);
}

#[test]
fn distinct_identified_keycodes_give_distinct_keys() {
    let mut seen: Vec<(u32, GhosttyKey)> = Vec::new();
    for code in 0..300u32 {
        let key = map_keycode_to_ghostty(code);
        if key != GhosttyKey::Unidentified {
            for (other, k) in &seen {
                assert_ne!(*k, key, "keycodes {} and {} share a key", other, code);
            }
            seen.push((code, key));
        }
    }
    assert_eq!(seen.len(), 100);
}

#[test]
fn mods_alt_super_and_others() {
    assert_eq!(map_mods(0), 0);
    assert_eq!(map_mods(GDK_ALT_MASK), GHOSTTY_MODS_ALT);
    assert_eq!(map_mods(GDK_SUPER_MASK), GHOSTTY_MODS_SUPER);
    // Caps lock (bit 1) and the button bits are not modifiers of the engine.
    assert_eq!(map_mods(0x2 | 0x100 | 0x1000), 0);
    let all = GDK_SHIFT_MASK | GDK_CONTROL_MASK | GDK_ALT_MASK | GDK_SUPER_MASK;
    assert_eq!(map_mods(all), 0xf);
    assert_eq!(map_mods(u32::MAX), 0xf);
}

#[test]
fn mods_of_union_is_union_of_mods() {
    let parts = [0u32, GDK_SHIFT_MASK, GDK_CONTROL_MASK, GDK_ALT_MASK, GDK_SUPER_MASK, 0x2, 0x8000_0000];
    for a in parts {
        for b in parts {
            assert_eq!(map_mods(a | b), map_mods(a) | map_mods(b));
        }
    }
}
