use crunch::types::{effect_kind_at, EffectKind, EFFECT_KINDS, EFFECT_KIND_COUNT, MENU_ITEMS, MENU_LEN};

#[test]
fn effect_kinds_in_dialog_order() {
    let kinds: Vec<EffectKind> = (0..EFFECT_KIND_COUNT).map(effect_kind_at).collect();
    assert_eq!(
        kinds,
        vec![EffectKind::Overdrive, EffectKind::Distortion, EffectKind::Fuzz, EffectKind::Chorus, EffectKind::Delay]
    );
    let names: Vec<&str> = kinds.iter().map(|k| k.name()).collect();
    assert_eq!(names, EFFECT_KINDS.to_vec());
    assert_eq!(names, vec!["Overdrive", "Distortion", "Fuzz", "Chorus", "Delay"]);
}

#[test]
fn menu_lists_pedalboard_then_exit() {
    assert_eq!(MENU_ITEMS, ["Pedalboard", "Exit"]);
    assert_eq!(MENU_LEN, MENU_ITEMS.len());
}
