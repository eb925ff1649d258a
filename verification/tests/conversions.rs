use pumpkin_wasm_host::conversions::{
    BOSSBAR_CREATE_FOG, BOSSBAR_DARKEN_SKY, BOSSBAR_DRAGON_BAR, BillboardMode, BossBarColor,
    BossBarDivision, BossBarMetadata, BossbarColor, BossbarDivisions, BossbarFlags, DatapackEnablePosition,
    DatapackInfo, DyeColor, EnablePosition, ItemDisplayMode, SignDyeColor, SignFace, SignText,
    TextAlignment, from_wasm_dye_color, from_wasm_sign_text, from_wit_color, from_wit_division,
    from_wit_metadata, map_billboard_mode, map_billboard_mode_rev, map_item_display_mode,
    map_item_display_mode_rev, map_text_alignment, map_text_alignment_rev, to_data_enable_position,
    to_wasm_dye_color, to_wasm_sign_text, to_wit_color, to_wit_datapack_info, to_wit_division,
    to_wit_metadata,
};

#[test]
fn dye_colours_convert_both_ways() {
    assert_eq!(from_wasm_dye_color(DyeColor::LightBlue), SignDyeColor::LightBlue);
    assert_eq!(to_wasm_dye_color(SignDyeColor::Black), DyeColor::Black);
    assert_eq!(to_wasm_dye_color(from_wasm_dye_color(DyeColor::Magenta)), DyeColor::Magenta);
}

#[test]
fn boss_bar_settings_convert_both_ways() {
    assert_eq!(to_wit_color(BossbarColor::Purple), BossBarColor::Purple);
    assert_eq!(from_wit_color(BossBarColor::Yellow), BossbarColor::Yellow);
    assert_eq!(to_wit_division(BossbarDivisions::Notches12), BossBarDivision::Notches12);
    assert_eq!(from_wit_division(BossBarDivision::NoDivision), BossbarDivisions::NoDivision);
}

#[test]
fn boss_bar_flags_are_bits() {
    assert_eq!((BOSSBAR_DARKEN_SKY, BOSSBAR_DRAGON_BAR, BOSSBAR_CREATE_FOG), (1, 2, 4));
    let meta = to_wit_metadata(BossbarFlags { bits: 5 });
    assert!(meta.darken_sky && !meta.dragon_bar && meta.create_fog);
    let flags = from_wit_metadata(BossBarMetadata { darken_sky: false, dragon_bar: true, create_fog: true });
    assert_eq!(flags.bits, 6);
    assert_eq!(from_wit_metadata(to_wit_metadata(BossbarFlags { bits: 7 })).bits, 7);
    let empty = to_wit_metadata(BossbarFlags { bits: 0 });
    assert!(!empty.darken_sky && !empty.dragon_bar && !empty.create_fog);
}

#[test]
fn display_modes_read_their_codes() {
    assert_eq!(map_billboard_mode(3), BillboardMode::Center);
    assert_eq!(map_billboard_mode(200), BillboardMode::Fixed);
    assert_eq!(map_billboard_mode_rev(BillboardMode::Horizontal), 2);
    assert_eq!(map_item_display_mode(6), ItemDisplayMode::Gui);
    assert_eq!(map_item_display_mode(9), ItemDisplayMode::NoTransform);
    assert_eq!(map_item_display_mode_rev(ItemDisplayMode::Fixed), 8);
    assert_eq!(map_text_alignment(2), TextAlignment::Right);
    assert_eq!(map_text_alignment(7), TextAlignment::Center);
    assert_eq!(map_text_alignment_rev(TextAlignment::Left), 1);
}

#[test]
fn sign_text_pads_and_cuts_to_four_lines() {
    let face = from_wasm_sign_text(SignText {
        messages: vec!["a".to_string(), "b".to_string()],
        color: DyeColor::Red,
        has_glowing_text: true,
    });
    assert_eq!(face.messages, ["a".to_string(), "b".to_string(), String::new(), String::new()]);
    assert_eq!(face.color, SignDyeColor::Red);
    assert!(face.has_glowing_text);

    let long = from_wasm_sign_text(SignText {
        messages: (0..6).map(|i| i.to_string()).collect(),
        color: DyeColor::White,
        has_glowing_text: false,
    });
    assert_eq!(long.messages, ["0".to_string(), "1".to_string(), "2".to_string(), "3".to_string()]);

    let back = to_wasm_sign_text(&SignFace {
        messages: ["w".to_string(), "x".to_string(), "y".to_string(), "z".to_string()],
        color: SignDyeColor::Green,
        has_glowing_text: false,
    });
    assert_eq!(back.messages, vec!["w", "x", "y", "z"]);
    assert_eq!(back.color, DyeColor::Green);
}

#[test]
fn datapack_counts_are_cut_to_32_bits() {
    let info = to_wit_datapack_info(DatapackInfo {
        id: "file/pack".to_string(),
        name: "pack".to_string(),
        description: "d".to_string(),
        pack_format: 48,
        is_enabled: true,
        recipe_count: 12,
        function_count: (1usize << 32) + 3,
    });
    assert_eq!(info.id, "file/pack");
    assert_eq!(info.pack_format, 48);
    assert!(info.is_enabled);
    assert_eq!(info.recipe_count, 12);
    assert_eq!(info.function_count, 3);
}

#[test]
fn enable_positions_keep_their_anchor() {
    assert!(matches!(to_data_enable_position(EnablePosition::First), DatapackEnablePosition::First));
    assert!(matches!(to_data_enable_position(EnablePosition::Last), DatapackEnablePosition::Last));
    match to_data_enable_position(EnablePosition::Before("vanilla".to_string())) {
        DatapackEnablePosition::Before(id) => assert_eq!(id, "vanilla"),
        _ => panic!("expected Before"),
    }
    match to_data_enable_position(EnablePosition::After("x".to_string())) {
        DatapackEnablePosition::After(id) => assert_eq!(id, "x"),
        _ => panic!("expected After"),
    }
}
