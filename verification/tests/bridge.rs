use pumpkin_wasm_host::bridge::{
    AttributeModifierSlot, ClickType, EntityInteractionAction, FrameType, GameMode, Hand,
    InternalEntityPose, EntityPose, PermissionLevel, PermissionLvl, ActionType,
    WindowType, WitAttributeModifierSlot, WitClickType, WitFrameType, WitGameMode, WitHand,
    WitScreen, from_wasm_click_type, from_wasm_entity_interaction_action, from_wasm_game_mode,
    from_wasm_hand, from_wit_screen, has_permission_level, map_entity_pose, permission_level_of,
    to_data_slot, to_wasm_click_type, to_wasm_entity_interaction_action, to_wasm_frame_type,
    to_wasm_game_mode, to_wasm_hand, to_wit_screen, to_wit_slot,
};

#[test]
fn frames_and_poses_keep_their_names() {
    assert_eq!(to_wasm_frame_type(FrameType::Challenge), WitFrameType::Challenge);
    assert_eq!(to_wasm_frame_type(FrameType::Goal), WitFrameType::Goal);
    assert_eq!(map_entity_pose(InternalEntityPose::Inhaling), EntityPose::Inhaling);
    assert_eq!(map_entity_pose(InternalEntityPose::Standing), EntityPose::Standing);
}

#[test]
fn slots_convert_both_ways() {
    assert_eq!(to_data_slot(WitAttributeModifierSlot::Saddle), AttributeModifierSlot::Saddle);
    assert_eq!(to_wit_slot(&AttributeModifierSlot::OffHand), WitAttributeModifierSlot::OffHand);
    assert_eq!(to_wit_slot(&to_data_slot(WitAttributeModifierSlot::Armor)), WitAttributeModifierSlot::Armor);
}

#[test]
fn screens_convert_both_ways() {
    assert_eq!(to_wit_screen(WindowType::Generic9x3), WitScreen::Generic9x3);
    assert_eq!(from_wit_screen(WitScreen::Stonecutter), WindowType::Stonecutter);
    assert_eq!(from_wit_screen(to_wit_screen(WindowType::Crafter3x3)), WindowType::Crafter3x3);
}

#[test]
fn hands_modes_and_actions_convert_both_ways() {
    assert_eq!(to_wasm_hand(Hand::Left), WitHand::Left);
    assert_eq!(from_wasm_hand(WitHand::Right), Hand::Right);
    assert_eq!(to_wasm_game_mode(GameMode::Spectator), WitGameMode::Spectator);
    assert_eq!(from_wasm_game_mode(WitGameMode::Adventure), GameMode::Adventure);
    assert_eq!(to_wasm_entity_interaction_action(ActionType::InteractAt), EntityInteractionAction::InteractAt);
    assert_eq!(from_wasm_entity_interaction_action(EntityInteractionAction::Attack), ActionType::Attack);
}

#[test]
fn number_key_clicks_lose_their_key() {
    assert_eq!(to_wasm_click_type(ClickType::NumberKey(3)), WitClickType::NumberKey);
    assert_eq!(from_wasm_click_type(WitClickType::NumberKey), ClickType::NumberKey(0));
    assert_eq!(from_wasm_click_type(to_wasm_click_type(ClickType::NumberKey(3))), ClickType::NumberKey(0));
    assert_eq!(from_wasm_click_type(to_wasm_click_type(ClickType::ShiftLeft)), ClickType::ShiftLeft);
    assert_eq!(to_wasm_click_type(from_wasm_click_type(WitClickType::DoubleClick)), WitClickType::DoubleClick);
}

#[test]
fn permission_levels_are_ordered() {
    assert_eq!(permission_level_of(PermissionLvl::Two), PermissionLevel::Two);
    assert!(has_permission_level(PermissionLvl::Two, PermissionLevel::Two));
    assert!(has_permission_level(PermissionLvl::Four, PermissionLevel::Zero));
    assert!(!has_permission_level(PermissionLvl::One, PermissionLevel::Three));
    assert!(!has_permission_level(PermissionLvl::Zero, PermissionLevel::One));
}
