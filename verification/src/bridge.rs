//! Enumerations that cross the plugin interface, each in the form plugins
//! see and in the form the server keeps, with the conversions between them.

use vstd::prelude::*;

verus! {

/// Frame of an advancement, as the server keeps it.
#[derive(Clone, Copy, Debug, PartialEq, Eq, Structural)]
pub enum FrameType {
    Task,
    Challenge,
    Goal,
}

/// Frame of an advancement, as plugins see it.
#[derive(Clone, Copy, Debug, PartialEq, Eq, Structural)]
pub enum WitFrameType {
    Task,
    Challenge,
    Goal,
}

/// The plugin's advancement frame for the server's.
pub open spec fn spec_to_wasm_frame_type(v: FrameType) -> WitFrameType {
    match v {
        FrameType::Task => WitFrameType::Task,
        FrameType::Challenge => WitFrameType::Challenge,
        FrameType::Goal => WitFrameType::Goal,
    }
}

/// The plugin's advancement frame for the server's.
pub fn to_wasm_frame_type(v: FrameType) -> (res: WitFrameType)
    ensures
        res == spec_to_wasm_frame_type(v),
{
    match v {
        FrameType::Task => WitFrameType::Task,
        FrameType::Challenge => WitFrameType::Challenge,
        FrameType::Goal => WitFrameType::Goal,
    }
}

/// Distinct frames stay distinct for plugins.
pub proof fn lemma_frame_type_is_injective(a: FrameType, b: FrameType)
    requires
        spec_to_wasm_frame_type(a) == spec_to_wasm_frame_type(b),
    ensures
        a == b,
{
}

/// Equipment slot of an attribute modifier, as the server keeps it.
#[derive(Clone, Copy, Debug, PartialEq, Eq, Structural)]
pub enum AttributeModifierSlot {
    Any,
    MainHand,
    OffHand,
    Hand,
    Feet,
    Legs,
    Chest,
    Head,
    Armor,
    Body,
    Saddle,
}

/// Equipment slot of an attribute modifier, as plugins see it.
#[derive(Clone, Copy, Debug, PartialEq, Eq, Structural)]
pub enum WitAttributeModifierSlot {
    Any,
    MainHand,
    OffHand,
    Hand,
    Feet,
    Legs,
    Chest,
    Head,
    Armor,
    Body,
    Saddle,
}

/// The server's equipment slot for a plugin's.
pub open spec fn spec_to_data_slot(v: WitAttributeModifierSlot) -> AttributeModifierSlot {
    match v {
        WitAttributeModifierSlot::Any => AttributeModifierSlot::Any,
        WitAttributeModifierSlot::MainHand => AttributeModifierSlot::MainHand,
        WitAttributeModifierSlot::OffHand => AttributeModifierSlot::OffHand,
        WitAttributeModifierSlot::Hand => AttributeModifierSlot::Hand,
        WitAttributeModifierSlot::Feet => AttributeModifierSlot::Feet,
        WitAttributeModifierSlot::Legs => AttributeModifierSlot::Legs,
        WitAttributeModifierSlot::Chest => AttributeModifierSlot::Chest,
        WitAttributeModifierSlot::Head => AttributeModifierSlot::Head,
        WitAttributeModifierSlot::Armor => AttributeModifierSlot::Armor,
        WitAttributeModifierSlot::Body => AttributeModifierSlot::Body,
        WitAttributeModifierSlot::Saddle => AttributeModifierSlot::Saddle,
    }
}

/// The server's equipment slot for a plugin's.
pub fn to_data_slot(v: WitAttributeModifierSlot) -> (res: AttributeModifierSlot)
    ensures
        res == spec_to_data_slot(v),
{
    match v {
        WitAttributeModifierSlot::Any => AttributeModifierSlot::Any,
        WitAttributeModifierSlot::MainHand => AttributeModifierSlot::MainHand,
        WitAttributeModifierSlot::OffHand => AttributeModifierSlot::OffHand,
        WitAttributeModifierSlot::Hand => AttributeModifierSlot::Hand,
        WitAttributeModifierSlot::Feet => AttributeModifierSlot::Feet,
        WitAttributeModifierSlot::Legs => AttributeModifierSlot::Legs,
        WitAttributeModifierSlot::Chest => AttributeModifierSlot::Chest,
        WitAttributeModifierSlot::Head => AttributeModifierSlot::Head,
        WitAttributeModifierSlot::Armor => AttributeModifierSlot::Armor,
        WitAttributeModifierSlot::Body => AttributeModifierSlot::Body,
        WitAttributeModifierSlot::Saddle => AttributeModifierSlot::Saddle,
    }
}

/// The plugin's equipment slot for the server's.
pub open spec fn spec_to_wit_slot(v: AttributeModifierSlot) -> WitAttributeModifierSlot {
    match v {
        AttributeModifierSlot::Any => WitAttributeModifierSlot::Any,
        AttributeModifierSlot::MainHand => WitAttributeModifierSlot::MainHand,
        AttributeModifierSlot::OffHand => WitAttributeModifierSlot::OffHand,
        AttributeModifierSlot::Hand => WitAttributeModifierSlot::Hand,
        AttributeModifierSlot::Feet => WitAttributeModifierSlot::Feet,
        AttributeModifierSlot::Legs => WitAttributeModifierSlot::Legs,
        AttributeModifierSlot::Chest => WitAttributeModifierSlot::Chest,
        AttributeModifierSlot::Head => WitAttributeModifierSlot::Head,
        AttributeModifierSlot::Armor => WitAttributeModifierSlot::Armor,
        AttributeModifierSlot::Body => WitAttributeModifierSlot::Body,
        AttributeModifierSlot::Saddle => WitAttributeModifierSlot::Saddle,
    }
}

/// The plugin's equipment slot for the server's.
pub fn to_wit_slot(v: &AttributeModifierSlot) -> (res: WitAttributeModifierSlot)
    ensures
        res == spec_to_wit_slot(*v),
{
    match v {
        AttributeModifierSlot::Any => WitAttributeModifierSlot::Any,
        AttributeModifierSlot::MainHand => WitAttributeModifierSlot::MainHand,
        AttributeModifierSlot::OffHand => WitAttributeModifierSlot::OffHand,
        AttributeModifierSlot::Hand => WitAttributeModifierSlot::Hand,
        AttributeModifierSlot::Feet => WitAttributeModifierSlot::Feet,
        AttributeModifierSlot::Legs => WitAttributeModifierSlot::Legs,
        AttributeModifierSlot::Chest => WitAttributeModifierSlot::Chest,
        AttributeModifierSlot::Head => WitAttributeModifierSlot::Head,
        AttributeModifierSlot::Armor => WitAttributeModifierSlot::Armor,
        AttributeModifierSlot::Body => WitAttributeModifierSlot::Body,
        AttributeModifierSlot::Saddle => WitAttributeModifierSlot::Saddle,
    }
}

/// Equipment slots convert both ways without loss.
pub proof fn lemma_slot_round_trip(a: WitAttributeModifierSlot, b: AttributeModifierSlot)
    ensures
        spec_to_wit_slot(spec_to_data_slot(a)) == a,
        spec_to_data_slot(spec_to_wit_slot(b)) == b,
{
}

/// Kind of container window, as the server keeps it.
#[derive(Clone, Copy, Debug, PartialEq, Eq, Structural)]
pub enum WindowType {
    Generic9x1,
    Generic9x2,
    Generic9x3,
    Generic9x4,
    Generic9x5,
    Generic9x6,
    Generic3x3,
    Crafter3x3,
    Anvil,
    Beacon,
    BlastFurnace,
    BrewingStand,
    Crafting,
    Enchantment,
    Furnace,
    Grindstone,
    Hopper,
    Lectern,
    Loom,
    Merchant,
    ShulkerBox,
    Smithing,
    Smoker,
    CartographyTable,
    Stonecutter,
}

/// Kind of container window, as plugins see it.
#[derive(Clone, Copy, Debug, PartialEq, Eq, Structural)]
pub enum WitScreen {
    Generic9x1,
    Generic9x2,
    Generic9x3,
    Generic9x4,
    Generic9x5,
    Generic9x6,
    Generic3x3,
    Crafter3x3,
    Anvil,
    Beacon,
    BlastFurnace,
    BrewingStand,
    Crafting,
    Enchantment,
    Furnace,
    Grindstone,
    Hopper,
    Lectern,
    Loom,
    Merchant,
    ShulkerBox,
    Smithing,
    Smoker,
    CartographyTable,
    Stonecutter,
}

/// The plugin's window kind for the server's.
pub open spec fn spec_to_wit_screen(v: WindowType) -> WitScreen {
    match v {
        WindowType::Generic9x1 => WitScreen::Generic9x1,
        WindowType::Generic9x2 => WitScreen::Generic9x2,
        WindowType::Generic9x3 => WitScreen::Generic9x3,
        WindowType::Generic9x4 => WitScreen::Generic9x4,
        WindowType::Generic9x5 => WitScreen::Generic9x5,
        WindowType::Generic9x6 => WitScreen::Generic9x6,
        WindowType::Generic3x3 => WitScreen::Generic3x3,
        WindowType::Crafter3x3 => WitScreen::Crafter3x3,
        WindowType::Anvil => WitScreen::Anvil,
        WindowType::Beacon => WitScreen::Beacon,
        WindowType::BlastFurnace => WitScreen::BlastFurnace,
        WindowType::BrewingStand => WitScreen::BrewingStand,
        WindowType::Crafting => WitScreen::Crafting,
        WindowType::Enchantment => WitScreen::Enchantment,
        WindowType::Furnace => WitScreen::Furnace,
        WindowType::Grindstone => WitScreen::Grindstone,
        WindowType::Hopper => WitScreen::Hopper,
        WindowType::Lectern => WitScreen::Lectern,
        WindowType::Loom => WitScreen::Loom,
        WindowType::Merchant => WitScreen::Merchant,
        WindowType::ShulkerBox => WitScreen::ShulkerBox,
        WindowType::Smithing => WitScreen::Smithing,
        WindowType::Smoker => WitScreen::Smoker,
        WindowType::CartographyTable => WitScreen::CartographyTable,
        WindowType::Stonecutter => WitScreen::Stonecutter,
    }
}

/// The plugin's window kind for the server's.
pub fn to_wit_screen(v: WindowType) -> (res: WitScreen)
    ensures
        res == spec_to_wit_screen(v),
{
    match v {
        WindowType::Generic9x1 => WitScreen::Generic9x1,
        WindowType::Generic9x2 => WitScreen::Generic9x2,
        WindowType::Generic9x3 => WitScreen::Generic9x3,
        WindowType::Generic9x4 => WitScreen::Generic9x4,
        WindowType::Generic9x5 => WitScreen::Generic9x5,
        WindowType::Generic9x6 => WitScreen::Generic9x6,
        WindowType::Generic3x3 => WitScreen::Generic3x3,
        WindowType::Crafter3x3 => WitScreen::Crafter3x3,
        WindowType::Anvil => WitScreen::Anvil,
        WindowType::Beacon => WitScreen::Beacon,
        WindowType::BlastFurnace => WitScreen::BlastFurnace,
        WindowType::BrewingStand => WitScreen::BrewingStand,
        WindowType::Crafting => WitScreen::Crafting,
        WindowType::Enchantment => WitScreen::Enchantment,
        WindowType::Furnace => WitScreen::Furnace,
        WindowType::Grindstone => WitScreen::Grindstone,
        WindowType::Hopper => WitScreen::Hopper,
        WindowType::Lectern => WitScreen::Lectern,
        WindowType::Loom => WitScreen::Loom,
        WindowType::Merchant => WitScreen::Merchant,
        WindowType::ShulkerBox => WitScreen::ShulkerBox,
        WindowType::Smithing => WitScreen::Smithing,
        WindowType::Smoker => WitScreen::Smoker,
        WindowType::CartographyTable => WitScreen::CartographyTable,
        WindowType::Stonecutter => WitScreen::Stonecutter,
    }
}

/// The server's window kind for a plugin's.
pub open spec fn spec_from_wit_screen(v: WitScreen) -> WindowType {
    match v {
        WitScreen::Generic9x1 => WindowType::Generic9x1,
        WitScreen::Generic9x2 => WindowType::Generic9x2,
        WitScreen::Generic9x3 => WindowType::Generic9x3,
        WitScreen::Generic9x4 => WindowType::Generic9x4,
        WitScreen::Generic9x5 => WindowType::Generic9x5,
        WitScreen::Generic9x6 => WindowType::Generic9x6,
        WitScreen::Generic3x3 => WindowType::Generic3x3,
        WitScreen::Crafter3x3 => WindowType::Crafter3x3,
        WitScreen::Anvil => WindowType::Anvil,
        WitScreen::Beacon => WindowType::Beacon,
        WitScreen::BlastFurnace => WindowType::BlastFurnace,
        WitScreen::BrewingStand => WindowType::BrewingStand,
        WitScreen::Crafting => WindowType::Crafting,
        WitScreen::Enchantment => WindowType::Enchantment,
        WitScreen::Furnace => WindowType::Furnace,
        WitScreen::Grindstone => WindowType::Grindstone,
        WitScreen::Hopper => WindowType::Hopper,
        WitScreen::Lectern => WindowType::Lectern,
        WitScreen::Loom => WindowType::Loom,
        WitScreen::Merchant => WindowType::Merchant,
        WitScreen::ShulkerBox => WindowType::ShulkerBox,
        WitScreen::Smithing => WindowType::Smithing,
        WitScreen::Smoker => WindowType::Smoker,
        WitScreen::CartographyTable => WindowType::CartographyTable,
        WitScreen::Stonecutter => WindowType::Stonecutter,
    }
}

/// The server's window kind for a plugin's.
pub fn from_wit_screen(v: WitScreen) -> (res: WindowType)
    ensures
        res == spec_from_wit_screen(v),
{
    match v {
        WitScreen::Generic9x1 => WindowType::Generic9x1,
        WitScreen::Generic9x2 => WindowType::Generic9x2,
        WitScreen::Generic9x3 => WindowType::Generic9x3,
        WitScreen::Generic9x4 => WindowType::Generic9x4,
        WitScreen::Generic9x5 => WindowType::Generic9x5,
        WitScreen::Generic9x6 => WindowType::Generic9x6,
        WitScreen::Generic3x3 => WindowType::Generic3x3,
        WitScreen::Crafter3x3 => WindowType::Crafter3x3,
        WitScreen::Anvil => WindowType::Anvil,
        WitScreen::Beacon => WindowType::Beacon,
        WitScreen::BlastFurnace => WindowType::BlastFurnace,
        WitScreen::BrewingStand => WindowType::BrewingStand,
        WitScreen::Crafting => WindowType::Crafting,
        WitScreen::Enchantment => WindowType::Enchantment,
        WitScreen::Furnace => WindowType::Furnace,
        WitScreen::Grindstone => WindowType::Grindstone,
        WitScreen::Hopper => WindowType::Hopper,
        WitScreen::Lectern => WindowType::Lectern,
        WitScreen::Loom => WindowType::Loom,
        WitScreen::Merchant => WindowType::Merchant,
        WitScreen::ShulkerBox => WindowType::ShulkerBox,
        WitScreen::Smithing => WindowType::Smithing,
        WitScreen::Smoker => WindowType::Smoker,
        WitScreen::CartographyTable => WindowType::CartographyTable,
        WitScreen::Stonecutter => WindowType::Stonecutter,
    }
}

/// Window kinds convert both ways without loss.
pub proof fn lemma_screen_round_trip(a: WindowType, b: WitScreen)
    ensures
        spec_from_wit_screen(spec_to_wit_screen(a)) == a,
        spec_to_wit_screen(spec_from_wit_screen(b)) == b,
{
}

/// Pose of an entity, as the server keeps it.
#[derive(Clone, Copy, Debug, PartialEq, Eq, Structural)]
pub enum InternalEntityPose {
    Standing,
    FallFlying,
    Sleeping,
    Swimming,
    SpinAttack,
    Crouching,
    LongJumping,
    Dying,
    Croaking,
    UsingTongue,
    Sitting,
    Roaring,
    Sniffing,
    Emerging,
    Digging,
    Sliding,
    Shooting,
    Inhaling,
}

/// Pose of an entity, as plugins see it.
#[derive(Clone, Copy, Debug, PartialEq, Eq, Structural)]
pub enum EntityPose {
    Standing,
    FallFlying,
    Sleeping,
    Swimming,
    SpinAttack,
    Crouching,
    LongJumping,
    Dying,
    Croaking,
    UsingTongue,
    Sitting,
    Roaring,
    Sniffing,
    Emerging,
    Digging,
    Sliding,
    Shooting,
    Inhaling,
}

/// The plugin's entity pose for the server's.
pub open spec fn spec_map_entity_pose(v: InternalEntityPose) -> EntityPose {
    match v {
        InternalEntityPose::Standing => EntityPose::Standing,
        InternalEntityPose::FallFlying => EntityPose::FallFlying,
        InternalEntityPose::Sleeping => EntityPose::Sleeping,
        InternalEntityPose::Swimming => EntityPose::Swimming,
        InternalEntityPose::SpinAttack => EntityPose::SpinAttack,
        InternalEntityPose::Crouching => EntityPose::Crouching,
        InternalEntityPose::LongJumping => EntityPose::LongJumping,
        InternalEntityPose::Dying => EntityPose::Dying,
        InternalEntityPose::Croaking => EntityPose::Croaking,
        InternalEntityPose::UsingTongue => EntityPose::UsingTongue,
        InternalEntityPose::Sitting => EntityPose::Sitting,
        InternalEntityPose::Roaring => EntityPose::Roaring,
        InternalEntityPose::Sniffing => EntityPose::Sniffing,
        InternalEntityPose::Emerging => EntityPose::Emerging,
        InternalEntityPose::Digging => EntityPose::Digging,
        InternalEntityPose::Sliding => EntityPose::Sliding,
        InternalEntityPose::Shooting => EntityPose::Shooting,
        InternalEntityPose::Inhaling => EntityPose::Inhaling,
    }
}

/// The plugin's entity pose for the server's.
pub fn map_entity_pose(v: InternalEntityPose) -> (res: EntityPose)
    ensures
        res == spec_map_entity_pose(v),
{
    match v {
        InternalEntityPose::Standing => EntityPose::Standing,
        InternalEntityPose::FallFlying => EntityPose::FallFlying,
        InternalEntityPose::Sleeping => EntityPose::Sleeping,
        InternalEntityPose::Swimming => EntityPose::Swimming,
        InternalEntityPose::SpinAttack => EntityPose::SpinAttack,
        InternalEntityPose::Crouching => EntityPose::Crouching,
        InternalEntityPose::LongJumping => EntityPose::LongJumping,
        InternalEntityPose::Dying => EntityPose::Dying,
        InternalEntityPose::Croaking => EntityPose::Croaking,
        InternalEntityPose::UsingTongue => EntityPose::UsingTongue,
        InternalEntityPose::Sitting => EntityPose::Sitting,
        InternalEntityPose::Roaring => EntityPose::Roaring,
        InternalEntityPose::Sniffing => EntityPose::Sniffing,
        InternalEntityPose::Emerging => EntityPose::Emerging,
        InternalEntityPose::Digging => EntityPose::Digging,
        InternalEntityPose::Sliding => EntityPose::Sliding,
        InternalEntityPose::Shooting => EntityPose::Shooting,
        InternalEntityPose::Inhaling => EntityPose::Inhaling,
    }
}

/// Distinct poses stay distinct for plugins.
pub proof fn lemma_entity_pose_is_injective(a: InternalEntityPose, b: InternalEntityPose)
    requires
        spec_map_entity_pose(a) == spec_map_entity_pose(b),
    ensures
        a == b,
{
}

/// Hand of a player, as the server keeps it.
#[derive(Clone, Copy, Debug, PartialEq, Eq, Structural)]
pub enum Hand {
    Left,
    Right,
}

/// Hand of a player, as plugins see it.
#[derive(Clone, Copy, Debug, PartialEq, Eq, Structural)]
pub enum WitHand {
    Left,
    Right,
}

/// The plugin's hand for the server's.
pub open spec fn spec_to_wasm_hand(v: Hand) -> WitHand {
    match v {
        Hand::Left => WitHand::Left,
        Hand::Right => WitHand::Right,
    }
}

/// The plugin's hand for the server's.
pub fn to_wasm_hand(v: Hand) -> (res: WitHand)
    ensures
        res == spec_to_wasm_hand(v),
{
    match v {
        Hand::Left => WitHand::Left,
        Hand::Right => WitHand::Right,
    }
}

/// The server's hand for a plugin's.
pub open spec fn spec_from_wasm_hand(v: WitHand) -> Hand {
    match v {
        WitHand::Left => Hand::Left,
        WitHand::Right => Hand::Right,
    }
}

/// The server's hand for a plugin's.
pub fn from_wasm_hand(v: WitHand) -> (res: Hand)
    ensures
        res == spec_from_wasm_hand(v),
{
    match v {
        WitHand::Left => Hand::Left,
        WitHand::Right => Hand::Right,
    }
}

/// Hands convert both ways without loss.
pub proof fn lemma_hand_round_trip(a: Hand, b: WitHand)
    ensures
        spec_from_wasm_hand(spec_to_wasm_hand(a)) == a,
        spec_to_wasm_hand(spec_from_wasm_hand(b)) == b,
{
}

/// Game mode, as the server keeps it.
#[derive(Clone, Copy, Debug, PartialEq, Eq, Structural)]
pub enum GameMode {
    Survival,
    Creative,
    Adventure,
    Spectator,
}

/// Game mode, as plugins see it.
#[derive(Clone, Copy, Debug, PartialEq, Eq, Structural)]
pub enum WitGameMode {
    Survival,
    Creative,
    Adventure,
    Spectator,
}

/// The plugin's game mode for the server's.
pub open spec fn spec_to_wasm_game_mode(v: GameMode) -> WitGameMode {
    match v {
        GameMode::Survival => WitGameMode::Survival,
        GameMode::Creative => WitGameMode::Creative,
        GameMode::Adventure => WitGameMode::Adventure,
        GameMode::Spectator => WitGameMode::Spectator,
    }
}

/// The plugin's game mode for the server's.
pub fn to_wasm_game_mode(v: GameMode) -> (res: WitGameMode)
    ensures
        res == spec_to_wasm_game_mode(v),
{
    match v {
        GameMode::Survival => WitGameMode::Survival,
        GameMode::Creative => WitGameMode::Creative,
        GameMode::Adventure => WitGameMode::Adventure,
        GameMode::Spectator => WitGameMode::Spectator,
    }
}

/// The server's game mode for a plugin's.
pub open spec fn spec_from_wasm_game_mode(v: WitGameMode) -> GameMode {
    match v {
        WitGameMode::Survival => GameMode::Survival,
        WitGameMode::Creative => GameMode::Creative,
        WitGameMode::Adventure => GameMode::Adventure,
        WitGameMode::Spectator => GameMode::Spectator,
    }
}

/// The server's game mode for a plugin's.
pub fn from_wasm_game_mode(v: WitGameMode) -> (res: GameMode)
    ensures
        res == spec_from_wasm_game_mode(v),
{
    match v {
        WitGameMode::Survival => GameMode::Survival,
        WitGameMode::Creative => GameMode::Creative,
        WitGameMode::Adventure => GameMode::Adventure,
        WitGameMode::Spectator => GameMode::Spectator,
    }
}

/// Game modes convert both ways without loss.
pub proof fn lemma_game_mode_round_trip(a: GameMode, b: WitGameMode)
    ensures
        spec_from_wasm_game_mode(spec_to_wasm_game_mode(a)) == a,
        spec_to_wasm_game_mode(spec_from_wasm_game_mode(b)) == b,
{
}

/// Kind of interaction of a player with an entity, as the server keeps it.
#[derive(Clone, Copy, Debug, PartialEq, Eq, Structural)]
pub enum ActionType {
    Interact,
    Attack,
    InteractAt,
}

/// Kind of interaction of a player with an entity, as plugins see it.
#[derive(Clone, Copy, Debug, PartialEq, Eq, Structural)]
pub enum EntityInteractionAction {
    Interact,
    Attack,
    InteractAt,
}

/// The plugin's interaction kind for the server's.
pub open spec fn spec_to_wasm_entity_interaction_action(v: ActionType) -> EntityInteractionAction {
    match v {
        ActionType::Interact => EntityInteractionAction::Interact,
        ActionType::Attack => EntityInteractionAction::Attack,
        ActionType::InteractAt => EntityInteractionAction::InteractAt,
    }
}

/// The plugin's interaction kind for the server's.
pub fn to_wasm_entity_interaction_action(v: ActionType) -> (res: EntityInteractionAction)
    ensures
        res == spec_to_wasm_entity_interaction_action(v),
{
    match v {
        ActionType::Interact => EntityInteractionAction::Interact,
        ActionType::Attack => EntityInteractionAction::Attack,
        ActionType::InteractAt => EntityInteractionAction::InteractAt,
    }
}

/// The server's interaction kind for a plugin's.
pub open spec fn spec_from_wasm_entity_interaction_action(v: EntityInteractionAction) -> ActionType {
    match v {
        EntityInteractionAction::Interact => ActionType::Interact,
        EntityInteractionAction::Attack => ActionType::Attack,
        EntityInteractionAction::InteractAt => ActionType::InteractAt,
    }
}

/// The server's interaction kind for a plugin's.
pub fn from_wasm_entity_interaction_action(v: EntityInteractionAction) -> (res: ActionType)
    ensures
        res == spec_from_wasm_entity_interaction_action(v),
{
    match v {
        EntityInteractionAction::Interact => ActionType::Interact,
        EntityInteractionAction::Attack => ActionType::Attack,
        EntityInteractionAction::InteractAt => ActionType::InteractAt,
    }
}

/// Interaction kinds convert both ways without loss.
pub proof fn lemma_entity_interaction_round_trip(a: ActionType, b: EntityInteractionAction)
    ensures
        spec_from_wasm_entity_interaction_action(spec_to_wasm_entity_interaction_action(a)) == a,
        spec_to_wasm_entity_interaction_action(spec_from_wasm_entity_interaction_action(b)) == b,
{
}

/// Kind of click in a container window, as the server keeps it; a number key
/// click carries the number of the key.
#[derive(Clone, Copy, Debug, PartialEq, Eq, Structural)]
pub enum ClickType {
    Left,
    Right,
    ShiftLeft,
    ShiftRight,
    Middle,
    Drop,
    ControlDrop,
    DoubleClick,
    NumberKey(u8),
    Unknown,
}

/// Kind of click in a container window, as plugins see it.
#[derive(Clone, Copy, Debug, PartialEq, Eq, Structural)]
pub enum WitClickType {
    Left,
    Right,
    ShiftLeft,
    ShiftRight,
    Middle,
    Drop,
    ControlDrop,
    DoubleClick,
    NumberKey,
    Unknown,
}

/// The plugin's click kind for the server's; the number of a number key is
/// not passed on.
pub open spec fn spec_to_wasm_click_type(v: ClickType) -> WitClickType {
    match v {
        ClickType::Left => WitClickType::Left,
        ClickType::Right => WitClickType::Right,
        ClickType::ShiftLeft => WitClickType::ShiftLeft,
        ClickType::ShiftRight => WitClickType::ShiftRight,
        ClickType::Middle => WitClickType::Middle,
        ClickType::Drop => WitClickType::Drop,
        ClickType::ControlDrop => WitClickType::ControlDrop,
        ClickType::DoubleClick => WitClickType::DoubleClick,
        ClickType::NumberKey(_) => WitClickType::NumberKey,
        ClickType::Unknown => WitClickType::Unknown,
    }
}

/// The plugin's click kind for the server's; the number of a number key is
/// not passed on.
pub fn to_wasm_click_type(v: ClickType) -> (res: WitClickType)
    ensures
        res == spec_to_wasm_click_type(v),
{
    match v {
        ClickType::Left => WitClickType::Left,
        ClickType::Right => WitClickType::Right,
        ClickType::ShiftLeft => WitClickType::ShiftLeft,
        ClickType::ShiftRight => WitClickType::ShiftRight,
        ClickType::Middle => WitClickType::Middle,
        ClickType::Drop => WitClickType::Drop,
        ClickType::ControlDrop => WitClickType::ControlDrop,
        ClickType::DoubleClick => WitClickType::DoubleClick,
        ClickType::NumberKey(_) => WitClickType::NumberKey,
        ClickType::Unknown => WitClickType::Unknown,
    }
}

/// The server's click kind for a plugin's; a number key click gets key 0.
pub open spec fn spec_from_wasm_click_type(v: WitClickType) -> ClickType {
    match v {
        WitClickType::Left => ClickType::Left,
        WitClickType::Right => ClickType::Right,
        WitClickType::ShiftLeft => ClickType::ShiftLeft,
        WitClickType::ShiftRight => ClickType::ShiftRight,
        WitClickType::Middle => ClickType::Middle,
        WitClickType::Drop => ClickType::Drop,
        WitClickType::ControlDrop => ClickType::ControlDrop,
        WitClickType::DoubleClick => ClickType::DoubleClick,
        WitClickType::NumberKey => ClickType::NumberKey(0),
        WitClickType::Unknown => ClickType::Unknown,
    }
}

/// The server's click kind for a plugin's; a number key click gets key 0.
pub fn from_wasm_click_type(v: WitClickType) -> (res: ClickType)
    ensures
        res == spec_from_wasm_click_type(v),
{
    match v {
        WitClickType::Left => ClickType::Left,
        WitClickType::Right => ClickType::Right,
        WitClickType::ShiftLeft => ClickType::ShiftLeft,
        WitClickType::ShiftRight => ClickType::ShiftRight,
        WitClickType::Middle => ClickType::Middle,
        WitClickType::Drop => ClickType::Drop,
        WitClickType::ControlDrop => ClickType::ControlDrop,
        WitClickType::DoubleClick => ClickType::DoubleClick,
        WitClickType::NumberKey => ClickType::NumberKey(0),
        WitClickType::Unknown => ClickType::Unknown,
    }
}

/// A plugin's click kind survives the trip to the server and back.
pub proof fn lemma_wit_click_type_round_trip(v: WitClickType)
    ensures
        spec_to_wasm_click_type(spec_from_wasm_click_type(v)) == v,
{
}

/// A server click survives the trip to the plugin and back, unless it is a
/// number key click on a key other than 0.
pub proof fn lemma_click_type_round_trip(v: ClickType)
    requires
        !(v matches ClickType::NumberKey(key) && key != 0),
    ensures
        spec_from_wasm_click_type(spec_to_wasm_click_type(v)) == v,
{
}

/// Permission level of a command sender, as the server keeps it.
#[derive(Clone, Copy, Debug, PartialEq, Eq, Structural)]
pub enum PermissionLvl {
    Zero,
    One,
    Two,
    Three,
    Four,
}

/// Permission level of a command sender, as plugins see it.
#[derive(Clone, Copy, Debug, PartialEq, Eq, Structural)]
pub enum PermissionLevel {
    Zero,
    One,
    Two,
    Three,
    Four,
}

/// Rank of a server permission level: the levels are ordered from `Zero` up
/// to `Four`.
pub open spec fn level_rank(level: PermissionLvl) -> int {
    match level {
        PermissionLvl::Zero => 0,
        PermissionLvl::One => 1,
        PermissionLvl::Two => 2,
        PermissionLvl::Three => 3,
        PermissionLvl::Four => 4,
    }
}

/// Rank of a permission level as plugins name it: from `Zero` up to `Four`,
/// as on the server.
pub open spec fn plugin_level_rank(level: PermissionLevel) -> int {
    match level {
        PermissionLevel::Zero => 0,
        PermissionLevel::One => 1,
        PermissionLevel::Two => 2,
        PermissionLevel::Three => 3,
        PermissionLevel::Four => 4,
    }
}

/// Rank of a server permission level.
pub fn permission_rank(level: PermissionLvl) -> (res: u8)
    ensures
        res == level_rank(level),
{
    match level {
        PermissionLvl::Zero => 0,
        PermissionLvl::One => 1,
        PermissionLvl::Two => 2,
        PermissionLvl::Three => 3,
        PermissionLvl::Four => 4,
    }
}

/// The plugin's permission level for the server's.
pub open spec fn spec_permission_level_of(level: PermissionLvl) -> PermissionLevel {
    match level {
        PermissionLvl::Zero => PermissionLevel::Zero,
        PermissionLvl::One => PermissionLevel::One,
        PermissionLvl::Two => PermissionLevel::Two,
        PermissionLvl::Three => PermissionLevel::Three,
        PermissionLvl::Four => PermissionLevel::Four,
    }
}

/// The permission level that a plugin is told a sender has.
pub fn permission_level_of(level: PermissionLvl) -> (res: PermissionLevel)
    ensures
        res == spec_permission_level_of(level),
{
    match level {
        PermissionLvl::Zero => PermissionLevel::Zero,
        PermissionLvl::One => PermissionLevel::One,
        PermissionLvl::Two => PermissionLevel::Two,
        PermissionLvl::Three => PermissionLevel::Three,
        PermissionLvl::Four => PermissionLevel::Four,
    }
}

/// The server's permission level for a plugin's.
pub open spec fn spec_required_level(level: PermissionLevel) -> PermissionLvl {
    match level {
        PermissionLevel::Zero => PermissionLvl::Zero,
        PermissionLevel::One => PermissionLvl::One,
        PermissionLevel::Two => PermissionLvl::Two,
        PermissionLevel::Three => PermissionLvl::Three,
        PermissionLevel::Four => PermissionLvl::Four,
    }
}

/// Whether a sender of permission level `sender_level` has the level that a
/// plugin asks about: its level is that one or a higher one.
pub fn has_permission_level(sender_level: PermissionLvl, level: PermissionLevel) -> (res: bool)
    ensures
        res == (level_rank(sender_level) >= level_rank(spec_required_level(level))),
        res == (level_rank(sender_level) >= plugin_level_rank(level)),
{
    let required = match level {
        PermissionLevel::Zero => PermissionLvl::Zero,
        PermissionLevel::One => PermissionLvl::One,
        PermissionLevel::Two => PermissionLvl::Two,
        PermissionLevel::Three => PermissionLvl::Three,
        PermissionLevel::Four => PermissionLvl::Four,
    };
    permission_rank(sender_level) >= permission_rank(required)
}

/// The server level that a plugin's permission level asks for has the same
/// rank: a sender has level `l` exactly when its own level is `l` or higher
/// in `Zero < One < Two < Three < Four`, so only a sender of level `Four` has
/// level `Four`.
pub proof fn lemma_required_level_keeps_rank(sender_level: PermissionLvl, level: PermissionLevel)
    ensures
        level_rank(spec_required_level(level)) == plugin_level_rank(level),
        level_rank(sender_level) >= level_rank(spec_required_level(level)) <==> level_rank(
            sender_level,
        ) >= plugin_level_rank(level),
        level == PermissionLevel::Four ==> (level_rank(sender_level) >= level_rank(
            spec_required_level(level),
        ) <==> sender_level == PermissionLvl::Four),
{
}

/// A plugin is told the level of the same rank as the sender's.
pub proof fn lemma_permission_level_of_keeps_rank(level: PermissionLvl)
    ensures
        plugin_level_rank(spec_permission_level_of(level)) == level_rank(level),
{
}

/// A sender has the permission level that a plugin is told it has.
pub proof fn lemma_sender_has_own_level(sender_level: PermissionLvl)
    ensures
        level_rank(sender_level) >= level_rank(
            spec_required_level(spec_permission_level_of(sender_level)),
        ),
{
}

/// The name of each `FrameType` variant, as text.
pub open spec fn frame_type_name(v: FrameType) -> Seq<char> {
    match v {
        FrameType::Task => "Task"@,
        FrameType::Challenge => "Challenge"@,
        FrameType::Goal => "Goal"@,
    }
}

/// The name of each `WitFrameType` variant, as text.
pub open spec fn wit_frame_type_name(v: WitFrameType) -> Seq<char> {
    match v {
        WitFrameType::Task => "Task"@,
        WitFrameType::Challenge => "Challenge"@,
        WitFrameType::Goal => "Goal"@,
    }
}

/// A frame type reaches plugins as the frame type of the same name.
pub proof fn lemma_to_wasm_frame_type_keeps_name(v: FrameType)
    ensures
        wit_frame_type_name(spec_to_wasm_frame_type(v)) == frame_type_name(v),
{
    match v {
        FrameType::Task => {},
        FrameType::Challenge => {},
        FrameType::Goal => {},
    }
}

/// The name of each `WitAttributeModifierSlot` variant, as text.
pub open spec fn wit_attribute_modifier_slot_name(v: WitAttributeModifierSlot) -> Seq<char> {
    match v {
        WitAttributeModifierSlot::Any => "Any"@,
        WitAttributeModifierSlot::MainHand => "MainHand"@,
        WitAttributeModifierSlot::OffHand => "OffHand"@,
        WitAttributeModifierSlot::Hand => "Hand"@,
        WitAttributeModifierSlot::Feet => "Feet"@,
        WitAttributeModifierSlot::Legs => "Legs"@,
        WitAttributeModifierSlot::Chest => "Chest"@,
        WitAttributeModifierSlot::Head => "Head"@,
        WitAttributeModifierSlot::Armor => "Armor"@,
        WitAttributeModifierSlot::Body => "Body"@,
        WitAttributeModifierSlot::Saddle => "Saddle"@,
    }
}

/// The name of each `AttributeModifierSlot` variant, as text.
pub open spec fn attribute_modifier_slot_name(v: AttributeModifierSlot) -> Seq<char> {
    match v {
        AttributeModifierSlot::Any => "Any"@,
        AttributeModifierSlot::MainHand => "MainHand"@,
        AttributeModifierSlot::OffHand => "OffHand"@,
        AttributeModifierSlot::Hand => "Hand"@,
        AttributeModifierSlot::Feet => "Feet"@,
        AttributeModifierSlot::Legs => "Legs"@,
        AttributeModifierSlot::Chest => "Chest"@,
        AttributeModifierSlot::Head => "Head"@,
        AttributeModifierSlot::Armor => "Armor"@,
        AttributeModifierSlot::Body => "Body"@,
        AttributeModifierSlot::Saddle => "Saddle"@,
    }
}

/// A plugin's attribute slot becomes the server slot of the same name.
pub proof fn lemma_to_data_slot_keeps_name(v: WitAttributeModifierSlot)
    ensures
        attribute_modifier_slot_name(spec_to_data_slot(v)) == wit_attribute_modifier_slot_name(v),
{
    match v {
        WitAttributeModifierSlot::Any => {},
        WitAttributeModifierSlot::MainHand => {},
        WitAttributeModifierSlot::OffHand => {},
        WitAttributeModifierSlot::Hand => {},
        WitAttributeModifierSlot::Feet => {},
        WitAttributeModifierSlot::Legs => {},
        WitAttributeModifierSlot::Chest => {},
        WitAttributeModifierSlot::Head => {},
        WitAttributeModifierSlot::Armor => {},
        WitAttributeModifierSlot::Body => {},
        WitAttributeModifierSlot::Saddle => {},
    }
}

/// A server attribute slot reaches plugins as the slot of the same name.
pub proof fn lemma_to_wit_slot_keeps_name(v: AttributeModifierSlot)
    ensures
        wit_attribute_modifier_slot_name(spec_to_wit_slot(v)) == attribute_modifier_slot_name(v),
{
    match v {
        AttributeModifierSlot::Any => {},
        AttributeModifierSlot::MainHand => {},
        AttributeModifierSlot::OffHand => {},
        AttributeModifierSlot::Hand => {},
        AttributeModifierSlot::Feet => {},
        AttributeModifierSlot::Legs => {},
        AttributeModifierSlot::Chest => {},
        AttributeModifierSlot::Head => {},
        AttributeModifierSlot::Armor => {},
        AttributeModifierSlot::Body => {},
        AttributeModifierSlot::Saddle => {},
    }
}

/// The name of each `WindowType` variant, as text.
pub open spec fn window_type_name(v: WindowType) -> Seq<char> {
    match v {
        WindowType::Generic9x1 => "Generic9x1"@,
        WindowType::Generic9x2 => "Generic9x2"@,
        WindowType::Generic9x3 => "Generic9x3"@,
        WindowType::Generic9x4 => "Generic9x4"@,
        WindowType::Generic9x5 => "Generic9x5"@,
        WindowType::Generic9x6 => "Generic9x6"@,
        WindowType::Generic3x3 => "Generic3x3"@,
        WindowType::Crafter3x3 => "Crafter3x3"@,
        WindowType::Anvil => "Anvil"@,
        WindowType::Beacon => "Beacon"@,
        WindowType::BlastFurnace => "BlastFurnace"@,
        WindowType::BrewingStand => "BrewingStand"@,
        WindowType::Crafting => "Crafting"@,
        WindowType::Enchantment => "Enchantment"@,
        WindowType::Furnace => "Furnace"@,
        WindowType::Grindstone => "Grindstone"@,
        WindowType::Hopper => "Hopper"@,
        WindowType::Lectern => "Lectern"@,
        WindowType::Loom => "Loom"@,
        WindowType::Merchant => "Merchant"@,
        WindowType::ShulkerBox => "ShulkerBox"@,
        WindowType::Smithing => "Smithing"@,
        WindowType::Smoker => "Smoker"@,
        WindowType::CartographyTable => "CartographyTable"@,
        WindowType::Stonecutter => "Stonecutter"@,
    }
}

/// The name of each `WitScreen` variant, as text.
pub open spec fn wit_screen_name(v: WitScreen) -> Seq<char> {
    match v {
        WitScreen::Generic9x1 => "Generic9x1"@,
        WitScreen::Generic9x2 => "Generic9x2"@,
        WitScreen::Generic9x3 => "Generic9x3"@,
        WitScreen::Generic9x4 => "Generic9x4"@,
        WitScreen::Generic9x5 => "Generic9x5"@,
        WitScreen::Generic9x6 => "Generic9x6"@,
        WitScreen::Generic3x3 => "Generic3x3"@,
        WitScreen::Crafter3x3 => "Crafter3x3"@,
        WitScreen::Anvil => "Anvil"@,
        WitScreen::Beacon => "Beacon"@,
        WitScreen::BlastFurnace => "BlastFurnace"@,
        WitScreen::BrewingStand => "BrewingStand"@,
        WitScreen::Crafting => "Crafting"@,
        WitScreen::Enchantment => "Enchantment"@,
        WitScreen::Furnace => "Furnace"@,
        WitScreen::Grindstone => "Grindstone"@,
        WitScreen::Hopper => "Hopper"@,
        WitScreen::Lectern => "Lectern"@,
        WitScreen::Loom => "Loom"@,
        WitScreen::Merchant => "Merchant"@,
        WitScreen::ShulkerBox => "ShulkerBox"@,
        WitScreen::Smithing => "Smithing"@,
        WitScreen::Smoker => "Smoker"@,
        WitScreen::CartographyTable => "CartographyTable"@,
        WitScreen::Stonecutter => "Stonecutter"@,
    }
}

/// A server window type reaches plugins as the screen of the same name.
pub proof fn lemma_to_wit_screen_keeps_name(v: WindowType)
    ensures
        wit_screen_name(spec_to_wit_screen(v)) == window_type_name(v),
{
    match v {
        WindowType::Generic9x1 => {},
        WindowType::Generic9x2 => {},
        WindowType::Generic9x3 => {},
        WindowType::Generic9x4 => {},
        WindowType::Generic9x5 => {},
        WindowType::Generic9x6 => {},
        WindowType::Generic3x3 => {},
        WindowType::Crafter3x3 => {},
        WindowType::Anvil => {},
        WindowType::Beacon => {},
        WindowType::BlastFurnace => {},
        WindowType::BrewingStand => {},
        WindowType::Crafting => {},
        WindowType::Enchantment => {},
        WindowType::Furnace => {},
        WindowType::Grindstone => {},
        WindowType::Hopper => {},
        WindowType::Lectern => {},
        WindowType::Loom => {},
        WindowType::Merchant => {},
        WindowType::ShulkerBox => {},
        WindowType::Smithing => {},
        WindowType::Smoker => {},
        WindowType::CartographyTable => {},
        WindowType::Stonecutter => {},
    }
}

/// A plugin's screen becomes the server window type of the same name.
pub proof fn lemma_from_wit_screen_keeps_name(v: WitScreen)
    ensures
        window_type_name(spec_from_wit_screen(v)) == wit_screen_name(v),
{
    match v {
        WitScreen::Generic9x1 => {},
        WitScreen::Generic9x2 => {},
        WitScreen::Generic9x3 => {},
        WitScreen::Generic9x4 => {},
        WitScreen::Generic9x5 => {},
        WitScreen::Generic9x6 => {},
        WitScreen::Generic3x3 => {},
        WitScreen::Crafter3x3 => {},
        WitScreen::Anvil => {},
        WitScreen::Beacon => {},
        WitScreen::BlastFurnace => {},
        WitScreen::BrewingStand => {},
        WitScreen::Crafting => {},
        WitScreen::Enchantment => {},
        WitScreen::Furnace => {},
        WitScreen::Grindstone => {},
        WitScreen::Hopper => {},
        WitScreen::Lectern => {},
        WitScreen::Loom => {},
        WitScreen::Merchant => {},
        WitScreen::ShulkerBox => {},
        WitScreen::Smithing => {},
        WitScreen::Smoker => {},
        WitScreen::CartographyTable => {},
        WitScreen::Stonecutter => {},
    }
}

/// The name of each `InternalEntityPose` variant, as text.
pub open spec fn internal_entity_pose_name(v: InternalEntityPose) -> Seq<char> {
    match v {
        InternalEntityPose::Standing => "Standing"@,
        InternalEntityPose::FallFlying => "FallFlying"@,
        InternalEntityPose::Sleeping => "Sleeping"@,
        InternalEntityPose::Swimming => "Swimming"@,
        InternalEntityPose::SpinAttack => "SpinAttack"@,
        InternalEntityPose::Crouching => "Crouching"@,
        InternalEntityPose::LongJumping => "LongJumping"@,
        InternalEntityPose::Dying => "Dying"@,
        InternalEntityPose::Croaking => "Croaking"@,
        InternalEntityPose::UsingTongue => "UsingTongue"@,
        InternalEntityPose::Sitting => "Sitting"@,
        InternalEntityPose::Roaring => "Roaring"@,
        InternalEntityPose::Sniffing => "Sniffing"@,
        InternalEntityPose::Emerging => "Emerging"@,
        InternalEntityPose::Digging => "Digging"@,
        InternalEntityPose::Sliding => "Sliding"@,
        InternalEntityPose::Shooting => "Shooting"@,
        InternalEntityPose::Inhaling => "Inhaling"@,
    }
}

/// The name of each `EntityPose` variant, as text.
pub open spec fn entity_pose_name(v: EntityPose) -> Seq<char> {
    match v {
        EntityPose::Standing => "Standing"@,
        EntityPose::FallFlying => "FallFlying"@,
        EntityPose::Sleeping => "Sleeping"@,
        EntityPose::Swimming => "Swimming"@,
        EntityPose::SpinAttack => "SpinAttack"@,
        EntityPose::Crouching => "Crouching"@,
        EntityPose::LongJumping => "LongJumping"@,
        EntityPose::Dying => "Dying"@,
        EntityPose::Croaking => "Croaking"@,
        EntityPose::UsingTongue => "UsingTongue"@,
        EntityPose::Sitting => "Sitting"@,
        EntityPose::Roaring => "Roaring"@,
        EntityPose::Sniffing => "Sniffing"@,
        EntityPose::Emerging => "Emerging"@,
        EntityPose::Digging => "Digging"@,
        EntityPose::Sliding => "Sliding"@,
        EntityPose::Shooting => "Shooting"@,
        EntityPose::Inhaling => "Inhaling"@,
    }
}

/// A server entity pose reaches plugins as the pose of the same name.
pub proof fn lemma_map_entity_pose_keeps_name(v: InternalEntityPose)
    ensures
        entity_pose_name(spec_map_entity_pose(v)) == internal_entity_pose_name(v),
{
    match v {
        InternalEntityPose::Standing => {},
        InternalEntityPose::FallFlying => {},
        InternalEntityPose::Sleeping => {},
        InternalEntityPose::Swimming => {},
        InternalEntityPose::SpinAttack => {},
        InternalEntityPose::Crouching => {},
        InternalEntityPose::LongJumping => {},
        InternalEntityPose::Dying => {},
        InternalEntityPose::Croaking => {},
        InternalEntityPose::UsingTongue => {},
        InternalEntityPose::Sitting => {},
        InternalEntityPose::Roaring => {},
        InternalEntityPose::Sniffing => {},
        InternalEntityPose::Emerging => {},
        InternalEntityPose::Digging => {},
        InternalEntityPose::Sliding => {},
        InternalEntityPose::Shooting => {},
        InternalEntityPose::Inhaling => {},
    }
}

/// The name of each `Hand` variant, as text.
pub open spec fn hand_name(v: Hand) -> Seq<char> {
    match v {
        Hand::Left => "Left"@,
        Hand::Right => "Right"@,
    }
}

/// The name of each `WitHand` variant, as text.
pub open spec fn wit_hand_name(v: WitHand) -> Seq<char> {
    match v {
        WitHand::Left => "Left"@,
        WitHand::Right => "Right"@,
    }
}

/// A server hand reaches plugins as the hand of the same name.
pub proof fn lemma_to_wasm_hand_keeps_name(v: Hand)
    ensures
        wit_hand_name(spec_to_wasm_hand(v)) == hand_name(v),
{
    match v {
        Hand::Left => {},
        Hand::Right => {},
    }
}

/// A plugin's hand becomes the server hand of the same name.
pub proof fn lemma_from_wasm_hand_keeps_name(v: WitHand)
    ensures
        hand_name(spec_from_wasm_hand(v)) == wit_hand_name(v),
{
    match v {
        WitHand::Left => {},
        WitHand::Right => {},
    }
}

/// The name of each `GameMode` variant, as text.
pub open spec fn game_mode_name(v: GameMode) -> Seq<char> {
    match v {
        GameMode::Survival => "Survival"@,
        GameMode::Creative => "Creative"@,
        GameMode::Adventure => "Adventure"@,
        GameMode::Spectator => "Spectator"@,
    }
}

/// The name of each `WitGameMode` variant, as text.
pub open spec fn wit_game_mode_name(v: WitGameMode) -> Seq<char> {
    match v {
        WitGameMode::Survival => "Survival"@,
        WitGameMode::Creative => "Creative"@,
        WitGameMode::Adventure => "Adventure"@,
        WitGameMode::Spectator => "Spectator"@,
    }
}

/// A server game mode reaches plugins as the game mode of the same name.
pub proof fn lemma_to_wasm_game_mode_keeps_name(v: GameMode)
    ensures
        wit_game_mode_name(spec_to_wasm_game_mode(v)) == game_mode_name(v),
{
    match v {
        GameMode::Survival => {},
        GameMode::Creative => {},
        GameMode::Adventure => {},
        GameMode::Spectator => {},
    }
}

/// A plugin's game mode becomes the server game mode of the same name.
pub proof fn lemma_from_wasm_game_mode_keeps_name(v: WitGameMode)
    ensures
        game_mode_name(spec_from_wasm_game_mode(v)) == wit_game_mode_name(v),
{
    match v {
        WitGameMode::Survival => {},
        WitGameMode::Creative => {},
        WitGameMode::Adventure => {},
        WitGameMode::Spectator => {},
    }
}

/// The name of each `ActionType` variant, as text.
pub open spec fn action_type_name(v: ActionType) -> Seq<char> {
    match v {
        ActionType::Interact => "Interact"@,
        ActionType::Attack => "Attack"@,
        ActionType::InteractAt => "InteractAt"@,
    }
}

/// The name of each `EntityInteractionAction` variant, as text.
pub open spec fn entity_interaction_action_name(v: EntityInteractionAction) -> Seq<char> {
    match v {
        EntityInteractionAction::Interact => "Interact"@,
        EntityInteractionAction::Attack => "Attack"@,
        EntityInteractionAction::InteractAt => "InteractAt"@,
    }
}

/// A server interaction reaches plugins as the action of the same name.
pub proof fn lemma_to_wasm_entity_interaction_action_keeps_name(v: ActionType)
    ensures
        entity_interaction_action_name(spec_to_wasm_entity_interaction_action(v)) == action_type_name(v),
{
    match v {
        ActionType::Interact => {},
        ActionType::Attack => {},
        ActionType::InteractAt => {},
    }
}

/// A plugin's interaction action becomes the server action of the same name.
pub proof fn lemma_from_wasm_entity_interaction_action_keeps_name(v: EntityInteractionAction)
    ensures
        action_type_name(spec_from_wasm_entity_interaction_action(v)) == entity_interaction_action_name(v),
{
    match v {
        EntityInteractionAction::Interact => {},
        EntityInteractionAction::Attack => {},
        EntityInteractionAction::InteractAt => {},
    }
}

/// The name of each `ClickType` variant, as text.
pub open spec fn click_type_name(v: ClickType) -> Seq<char> {
    match v {
        ClickType::Left => "Left"@,
        ClickType::Right => "Right"@,
        ClickType::ShiftLeft => "ShiftLeft"@,
        ClickType::ShiftRight => "ShiftRight"@,
        ClickType::Middle => "Middle"@,
        ClickType::Drop => "Drop"@,
        ClickType::ControlDrop => "ControlDrop"@,
        ClickType::DoubleClick => "DoubleClick"@,
        ClickType::NumberKey(..) => "NumberKey"@,
        ClickType::Unknown => "Unknown"@,
    }
}

/// The name of each `WitClickType` variant, as text.
pub open spec fn wit_click_type_name(v: WitClickType) -> Seq<char> {
    match v {
        WitClickType::Left => "Left"@,
        WitClickType::Right => "Right"@,
        WitClickType::ShiftLeft => "ShiftLeft"@,
        WitClickType::ShiftRight => "ShiftRight"@,
        WitClickType::Middle => "Middle"@,
        WitClickType::Drop => "Drop"@,
        WitClickType::ControlDrop => "ControlDrop"@,
        WitClickType::DoubleClick => "DoubleClick"@,
        WitClickType::NumberKey => "NumberKey"@,
        WitClickType::Unknown => "Unknown"@,
    }
}

/// A server click reaches plugins as the click kind of the same name.
pub proof fn lemma_to_wasm_click_type_keeps_name(v: ClickType)
    ensures
        wit_click_type_name(spec_to_wasm_click_type(v)) == click_type_name(v),
{
    match v {
        ClickType::Left => {},
        ClickType::Right => {},
        ClickType::ShiftLeft => {},
        ClickType::ShiftRight => {},
        ClickType::Middle => {},
        ClickType::Drop => {},
        ClickType::ControlDrop => {},
        ClickType::DoubleClick => {},
        ClickType::NumberKey(..) => {},
        ClickType::Unknown => {},
    }
}

/// A plugin's click kind becomes the server click of the same name.
pub proof fn lemma_from_wasm_click_type_keeps_name(v: WitClickType)
    ensures
        click_type_name(spec_from_wasm_click_type(v)) == wit_click_type_name(v),
{
    match v {
        WitClickType::Left => {},
        WitClickType::Right => {},
        WitClickType::ShiftLeft => {},
        WitClickType::ShiftRight => {},
        WitClickType::Middle => {},
        WitClickType::Drop => {},
        WitClickType::ControlDrop => {},
        WitClickType::DoubleClick => {},
        WitClickType::NumberKey => {},
        WitClickType::Unknown => {},
    }
}

/// The name of each `PermissionLvl` variant, as text.
pub open spec fn permission_lvl_name(v: PermissionLvl) -> Seq<char> {
    match v {
        PermissionLvl::Zero => "Zero"@,
        PermissionLvl::One => "One"@,
        PermissionLvl::Two => "Two"@,
        PermissionLvl::Three => "Three"@,
        PermissionLvl::Four => "Four"@,
    }
}

/// The name of each `PermissionLevel` variant, as text.
pub open spec fn permission_level_name(v: PermissionLevel) -> Seq<char> {
    match v {
        PermissionLevel::Zero => "Zero"@,
        PermissionLevel::One => "One"@,
        PermissionLevel::Two => "Two"@,
        PermissionLevel::Three => "Three"@,
        PermissionLevel::Four => "Four"@,
    }
}

/// A server permission level reaches plugins as the level of the same name.
pub proof fn lemma_permission_level_of_keeps_name(v: PermissionLvl)
    ensures
        permission_level_name(spec_permission_level_of(v)) == permission_lvl_name(v),
{
    match v {
        PermissionLvl::Zero => {},
        PermissionLvl::One => {},
        PermissionLvl::Two => {},
        PermissionLvl::Three => {},
        PermissionLvl::Four => {},
    }
}

/// The server level a plugin's permission level asks for is the level of the same
/// name.
pub proof fn lemma_required_level_keeps_name(v: PermissionLevel)
    ensures
        permission_lvl_name(spec_required_level(v)) == permission_level_name(v),
{
    match v {
        PermissionLevel::Zero => {},
        PermissionLevel::One => {},
        PermissionLevel::Two => {},
        PermissionLevel::Three => {},
        PermissionLevel::Four => {},
    }
}

} // verus!
