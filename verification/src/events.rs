//! Routing of the event subscriptions that plugins make.
//!
//! A plugin subscribes a handler to an event type of the plugin interface.
//! The host sends the subscription to the registration function of the
//! event's family, which registers the handler for the server event of the
//! same kind; a family function that is handed an event type of another
//! family registers nothing.

use vstd::prelude::*;

verus! {

/// Event types that plugins can subscribe to.
#[derive(Clone, Copy, Debug, PartialEq, Eq)]
pub enum EventType {
    PlayerJoinEvent,
    PlayerLeaveEvent,
    PlayerLoginEvent,
    PlayerChatEvent,
    PlayerCommandSendEvent,
    PlayerPermissionCheckEvent,
    PlayerMoveEvent,
    PlayerTeleportEvent,
    PlayerChangeWorldEvent,
    PlayerRespawnEvent,
    PlayerExpChangeEvent,
    PlayerItemHeldEvent,
    PlayerChangedMainHandEvent,
    PlayerGamemodeChangeEvent,
    PlayerCustomPayloadEvent,
    PlayerFishEvent,
    PlayerEggThrowEvent,
    PlayerInteractUnknownEntityEvent,
    PlayerInteractEntityEvent,
    PlayerInteractEvent,
    PlayerToggleSneakEvent,
    PlayerToggleFlightEvent,
    PlayerToggleSprintEvent,
    InventoryClickEvent,
    InventoryCloseEvent,
    BedrockFormResponseEvent,
    PlayerItemConsumeEvent,
    PlayerItemDamageEvent,
    PlayerDropItemEvent,
    PlayerBedEnterEvent,
    PlayerBedLeaveEvent,
    PlayerBucketEmptyEvent,
    PlayerBucketFillEvent,
    AsyncPlayerChatEvent,
    AsyncPlayerPreLoginEvent,
    PlayerAdvancementDoneEvent,
    PlayerAnimationEvent,
    PlayerArmorStandManipulateEvent,
    PlayerBucketEntityEvent,
    PlayerChangedWorldEvent,
    PlayerChannelEvent,
    PlayerCommandPreprocessEvent,
    PlayerEditBookEvent,
    PlayerElytraBoostEvent,
    PlayerExpCooldownChangeEvent,
    PlayerHarvestBlockEvent,
    PlayerHideEntityEvent,
    PlayerItemBreakEvent,
    PlayerItemMendEvent,
    PlayerKickEvent,
    PlayerLeashEntityEvent,
    PlayerLevelChangeEvent,
    PlayerLocaleChangeEvent,
    PlayerNameEntityEvent,
    PlayerOpenSignEvent,
    PlayerPortalEvent,
    PlayerPreLoginEvent,
    PlayerRiptideEvent,
    PlayerShearEntityEvent,
    PlayerShowEntityEvent,
    PlayerSpawnChangeEvent,
    PlayerStatisticIncrementEvent,
    PlayerSwapHandsEvent,
    PlayerTakeLecternBookEvent,
    PlayerUnleashEntityEvent,
    PlayerVelocityEvent,
    PlayerInputEvent,
    PlayerInteractAtEntityEvent,
    PlayerLinksSendEvent,
    PlayerPickupArrowEvent,
    PlayerRecipeBookClickEvent,
    PlayerRecipeBookSettingsChangeEvent,
    PlayerRecipeDiscoverEvent,
    PlayerRegisterChannelEvent,
    PlayerResourcePackStatusEvent,
    PlayerSpawnLocationEvent,
    PlayerUnregisterChannelEvent,
    EntityDamageEvent,
    EntityDeathEvent,
    PlayerDeathEvent,
    EntitySpawnEvent,
    EntityCombustEvent,
    EntityRegainHealthEvent,
    EntityAirChangeEvent,
    EntityBreedEvent,
    EntityDismountEvent,
    EntityDyeEvent,
    EntityEnterLoveModeEvent,
    EntityExplodeEvent,
    EntityMountEvent,
    EntityPickupItemEvent,
    EntityPortalEvent,
    EntityResurrectEvent,
    EntityShootBowEvent,
    EntityTameEvent,
    EntityTargetEvent,
    EntityTeleportEvent,
    EntityToggleGlideEvent,
    EntityTransformEvent,
    CreatureSpawnEvent,
    EnderDragonChangePhaseEvent,
    EntityBreakDoorEvent,
    EntityChangeBlockEvent,
    EntityDamageByBlockEvent,
    EntityDamageByEntityEvent,
    EntityDropItemEvent,
    EntityEnterBlockEvent,
    EntityExhaustionEvent,
    EntityInteractEvent,
    EntityKnockbackEvent,
    EntityPlaceEvent,
    EntityPoseChangeEvent,
    EntityPotionEffectEvent,
    EntitySpellCastEvent,
    EntityTargetLivingEntityEvent,
    EntityToggleSwimEvent,
    ExplosionPrimeEvent,
    FireworkExplodeEvent,
    FoodLevelChangeEvent,
    ItemDespawnEvent,
    ItemMergeEvent,
    ItemSpawnEvent,
    PiglinBarterEvent,
    ProjectileHitEvent,
    ProjectileLaunchEvent,
    SheepDyeWoolEvent,
    SheepRegrowWoolEvent,
    SlimeSplitEvent,
    StriderTemperatureChangeEvent,
    VillagerAcquireTradeEvent,
    VillagerCareerChangeEvent,
    VillagerReplenishTradeEvent,
    WardenAngerChangeEvent,
    AreaEffectCloudApplyEvent,
    ArrowBodyCountChangeEvent,
    BatToggleSleepEvent,
    CreeperPowerEvent,
    EntityCombustByBlockEvent,
    EntityCombustByEntityEvent,
    EntityKnockbackByEntityEvent,
    EntityPortalEnterEvent,
    EntityPortalExitEvent,
    EntityRemoveEvent,
    EntityTargetBlockEvent,
    EntityUnleashEvent,
    ExpBottleEvent,
    HorseJumpEvent,
    LingeringPotionSplashEvent,
    PigZapEvent,
    PigZombieAngerEvent,
    PotionSplashEvent,
    SpawnerSpawnEvent,
    TrialSpawnerSpawnEvent,
    VillagerReputationChangeEvent,
    InventoryOpenEvent,
    InventoryDragEvent,
    CraftItemEvent,
    FurnaceSmeltEvent,
    BrewEvent,
    BrewingStandFuelEvent,
    FurnaceBurnEvent,
    FurnaceExtractEvent,
    FurnaceStartSmeltEvent,
    HopperInventorySearchEvent,
    InventoryCreativeEvent,
    InventoryInteractEvent,
    InventoryMoveItemEvent,
    InventoryPickupItemEvent,
    PrepareAnvilEvent,
    PrepareGrindstoneEvent,
    PrepareInventoryResultEvent,
    PrepareItemCraftEvent,
    PrepareSmithingEvent,
    SmithItemEvent,
    TradeSelectEvent,
    VehicleBlockCollisionEvent,
    VehicleCollisionEvent,
    VehicleCreateEvent,
    VehicleDamageEvent,
    VehicleDestroyEvent,
    VehicleEnterEvent,
    VehicleEntityCollisionEvent,
    VehicleExitEvent,
    VehicleMoveEvent,
    VehicleUpdateEvent,
    PrepareItemEnchantEvent,
    EnchantItemEvent,
    SpawnChangeEvent,
    ChunkLoadEvent,
    ChunkSaveEvent,
    ChunkSendEvent,
    WeatherChangeEvent,
    ThunderChangeEvent,
    WorldLoadEvent,
    WorldUnloadEvent,
    AsyncStructureGenerateEvent,
    AsyncStructureSpawnEvent,
    ChunkPopulateEvent,
    ChunkUnloadEvent,
    EntitiesLoadEvent,
    EntitiesUnloadEvent,
    GenericGameEvent,
    LootGenerateEvent,
    PortalCreateEvent,
    StructureGrowEvent,
    TimeSkipEvent,
    WorldInitEvent,
    WorldSaveEvent,
    LightningStrikeEvent,
    BlockRedstoneEvent,
    BlockBreakEvent,
    BlockBurnEvent,
    BlockCanBuildEvent,
    BlockGrowEvent,
    BlockPlaceEvent,
    BlockDamageEvent,
    BlockIgniteEvent,
    BlockFromToEvent,
    BlockFormEvent,
    BlockFadeEvent,
    BlockDispenseEvent,
    BlockExplodeEvent,
    BlockPhysicsEvent,
    BlockPistonExtendEvent,
    BlockPistonRetractEvent,
    NotePlayEvent,
    SignChangeEvent,
    SpongeAbsorbEvent,
    TntPrimeEvent,
    BellResonateEvent,
    BellRingEvent,
    BlockBrushEvent,
    BlockCookEvent,
    BlockDamageAbortEvent,
    BlockDispenseArmorEvent,
    BlockDispenseLootEvent,
    BlockDropItemEvent,
    BlockExpEvent,
    BlockFertilizeEvent,
    BlockMultiPlaceEvent,
    BlockReceiveGameEvent,
    BlockShearEntityEvent,
    BlockSpreadEvent,
    BrewingStartEvent,
    CampfireStartEvent,
    CauldronLevelChangeEvent,
    CrafterCraftEvent,
    EntityBlockFormEvent,
    FluidLevelChangeEvent,
    InventoryBlockStartEvent,
    LeavesDecayEvent,
    MoistureChangeEvent,
    SculkBloomEvent,
    VaultDisplayItemEvent,
    RaidFinishEvent,
    RaidSpawnWaveEvent,
    RaidStopEvent,
    RaidTriggerEvent,
    DialogClickActionEvent,
    DialogShowEvent,
    DialogClearEvent,
    PacketReceivedEvent,
    PacketSentEvent,
    ServerCommandEvent,
    ServerListPingEvent,
    ServerBroadcastEvent,
    ServerLoadEvent,
    ServerTickEndEvent,
    ServerTickStartEvent,
    MapInitializeEvent,
    HangingBreakEvent,
    HangingBreakByEntityEvent,
    HangingPlaceEvent,
}

/// Families of events, each registered by a function of its own.
#[derive(Clone, Copy, Debug, PartialEq, Eq)]
pub enum EventFamily {
    Player,
    Entity,
    Inventory,
    Vehicle,
    Enchantment,
    World,
    Block,
    Raid,
    Dialog,
    Server,
    Hanging,
}

/// The family that the host sends a subscription to: the event types of
/// each listed family go to it, and every other event type is sent to the
/// player family.
pub open spec fn family_of(event_type: EventType) -> EventFamily {
    match event_type {
        EventType::PacketReceivedEvent
        | EventType::PacketSentEvent
        | EventType::ServerCommandEvent
        | EventType::ServerListPingEvent
        | EventType::ServerBroadcastEvent
        | EventType::ServerLoadEvent
        | EventType::ServerTickEndEvent
        | EventType::ServerTickStartEvent
        | EventType::MapInitializeEvent => EventFamily::Server,
        EventType::HangingBreakEvent
        | EventType::HangingBreakByEntityEvent
        | EventType::HangingPlaceEvent => EventFamily::Hanging,
        EventType::SpawnChangeEvent
        | EventType::ChunkLoadEvent
        | EventType::ChunkSaveEvent
        | EventType::ChunkSendEvent
        | EventType::WeatherChangeEvent
        | EventType::ThunderChangeEvent
        | EventType::WorldLoadEvent
        | EventType::WorldUnloadEvent
        | EventType::AsyncStructureGenerateEvent
        | EventType::AsyncStructureSpawnEvent
        | EventType::ChunkPopulateEvent
        | EventType::ChunkUnloadEvent
        | EventType::EntitiesLoadEvent
        | EventType::EntitiesUnloadEvent
        | EventType::GenericGameEvent
        | EventType::LootGenerateEvent
        | EventType::PortalCreateEvent
        | EventType::StructureGrowEvent
        | EventType::TimeSkipEvent
        | EventType::WorldInitEvent
        | EventType::WorldSaveEvent
        | EventType::LightningStrikeEvent => EventFamily::World,
        EventType::EntityDamageEvent
        | EventType::EntityDeathEvent
        | EventType::PlayerDeathEvent
        | EventType::EntitySpawnEvent
        | EventType::EntityCombustEvent
        | EventType::EntityRegainHealthEvent
        | EventType::EntityAirChangeEvent
        | EventType::EntityBreedEvent
        | EventType::EntityDismountEvent
        | EventType::EntityDyeEvent
        | EventType::EntityEnterLoveModeEvent
        | EventType::EntityExplodeEvent
        | EventType::EntityMountEvent
        | EventType::EntityPickupItemEvent
        | EventType::EntityPortalEvent
        | EventType::EntityResurrectEvent
        | EventType::EntityShootBowEvent
        | EventType::EntityTameEvent
        | EventType::EntityTargetEvent
        | EventType::EntityTeleportEvent
        | EventType::EntityToggleGlideEvent
        | EventType::EntityTransformEvent
        | EventType::CreatureSpawnEvent
        | EventType::EnderDragonChangePhaseEvent
        | EventType::EntityBreakDoorEvent
        | EventType::EntityChangeBlockEvent
        | EventType::EntityDamageByBlockEvent
        | EventType::EntityDamageByEntityEvent
        | EventType::EntityDropItemEvent
        | EventType::EntityEnterBlockEvent
        | EventType::EntityExhaustionEvent
        | EventType::EntityInteractEvent
        | EventType::EntityKnockbackEvent
        | EventType::EntityPlaceEvent
        | EventType::EntityPoseChangeEvent
        | EventType::EntityPotionEffectEvent
        | EventType::EntitySpellCastEvent
        | EventType::EntityTargetLivingEntityEvent
        | EventType::EntityToggleSwimEvent
        | EventType::ExplosionPrimeEvent
        | EventType::FireworkExplodeEvent
        | EventType::FoodLevelChangeEvent
        | EventType::ItemDespawnEvent
        | EventType::ItemMergeEvent
        | EventType::ItemSpawnEvent
        | EventType::PiglinBarterEvent
        | EventType::ProjectileHitEvent
        | EventType::ProjectileLaunchEvent
        | EventType::SheepDyeWoolEvent
        | EventType::SheepRegrowWoolEvent
        | EventType::SlimeSplitEvent
        | EventType::StriderTemperatureChangeEvent
        | EventType::VillagerAcquireTradeEvent
        | EventType::VillagerCareerChangeEvent
        | EventType::VillagerReplenishTradeEvent
        | EventType::WardenAngerChangeEvent
        | EventType::AreaEffectCloudApplyEvent
        | EventType::ArrowBodyCountChangeEvent
        | EventType::BatToggleSleepEvent
        | EventType::CreeperPowerEvent
        | EventType::EntityCombustByBlockEvent
        | EventType::EntityCombustByEntityEvent
        | EventType::EntityKnockbackByEntityEvent
        | EventType::EntityPortalEnterEvent
        | EventType::EntityPortalExitEvent
        | EventType::EntityRemoveEvent
        | EventType::EntityTargetBlockEvent
        | EventType::EntityUnleashEvent
        | EventType::ExpBottleEvent
        | EventType::HorseJumpEvent
        | EventType::LingeringPotionSplashEvent
        | EventType::PigZapEvent
        | EventType::PigZombieAngerEvent
        | EventType::PotionSplashEvent
        | EventType::SpawnerSpawnEvent
        | EventType::TrialSpawnerSpawnEvent
        | EventType::VillagerReputationChangeEvent => EventFamily::Entity,
        EventType::BlockRedstoneEvent
        | EventType::BlockBreakEvent
        | EventType::BlockBurnEvent
        | EventType::BlockCanBuildEvent
        | EventType::BlockGrowEvent
        | EventType::BlockPlaceEvent
        | EventType::BlockDamageEvent
        | EventType::BlockIgniteEvent
        | EventType::BlockFromToEvent
        | EventType::BlockFormEvent
        | EventType::BlockFadeEvent
        | EventType::BlockDispenseEvent
        | EventType::BlockExplodeEvent
        | EventType::BlockPhysicsEvent
        | EventType::BlockPistonExtendEvent
        | EventType::BlockPistonRetractEvent
        | EventType::NotePlayEvent
        | EventType::SignChangeEvent
        | EventType::SpongeAbsorbEvent
        | EventType::TntPrimeEvent
        | EventType::BellResonateEvent
        | EventType::BellRingEvent
        | EventType::BlockBrushEvent
        | EventType::BlockCookEvent
        | EventType::BlockDamageAbortEvent
        | EventType::BlockDispenseArmorEvent
        | EventType::BlockDispenseLootEvent
        | EventType::BlockDropItemEvent
        | EventType::BlockExpEvent
        | EventType::BlockFertilizeEvent
        | EventType::BlockMultiPlaceEvent
        | EventType::BlockReceiveGameEvent
        | EventType::BlockShearEntityEvent
        | EventType::BlockSpreadEvent
        | EventType::BrewingStartEvent
        | EventType::CampfireStartEvent
        | EventType::CauldronLevelChangeEvent
        | EventType::CrafterCraftEvent
        | EventType::EntityBlockFormEvent
        | EventType::FluidLevelChangeEvent
        | EventType::InventoryBlockStartEvent
        | EventType::LeavesDecayEvent
        | EventType::MoistureChangeEvent
        | EventType::SculkBloomEvent
        | EventType::VaultDisplayItemEvent => EventFamily::Block,
        EventType::InventoryOpenEvent
        | EventType::InventoryDragEvent
        | EventType::CraftItemEvent
        | EventType::FurnaceSmeltEvent
        | EventType::BrewEvent
        | EventType::BrewingStandFuelEvent
        | EventType::FurnaceBurnEvent
        | EventType::FurnaceExtractEvent
        | EventType::FurnaceStartSmeltEvent
        | EventType::HopperInventorySearchEvent
        | EventType::InventoryCreativeEvent
        | EventType::InventoryInteractEvent
        | EventType::InventoryMoveItemEvent
        | EventType::InventoryPickupItemEvent
        | EventType::PrepareAnvilEvent
        | EventType::PrepareGrindstoneEvent
        | EventType::PrepareInventoryResultEvent
        | EventType::PrepareItemCraftEvent
        | EventType::PrepareSmithingEvent
        | EventType::SmithItemEvent
        | EventType::TradeSelectEvent => EventFamily::Inventory,
        EventType::PrepareItemEnchantEvent
        | EventType::EnchantItemEvent => EventFamily::Enchantment,
        EventType::VehicleBlockCollisionEvent
        | EventType::VehicleCollisionEvent
        | EventType::VehicleCreateEvent
        | EventType::VehicleDamageEvent
        | EventType::VehicleDestroyEvent
        | EventType::VehicleEnterEvent
        | EventType::VehicleEntityCollisionEvent
        | EventType::VehicleExitEvent
        | EventType::VehicleMoveEvent
        | EventType::VehicleUpdateEvent => EventFamily::Vehicle,
        EventType::RaidFinishEvent
        | EventType::RaidSpawnWaveEvent
        | EventType::RaidStopEvent
        | EventType::RaidTriggerEvent => EventFamily::Raid,
        EventType::DialogClickActionEvent
        | EventType::DialogShowEvent
        | EventType::DialogClearEvent => EventFamily::Dialog,
        _ => EventFamily::Player,
    }
}

/// Sends a subscription to the registration function of its event's family.
pub fn event_family(event_type: EventType) -> (res: EventFamily)
    ensures
        res == family_of(event_type),
{
    match event_type {
        EventType::PacketReceivedEvent
        | EventType::PacketSentEvent
        | EventType::ServerCommandEvent
        | EventType::ServerListPingEvent
        | EventType::ServerBroadcastEvent
        | EventType::ServerLoadEvent
        | EventType::ServerTickEndEvent
        | EventType::ServerTickStartEvent
        | EventType::MapInitializeEvent => EventFamily::Server,
        EventType::HangingBreakEvent
        | EventType::HangingBreakByEntityEvent
        | EventType::HangingPlaceEvent => EventFamily::Hanging,
        EventType::SpawnChangeEvent
        | EventType::ChunkLoadEvent
        | EventType::ChunkSaveEvent
        | EventType::ChunkSendEvent
        | EventType::WeatherChangeEvent
        | EventType::ThunderChangeEvent
        | EventType::WorldLoadEvent
        | EventType::WorldUnloadEvent
        | EventType::AsyncStructureGenerateEvent
        | EventType::AsyncStructureSpawnEvent
        | EventType::ChunkPopulateEvent
        | EventType::ChunkUnloadEvent
        | EventType::EntitiesLoadEvent
        | EventType::EntitiesUnloadEvent
        | EventType::GenericGameEvent
        | EventType::LootGenerateEvent
        | EventType::PortalCreateEvent
        | EventType::StructureGrowEvent
        | EventType::TimeSkipEvent
        | EventType::WorldInitEvent
        | EventType::WorldSaveEvent
        | EventType::LightningStrikeEvent => EventFamily::World,
        EventType::EntityDamageEvent
        | EventType::EntityDeathEvent
        | EventType::PlayerDeathEvent
        | EventType::EntitySpawnEvent
        | EventType::EntityCombustEvent
        | EventType::EntityRegainHealthEvent
        | EventType::EntityAirChangeEvent
        | EventType::EntityBreedEvent
        | EventType::EntityDismountEvent
        | EventType::EntityDyeEvent
        | EventType::EntityEnterLoveModeEvent
        | EventType::EntityExplodeEvent
        | EventType::EntityMountEvent
        | EventType::EntityPickupItemEvent
        | EventType::EntityPortalEvent
        | EventType::EntityResurrectEvent
        | EventType::EntityShootBowEvent
        | EventType::EntityTameEvent
        | EventType::EntityTargetEvent
        | EventType::EntityTeleportEvent
        | EventType::EntityToggleGlideEvent
        | EventType::EntityTransformEvent
        | EventType::CreatureSpawnEvent
        | EventType::EnderDragonChangePhaseEvent
        | EventType::EntityBreakDoorEvent
        | EventType::EntityChangeBlockEvent
        | EventType::EntityDamageByBlockEvent
        | EventType::EntityDamageByEntityEvent
        | EventType::EntityDropItemEvent
        | EventType::EntityEnterBlockEvent
        | EventType::EntityExhaustionEvent
        | EventType::EntityInteractEvent
        | EventType::EntityKnockbackEvent
        | EventType::EntityPlaceEvent
        | EventType::EntityPoseChangeEvent
        | EventType::EntityPotionEffectEvent
        | EventType::EntitySpellCastEvent
        | EventType::EntityTargetLivingEntityEvent
        | EventType::EntityToggleSwimEvent
        | EventType::ExplosionPrimeEvent
        | EventType::FireworkExplodeEvent
        | EventType::FoodLevelChangeEvent
        | EventType::ItemDespawnEvent
        | EventType::ItemMergeEvent
        | EventType::ItemSpawnEvent
        | EventType::PiglinBarterEvent
        | EventType::ProjectileHitEvent
        | EventType::ProjectileLaunchEvent
        | EventType::SheepDyeWoolEvent
        | EventType::SheepRegrowWoolEvent
        | EventType::SlimeSplitEvent
        | EventType::StriderTemperatureChangeEvent
        | EventType::VillagerAcquireTradeEvent
        | EventType::VillagerCareerChangeEvent
        | EventType::VillagerReplenishTradeEvent
        | EventType::WardenAngerChangeEvent
        | EventType::AreaEffectCloudApplyEvent
        | EventType::ArrowBodyCountChangeEvent
        | EventType::BatToggleSleepEvent
        | EventType::CreeperPowerEvent
        | EventType::EntityCombustByBlockEvent
        | EventType::EntityCombustByEntityEvent
        | EventType::EntityKnockbackByEntityEvent
        | EventType::EntityPortalEnterEvent
        | EventType::EntityPortalExitEvent
        | EventType::EntityRemoveEvent
        | EventType::EntityTargetBlockEvent
        | EventType::EntityUnleashEvent
        | EventType::ExpBottleEvent
        | EventType::HorseJumpEvent
        | EventType::LingeringPotionSplashEvent
        | EventType::PigZapEvent
        | EventType::PigZombieAngerEvent
        | EventType::PotionSplashEvent
        | EventType::SpawnerSpawnEvent
        | EventType::TrialSpawnerSpawnEvent
        | EventType::VillagerReputationChangeEvent => EventFamily::Entity,
        EventType::BlockRedstoneEvent
        | EventType::BlockBreakEvent
        | EventType::BlockBurnEvent
        | EventType::BlockCanBuildEvent
        | EventType::BlockGrowEvent
        | EventType::BlockPlaceEvent
        | EventType::BlockDamageEvent
        | EventType::BlockIgniteEvent
        | EventType::BlockFromToEvent
        | EventType::BlockFormEvent
        | EventType::BlockFadeEvent
        | EventType::BlockDispenseEvent
        | EventType::BlockExplodeEvent
        | EventType::BlockPhysicsEvent
        | EventType::BlockPistonExtendEvent
        | EventType::BlockPistonRetractEvent
        | EventType::NotePlayEvent
        | EventType::SignChangeEvent
        | EventType::SpongeAbsorbEvent
        | EventType::TntPrimeEvent
        | EventType::BellResonateEvent
        | EventType::BellRingEvent
        | EventType::BlockBrushEvent
        | EventType::BlockCookEvent
        | EventType::BlockDamageAbortEvent
        | EventType::BlockDispenseArmorEvent
        | EventType::BlockDispenseLootEvent
        | EventType::BlockDropItemEvent
        | EventType::BlockExpEvent
        | EventType::BlockFertilizeEvent
        | EventType::BlockMultiPlaceEvent
        | EventType::BlockReceiveGameEvent
        | EventType::BlockShearEntityEvent
        | EventType::BlockSpreadEvent
        | EventType::BrewingStartEvent
        | EventType::CampfireStartEvent
        | EventType::CauldronLevelChangeEvent
        | EventType::CrafterCraftEvent
        | EventType::EntityBlockFormEvent
        | EventType::FluidLevelChangeEvent
        | EventType::InventoryBlockStartEvent
        | EventType::LeavesDecayEvent
        | EventType::MoistureChangeEvent
        | EventType::SculkBloomEvent
        | EventType::VaultDisplayItemEvent => EventFamily::Block,
        EventType::InventoryOpenEvent
        | EventType::InventoryDragEvent
        | EventType::CraftItemEvent
        | EventType::FurnaceSmeltEvent
        | EventType::BrewEvent
        | EventType::BrewingStandFuelEvent
        | EventType::FurnaceBurnEvent
        | EventType::FurnaceExtractEvent
        | EventType::FurnaceStartSmeltEvent
        | EventType::HopperInventorySearchEvent
        | EventType::InventoryCreativeEvent
        | EventType::InventoryInteractEvent
        | EventType::InventoryMoveItemEvent
        | EventType::InventoryPickupItemEvent
        | EventType::PrepareAnvilEvent
        | EventType::PrepareGrindstoneEvent
        | EventType::PrepareInventoryResultEvent
        | EventType::PrepareItemCraftEvent
        | EventType::PrepareSmithingEvent
        | EventType::SmithItemEvent
        | EventType::TradeSelectEvent => EventFamily::Inventory,
        EventType::PrepareItemEnchantEvent
        | EventType::EnchantItemEvent => EventFamily::Enchantment,
        EventType::VehicleBlockCollisionEvent
        | EventType::VehicleCollisionEvent
        | EventType::VehicleCreateEvent
        | EventType::VehicleDamageEvent
        | EventType::VehicleDestroyEvent
        | EventType::VehicleEnterEvent
        | EventType::VehicleEntityCollisionEvent
        | EventType::VehicleExitEvent
        | EventType::VehicleMoveEvent
        | EventType::VehicleUpdateEvent => EventFamily::Vehicle,
        EventType::RaidFinishEvent
        | EventType::RaidSpawnWaveEvent
        | EventType::RaidStopEvent
        | EventType::RaidTriggerEvent => EventFamily::Raid,
        EventType::DialogClickActionEvent
        | EventType::DialogShowEvent
        | EventType::DialogClearEvent => EventFamily::Dialog,
        _ => EventFamily::Player,
    }
}

/// The event types that the player family registers a handler for.
pub open spec fn is_player_event(event_type: EventType) -> bool {
    match event_type {
        EventType::PlayerJoinEvent
        | EventType::PlayerLeaveEvent
        | EventType::PlayerLoginEvent
        | EventType::PlayerChatEvent
        | EventType::PlayerCommandSendEvent
        | EventType::PlayerPermissionCheckEvent
        | EventType::PlayerMoveEvent
        | EventType::PlayerTeleportEvent
        | EventType::PlayerChangeWorldEvent
        | EventType::PlayerRespawnEvent
        | EventType::PlayerExpChangeEvent
        | EventType::PlayerItemHeldEvent
        | EventType::PlayerChangedMainHandEvent
        | EventType::PlayerGamemodeChangeEvent
        | EventType::PlayerCustomPayloadEvent
        | EventType::PlayerFishEvent
        | EventType::PlayerEggThrowEvent
        | EventType::PlayerInteractUnknownEntityEvent
        | EventType::PlayerInteractEntityEvent
        | EventType::PlayerInteractEvent
        | EventType::PlayerToggleSneakEvent
        | EventType::PlayerToggleFlightEvent
        | EventType::PlayerToggleSprintEvent
        | EventType::InventoryClickEvent
        | EventType::InventoryCloseEvent
        | EventType::BedrockFormResponseEvent
        | EventType::PlayerItemConsumeEvent
        | EventType::PlayerItemDamageEvent
        | EventType::PlayerDropItemEvent
        | EventType::PlayerBedEnterEvent
        | EventType::PlayerBedLeaveEvent
        | EventType::PlayerBucketEmptyEvent
        | EventType::PlayerBucketFillEvent
        | EventType::AsyncPlayerChatEvent
        | EventType::AsyncPlayerPreLoginEvent
        | EventType::PlayerAdvancementDoneEvent
        | EventType::PlayerAnimationEvent
        | EventType::PlayerArmorStandManipulateEvent
        | EventType::PlayerBucketEntityEvent
        | EventType::PlayerChangedWorldEvent
        | EventType::PlayerChannelEvent
        | EventType::PlayerCommandPreprocessEvent
        | EventType::PlayerEditBookEvent
        | EventType::PlayerElytraBoostEvent
        | EventType::PlayerExpCooldownChangeEvent
        | EventType::PlayerHarvestBlockEvent
        | EventType::PlayerHideEntityEvent
        | EventType::PlayerItemBreakEvent
        | EventType::PlayerItemMendEvent
        | EventType::PlayerKickEvent
        | EventType::PlayerLeashEntityEvent
        | EventType::PlayerLevelChangeEvent
        | EventType::PlayerLocaleChangeEvent
        | EventType::PlayerNameEntityEvent
        | EventType::PlayerOpenSignEvent
        | EventType::PlayerPortalEvent
        | EventType::PlayerPreLoginEvent
        | EventType::PlayerRiptideEvent
        | EventType::PlayerShearEntityEvent
        | EventType::PlayerShowEntityEvent
        | EventType::PlayerSpawnChangeEvent
        | EventType::PlayerStatisticIncrementEvent
        | EventType::PlayerSwapHandsEvent
        | EventType::PlayerTakeLecternBookEvent
        | EventType::PlayerUnleashEntityEvent
        | EventType::PlayerVelocityEvent
        | EventType::PlayerInputEvent
        | EventType::PlayerInteractAtEntityEvent
        | EventType::PlayerLinksSendEvent
        | EventType::PlayerPickupArrowEvent
        | EventType::PlayerRecipeBookClickEvent
        | EventType::PlayerRecipeBookSettingsChangeEvent
        | EventType::PlayerRecipeDiscoverEvent
        | EventType::PlayerRegisterChannelEvent
        | EventType::PlayerResourcePackStatusEvent
        | EventType::PlayerSpawnLocationEvent
        | EventType::PlayerUnregisterChannelEvent => true,
        _ => false,
    }
}

/// Registration in the player family: the handler is registered for
/// the server event of the same kind (`Some`), or, for an event type of
/// another family, nothing is registered (`None`).
pub fn register_player_event(event_type: EventType) -> (res: Option<EventType>)
    ensures
        res == (if is_player_event(event_type) {
            Some(event_type)
        } else {
            None
        }),
{
    match event_type {
        EventType::PlayerJoinEvent
        | EventType::PlayerLeaveEvent
        | EventType::PlayerLoginEvent
        | EventType::PlayerChatEvent
        | EventType::PlayerCommandSendEvent
        | EventType::PlayerPermissionCheckEvent
        | EventType::PlayerMoveEvent
        | EventType::PlayerTeleportEvent
        | EventType::PlayerChangeWorldEvent
        | EventType::PlayerRespawnEvent
        | EventType::PlayerExpChangeEvent
        | EventType::PlayerItemHeldEvent
        | EventType::PlayerChangedMainHandEvent
        | EventType::PlayerGamemodeChangeEvent
        | EventType::PlayerCustomPayloadEvent
        | EventType::PlayerFishEvent
        | EventType::PlayerEggThrowEvent
        | EventType::PlayerInteractUnknownEntityEvent
        | EventType::PlayerInteractEntityEvent
        | EventType::PlayerInteractEvent
        | EventType::PlayerToggleSneakEvent
        | EventType::PlayerToggleFlightEvent
        | EventType::PlayerToggleSprintEvent
        | EventType::InventoryClickEvent
        | EventType::InventoryCloseEvent
        | EventType::BedrockFormResponseEvent
        | EventType::PlayerItemConsumeEvent
        | EventType::PlayerItemDamageEvent
        | EventType::PlayerDropItemEvent
        | EventType::PlayerBedEnterEvent
        | EventType::PlayerBedLeaveEvent
        | EventType::PlayerBucketEmptyEvent
        | EventType::PlayerBucketFillEvent
        | EventType::AsyncPlayerChatEvent
        | EventType::AsyncPlayerPreLoginEvent
        | EventType::PlayerAdvancementDoneEvent
        | EventType::PlayerAnimationEvent
        | EventType::PlayerArmorStandManipulateEvent
        | EventType::PlayerBucketEntityEvent
        | EventType::PlayerChangedWorldEvent
        | EventType::PlayerChannelEvent
        | EventType::PlayerCommandPreprocessEvent
        | EventType::PlayerEditBookEvent
        | EventType::PlayerElytraBoostEvent
        | EventType::PlayerExpCooldownChangeEvent
        | EventType::PlayerHarvestBlockEvent
        | EventType::PlayerHideEntityEvent
        | EventType::PlayerItemBreakEvent
        | EventType::PlayerItemMendEvent
        | EventType::PlayerKickEvent
        | EventType::PlayerLeashEntityEvent
        | EventType::PlayerLevelChangeEvent
        | EventType::PlayerLocaleChangeEvent
        | EventType::PlayerNameEntityEvent
        | EventType::PlayerOpenSignEvent
        | EventType::PlayerPortalEvent
        | EventType::PlayerPreLoginEvent
        | EventType::PlayerRiptideEvent
        | EventType::PlayerShearEntityEvent
        | EventType::PlayerShowEntityEvent
        | EventType::PlayerSpawnChangeEvent
        | EventType::PlayerStatisticIncrementEvent
        | EventType::PlayerSwapHandsEvent
        | EventType::PlayerTakeLecternBookEvent
        | EventType::PlayerUnleashEntityEvent
        | EventType::PlayerVelocityEvent
        | EventType::PlayerInputEvent
        | EventType::PlayerInteractAtEntityEvent
        | EventType::PlayerLinksSendEvent
        | EventType::PlayerPickupArrowEvent
        | EventType::PlayerRecipeBookClickEvent
        | EventType::PlayerRecipeBookSettingsChangeEvent
        | EventType::PlayerRecipeDiscoverEvent
        | EventType::PlayerRegisterChannelEvent
        | EventType::PlayerResourcePackStatusEvent
        | EventType::PlayerSpawnLocationEvent
        | EventType::PlayerUnregisterChannelEvent => Some(event_type),
        _ => None,
    }
}

/// The event types that the entity family registers a handler for.
pub open spec fn is_entity_event(event_type: EventType) -> bool {
    match event_type {
        EventType::EntityDamageEvent
        | EventType::EntityDeathEvent
        | EventType::PlayerDeathEvent
        | EventType::EntitySpawnEvent
        | EventType::EntityCombustEvent
        | EventType::EntityRegainHealthEvent
        | EventType::EntityAirChangeEvent
        | EventType::EntityBreedEvent
        | EventType::EntityDismountEvent
        | EventType::EntityDyeEvent
        | EventType::EntityEnterLoveModeEvent
        | EventType::EntityExplodeEvent
        | EventType::EntityMountEvent
        | EventType::EntityPickupItemEvent
        | EventType::EntityPortalEvent
        | EventType::EntityResurrectEvent
        | EventType::EntityShootBowEvent
        | EventType::EntityTameEvent
        | EventType::EntityTargetEvent
        | EventType::EntityTeleportEvent
        | EventType::EntityToggleGlideEvent
        | EventType::EntityTransformEvent
        | EventType::CreatureSpawnEvent
        | EventType::EnderDragonChangePhaseEvent
        | EventType::EntityBreakDoorEvent
        | EventType::EntityChangeBlockEvent
        | EventType::EntityDamageByBlockEvent
        | EventType::EntityDamageByEntityEvent
        | EventType::EntityDropItemEvent
        | EventType::EntityEnterBlockEvent
        | EventType::EntityExhaustionEvent
        | EventType::EntityInteractEvent
        | EventType::EntityKnockbackEvent
        | EventType::EntityPlaceEvent
        | EventType::EntityPoseChangeEvent
        | EventType::EntityPotionEffectEvent
        | EventType::EntitySpellCastEvent
        | EventType::EntityTargetLivingEntityEvent
        | EventType::EntityToggleSwimEvent
        | EventType::ExplosionPrimeEvent
        | EventType::FireworkExplodeEvent
        | EventType::FoodLevelChangeEvent
        | EventType::ItemDespawnEvent
        | EventType::ItemMergeEvent
        | EventType::ItemSpawnEvent
        | EventType::PiglinBarterEvent
        | EventType::ProjectileHitEvent
        | EventType::ProjectileLaunchEvent
        | EventType::SheepDyeWoolEvent
        | EventType::SheepRegrowWoolEvent
        | EventType::SlimeSplitEvent
        | EventType::StriderTemperatureChangeEvent
        | EventType::VillagerAcquireTradeEvent
        | EventType::VillagerCareerChangeEvent
        | EventType::VillagerReplenishTradeEvent
        | EventType::WardenAngerChangeEvent
        | EventType::AreaEffectCloudApplyEvent
        | EventType::ArrowBodyCountChangeEvent
        | EventType::BatToggleSleepEvent
        | EventType::CreeperPowerEvent
        | EventType::EntityCombustByBlockEvent
        | EventType::EntityCombustByEntityEvent
        | EventType::EntityKnockbackByEntityEvent
        | EventType::EntityPortalEnterEvent
        | EventType::EntityPortalExitEvent
        | EventType::EntityRemoveEvent
        | EventType::EntityTargetBlockEvent
        | EventType::EntityUnleashEvent
        | EventType::ExpBottleEvent
        | EventType::HorseJumpEvent
        | EventType::LingeringPotionSplashEvent
        | EventType::PigZapEvent
        | EventType::PigZombieAngerEvent
        | EventType::PotionSplashEvent
        | EventType::SpawnerSpawnEvent
        | EventType::TrialSpawnerSpawnEvent
        | EventType::VillagerReputationChangeEvent => true,
        _ => false,
    }
}

/// Registration in the entity family: the handler is registered for
/// the server event of the same kind (`Some`), or, for an event type of
/// another family, nothing is registered (`None`).
pub fn register_entity_event(event_type: EventType) -> (res: Option<EventType>)
    ensures
        res == (if is_entity_event(event_type) {
            Some(event_type)
        } else {
            None
        }),
{
    match event_type {
        EventType::EntityDamageEvent
        | EventType::EntityDeathEvent
        | EventType::PlayerDeathEvent
        | EventType::EntitySpawnEvent
        | EventType::EntityCombustEvent
        | EventType::EntityRegainHealthEvent
        | EventType::EntityAirChangeEvent
        | EventType::EntityBreedEvent
        | EventType::EntityDismountEvent
        | EventType::EntityDyeEvent
        | EventType::EntityEnterLoveModeEvent
        | EventType::EntityExplodeEvent
        | EventType::EntityMountEvent
        | EventType::EntityPickupItemEvent
        | EventType::EntityPortalEvent
        | EventType::EntityResurrectEvent
        | EventType::EntityShootBowEvent
        | EventType::EntityTameEvent
        | EventType::EntityTargetEvent
        | EventType::EntityTeleportEvent
        | EventType::EntityToggleGlideEvent
        | EventType::EntityTransformEvent
        | EventType::CreatureSpawnEvent
        | EventType::EnderDragonChangePhaseEvent
        | EventType::EntityBreakDoorEvent
        | EventType::EntityChangeBlockEvent
        | EventType::EntityDamageByBlockEvent
        | EventType::EntityDamageByEntityEvent
        | EventType::EntityDropItemEvent
        | EventType::EntityEnterBlockEvent
        | EventType::EntityExhaustionEvent
        | EventType::EntityInteractEvent
        | EventType::EntityKnockbackEvent
        | EventType::EntityPlaceEvent
        | EventType::EntityPoseChangeEvent
        | EventType::EntityPotionEffectEvent
        | EventType::EntitySpellCastEvent
        | EventType::EntityTargetLivingEntityEvent
        | EventType::EntityToggleSwimEvent
        | EventType::ExplosionPrimeEvent
        | EventType::FireworkExplodeEvent
        | EventType::FoodLevelChangeEvent
        | EventType::ItemDespawnEvent
        | EventType::ItemMergeEvent
        | EventType::ItemSpawnEvent
        | EventType::PiglinBarterEvent
        | EventType::ProjectileHitEvent
        | EventType::ProjectileLaunchEvent
        | EventType::SheepDyeWoolEvent
        | EventType::SheepRegrowWoolEvent
        | EventType::SlimeSplitEvent
        | EventType::StriderTemperatureChangeEvent
        | EventType::VillagerAcquireTradeEvent
        | EventType::VillagerCareerChangeEvent
        | EventType::VillagerReplenishTradeEvent
        | EventType::WardenAngerChangeEvent
        | EventType::AreaEffectCloudApplyEvent
        | EventType::ArrowBodyCountChangeEvent
        | EventType::BatToggleSleepEvent
        | EventType::CreeperPowerEvent
        | EventType::EntityCombustByBlockEvent
        | EventType::EntityCombustByEntityEvent
        | EventType::EntityKnockbackByEntityEvent
        | EventType::EntityPortalEnterEvent
        | EventType::EntityPortalExitEvent
        | EventType::EntityRemoveEvent
        | EventType::EntityTargetBlockEvent
        | EventType::EntityUnleashEvent
        | EventType::ExpBottleEvent
        | EventType::HorseJumpEvent
        | EventType::LingeringPotionSplashEvent
        | EventType::PigZapEvent
        | EventType::PigZombieAngerEvent
        | EventType::PotionSplashEvent
        | EventType::SpawnerSpawnEvent
        | EventType::TrialSpawnerSpawnEvent
        | EventType::VillagerReputationChangeEvent => Some(event_type),
        _ => None,
    }
}

/// The event types that the inventory family registers a handler for.
pub open spec fn is_inventory_event(event_type: EventType) -> bool {
    match event_type {
        EventType::InventoryOpenEvent
        | EventType::InventoryDragEvent
        | EventType::CraftItemEvent
        | EventType::FurnaceSmeltEvent
        | EventType::BrewEvent
        | EventType::BrewingStandFuelEvent
        | EventType::FurnaceBurnEvent
        | EventType::FurnaceExtractEvent
        | EventType::FurnaceStartSmeltEvent
        | EventType::HopperInventorySearchEvent
        | EventType::InventoryCreativeEvent
        | EventType::InventoryInteractEvent
        | EventType::InventoryMoveItemEvent
        | EventType::InventoryPickupItemEvent
        | EventType::PrepareAnvilEvent
        | EventType::PrepareGrindstoneEvent
        | EventType::PrepareInventoryResultEvent
        | EventType::PrepareItemCraftEvent
        | EventType::PrepareSmithingEvent
        | EventType::SmithItemEvent
        | EventType::TradeSelectEvent => true,
        _ => false,
    }
}

/// Registration in the inventory family: the handler is registered for
/// the server event of the same kind (`Some`), or, for an event type of
/// another family, nothing is registered (`None`).
pub fn register_inventory_event(event_type: EventType) -> (res: Option<EventType>)
    ensures
        res == (if is_inventory_event(event_type) {
            Some(event_type)
        } else {
            None
        }),
{
    match event_type {
        EventType::InventoryOpenEvent
        | EventType::InventoryDragEvent
        | EventType::CraftItemEvent
        | EventType::FurnaceSmeltEvent
        | EventType::BrewEvent
        | EventType::BrewingStandFuelEvent
        | EventType::FurnaceBurnEvent
        | EventType::FurnaceExtractEvent
        | EventType::FurnaceStartSmeltEvent
        | EventType::HopperInventorySearchEvent
        | EventType::InventoryCreativeEvent
        | EventType::InventoryInteractEvent
        | EventType::InventoryMoveItemEvent
        | EventType::InventoryPickupItemEvent
        | EventType::PrepareAnvilEvent
        | EventType::PrepareGrindstoneEvent
        | EventType::PrepareInventoryResultEvent
        | EventType::PrepareItemCraftEvent
        | EventType::PrepareSmithingEvent
        | EventType::SmithItemEvent
        | EventType::TradeSelectEvent => Some(event_type),
        _ => None,
    }
}

/// The event types that the vehicle family registers a handler for.
pub open spec fn is_vehicle_event(event_type: EventType) -> bool {
    match event_type {
        EventType::VehicleBlockCollisionEvent
        | EventType::VehicleCollisionEvent
        | EventType::VehicleCreateEvent
        | EventType::VehicleDamageEvent
        | EventType::VehicleDestroyEvent
        | EventType::VehicleEnterEvent
        | EventType::VehicleEntityCollisionEvent
        | EventType::VehicleExitEvent
        | EventType::VehicleMoveEvent
        | EventType::VehicleUpdateEvent => true,
        _ => false,
    }
}

/// Registration in the vehicle family: the handler is registered for
/// the server event of the same kind (`Some`), or, for an event type of
/// another family, nothing is registered (`None`).
pub fn register_vehicle_event(event_type: EventType) -> (res: Option<EventType>)
    ensures
        res == (if is_vehicle_event(event_type) {
            Some(event_type)
        } else {
            None
        }),
{
    match event_type {
        EventType::VehicleBlockCollisionEvent
        | EventType::VehicleCollisionEvent
        | EventType::VehicleCreateEvent
        | EventType::VehicleDamageEvent
        | EventType::VehicleDestroyEvent
        | EventType::VehicleEnterEvent
        | EventType::VehicleEntityCollisionEvent
        | EventType::VehicleExitEvent
        | EventType::VehicleMoveEvent
        | EventType::VehicleUpdateEvent => Some(event_type),
        _ => None,
    }
}

/// The event types that the enchantment family registers a handler for.
pub open spec fn is_enchantment_event(event_type: EventType) -> bool {
    match event_type {
        EventType::PrepareItemEnchantEvent
        | EventType::EnchantItemEvent => true,
        _ => false,
    }
}

/// Registration in the enchantment family: the handler is registered for
/// the server event of the same kind (`Some`), or, for an event type of
/// another family, nothing is registered (`None`).
pub fn register_enchantment_event(event_type: EventType) -> (res: Option<EventType>)
    ensures
        res == (if is_enchantment_event(event_type) {
            Some(event_type)
        } else {
            None
        }),
{
    match event_type {
        EventType::PrepareItemEnchantEvent
        | EventType::EnchantItemEvent => Some(event_type),
        _ => None,
    }
}

/// The event types that the world family registers a handler for.
pub open spec fn is_world_event(event_type: EventType) -> bool {
    match event_type {
        EventType::SpawnChangeEvent
        | EventType::ChunkLoadEvent
        | EventType::ChunkSaveEvent
        | EventType::ChunkSendEvent
        | EventType::WeatherChangeEvent
        | EventType::ThunderChangeEvent
        | EventType::WorldLoadEvent
        | EventType::WorldUnloadEvent
        | EventType::AsyncStructureGenerateEvent
        | EventType::AsyncStructureSpawnEvent
        | EventType::ChunkPopulateEvent
        | EventType::ChunkUnloadEvent
        | EventType::EntitiesLoadEvent
        | EventType::EntitiesUnloadEvent
        | EventType::GenericGameEvent
        | EventType::LootGenerateEvent
        | EventType::PortalCreateEvent
        | EventType::StructureGrowEvent
        | EventType::TimeSkipEvent
        | EventType::WorldInitEvent
        | EventType::WorldSaveEvent
        | EventType::LightningStrikeEvent => true,
        _ => false,
    }
}

/// Registration in the world family: the handler is registered for
/// the server event of the same kind (`Some`), or, for an event type of
/// another family, nothing is registered (`None`).
pub fn register_world_event(event_type: EventType) -> (res: Option<EventType>)
    ensures
        res == (if is_world_event(event_type) {
            Some(event_type)
        } else {
            None
        }),
{
    match event_type {
        EventType::SpawnChangeEvent
        | EventType::ChunkLoadEvent
        | EventType::ChunkSaveEvent
        | EventType::ChunkSendEvent
        | EventType::WeatherChangeEvent
        | EventType::ThunderChangeEvent
        | EventType::WorldLoadEvent
        | EventType::WorldUnloadEvent
        | EventType::AsyncStructureGenerateEvent
        | EventType::AsyncStructureSpawnEvent
        | EventType::ChunkPopulateEvent
        | EventType::ChunkUnloadEvent
        | EventType::EntitiesLoadEvent
        | EventType::EntitiesUnloadEvent
        | EventType::GenericGameEvent
        | EventType::LootGenerateEvent
        | EventType::PortalCreateEvent
        | EventType::StructureGrowEvent
        | EventType::TimeSkipEvent
        | EventType::WorldInitEvent
        | EventType::WorldSaveEvent
        | EventType::LightningStrikeEvent => Some(event_type),
        _ => None,
    }
}

/// The event types that the block family registers a handler for.
pub open spec fn is_block_event(event_type: EventType) -> bool {
    match event_type {
        EventType::BlockRedstoneEvent
        | EventType::BlockBreakEvent
        | EventType::BlockBurnEvent
        | EventType::BlockCanBuildEvent
        | EventType::BlockGrowEvent
        | EventType::BlockPlaceEvent
        | EventType::BlockDamageEvent
        | EventType::BlockIgniteEvent
        | EventType::BlockFromToEvent
        | EventType::BlockFormEvent
        | EventType::BlockFadeEvent
        | EventType::BlockDispenseEvent
        | EventType::BlockExplodeEvent
        | EventType::BlockPhysicsEvent
        | EventType::BlockPistonExtendEvent
        | EventType::BlockPistonRetractEvent
        | EventType::NotePlayEvent
        | EventType::SignChangeEvent
        | EventType::SpongeAbsorbEvent
        | EventType::TntPrimeEvent
        | EventType::BellResonateEvent
        | EventType::BellRingEvent
        | EventType::BlockBrushEvent
        | EventType::BlockCookEvent
        | EventType::BlockDamageAbortEvent
        | EventType::BlockDispenseArmorEvent
        | EventType::BlockDispenseLootEvent
        | EventType::BlockDropItemEvent
        | EventType::BlockExpEvent
        | EventType::BlockFertilizeEvent
        | EventType::BlockMultiPlaceEvent
        | EventType::BlockReceiveGameEvent
        | EventType::BlockShearEntityEvent
        | EventType::BlockSpreadEvent
        | EventType::BrewingStartEvent
        | EventType::CampfireStartEvent
        | EventType::CauldronLevelChangeEvent
        | EventType::CrafterCraftEvent
        | EventType::EntityBlockFormEvent
        | EventType::FluidLevelChangeEvent
        | EventType::InventoryBlockStartEvent
        | EventType::LeavesDecayEvent
        | EventType::MoistureChangeEvent
        | EventType::SculkBloomEvent
        | EventType::VaultDisplayItemEvent => true,
        _ => false,
    }
}

/// Registration in the block family: the handler is registered for
/// the server event of the same kind (`Some`), or, for an event type of
/// another family, nothing is registered (`None`).
pub fn register_block_event(event_type: EventType) -> (res: Option<EventType>)
    ensures
        res == (if is_block_event(event_type) {
            Some(event_type)
        } else {
            None
        }),
{
    match event_type {
        EventType::BlockRedstoneEvent
        | EventType::BlockBreakEvent
        | EventType::BlockBurnEvent
        | EventType::BlockCanBuildEvent
        | EventType::BlockGrowEvent
        | EventType::BlockPlaceEvent
        | EventType::BlockDamageEvent
        | EventType::BlockIgniteEvent
        | EventType::BlockFromToEvent
        | EventType::BlockFormEvent
        | EventType::BlockFadeEvent
        | EventType::BlockDispenseEvent
        | EventType::BlockExplodeEvent
        | EventType::BlockPhysicsEvent
        | EventType::BlockPistonExtendEvent
        | EventType::BlockPistonRetractEvent
        | EventType::NotePlayEvent
        | EventType::SignChangeEvent
        | EventType::SpongeAbsorbEvent
        | EventType::TntPrimeEvent
        | EventType::BellResonateEvent
        | EventType::BellRingEvent
        | EventType::BlockBrushEvent
        | EventType::BlockCookEvent
        | EventType::BlockDamageAbortEvent
        | EventType::BlockDispenseArmorEvent
        | EventType::BlockDispenseLootEvent
        | EventType::BlockDropItemEvent
        | EventType::BlockExpEvent
        | EventType::BlockFertilizeEvent
        | EventType::BlockMultiPlaceEvent
        | EventType::BlockReceiveGameEvent
        | EventType::BlockShearEntityEvent
        | EventType::BlockSpreadEvent
        | EventType::BrewingStartEvent
        | EventType::CampfireStartEvent
        | EventType::CauldronLevelChangeEvent
        | EventType::CrafterCraftEvent
        | EventType::EntityBlockFormEvent
        | EventType::FluidLevelChangeEvent
        | EventType::InventoryBlockStartEvent
        | EventType::LeavesDecayEvent
        | EventType::MoistureChangeEvent
        | EventType::SculkBloomEvent
        | EventType::VaultDisplayItemEvent => Some(event_type),
        _ => None,
    }
}

/// The event types that the raid family registers a handler for.
pub open spec fn is_raid_event(event_type: EventType) -> bool {
    match event_type {
        EventType::RaidFinishEvent
        | EventType::RaidSpawnWaveEvent
        | EventType::RaidStopEvent
        | EventType::RaidTriggerEvent => true,
        _ => false,
    }
}

/// Registration in the raid family: the handler is registered for
/// the server event of the same kind (`Some`), or, for an event type of
/// another family, nothing is registered (`None`).
pub fn register_raid_event(event_type: EventType) -> (res: Option<EventType>)
    ensures
        res == (if is_raid_event(event_type) {
            Some(event_type)
        } else {
            None
        }),
{
    match event_type {
        EventType::RaidFinishEvent
        | EventType::RaidSpawnWaveEvent
        | EventType::RaidStopEvent
        | EventType::RaidTriggerEvent => Some(event_type),
        _ => None,
    }
}

/// The event types that the dialog family registers a handler for.
pub open spec fn is_dialog_event(event_type: EventType) -> bool {
    match event_type {
        EventType::DialogClickActionEvent
        | EventType::DialogShowEvent
        | EventType::DialogClearEvent => true,
        _ => false,
    }
}

/// Registration in the dialog family: the handler is registered for
/// the server event of the same kind (`Some`), or, for an event type of
/// another family, nothing is registered (`None`).
pub fn register_dialog_event(event_type: EventType) -> (res: Option<EventType>)
    ensures
        res == (if is_dialog_event(event_type) {
            Some(event_type)
        } else {
            None
        }),
{
    match event_type {
        EventType::DialogClickActionEvent
        | EventType::DialogShowEvent
        | EventType::DialogClearEvent => Some(event_type),
        _ => None,
    }
}

/// The event types that the server family registers a handler for.
pub open spec fn is_server_event(event_type: EventType) -> bool {
    match event_type {
        EventType::PacketReceivedEvent
        | EventType::PacketSentEvent
        | EventType::ServerCommandEvent
        | EventType::ServerListPingEvent
        | EventType::ServerBroadcastEvent
        | EventType::ServerLoadEvent
        | EventType::ServerTickEndEvent
        | EventType::ServerTickStartEvent
        | EventType::MapInitializeEvent => true,
        _ => false,
    }
}

/// Registration in the server family: the handler is registered for
/// the server event of the same kind (`Some`), or, for an event type of
/// another family, nothing is registered (`None`).
pub fn register_server_event(event_type: EventType) -> (res: Option<EventType>)
    ensures
        res == (if is_server_event(event_type) {
            Some(event_type)
        } else {
            None
        }),
{
    match event_type {
        EventType::PacketReceivedEvent
        | EventType::PacketSentEvent
        | EventType::ServerCommandEvent
        | EventType::ServerListPingEvent
        | EventType::ServerBroadcastEvent
        | EventType::ServerLoadEvent
        | EventType::ServerTickEndEvent
        | EventType::ServerTickStartEvent
        | EventType::MapInitializeEvent => Some(event_type),
        _ => None,
    }
}

/// The event types that the hanging family registers a handler for.
pub open spec fn is_hanging_event(event_type: EventType) -> bool {
    match event_type {
        EventType::HangingBreakEvent
        | EventType::HangingBreakByEntityEvent
        | EventType::HangingPlaceEvent => true,
        _ => false,
    }
}

/// Registration in the hanging family: the handler is registered for
/// the server event of the same kind (`Some`), or, for an event type of
/// another family, nothing is registered (`None`).
pub fn register_hanging_event(event_type: EventType) -> (res: Option<EventType>)
    ensures
        res == (if is_hanging_event(event_type) {
            Some(event_type)
        } else {
            None
        }),
{
    match event_type {
        EventType::HangingBreakEvent
        | EventType::HangingBreakByEntityEvent
        | EventType::HangingPlaceEvent => Some(event_type),
        _ => None,
    }
}

/// Whether the registration function of `family` registers a handler for
/// `event_type`.
pub open spec fn family_registers(family: EventFamily, event_type: EventType) -> bool {
    match family {
        EventFamily::Player => is_player_event(event_type),
        EventFamily::Entity => is_entity_event(event_type),
        EventFamily::Inventory => is_inventory_event(event_type),
        EventFamily::Vehicle => is_vehicle_event(event_type),
        EventFamily::Enchantment => is_enchantment_event(event_type),
        EventFamily::World => is_world_event(event_type),
        EventFamily::Block => is_block_event(event_type),
        EventFamily::Raid => is_raid_event(event_type),
        EventFamily::Dialog => is_dialog_event(event_type),
        EventFamily::Server => is_server_event(event_type),
        EventFamily::Hanging => is_hanging_event(event_type),
    }
}

/// The registration function of a family, applied to an event type.
pub fn register_in_family(family: EventFamily, event_type: EventType) -> (res: Option<EventType>)
    ensures
        res == (if family_registers(family, event_type) {
            Some(event_type)
        } else {
            None
        }),
{
    match family {
        EventFamily::Player => register_player_event(event_type),
        EventFamily::Entity => register_entity_event(event_type),
        EventFamily::Inventory => register_inventory_event(event_type),
        EventFamily::Vehicle => register_vehicle_event(event_type),
        EventFamily::Enchantment => register_enchantment_event(event_type),
        EventFamily::World => register_world_event(event_type),
        EventFamily::Block => register_block_event(event_type),
        EventFamily::Raid => register_raid_event(event_type),
        EventFamily::Dialog => register_dialog_event(event_type),
        EventFamily::Server => register_server_event(event_type),
        EventFamily::Hanging => register_hanging_event(event_type),
    }
}

/// Every subscription reaches a family function that registers it: the
/// family that an event type is sent to registers a handler for it.
pub proof fn lemma_routed_events_are_registered(event_type: EventType)
    ensures
        family_registers(family_of(event_type), event_type),
{
}

/// No event type belongs to two families.
pub proof fn lemma_families_are_disjoint(event_type: EventType, other: EventFamily)
    requires
        family_registers(other, event_type),
    ensures
        other == family_of(event_type),
{
}

/// Priority of an event handler, as a plugin gives it.
#[derive(Clone, Copy, Debug, PartialEq, Eq)]
pub enum EventPriority {
    Highest,
    High,
    Normal,
    Low,
    Lowest,
}

/// Priority of an event handler on the server's event bus.
#[derive(Clone, Copy, Debug, PartialEq, Eq)]
pub enum HandlerPriority {
    Highest,
    High,
    Normal,
    Low,
    Lowest,
}

/// The server priority of each plugin priority: the one of the same name.
pub open spec fn handler_priority_of(priority: EventPriority) -> HandlerPriority {
    match priority {
        EventPriority::Highest => HandlerPriority::Highest,
        EventPriority::High => HandlerPriority::High,
        EventPriority::Normal => HandlerPriority::Normal,
        EventPriority::Low => HandlerPriority::Low,
        EventPriority::Lowest => HandlerPriority::Lowest,
    }
}

/// Converts a plugin priority to the server's.
pub fn to_handler_priority(priority: EventPriority) -> (res: HandlerPriority)
    ensures
        res == handler_priority_of(priority),
{
    match priority {
        EventPriority::Highest => HandlerPriority::Highest,
        EventPriority::High => HandlerPriority::High,
        EventPriority::Normal => HandlerPriority::Normal,
        EventPriority::Low => HandlerPriority::Low,
        EventPriority::Lowest => HandlerPriority::Lowest,
    }
}

/// A handler registered on the server's event bus: the plugin's handler, the
/// kind of server event it handles, its priority and whether the server waits
/// for it.
#[derive(Clone, Copy, Debug, PartialEq, Eq)]
pub struct EventSubscription {
    pub handler_id: u32,
    pub event: EventType,
    pub priority: HandlerPriority,
    pub blocking: bool,
}

/// Why a subscription cannot be registered.
#[derive(Clone, Copy, Debug, PartialEq, Eq, Structural)]
pub enum RegisterEventError {
    /// The host state holds no plugin yet ("Plugin state uninitialized").
    PluginStateUninitialized,
    /// The plugin the host state refers to is gone ("Plugin has been dropped").
    PluginDropped,
    /// The context handle the plugin passed is not (or no longer) in the
    /// resource table.
    ContextUnavailable,
}

/// Handles a plugin's subscription of handler `handler_id` to `event_type`,
/// given whether the host state holds a plugin, whether that plugin is still
/// alive, and whether the plugin's context handle is valid. These are checked
/// in that order, and the first that fails is the error. Otherwise the
/// subscription goes to the family of the event type, which registers the
/// handler for the server event of the same kind, with the server priority of
/// the same name; every event type is registered.
pub fn register_event(
    handler_id: u32,
    event_type: EventType,
    event_priority: EventPriority,
    blocking: bool,
    plugin_initialized: bool,
    plugin_alive: bool,
    context_alive: bool,
) -> (res: Result<EventSubscription, RegisterEventError>)
    ensures
        !plugin_initialized ==> res == Err::<EventSubscription, RegisterEventError>(
            RegisterEventError::PluginStateUninitialized,
        ),
        plugin_initialized && !plugin_alive ==> res == Err::<EventSubscription, RegisterEventError>(
            RegisterEventError::PluginDropped,
        ),
        plugin_initialized && plugin_alive && !context_alive ==> res == Err::<
            EventSubscription,
            RegisterEventError,
        >(RegisterEventError::ContextUnavailable),
        plugin_initialized && plugin_alive && context_alive ==> res == Ok::<
            EventSubscription,
            RegisterEventError,
        >(
            EventSubscription {
                handler_id,
                event: event_type,
                priority: handler_priority_of(event_priority),
                blocking,
            },
        ),
{
    let priority = to_handler_priority(event_priority);
    if !plugin_initialized {
        return Err(RegisterEventError::PluginStateUninitialized);
    }
    if !plugin_alive {
        return Err(RegisterEventError::PluginDropped);
    }
    if !context_alive {
        return Err(RegisterEventError::ContextUnavailable);
    }
    let family = event_family(event_type);
    proof {
        lemma_routed_events_are_registered(event_type);
    }
    match register_in_family(family, event_type) {
        Some(event) => Ok(EventSubscription { handler_id, event, priority, blocking }),
        None => Err(RegisterEventError::ContextUnavailable),
    }
}

/// A server list ping, as the event handlers see it: the host name and
/// address the client asked for, the message of the day (`M`, a text
/// component), the player counts and the favicon.
pub struct ServerListPing<M> {
    pub hostname: String,
    pub host: String,
    pub port: u16,
    pub motd: M,
    pub max_players: u32,
    pub num_players: u32,
    pub favicon: Option<String>,
}

/// Applies the ping a plugin's blocking handler returns: the message of the
/// day, the player counts and the favicon are taken from it, while the host
/// name and address the client asked for are kept.
pub fn apply_returned_ping<M>(event: &mut ServerListPing<M>, returned: ServerListPing<M>)
    ensures
        final(event).hostname == old(event).hostname,
        final(event).host == old(event).host,
        final(event).port == old(event).port,
        final(event).motd == returned.motd,
        final(event).max_players == returned.max_players,
        final(event).num_players == returned.num_players,
        final(event).favicon == returned.favicon,
{
    event.motd = returned.motd;
    event.max_players = returned.max_players;
    event.num_players = returned.num_players;
    event.favicon = returned.favicon;
}

/// The name of each `EventPriority` variant, as text.
pub open spec fn event_priority_name(v: EventPriority) -> Seq<char> {
    match v {
        EventPriority::Highest => "Highest"@,
        EventPriority::High => "High"@,
        EventPriority::Normal => "Normal"@,
        EventPriority::Low => "Low"@,
        EventPriority::Lowest => "Lowest"@,
    }
}

/// The name of each `HandlerPriority` variant, as text.
pub open spec fn handler_priority_name(v: HandlerPriority) -> Seq<char> {
    match v {
        HandlerPriority::Highest => "Highest"@,
        HandlerPriority::High => "High"@,
        HandlerPriority::Normal => "Normal"@,
        HandlerPriority::Low => "Low"@,
        HandlerPriority::Lowest => "Lowest"@,
    }
}

/// A plugin's event priority becomes the server priority of the same name.
pub proof fn lemma_handler_priority_of_keeps_name(v: EventPriority)
    ensures
        handler_priority_name(handler_priority_of(v)) == event_priority_name(v),
{
    match v {
        EventPriority::Highest => {},
        EventPriority::High => {},
        EventPriority::Normal => {},
        EventPriority::Low => {},
        EventPriority::Lowest => {},
    }
}

} // verus!
