use pumpkin_wasm_host::events::{
    EventFamily, EventPriority, EventSubscription, RegisterEventError, ServerListPing,
    apply_returned_ping, EventType, HandlerPriority, event_family,
    register_block_event, register_event, register_player_event, register_world_event,
    to_handler_priority,
};

#[test]
fn event_types_are_sent_to_their_family() {
    assert_eq!(event_family(EventType::ServerListPingEvent), EventFamily::Server);
    assert_eq!(event_family(EventType::HangingPlaceEvent), EventFamily::Hanging);
    assert_eq!(event_family(EventType::ChunkLoadEvent), EventFamily::World);
    assert_eq!(event_family(EventType::PlayerDeathEvent), EventFamily::Entity);
    assert_eq!(event_family(EventType::BlockRedstoneEvent), EventFamily::Block);
    assert_eq!(event_family(EventType::InventoryOpenEvent), EventFamily::Inventory);
    assert_eq!(event_family(EventType::EnchantItemEvent), EventFamily::Enchantment);
    assert_eq!(event_family(EventType::VehicleBlockCollisionEvent), EventFamily::Vehicle);
    assert_eq!(event_family(EventType::RaidFinishEvent), EventFamily::Raid);
    assert_eq!(event_family(EventType::DialogClickActionEvent), EventFamily::Dialog);
    assert_eq!(event_family(EventType::PlayerJoinEvent), EventFamily::Player);
}

#[test]
fn family_functions_refuse_other_families() {
    assert_eq!(register_player_event(EventType::PlayerJoinEvent), Some(EventType::PlayerJoinEvent));
    assert_eq!(register_player_event(EventType::ChunkLoadEvent), None);
    assert_eq!(register_world_event(EventType::ChunkLoadEvent), Some(EventType::ChunkLoadEvent));
    assert_eq!(register_block_event(EventType::TntPrimeEvent), Some(EventType::TntPrimeEvent));
    assert_eq!(register_block_event(EventType::PlayerJoinEvent), None);
}

#[test]
fn every_subscription_is_registered() {
    let sub = register_event(7, EventType::PlayerChatEvent, EventPriority::High, true, true, true, true);
    assert_eq!(
        sub,
        Ok(EventSubscription {
            handler_id: 7,
            event: EventType::PlayerChatEvent,
            priority: HandlerPriority::High,
            blocking: true,
        })
    );
    let sub = register_event(0, EventType::ServerTickEndEvent, EventPriority::Lowest, false, true, true, true);
    assert_eq!(sub.map(|s| s.priority), Ok(HandlerPriority::Lowest));
}

#[test]
fn registration_errors_come_in_order() {
    let e = EventType::PlayerJoinEvent;
    let p = EventPriority::Normal;
    assert_eq!(register_event(1, e, p, false, false, false, false), Err(RegisterEventError::PluginStateUninitialized));
    assert_eq!(register_event(1, e, p, false, true, false, false), Err(RegisterEventError::PluginDropped));
    assert_eq!(register_event(1, e, p, false, true, true, false), Err(RegisterEventError::ContextUnavailable));
}

#[test]
fn priorities_keep_their_names() {
    assert_eq!(to_handler_priority(EventPriority::Highest), HandlerPriority::Highest);
    assert_eq!(to_handler_priority(EventPriority::Normal), HandlerPriority::Normal);
    assert_eq!(to_handler_priority(EventPriority::Low), HandlerPriority::Low);
}

#[test]
fn server_list_ping_applies_and_consumes_returned_resources() {
    let mut event = ServerListPing {
        hostname: "original.example".to_string(),
        host: "127.0.0.1".to_string(),
        port: 25565,
        motd: "Original".to_string(),
        max_players: 20,
        num_players: 1,
        favicon: None,
    };
    let returned = ServerListPing {
        hostname: "replacement.example".to_string(),
        host: "192.0.2.1".to_string(),
        port: 25_566,
        motd: "Returned".to_string(),
        max_players: 40,
        num_players: 2,
        favicon: Some("data:image/png;base64,test".to_string()),
    };

    apply_returned_ping(&mut event, returned);

    assert_eq!(event.hostname, "original.example");
    assert_eq!(event.host, "127.0.0.1");
    assert_eq!(event.port, 25_565);
    assert_eq!(event.motd, "Returned");
    assert_eq!(event.max_players, 40);
    assert_eq!(event.num_players, 2);
    assert_eq!(event.favicon.as_deref(), Some("data:image/png;base64,test"));
}
