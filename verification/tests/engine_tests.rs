use fishtank_core::engine::{CoreError, Engine};
use fishtank_core::model::{DEFAULT_OBSERVATION_TTL_TICKS, MOVE_BASE_TICKS};
use fishtank_core::protocol::{
    Activity, ActivityKind, ActivityStatus, CharacterStatus, Command, CommandEnvelope,
    CommandResult, Direction, EventKind, HomeAction, HomeDefinition, LocationDefinition, MoveMode,
    NotificationAction, Precondition, PreconditionKind, QueueableCommand, QueuedCommand,
    ServiceDefinition, SpeechTarget, WorldDefinition, WorldSnapshot, OFFLINE_RETURN_HOME_TICKS,
    SCHEMA_VERSION,
};

fn location(id: &str, name: &str, exits: &[&str]) -> LocationDefinition {
    LocationDefinition {
        id: id.to_string(),
        name: name.to_string(),
        description: format!("{name}, a place in the village."),
        exits: exits.iter().map(|e| e.to_string()).collect(),
        directional_exits: Vec::new(),
    }
}

fn world() -> WorldDefinition {
    WorldDefinition {
        id: "village".to_string(),
        name: "Village".to_string(),
        spawn_location_id: "village.main_street".to_string(),
        starting_coins: 10,
        locations: vec![
            location("village.home_1", "Home 1", &["village.main_street"]),
            location("village.home_2", "Home 2", &["village.main_street"]),
            location("village.home_3", "Home 3", &["village.main_street"]),
            location(
                "village.main_street",
                "Main Street",
                &[
                    "village.home_1",
                    "village.home_2",
                    "village.home_3",
                    "village.cafe",
                    "village.park",
                ],
            ),
            location("village.cafe", "Cafe", &["village.main_street"]),
            location("village.park", "Park", &["village.main_street"]),
        ],
        homes: vec![
            HomeDefinition { id: "village.home_1".to_string(), owner_character_id: None },
            HomeDefinition { id: "village.home_2".to_string(), owner_character_id: None },
            HomeDefinition { id: "village.home_3".to_string(), owner_character_id: None },
        ],
        services: vec![ServiceDefinition {
            id: "village.cafe.service_window".to_string(),
            name: "Cafe Service Window".to_string(),
            location_id: "village.cafe".to_string(),
            item: "coffee".to_string(),
            price_coins: 2,
            duration_ticks: 10,
            capacity: 1,
        }],
    }
}

fn engine() -> Engine {
    Engine::new(world()).unwrap()
}

fn env(character_id: &str, command: Command) -> CommandEnvelope {
    CommandEnvelope {
        schema_version: SCHEMA_VERSION.to_string(),
        command_id: format!("cmd.{character_id}.test"),
        character_id: character_id.to_string(),
        submitted_at: "1970-01-01 0:00:00.0 +00:00:00".to_string(),
        based_on_tick: None,
        valid_until_tick: None,
        local_state_hash: None,
        preconditions: Vec::new(),
        command,
    }
}

fn create(engine: &mut Engine, character_id: &str, name: &str) {
    let response = engine.apply(env(
        character_id,
        Command::CreateCharacter {
            name: name.to_string(),
            body_color: "#4ea1ff".to_string(),
            face_color: "#101820".to_string(),
        },
    ));
    assert!(response.ok, "{response:?}");
}

fn move_to(engine: &mut Engine, character_id: &str, target: &str) {
    let response = engine.apply(env(
        character_id,
        Command::Move { mode: MoveMode::ToTarget { target: target.to_string() } },
    ));
    assert!(response.ok, "{response:?}");
    engine.advance_ticks(MOVE_BASE_TICKS);
}

fn character(engine: &Engine, id: &str) -> fishtank_core::protocol::Character {
    engine.state().characters.get(id).unwrap().clone()
}

/// Rebuilds the engine with one character changed, as a persisted snapshot would be.
fn edit_character(
    engine: &mut Engine,
    id: &str,
    edit: impl FnOnce(&mut fishtank_core::protocol::Character),
) {
    let mut snapshot: WorldSnapshot = engine.state().clone();
    let mut c = snapshot.characters.get(id).unwrap().clone();
    edit(&mut c);
    snapshot.characters.insert(id.to_string(), c);
    *engine = Engine::from_snapshot(snapshot, engine.events().to_vec());
}

fn code(response: fishtank_core::protocol::CommandResponse) -> String {
    response.error.unwrap().code
}

#[test]
fn world_validation_rejects_bad_worlds() {
    let mut missing_spawn = world();
    missing_spawn.spawn_location_id = "missing".to_string();
    assert!(matches!(Engine::new(missing_spawn), Err(CoreError::MissingSpawn(_))));

    let mut missing_exit = world();
    missing_exit.locations[0].exits.push("missing".to_string());
    assert!(matches!(Engine::new(missing_exit), Err(CoreError::MissingExit(_, _))));

    let mut missing_home = world();
    missing_home.homes[0].id = "missing".to_string();
    assert!(matches!(Engine::new(missing_home), Err(CoreError::MissingHome(_))));

    let mut missing_service_location = world();
    missing_service_location.services[0].location_id = "missing".to_string();
    assert!(matches!(
        Engine::new(missing_service_location),
        Err(CoreError::MissingServiceLocation(_, _))
    ));

    let mut empty = world();
    empty.locations.clear();
    assert!(matches!(Engine::new(empty), Err(CoreError::EmptyWorld)));
}

#[test]
fn character_creation_assigns_homes_and_validates_identity() {
    let mut engine = engine();
    create(&mut engine, "char_mira", "Mira");
    create(&mut engine, "char_ren", "Ren");
    assert_eq!(character(&engine, "char_mira").home_id, "village.home_1");
    assert_eq!(character(&engine, "char_ren").home_id, "village.home_2");

    let duplicate = engine.apply(env(
        "char_mira",
        Command::CreateCharacter {
            name: "Mira Again".to_string(),
            body_color: "#4ea1ff".to_string(),
            face_color: "#101820".to_string(),
        },
    ));
    assert_eq!(code(duplicate), "character_exists");

    let invalid_color = engine.apply(env(
        "char_bad",
        Command::CreateCharacter {
            name: "Bad".to_string(),
            body_color: "blue".to_string(),
            face_color: "#101820".to_string(),
        },
    ));
    assert_eq!(code(invalid_color), "invalid_color");
}

#[test]
fn observations_are_filtered_and_include_affordances() {
    let mut engine = engine();
    create(&mut engine, "char_mira", "Mira");
    create(&mut engine, "char_ren", "Ren");
    move_to(&mut engine, "char_mira", "village.main_street");
    move_to(&mut engine, "char_ren", "village.main_street");

    let observation = engine.observe("char_mira").unwrap();
    assert_eq!(observation.actor.id, "char_mira");
    assert!(observation.valid_until_tick > observation.observed_at_tick);
    assert_eq!(observation.staleness_policy, "valid_if_local_state_compatible");
    assert!(observation
        .nearby_entities
        .iter()
        .any(|entity| entity.id == "char_ren" && entity.entity_type == "character"));
    assert!(observation.available_actions.iter().any(|action| action.action == "move"));
    assert_eq!(observation.world_time.tick, engine.state().tick);
}

#[test]
fn movement_supports_targets_directions_and_validation() {
    let mut engine = engine();
    create(&mut engine, "char_mira", "Mira");

    let unreachable = engine.apply(env(
        "char_mira",
        Command::Move { mode: MoveMode::ToTarget { target: "village.cafe".to_string() } },
    ));
    assert_eq!(code(unreachable), "target_not_reachable");

    let response = engine.apply(env(
        "char_mira",
        Command::Move { mode: MoveMode::Direction { direction: Direction::Forward, distance: 1 } },
    ));
    assert!(response.ok);
    engine.advance_ticks(MOVE_BASE_TICKS);
    assert_eq!(character(&engine, "char_mira").location_id, "village.main_street");

    let bad_distance = engine.apply(env(
        "char_mira",
        Command::Move { mode: MoveMode::Direction { direction: Direction::North, distance: 0 } },
    ));
    assert_eq!(code(bad_distance), "invalid_distance");
}

#[test]
fn command_freshness_and_preconditions_are_enforced() {
    let mut engine = engine();
    create(&mut engine, "char_mira", "Mira");
    let stale = engine.apply(CommandEnvelope {
        valid_until_tick: Some(0),
        ..env("char_mira", Command::Wait { ticks: 1 })
    });
    assert!(stale.ok);
    let stale = engine.apply(CommandEnvelope {
        valid_until_tick: Some(0),
        ..env("char_mira", Command::Observe)
    });
    assert_eq!(code(stale), "stale_command");

    let changed = engine.apply(CommandEnvelope {
        local_state_hash: Some("wrong".to_string()),
        ..env("char_mira", Command::Observe)
    });
    assert_eq!(code(changed), "local_state_changed");

    let failed_precondition = engine.apply(CommandEnvelope {
        preconditions: vec![Precondition {
            entity: "village.cafe".to_string(),
            condition: PreconditionKind::ActorAtLocation,
        }],
        ..env("char_mira", Command::Observe)
    });
    assert_eq!(code(failed_precondition), "precondition_failed");
}

#[test]
fn speech_creates_visible_conversation_and_rejects_distant_target() {
    let mut engine = engine();
    create(&mut engine, "char_mira", "Mira");
    create(&mut engine, "char_ren", "Ren");
    move_to(&mut engine, "char_mira", "village.main_street");

    let distant = engine.apply(env(
        "char_mira",
        Command::Say {
            target: SpeechTarget::Character("char_ren".to_string()),
            text: "Hello?".to_string(),
        },
    ));
    assert_eq!(code(distant), "target_not_audible");

    move_to(&mut engine, "char_ren", "village.main_street");
    let spoken = engine.apply(env(
        "char_mira",
        Command::Say {
            target: SpeechTarget::Character("char_ren".to_string()),
            text: "Want coffee?".to_string(),
        },
    ));
    assert!(spoken.ok);
    let observation = engine.observe("char_ren").unwrap();
    assert_eq!(observation.conversations.len(), 1);
    assert_eq!(observation.conversations[0].recent_messages[0].text, "Want coffee?");

    let empty = engine.apply(env(
        "char_mira",
        Command::Say { target: SpeechTarget::Room, text: " ".to_string() },
    ));
    assert_eq!(code(empty), "empty_speech");
}

#[test]
fn look_at_reports_visible_entities() {
    let mut engine = engine();
    create(&mut engine, "char_mira", "Mira");
    move_to(&mut engine, "char_mira", "village.main_street");
    let looked =
        engine.apply(env("char_mira", Command::LookAt { target: "village.cafe".to_string() }));
    assert!(looked.ok);
    assert!(matches!(looked.result.unwrap(), CommandResult::LookedAt { .. }));

    let hidden = engine.apply(env(
        "char_mira",
        Command::LookAt { target: "village.cafe.service_window".to_string() },
    ));
    assert_eq!(code(hidden), "not_visible");
}

#[test]
fn home_manual_and_lock_rules_work() {
    let mut engine = engine();
    create(&mut engine, "char_mira", "Mira");
    create(&mut engine, "char_ren", "Ren");

    let manual = engine.apply(env("char_mira", Command::HomeManual));
    assert!(matches!(manual.result.unwrap(), CommandResult::HomeManual { .. }));

    let lock = engine.apply(env("char_mira", Command::Home { action: HomeAction::Lock }));
    assert!(lock.ok);
    move_to(&mut engine, "char_ren", "village.main_street");
    let blocked = engine.apply(env(
        "char_ren",
        Command::Move { mode: MoveMode::ToTarget { target: "village.home_1".to_string() } },
    ));
    assert_eq!(code(blocked), "home_locked");

    let unlock = engine.apply(env("char_mira", Command::Home { action: HomeAction::Unlock }));
    assert!(unlock.ok);
    let allowed = engine.apply(env(
        "char_ren",
        Command::Move { mode: MoveMode::ToTarget { target: "village.home_1".to_string() } },
    ));
    assert!(allowed.ok);
}

#[test]
fn service_order_reserves_spends_and_notifies() {
    let mut engine = engine();
    create(&mut engine, "char_mira", "Mira");
    move_to(&mut engine, "char_mira", "village.main_street");
    move_to(&mut engine, "char_mira", "village.cafe");

    let wrong_item = engine.apply(env(
        "char_mira",
        Command::Order {
            service_id: "village.cafe.service_window".to_string(),
            item: "tea".to_string(),
        },
    ));
    assert_eq!(code(wrong_item), "item_unavailable");

    let order = engine.apply(env(
        "char_mira",
        Command::Order {
            service_id: "village.cafe.service_window".to_string(),
            item: "coffee".to_string(),
        },
    ));
    assert!(order.ok);
    assert_eq!(character(&engine, "char_mira").reserved_coins, 2);
    engine.advance_ticks(10);
    assert_eq!(character(&engine, "char_mira").coins, 8);
    assert_eq!(character(&engine, "char_mira").reserved_coins, 0);
    assert_eq!(engine.notifications_for("char_mira", false).len(), 1);

    let notification_id = engine.notifications_for("char_mira", false)[0].notification_id.clone();
    let ack = engine.apply(env(
        "char_mira",
        Command::Notifications { action: NotificationAction::Ack { notification_id } },
    ));
    assert!(ack.ok);
    assert!(engine.notifications_for("char_mira", false).is_empty());
}

#[test]
fn queue_executes_steps_and_reserves_spending_upfront() {
    let mut engine = engine();
    create(&mut engine, "char_mira", "Mira");
    move_to(&mut engine, "char_mira", "village.main_street");

    let queued = engine.apply(env(
        "char_mira",
        Command::Queue {
            actions: vec![
                QueuedCommand {
                    command: QueueableCommand::Move {
                        mode: MoveMode::ToTarget { target: "village.cafe".to_string() },
                    },
                },
                QueuedCommand {
                    command: QueueableCommand::Order {
                        service_id: "village.cafe.service_window".to_string(),
                        item: "coffee".to_string(),
                    },
                },
                QueuedCommand {
                    command: QueueableCommand::Move {
                        mode: MoveMode::ToTarget { target: "village.main_street".to_string() },
                    },
                },
            ],
        },
    ));
    assert!(queued.ok, "{queued:?}");
    assert_eq!(character(&engine, "char_mira").reserved_coins, 2);
    engine.advance_ticks(MOVE_BASE_TICKS);
    assert_eq!(character(&engine, "char_mira").location_id, "village.cafe");
    assert_eq!(
        character(&engine, "char_mira").current_activity.as_ref().unwrap().kind,
        ActivityKind::PlacingOrder
    );
    engine.advance_ticks(10);
    assert_eq!(character(&engine, "char_mira").coins, 8);
    engine.advance_ticks(MOVE_BASE_TICKS);
    assert_eq!(character(&engine, "char_mira").location_id, "village.main_street");
}

#[test]
fn queue_validation_and_failure_cleanup_work() {
    let mut engine = engine();
    create(&mut engine, "char_mira", "Mira");
    let too_long = engine.apply(env(
        "char_mira",
        Command::Queue {
            actions: vec![
                QueuedCommand { command: QueueableCommand::Wait { ticks: 1 } },
                QueuedCommand { command: QueueableCommand::Wait { ticks: 1 } },
                QueuedCommand { command: QueueableCommand::Wait { ticks: 1 } },
                QueuedCommand { command: QueueableCommand::Wait { ticks: 1 } },
            ],
        },
    ));
    assert_eq!(code(too_long), "queue_too_long");

    let failing = engine.apply(env(
        "char_mira",
        Command::Queue {
            actions: vec![QueuedCommand {
                command: QueueableCommand::Order {
                    service_id: "village.cafe.service_window".to_string(),
                    item: "coffee".to_string(),
                },
            }],
        },
    ));
    assert!(failing.ok);
    assert_eq!(character(&engine, "char_mira").reserved_coins, 0);
    assert!(engine
        .events()
        .iter()
        .any(|event| matches!(event.kind, EventKind::QueueStepFailed { .. })));
}

#[test]
fn snapshot_round_trip_and_command_replay_are_deterministic() {
    let mut engine = engine();
    let commands = vec![
        env(
            "char_mira",
            Command::CreateCharacter {
                name: "Mira".to_string(),
                body_color: "#4ea1ff".to_string(),
                face_color: "#101820".to_string(),
            },
        ),
        env(
            "char_mira",
            Command::Move { mode: MoveMode::ToTarget { target: "village.main_street".to_string() } },
        ),
        env("char_mira", Command::Wait { ticks: MOVE_BASE_TICKS }),
    ];
    for command in &commands {
        assert!(engine.apply(command.clone()).ok);
    }

    let snapshot: WorldSnapshot = engine.state().clone();
    let restored = Engine::from_snapshot(snapshot, engine.events().to_vec());
    assert_eq!(restored.state(), engine.state());

    let replayed = Engine::replay(world(), &commands).unwrap();
    assert_eq!(
        character(&replayed, "char_mira").location_id,
        character(&engine, "char_mira").location_id
    );
    assert_eq!(replayed.state().tick, engine.state().tick);
}

#[test]
fn inactive_characters_return_home() {
    let mut engine = engine();
    create(&mut engine, "char_mira", "Mira");
    move_to(&mut engine, "char_mira", "village.main_street");
    engine.advance_ticks(OFFLINE_RETURN_HOME_TICKS);
    assert_eq!(character(&engine, "char_mira").location_id, "village.home_1");
}

#[test]
fn utility_accessors_and_zero_tick_advance_behave() {
    let mut engine = engine();
    assert_eq!(engine.events_after(Some(999)).len(), 0);
    assert_eq!(engine.command_log().len(), 0);
    engine.advance_ticks(0);
    assert_eq!(engine.state().tick, 0);
    assert_eq!(engine.events_after(Some(0)).len(), 1);
}

#[test]
fn unknown_and_missing_state_errors_are_structured() {
    let mut engine = engine();
    let unknown_observe = engine.apply(env("missing", Command::Observe));
    assert_eq!(code(unknown_observe), "unknown_character");

    create(&mut engine, "char_mira", "Mira");
    let missing_target = engine.apply(env(
        "char_mira",
        Command::Move { mode: MoveMode::ToTarget { target: "missing".to_string() } },
    ));
    assert_eq!(code(missing_target), "unknown_target");

    edit_character(&mut engine, "char_mira", |c| c.location_id = "missing".to_string());
    assert_eq!(engine.observe("char_mira").unwrap_err().code, "location_missing");
}

#[test]
fn service_validation_covers_nearby_unknown_and_funds() {
    let mut engine = engine();
    create(&mut engine, "char_mira", "Mira");
    let unknown = engine.apply(env(
        "char_mira",
        Command::Order { service_id: "missing".to_string(), item: "coffee".to_string() },
    ));
    assert_eq!(code(unknown), "unknown_service");

    let not_nearby = engine.apply(env(
        "char_mira",
        Command::Order {
            service_id: "village.cafe.service_window".to_string(),
            item: "coffee".to_string(),
        },
    ));
    assert_eq!(code(not_nearby), "service_not_nearby");

    move_to(&mut engine, "char_mira", "village.main_street");
    move_to(&mut engine, "char_mira", "village.cafe");
    edit_character(&mut engine, "char_mira", |c| c.coins = 1);
    let poor = engine.apply(env(
        "char_mira",
        Command::Order {
            service_id: "village.cafe.service_window".to_string(),
            item: "coffee".to_string(),
        },
    ));
    assert_eq!(code(poor), "insufficient_coins");
}

#[test]
fn home_enter_leave_and_errors_are_covered() {
    let mut engine = engine();
    create(&mut engine, "char_mira", "Mira");
    let enter_at_home = engine.apply(env("char_mira", Command::Home { action: HomeAction::Enter }));
    assert!(enter_at_home.ok);
    assert_eq!(character(&engine, "char_mira").status, CharacterStatus::InsideHome);

    let leave = engine.apply(env("char_mira", Command::Home { action: HomeAction::Leave }));
    assert!(leave.ok);
    engine.advance_ticks(MOVE_BASE_TICKS);
    let leave_again = engine.apply(env("char_mira", Command::Home { action: HomeAction::Leave }));
    assert_eq!(code(leave_again), "not_at_home");
}

#[test]
fn notification_listing_and_error_paths_work() {
    let mut engine = engine();
    create(&mut engine, "char_mira", "Mira");
    create(&mut engine, "char_ren", "Ren");
    engine.create_notification(
        "char_mira",
        "test",
        "A test notification.",
        vec![("x".to_string(), "y".to_string())],
    );
    let listed = engine.apply(env(
        "char_mira",
        Command::Notifications { action: NotificationAction::List },
    ));
    assert!(matches!(listed.result.unwrap(), CommandResult::Notifications { .. }));
    let notification_id = engine.notifications_for("char_mira", false)[0].notification_id.clone();
    let wrong_owner = engine.apply(env(
        "char_ren",
        Command::Notifications {
            action: NotificationAction::Ack { notification_id: notification_id.clone() },
        },
    ));
    assert_eq!(code(wrong_owner), "notification_not_owned");
    let unknown = engine.apply(env(
        "char_mira",
        Command::Notifications {
            action: NotificationAction::Ack { notification_id: "missing".to_string() },
        },
    ));
    assert_eq!(code(unknown), "unknown_notification");
}

#[test]
fn queue_empty_insufficient_and_wait_steps_are_covered() {
    let mut engine = engine();
    create(&mut engine, "char_mira", "Mira");
    let empty = engine.apply(env("char_mira", Command::Queue { actions: vec![] }));
    assert_eq!(code(empty), "empty_queue");

    edit_character(&mut engine, "char_mira", |c| c.coins = 1);
    let cannot_reserve = engine.apply(env(
        "char_mira",
        Command::Queue {
            actions: vec![QueuedCommand {
                command: QueueableCommand::Order {
                    service_id: "village.cafe.service_window".to_string(),
                    item: "coffee".to_string(),
                },
            }],
        },
    ));
    assert_eq!(code(cannot_reserve), "insufficient_coins");

    edit_character(&mut engine, "char_mira", |c| c.coins = 10);
    let waits = engine.apply(env(
        "char_mira",
        Command::Queue { actions: vec![QueuedCommand { command: QueueableCommand::Wait { ticks: 2 } }] },
    ));
    assert!(waits.ok);
    assert_eq!(
        character(&engine, "char_mira").current_activity.as_ref().unwrap().kind,
        ActivityKind::Waiting
    );
    engine.advance_ticks(2);
    assert!(character(&engine, "char_mira").current_activity.is_none());
}

#[test]
fn precondition_success_shouting_and_message_window_are_covered() {
    let mut engine = engine();
    create(&mut engine, "char_mira", "Mira");
    move_to(&mut engine, "char_mira", "village.main_street");
    let visible_precondition = engine.apply(CommandEnvelope {
        preconditions: vec![Precondition {
            entity: "village.cafe".to_string(),
            condition: PreconditionKind::NearbyOrVisible,
        }],
        ..env("char_mira", Command::Observe)
    });
    assert!(visible_precondition.ok);

    for index in 0..13 {
        let response = engine.apply(env(
            "char_mira",
            Command::Say { target: SpeechTarget::Shout, text: format!("message {index}") },
        ));
        assert!(response.ok);
    }
    let observation = engine.observe("char_mira").unwrap();
    assert_eq!(observation.conversations[0].recent_messages.len(), 12);
    assert_eq!(observation.conversations[0].recent_messages[0].text, "message 1");
}

#[test]
fn manually_completing_unusual_activity_shapes_is_stable() {
    let mut engine = engine();
    create(&mut engine, "char_mira", "Mira");
    edit_character(&mut engine, "char_mira", |c| {
        c.current_activity = Some(Activity {
            id: "activity.return.test".to_string(),
            kind: ActivityKind::ReturningHome,
            status: ActivityStatus::Active,
            target_id: Some("village.home_1".to_string()),
            started_at_tick: 0,
            completes_at_tick: 1,
            description: "return".to_string(),
            promise_id: None,
            reserved_coins: 0,
        })
    });
    engine.advance_ticks(1);
    assert_eq!(character(&engine, "char_mira").status, CharacterStatus::InsideHome);

    edit_character(&mut engine, "char_mira", |c| {
        c.current_activity = Some(Activity {
            id: "activity.move.no_target".to_string(),
            kind: ActivityKind::Moving,
            status: ActivityStatus::Active,
            target_id: None,
            started_at_tick: 1,
            completes_at_tick: 2,
            description: "no target".to_string(),
            promise_id: None,
            reserved_coins: 0,
        })
    });
    engine.advance_ticks(1);
    assert!(character(&engine, "char_mira").current_activity.is_none());
}

#[test]
fn observation_window_is_the_default_ttl() {
    let mut engine = engine();
    create(&mut engine, "char_mira", "Mira");
    let observation = engine.observe("char_mira").unwrap();
    assert_eq!(
        observation.valid_until_tick,
        observation.observed_at_tick + DEFAULT_OBSERVATION_TTL_TICKS
    );
    assert_eq!(observation.local_state_hash, "obs_village.home_1_none_0_0");
}
