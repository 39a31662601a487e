use fishtank_core::engine::{api_error, insert_unique, validate_hex_color, CoreError, Engine};
use fishtank_core::model::MOVE_BASE_TICKS;
use fishtank_core::protocol::{
    Command, CommandEnvelope, Direction, EventKind, HomeAction, HomeDefinition, LocationDefinition, MoveMode,
    NotificationAction, QueueableCommand, QueuedCommand, ServiceDefinition, SpeechTarget,
    WorldDefinition,
    SCHEMA_VERSION,
};

fn location(id: &str, name: &str, exits: &[&str]) -> LocationDefinition {
    LocationDefinition {
        id: id.to_string(),
        name: name.to_string(),
        description: format!("{name}, a place in the village."),
        exits: exits.iter().map(|e| e.to_string()).collect(),
        directional_exits: Vec::new(),
    }
}

fn world() -> WorldDefinition {
    WorldDefinition {
        id: "village".to_string(),
        name: "Village".to_string(),
        spawn_location_id: "village.main_street".to_string(),
        starting_coins: 10,
        locations: vec![
            location("village.home_1", "Home 1", &["village.main_street"]),
            location("village.home_2", "Home 2", &["village.main_street"]),
            location("village.home_3", "Home 3", &["village.main_street"]),
            location(
                "village.main_street",
                "Main Street",
                &[
                    "village.home_1",
                    "village.home_2",
                    "village.home_3",
                    "village.cafe",
                    "village.park",
                ],
            ),
            location("village.cafe", "Cafe", &["village.main_street"]),
            location("village.park", "Park", &["village.main_street"]),
        ],
        homes: vec![
            HomeDefinition { id: "village.home_1".to_string(), owner_character_id: None },
            HomeDefinition { id: "village.home_2".to_string(), owner_character_id: None },
            HomeDefinition { id: "village.home_3".to_string(), owner_character_id: None },
        ],
        services: vec![ServiceDefinition {
            id: "village.cafe.service_window".to_string(),
            name: "Cafe Service Window".to_string(),
            location_id: "village.cafe".to_string(),
            item: "coffee".to_string(),
            price_coins: 2,
            duration_ticks: 10,
            capacity: 1,
        }],
    }
}

fn engine() -> Engine {
    Engine::new(world()).unwrap()
}

fn env(character_id: &str, command: Command) -> CommandEnvelope {
    CommandEnvelope {
        schema_version: SCHEMA_VERSION.to_string(),
        command_id: format!("cmd.{character_id}.test"),
        character_id: character_id.to_string(),
        submitted_at: "1970-01-01 0:00:00.0 +00:00:00".to_string(),
        based_on_tick: None,
        valid_until_tick: None,
        local_state_hash: None,
        preconditions: Vec::new(),
        command,
    }
}

fn create(engine: &mut Engine, character_id: &str, name: &str) {
    let response = engine.apply(env(
        character_id,
        Command::CreateCharacter {
            name: name.to_string(),
            body_color: "#4ea1ff".to_string(),
            face_color: "#101820".to_string(),
        },
    ));
    assert!(response.ok, "{response:?}");
}

fn move_to(engine: &mut Engine, character_id: &str, target: &str) {
    let response = engine.apply(env(
        character_id,
        Command::Move { mode: MoveMode::ToTarget { target: target.to_string() } },
    ));
    assert!(response.ok, "{response:?}");
    engine.advance_ticks(MOVE_BASE_TICKS);
}

fn character(engine: &Engine, id: &str) -> fishtank_core::protocol::Character {
    engine.state().characters.get(id).unwrap().clone()
}


fn invariant_holds(engine: &Engine) {
    for i in 0..engine.state().characters.len() {
        let c = engine.state().characters.value_at(i);
        assert!(c.reserved_coins <= c.coins, "{c:?}");
        assert!(c.queued_commands.len() <= 3, "{c:?}");
    }
    let events = engine.events();
    assert!(events.iter().all(|e| e.schema_version == SCHEMA_VERSION));
    for k in 1..events.len() {
        assert_eq!(events[k].id, events[k - 1].id + 1);
        assert!(events[k - 1].tick <= events[k].tick);
    }
    assert!(events.iter().all(|e| e.tick <= engine.state().tick));
    assert_eq!(engine.state().next_event_id, events.last().unwrap().id + 1);
}

fn busy_run() -> (Engine, Vec<CommandEnvelope>) {
    let mut engine = engine();
    let mut sent = Vec::new();
    let commands = vec![
        env(
            "char_mira",
            Command::CreateCharacter {
                name: "Mira".to_string(),
                body_color: "#4ea1ff".to_string(),
                face_color: "#101820".to_string(),
            },
        ),
        env(
            "char_mira",
            Command::Move { mode: MoveMode::ToTarget { target: "village.main_street".to_string() } },
        ),
        env("char_mira", Command::Wait { ticks: MOVE_BASE_TICKS }),
        env(
            "char_mira",
            Command::Move { mode: MoveMode::ToTarget { target: "village.cafe".to_string() } },
        ),
        env("char_mira", Command::Wait { ticks: MOVE_BASE_TICKS }),
        env(
            "char_mira",
            Command::Order {
                service_id: "village.cafe.service_window".to_string(),
                item: "coffee".to_string(),
            },
        ),
        env("char_mira", Command::Say { target: SpeechTarget::Room, text: "Hi".to_string() }),
        env("char_mira", Command::Wait { ticks: 10 }),
    ];
    for command in commands {
        sent.push(command.clone());
        engine.apply(command);
        invariant_holds(&engine);
    }
    (engine, sent)
}

#[test]
fn every_step_keeps_reserves_queues_and_event_ids_in_order() {
    let (mut engine, _) = busy_run();
    engine.advance_ticks(OFFLINE_TICKS);
    invariant_holds(&engine);
}

const OFFLINE_TICKS: u64 = 4_000;

#[test]
fn applying_a_command_only_appends_events_and_keeps_the_map() {
    let mut engine = engine();
    create(&mut engine, "char_mira", "Mira");
    let before = engine.events().to_vec();
    let world_before = engine.state().world.clone();
    engine.apply(env(
        "char_mira",
        Command::Move { mode: MoveMode::ToTarget { target: "village.nowhere".to_string() } },
    ));
    engine.apply(env("char_mira", Command::Wait { ticks: 4 }));
    assert!(engine.events().len() > before.len());
    assert_eq!(&engine.events()[..before.len()], &before[..]);
    assert_eq!(engine.state().world, world_before);
}

#[test]
fn only_accepted_commands_are_logged_and_a_refused_one_changes_nothing_else() {
    let mut engine = engine();
    create(&mut engine, "char_mira", "Mira");
    assert_eq!(engine.command_log().len(), 1);
    let before = engine.state().clone();
    let events_before = engine.events().len();
    let rejected = env(
        "char_mira",
        Command::Move { mode: MoveMode::ToTarget { target: "village.nowhere".to_string() } },
    );
    let response = engine.apply(rejected);
    assert!(!response.ok && !response.accepted);
    assert!(response.error.is_some());
    assert!(response.result.is_none() && response.observation.is_none());
    assert_eq!(response.command_id, "cmd.char_mira.test");
    assert_eq!(engine.command_log().len(), 1);
    assert_eq!(engine.state().characters, before.characters);
    assert_eq!(engine.state().tick, before.tick);
    assert_eq!(engine.state().next_event_id, before.next_event_id + 1);
    assert_eq!(engine.events().len(), events_before + 1);
    let accepted = env("char_mira", Command::Wait { ticks: 1 });
    let response = engine.apply(accepted.clone());
    assert!(response.ok && response.accepted);
    assert_eq!(engine.command_log().len(), 2);
    assert_eq!(engine.command_log()[1], accepted);
}

#[test]
fn a_wait_by_an_unknown_character_does_not_move_the_clock() {
    let mut engine = engine();
    let response = engine.apply(env("ghost", Command::Wait { ticks: 5 }));
    assert!(!response.ok);
    assert_eq!(response.error.unwrap().code, "unknown_character");
    assert_eq!(engine.state().tick, 0);
}

#[test]
fn a_refused_command_does_not_count_as_the_agent_acting() {
    let mut engine = engine();
    create(&mut engine, "char_mira", "Mira");
    engine.advance_ticks(10);
    let response = engine.apply(env("char_mira", Command::LookAt { target: "village.cafe".to_string() }));
    assert!(!response.ok);
    assert_eq!(character(&engine, "char_mira").last_agent_action_tick, 0);
}

#[test]
fn a_moving_character_can_be_redirected() {
    let mut engine = engine();
    create(&mut engine, "char_mira", "Mira");
    move_to(&mut engine, "char_mira", "village.main_street");
    let first = engine.apply(env(
        "char_mira",
        Command::Move { mode: MoveMode::ToTarget { target: "village.cafe".to_string() } },
    ));
    assert!(first.ok, "{first:?}");
    let second = engine.apply(env(
        "char_mira",
        Command::Move { mode: MoveMode::ToTarget { target: "village.home_1".to_string() } },
    ));
    assert!(second.ok, "{second:?}");
    let activity = character(&engine, "char_mira").current_activity.unwrap();
    assert_eq!(activity.target_id, Some("village.home_1".to_string()));
    engine.advance_ticks(MOVE_BASE_TICKS);
    assert_eq!(character(&engine, "char_mira").location_id, "village.home_1");
}

#[test]
fn a_queue_goes_on_after_a_step_that_takes_no_time() {
    let mut engine = engine();
    create(&mut engine, "char_mira", "Mira");
    let response = engine.apply(env(
        "char_mira",
        Command::Queue {
            actions: vec![
                QueuedCommand {
                    command: QueueableCommand::Say {
                        target: SpeechTarget::Room,
                        text: "hi".to_string(),
                    },
                },
                QueuedCommand { command: QueueableCommand::Wait { ticks: 1 } },
            ],
        },
    ));
    assert!(response.ok, "{response:?}");
    let mira = character(&engine, "char_mira");
    assert!(mira.queued_commands.is_empty());
    assert!(mira.current_activity.is_some());
    engine.advance_ticks(3);
    let mira = character(&engine, "char_mira");
    assert!(mira.queued_commands.is_empty());
    assert!(mira.current_activity.is_none());
}

#[test]
fn replaying_a_log_with_refused_commands_reproduces_the_characters_and_the_clock() {
    let (mut engine, _) = busy_run();
    engine.apply(env("ghost", Command::Wait { ticks: 5 }));
    engine.apply(env(
        "char_mira",
        Command::Move { mode: MoveMode::ToTarget { target: "village.nowhere".to_string() } },
    ));
    engine.apply(env("char_mira", Command::Wait { ticks: 2 }));
    let replayed = Engine::replay(world(), engine.command_log()).unwrap();
    assert_eq!(replayed.state().characters, engine.state().characters);
    assert_eq!(replayed.state().tick, engine.state().tick);
    assert_eq!(replayed.state().home_locks, engine.state().home_locks);
    assert_eq!(replayed.state().conversations, engine.state().conversations);
    assert_eq!(replayed.events().len() + 2, engine.events().len());
}

#[test]
fn acknowledging_twice_is_harmless() {
    let mut engine = engine();
    create(&mut engine, "char_mira", "Mira");
    engine.create_notification("char_mira", "test", "Hello.", Vec::new());
    let nid = engine.state().notifications.key_at(0).clone();
    let ack = Command::Notifications {
        action: NotificationAction::Ack { notification_id: nid.clone() },
    };
    assert!(engine.apply(env("char_mira", ack.clone())).ok);
    let after_first = engine.state().notifications.clone();
    assert!(after_first.get(&nid).unwrap().acknowledged);
    assert!(engine.notifications_for("char_mira", false).is_empty());
    assert!(engine.apply(env("char_mira", ack)).ok);
    assert_eq!(engine.state().notifications, after_first);
}

#[test]
fn advancing_time_moves_the_clock_and_keeps_the_log() {
    let mut engine = engine();
    create(&mut engine, "char_mira", "Mira");
    let log = engine.command_log().to_vec();
    engine.advance_ticks(7);
    assert_eq!(engine.state().tick, 7);
    engine.advance_ticks(5);
    assert_eq!(engine.state().tick, 12);
    assert_eq!(engine.command_log(), &log[..]);
    invariant_holds(&engine);
}

#[test]
fn replaying_the_log_of_an_accepted_run_reproduces_it() {
    let (engine, sent) = busy_run();
    assert_eq!(engine.command_log(), &sent[..]);
    let replayed = Engine::replay(world(), engine.command_log()).unwrap();
    assert_eq!(replayed.state(), engine.state());
    assert_eq!(replayed.events(), engine.events());
}

#[test]
fn a_locked_home_admits_only_its_owner_and_locking_moves_nobody() {
    let mut engine = engine();
    create(&mut engine, "char_mira", "Mira");
    create(&mut engine, "char_ren", "Ren");
    let before = engine.state().clone().characters;
    let response = engine.apply(env("char_mira", Command::Home { action: HomeAction::Lock }));
    assert!(response.ok, "{response:?}");
    assert_eq!(engine.state().home_locks.get("village.home_1"), Some(&true));
    for i in 0..before.len() {
        let id = before.key_at(i);
        assert_eq!(
            engine.state().characters.get(id).unwrap().location_id,
            before.value_at(i).location_id
        );
    }
    move_to(&mut engine, "char_mira", "village.main_street");
    move_to(&mut engine, "char_ren", "village.main_street");
    let refused = engine.apply(env(
        "char_ren",
        Command::Move { mode: MoveMode::ToTarget { target: "village.home_1".to_string() } },
    ));
    assert_eq!(refused.error.unwrap().code, "home_locked");
    move_to(&mut engine, "char_mira", "village.home_1");
    assert_eq!(character(&engine, "char_mira").location_id, "village.home_1");
}

#[test]
fn a_direct_order_reserves_the_price_and_spends_nothing_yet() {
    let mut engine = engine();
    create(&mut engine, "char_mira", "Mira");
    move_to(&mut engine, "char_mira", "village.main_street");
    move_to(&mut engine, "char_mira", "village.cafe");
    let before = character(&engine, "char_mira");
    let response = engine.apply(env(
        "char_mira",
        Command::Order {
            service_id: "village.cafe.service_window".to_string(),
            item: "coffee".to_string(),
        },
    ));
    assert!(response.ok, "{response:?}");
    let after = character(&engine, "char_mira");
    assert_eq!(after.reserved_coins, before.reserved_coins + 2);
    assert_eq!(after.coins, before.coins);
}

#[test]
fn a_failed_queue_step_releases_every_reservation() {
    let mut engine = engine();
    create(&mut engine, "char_mira", "Mira");
    let response = engine.apply(env(
        "char_mira",
        Command::Queue {
            actions: vec![
                QueuedCommand { command: QueueableCommand::Wait { ticks: 1 } },
                QueuedCommand {
                    command: QueueableCommand::Order {
                        service_id: "village.cafe.service_window".to_string(),
                        item: "coffee".to_string(),
                    },
                },
            ],
        },
    ));
    assert!(response.ok, "{response:?}");
    assert_eq!(character(&engine, "char_mira").reserved_coins, 2);
    engine.advance_ticks(20);
    let mira = character(&engine, "char_mira");
    assert_eq!(mira.reserved_coins, 0);
    assert!(mira.queued_commands.is_empty());
    assert_eq!(mira.coins, 10);
    assert!(engine
        .events()
        .iter()
        .any(|e| matches!(&e.kind, EventKind::QueueStepFailed { code, .. } if code == "service_not_nearby")));
}

#[test]
fn api_errors_carry_code_and_message_only() {
    let error = api_error("stale_command", "The command is stale.");
    assert_eq!(error.code, "stale_command");
    assert_eq!(error.message, "The command is stale.");
    assert_eq!(error.details.len(), 0);
    assert_eq!(error.retry_after_ticks, None);
    assert!(error.suggested_actions.is_empty());
}

#[test]
fn hex_colors_are_validated() {
    assert!(validate_hex_color("#4ea1ff", "body_color").is_ok());
    assert!(validate_hex_color("#ABCDEF", "body_color").is_ok());
    let error = validate_hex_color("#4ea1f", "face_color").unwrap_err();
    assert_eq!(error.code, "invalid_color");
    assert_eq!(error.message, "face_color must be a #RRGGBB hex color.");
    assert!(validate_hex_color("4ea1ffa", "body_color").is_err());
    assert!(validate_hex_color("#4ea1fg", "body_color").is_err());
}

#[test]
fn insert_unique_adds_each_value_once() {
    let mut values = vec!["a".to_string()];
    insert_unique(&mut values, "b".to_string());
    insert_unique(&mut values, "a".to_string());
    insert_unique(&mut values, "b".to_string());
    assert_eq!(values, vec!["a".to_string(), "b".to_string()]);
}

#[test]
fn notifications_are_filed_under_the_next_event_id_and_listed_per_character() {
    let mut engine = engine();
    create(&mut engine, "char_mira", "Mira");
    create(&mut engine, "char_ren", "Ren");
    let next = engine.state().next_event_id;
    engine.create_notification(
        "char_mira",
        "test",
        "Something happened.",
        vec![("reason".to_string(), "check".to_string())],
    );
    let id = format!("notif.{next}");
    let note = engine.state().notifications.get(&id).unwrap().clone();
    assert_eq!(note.character_id, "char_mira");
    assert_eq!(note.kind, "test");
    assert!(!note.acknowledged);
    assert_eq!(note.related.get("reason"), Some(&"check".to_string()));
    assert_eq!(engine.notifications_for("char_mira", false).len(), 1);
    assert_eq!(engine.notifications_for("char_ren", true).len(), 0);
}

#[test]
fn events_after_returns_later_events_in_order() {
    let mut engine = engine();
    create(&mut engine, "char_mira", "Mira");
    let all = engine.events_after(None);
    assert_eq!(all.len(), engine.events().len());
    let later = engine.events_after(Some(1));
    assert_eq!(later.len(), all.len() - 1);
    assert!(later.iter().all(|e| e.id > 1));
    assert_eq!(later[0].id, 2);
}

#[test]
fn a_stale_command_changes_nothing_but_the_rejection_event() {
    let mut engine = engine();
    create(&mut engine, "char_mira", "Mira");
    engine.advance_ticks(5);
    let state_before = engine.state().clone();
    let events_before = engine.events().len();
    let mut stale = env("char_mira", Command::Wait { ticks: 1 });
    stale.valid_until_tick = Some(2);
    let response = engine.apply(stale);
    assert_eq!(response.error.unwrap().code, "stale_command");
    assert_eq!(engine.events().len(), events_before + 1);
    assert!(matches!(
        &engine.events().last().unwrap().kind,
        EventKind::CommandRejected { code, .. } if code == "stale_command"
    ));
    assert_eq!(engine.state().characters, state_before.characters);
    assert_eq!(engine.state().command_log, state_before.command_log);
    assert_eq!(engine.state().tick, state_before.tick);
}

#[test]
fn an_observation_shows_only_the_actors_surroundings_and_notifications() {
    let mut engine = engine();
    create(&mut engine, "char_mira", "Mira");
    create(&mut engine, "char_ren", "Ren");
    move_to(&mut engine, "char_ren", "village.main_street");
    engine.create_notification("char_ren", "test", "For Ren.", Vec::new());
    engine.create_notification("char_mira", "test", "For Mira.", Vec::new());
    let observation = engine.observe("char_mira").unwrap();
    assert_eq!(observation.actor.id, "char_mira");
    assert!(observation.nearby_entities.iter().all(|v| v.id != "char_ren"));
    assert_eq!(observation.notifications.len(), 1);
    assert_eq!(observation.notifications[0].character_id, "char_mira");
    let ren = engine.observe("char_ren").unwrap();
    assert!(ren.nearby_entities.iter().any(|v| v.id == "village.cafe"));
    assert!(ren.nearby_entities.iter().all(|v| v.id != "char_mira"));
}

#[test]
fn homes_go_to_new_characters_until_none_is_free() {
    let mut engine = engine();
    for (id, name) in [("char_a", "A"), ("char_b", "B"), ("char_c", "C"), ("char_d", "D")] {
        create(&mut engine, id, name);
    }
    assert_eq!(character(&engine, "char_a").home_id, "village.home_1");
    assert_eq!(character(&engine, "char_b").home_id, "village.home_2");
    assert_eq!(character(&engine, "char_c").home_id, "village.home_3");
    assert_eq!(character(&engine, "char_d").home_id, "village.main_street");
    assert_eq!(
        engine.state().world.homes[1].owner_character_id,
        Some("char_b".to_string())
    );
}

#[test]
fn a_taken_character_id_is_refused() {
    let mut engine = engine();
    create(&mut engine, "char_mira", "Mira");
    let characters = engine.state().characters.clone();
    let response = engine.apply(env(
        "char_mira",
        Command::CreateCharacter {
            name: "Other".to_string(),
            body_color: "#000000".to_string(),
            face_color: "#ffffff".to_string(),
        },
    ));
    assert_eq!(response.error.unwrap().code, "character_exists");
    assert_eq!(engine.state().characters.len(), characters.len());
    assert_eq!(character(&engine, "char_mira").name, "Mira");
}

#[test]
fn a_move_takes_its_ticks_and_then_arrives() {
    let mut engine = engine();
    create(&mut engine, "char_mira", "Mira");
    let response = engine.apply(env(
        "char_mira",
        Command::Move { mode: MoveMode::ToTarget { target: "village.main_street".to_string() } },
    ));
    assert!(response.ok, "{response:?}");
    let moving = character(&engine, "char_mira");
    assert_eq!(moving.location_id, "village.home_1");
    let activity = moving.current_activity.unwrap();
    assert_eq!(activity.completes_at_tick, engine.state().tick + MOVE_BASE_TICKS);
    engine.advance_ticks(MOVE_BASE_TICKS - 1);
    assert_eq!(character(&engine, "char_mira").location_id, "village.home_1");
    engine.advance_ticks(1);
    let arrived = character(&engine, "char_mira");
    assert_eq!(arrived.location_id, "village.main_street");
    assert!(arrived.current_activity.is_none());
}

#[test]
fn a_refused_order_changes_no_coins_or_activity() {
    let mut engine = engine();
    create(&mut engine, "char_mira", "Mira");
    let before = character(&engine, "char_mira");
    let response = engine.apply(env(
        "char_mira",
        Command::Order {
            service_id: "village.cafe.service_window".to_string(),
            item: "coffee".to_string(),
        },
    ));
    assert_eq!(response.error.unwrap().code, "service_not_nearby");
    let after = character(&engine, "char_mira");
    assert_eq!(after.coins, before.coins);
    assert_eq!(after.reserved_coins, before.reserved_coins);
    assert_eq!(after.current_activity, before.current_activity);
    assert_eq!(after.location_id, before.location_id);
}

#[test]
fn a_world_with_two_exits_in_one_direction_is_refused() {
    let mut w = world();
    w.locations[3].directional_exits = vec![
        (Direction::North, "village.cafe".to_string()),
        (Direction::North, "village.park".to_string()),
    ];
    assert_eq!(
        Engine::new(w).err(),
        Some(CoreError::RepeatedDirection("village.main_street".to_string()))
    );
    let mut ok = world();
    ok.locations[3].directional_exits = vec![
        (Direction::North, "village.cafe".to_string()),
        (Direction::South, "village.park".to_string()),
    ];
    assert!(Engine::new(ok).is_ok());
}

#[test]
fn a_fresh_command_is_not_refused_as_stale() {
    let mut engine = engine();
    create(&mut engine, "char_mira", "Mira");
    let observation = engine.observe("char_mira").unwrap();
    let mut fresh = env("char_mira", Command::Wait { ticks: 1 });
    fresh.valid_until_tick = Some(observation.valid_until_tick);
    fresh.local_state_hash = Some(observation.local_state_hash.clone());
    let response = engine.apply(fresh);
    assert!(response.ok, "{response:?}");
}

#[test]
fn listing_notifications_answers_the_unacknowledged_ones() {
    let mut engine = engine();
    create(&mut engine, "char_mira", "Mira");
    engine.create_notification("char_mira", "test", "One.", Vec::new());
    let response = engine.apply(env(
        "char_mira",
        Command::Notifications { action: NotificationAction::List },
    ));
    assert!(response.ok);
    let expected = engine.notifications_for("char_mira", false);
    assert!(matches!(
        response.result,
        Some(fishtank_core::protocol::CommandResult::Notifications { notifications }) if notifications == expected
    ));
}

#[test]
fn the_event_ids_count_from_one() {
    let (engine, _) = busy_run();
    for (i, event) in engine.events().iter().enumerate() {
        assert_eq!(event.id, i as u64 + 1);
    }
    assert_eq!(engine.state().next_event_id, engine.events().len() as u64 + 1);
}
