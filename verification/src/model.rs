//! The engine's rules as mathematics: each command, each tick and each query
//! is a function from the engine's state to its next state and its answer.
use vstd::prelude::*;
use crate::protocol::{
    Tick, SCHEMA_VERSION, TICKS_PER_INGAME_DAY, OFFLINE_RETURN_HOME_TICKS, Direction, HomeAction,
    PreconditionKind, ActivityKind, ActivityStatus, CharacterStatus, SpecMoveMode,
    SpecSpeechTarget, SpecNotificationAction, SpecQueueableCommand, SpecCommand,
    SpecPrecondition, SpecEnvelope, SpecLocation, SpecHome, SpecService, SpecWorld, SpecActivity,
    SpecCharacter, SpecSpeechMessage, SpecConversation, SpecNotification, SpecPromise,
    SpecEventKind, SpecEvent, SpecSnapshot, SpecApiError, SpecActionView, SpecEntityView,
    SpecLocationView, WorldTime, SpecObservation, SpecHomeManual, SpecCommandResult, SpecResponse,
};
use crate::strmap::{lookup, has_key, map_insert};
use crate::text::{decimal, is_blank, is_hex_color};

verus! {

pub const DEFAULT_OBSERVATION_TTL_TICKS: Tick = 20;

pub const DEFAULT_NOTIFICATION_TTL_TICKS: Tick = 3_600;

pub const MOVE_BASE_TICKS: Tick = 3;

pub const MAX_QUEUE_LEN: usize = 3;

/// Messages kept per conversation.
pub const MAX_RECENT_MESSAGES: usize = 12;

/// Events shown in an observation.
pub const RECENT_EVENT_COUNT: usize = 20;

/// The engine: the authoritative snapshot and the ordered event log.
pub struct SpecEngine {
    pub state: SpecSnapshot,
    pub events: Seq<SpecEvent>,
}

pub enum SpecCoreError {
    ParseWorld(Seq<char>),
    EmptyWorld,
    MissingSpawn(Seq<char>),
    MissingExit(Seq<char>, Seq<char>),
    MissingHome(Seq<char>),
    MissingServiceLocation(Seq<char>, Seq<char>),
    RepeatedDirection(Seq<char>),
}

// ---------------------------------------------------------------- errors

pub open spec fn api_error(code: Seq<char>, message: Seq<char>) -> SpecApiError {
    SpecApiError {
        code,
        message,
        details: Seq::empty(),
        retry_after_ticks: None,
        suggested_actions: Seq::empty(),
    }
}

pub open spec fn with_suggestions(e: SpecApiError, s: Seq<Seq<char>>) -> SpecApiError {
    SpecApiError { suggested_actions: s, ..e }
}

pub open spec fn with_retry(e: SpecApiError, t: Tick) -> SpecApiError {
    SpecApiError { retry_after_ticks: Some(t), ..e }
}

pub open spec fn observe_hint() -> Seq<Seq<char>> {
    seq!["observe"@]
}

pub open spec fn unknown_character() -> SpecApiError {
    with_suggestions(
        api_error(
            "unknown_character"@,
            "No character exists for this token or character id."@,
        ),
        seq!["character create"@],
    )
}

pub open spec fn invalid_color(field: Seq<char>) -> SpecApiError {
    api_error("invalid_color"@, field + " must be a #RRGGBB hex color."@)
}

// ---------------------------------------------------------------- lookups

pub open spec fn find_location(locs: Seq<SpecLocation>, id: Seq<char>) -> Option<SpecLocation>
    decreases locs.len(),
{
    if locs.len() == 0 {
        None
    } else if locs[0].id == id {
        Some(locs[0])
    } else {
        find_location(locs.drop_first(), id)
    }
}

pub open spec fn find_service(services: Seq<SpecService>, id: Seq<char>) -> Option<SpecService>
    decreases services.len(),
{
    if services.len() == 0 {
        None
    } else if services[0].id == id {
        Some(services[0])
    } else {
        find_service(services.drop_first(), id)
    }
}

pub open spec fn find_direction(exits: Seq<(Direction, Seq<char>)>, d: Direction) -> Option<
    Seq<char>,
>
    decreases exits.len(),
{
    if exits.len() == 0 {
        None
    } else if exits[0].0 == d {
        Some(exits[0].1)
    } else {
        find_direction(exits.drop_first(), d)
    }
}

pub open spec fn location(st: SpecSnapshot, id: Seq<char>) -> Option<SpecLocation> {
    find_location(st.world.locations, id)
}

pub open spec fn service(st: SpecSnapshot, id: Seq<char>) -> Result<SpecService, SpecApiError> {
    match find_service(st.world.services, id) {
        Some(s) => Ok(s),
        None => Err(api_error("unknown_service"@, "The requested service does not exist."@)),
    }
}

pub open spec fn require_character(st: SpecSnapshot, id: Seq<char>) -> Result<
    SpecCharacter,
    SpecApiError,
> {
    match lookup(st.characters, id) {
        Some(c) => Ok(c),
        None => Err(unknown_character()),
    }
}

pub open spec fn home_locked(st: SpecSnapshot, home_id: Seq<char>) -> bool {
    match lookup(st.home_locks, home_id) {
        Some(b) => b,
        None => false,
    }
}

pub open spec fn has_location(locs: Seq<SpecLocation>, id: Seq<char>) -> bool {
    exists|i: int| 0 <= i < locs.len() && #[trigger] locs[i].id == id
}

pub open spec fn seq_contains_str(s: Seq<Seq<char>>, x: Seq<char>) -> bool {
    exists|i: int| 0 <= i < s.len() && #[trigger] s[i] == x
}

pub proof fn lemma_find_location(locs: Seq<SpecLocation>, id: Seq<char>)
    ensures
        find_location(locs, id) is Some <==> has_location(locs, id),
        find_location(locs, id) matches Some(l) ==> l.id == id,
    decreases locs.len(),
{
    if locs.len() > 0 {
        lemma_find_location(locs.drop_first(), id);
        if has_location(locs, id) && locs[0].id != id {
            let i = choose|i: int| 0 <= i < locs.len() && #[trigger] locs[i].id == id;
            assert(locs.drop_first()[i - 1].id == id);
        }
        if has_location(locs.drop_first(), id) {
            let i = choose|i: int| 0 <= i < locs.len() - 1 && #[trigger] locs.drop_first()[i].id == id;
            assert(locs[i + 1].id == id);
        }
    }
}

// ---------------------------------------------------------------- world validation

pub open spec fn first_missing_exit(all: Seq<SpecLocation>, exits: Seq<Seq<char>>) -> Option<
    Seq<char>,
>
    decreases exits.len(),
{
    if exits.len() == 0 {
        None
    } else if !has_location(all, exits[0]) {
        Some(exits[0])
    } else {
        first_missing_exit(all, exits.drop_first())
    }
}

pub open spec fn check_exits(all: Seq<SpecLocation>, locs: Seq<SpecLocation>) -> Result<
    (),
    SpecCoreError,
>
    decreases locs.len(),
{
    if locs.len() == 0 {
        Ok(())
    } else {
        match first_missing_exit(all, locs[0].exits) {
            Some(exit) => Err(SpecCoreError::MissingExit(locs[0].id, exit)),
            None => check_exits(all, locs.drop_first()),
        }
    }
}

pub open spec fn check_homes(all: Seq<SpecLocation>, homes: Seq<SpecHome>) -> Result<
    (),
    SpecCoreError,
>
    decreases homes.len(),
{
    if homes.len() == 0 {
        Ok(())
    } else if !has_location(all, homes[0].id) {
        Err(SpecCoreError::MissingHome(homes[0].id))
    } else {
        check_homes(all, homes.drop_first())
    }
}

pub open spec fn check_services(all: Seq<SpecLocation>, services: Seq<SpecService>) -> Result<
    (),
    SpecCoreError,
>
    decreases services.len(),
{
    if services.len() == 0 {
        Ok(())
    } else if !has_location(all, services[0].location_id) {
        Err(SpecCoreError::MissingServiceLocation(services[0].id, services[0].location_id))
    } else {
        check_services(all, services.drop_first())
    }
}

/// No direction leads out of a location twice.
pub open spec fn directions_distinct(d: Seq<(Direction, Seq<char>)>) -> bool {
    forall|i: int, j: int| 0 <= i < j < d.len() ==> #[trigger] d[i].0 != #[trigger] d[j].0
}

pub open spec fn check_directions(locs: Seq<SpecLocation>) -> Result<(), SpecCoreError>
    decreases locs.len(),
{
    if locs.len() == 0 {
        Ok(())
    } else if !directions_distinct(locs[0].directional_exits) {
        Err(SpecCoreError::RepeatedDirection(locs[0].id))
    } else {
        check_directions(locs.drop_first())
    }
}

/// A world is accepted when it has a location, its spawn point exists,
/// every exit, home and service names an existing location, and no location
/// has two exits in the same direction; otherwise the first problem found,
/// in that order, is reported.
pub open spec fn validate_world(w: SpecWorld) -> Result<(), SpecCoreError> {
    if w.locations.len() == 0 {
        Err(SpecCoreError::EmptyWorld)
    } else if !has_location(w.locations, w.spawn_location_id) {
        Err(SpecCoreError::MissingSpawn(w.spawn_location_id))
    } else {
        match check_exits(w.locations, w.locations) {
            Err(e) => Err(e),
            Ok(_) => match check_homes(w.locations, w.homes) {
                Err(e) => Err(e),
                Ok(_) => match check_services(w.locations, w.services) {
                    Err(e) => Err(e),
                    Ok(_) => check_directions(w.locations),
                },
            },
        }
    }
}

pub open spec fn initial_home_locks(homes: Seq<SpecHome>) -> Seq<(Seq<char>, bool)>
    decreases homes.len(),
{
    if homes.len() == 0 {
        Seq::empty()
    } else {
        map_insert(initial_home_locks(homes.drop_last()), homes.last().id, false)
    }
}

/// The engine a valid world starts as.
pub open spec fn new_engine(w: SpecWorld) -> Result<SpecEngine, SpecCoreError> {
    match validate_world(w) {
        Err(e) => Err(e),
        Ok(_) => {
            let e = SpecEngine {
                state: SpecSnapshot {
                    schema_version: SCHEMA_VERSION@,
                    world_id: w.id,
                    tick: 0,
                    next_event_id: 1,
                    next_command_seq: 1,
                    next_conversation_seq: 1,
                    world: w,
                    characters: Seq::empty(),
                    home_locks: initial_home_locks(w.homes),
                    conversations: Seq::empty(),
                    notifications: Seq::empty(),
                    command_log: Seq::empty(),
                },
                events: Seq::empty(),
            };
            Ok(record(e, SpecEventKind::WorldLoaded { world_id: w.id }))
        },
    }
}

// ---------------------------------------------------------------- bookkeeping

/// Appends an event stamped with the next event id and the current tick.
pub open spec fn record(e: SpecEngine, kind: SpecEventKind) -> SpecEngine {
    SpecEngine {
        state: SpecSnapshot { next_event_id: e.state.next_event_id.wrapping_add(1), ..e.state },
        events: e.events.push(
            SpecEvent {
                schema_version: SCHEMA_VERSION@,
                id: e.state.next_event_id,
                tick: e.state.tick,
                kind,
            },
        ),
    }
}

pub open spec fn set_character(e: SpecEngine, id: Seq<char>, c: SpecCharacter) -> SpecEngine {
    SpecEngine {
        state: SpecSnapshot { characters: map_insert(e.state.characters, id, c), ..e.state },
        ..e
    }
}

pub open spec fn char_of(e: SpecEngine, id: Seq<char>) -> SpecCharacter {
    lookup(e.state.characters, id)->Some_0
}

pub open spec fn next_activity_id(e: SpecEngine, prefix: Seq<char>) -> (SpecEngine, Seq<char>) {
    let seq = e.state.next_command_seq;
    (
        SpecEngine {
            state: SpecSnapshot { next_command_seq: seq.wrapping_add(1), ..e.state },
            ..e
        },
        "activity."@ + prefix + "."@ + decimal(seq as nat),
    )
}

pub open spec fn next_promise_id(e: SpecEngine) -> (SpecEngine, Seq<char>) {
    let seq = e.state.next_command_seq;
    (
        SpecEngine {
            state: SpecSnapshot { next_command_seq: seq.wrapping_add(1), ..e.state },
            ..e
        },
        "promise."@ + decimal(seq as nat),
    )
}

/// Marks that the character's agent acted now.
pub open spec fn touch_actor(e: SpecEngine, id: Seq<char>) -> SpecEngine {
    match lookup(e.state.characters, id) {
        Some(c) => set_character(
            e,
            id,
            SpecCharacter { last_agent_action_tick: e.state.tick, ..c },
        ),
        None => e,
    }
}

pub open spec fn related_map(pairs: Seq<(Seq<char>, Seq<char>)>) -> Seq<(Seq<char>, Seq<char>)>
    decreases pairs.len(),
{
    if pairs.len() == 0 {
        Seq::empty()
    } else {
        map_insert(related_map(pairs.drop_last()), pairs.last().0, pairs.last().1)
    }
}

pub open spec fn create_notification(
    e: SpecEngine,
    cid: Seq<char>,
    kind: Seq<char>,
    summary: Seq<char>,
    related: Seq<(Seq<char>, Seq<char>)>,
) -> SpecEngine {
    let nid = "notif."@ + decimal(e.state.next_event_id as nat);
    let n = SpecNotification {
        notification_id: nid,
        character_id: cid,
        kind,
        priority: "normal"@,
        created_at_tick: e.state.tick,
        expires_at_tick: e.state.tick.wrapping_add(DEFAULT_NOTIFICATION_TTL_TICKS),
        summary,
        acknowledged: false,
        related: related_map(related),
    };
    SpecEngine {
        state: SpecSnapshot { notifications: map_insert(e.state.notifications, nid, n), ..e.state },
        ..e
    }
}

/// Frees every coin the character holds in reserve.
pub open spec fn release_all_reservations(e: SpecEngine, cid: Seq<char>) -> SpecEngine {
    match lookup(e.state.characters, cid) {
        None => e,
        Some(c) => if c.reserved_coins == 0 {
            e
        } else {
            record(
                set_character(e, cid, SpecCharacter { reserved_coins: 0, ..c }),
                SpecEventKind::CoinsReleased { character_id: cid, amount: c.reserved_coins },
            )
        },
    }
}

// ---------------------------------------------------------------- perception

pub open spec fn local_state_hash(st: SpecSnapshot, actor: SpecCharacter) -> Seq<char> {
    let activity = match actor.current_activity {
        Some(a) => a.id,
        None => "none"@,
    };
    "obs_"@ + actor.location_id + "_"@ + activity + "_"@ + decimal(actor.queued_commands.len())
        + "_"@ + decimal(st.tick as nat)
}

pub open spec fn world_time(st: SpecSnapshot) -> WorldTime {
    WorldTime {
        tick: st.tick,
        ingame_day: st.tick / TICKS_PER_INGAME_DAY,
        tick_of_day: st.tick % TICKS_PER_INGAME_DAY,
    }
}

/// The last events, oldest first.
pub open spec fn recent_events(events: Seq<SpecEvent>) -> Seq<SpecEvent> {
    if events.len() > RECENT_EVENT_COUNT {
        events.subrange(events.len() - RECENT_EVENT_COUNT, events.len() as int)
    } else {
        events
    }
}

pub open spec fn notifications_for(
    ns: Seq<(Seq<char>, SpecNotification)>,
    cid: Seq<char>,
    include_acknowledged: bool,
) -> Seq<SpecNotification>
    decreases ns.len(),
{
    if ns.len() == 0 {
        Seq::empty()
    } else {
        let rest = notifications_for(ns.drop_last(), cid, include_acknowledged);
        let n = ns.last().1;
        if n.character_id == cid && (include_acknowledged || !n.acknowledged) {
            rest.push(n)
        } else {
            rest
        }
    }
}

pub open spec fn strs_of(a: Seq<char>, b: Seq<char>) -> Seq<Seq<char>> {
    seq![a, b]
}

pub open spec fn nearby_characters(
    cs: Seq<(Seq<char>, SpecCharacter)>,
    actor: SpecCharacter,
) -> Seq<SpecEntityView>
    decreases cs.len(),
{
    if cs.len() == 0 {
        Seq::empty()
    } else {
        let rest = nearby_characters(cs.drop_last(), actor);
        let c = cs.last().1;
        if c.id != actor.id && c.location_id == actor.location_id {
            rest.push(
                SpecEntityView {
                    id: c.id,
                    entity_type: "character"@,
                    name: c.name,
                    distance: "near"@,
                    available_actions: strs_of("say"@, "look_at"@),
                },
            )
        } else {
            rest
        }
    }
}

pub open spec fn nearby_services(services: Seq<SpecService>, loc: Seq<char>) -> Seq<
    SpecEntityView,
>
    decreases services.len(),
{
    if services.len() == 0 {
        Seq::empty()
    } else {
        let rest = nearby_services(services.drop_last(), loc);
        let s = services.last();
        if s.location_id == loc {
            rest.push(
                SpecEntityView {
                    id: s.id,
                    entity_type: "service"@,
                    name: s.name,
                    distance: "near"@,
                    available_actions: strs_of("order"@, "look_at"@),
                },
            )
        } else {
            rest
        }
    }
}

pub open spec fn exit_view(st: SpecSnapshot, exit: Seq<char>) -> SpecEntityView {
    SpecEntityView {
        id: exit,
        entity_type: "location"@,
        name: match location(st, exit) {
            Some(l) => l.name,
            None => exit,
        },
        distance: "near"@,
        available_actions: strs_of("move"@, "look_at"@),
    }
}

pub open spec fn exit_views(st: SpecSnapshot, exits: Seq<Seq<char>>) -> Seq<SpecEntityView>
    decreases exits.len(),
{
    if exits.len() == 0 {
        Seq::empty()
    } else {
        exit_views(st, exits.drop_last()).push(exit_view(st, exits.last()))
    }
}

/// Other characters at the actor's location, then the services there, then the exits.
pub open spec fn nearby_entities(
    st: SpecSnapshot,
    actor: SpecCharacter,
    loc: SpecLocation,
) -> Seq<SpecEntityView> {
    nearby_characters(st.characters, actor) + nearby_services(
        st.world.services,
        actor.location_id,
    ) + exit_views(st, loc.exits)
}

pub open spec fn participant_nearby(st: SpecSnapshot, actor: SpecCharacter, pid: Seq<char>) -> bool {
    match lookup(st.characters, pid) {
        Some(c) => c.location_id == actor.location_id,
        None => false,
    }
}

pub open spec fn conversation_visible(
    st: SpecSnapshot,
    actor: SpecCharacter,
    conv: SpecConversation,
) -> bool {
    exists|i: int|
        0 <= i < conv.participant_ids.len() && #[trigger] participant_nearby(
            st,
            actor,
            conv.participant_ids[i],
        )
}

/// Conversations with a participant at the actor's location.
pub open spec fn visible_conversations(
    st: SpecSnapshot,
    convs: Seq<(Seq<char>, SpecConversation)>,
    actor: SpecCharacter,
) -> Seq<SpecConversation>
    decreases convs.len(),
{
    if convs.len() == 0 {
        Seq::empty()
    } else {
        let rest = visible_conversations(st, convs.drop_last(), actor);
        if conversation_visible(st, actor, convs.last().1) {
            rest.push(convs.last().1)
        } else {
            rest
        }
    }
}

pub open spec fn find_entity(views: Seq<SpecEntityView>, id: Seq<char>) -> Option<SpecEntityView>
    decreases views.len(),
{
    if views.len() == 0 {
        None
    } else if views[0].id == id {
        Some(views[0])
    } else {
        find_entity(views.drop_first(), id)
    }
}

/// The entity `target` as the actor sees it, if it is nearby or is the actor.
pub open spec fn entity_view(st: SpecSnapshot, actor: SpecCharacter, target: Seq<char>) -> Option<
    SpecEntityView,
> {
    match location(st, actor.location_id) {
        None => None,
        Some(loc) => match find_entity(nearby_entities(st, actor, loc), target) {
            Some(v) => Some(v),
            None => if target == actor.id {
                Some(
                    SpecEntityView {
                        id: actor.id,
                        entity_type: "character"@,
                        name: actor.name,
                        distance: "self"@,
                        available_actions: seq!["observe"@],
                    },
                )
            } else {
                None
            },
        },
    }
}

pub open spec fn is_visible_to(st: SpecSnapshot, actor: SpecCharacter, entity: Seq<char>) -> bool {
    entity == actor.location_id || entity == actor.id || entity_view(st, actor, entity) is Some
}

pub open spec fn local_services(services: Seq<SpecService>, loc: Seq<char>) -> Seq<Seq<char>>
    decreases services.len(),
{
    if services.len() == 0 {
        Seq::empty()
    } else {
        let rest = local_services(services.drop_last(), loc);
        if services.last().location_id == loc {
            rest.push(services.last().id)
        } else {
            rest
        }
    }
}

pub open spec fn action(name: Seq<char>, targets: Seq<Seq<char>>) -> SpecActionView {
    SpecActionView { action: name, targets }
}

/// The affordances offered to the character where it stands.
pub open spec fn available_actions(st: SpecSnapshot, cid: Seq<char>) -> Result<
    Seq<SpecActionView>,
    SpecApiError,
> {
    match require_character(st, cid) {
        Err(e) => Err(e),
        Ok(actor) => match location(st, actor.location_id) {
            None => Err(api_error("location_missing"@, "Current location is missing."@)),
            Some(loc) => {
                let base = seq![
                    action("observe"@, Seq::empty()),
                    action("wait"@, Seq::empty()),
                    action("say"@, seq!["room"@]),
                    action("home_manual"@, seq![actor.home_id]),
                    action("notifications"@, Seq::empty()),
                    action("move"@, loc.exits),
                ];
                let services = local_services(st.world.services, actor.location_id);
                if services.len() == 0 {
                    Ok(base)
                } else {
                    Ok(base.push(action("order"@, services)))
                }
            },
        },
    }
}

/// What the character perceives now.
pub open spec fn observe(e: SpecEngine, cid: Seq<char>) -> Result<SpecObservation, SpecApiError> {
    let st = e.state;
    match require_character(st, cid) {
        Err(err) => Err(err),
        Ok(actor) => match location(st, actor.location_id) {
            None => Err(
                api_error("location_missing"@, "The actor's location no longer exists."@),
            ),
            Some(loc) => match available_actions(st, cid) {
                Err(err) => Err(err),
                Ok(actions) => Ok(
                    SpecObservation {
                        schema_version: SCHEMA_VERSION@,
                        observed_at_tick: st.tick,
                        valid_until_tick: st.tick.wrapping_add(DEFAULT_OBSERVATION_TTL_TICKS),
                        local_state_hash: local_state_hash(st, actor),
                        staleness_policy: "valid_if_local_state_compatible"@,
                        actor,
                        location: SpecLocationView {
                            id: loc.id,
                            name: loc.name,
                            description: loc.description,
                            exits: loc.exits,
                        },
                        nearby_entities: nearby_entities(st, actor, loc),
                        conversations: visible_conversations(st, st.conversations, actor),
                        available_actions: actions,
                        recent_events: recent_events(e.events),
                        notifications: notifications_for(st.notifications, cid, false),
                        world_time: world_time(st),
                    },
                ),
            },
        },
    }
}

/// Events with an id above `after` (above zero when absent), in log order.
pub open spec fn events_after(events: Seq<SpecEvent>, after: u64) -> Seq<SpecEvent>
    decreases events.len(),
{
    if events.len() == 0 {
        Seq::empty()
    } else {
        let rest = events_after(events.drop_last(), after);
        if events.last().id > after {
            rest.push(events.last())
        } else {
            rest
        }
    }
}

// ---------------------------------------------------------------- command validation

pub open spec fn check_freshness(st: SpecSnapshot, env: SpecEnvelope) -> Result<(), SpecApiError> {
    if env.valid_until_tick is Some && st.tick > env.valid_until_tick->Some_0 {
        Err(
            with_suggestions(
                api_error(
                    "stale_command"@,
                    "The command was based on an observation that is no longer fresh."@,
                ),
                observe_hint(),
            ),
        )
    } else {
        match env.local_state_hash {
            None => Ok(()),
            Some(h) => match require_character(st, env.character_id) {
                Err(err) => Err(err),
                Ok(actor) => if h != local_state_hash(st, actor) {
                    Err(
                        with_suggestions(
                            api_error(
                                "local_state_changed"@,
                                "The local state changed since the observation."@,
                            ),
                            observe_hint(),
                        ),
                    )
                } else {
                    Ok(())
                },
            },
        }
    }
}

pub open spec fn check_preconditions(
    st: SpecSnapshot,
    actor: SpecCharacter,
    ps: Seq<SpecPrecondition>,
) -> Result<(), SpecApiError>
    decreases ps.len(),
{
    if ps.len() == 0 {
        Ok(())
    } else {
        let p = ps[0];
        match p.condition {
            PreconditionKind::NearbyOrVisible => if !is_visible_to(st, actor, p.entity) {
                Err(
                    with_suggestions(
                        api_error(
                            "precondition_failed"@,
                            "A required entity is no longer nearby or visible."@,
                        ),
                        observe_hint(),
                    ),
                )
            } else {
                check_preconditions(st, actor, ps.drop_first())
            },
            PreconditionKind::ActorAtLocation => if actor.location_id != p.entity {
                Err(
                    with_suggestions(
                        api_error(
                            "precondition_failed"@,
                            "The actor is no longer at the required location."@,
                        ),
                        observe_hint(),
                    ),
                )
            } else {
                check_preconditions(st, actor, ps.drop_first())
            },
        }
    }
}

pub open spec fn validate_preconditions(st: SpecSnapshot, env: SpecEnvelope) -> Result<
    (),
    SpecApiError,
> {
    if env.preconditions.len() == 0 {
        Ok(())
    } else {
        match require_character(st, env.character_id) {
            Err(err) => Err(err),
            Ok(actor) => check_preconditions(st, actor, env.preconditions),
        }
    }
}

pub open spec fn ensure_can_start_activity(
    st: SpecSnapshot,
    cid: Seq<char>,
    allow_while_moving: bool,
) -> Result<(), SpecApiError> {
    match require_character(st, cid) {
        Err(err) => Err(err),
        Ok(actor) => match actor.current_activity {
            Some(a) => if !(allow_while_moving && a.kind == ActivityKind::Moving) {
                Err(
                    with_retry(
                        api_error("actor_busy"@, "The character is already doing an activity."@),
                        a.completes_at_tick.saturating_sub(st.tick),
                    ),
                )
            } else {
                Ok(())
            },
            None => Ok(()),
        },
    }
}

pub open spec fn ensure_home_access(st: SpecSnapshot, cid: Seq<char>, target: Seq<char>) -> Result<
    (),
    SpecApiError,
> {
    if !home_locked(st, target) {
        Ok(())
    } else {
        match require_character(st, cid) {
            Err(err) => Err(err),
            Ok(actor) => if actor.home_id == target {
                Ok(())
            } else {
                Err(
                    api_error(
                        "home_locked"@,
                        "The target home is locked and this character does not own it."@,
                    ),
                )
            },
        }
    }
}

/// Where a move request leads: a named target, or the exit in a direction.
pub open spec fn resolve_move_target(st: SpecSnapshot, cid: Seq<char>, mode: SpecMoveMode) -> Result<
    Seq<char>,
    SpecApiError,
> {
    match require_character(st, cid) {
        Err(err) => Err(err),
        Ok(actor) => match location(st, actor.location_id) {
            None => Err(api_error("location_missing"@, "Current location is missing."@)),
            Some(current) => {
                let target: Result<Seq<char>, SpecApiError> = match mode {
                    SpecMoveMode::ToTarget { target } => Ok(target),
                    SpecMoveMode::Direction { direction, distance } => if distance == 0 {
                        Err(
                            api_error(
                                "invalid_distance"@,
                                "Directional movement distance must be greater than zero."@,
                            ),
                        )
                    } else {
                        let found = match find_direction(current.directional_exits, direction) {
                            Some(t) => Some(t),
                            None => match direction {
                                Direction::Forward => if current.exits.len() > 0 {
                                    Some(current.exits[0])
                                } else {
                                    None
                                },
                                Direction::Back => if current.exits.len() > 0 {
                                    Some(current.exits.last())
                                } else {
                                    None
                                },
                                _ => None,
                            },
                        };
                        match found {
                            Some(t) => Ok(t),
                            None => Err(
                                with_suggestions(
                                    api_error(
                                        "direction_not_available"@,
                                        "There is no reachable exit in that direction."@,
                                    ),
                                    observe_hint(),
                                ),
                            ),
                        }
                    },
                };
                match target {
                    Err(err) => Err(err),
                    Ok(target) => if !has_location(st.world.locations, target) {
                        Err(api_error("unknown_target"@, "The target location does not exist."@))
                    } else if !seq_contains_str(current.exits, target) {
                        Err(
                            with_suggestions(
                                api_error(
                                    "target_not_reachable"@,
                                    "The target location is not directly reachable from here."@,
                                ),
                                observe_hint(),
                            ),
                        )
                    } else {
                        Ok(target)
                    },
                }
            },
        },
    }
}

// ---------------------------------------------------------------- commands

pub open spec fn activity_started(
    activity_id: Seq<char>,
    description: Seq<char>,
    estimated_ticks: Tick,
    promise: Option<SpecPromise>,
) -> SpecCommandResult {
    SpecCommandResult::ActivityStarted { activity_id, description, estimated_ticks, promise }
}

/// The character starts walking to an adjacent location; a walk already under
/// way is redirected, its activity replaced by the new one.
pub open spec fn start_move(e: SpecEngine, cid: Seq<char>, mode: SpecMoveMode) -> (
    SpecEngine,
    Result<SpecCommandResult, SpecApiError>,
) {
    match resolve_move_target(e.state, cid, mode) {
        Err(err) => (e, Err(err)),
        Ok(target) => match ensure_can_start_activity(e.state, cid, true) {
            Err(err) => (e, Err(err)),
            Ok(_) => match ensure_home_access(e.state, cid, target) {
                Err(err) => (e, Err(err)),
                Ok(_) => {
                    let from = char_of(e, cid).location_id;
                    let (e1, activity_id) = next_activity_id(e, "move"@);
                    let description = cid + " walks from "@ + from + " to "@ + target + "."@;
                    let completes = e1.state.tick.wrapping_add(MOVE_BASE_TICKS);
                    let c = char_of(e1, cid);
                    let e2 = set_character(
                        e1,
                        cid,
                        SpecCharacter {
                            current_activity: Some(
                                SpecActivity {
                                    id: activity_id,
                                    kind: ActivityKind::Moving,
                                    status: ActivityStatus::Active,
                                    target_id: Some(target),
                                    started_at_tick: e1.state.tick,
                                    completes_at_tick: completes,
                                    description,
                                    promise_id: None,
                                    reserved_coins: 0,
                                },
                            ),
                            status: CharacterStatus::Moving,
                            ..c
                        },
                    );
                    let e3 = record(
                        e2,
                        SpecEventKind::ActivityStarted {
                            character_id: cid,
                            activity_id,
                            description,
                            completes_at_tick: completes,
                        },
                    );
                    (e3, Ok(activity_started(activity_id, description, MOVE_BASE_TICKS, None)))
                },
            },
        },
    }
}

pub open spec fn insert_unique(v: Seq<Seq<char>>, x: Seq<char>) -> Seq<Seq<char>> {
    if seq_contains_str(v, x) {
        v
    } else {
        v.push(x)
    }
}

pub open spec fn conversation_id_for(location_id: Seq<char>) -> Seq<char> {
    "conversation."@ + location_id
}

/// Keeps the last messages of a conversation.
pub open spec fn push_message(msgs: Seq<SpecSpeechMessage>, m: SpecSpeechMessage) -> Seq<
    SpecSpeechMessage,
> {
    let pushed = msgs.push(m);
    if pushed.len() > MAX_RECENT_MESSAGES {
        pushed.drop_first()
    } else {
        pushed
    }
}

/// The character speaks in the conversation of its location.
pub open spec fn say(e: SpecEngine, cid: Seq<char>, target: SpecSpeechTarget, text: Seq<char>) -> (
    SpecEngine,
    Result<SpecCommandResult, SpecApiError>,
) {
    match require_character(e.state, cid) {
        Err(err) => (e, Err(err)),
        Ok(actor) => if is_blank(text) {
            (e, Err(api_error("empty_speech"@, "Speech text cannot be empty."@)))
        } else {
            let target_check: Result<(), SpecApiError> = match target {
                SpecSpeechTarget::Character(tid) => match require_character(e.state, tid) {
                    Err(err) => Err(err),
                    Ok(t) => if t.location_id != actor.location_id {
                        Err(
                            api_error(
                                "target_not_audible"@,
                                "The target character is not near enough to hear this."@,
                            ),
                        )
                    } else {
                        Ok(())
                    },
                },
                _ => Ok(()),
            };
            match target_check {
                Err(err) => (e, Err(err)),
                Ok(_) => {
                    let conversation_id = conversation_id_for(actor.location_id);
                    let message = SpecSpeechMessage {
                        speaker_id: cid,
                        target,
                        text,
                        tick: e.state.tick,
                    };
                    let conv = match lookup(e.state.conversations, conversation_id) {
                        Some(c) => c,
                        None => SpecConversation {
                            id: conversation_id,
                            participant_ids: Seq::empty(),
                            recent_messages: Seq::empty(),
                            open: true,
                        },
                    };
                    let with_speaker = insert_unique(conv.participant_ids, cid);
                    let participants = match target {
                        SpecSpeechTarget::Character(tid) => insert_unique(with_speaker, tid),
                        _ => with_speaker,
                    };
                    let conv2 = SpecConversation {
                        participant_ids: participants,
                        recent_messages: push_message(conv.recent_messages, message),
                        ..conv
                    };
                    let e1 = SpecEngine {
                        state: SpecSnapshot {
                            conversations: map_insert(e.state.conversations, conversation_id, conv2),
                            ..e.state
                        },
                        ..e
                    };
                    let e2 = record(
                        e1,
                        SpecEventKind::MessageSpoken {
                            conversation_id,
                            speaker_id: cid,
                            target,
                            text,
                        },
                    );
                    (e2, Ok(SpecCommandResult::MessageSpoken { conversation_id }))
                },
            }
        },
    }
}

pub open spec fn ready_hint(s: SpecService) -> Seq<char> {
    "Your "@ + s.item + " is ready at "@ + s.name + "."@
}

/// The character orders from a service at its location; unless the coins
/// were set aside when a queue was accepted, the price is reserved now.
pub open spec fn start_order(
    e: SpecEngine,
    cid: Seq<char>,
    service_id: Seq<char>,
    item: Seq<char>,
    already_reserved: bool,
) -> (SpecEngine, Result<SpecCommandResult, SpecApiError>) {
    match ensure_can_start_activity(e.state, cid, false) {
        Err(err) => (e, Err(err)),
        Ok(_) => match require_character(e.state, cid) {
            Err(err) => (e, Err(err)),
            Ok(actor) => match service(e.state, service_id) {
                Err(err) => (e, Err(err)),
                Ok(s) => if s.location_id != actor.location_id {
                    (
                        e,
                        Err(
                            with_suggestions(
                                api_error(
                                    "service_not_nearby"@,
                                    "The requested service is not available at this location."@,
                                ),
                                seq!["observe"@, "move"@],
                            ),
                        ),
                    )
                } else if s.item != item {
                    (
                        e,
                        Err(
                            api_error(
                                "item_unavailable"@,
                                "The requested item is not available from this service."@,
                            ),
                        ),
                    )
                } else if !already_reserved && actor.coins.saturating_sub(actor.reserved_coins)
                    < s.price_coins {
                    (
                        e,
                        Err(
                            api_error(
                                "insufficient_coins"@,
                                "The character does not have enough unreserved coins."@,
                            ),
                        ),
                    )
                } else {
                    let e0 = if already_reserved {
                        e
                    } else {
                        record(
                            set_character(
                                e,
                                cid,
                                SpecCharacter {
                                    reserved_coins: (actor.reserved_coins + s.price_coins) as u32,
                                    ..actor
                                },
                            ),
                            SpecEventKind::CoinsReserved { character_id: cid, amount: s.price_coins },
                        )
                    };
                    let (e1, activity_id) = next_activity_id(e0, "order"@);
                    let (e2, promise_id) = next_promise_id(e1);
                    let completes = e2.state.tick.wrapping_add(s.duration_ticks);
                    let description = cid + " orders "@ + s.item + " at "@ + s.name + "."@;
                    let c = char_of(e2, cid);
                    let e3 = set_character(
                        e2,
                        cid,
                        SpecCharacter {
                            current_activity: Some(
                                SpecActivity {
                                    id: activity_id,
                                    kind: ActivityKind::PlacingOrder,
                                    status: ActivityStatus::Active,
                                    target_id: Some(s.id),
                                    started_at_tick: e2.state.tick,
                                    completes_at_tick: completes,
                                    description,
                                    promise_id: Some(promise_id),
                                    reserved_coins: s.price_coins,
                                },
                            ),
                            status: CharacterStatus::PlacingOrder,
                            ..c
                        },
                    );
                    let promise = SpecPromise {
                        id: promise_id,
                        activity_id,
                        trigger: "activity_ready"@,
                        estimated_ready_at_tick: completes,
                        resume_hint: ready_hint(s),
                    };
                    let e4 = record(
                        e3,
                        SpecEventKind::ActivityStarted {
                            character_id: cid,
                            activity_id,
                            description,
                            completes_at_tick: completes,
                        },
                    );
                    let e5 = record(e4, SpecEventKind::PromiseCreated { promise });
                    (
                        e5,
                        Ok(activity_started(activity_id, description, s.duration_ticks, Some(promise))),
                    )
                },
            },
        },
    }
}

/// The character waits for a number of ticks.
pub open spec fn start_wait_activity(e: SpecEngine, cid: Seq<char>, ticks: Tick) -> (
    SpecEngine,
    Result<SpecCommandResult, SpecApiError>,
) {
    match ensure_can_start_activity(e.state, cid, false) {
        Err(err) => (e, Err(err)),
        Ok(_) => {
            let (e1, activity_id) = next_activity_id(e, "wait"@);
            let description = cid + " waits for "@ + decimal(ticks as nat) + " ticks."@;
            let completes = e1.state.tick.wrapping_add(ticks);
            let c = char_of(e1, cid);
            let e2 = set_character(
                e1,
                cid,
                SpecCharacter {
                    current_activity: Some(
                        SpecActivity {
                            id: activity_id,
                            kind: ActivityKind::Waiting,
                            status: ActivityStatus::Active,
                            target_id: None,
                            started_at_tick: e1.state.tick,
                            completes_at_tick: completes,
                            description,
                            promise_id: None,
                            reserved_coins: 0,
                        },
                    ),
                    status: CharacterStatus::Waiting,
                    ..c
                },
            );
            let e3 = record(
                e2,
                SpecEventKind::ActivityStarted {
                    character_id: cid,
                    activity_id,
                    description,
                    completes_at_tick: completes,
                },
            );
            (e3, Ok(activity_started(activity_id, description, ticks, None)))
        },
    }
}

pub open spec fn home_updated(home_id: Seq<char>, locked: bool, location_id: Seq<char>) -> SpecCommandResult {
    SpecCommandResult::HomeUpdated { home_id, locked, location_id }
}

pub open spec fn home_manual(st: SpecSnapshot, cid: Seq<char>) -> Result<SpecHomeManual, SpecApiError> {
    match require_character(st, cid) {
        Err(err) => Err(err),
        Ok(actor) => Ok(
            SpecHomeManual {
                home_id: actor.home_id,
                owner_character_id: actor.id,
                supported_actions: seq![
                    HomeAction::Enter,
                    HomeAction::Leave,
                    HomeAction::Lock,
                    HomeAction::Unlock,
                    HomeAction::ReturnHome,
                ],
                locked: home_locked(st, actor.home_id),
                description: "Homes support entering, leaving, locking, unlocking, and returning home."@,
            },
        ),
    }
}

pub open spec fn set_home_lock(e: SpecEngine, home_id: Seq<char>, locked: bool) -> SpecEngine {
    SpecEngine {
        state: SpecSnapshot { home_locks: map_insert(e.state.home_locks, home_id, locked), ..e.state },
        ..e
    }
}

/// Entering, leaving, locking and unlocking the character's own home.
pub open spec fn home_action(e: SpecEngine, cid: Seq<char>, act: HomeAction) -> (
    SpecEngine,
    Result<SpecCommandResult, SpecApiError>,
) {
    match require_character(e.state, cid) {
        Err(err) => (e, Err(err)),
        Ok(actor) => {
            let home_id = actor.home_id;
            match act {
                HomeAction::Enter | HomeAction::ReturnHome => if actor.location_id == home_id {
                    let e1 = set_character(e, cid, SpecCharacter { status: CharacterStatus::InsideHome, ..actor });
                    (e1, Ok(home_updated(home_id, home_locked(e1.state, home_id), home_id)))
                } else {
                    let (e1, r) = start_move(e, cid, SpecMoveMode::ToTarget { target: home_id });
                    match r {
                        Err(err) => (e1, Err(err)),
                        Ok(_) => (
                            e1,
                            Ok(home_updated(home_id, home_locked(e1.state, home_id), char_of(e1, cid).location_id)),
                        ),
                    }
                },
                HomeAction::Leave => if actor.location_id != home_id {
                    (e, Err(api_error("not_at_home"@, "The character is not at home."@)))
                } else {
                    match location(e.state, home_id) {
                        None => (
                            e,
                            Err(api_error("location_missing"@, "The character's home location is missing."@)),
                        ),
                        Some(loc) => if loc.exits.len() == 0 {
                            (e, Err(api_error("no_exit"@, "The home has no exit."@)))
                        } else {
                            let e1 = set_character(e, cid, SpecCharacter { status: CharacterStatus::Idle, ..actor });
                            let (e2, r) = start_move(e1, cid, SpecMoveMode::ToTarget { target: loc.exits[0] });
                            match r {
                                Err(err) => (e2, Err(err)),
                                Ok(_) => (
                                    e2,
                                    Ok(home_updated(home_id, home_locked(e2.state, home_id), actor.location_id)),
                                ),
                            }
                        },
                    }
                },
                HomeAction::Lock => {
                    let e1 = record(
                        set_home_lock(e, home_id, true),
                        SpecEventKind::HomeLocked { character_id: cid, home_id },
                    );
                    (e1, Ok(home_updated(home_id, true, actor.location_id)))
                },
                HomeAction::Unlock => {
                    let e1 = record(
                        set_home_lock(e, home_id, false),
                        SpecEventKind::HomeUnlocked { character_id: cid, home_id },
                    );
                    (e1, Ok(home_updated(home_id, false, actor.location_id)))
                },
            }
        },
    }
}

/// Listing and acknowledging the character's notifications.
pub open spec fn notification_action(e: SpecEngine, cid: Seq<char>, act: SpecNotificationAction) -> (
    SpecEngine,
    Result<SpecCommandResult, SpecApiError>,
) {
    match require_character(e.state, cid) {
        Err(err) => (e, Err(err)),
        Ok(_) => match act {
            SpecNotificationAction::List => (
                e,
                Ok(
                    SpecCommandResult::Notifications {
                        notifications: notifications_for(e.state.notifications, cid, false),
                    },
                ),
            ),
            SpecNotificationAction::Ack { notification_id } => match lookup(
                e.state.notifications,
                notification_id,
            ) {
                None => (
                    e,
                    Err(api_error("unknown_notification"@, "The notification does not exist."@)),
                ),
                Some(n) => if n.character_id != cid {
                    (
                        e,
                        Err(
                            api_error(
                                "notification_not_owned"@,
                                "The notification belongs to another character."@,
                            ),
                        ),
                    )
                } else {
                    let e1 = SpecEngine {
                        state: SpecSnapshot {
                            notifications: map_insert(
                                e.state.notifications,
                                notification_id,
                                SpecNotification { acknowledged: true, ..n },
                            ),
                            ..e.state
                        },
                        ..e
                    };
                    let e2 = record(
                        e1,
                        SpecEventKind::NotificationAcknowledged { character_id: cid, notification_id },
                    );
                    (e2, Ok(SpecCommandResult::NotificationAcknowledged { notification_id }))
                },
            },
        },
    }
}

/// The coins a queue sets aside: the price of each order in it; the first
/// unknown service or unavailable item rejects the queue.
pub open spec fn queue_reservation(
    st: SpecSnapshot,
    actions: Seq<SpecQueueableCommand>,
    total: u32,
) -> Result<u32, SpecApiError>
    decreases actions.len(),
{
    if actions.len() == 0 {
        Ok(total)
    } else {
        match actions[0] {
            SpecQueueableCommand::Order { service_id, item } => match service(st, service_id) {
                Err(err) => Err(err),
                Ok(s) => if s.item != item {
                    Err(
                        api_error(
                            "item_unavailable"@,
                            "A queued item is not available from the requested service."@,
                        ),
                    )
                } else {
                    queue_reservation(st, actions.drop_first(), total.saturating_add(s.price_coins))
                },
            },
            _ => queue_reservation(st, actions.drop_first(), total),
        }
    }
}

pub open spec fn required_queue_reservation(
    st: SpecSnapshot,
    cid: Seq<char>,
    actions: Seq<SpecQueueableCommand>,
) -> Result<u32, SpecApiError> {
    match require_character(st, cid) {
        Err(err) => Err(err),
        Ok(_) => queue_reservation(st, actions, 0),
    }
}

/// Runs one queued command.
pub open spec fn run_queued(e: SpecEngine, cid: Seq<char>, cmd: SpecQueueableCommand) -> (
    SpecEngine,
    Result<SpecCommandResult, SpecApiError>,
) {
    match cmd {
        SpecQueueableCommand::Move { mode } => start_move(e, cid, mode),
        SpecQueueableCommand::Say { target, text } => say(e, cid, target, text),
        SpecQueueableCommand::Order { service_id, item } => start_order(e, cid, service_id, item, true),
        SpecQueueableCommand::Wait { ticks } => start_wait_activity(e, cid, ticks),
        SpecQueueableCommand::Home { action } => home_action(e, cid, action),
    }
}

/// When the character is free and has queued commands, the first one starts;
/// if it fails, the rest of the queue is dropped and its reservations released.
pub open spec fn queue_step(e: SpecEngine, cid: Seq<char>) -> SpecEngine {
    match lookup(e.state.characters, cid) {
        None => e,
        Some(c) => if c.current_activity is Some || c.queued_commands.len() == 0 {
            e
        } else {
            let next = c.queued_commands[0];
            let rest = c.queued_commands.drop_first();
            let e1 = record(
                set_character(e, cid, SpecCharacter { queued_commands: rest, ..c }),
                SpecEventKind::QueueStepStarted { character_id: cid, remaining: rest.len() as usize },
            );
            let (e2, r) = run_queued(e1, cid, next);
            match r {
                Ok(_) => e2,
                Err(err) => {
                    let e3 = release_all_reservations(e2, cid);
                    let e4 = match lookup(e3.state.characters, cid) {
                        Some(c3) => set_character(e3, cid, SpecCharacter { queued_commands: Seq::empty(), ..c3 }),
                        None => e3,
                    };
                    record(e4, SpecEventKind::QueueStepFailed { character_id: cid, code: err.code })
                },
            }
        },
    }
}

/// `n` queue steps, one after another.
pub open spec fn run_queue_steps(e: SpecEngine, cid: Seq<char>, n: nat) -> SpecEngine
    decreases n,
{
    if n == 0 {
        e
    } else {
        queue_step(run_queue_steps(e, cid, (n - 1) as nat), cid)
    }
}

/// The character works through its queue: steps start one after another
/// until one starts an activity that takes time, one fails, or the queue is
/// empty. Each step takes at least one command off the queue, so as many
/// steps as there are queued commands are enough.
pub open spec fn start_next_queue_step(e: SpecEngine, cid: Seq<char>) -> SpecEngine {
    match lookup(e.state.characters, cid) {
        Some(c) => run_queue_steps(e, cid, c.queued_commands.len()),
        None => e,
    }
}

/// The character accepts a queue of one to three commands, reserving the
/// coins its orders will cost, and starts the first step.
pub open spec fn accept_queue(e: SpecEngine, cid: Seq<char>, actions: Seq<SpecQueueableCommand>) -> (
    SpecEngine,
    Result<SpecCommandResult, SpecApiError>,
) {
    match ensure_can_start_activity(e.state, cid, false) {
        Err(err) => (e, Err(err)),
        Ok(_) => if actions.len() == 0 {
            (e, Err(api_error("empty_queue"@, "A queue must include at least one action."@)))
        } else if actions.len() > MAX_QUEUE_LEN {
            (e, Err(api_error("queue_too_long"@, "Queues are capped at three actions."@)))
        } else {
            match required_queue_reservation(e.state, cid, actions) {
                Err(err) => (e, Err(err)),
                Ok(reserve) => {
                    let actor = char_of(e, cid);
                    if actor.coins.saturating_sub(actor.reserved_coins) < reserve {
                        (
                            e,
                            Err(
                                api_error(
                                    "insufficient_coins"@,
                                    "The character cannot reserve enough coins for this queue."@,
                                ),
                            ),
                        )
                    } else {
                        let e1 = set_character(
                            e,
                            cid,
                            SpecCharacter {
                                reserved_coins: (actor.reserved_coins + reserve) as u32,
                                queued_commands: actions,
                                ..actor
                            },
                        );
                        let e2 = if reserve > 0 {
                            record(e1, SpecEventKind::CoinsReserved { character_id: cid, amount: reserve })
                        } else {
                            e1
                        };
                        let e3 = record(
                            e2,
                            SpecEventKind::QueueAccepted {
                                character_id: cid,
                                queued_count: actions.len() as usize,
                                reserved_coins: reserve,
                            },
                        );
                        (
                            start_next_queue_step(e3, cid),
                            Ok(SpecCommandResult::QueueAccepted {
                                queued_count: actions.len() as usize,
                                reserved_coins: reserve,
                            }),
                        )
                    }
                },
            }
        },
    }
}

// ---------------------------------------------------------------- character creation

pub open spec fn is_occupied(cs: Seq<(Seq<char>, SpecCharacter)>, home_id: Seq<char>) -> bool {
    exists|i: int| 0 <= i < cs.len() && #[trigger] cs[i].1.home_id == home_id
}

pub open spec fn home_is_free(st: SpecSnapshot, h: SpecHome) -> bool {
    h.owner_character_id is None && !is_occupied(st.characters, h.id)
}

/// The index of the first home that nobody owns or lives in, from `i` on.
pub open spec fn first_free_home(st: SpecSnapshot, i: nat) -> Option<nat>
    decreases st.world.homes.len() - i,
{
    if i >= st.world.homes.len() {
        None
    } else if home_is_free(st, st.world.homes[i as int]) {
        Some(i)
    } else {
        first_free_home(st, i + 1)
    }
}

/// Gives the first free home to the character.
pub open spec fn allocate_home(e: SpecEngine, cid: Seq<char>) -> (SpecEngine, Option<Seq<char>>) {
    match first_free_home(e.state, 0) {
        None => (e, None),
        Some(i) => {
            let h = e.state.world.homes[i as int];
            let homes = e.state.world.homes.update(
                i as int,
                SpecHome { owner_character_id: Some(cid), ..h },
            );
            (
                SpecEngine {
                    state: SpecSnapshot {
                        world: SpecWorld { homes, ..e.state.world },
                        ..e.state
                    },
                    ..e
                },
                Some(h.id),
            )
        },
    }
}

/// A new character in its home (or at the spawn point when no home is free).
pub open spec fn create_character(
    e: SpecEngine,
    cid: Seq<char>,
    name: Seq<char>,
    body_color: Seq<char>,
    face_color: Seq<char>,
) -> (SpecEngine, Result<SpecCharacter, SpecApiError>) {
    if has_key(e.state.characters, cid) {
        (
            e,
            Err(
                api_error(
                    "character_exists"@,
                    "A character already exists for this token or character id."@,
                ),
            ),
        )
    } else if !is_hex_color(body_color) {
        (e, Err(invalid_color("body_color"@)))
    } else if !is_hex_color(face_color) {
        (e, Err(invalid_color("face_color"@)))
    } else {
        let (e1, home) = allocate_home(e, cid);
        let spawn = e1.state.world.spawn_location_id;
        let home_id = match home {
            Some(h) => h,
            None => spawn,
        };
        let c = SpecCharacter {
            id: cid,
            name,
            body_color,
            face_color,
            location_id: home_id,
            home_id,
            coins: e1.state.world.starting_coins,
            reserved_coins: 0,
            current_activity: None,
            queued_commands: Seq::empty(),
            last_agent_action_tick: e1.state.tick,
            status: CharacterStatus::Idle,
        };
        let e2 = set_character(e1, cid, c);
        let e3 = record(e2, SpecEventKind::CharacterCreated { character_id: cid, home_id });
        (e3, Ok(c))
    }
}

pub open spec fn look_at(st: SpecSnapshot, cid: Seq<char>, target: Seq<char>) -> Result<
    SpecCommandResult,
    SpecApiError,
> {
    match require_character(st, cid) {
        Err(err) => Err(err),
        Ok(actor) => match entity_view(st, actor, target) {
            None => Err(api_error("not_visible"@, "The target is not currently visible."@)),
            Some(entity) => {
                let description = if entity.entity_type == "character"@ {
                    entity.name + " is nearby."@
                } else if entity.entity_type == "service"@ {
                    entity.name + " can be used here."@
                } else if entity.entity_type == "location"@ {
                    match location(st, entity.id) {
                        Some(l) => l.description,
                        None => entity.name,
                    }
                } else {
                    entity.name
                };
                Ok(SpecCommandResult::LookedAt { entity, description })
            },
        },
    }
}

// ---------------------------------------------------------------- time

/// The outcome of a completed activity: arriving, paying and being
/// notified, or being done waiting.
pub open spec fn complete_activity(e: SpecEngine, cid: Seq<char>, a: SpecActivity) -> SpecEngine {
    let e0 = set_character(e, cid, SpecCharacter { current_activity: None, ..char_of(e, cid) });
    let e1 = match a.kind {
        ActivityKind::Moving | ActivityKind::ReturningHome => match a.target_id {
            Some(t) => {
                let c = char_of(e0, cid);
                record(
                    set_character(
                        e0,
                        cid,
                        SpecCharacter {
                            location_id: t,
                            status: if t == c.home_id {
                                CharacterStatus::InsideHome
                            } else {
                                CharacterStatus::Idle
                            },
                            ..c
                        },
                    ),
                    SpecEventKind::CharacterMoved { character_id: cid, from: c.location_id, to: t },
                )
            },
            None => e0,
        },
        ActivityKind::PlacingOrder => {
            let paid = match a.target_id {
                Some(sid) => match service(e0.state, sid) {
                    Ok(s) => {
                        let c = char_of(e0, cid);
                        record(
                            set_character(
                                e0,
                                cid,
                                SpecCharacter {
                                    reserved_coins: c.reserved_coins.saturating_sub(s.price_coins),
                                    coins: c.coins.saturating_sub(s.price_coins),
                                    status: CharacterStatus::Idle,
                                    ..c
                                },
                            ),
                            SpecEventKind::CoinsSpent { character_id: cid, amount: s.price_coins },
                        )
                    },
                    Err(_) => e0,
                },
                None => e0,
            };
            match a.promise_id {
                Some(pid) => {
                    let sid = match a.target_id {
                        Some(t) => t,
                        None => Seq::empty(),
                    };
                    let hint = match service(paid.state, sid) {
                        Ok(s) => ready_hint(s),
                        Err(_) => "Your activity is ready."@,
                    };
                    let e2 = record(
                        paid,
                        SpecEventKind::PromiseResolved { promise_id: pid, character_id: cid, resume_hint: hint },
                    );
                    create_notification(
                        e2,
                        cid,
                        "promise_resolved"@,
                        hint,
                        seq![("promise_id"@, pid), ("activity_id"@, a.id)],
                    )
                },
                None => paid,
            }
        },
        ActivityKind::Waiting => set_character(
            e0,
            cid,
            SpecCharacter { status: CharacterStatus::Idle, ..char_of(e0, cid) },
        ),
    };
    record(e1, SpecEventKind::ActivityCompleted { character_id: cid, activity_id: a.id })
}

/// Characters whose activity is due at the current tick, in id order.
pub open spec fn due_ids(cs: Seq<(Seq<char>, SpecCharacter)>, tick: Tick) -> Seq<Seq<char>>
    decreases cs.len(),
{
    if cs.len() == 0 {
        Seq::empty()
    } else {
        let rest = due_ids(cs.drop_last(), tick);
        match cs.last().1.current_activity {
            Some(a) => if a.completes_at_tick <= tick {
                rest.push(cs.last().0)
            } else {
                rest
            },
            None => rest,
        }
    }
}

pub open spec fn complete_one(e: SpecEngine, cid: Seq<char>) -> SpecEngine {
    match lookup(e.state.characters, cid) {
        Some(c) => match c.current_activity {
            Some(a) => start_next_queue_step(complete_activity(e, cid, a), cid),
            None => e,
        },
        None => e,
    }
}

pub open spec fn complete_all(e: SpecEngine, ids: Seq<Seq<char>>) -> SpecEngine
    decreases ids.len(),
{
    if ids.len() == 0 {
        e
    } else {
        complete_one(complete_all(e, ids.drop_last()), ids.last())
    }
}

pub open spec fn complete_due_activities(e: SpecEngine) -> SpecEngine {
    complete_all(e, due_ids(e.state.characters, e.state.tick))
}

pub open spec fn should_return_home(c: SpecCharacter, tick: Tick) -> bool {
    tick.saturating_sub(c.last_agent_action_tick) >= OFFLINE_RETURN_HOME_TICKS
        && c.current_activity is None && c.location_id != c.home_id
}

pub open spec fn inactive_ids(cs: Seq<(Seq<char>, SpecCharacter)>, tick: Tick) -> Seq<Seq<char>>
    decreases cs.len(),
{
    if cs.len() == 0 {
        Seq::empty()
    } else {
        let rest = inactive_ids(cs.drop_last(), tick);
        if should_return_home(cs.last().1, tick) {
            rest.push(cs.last().0)
        } else {
            rest
        }
    }
}

pub proof fn lemma_inactive_ids_are_keys(cs: Seq<(Seq<char>, SpecCharacter)>, tick: Tick)
    ensures
        forall|k: int|
            0 <= k < inactive_ids(cs, tick).len() ==> has_key(cs, #[trigger] inactive_ids(cs, tick)[k]),
    decreases cs.len(),
{
    if cs.len() > 0 {
        let d = cs.drop_last();
        lemma_inactive_ids_are_keys(d, tick);
        let rest = inactive_ids(d, tick);
        assert forall|k: int|
            0 <= k < inactive_ids(cs, tick).len() implies has_key(cs, #[trigger] inactive_ids(cs, tick)[k]) by {
            if k < rest.len() {
                assert(inactive_ids(cs, tick)[k] == rest[k]);
                assert(has_key(d, rest[k]));
                let m = choose|m: int| 0 <= m < d.len() && #[trigger] d[m].0 == rest[k];
                assert(cs[m].0 == rest[k]);
            } else {
                assert(inactive_ids(cs, tick)[k] == cs[cs.len() - 1].0);
            }
        }
    }
}

pub open spec fn send_home(e: SpecEngine, cid: Seq<char>) -> SpecEngine {
    let c = char_of(e, cid);
    record(
        set_character(e, cid, SpecCharacter { location_id: c.home_id, status: CharacterStatus::InsideHome, ..c }),
        SpecEventKind::CharacterSentHome { character_id: cid, from: c.location_id, to: c.home_id },
    )
}

pub open spec fn send_all_home(e: SpecEngine, ids: Seq<Seq<char>>) -> SpecEngine
    decreases ids.len(),
{
    if ids.len() == 0 {
        e
    } else {
        send_home(send_all_home(e, ids.drop_last()), ids.last())
    }
}

/// Characters whose agents have been away long enough, and who are idle
/// away from home, are sent home.
pub open spec fn return_inactive_characters_home(e: SpecEngine) -> SpecEngine {
    send_all_home(e, inactive_ids(e.state.characters, e.state.tick))
}

/// One tick: time moves on, due activities complete, idle absentees go home.
pub open spec fn tick_once(e: SpecEngine) -> SpecEngine {
    let e1 = SpecEngine {
        state: SpecSnapshot { tick: e.state.tick.saturating_add(1), ..e.state },
        ..e
    };
    return_inactive_characters_home(complete_due_activities(e1))
}

pub open spec fn run_ticks(e: SpecEngine, n: nat) -> SpecEngine
    decreases n,
{
    if n == 0 {
        e
    } else {
        tick_once(run_ticks(e, (n - 1) as nat))
    }
}

/// Advances time by `ticks`, recording the span when it is not empty.
pub open spec fn advance_ticks(e: SpecEngine, ticks: Tick) -> SpecEngine {
    if ticks == 0 {
        e
    } else {
        let e1 = run_ticks(e, ticks as nat);
        record(e1, SpecEventKind::WorldTimeAdvanced { from_tick: e.state.tick, to_tick: e1.state.tick })
    }
}

// ---------------------------------------------------------------- applying commands

pub open spec fn with_observation(
    e: SpecEngine,
    cid: Seq<char>,
    r: Result<SpecCommandResult, SpecApiError>,
) -> Result<(Option<SpecCommandResult>, Option<SpecObservation>), SpecApiError> {
    match r {
        Err(err) => Err(err),
        Ok(result) => match observe(e, cid) {
            Err(err) => Err(err),
            Ok(o) => Ok((Some(result), Some(o))),
        },
    }
}

/// Dispatches a command that passed the freshness and precondition checks.
pub open spec fn dispatch(e: SpecEngine, cid: Seq<char>, cmd: SpecCommand) -> (
    SpecEngine,
    Result<(Option<SpecCommandResult>, Option<SpecObservation>), SpecApiError>,
) {
    match cmd {
        SpecCommand::CreateCharacter { name, body_color, face_color } => {
            let (e1, r) = create_character(e, cid, name, body_color, face_color);
            match r {
                Err(err) => (e1, Err(err)),
                Ok(c) => (e1, Ok((Some(SpecCommandResult::CharacterCreated { character: c }), None))),
            }
        },
        SpecCommand::Observe => match observe(e, cid) {
            Err(err) => (e, Err(err)),
            Ok(o) => (e, Ok((None, Some(o)))),
        },
        SpecCommand::LookAt { target } => (e, with_observation(e, cid, look_at(e.state, cid, target))),
        SpecCommand::Move { mode } => {
            let (e1, r) = start_move(e, cid, mode);
            (e1, with_observation(e1, cid, r))
        },
        SpecCommand::Say { target, text } => {
            let (e1, r) = say(e, cid, target, text);
            (e1, with_observation(e1, cid, r))
        },
        SpecCommand::Order { service_id, item } => {
            let (e1, r) = start_order(e, cid, service_id, item, false);
            (e1, with_observation(e1, cid, r))
        },
        SpecCommand::Wait { ticks } => {
            let e1 = advance_ticks(e, ticks);
            (e1, with_observation(e1, cid, Ok(SpecCommandResult::Waited { advanced_ticks: ticks })))
        },
        SpecCommand::Queue { actions } => {
            let (e1, r) = accept_queue(e, cid, actions);
            (e1, with_observation(e1, cid, r))
        },
        SpecCommand::HomeManual => match home_manual(e.state, cid) {
            Err(err) => (e, Err(err)),
            Ok(m) => (e, Ok((Some(SpecCommandResult::HomeManual { manual: m }), None))),
        },
        SpecCommand::Home { action } => {
            let (e1, r) = home_action(e, cid, action);
            (e1, with_observation(e1, cid, r))
        },
        SpecCommand::Notifications { action } => {
            let (e1, r) = notification_action(e, cid, action);
            (e1, with_observation(e1, cid, r))
        },
    }
}

pub open spec fn apply_inner(e: SpecEngine, env: SpecEnvelope) -> (
    SpecEngine,
    Result<(Option<SpecCommandResult>, Option<SpecObservation>), SpecApiError>,
) {
    match check_freshness(e.state, env) {
        Err(err) => (e, Err(err)),
        Ok(_) => match validate_preconditions(e.state, env) {
            Err(err) => (e, Err(err)),
            Ok(_) => {
                let (e1, r) = dispatch(touch_actor(e, env.character_id), env.character_id, env.command);
                match r {
                    Ok(x) => (e1, Ok(x)),
                    Err(err) => (e, Err(err)),
                }
            },
        },
    }
}

/// `e` with `env` appended to its command log.
pub open spec fn log_command(e: SpecEngine, env: SpecEnvelope) -> SpecEngine {
    SpecEngine { state: SpecSnapshot { command_log: e.state.command_log.push(env), ..e.state }, ..e }
}

/// Applies one command envelope: an accepted command is logged for replay;
/// a rejected one changes nothing but a `CommandRejected` event.
pub open spec fn apply(e: SpecEngine, env: SpecEnvelope) -> (SpecEngine, SpecResponse) {
    let (e1, r) = apply_inner(e, env);
    match r {
        Ok((result, observation)) => {
            let e2 = log_command(e1, env);
            (
                e2,
                SpecResponse {
                    ok: true,
                    accepted: true,
                    command_id: env.command_id,
                    tick: e2.state.tick,
                    result,
                    observation,
                    error: None,
                },
            )
        },
        Err(err) => {
            let e2 = record(e1, SpecEventKind::CommandRejected { character_id: env.character_id, code: err.code });
            (
                e2,
                SpecResponse {
                    ok: false,
                    accepted: false,
                    command_id: env.command_id,
                    tick: e2.state.tick,
                    result: None,
                    observation: None,
                    error: Some(err),
                },
            )
        },
    }
}

/// The engine after applying the commands in order.
pub open spec fn apply_all(e: SpecEngine, envs: Seq<SpecEnvelope>) -> SpecEngine
    decreases envs.len(),
{
    if envs.len() == 0 {
        e
    } else {
        apply(apply_all(e, envs.drop_last()), envs.last()).0
    }
}

pub open spec fn replay(w: SpecWorld, envs: Seq<SpecEnvelope>) -> Result<SpecEngine, SpecCoreError> {
    match new_engine(w) {
        Err(err) => Err(err),
        Ok(e) => Ok(apply_all(e, envs)),
    }
}

} // verus!
