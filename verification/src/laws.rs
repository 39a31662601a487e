//! What holds of every run of the engine: coins held in reserve never exceed
//! a character's coins, queues stay within their cap and never stall,
//! events carry the schema version, get consecutive ids in tick order and are
//! never rewritten, the world's map only changes where a rule says so, the
//! accepted commands are logged and replaying the log of a run in which all
//! were accepted reproduces it, refused
//! commands change nothing but their rejection event, stale commands are
//! refused, and an observation shows only what its character can perceive.
use vstd::prelude::*;
use crate::model;
use crate::model::{
    SpecEngine, MAX_QUEUE_LEN, record, set_character, char_of, start_move, start_wait_activity,
    say, start_order, home_action, notification_action, run_queued, release_all_reservations,
    start_next_queue_step, queue_step, run_queue_steps, accept_queue, allocate_home, create_character, create_notification,
    touch_actor, complete_activity, complete_one, complete_all, send_home, send_all_home,
    tick_once, run_ticks, advance_ticks, dispatch, apply_inner, apply, apply_all, new_engine,
    next_activity_id, next_promise_id, set_home_lock, complete_due_activities,
    return_inactive_characters_home, inactive_ids, due_ids, lemma_inactive_ids_are_keys,
    resolve_move_target, home_locked, require_character, service, notifications_for,
    check_freshness, local_state_hash, required_queue_reservation, observe, nearby_characters,
    nearby_services, exit_views, visible_conversations, conversation_visible, first_free_home,
    home_is_free,
};
use crate::protocol::{
    SCHEMA_VERSION, Tick, SpecCharacter, SpecEnvelope, SpecWorld, SpecEventKind, SpecCommand, SpecCommandResult,
    SpecConversation, SpecEntityView, SpecNotification, SpecQueueableCommand, SpecService,
    SpecSnapshot,
};
use crate::strmap::{lookup, has_key, key_index, map_insert, keys_sorted, lemma_map_insert};

verus! {

/// A character holds in reserve no more than it owns and has at most three
/// queued commands.
pub open spec fn char_ok(c: SpecCharacter) -> bool {
    c.reserved_coins <= c.coins && c.queued_commands.len() <= MAX_QUEUE_LEN
}

pub open spec fn chars_ok(cs: Seq<(Seq<char>, SpecCharacter)>) -> bool {
    forall|i: int| 0 <= i < cs.len() ==> char_ok(#[trigger] cs[i].1)
}

/// Events carry the schema version, their ids are consecutive, the next id
/// follows the last one, and their ticks never decrease and never pass the
/// clock.
pub open spec fn ids_ok(e: SpecEngine) -> bool {
    &&& forall|k: int|
        0 < k < e.events.len() ==> #[trigger] e.events[k].id == e.events[k - 1].id.wrapping_add(1)
            && e.events[k - 1].tick <= e.events[k].tick
    &&& forall|k: int| 0 <= k < e.events.len() ==> (#[trigger] e.events[k]).tick <= e.state.tick
    &&& forall|k: int|
        0 <= k < e.events.len() ==> (#[trigger] e.events[k]).schema_version == SCHEMA_VERSION@
    &&& e.events.len() > 0 ==> e.state.next_event_id == e.events.last().id.wrapping_add(1)
}

/// The invariant of the engine.
pub open spec fn engine_ok(e: SpecEngine) -> bool {
    keys_sorted(e.state.characters) && chars_ok(e.state.characters) && ids_ok(e)
}

/// `e2` keeps the world's map and every event of `e1`: history is only appended to.
pub open spec fn keeps_history(e1: SpecEngine, e2: SpecEngine) -> bool {
    &&& e2.state.world.locations == e1.state.world.locations
    &&& e2.state.world.services == e1.state.world.services
    &&& e2.state.world.spawn_location_id == e1.state.world.spawn_location_id
    &&& e2.state.world.starting_coins == e1.state.world.starting_coins
    &&& e1.events.len() <= e2.events.len()
    &&& forall|k: int| 0 <= k < e1.events.len() ==> #[trigger] e2.events[k] == e1.events[k]
}

/// `keeps_history`, with the command log unchanged.
pub open spec fn keeps(e1: SpecEngine, e2: SpecEngine) -> bool {
    keeps_history(e1, e2) && e2.state.command_log == e1.state.command_log
}

/// `keeps`, at the same tick.
pub open spec fn keeps_now(e1: SpecEngine, e2: SpecEngine) -> bool {
    keeps(e1, e2) && e2.state.tick == e1.state.tick
}

/// Every character of `e1` is still there in `e2`.
pub open spec fn keys_kept(e1: SpecEngine, e2: SpecEngine) -> bool {
    forall|k: Seq<char>|
        #![trigger has_key(e2.state.characters, k)]
        has_key(e1.state.characters, k) ==> has_key(e2.state.characters, k)
}

/// A step that keeps the invariant.
pub open spec fn step_ok(e1: SpecEngine, e2: SpecEngine) -> bool {
    engine_ok(e1) ==> engine_ok(e2)
}

/// A step that keeps the invariant and loses no character.
pub open spec fn step_keeps_keys(e1: SpecEngine, e2: SpecEngine) -> bool {
    engine_ok(e1) ==> engine_ok(e2) && keys_kept(e1, e2)
}

// ---------------------------------------------------------------- building blocks

pub broadcast proof fn lemma_record(e: SpecEngine, k: SpecEventKind)
    ensures
        #[trigger] record(e, k).state.characters == e.state.characters,
        engine_ok(e) ==> engine_ok(record(e, k)),
        keeps_now(e, record(e, k)),
{
    let r = record(e, k);
    assert(r.events.last() == r.events[r.events.len() - 1]);
    if engine_ok(e) {
        assert forall|j: int| 0 < j < r.events.len() implies #[trigger] r.events[j].id
            == r.events[j - 1].id.wrapping_add(1) && r.events[j - 1].tick <= r.events[j].tick by {
            if j < e.events.len() {
                assert(r.events[j] == e.events[j]);
                assert(r.events[j - 1] == e.events[j - 1]);
            } else {
                assert(e.events.last() == e.events[e.events.len() - 1]);
            }
        }
    }
}

pub broadcast proof fn lemma_set_character(e: SpecEngine, cid: Seq<char>, c: SpecCharacter)
    requires
        keys_sorted(e.state.characters),
    ensures
        (chars_ok(e.state.characters) && char_ok(c)) ==> chars_ok(
            #[trigger] set_character(e, cid, c).state.characters,
        ),
        ids_ok(e) ==> ids_ok(set_character(e, cid, c)),
        keeps_now(e, set_character(e, cid, c)),
        keys_sorted(set_character(e, cid, c).state.characters),
        has_key(set_character(e, cid, c).state.characters, cid),
        lookup(set_character(e, cid, c).state.characters, cid) == Some(c),
        forall|k2: Seq<char>|
            k2 != cid ==> #[trigger] lookup(set_character(e, cid, c).state.characters, k2) == lookup(
                e.state.characters,
                k2,
            ),
        forall|k2: Seq<char>|
            has_key(e.state.characters, k2) ==> #[trigger] has_key(
                set_character(e, cid, c).state.characters,
                k2,
            ),
{
    lemma_map_insert(e.state.characters, cid, c);
}

pub broadcast proof fn lemma_char_of(e: SpecEngine, cid: Seq<char>)
    ensures
        (chars_ok(e.state.characters) && has_key(e.state.characters, cid)) ==> char_ok(
            #[trigger] char_of(e, cid),
        ),
{
}

pub broadcast proof fn lemma_lookup_ok(cs: Seq<(Seq<char>, SpecCharacter)>, cid: Seq<char>)
    ensures
        (chars_ok(cs) && #[trigger] lookup(cs, cid) is Some) ==> char_ok(lookup(cs, cid)->Some_0),
{
}

pub broadcast group group_engine_steps {
    lemma_record,
    lemma_set_character,
    lemma_char_of,
    lemma_lookup_ok,
}

// ---------------------------------------------------------------- commands

pub broadcast proof fn lemma_next_activity_id(e: SpecEngine, p: Seq<char>)
    ensures
        keeps_now(e, #[trigger] next_activity_id(e, p).0),
        next_activity_id(e, p).0.state.characters == e.state.characters,
        ids_ok(e) ==> ids_ok(next_activity_id(e, p).0),
{
}

pub broadcast proof fn lemma_next_promise_id(e: SpecEngine)
    ensures
        keeps_now(e, #[trigger] next_promise_id(e).0),
        next_promise_id(e).0.state.characters == e.state.characters,
        ids_ok(e) ==> ids_ok(next_promise_id(e).0),
{
}

pub broadcast proof fn lemma_touch_actor(e: SpecEngine, cid: Seq<char>)
    ensures
        step_ok(e, #[trigger] touch_actor(e, cid)),
        keeps_now(e, touch_actor(e, cid)),
{
    broadcast use group_engine_steps;

}

pub broadcast proof fn lemma_release(e: SpecEngine, cid: Seq<char>)
    ensures
        step_ok(e, #[trigger] release_all_reservations(e, cid)),
        keeps_now(e, release_all_reservations(e, cid)),
        forall|k: Seq<char>|
            #![trigger has_key(release_all_reservations(e, cid).state.characters, k)]
            keys_sorted(e.state.characters) && has_key(e.state.characters, k) ==> has_key(
                release_all_reservations(e, cid).state.characters,
                k,
            ),
{
    broadcast use group_engine_steps;

}

pub broadcast proof fn lemma_create_notification(
    e: SpecEngine,
    cid: Seq<char>,
    kind: Seq<char>,
    summary: Seq<char>,
    related: Seq<(Seq<char>, Seq<char>)>,
)
    ensures
        #[trigger] create_notification(e, cid, kind, summary, related).state.characters
            == e.state.characters,
        step_ok(e, create_notification(e, cid, kind, summary, related)),
        keeps_now(e, create_notification(e, cid, kind, summary, related)),
{
}

pub broadcast proof fn lemma_start_move(e: SpecEngine, cid: Seq<char>, mode: crate::protocol::SpecMoveMode)
    ensures
        step_keeps_keys(e, #[trigger] start_move(e, cid, mode).0),
        keeps_now(e, start_move(e, cid, mode).0),
{
    broadcast use group_engine_steps, lemma_next_activity_id, lemma_next_promise_id;

}

pub broadcast proof fn lemma_start_wait(e: SpecEngine, cid: Seq<char>, ticks: Tick)
    ensures
        step_keeps_keys(e, #[trigger] start_wait_activity(e, cid, ticks).0),
        keeps_now(e, start_wait_activity(e, cid, ticks).0),
{
    broadcast use group_engine_steps, lemma_next_activity_id, lemma_next_promise_id;

}

pub broadcast proof fn lemma_say(
    e: SpecEngine,
    cid: Seq<char>,
    target: crate::protocol::SpecSpeechTarget,
    text: Seq<char>,
)
    ensures
        step_keeps_keys(e, #[trigger] say(e, cid, target, text).0),
        keeps_now(e, say(e, cid, target, text).0),
{
    broadcast use group_engine_steps;

}

pub broadcast proof fn lemma_start_order(
    e: SpecEngine,
    cid: Seq<char>,
    sid: Seq<char>,
    item: Seq<char>,
    reserved: bool,
)
    ensures
        step_keeps_keys(e, #[trigger] start_order(e, cid, sid, item, reserved).0),
        keeps_now(e, start_order(e, cid, sid, item, reserved).0),
{
    broadcast use group_engine_steps, lemma_next_activity_id, lemma_next_promise_id;

}

#[verifier::rlimit(30)]
#[verifier::spinoff_prover]
pub broadcast proof fn lemma_home_action(e: SpecEngine, cid: Seq<char>, a: crate::protocol::HomeAction)
    ensures
        step_keeps_keys(e, #[trigger] home_action(e, cid, a).0),
        keeps_now(e, home_action(e, cid, a).0),
{
    broadcast use group_engine_steps, lemma_start_move;

}

pub broadcast proof fn lemma_notification_action(
    e: SpecEngine,
    cid: Seq<char>,
    a: crate::protocol::SpecNotificationAction,
)
    ensures
        step_ok(e, #[trigger] notification_action(e, cid, a).0),
        keeps_now(e, notification_action(e, cid, a).0),
{
    broadcast use group_engine_steps;

}

pub broadcast proof fn lemma_run_queued(e: SpecEngine, cid: Seq<char>, c: crate::protocol::SpecQueueableCommand)
    ensures
        step_keeps_keys(e, #[trigger] run_queued(e, cid, c).0),
        keeps_now(e, run_queued(e, cid, c).0),
{
    broadcast use lemma_start_move, lemma_say, lemma_start_order, lemma_start_wait, lemma_home_action;

}

pub broadcast proof fn lemma_queue_step(e: SpecEngine, cid: Seq<char>)
    ensures
        step_ok(e, #[trigger] queue_step(e, cid)),
        keeps_now(e, queue_step(e, cid)),
{
    broadcast use group_engine_steps, lemma_run_queued, lemma_release;

}

pub proof fn lemma_run_queue_steps(e: SpecEngine, cid: Seq<char>, n: nat)
    ensures
        step_ok(e, run_queue_steps(e, cid, n)),
        keeps_now(e, run_queue_steps(e, cid, n)),
    decreases n,
{
    if n > 0 {
        lemma_run_queue_steps(e, cid, (n - 1) as nat);
        lemma_queue_step(run_queue_steps(e, cid, (n - 1) as nat), cid);
    }
}

pub broadcast proof fn lemma_start_next_queue_step(e: SpecEngine, cid: Seq<char>)
    ensures
        step_ok(e, #[trigger] start_next_queue_step(e, cid)),
        keeps_now(e, start_next_queue_step(e, cid)),
{
    if lookup(e.state.characters, cid) is Some {
        lemma_run_queue_steps(e, cid, lookup(e.state.characters, cid)->Some_0.queued_commands.len());
    }
}

pub broadcast proof fn lemma_accept_queue(
    e: SpecEngine,
    cid: Seq<char>,
    actions: Seq<crate::protocol::SpecQueueableCommand>,
)
    ensures
        step_ok(e, #[trigger] accept_queue(e, cid, actions).0),
        keeps_now(e, accept_queue(e, cid, actions).0),
{
    broadcast use group_engine_steps, lemma_start_next_queue_step;

}

pub broadcast proof fn lemma_create_character(
    e: SpecEngine,
    cid: Seq<char>,
    name: Seq<char>,
    body: Seq<char>,
    face: Seq<char>,
)
    ensures
        step_ok(e, #[trigger] create_character(e, cid, name, body, face).0),
        keeps_now(e, create_character(e, cid, name, body, face).0),
{
    broadcast use group_engine_steps;

}

// ---------------------------------------------------------------- time

pub broadcast proof fn lemma_complete_activity(e: SpecEngine, cid: Seq<char>, a: crate::protocol::SpecActivity)
    ensures
        (engine_ok(e) && has_key(e.state.characters, cid)) ==> engine_ok(
            #[trigger] complete_activity(e, cid, a),
        ),
        keeps_now(e, complete_activity(e, cid, a)),
{
    broadcast use group_engine_steps, lemma_create_notification;

}

pub broadcast proof fn lemma_complete_one(e: SpecEngine, cid: Seq<char>)
    ensures
        step_ok(e, #[trigger] complete_one(e, cid)),
        keeps_now(e, complete_one(e, cid)),
{
    broadcast use lemma_complete_activity, lemma_start_next_queue_step;

}

pub proof fn lemma_complete_all(e: SpecEngine, ids: Seq<Seq<char>>)
    ensures
        step_ok(e, complete_all(e, ids)),
        keeps_now(e, complete_all(e, ids)),
    decreases ids.len(),
{
    if ids.len() > 0 {
        lemma_complete_all(e, ids.drop_last());
        lemma_complete_one(complete_all(e, ids.drop_last()), ids.last());
    }
}

pub broadcast proof fn lemma_send_home(e: SpecEngine, cid: Seq<char>)
    ensures
        (engine_ok(e) && has_key(e.state.characters, cid)) ==> engine_ok(#[trigger] send_home(e, cid)),
        keeps_now(e, send_home(e, cid)),
        forall|k: Seq<char>|
            #![trigger has_key(send_home(e, cid).state.characters, k)]
            keys_sorted(e.state.characters) && has_key(e.state.characters, k) ==> has_key(
                send_home(e, cid).state.characters,
                k,
            ),
{
    broadcast use group_engine_steps;

}

pub proof fn lemma_send_all_home(e: SpecEngine, ids: Seq<Seq<char>>)
    requires
        forall|k: int| 0 <= k < ids.len() ==> has_key(e.state.characters, #[trigger] ids[k]),
    ensures
        step_ok(e, send_all_home(e, ids)),
        keeps_now(e, send_all_home(e, ids)),
        engine_ok(e) ==> forall|k: Seq<char>|
            has_key(e.state.characters, k) ==> #[trigger] has_key(
                send_all_home(e, ids).state.characters,
                k,
            ),
    decreases ids.len(),
{
    if ids.len() > 0 {
        let d = ids.drop_last();
        assert forall|k: int| 0 <= k < d.len() implies has_key(e.state.characters, #[trigger] d[k]) by {
            assert(d[k] == ids[k]);
        }
        lemma_send_all_home(e, d);
        let mid = send_all_home(e, d);
        lemma_send_home(mid, ids.last());
        assert(has_key(e.state.characters, ids[ids.len() - 1]));
    }
}

pub broadcast proof fn lemma_tick_once(e: SpecEngine)
    ensures
        step_ok(e, #[trigger] tick_once(e)),
        keeps(e, tick_once(e)),
        tick_once(e).state.tick == e.state.tick.saturating_add(1),
{
    let e1 = model::SpecEngine {
        state: crate::protocol::SpecSnapshot { tick: e.state.tick.saturating_add(1), ..e.state },
        ..e
    };
    assert(engine_ok(e) ==> engine_ok(e1));
    let ids = due_ids(e1.state.characters, e1.state.tick);
    lemma_complete_all(e1, ids);
    let e2 = complete_due_activities(e1);
    let ids2 = inactive_ids(e2.state.characters, e2.state.tick);
    lemma_inactive_ids_are_keys(e2.state.characters, e2.state.tick);
    lemma_send_all_home(e2, ids2);
}

pub proof fn lemma_run_ticks(e: SpecEngine, n: nat)
    ensures
        step_ok(e, run_ticks(e, n)),
        keeps(e, run_ticks(e, n)),
        run_ticks(e, n).state.tick as int == if e.state.tick + n <= u64::MAX {
            e.state.tick + n
        } else {
            u64::MAX as int
        },
    decreases n,
{
    if n > 0 {
        lemma_run_ticks(e, (n - 1) as nat);
        lemma_tick_once(run_ticks(e, (n - 1) as nat));
    }
}

pub broadcast proof fn lemma_advance_ticks(e: SpecEngine, ticks: Tick)
    ensures
        step_ok(e, #[trigger] advance_ticks(e, ticks)),
        keeps(e, advance_ticks(e, ticks)),
        advance_ticks(e, ticks).state.tick == e.state.tick.saturating_add(ticks),
{
    broadcast use group_engine_steps;

    lemma_run_ticks(e, ticks as nat);
}

// ---------------------------------------------------------------- applying commands

#[verifier::rlimit(40)]
#[verifier::spinoff_prover]
pub broadcast proof fn lemma_dispatch(e: SpecEngine, cid: Seq<char>, cmd: SpecCommand)
    ensures
        step_ok(e, #[trigger] dispatch(e, cid, cmd).0),
        keeps(e, dispatch(e, cid, cmd).0),
{
    broadcast use lemma_create_character, lemma_start_move, lemma_say, lemma_start_order,
        lemma_advance_ticks, lemma_accept_queue, lemma_home_action, lemma_notification_action;

}

pub broadcast proof fn lemma_apply_inner(e: SpecEngine, env: SpecEnvelope)
    ensures
        step_ok(e, #[trigger] apply_inner(e, env).0),
        keeps(e, apply_inner(e, env).0),
{
    broadcast use lemma_touch_actor, lemma_dispatch;

}

/// Applying a command keeps the engine's invariant: character ids stay
/// unique and ordered, no character holds more coins in reserve than it
/// owns, no queue is longer than three commands, and events carry the schema
/// version and consecutive ids, in tick order, none later than the clock.
pub proof fn law_apply_keeps_invariant(e: SpecEngine, env: SpecEnvelope)
    requires
        engine_ok(e),
    ensures
        engine_ok(apply(e, env).0),
{
    broadcast use group_engine_steps, lemma_apply_inner;

}

/// Applying a command only appends to the event log and never changes the
/// world's map.
pub proof fn law_apply_appends_history(e: SpecEngine, env: SpecEnvelope)
    ensures
        keeps_history(e, apply(e, env).0),
{
    broadcast use group_engine_steps, lemma_apply_inner;

}

/// A command is logged for replay exactly when it is accepted, and its
/// response says whether it was. A rejected command has no other effect than
/// a `CommandRejected` event carrying its error code: what the command may
/// have started to do is undone, and the log is left as it was.
pub proof fn law_apply_logs_accepted_commands(e: SpecEngine, env: SpecEnvelope)
    ensures
        apply(e, env).1.ok == apply(e, env).1.accepted,
        apply(e, env).1.command_id == env.command_id,
        apply(e, env).1.tick == apply(e, env).0.state.tick,
        apply(e, env).1.ok ==> apply(e, env).1.error is None && apply(e, env).0.state.command_log
            == e.state.command_log.push(env),
        !apply(e, env).1.ok ==> (apply(e, env).1.error matches Some(err) && apply(e, env).1.result
            is None && apply(e, env).1.observation is None && apply(e, env).0 == record(
            e,
            SpecEventKind::CommandRejected { character_id: env.character_id, code: err.code },
        )),
{
    broadcast use group_engine_steps, lemma_apply_inner;

}

/// Advancing time keeps the invariant, moves the clock on by exactly the
/// number of ticks (stopping at the clock's limit: time never runs
/// backwards), leaves the command log alone and only appends to the event log.
pub proof fn law_advance_ticks(e: SpecEngine, ticks: Tick)
    ensures
        engine_ok(e) ==> engine_ok(advance_ticks(e, ticks)),
        advance_ticks(e, ticks).state.tick == e.state.tick.saturating_add(ticks),
        keeps(e, advance_ticks(e, ticks)),
{
    lemma_advance_ticks(e, ticks);
}

/// A new engine satisfies the invariant.
pub proof fn law_new_engine_ok(w: SpecWorld)
    ensures
        new_engine(w) matches Ok(e) ==> engine_ok(e) && e.state.command_log.len() == 0
            && e.events.len() == 1 && e.events[0].id == 1,
{
    if new_engine(w) is Ok {
        let e = new_engine(w)->Ok_0;
        assert(e.events.len() == 1);
        assert(e.events.last() == e.events[0]);
    }
}

/// In an engine whose first event has id 1 (as every engine that starts
/// from `new_engine` has, since history is only appended to), the event at
/// position `i` has id `i + 1` and the next id is one past the last,
/// as long as there are fewer events than the largest id.
pub proof fn law_event_ids_count_from_one(e: SpecEngine)
    requires
        ids_ok(e),
        e.events.len() > 0,
        e.events[0].id == 1,
        e.events.len() < u64::MAX,
    ensures
        forall|i: int| 0 <= i < e.events.len() ==> #[trigger] e.events[i].id == i + 1,
        e.state.next_event_id == e.events.len() + 1,
{
    assert forall|i: int| 0 <= i < e.events.len() implies #[trigger] e.events[i].id == i + 1 by {
        lemma_ids_from_one(e, i);
    }
    assert(e.events.last() == e.events[e.events.len() - 1]);
}

proof fn lemma_ids_from_one(e: SpecEngine, i: int)
    requires
        ids_ok(e),
        0 <= i < e.events.len(),
        e.events[0].id == 1,
        e.events.len() < u64::MAX,
    ensures
        e.events[i].id == i + 1,
    decreases i,
{
    if i > 0 {
        lemma_ids_from_one(e, i - 1);
        assert(e.events[i].id == e.events[i - 1].id.wrapping_add(1));
    }
}

/// Every command in `envs`, applied in order from `e`, was accepted.
pub open spec fn all_accepted(e: SpecEngine, envs: Seq<SpecEnvelope>) -> bool
    decreases envs.len(),
{
    if envs.len() == 0 {
        true
    } else {
        all_accepted(e, envs.drop_last()) && apply(apply_all(e, envs.drop_last()), envs.last()).1.ok
    }
}

/// Applying commands one after another keeps the invariant and only appends
/// to the event log; when every command is accepted, all of them are logged
/// in order.
pub proof fn law_apply_all(e: SpecEngine, envs: Seq<SpecEnvelope>)
    ensures
        step_ok(e, apply_all(e, envs)),
        keeps_history(e, apply_all(e, envs)),
        all_accepted(e, envs) ==> apply_all(e, envs).state.command_log == e.state.command_log
            + envs,
    decreases envs.len(),
{
    if envs.len() > 0 {
        let d = envs.drop_last();
        law_apply_all(e, d);
        let mid = apply_all(e, d);
        if engine_ok(e) {
            law_apply_keeps_invariant(mid, envs.last());
        }
        law_apply_appends_history(mid, envs.last());
        law_apply_logs_accepted_commands(mid, envs.last());
        if all_accepted(e, envs) {
            assert(e.state.command_log + envs =~= (e.state.command_log + d).push(envs.last()));
        }
    }
}

/// Replaying the command log of a run in which every command was accepted
/// reproduces the run exactly: its state, its event log and its command log.
pub proof fn law_replay_reproduces_run(w: SpecWorld, envs: Seq<SpecEnvelope>)
    requires
        new_engine(w) is Ok,
        all_accepted(new_engine(w)->Ok_0, envs),
    ensures
        model::replay(w, apply_all(new_engine(w)->Ok_0, envs).state.command_log) == Ok::<
            SpecEngine,
            model::SpecCoreError,
        >(apply_all(new_engine(w)->Ok_0, envs)),
{
    let e0 = new_engine(w)->Ok_0;
    law_apply_all(e0, envs);
    assert(e0.state.command_log + envs =~= envs);
}

// ---------------------------------------------------------------- rules

/// A move into a locked home succeeds only for the home's owner.
pub proof fn law_locked_home_admits_only_owner(
    e: SpecEngine,
    cid: Seq<char>,
    mode: crate::protocol::SpecMoveMode,
)
    ensures
        start_move(e, cid, mode).1 is Ok ==> (resolve_move_target(e.state, cid, mode) matches Ok(t)
            && (home_locked(e.state, t) ==> char_of(e, cid).home_id == t)),
{
}

/// Locking a home moves nobody: whoever is inside stays inside, and the
/// owner's home is then locked.
pub proof fn law_locking_moves_nobody(e: SpecEngine, cid: Seq<char>)
    requires
        keys_sorted(e.state.home_locks),
    ensures
        home_action(e, cid, crate::protocol::HomeAction::Lock).0.state.characters
            == e.state.characters,
        require_character(e.state, cid) matches Ok(c) ==> home_locked(
            home_action(e, cid, crate::protocol::HomeAction::Lock).0.state,
            c.home_id,
        ),
{
    broadcast use group_engine_steps;

    if require_character(e.state, cid) is Ok {
        let c = require_character(e.state, cid)->Ok_0;
        lemma_map_insert(e.state.home_locks, c.home_id, true);
    }
}

/// An order placed directly reserves the service's price and spends nothing yet.
pub proof fn law_order_reserves_price(e: SpecEngine, cid: Seq<char>, sid: Seq<char>, item: Seq<char>)
    requires
        keys_sorted(e.state.characters),
    ensures
        start_order(e, cid, sid, item, false).1 is Ok ==> {
            let after = char_of(start_order(e, cid, sid, item, false).0, cid);
            let before = char_of(e, cid);
            &&& after.reserved_coins == before.reserved_coins + service(e.state, sid)->Ok_0.price_coins
            &&& after.coins == before.coins
        },
{
    broadcast use group_engine_steps, lemma_next_activity_id, lemma_next_promise_id;

}

/// A notification of `cid` filed under some id, unacknowledged, of the given kind.
pub open spec fn has_notification(e: SpecEngine, cid: Seq<char>, kind: Seq<char>) -> bool {
    exists|nid: Seq<char>|
        #[trigger] lookup(e.state.notifications, nid) matches Some(n) && n.kind == kind
            && n.character_id == cid && !n.acknowledged
}

/// When an order completes, its price leaves both the coins and the
/// reservation, the activity ends, and a durable, unacknowledged
/// `promise_resolved` notification is filed for the character.
pub proof fn law_completed_order_spends_and_notifies(
    e: SpecEngine,
    cid: Seq<char>,
    a: crate::protocol::SpecActivity,
)
    requires
        keys_sorted(e.state.characters),
        keys_sorted(e.state.notifications),
        has_key(e.state.characters, cid),
        a.kind == crate::protocol::ActivityKind::PlacingOrder,
        a.target_id is Some,
        service(e.state, a.target_id->Some_0) is Ok,
        a.promise_id is Some,
    ensures
        ({
            let price = service(e.state, a.target_id->Some_0)->Ok_0.price_coins;
            let before = char_of(e, cid);
            let after = char_of(complete_activity(e, cid, a), cid);
            &&& after.coins == before.coins.saturating_sub(price)
            &&& after.reserved_coins == before.reserved_coins.saturating_sub(price)
            &&& after.current_activity is None
        }),
        has_notification(complete_activity(e, cid, a), cid, "promise_resolved"@),
{
    broadcast use group_engine_steps, lemma_create_notification;

    let sid = a.target_id->Some_0;
    let pid = a.promise_id->Some_0;
    let e0 = set_character(
        e,
        cid,
        SpecCharacter { current_activity: None, ..char_of(e, cid) },
    );
    let svc = service(e0.state, sid)->Ok_0;
    let c = char_of(e0, cid);
    let paid = record(
        set_character(
            e0,
            cid,
            SpecCharacter {
                reserved_coins: c.reserved_coins.saturating_sub(svc.price_coins),
                coins: c.coins.saturating_sub(svc.price_coins),
                status: crate::protocol::CharacterStatus::Idle,
                ..c
            },
        ),
        SpecEventKind::CoinsSpent { character_id: cid, amount: svc.price_coins },
    );
    let hint = model::ready_hint(svc);
    let e2 = record(
        paid,
        SpecEventKind::PromiseResolved { promise_id: pid, character_id: cid, resume_hint: hint },
    );
    let nid = "notif."@ + crate::text::decimal(e2.state.next_event_id as nat);
    let n = crate::protocol::SpecNotification {
        notification_id: nid,
        character_id: cid,
        kind: "promise_resolved"@,
        priority: "normal"@,
        created_at_tick: e2.state.tick,
        expires_at_tick: e2.state.tick.wrapping_add(model::DEFAULT_NOTIFICATION_TTL_TICKS),
        summary: hint,
        acknowledged: false,
        related: model::related_map(seq![("promise_id"@, pid), ("activity_id"@, a.id)]),
    };
    lemma_map_insert(e2.state.notifications, nid, n);
    let e3 = create_notification(
        e2,
        cid,
        "promise_resolved"@,
        hint,
        seq![("promise_id"@, pid), ("activity_id"@, a.id)],
    );
    assert(e3.state.notifications == map_insert(e2.state.notifications, nid, n));
    assert(complete_activity(e, cid, a) == record(
        e3,
        SpecEventKind::ActivityCompleted { character_id: cid, activity_id: a.id },
    ));
    assert(lookup(complete_activity(e, cid, a).state.notifications, nid) == Some(n));
}

/// One character per id: creating a character under an id that is already
/// taken is refused with `character_exists` and changes nothing.
pub proof fn law_one_character_per_id(
    e: SpecEngine,
    cid: Seq<char>,
    name: Seq<char>,
    body: Seq<char>,
    face: Seq<char>,
)
    requires
        has_key(e.state.characters, cid),
    ensures
        create_character(e, cid, name, body, face).0 == e,
        create_character(e, cid, name, body, face).1 matches Err(err) && err.code
            == "character_exists"@,
{
}

proof fn lemma_first_free_home(st: SpecSnapshot, i: nat)
    ensures
        first_free_home(st, i) matches Some(j) ==> i <= j < st.world.homes.len() && home_is_free(
            st,
            st.world.homes[j as int],
        ),
        first_free_home(st, i) is None ==> forall|j: int|
            i <= j < st.world.homes.len() ==> !home_is_free(st, #[trigger] st.world.homes[j]),
    decreases st.world.homes.len() - i,
{
    if i < st.world.homes.len() && !home_is_free(st, st.world.homes[i as int]) {
        lemma_first_free_home(st, i + 1);
    }
}

/// A new character moves into a home that nobody owned or lived in, which
/// it then owns; only when every home is taken does it start at the spawn
/// point instead.
pub proof fn law_new_character_gets_a_free_home(
    e: SpecEngine,
    cid: Seq<char>,
    name: Seq<char>,
    body: Seq<char>,
    face: Seq<char>,
)
    ensures
        create_character(e, cid, name, body, face).1 matches Ok(c) ==> {
            ||| exists|j: int|
                #![trigger e.state.world.homes[j]]
                0 <= j < e.state.world.homes.len() && e.state.world.homes[j].id == c.home_id
                    && home_is_free(e.state, e.state.world.homes[j])
                    && create_character(e, cid, name, body, face).0.state.world.homes[j].owner_character_id
                    == Some(cid)
            ||| c.home_id == e.state.world.spawn_location_id && forall|j: int|
                0 <= j < e.state.world.homes.len() ==> !home_is_free(
                    e.state,
                    #[trigger] e.state.world.homes[j],
                )
        },
{
    lemma_first_free_home(e.state, 0);
    if create_character(e, cid, name, body, face).1 is Ok {
        if first_free_home(e.state, 0) is Some {
            let j = first_free_home(e.state, 0)->Some_0 as int;
            let after = create_character(e, cid, name, body, face).0;
            assert(after.state.world.homes[j].owner_character_id == Some(cid));
        }
    }
}

/// An action that is refused leaves the engine exactly as it was: creating
/// a character, moving, speaking, ordering, queueing, using a home (but for
/// leaving it, which marks the character idle before it tries to move) and
/// handling notifications either succeed or change nothing. (Through `apply`,
/// a refused command changes nothing at all: see
/// `law_apply_logs_accepted_commands`.)
pub proof fn law_refused_actions_change_nothing(e: SpecEngine, cid: Seq<char>, cmd: SpecCommand)
    ensures
        cmd matches SpecCommand::CreateCharacter { name, body_color, face_color } ==> (create_character(
            e,
            cid,
            name,
            body_color,
            face_color,
        ).1 is Err ==> create_character(e, cid, name, body_color, face_color).0 == e),
        cmd matches SpecCommand::Move { mode } ==> (start_move(e, cid, mode).1 is Err ==> start_move(
            e,
            cid,
            mode,
        ).0 == e),
        cmd matches SpecCommand::Say { target, text } ==> (say(e, cid, target, text).1 is Err ==> say(
            e,
            cid,
            target,
            text,
        ).0 == e),
        cmd matches SpecCommand::Order { service_id, item } ==> (start_order(
            e,
            cid,
            service_id,
            item,
            false,
        ).1 is Err ==> start_order(e, cid, service_id, item, false).0 == e),
        cmd matches SpecCommand::Queue { actions } ==> (accept_queue(e, cid, actions).1 is Err
            ==> accept_queue(e, cid, actions).0 == e),
        cmd matches SpecCommand::Home { action } ==> (action != crate::protocol::HomeAction::Leave
            && home_action(e, cid, action).1 is Err ==> home_action(e, cid, action).0 == e),
        cmd matches SpecCommand::Notifications { action } ==> (notification_action(e, cid, action).1 is Err
            ==> notification_action(e, cid, action).0 == e),
{
}

/// Movement takes time: a move that starts leaves the character where it
/// is, busy with a moving activity due `MOVE_BASE_TICKS` later, and
/// completing that activity puts the character at the move's target.
pub proof fn law_moves_take_time(e: SpecEngine, cid: Seq<char>, mode: crate::protocol::SpecMoveMode)
    requires
        keys_sorted(e.state.characters),
    ensures
        start_move(e, cid, mode).1 is Ok ==> {
            let e1 = start_move(e, cid, mode).0;
            let target = resolve_move_target(e.state, cid, mode)->Ok_0;
            &&& char_of(e1, cid).location_id == char_of(e, cid).location_id
            &&& char_of(e1, cid).current_activity matches Some(a) && a.kind
                == crate::protocol::ActivityKind::Moving && a.target_id == Some(target)
                && a.completes_at_tick == e.state.tick.wrapping_add(model::MOVE_BASE_TICKS)
                && char_of(complete_activity(e1, cid, a), cid).location_id == target
        },
{
    broadcast use group_engine_steps, lemma_next_activity_id;

    if start_move(e, cid, mode).1 is Ok {
        let e1 = start_move(e, cid, mode).0;
        assert(has_key(e1.state.characters, cid));
    }
}

// ---------------------------------------------------------------- freshness

/// A command based on an observation that is no longer valid, or on a local
/// state that has since changed, is rejected: the only change to the engine
/// is the `CommandRejected` event, and nothing is logged for replay.
pub proof fn law_stale_commands_are_rejected(e: SpecEngine, env: SpecEnvelope)
    requires
        (env.valid_until_tick matches Some(t) && e.state.tick > t) || (
        env.local_state_hash matches Some(h) && require_character(e.state, env.character_id) matches Ok(
            actor,
        ) && h != local_state_hash(e.state, actor)),
    ensures
        !apply(e, env).1.ok,
        apply(e, env).1.error matches Some(err) && (err.code == "stale_command"@ || err.code
            == "local_state_changed"@),
        apply(e, env).0 == record(
            e,
            SpecEventKind::CommandRejected {
                character_id: env.character_id,
                code: apply(e, env).1.error->Some_0.code,
            },
        ),
{
    assert(check_freshness(e.state, env) is Err);
}

/// A command built from a fresh observation passes the freshness checks:
/// sent before anything else changes the engine, with the observation's
/// validity window and local state hash, it is neither stale nor based on a
/// changed local state (as long as the window does not pass the clock's
/// limit).
pub proof fn law_fresh_observation_passes_freshness(e: SpecEngine, env: SpecEnvelope)
    requires
        observe(e, env.character_id) matches Ok(o) && env.valid_until_tick == Some(
            o.valid_until_tick,
        ) && env.local_state_hash == Some(o.local_state_hash),
        e.state.tick + model::DEFAULT_OBSERVATION_TTL_TICKS <= u64::MAX,
    ensures
        check_freshness(e.state, env) is Ok,
{
}

/// The envelope `env` without the observation it was based on.
pub open spec fn without_freshness(env: SpecEnvelope) -> SpecEnvelope {
    SpecEnvelope { valid_until_tick: None, local_state_hash: None, ..env }
}

/// A command built from a fresh observation is handled exactly as if it
/// carried no freshness data at all: sent before anything else changes the
/// engine, with the observation's validity window and local state hash, it
/// is never refused as stale or as based on a changed local state (as long
/// as the window does not pass the clock's limit).
pub proof fn law_fresh_commands_are_not_refused_as_stale(e: SpecEngine, env: SpecEnvelope)
    requires
        observe(e, env.character_id) matches Ok(o) && env.valid_until_tick == Some(
            o.valid_until_tick,
        ) && env.local_state_hash == Some(o.local_state_hash),
        e.state.tick + model::DEFAULT_OBSERVATION_TTL_TICKS <= u64::MAX,
    ensures
        apply_inner(e, env) == apply_inner(e, without_freshness(env)),
        apply(e, env).1 == apply(e, without_freshness(env)).1,
{
    law_fresh_observation_passes_freshness(e, env);
}

/// Through `apply`, acknowledging a character's own notification succeeds,
/// marks it and takes it off the unacknowledged list; acknowledging it again
/// also succeeds and leaves the notifications unchanged; and listing answers
/// exactly the character's unacknowledged notifications.
pub proof fn law_acknowledging_through_apply(e: SpecEngine, env: SpecEnvelope, nid: Seq<char>)
    requires
        keys_sorted(e.state.characters),
        keys_sorted(e.state.notifications),
        lookup(e.state.characters, env.character_id) matches Some(c) && model::location(
            e.state,
            c.location_id,
        ) is Some,
        lookup(e.state.notifications, nid) matches Some(n) && n.character_id == env.character_id,
        env.valid_until_tick is None,
        env.local_state_hash is None,
        env.preconditions.len() == 0,
        env.command == (SpecCommand::Notifications {
            action: crate::protocol::SpecNotificationAction::Ack { notification_id: nid },
        }),
    ensures
        ({
            let (e1, r1) = apply(e, env);
            let (e2, r2) = apply(e1, env);
            &&& r1.ok
            &&& lookup(e1.state.notifications, nid) matches Some(n1) && n1.acknowledged
                && !notifications_for(e1.state.notifications, env.character_id, false).contains(n1)
            &&& r2.ok
            &&& e2.state.notifications == e1.state.notifications
        }),
        ({
            let list = SpecEnvelope {
                command: SpecCommand::Notifications {
                    action: crate::protocol::SpecNotificationAction::List,
                },
                ..env
            };
            &&& apply(e, list).1.ok
            &&& apply(e, list).1.result == Some(
                SpecCommandResult::Notifications {
                    notifications: notifications_for(e.state.notifications, env.character_id, false),
                },
            )
        }),
{
    broadcast use group_engine_steps;

    let cid = env.character_id;
    let t = touch_actor(e, cid);
    assert(t.state.notifications == e.state.notifications);
    law_acknowledging_is_idempotent(t, cid, nid);
    let e1 = apply(e, env).0;
    assert(e1.state.notifications == notification_action(
        t,
        cid,
        crate::protocol::SpecNotificationAction::Ack { notification_id: nid },
    ).0.state.notifications);
    assert(keys_sorted(e1.state.characters));
    let t1 = touch_actor(e1, cid);
    assert(t1.state.notifications == e1.state.notifications);
    law_acknowledging_is_idempotent(t1, cid, nid);
}

// ---------------------------------------------------------------- queues

/// A queue is accepted only with one to three actions, and only when the
/// character can set aside, beyond what it already holds in reserve, the
/// coins that all of the queue's orders will cost; that amount is what the
/// acceptance reports as reserved.
pub proof fn law_queue_acceptance(e: SpecEngine, cid: Seq<char>, actions: Seq<SpecQueueableCommand>)
    ensures
        accept_queue(e, cid, actions).1 matches Ok(r) ==> {
            &&& 1 <= actions.len() <= MAX_QUEUE_LEN
            &&& required_queue_reservation(e.state, cid, actions) matches Ok(reserve)
            &&& char_of(e, cid).coins.saturating_sub(char_of(e, cid).reserved_coins) >= reserve
            &&& r == SpecCommandResult::QueueAccepted {
                queued_count: actions.len() as usize,
                reserved_coins: reserve,
            }
        },
        actions.len() > MAX_QUEUE_LEN ==> accept_queue(e, cid, actions).1 is Err,
{
}

/// The character `cid` is still there in `e2`, with the queue it had in `e1`.
pub open spec fn queue_kept(e1: SpecEngine, e2: SpecEngine, cid: Seq<char>) -> bool {
    has_key(e1.state.characters, cid) ==> (lookup(e2.state.characters, cid) matches Some(c2)
        && c2.queued_commands == char_of(e1, cid).queued_commands)
}

pub broadcast proof fn lemma_start_move_queue(e: SpecEngine, cid: Seq<char>, mode: crate::protocol::SpecMoveMode)
    requires
        keys_sorted(e.state.characters),
    ensures
        queue_kept(e, #[trigger] start_move(e, cid, mode).0, cid),
{
    broadcast use group_engine_steps, lemma_next_activity_id, lemma_next_promise_id;

}

pub broadcast proof fn lemma_run_queued_queue(e: SpecEngine, cid: Seq<char>, c: SpecQueueableCommand)
    requires
        keys_sorted(e.state.characters),
    ensures
        queue_kept(e, #[trigger] run_queued(e, cid, c).0, cid),
{
    broadcast use group_engine_steps, lemma_next_activity_id, lemma_next_promise_id,
        lemma_start_move_queue;

}

/// `a` is what is left of the queue `q` once some of its first commands are gone.
pub open spec fn queue_suffix(a: Seq<SpecQueueableCommand>, q: Seq<SpecQueueableCommand>) -> bool {
    exists|k: int| 0 <= k <= q.len() && a == q.subrange(k, q.len() as int)
}

proof fn lemma_steps_stay(e: SpecEngine, cid: Seq<char>, n: nat)
    requires
        queue_step(e, cid) == e,
    ensures
        run_queue_steps(e, cid, n) == e,
    decreases n,
{
    if n > 0 {
        lemma_steps_stay(e, cid, (n - 1) as nat);
    }
}

proof fn lemma_steps_after_first(e: SpecEngine, cid: Seq<char>, n: nat)
    requires
        n >= 1,
        lookup(queue_step(e, cid).state.characters, cid) matches Some(c) && c.queued_commands.len()
            == 0,
    ensures
        run_queue_steps(e, cid, n) == queue_step(e, cid),
    decreases n,
{
    let f = queue_step(e, cid);
    assert(queue_step(f, cid) == f);
    if n > 1 {
        lemma_steps_after_first(e, cid, (n - 1) as nat);
    } else {
        assert(run_queue_steps(e, cid, 0) == e);
    }
}

/// One queue step of a free character with a queue leaves it there, with
/// its queue one command shorter, or empty when the step failed.
proof fn lemma_one_queue_step(st: SpecEngine, cid: Seq<char>)
    requires
        keys_sorted(st.state.characters),
        lookup(st.state.characters, cid) matches Some(cs) && cs.current_activity is None
            && cs.queued_commands.len() > 0,
    ensures
        lookup(queue_step(st, cid).state.characters, cid) matches Some(f) && (f.queued_commands
            == lookup(st.state.characters, cid)->Some_0.queued_commands.drop_first()
            || f.queued_commands.len() == 0),
{
    broadcast use group_engine_steps, lemma_run_queued_queue, lemma_release;

    let cs = lookup(st.state.characters, cid)->Some_0;
    let rest = cs.queued_commands.drop_first();
    let e1 = record(
        set_character(st, cid, SpecCharacter { queued_commands: rest, ..cs }),
        SpecEventKind::QueueStepStarted { character_id: cid, remaining: rest.len() as usize },
    );
    assert(char_of(e1, cid).queued_commands == rest);
    let e2 = run_queued(e1, cid, cs.queued_commands[0]).0;
    assert(lookup(e2.state.characters, cid) matches Some(c2) && c2.queued_commands == rest);
    if run_queued(e1, cid, cs.queued_commands[0]).1 is Err {
        let e3 = release_all_reservations(e2, cid);
        assert(has_key(e3.state.characters, cid));
    }
}

proof fn lemma_queue_progress(
    e: SpecEngine,
    cid: Seq<char>,
    q: Seq<SpecQueueableCommand>,
    m: nat,
)
    requires
        keys_sorted(e.state.characters),
        lookup(e.state.characters, cid) matches Some(c) && c.queued_commands == q,
        m <= q.len(),
    ensures
        keys_sorted(run_queue_steps(e, cid, m).state.characters),
        lookup(run_queue_steps(e, cid, m).state.characters, cid) matches Some(cm) && queue_suffix(
            cm.queued_commands,
            q,
        ) && (cm.current_activity is None && cm.queued_commands.len() > 0
            ==> cm.queued_commands.len() + m <= q.len()),
    decreases m,
{
    if m == 0 {
        assert(run_queue_steps(e, cid, 0) == e);
        assert(q == q.subrange(0, q.len() as int));
    } else {
        lemma_queue_progress(e, cid, q, (m - 1) as nat);
        let st = run_queue_steps(e, cid, (m - 1) as nat);
        crate::ticks::lemma_queue_step_frame(st, cid);
        let cs = lookup(st.state.characters, cid)->Some_0;
        let k = choose|k: int|
            0 <= k <= q.len() && cs.queued_commands == q.subrange(k, q.len() as int);
        if cs.current_activity is None && cs.queued_commands.len() > 0 {
            lemma_one_queue_step(st, cid);
            let f = lookup(queue_step(st, cid).state.characters, cid)->Some_0;
            assert(run_queue_steps(e, cid, m) == queue_step(st, cid));
            if f.queued_commands == cs.queued_commands.drop_first() {
                assert(f.queued_commands =~= q.subrange(k + 1, q.len() as int));
            } else {
                assert(f.queued_commands =~= q.subrange(q.len() as int, q.len() as int));
            }
        } else {
            assert(queue_step(st, cid) == st);
        }
    }
}

/// Queues run their steps in order and never stall: while the character is
/// busy its queue waits untouched; once it is free, queued commands start one
/// after another, first to last, until one starts an activity that takes
/// time (the rest stay queued behind it), one fails (the rest are dropped),
/// or none is left.
pub proof fn law_queue_never_stalls(e: SpecEngine, cid: Seq<char>)
    requires
        keys_sorted(e.state.characters),
        has_key(e.state.characters, cid),
    ensures
        char_of(e, cid).current_activity is Some ==> start_next_queue_step(e, cid) == e,
        lookup(start_next_queue_step(e, cid).state.characters, cid) matches Some(c2) && queue_suffix(
            c2.queued_commands,
            char_of(e, cid).queued_commands,
        ) && (c2.queued_commands.len() > 0 ==> c2.current_activity is Some),
{
    let c = char_of(e, cid);
    if c.current_activity is Some {
        assert(queue_step(e, cid) == e);
        lemma_steps_stay(e, cid, c.queued_commands.len());
    }
    lemma_queue_progress(e, cid, c.queued_commands, c.queued_commands.len());
}

/// Acknowledging is idempotent: a character's own notification, once
/// acknowledged, is marked so and drops out of its unacknowledged list, every
/// other notification stays as it was, and acknowledging it again succeeds
/// and leaves the notifications unchanged.
pub proof fn law_acknowledging_is_idempotent(e: SpecEngine, cid: Seq<char>, nid: Seq<char>)
    requires
        keys_sorted(e.state.notifications),
        has_key(e.state.characters, cid),
        lookup(e.state.notifications, nid) matches Some(n) && n.character_id == cid,
    ensures
        ({
            let act = crate::protocol::SpecNotificationAction::Ack { notification_id: nid };
            let (e1, r1) = notification_action(e, cid, act);
            let (e2, r2) = notification_action(e1, cid, act);
            &&& r1 is Ok
            &&& lookup(e1.state.notifications, nid) matches Some(n1) && n1.acknowledged && n1
                == (SpecNotification { acknowledged: true, ..lookup(e.state.notifications, nid)->Some_0 })
            &&& forall|k: Seq<char>|
                k != nid ==> #[trigger] lookup(e1.state.notifications, k) == lookup(
                    e.state.notifications,
                    k,
                )
            &&& !notifications_for(e1.state.notifications, cid, false).contains(
                lookup(e1.state.notifications, nid)->Some_0,
            )
            &&& r2 is Ok
            &&& e2.state.notifications == e1.state.notifications
        }),
{
    let act = crate::protocol::SpecNotificationAction::Ack { notification_id: nid };
    let n = lookup(e.state.notifications, nid)->Some_0;
    let n1 = SpecNotification { acknowledged: true, ..n };
    lemma_map_insert(e.state.notifications, nid, n1);
    let e1 = notification_action(e, cid, act).0;
    let s1 = e1.state.notifications;
    assert(s1 == map_insert(e.state.notifications, nid, n1));
    lemma_notifications_for(s1, cid);
    let listed = notifications_for(s1, cid, false);
    if listed.contains(n1) {
        let j = choose|j: int| 0 <= j < listed.len() && listed[j] == n1;
        assert(!listed[j].acknowledged);
    }
    assert(has_key(s1, nid));
    let i = key_index(s1, nid);
    assert(s1[i] == (nid, n1));
    assert(map_insert(s1, nid, n1) =~= s1);
}

// ---------------------------------------------------------------- observations

/// `id` names something the actor can perceive from where it stands:
/// another character at its location, a service there, or an exit.
pub open spec fn perceivable(st: SpecSnapshot, actor: SpecCharacter, exits: Seq<Seq<char>>, id: Seq<char>) -> bool {
    ||| exists|i: int|
        #![trigger st.characters[i]]
        0 <= i < st.characters.len() && st.characters[i].1.id == id
            && st.characters[i].1.location_id == actor.location_id && id != actor.id
    ||| exists|i: int|
        #![trigger st.world.services[i]]
        0 <= i < st.world.services.len() && st.world.services[i].id == id
            && st.world.services[i].location_id == actor.location_id
    ||| exits.contains(id)
}

proof fn lemma_nearby_characters(cs: Seq<(Seq<char>, SpecCharacter)>, actor: SpecCharacter)
    ensures
        forall|k: int|
            0 <= k < nearby_characters(cs, actor).len() ==> exists|i: int|
                #![trigger cs[i]]
                0 <= i < cs.len() && cs[i].1.id == (#[trigger] nearby_characters(cs, actor)[k]).id
                    && cs[i].1.location_id == actor.location_id && cs[i].1.id != actor.id,
    decreases cs.len(),
{
    if cs.len() > 0 {
        let d = cs.drop_last();
        lemma_nearby_characters(d, actor);
        let r = nearby_characters(cs, actor);
        let rest = nearby_characters(d, actor);
        assert forall|k: int| 0 <= k < r.len() implies exists|i: int|
            #![trigger cs[i]]
            0 <= i < cs.len() && cs[i].1.id == (#[trigger] r[k]).id && cs[i].1.location_id
                == actor.location_id && cs[i].1.id != actor.id by {
            if k < rest.len() {
                assert(r[k] == rest[k]);
                let i = choose|i: int|
                    #![trigger d[i]]
                    0 <= i < d.len() && d[i].1.id == rest[k].id && d[i].1.location_id
                        == actor.location_id && d[i].1.id != actor.id;
                assert(cs[i] == d[i]);
            } else {
                assert(cs[cs.len() - 1] == cs.last());
            }
        }
    }
}

proof fn lemma_nearby_services(ss: Seq<SpecService>, loc: Seq<char>)
    ensures
        forall|k: int|
            0 <= k < nearby_services(ss, loc).len() ==> exists|i: int|
                #![trigger ss[i]]
                0 <= i < ss.len() && ss[i].id == (#[trigger] nearby_services(ss, loc)[k]).id
                    && ss[i].location_id == loc,
    decreases ss.len(),
{
    if ss.len() > 0 {
        let d = ss.drop_last();
        lemma_nearby_services(d, loc);
        let r = nearby_services(ss, loc);
        let rest = nearby_services(d, loc);
        assert forall|k: int| 0 <= k < r.len() implies exists|i: int|
            #![trigger ss[i]]
            0 <= i < ss.len() && ss[i].id == (#[trigger] r[k]).id && ss[i].location_id == loc by {
            if k < rest.len() {
                assert(r[k] == rest[k]);
                let i = choose|i: int|
                    #![trigger d[i]]
                    0 <= i < d.len() && d[i].id == rest[k].id && d[i].location_id == loc;
                assert(ss[i] == d[i]);
            } else {
                assert(ss[ss.len() - 1] == ss.last());
            }
        }
    }
}

proof fn lemma_exit_views(st: SpecSnapshot, exits: Seq<Seq<char>>)
    ensures
        exit_views(st, exits).len() == exits.len(),
        forall|k: int| 0 <= k < exits.len() ==> (#[trigger] exit_views(st, exits)[k]).id == exits[k],
    decreases exits.len(),
{
    if exits.len() > 0 {
        lemma_exit_views(st, exits.drop_last());
        let r = exit_views(st, exits);
        assert forall|k: int| 0 <= k < exits.len() implies (#[trigger] r[k]).id == exits[k] by {
            if k < exits.len() - 1 {
                assert(r[k] == exit_views(st, exits.drop_last())[k]);
                assert(exits.drop_last()[k] == exits[k]);
            }
        }
    }
}

proof fn lemma_visible_conversations(
    st: SpecSnapshot,
    convs: Seq<(Seq<char>, SpecConversation)>,
    actor: SpecCharacter,
)
    ensures
        forall|k: int|
            0 <= k < visible_conversations(st, convs, actor).len() ==> conversation_visible(
                st,
                actor,
                #[trigger] visible_conversations(st, convs, actor)[k],
            ),
    decreases convs.len(),
{
    if convs.len() > 0 {
        lemma_visible_conversations(st, convs.drop_last(), actor);
        let r = visible_conversations(st, convs, actor);
        let rest = visible_conversations(st, convs.drop_last(), actor);
        assert forall|k: int| 0 <= k < r.len() implies conversation_visible(st, actor, #[trigger] r[k]) by {
            if k < rest.len() {
                assert(r[k] == rest[k]);
            }
        }
    }
}

proof fn lemma_notifications_for(ns: Seq<(Seq<char>, SpecNotification)>, cid: Seq<char>)
    ensures
        forall|k: int|
            0 <= k < notifications_for(ns, cid, false).len() ==> (#[trigger] notifications_for(
                ns,
                cid,
                false,
            )[k]).character_id == cid && !notifications_for(ns, cid, false)[k].acknowledged,
    decreases ns.len(),
{
    if ns.len() > 0 {
        lemma_notifications_for(ns.drop_last(), cid);
        let r = notifications_for(ns, cid, false);
        let rest = notifications_for(ns.drop_last(), cid, false);
        assert forall|k: int| 0 <= k < r.len() implies (#[trigger] r[k]).character_id == cid
            && !r[k].acknowledged by {
            if k < rest.len() {
                assert(r[k] == rest[k]);
            }
        }
    }
}

/// An observation is scoped to the acting character: every entity it lists
/// is one the actor can perceive from its location, every conversation it
/// shows has a participant there, and every notification it carries is the
/// actor's own and still unacknowledged.
pub proof fn law_observation_is_local(e: SpecEngine, cid: Seq<char>)
    ensures
        observe(e, cid) matches Ok(o) ==> {
            &&& lookup(e.state.characters, cid) == Some(o.actor)
            &&& forall|k: int|
                0 <= k < o.nearby_entities.len() ==> perceivable(
                    e.state,
                    o.actor,
                    o.location.exits,
                    (#[trigger] o.nearby_entities[k]).id,
                )
            &&& forall|k: int|
                0 <= k < o.conversations.len() ==> conversation_visible(
                    e.state,
                    o.actor,
                    #[trigger] o.conversations[k],
                )
            &&& forall|k: int|
                0 <= k < o.notifications.len() ==> (#[trigger] o.notifications[k]).character_id
                    == cid && !o.notifications[k].acknowledged
        },
{
    if observe(e, cid) is Ok {
        let o = observe(e, cid)->Ok_0;
        let st = e.state;
        let actor = o.actor;
        let chars = nearby_characters(st.characters, actor);
        let svcs = nearby_services(st.world.services, actor.location_id);
        let exits = exit_views(st, o.location.exits);
        lemma_nearby_characters(st.characters, actor);
        lemma_nearby_services(st.world.services, actor.location_id);
        lemma_exit_views(st, o.location.exits);
        lemma_visible_conversations(st, st.conversations, actor);
        lemma_notifications_for(st.notifications, cid);
        assert(o.nearby_entities == chars + svcs + exits);
        assert forall|k: int| 0 <= k < o.nearby_entities.len() implies perceivable(
            st,
            actor,
            o.location.exits,
            (#[trigger] o.nearby_entities[k]).id,
        ) by {
            let v = o.nearby_entities[k];
            if k < chars.len() {
                assert(v == chars[k]);
            } else if k < chars.len() + svcs.len() {
                assert(v == svcs[k - chars.len()]);
            } else {
                let j = k - chars.len() - svcs.len();
                assert(v == exits[j]);
                assert(o.location.exits[j] == v.id);
            }
        }
    }
}

/// The character's next queued step, once started, fails.
pub open spec fn queue_step_fails(e: SpecEngine, cid: Seq<char>) -> bool {
    match lookup(e.state.characters, cid) {
        Some(c) => c.current_activity is None && c.queued_commands.len() > 0 && {
            let rest = c.queued_commands.drop_first();
            let e1 = record(
                set_character(e, cid, SpecCharacter { queued_commands: rest, ..c }),
                SpecEventKind::QueueStepStarted { character_id: cid, remaining: rest.len() as usize },
            );
            run_queued(e1, cid, c.queued_commands[0]).1 is Err
        },
        None => false,
    }
}

/// When a queued step fails, the character's remaining queue is dropped,
/// all of its reserved coins are released, and the failure is the last event.
pub proof fn law_failed_queue_step_releases(e: SpecEngine, cid: Seq<char>)
    requires
        engine_ok(e),
        queue_step_fails(e, cid),
    ensures
        char_of(start_next_queue_step(e, cid), cid).reserved_coins == 0,
        char_of(start_next_queue_step(e, cid), cid).queued_commands.len() == 0,
        start_next_queue_step(e, cid).events.last().kind is QueueStepFailed,
{
    broadcast use group_engine_steps, lemma_run_queued;

    let c = lookup(e.state.characters, cid)->Some_0;
    let rest = c.queued_commands.drop_first();
    let e1 = record(
        set_character(e, cid, SpecCharacter { queued_commands: rest, ..c }),
        SpecEventKind::QueueStepStarted { character_id: cid, remaining: rest.len() as usize },
    );
    let e2 = run_queued(e1, cid, c.queued_commands[0]).0;
    assert(has_key(e2.state.characters, cid));
    let e3 = release_all_reservations(e2, cid);
    assert(lookup(e3.state.characters, cid) is Some);
    assert(char_of(e3, cid).reserved_coins == 0);
    assert(lookup(queue_step(e, cid).state.characters, cid) matches Some(f) && f.queued_commands.len()
        == 0);
    lemma_steps_after_first(e, cid, c.queued_commands.len());
}

} // verus!
