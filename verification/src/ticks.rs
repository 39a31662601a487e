//! What the clock does to one character: what happens to others leaves it
//! alone, and a move that falls due ends with the character at its target.
use vstd::prelude::*;
use crate::model::{
    char_of, start_move, start_wait_activity, say, start_order, home_action, run_queued,
    release_all_reservations, start_next_queue_step, queue_step, run_queue_steps, complete_activity, complete_one,
    complete_all, send_home, send_all_home, tick_once, run_ticks, advance_ticks, due_ids,
    inactive_ids, should_return_home, SpecEngine,
};
use crate::protocol::{SpecCharacter, SpecQueueableCommand, Tick, ActivityKind};
use crate::strmap::{lookup, has_key, key_index, keys_sorted, lemma_key_index};
use crate::laws::{
    lemma_record, lemma_set_character, lemma_next_activity_id, lemma_next_promise_id,
    lemma_create_notification,
};

verus! {

/// Every character but `cid` is the same in `e2` as in `e1`, and the
/// characters stay ordered by id.
pub open spec fn others_kept(e1: SpecEngine, e2: SpecEngine, cid: Seq<char>) -> bool {
    &&& keys_sorted(e2.state.characters)
    &&& forall|k: Seq<char>|
        k != cid ==> #[trigger] lookup(e2.state.characters, k) == lookup(e1.state.characters, k)
}

pub broadcast group group_frame_steps {
    lemma_record,
    lemma_set_character,
    lemma_next_activity_id,
    lemma_next_promise_id,
    lemma_create_notification,
}

pub broadcast proof fn lemma_release_frame(e: SpecEngine, cid: Seq<char>)
    requires
        keys_sorted(e.state.characters),
    ensures
        others_kept(e, #[trigger] release_all_reservations(e, cid), cid),
{
    broadcast use group_frame_steps;

}

pub broadcast proof fn lemma_start_move_frame(
    e: SpecEngine,
    cid: Seq<char>,
    mode: crate::protocol::SpecMoveMode,
)
    requires
        keys_sorted(e.state.characters),
    ensures
        others_kept(e, #[trigger] start_move(e, cid, mode).0, cid),
{
    broadcast use group_frame_steps;

}

pub broadcast proof fn lemma_start_wait_frame(e: SpecEngine, cid: Seq<char>, ticks: Tick)
    requires
        keys_sorted(e.state.characters),
    ensures
        others_kept(e, #[trigger] start_wait_activity(e, cid, ticks).0, cid),
{
    broadcast use group_frame_steps;

}

pub broadcast proof fn lemma_say_frame(
    e: SpecEngine,
    cid: Seq<char>,
    target: crate::protocol::SpecSpeechTarget,
    text: Seq<char>,
)
    requires
        keys_sorted(e.state.characters),
    ensures
        others_kept(e, #[trigger] say(e, cid, target, text).0, cid),
{
    broadcast use group_frame_steps;

}

pub broadcast proof fn lemma_start_order_frame(
    e: SpecEngine,
    cid: Seq<char>,
    sid: Seq<char>,
    item: Seq<char>,
    reserved: bool,
)
    requires
        keys_sorted(e.state.characters),
    ensures
        others_kept(e, #[trigger] start_order(e, cid, sid, item, reserved).0, cid),
{
    broadcast use group_frame_steps;

}

pub broadcast proof fn lemma_home_action_frame(
    e: SpecEngine,
    cid: Seq<char>,
    a: crate::protocol::HomeAction,
)
    requires
        keys_sorted(e.state.characters),
    ensures
        others_kept(e, #[trigger] home_action(e, cid, a).0, cid),
{
    broadcast use group_frame_steps, lemma_start_move_frame;

}

pub broadcast proof fn lemma_run_queued_frame(e: SpecEngine, cid: Seq<char>, c: SpecQueueableCommand)
    requires
        keys_sorted(e.state.characters),
    ensures
        others_kept(e, #[trigger] run_queued(e, cid, c).0, cid),
{
    broadcast use lemma_start_move_frame, lemma_say_frame, lemma_start_order_frame,
        lemma_start_wait_frame, lemma_home_action_frame;

}

pub broadcast proof fn lemma_queue_step_frame(e: SpecEngine, cid: Seq<char>)
    requires
        keys_sorted(e.state.characters),
    ensures
        others_kept(e, #[trigger] queue_step(e, cid), cid),
{
    broadcast use group_frame_steps, lemma_run_queued_frame, lemma_release_frame;

}

pub proof fn lemma_run_queue_steps_frame(e: SpecEngine, cid: Seq<char>, n: nat)
    requires
        keys_sorted(e.state.characters),
    ensures
        others_kept(e, run_queue_steps(e, cid, n), cid),
    decreases n,
{
    if n > 0 {
        lemma_run_queue_steps_frame(e, cid, (n - 1) as nat);
        lemma_queue_step_frame(run_queue_steps(e, cid, (n - 1) as nat), cid);
    }
}

pub broadcast proof fn lemma_start_next_queue_step_frame(e: SpecEngine, cid: Seq<char>)
    requires
        keys_sorted(e.state.characters),
    ensures
        others_kept(e, #[trigger] start_next_queue_step(e, cid), cid),
{
    if lookup(e.state.characters, cid) is Some {
        lemma_run_queue_steps_frame(e, cid, lookup(e.state.characters, cid)->Some_0.queued_commands.len());
    }
}

pub broadcast proof fn lemma_complete_activity_frame(
    e: SpecEngine,
    cid: Seq<char>,
    a: crate::protocol::SpecActivity,
)
    requires
        keys_sorted(e.state.characters),
    ensures
        others_kept(e, #[trigger] complete_activity(e, cid, a), cid),
{
    broadcast use group_frame_steps;

}

pub broadcast proof fn lemma_complete_one_frame(e: SpecEngine, cid: Seq<char>)
    requires
        keys_sorted(e.state.characters),
    ensures
        others_kept(e, #[trigger] complete_one(e, cid), cid),
{
    broadcast use lemma_complete_activity_frame, lemma_start_next_queue_step_frame;

}

pub broadcast proof fn lemma_send_home_frame(e: SpecEngine, cid: Seq<char>)
    requires
        keys_sorted(e.state.characters),
    ensures
        others_kept(e, #[trigger] send_home(e, cid), cid),
{
    broadcast use group_frame_steps;

}

pub proof fn lemma_send_all_home_frame(e: SpecEngine, ids: Seq<Seq<char>>, cid: Seq<char>)
    requires
        keys_sorted(e.state.characters),
        !ids.contains(cid),
    ensures
        keys_sorted(send_all_home(e, ids).state.characters),
        lookup(send_all_home(e, ids).state.characters, cid) == lookup(e.state.characters, cid),
    decreases ids.len(),
{
    if ids.len() > 0 {
        let d = ids.drop_last();
        assert(!d.contains(cid)) by {
            if d.contains(cid) {
                let j = choose|j: int| 0 <= j < d.len() && d[j] == cid;
                assert(ids[j] == cid);
            }
        }
        lemma_send_all_home_frame(e, d, cid);
        assert(ids.last() != cid) by {
            assert(ids[ids.len() - 1] == ids.last());
        }
        lemma_send_home_frame(send_all_home(e, d), ids.last());
    }
}

/// Where a key's entry stands in a sequence ordered by key.
proof fn lemma_lookup_at<T>(s: Seq<(Seq<char>, T)>, k: Seq<char>)
    requires
        keys_sorted(s),
        has_key(s, k),
    ensures
        0 <= key_index(s, k) < s.len(),
        s[key_index(s, k)].0 == k,
        lookup(s, k) == Some(s[key_index(s, k)].1),
{
}

/// A character whose activity is due by `tick` is among the due ids.
pub proof fn lemma_due_ids_contains(
    cs: Seq<(Seq<char>, SpecCharacter)>,
    tick: Tick,
    cid: Seq<char>,
)
    requires
        keys_sorted(cs),
        lookup(cs, cid) matches Some(c) && c.current_activity matches Some(a)
            && a.completes_at_tick <= tick,
    ensures
        due_ids(cs, tick).contains(cid),
    decreases cs.len(),
{
    let i = key_index(cs, cid);
    lemma_lookup_at(cs, cid);
    let r = due_ids(cs, tick);
    if i == cs.len() - 1 {
        assert(cs.last() == cs[i]);
        assert(r[r.len() - 1] == cid);
    } else {
        let d = cs.drop_last();
        assert(keys_sorted(d));
        assert(d[i] == cs[i]);
        lemma_key_index(d, i);
        lemma_due_ids_contains(d, tick, cid);
        let rest = due_ids(d, tick);
        let j = choose|j: int| 0 <= j < rest.len() && rest[j] == cid;
        assert(r[j] == rest[j]);
    }
}

/// Every due id belongs to an entry whose activity is due.
pub proof fn lemma_due_ids_are_due(cs: Seq<(Seq<char>, SpecCharacter)>, tick: Tick, k: Seq<char>)
    requires
        due_ids(cs, tick).contains(k),
    ensures
        exists|i: int|
            #![trigger cs[i]]
            0 <= i < cs.len() && cs[i].0 == k && (cs[i].1.current_activity matches Some(a)
                && a.completes_at_tick <= tick),
    decreases cs.len(),
{
    let d = cs.drop_last();
    let r = due_ids(cs, tick);
    let rest = due_ids(d, tick);
    let j = choose|j: int| 0 <= j < r.len() && r[j] == k;
    if j < rest.len() {
        assert(rest[j] == r[j]);
        lemma_due_ids_are_due(d, tick, k);
        let i = choose|i: int|
            #![trigger d[i]]
            0 <= i < d.len() && d[i].0 == k && (d[i].1.current_activity matches Some(a)
                && a.completes_at_tick <= tick);
        assert(cs[i] == d[i]);
    } else {
        assert(cs[cs.len() - 1] == cs.last());
    }
}

/// Every inactive id belongs to an entry that should go home.
pub proof fn lemma_inactive_ids_should_return(
    cs: Seq<(Seq<char>, SpecCharacter)>,
    tick: Tick,
    k: Seq<char>,
)
    requires
        inactive_ids(cs, tick).contains(k),
    ensures
        exists|i: int|
            #![trigger cs[i]]
            0 <= i < cs.len() && cs[i].0 == k && should_return_home(cs[i].1, tick),
    decreases cs.len(),
{
    let d = cs.drop_last();
    let r = inactive_ids(cs, tick);
    let rest = inactive_ids(d, tick);
    let j = choose|j: int| 0 <= j < r.len() && r[j] == k;
    if j < rest.len() {
        assert(rest[j] == r[j]);
        lemma_inactive_ids_should_return(d, tick, k);
        let i = choose|i: int|
            #![trigger d[i]]
            0 <= i < d.len() && d[i].0 == k && should_return_home(d[i].1, tick);
        assert(cs[i] == d[i]);
    } else {
        assert(cs[cs.len() - 1] == cs.last());
    }
}

/// The character `c0` finished moving to `t`: it stands there with nothing
/// to do, and its agent's clock and its home are as they were.
pub open spec fn arrived(e: SpecEngine, cid: Seq<char>, c0: SpecCharacter, t: Seq<char>) -> bool {
    lookup(e.state.characters, cid) matches Some(c) && c.location_id == t
        && c.current_activity is None && c.queued_commands.len() == 0
        && c.last_agent_action_tick == c0.last_agent_action_tick && c.home_id == c0.home_id
}

/// `c` is on its way to `t`, with nothing queued after.
pub open spec fn moving_to(c: SpecCharacter, t: Seq<char>) -> bool {
    c.current_activity matches Some(a) && a.kind == ActivityKind::Moving && a.target_id == Some(t)
        && c.queued_commands.len() == 0
}

proof fn lemma_complete_all_arrives(
    e: SpecEngine,
    ids: Seq<Seq<char>>,
    cid: Seq<char>,
    c0: SpecCharacter,
    t: Seq<char>,
)
    requires
        keys_sorted(e.state.characters),
        lookup(e.state.characters, cid) == Some(c0),
        moving_to(c0, t),
    ensures
        keys_sorted(complete_all(e, ids).state.characters),
        ids.contains(cid) ==> arrived(complete_all(e, ids), cid, c0, t),
        !ids.contains(cid) ==> lookup(complete_all(e, ids).state.characters, cid) == Some(c0),
    decreases ids.len(),
{
    broadcast use group_frame_steps;

    if ids.len() > 0 {
        let d = ids.drop_last();
        let x = ids.last();
        lemma_complete_all_arrives(e, d, cid, c0, t);
        let mid = complete_all(e, d);
        assert(ids.contains(cid) <==> d.contains(cid) || x == cid) by {
            if ids.contains(cid) && x != cid {
                let j = choose|j: int| 0 <= j < ids.len() && ids[j] == cid;
                assert(j != ids.len() - 1);
                assert(d[j] == cid);
            }
            if d.contains(cid) {
                let j = choose|j: int| 0 <= j < d.len() && d[j] == cid;
                assert(ids[j] == cid);
            }
            if x == cid {
                assert(ids[ids.len() - 1] == cid);
            }
        }
        lemma_complete_one_frame(mid, x);
        if x == cid && !d.contains(cid) {
            let a = c0.current_activity->Some_0;
            let e1 = complete_activity(mid, cid, a);
            assert(lookup(e1.state.characters, cid) matches Some(c1) && c1.location_id == t
                && c1.current_activity is None && c1.queued_commands.len() == 0
                && c1.last_agent_action_tick == c0.last_agent_action_tick && c1.home_id
                == c0.home_id);
        }
    }
}

pub proof fn lemma_send_all_home_keeps_sorted(e: SpecEngine, ids: Seq<Seq<char>>)
    requires
        keys_sorted(e.state.characters),
    ensures
        keys_sorted(send_all_home(e, ids).state.characters),
    decreases ids.len(),
{
    if ids.len() > 0 {
        lemma_send_all_home_keeps_sorted(e, ids.drop_last());
        lemma_send_home_frame(send_all_home(e, ids.drop_last()), ids.last());
    }
}

pub proof fn lemma_complete_all_frame(e: SpecEngine, ids: Seq<Seq<char>>, cid: Seq<char>)
    requires
        keys_sorted(e.state.characters),
        !ids.contains(cid),
    ensures
        keys_sorted(complete_all(e, ids).state.characters),
        lookup(complete_all(e, ids).state.characters, cid) == lookup(e.state.characters, cid),
    decreases ids.len(),
{
    if ids.len() > 0 {
        let d = ids.drop_last();
        assert(!d.contains(cid)) by {
            if d.contains(cid) {
                let j = choose|j: int| 0 <= j < d.len() && d[j] == cid;
                assert(ids[j] == cid);
            }
        }
        lemma_complete_all_frame(e, d, cid);
        assert(ids.last() != cid) by {
            assert(ids[ids.len() - 1] == ids.last());
        }
        lemma_complete_one_frame(complete_all(e, d), ids.last());
    }
}

/// A character that is not due and not sent home is left as it is by a tick.
proof fn lemma_tick_leaves_alone(e: SpecEngine, cid: Seq<char>)
    requires
        keys_sorted(e.state.characters),
        lookup(e.state.characters, cid) matches Some(c) && (c.current_activity matches Some(a)
            ==> a.completes_at_tick > e.state.tick.saturating_add(1)) && !should_return_home(
            c,
            e.state.tick.saturating_add(1),
        ),
    ensures
        keys_sorted(tick_once(e).state.characters),
        lookup(tick_once(e).state.characters, cid) == lookup(e.state.characters, cid),
{
    let e1 = SpecEngine {
        state: crate::protocol::SpecSnapshot { tick: e.state.tick.saturating_add(1), ..e.state },
        ..e
    };
    let ids = due_ids(e1.state.characters, e1.state.tick);
    assert(!ids.contains(cid)) by {
        if ids.contains(cid) {
            lemma_due_ids_are_due(e1.state.characters, e1.state.tick, cid);
            let i = choose|i: int|
                #![trigger e1.state.characters[i]]
                0 <= i < e1.state.characters.len() && e1.state.characters[i].0 == cid && (
                e1.state.characters[i].1.current_activity matches Some(a) && a.completes_at_tick
                    <= e1.state.tick);
            lemma_key_index(e1.state.characters, i);
        }
    }
    lemma_complete_all_frame(e1, ids, cid);
    let e2 = complete_all(e1, ids);
    crate::laws::lemma_complete_all(e1, ids);
    let gone = inactive_ids(e2.state.characters, e2.state.tick);
    assert(!gone.contains(cid)) by {
        if gone.contains(cid) {
            lemma_inactive_ids_should_return(e2.state.characters, e2.state.tick, cid);
            let i = choose|i: int|
                #![trigger e2.state.characters[i]]
                0 <= i < e2.state.characters.len() && e2.state.characters[i].0 == cid
                    && should_return_home(e2.state.characters[i].1, e2.state.tick);
            lemma_key_index(e2.state.characters, i);
        }
    }
    lemma_send_all_home_frame(e2, gone, cid);
}

/// A due move ends in the tick: see `law_due_move_arrives`.
proof fn lemma_tick_arrives(e: SpecEngine, cid: Seq<char>, c0: SpecCharacter, t: Seq<char>)
    requires
        keys_sorted(e.state.characters),
        lookup(e.state.characters, cid) == Some(c0),
        moving_to(c0, t),
        c0.current_activity->Some_0.completes_at_tick <= e.state.tick.saturating_add(1),
        t == c0.home_id || e.state.tick.saturating_add(1).saturating_sub(c0.last_agent_action_tick)
            < crate::protocol::OFFLINE_RETURN_HOME_TICKS,
    ensures
        keys_sorted(tick_once(e).state.characters),
        arrived(tick_once(e), cid, c0, t),
{
    let e1 = SpecEngine {
        state: crate::protocol::SpecSnapshot { tick: e.state.tick.saturating_add(1), ..e.state },
        ..e
    };
    let ids = due_ids(e1.state.characters, e1.state.tick);
    lemma_due_ids_contains(e1.state.characters, e1.state.tick, cid);
    lemma_complete_all_arrives(e1, ids, cid, c0, t);
    let e2 = complete_all(e1, ids);
    crate::laws::lemma_complete_all(e1, ids);
    assert(e2.state.tick == e.state.tick.saturating_add(1));
    let gone = inactive_ids(e2.state.characters, e2.state.tick);
    assert(!gone.contains(cid)) by {
        if gone.contains(cid) {
            lemma_inactive_ids_should_return(e2.state.characters, e2.state.tick, cid);
            let i = choose|i: int|
                #![trigger e2.state.characters[i]]
                0 <= i < e2.state.characters.len() && e2.state.characters[i].0 == cid
                    && should_return_home(e2.state.characters[i].1, e2.state.tick);
            lemma_key_index(e2.state.characters, i);
        }
    }
    lemma_send_all_home_frame(e2, gone, cid);
}

/// A move that falls due in the next tick ends in that tick with the
/// character at its target and idle, unless its agent has been away so long
/// that the character is sent home in the same tick.
pub proof fn law_due_move_arrives(e: SpecEngine, cid: Seq<char>, t: Seq<char>)
    requires
        keys_sorted(e.state.characters),
        lookup(e.state.characters, cid) matches Some(c) && moving_to(c, t)
            && c.current_activity->Some_0.completes_at_tick <= e.state.tick.saturating_add(1)
            && (t == c.home_id || e.state.tick.saturating_add(1).saturating_sub(
            c.last_agent_action_tick,
        ) < crate::protocol::OFFLINE_RETURN_HOME_TICKS),
    ensures
        char_of(tick_once(e), cid).location_id == t,
        char_of(tick_once(e), cid).current_activity is None,
{
    lemma_tick_arrives(e, cid, lookup(e.state.characters, cid)->Some_0, t);
}

proof fn lemma_run_ticks_arrives(
    e: SpecEngine,
    cid: Seq<char>,
    c0: SpecCharacter,
    t: Seq<char>,
    n: nat,
    m: nat,
)
    requires
        keys_sorted(e.state.characters),
        lookup(e.state.characters, cid) == Some(c0),
        moving_to(c0, t),
        m <= n,
        e.state.tick + n <= u64::MAX,
        t == c0.home_id || ((e.state.tick + n) as u64).saturating_sub(c0.last_agent_action_tick)
            < crate::protocol::OFFLINE_RETURN_HOME_TICKS,
    ensures
        keys_sorted(run_ticks(e, m).state.characters),
        run_ticks(e, m).state.tick == e.state.tick + m,
        arrived(run_ticks(e, m), cid, c0, t) || (lookup(run_ticks(e, m).state.characters, cid)
            == Some(c0) && (m == 0 || e.state.tick + m < c0.current_activity->Some_0.completes_at_tick)),
    decreases m,
{
    if m > 0 {
        lemma_run_ticks_arrives(e, cid, c0, t, n, (m - 1) as nat);
        let s = run_ticks(e, (m - 1) as nat);
        crate::laws::lemma_tick_once(s);
        assert(s.state.tick.saturating_add(1) == e.state.tick + m);
        if arrived(s, cid, c0, t) {
            lemma_tick_leaves_alone(s, cid);
        } else if c0.current_activity->Some_0.completes_at_tick <= e.state.tick + m {
            lemma_tick_arrives(s, cid, c0, t);
        } else {
            lemma_tick_leaves_alone(s, cid);
        }
    }
}

/// Movement completes on ticks: once the clock has been advanced to the
/// tick a move is due, the character stands at its target, idle, unless its
/// agent has by then been away so long that it was sent home.
pub proof fn law_move_arrives_on_time(e: SpecEngine, cid: Seq<char>, t: Seq<char>, ticks: Tick)
    requires
        keys_sorted(e.state.characters),
        ticks > 0,
        e.state.tick + ticks <= u64::MAX,
        lookup(e.state.characters, cid) matches Some(c) && moving_to(c, t)
            && c.current_activity->Some_0.completes_at_tick <= e.state.tick + ticks && (t
            == c.home_id || ((e.state.tick + ticks) as u64).saturating_sub(c.last_agent_action_tick)
            < crate::protocol::OFFLINE_RETURN_HOME_TICKS),
    ensures
        char_of(advance_ticks(e, ticks), cid).location_id == t,
        char_of(advance_ticks(e, ticks), cid).current_activity is None,
{
    let c0 = lookup(e.state.characters, cid)->Some_0;
    lemma_run_ticks_arrives(e, cid, c0, t, ticks as nat, ticks as nat);
}
} // verus!
