//! What single actions answer, stated in terms of their inputs: where a
//! directional move leads, who takes part in a conversation, what a queue
//! reserves, what a new character looks like, and what a home's manual says.
use vstd::prelude::*;
use crate::model::{
    SpecEngine, resolve_move_target, say, required_queue_reservation, queue_reservation,
    create_character, home_manual, home_action, location, service, has_location, find_direction,
    insert_unique, start_wait_activity, observe, events_after, char_of,
};
use crate::protocol::{
    Direction, HomeAction, SpecCommandResult, SpecMoveMode, SpecQueueableCommand,
    SpecSnapshot, SpecSpeechTarget, SpecEvent, ActivityKind, Tick,
};
use crate::strmap::{lookup, keys_sorted, lemma_map_insert};
use crate::laws::{lemma_record, lemma_set_character};

verus! {

proof fn lemma_no_direction(d: Seq<(Direction, Seq<char>)>, dir: Direction)
    requires
        forall|i: int| 0 <= i < d.len() ==> (#[trigger] d[i]).0 != dir,
    ensures
        find_direction(d, dir) is None,
    decreases d.len(),
{
    if d.len() > 0 {
        assert forall|i: int| 0 <= i < d.drop_first().len() implies (#[trigger] d.drop_first()[i]).0
            != dir by {
            assert(d.drop_first()[i] == d[i + 1]);
        }
        lemma_no_direction(d.drop_first(), dir);
    }
}

/// Without a directional exit for the direction, a move `Forward` leads to
/// the first of the location's exits and a move `Back` to the last one,
/// provided that exit names an existing location.
pub proof fn law_forward_and_back_follow_the_exit_list(
    st: SpecSnapshot,
    cid: Seq<char>,
    dir: Direction,
    distance: u32,
)
    requires
        distance > 0,
        dir == Direction::Forward || dir == Direction::Back,
        lookup(st.characters, cid) matches Some(actor) && location(st, actor.location_id) matches Some(
            cur,
        ) && cur.exits.len() > 0 && (forall|i: int|
            0 <= i < cur.directional_exits.len() ==> (#[trigger] cur.directional_exits[i]).0 != dir)
            && has_location(
            st.world.locations,
            if dir == Direction::Forward {
                cur.exits[0]
            } else {
                cur.exits[cur.exits.len() - 1]
            },
        ),
    ensures
        ({
            let cur = location(st, lookup(st.characters, cid)->Some_0.location_id)->Some_0;
            resolve_move_target(st, cid, SpecMoveMode::Direction { direction: dir, distance })
                == Ok::<Seq<char>, crate::protocol::SpecApiError>(
                if dir == Direction::Forward {
                    cur.exits[0]
                } else {
                    cur.exits[cur.exits.len() - 1]
                },
            )
        }),
{
    let cur = location(st, lookup(st.characters, cid)->Some_0.location_id)->Some_0;
    lemma_no_direction(cur.directional_exits, dir);
    assert(cur.exits.last() == cur.exits[cur.exits.len() - 1]);
    if dir == Direction::Forward {
        assert(crate::model::seq_contains_str(cur.exits, cur.exits[0]));
    } else {
        assert(crate::model::seq_contains_str(cur.exits, cur.exits[cur.exits.len() - 1]));
    }
}

proof fn lemma_insert_unique(v: Seq<Seq<char>>, x: Seq<char>)
    ensures
        insert_unique(v, x).contains(x),
        forall|y: Seq<char>| v.contains(y) ==> #[trigger] insert_unique(v, x).contains(y),
{
    if !crate::model::seq_contains_str(v, x) {
        let w = v.push(x);
        assert(w[v.len() as int] == x);
        assert forall|y: Seq<char>| v.contains(y) implies #[trigger] insert_unique(v, x).contains(
            y,
        ) by {
            let j = choose|j: int| 0 <= j < v.len() && v[j] == y;
            assert(w[j] == y);
        }
    } else {
        let j = choose|j: int| 0 <= j < v.len() && #[trigger] v[j] == x;
        assert(v[j] == x);
    }
}

/// Speaking joins the conversation of the speaker's location: after a
/// successful `say`, the conversation named in the answer is the one of the
/// speaker's location, and the speaker, and the addressed character when
/// the speech is addressed to one, are among its participants.
pub proof fn law_speakers_and_addressees_join_the_conversation(
    e: SpecEngine,
    cid: Seq<char>,
    target: SpecSpeechTarget,
    text: Seq<char>,
)
    requires
        keys_sorted(e.state.conversations),
    ensures
        say(e, cid, target, text).1 matches Ok(r) ==> {
            let conv_id = "conversation."@ + lookup(e.state.characters, cid)->Some_0.location_id;
            &&& r == SpecCommandResult::MessageSpoken { conversation_id: conv_id }
            &&& lookup(say(e, cid, target, text).0.state.conversations, conv_id) matches Some(conv)
                && conv.participant_ids.contains(cid) && (target matches SpecSpeechTarget::Character(
                tid,
            ) ==> conv.participant_ids.contains(tid))
        },
{
    broadcast use lemma_record;

    if say(e, cid, target, text).1 is Ok {
        let actor = lookup(e.state.characters, cid)->Some_0;
        let conv_id = "conversation."@ + actor.location_id;
        let conv = match lookup(e.state.conversations, conv_id) {
            Some(c) => c,
            None => crate::protocol::SpecConversation {
                id: conv_id,
                participant_ids: Seq::empty(),
                recent_messages: Seq::empty(),
                open: true,
            },
        };
        let with_speaker = insert_unique(conv.participant_ids, cid);
        lemma_insert_unique(conv.participant_ids, cid);
        if let SpecSpeechTarget::Character(tid) = target {
            lemma_insert_unique(with_speaker, tid);
        }
        let participants = match target {
            SpecSpeechTarget::Character(tid) => insert_unique(with_speaker, tid),
            _ => with_speaker,
        };
        let conv2 = crate::protocol::SpecConversation {
            participant_ids: participants,
            recent_messages: crate::model::push_message(
                conv.recent_messages,
                crate::protocol::SpecSpeechMessage { speaker_id: cid, target, text, tick: e.state.tick },
            ),
            ..conv
        };
        lemma_map_insert(e.state.conversations, conv_id, conv2);
    }
}

proof fn lemma_reservation_push(
    st: SpecSnapshot,
    xs: Seq<SpecQueueableCommand>,
    a: SpecQueueableCommand,
    t: u32,
)
    ensures
        queue_reservation(st, xs.push(a), t) == match queue_reservation(st, xs, t) {
            Err(err) => Err(err),
            Ok(r) => queue_reservation(st, seq![a], r),
        },
    decreases xs.len(),
{
    let ys = xs.push(a);
    if xs.len() == 0 {
        assert(ys =~= seq![a]);
    } else {
        assert(ys[0] == xs[0]);
        assert(ys.drop_first() =~= xs.drop_first().push(a));
        match xs[0] {
            SpecQueueableCommand::Order { service_id, item } => match service(st, service_id) {
                Ok(s) => if s.item == item {
                    lemma_reservation_push(st, xs.drop_first(), a, t.saturating_add(s.price_coins));
                },
                Err(_) => {},
            },
            _ => {
                lemma_reservation_push(st, xs.drop_first(), a, t);
            },
        }
    }
}

/// A queue reserves the sum of the prices of all its orders: nothing for an
/// empty queue, and adding an action adds its order's price (saturating),
/// or nothing when it is not an order. An order of an unknown service, or of
/// an item the service does not sell, makes the whole queue fail.
pub proof fn law_queue_reserves_every_order(
    st: SpecSnapshot,
    cid: Seq<char>,
    actions: Seq<SpecQueueableCommand>,
    a: SpecQueueableCommand,
)
    requires
        lookup(st.characters, cid) is Some,
    ensures
        required_queue_reservation(st, cid, Seq::empty()) == Ok::<u32, crate::protocol::SpecApiError>(
            0,
        ),
        required_queue_reservation(st, cid, actions) matches Ok(r) ==> match a {
            SpecQueueableCommand::Order { service_id, item } => match service(st, service_id) {
                Ok(s) => if s.item == item {
                    required_queue_reservation(st, cid, actions.push(a)) == Ok::<
                        u32,
                        crate::protocol::SpecApiError,
                    >(r.saturating_add(s.price_coins))
                } else {
                    required_queue_reservation(st, cid, actions.push(a)) is Err
                },
                Err(_) => required_queue_reservation(st, cid, actions.push(a)) is Err,
            },
            _ => required_queue_reservation(st, cid, actions.push(a)) == Ok::<
                u32,
                crate::protocol::SpecApiError,
            >(r),
        },
{
    lemma_reservation_push(st, actions, a, 0);
    let one = seq![a];
    assert(one.drop_first() =~= Seq::<SpecQueueableCommand>::empty());
    assert(one[0] == a);
    if let Ok(r) = required_queue_reservation(st, cid, actions) {
        assert(queue_reservation(st, actions, 0) == Ok::<u32, crate::protocol::SpecApiError>(r));
        match a {
            SpecQueueableCommand::Order { service_id, item } => {
                if let Ok(sv) = service(st, service_id) {
                    if sv.item == item {
                        let x = r.saturating_add(sv.price_coins);
                        assert(queue_reservation(st, one.drop_first(), x) == Ok::<
                            u32,
                            crate::protocol::SpecApiError,
                        >(x));
                    }
                }
            },
            _ => {
                assert(queue_reservation(st, one.drop_first(), r) == Ok::<
                    u32,
                    crate::protocol::SpecApiError,
                >(r));
            },
        }
    }
}

/// A new character has exactly the id, name and colours it was created
/// with, the world's starting coins, nothing reserved, queued or under way,
/// and it is stored under its id.
pub proof fn law_new_character_is_as_requested(
    e: SpecEngine,
    cid: Seq<char>,
    name: Seq<char>,
    body: Seq<char>,
    face: Seq<char>,
)
    requires
        keys_sorted(e.state.characters),
    ensures
        create_character(e, cid, name, body, face).1 matches Ok(c) ==> {
            &&& c.id == cid
            &&& c.name == name
            &&& c.body_color == body
            &&& c.face_color == face
            &&& c.coins == e.state.world.starting_coins
            &&& c.reserved_coins == 0
            &&& c.current_activity is None
            &&& c.queued_commands.len() == 0
            &&& c.location_id == c.home_id
            &&& lookup(create_character(e, cid, name, body, face).0.state.characters, cid) == Some(c)
        },
{
    broadcast use lemma_record, lemma_set_character;

}

/// A home's manual tells whether the home is locked: the manual a character
/// gets is for its own home, says `locked` exactly when the engine's lock
/// for that home is set, and right after the character locks its home, the
/// manual says it is locked.
pub proof fn law_manual_reports_the_lock(e: SpecEngine, cid: Seq<char>)
    requires
        keys_sorted(e.state.home_locks),
    ensures
        home_manual(e.state, cid) matches Ok(m) ==> {
            &&& m.home_id == lookup(e.state.characters, cid)->Some_0.home_id
            &&& m.locked <==> lookup(e.state.home_locks, m.home_id) == Some(true)
        },
        home_action(e, cid, HomeAction::Lock).1 is Ok ==> (home_manual(
            home_action(e, cid, HomeAction::Lock).0.state,
            cid,
        ) matches Ok(m) && m.locked),
        home_action(e, cid, HomeAction::Unlock).1 is Ok ==> (home_manual(
            home_action(e, cid, HomeAction::Unlock).0.state,
            cid,
        ) matches Ok(m) && !m.locked),
{
    broadcast use lemma_record;

    if lookup(e.state.characters, cid) is Some {
        let c = lookup(e.state.characters, cid)->Some_0;
        lemma_map_insert(e.state.home_locks, c.home_id, true);
        lemma_map_insert(e.state.home_locks, c.home_id, false);
    }
}

/// A directional move with a directional exit for that direction leads
/// where the first such exit points, provided it is among the location's
/// exits and names an existing location.
pub proof fn law_directional_exits_lead_where_they_point(
    st: SpecSnapshot,
    cid: Seq<char>,
    dir: Direction,
    distance: u32,
    i: int,
)
    requires
        distance > 0,
        lookup(st.characters, cid) matches Some(actor) && location(st, actor.location_id) matches Some(
            cur,
        ) && 0 <= i < cur.directional_exits.len() && cur.directional_exits[i].0 == dir && (forall|
            j: int,
        | 0 <= j < i ==> (#[trigger] cur.directional_exits[j]).0 != dir)
            && cur.exits.contains(cur.directional_exits[i].1) && has_location(
            st.world.locations,
            cur.directional_exits[i].1,
        ),
    ensures
        resolve_move_target(st, cid, SpecMoveMode::Direction { direction: dir, distance }) == Ok::<
            Seq<char>,
            crate::protocol::SpecApiError,
        >(location(st, lookup(st.characters, cid)->Some_0.location_id)->Some_0.directional_exits[i].1),
{
    let cur = location(st, lookup(st.characters, cid)->Some_0.location_id)->Some_0;
    lemma_find_first_direction(cur.directional_exits, dir, i);
    let k = choose|k: int| 0 <= k < cur.exits.len() && cur.exits[k] == cur.directional_exits[i].1;
    assert(crate::model::seq_contains_str(cur.exits, cur.exits[k]));
}

proof fn lemma_find_first_direction(d: Seq<(Direction, Seq<char>)>, dir: Direction, i: int)
    requires
        0 <= i < d.len(),
        d[i].0 == dir,
        forall|j: int| 0 <= j < i ==> (#[trigger] d[j]).0 != dir,
    ensures
        find_direction(d, dir) == Some(d[i].1),
    decreases i,
{
    if i > 0 {
        assert forall|j: int| 0 <= j < i - 1 implies (#[trigger] d.drop_first()[j]).0 != dir by {
            assert(d.drop_first()[j] == d[j + 1]);
        }
        assert(d[0].0 != dir);
        lemma_find_first_direction(d.drop_first(), dir, i - 1);
    }
}

/// Speech addressed to a character is only heard when that character
/// stands at the speaker's location, and blank speech is never accepted.
pub proof fn law_speech_needs_words_and_a_listener_nearby(
    e: SpecEngine,
    cid: Seq<char>,
    target: SpecSpeechTarget,
    text: Seq<char>,
)
    ensures
        say(e, cid, target, text).1 is Ok ==> !crate::text::is_blank(text),
        say(e, cid, target, text).1 is Ok ==> (target matches SpecSpeechTarget::Character(tid)
            ==> (lookup(e.state.characters, tid) matches Some(t) && t.location_id == lookup(
            e.state.characters,
            cid,
        )->Some_0.location_id)),
{
}

/// Waiting takes exactly the ticks asked for: a wait that starts leaves the
/// character where it is, with the coins it had, busy with a waiting
/// activity that started now and is due `ticks` later; a wait that is
/// refused changes nothing.
pub proof fn law_wait_takes_its_ticks(e: SpecEngine, cid: Seq<char>, ticks: Tick)
    requires
        keys_sorted(e.state.characters),
    ensures
        start_wait_activity(e, cid, ticks).1 is Ok ==> {
            let before = char_of(e, cid);
            let after = char_of(start_wait_activity(e, cid, ticks).0, cid);
            &&& after.location_id == before.location_id
            &&& after.coins == before.coins
            &&& after.reserved_coins == before.reserved_coins
            &&& after.current_activity matches Some(a) && a.kind == ActivityKind::Waiting
                && a.started_at_tick == e.state.tick && a.completes_at_tick == e.state.tick.wrapping_add(
                ticks,
            )
        },
        start_wait_activity(e, cid, ticks).1 is Err ==> start_wait_activity(e, cid, ticks).0 == e,
{
    broadcast use lemma_record, lemma_set_character, crate::laws::lemma_next_activity_id;

}

/// An observation is taken now and stays valid for the observation window,
/// and shows the actor as the engine holds it.
pub proof fn law_observation_window(e: SpecEngine, cid: Seq<char>)
    ensures
        observe(e, cid) matches Ok(o) ==> {
            &&& o.observed_at_tick == e.state.tick
            &&& o.valid_until_tick == e.state.tick.wrapping_add(
                crate::model::DEFAULT_OBSERVATION_TTL_TICKS,
            )
            &&& lookup(e.state.characters, cid) == Some(o.actor)
        },
{
}

/// The events after an id are exactly the events with a larger id, in log
/// order.
pub proof fn law_events_after_filters_by_id(events: Seq<SpecEvent>, after: u64)
    ensures
        events_after(events, after) == events.filter(|ev: SpecEvent| ev.id > after),
    decreases events.len(),
{
    reveal(Seq::filter);
    if events.len() > 0 {
        law_events_after_filters_by_id(events.drop_last(), after);
    }
}

} // verus!
