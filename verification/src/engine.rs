//! The simulation engine: it owns the world's state and its event log, and
//! applies commands and ticks exactly as `model` describes them.
use vstd::prelude::*;
use vstd::string::*;
use crate::model;
use crate::model::{SpecEngine, SpecCoreError, DEFAULT_NOTIFICATION_TTL_TICKS, MOVE_BASE_TICKS};
use crate::protocol::{
    Tick, EventId, SCHEMA_VERSION, TICKS_PER_INGAME_DAY, ApiError, Character, Event, EventKind,
    LocationDefinition, Notification, ServiceDefinition, WorldSnapshot, WorldTime, views, strs,
    EntityView, ActionView, Conversation, Observation, LocationView, SpecCharacter, SpecApiError,
    SpecEntityView, SpecLocation, res_view, CommandEnvelope, MoveMode, Direction, Activity,
    ActivityKind, ActivityStatus, CharacterStatus, CommandResult, PreconditionKind, SpeechTarget,
    SpeechMessage, HomeAction, HomeManual, NotificationAction, QueueableCommand, QueuedCommand,
    Promise, HomeDefinition, Command, WorldDefinition, SpecObservation, SpecCommandResult,
    CommandResponse, opt_view, EntityId, LocationId,
};
use crate::strmap::{StrMap, keys_sorted, lookup, has_key, key_index, map_insert, map_set_value, lemma_insert_existing, lemma_key_index, lemma_set_value_lookup};
use crate::text::{push_decimal, str_eq, decimal, str_is_blank, str_is_hex_color};

verus! {

/// Copies a string literal into an owned string.
pub fn lit(s: &str) -> (r: String)
    ensures
        r@ == s@,
{
    String::from_str(s)
}

/// A structured error with a code and a message, and nothing else.
pub fn api_error(code: &str, message: &str) -> (e: ApiError)
    ensures
        e@ == model::api_error(code@, message@),
{
    let suggested_actions: Vec<String> = Vec::new();
    assert(strs(suggested_actions) =~= Seq::<Seq<char>>::empty());
    ApiError {
        code: lit(code),
        message: lit(message),
        details: StrMap::new(),
        retry_after_ticks: None,
        suggested_actions,
    }
}

pub fn with_suggestions(e: ApiError, suggestions: Vec<String>) -> (r: ApiError)
    ensures
        r@ == model::with_suggestions(e@, strs(suggestions)),
{
    ApiError { suggested_actions: suggestions, ..e }
}

pub fn with_retry(e: ApiError, t: Tick) -> (r: ApiError)
    ensures
        r@ == model::with_retry(e@, t),
{
    ApiError { retry_after_ticks: Some(t), ..e }
}

pub fn observe_hint() -> (v: Vec<String>)
    ensures
        strs(v) == model::observe_hint(),
{
    let v = vec![lit("observe")];
    assert(strs(v) =~= model::observe_hint());
    v
}

/// A list of two strings.
pub fn two(a: &str, b: &str) -> (v: Vec<String>)
    ensures
        strs(v) == seq![a@, b@],
{
    let v = vec![lit(a), lit(b)];
    assert(strs(v) =~= seq![a@, b@]);
    v
}

/// Adds `value` to `values` unless it is already there.
pub fn insert_unique(values: &mut Vec<String>, value: String)
    ensures
        strs(*final(values)) == model::insert_unique(strs(*old(values)), value@),
{
    let mut i: usize = 0;
    while i < values.len()
        invariant
            i <= values@.len(),
            *values == *old(values),
            forall|k: int| 0 <= k < i ==> #[trigger] strs(*values)[k] != value@,
        decreases values@.len() - i,
    {
        if values[i] == value {
            assert(strs(*values)[i as int] == value@);
            return;
        }
        i = i + 1;
    }
    values.push(value);
    assert(strs(*values) =~= strs(*old(values)).push(value@));
}

/// Accepts a `#RRGGBB` colour; otherwise the error names the field.
pub fn validate_hex_color(value: &str, field: &str) -> (r: Result<(), ApiError>)
    ensures
        r is Ok <==> crate::text::is_hex_color(value@),
        r matches Err(e) ==> e@ == model::invalid_color(field@),
{
    if str_is_hex_color(value) {
        Ok(())
    } else {
        let mut message = lit(field);
        message.append(" must be a #RRGGBB hex color.");
        let e = api_error("invalid_color", "x");
        Err(ApiError { message, ..e })
    }
}

fn unknown_character() -> (e: ApiError)
    ensures
        e@ == model::unknown_character(),
{
    let v = vec![lit("character create")];
    assert(strs(v) =~= seq!["character create"@]);
    with_suggestions(
        api_error("unknown_character", "No character exists for this token or character id."),
        v,
    )
}

/// Why a world definition was not accepted.
#[derive(Debug, PartialEq, Eq)]
pub enum CoreError {
    ParseWorld(String),
    EmptyWorld,
    MissingSpawn(LocationId),
    MissingExit(LocationId, LocationId),
    MissingHome(LocationId),
    MissingServiceLocation(EntityId, LocationId),
    RepeatedDirection(LocationId),
}

impl View for CoreError {
    type V = SpecCoreError;

    open spec fn view(&self) -> SpecCoreError {
        match self {
            CoreError::ParseWorld(m) => SpecCoreError::ParseWorld(m@),
            CoreError::EmptyWorld => SpecCoreError::EmptyWorld,
            CoreError::MissingSpawn(l) => SpecCoreError::MissingSpawn(l@),
            CoreError::MissingExit(l, x) => SpecCoreError::MissingExit(l@, x@),
            CoreError::MissingHome(h) => SpecCoreError::MissingHome(h@),
            CoreError::MissingServiceLocation(s, l) => SpecCoreError::MissingServiceLocation(s@, l@),
            CoreError::RepeatedDirection(l) => SpecCoreError::RepeatedDirection(l@),
        }
    }
}

pub open spec fn core_res(r: Result<Engine, CoreError>) -> Result<SpecEngine, SpecCoreError> {
    match r {
        Ok(e) => Ok(e@),
        Err(err) => Err(err@),
    }
}

pub open spec fn inner_view(
    r: Result<(Option<CommandResult>, Option<Observation>), ApiError>,
) -> Result<(Option<SpecCommandResult>, Option<SpecObservation>), SpecApiError> {
    match r {
        Ok((a, b)) => Ok((opt_view(a), opt_view(b))),
        Err(e) => Err(e@),
    }
}

fn world_has_location(locs: &Vec<LocationDefinition>, id: &str) -> (r: bool)
    ensures
        r == model::has_location(views(*locs), id@),
{
    let mut i: usize = 0;
    while i < locs.len()
        invariant
            i <= locs@.len(),
            forall|k: int| 0 <= k < i ==> (#[trigger] views(*locs)[k]).id != id@,
        decreases locs@.len() - i,
    {
        if str_eq(locs[i].id.as_str(), id) {
            assert(views(*locs)[i as int].id == id@);
            return true;
        }
        i = i + 1;
    }
    false
}

/// Checks a world definition: it has a location, its spawn point exists, and
/// every exit, home and service names an existing location.
#[verifier::loop_isolation(false)]
pub fn validate_world(world: &WorldDefinition) -> (r: Result<(), CoreError>)
    ensures
        match r {
            Ok(_) => model::validate_world(world@) == Ok::<(), SpecCoreError>(()),
            Err(e) => model::validate_world(world@) == Err::<(), SpecCoreError>(e@),
        },
{
    let locs = &world.locations;
    let ghost all = views(*locs);
    if locs.len() == 0 {
        return Err(CoreError::EmptyWorld);
    }
    if !world_has_location(locs, world.spawn_location_id.as_str()) {
        return Err(CoreError::MissingSpawn(world.spawn_location_id.clone()));
    }
    let mut i: usize = 0;
    assert(all.skip(0) =~= all);
    while i < locs.len()
        invariant
            all == views(*locs),
            all == world@.locations,
            i <= all.len(),
            model::check_exits(all, all) == model::check_exits(all, all.skip(i as int)),
        decreases all.len() - i,
    {
        assert(all.skip(i as int)[0] == all[i as int]);
        assert(all.skip(i as int).drop_first() =~= all.skip(i + 1));
        let exits = &locs[i].exits;
        let ghost ex = strs(*exits);
        assert(ex == all[i as int].exits);
        let mut j: usize = 0;
        assert(ex.skip(0) =~= ex);
        while j < exits.len()
            invariant
                ex == strs(*exits),
                all == views(*locs),
                j <= ex.len(),
                model::first_missing_exit(all, ex) == model::first_missing_exit(all, ex.skip(j as int)),
            decreases ex.len() - j,
        {
            assert(ex.skip(j as int)[0] == ex[j as int]);
            assert(ex.skip(j as int).drop_first() =~= ex.skip(j + 1));
            if !world_has_location(locs, exits[j].as_str()) {
                return Err(CoreError::MissingExit(locs[i].id.clone(), exits[j].clone()));
            }
            j = j + 1;
        }
        i = i + 1;
    }
    let homes = &world.homes;
    let ghost hs = views(*homes);
    let mut i: usize = 0;
    assert(hs.skip(0) =~= hs);
    while i < homes.len()
        invariant
            hs == views(*homes),
            all == views(*locs),
            i <= hs.len(),
            model::check_homes(all, hs) == model::check_homes(all, hs.skip(i as int)),
        decreases hs.len() - i,
    {
        assert(hs.skip(i as int)[0] == hs[i as int]);
        assert(hs.skip(i as int).drop_first() =~= hs.skip(i + 1));
        if !world_has_location(locs, homes[i].id.as_str()) {
            return Err(CoreError::MissingHome(homes[i].id.clone()));
        }
        i = i + 1;
    }
    let services = &world.services;
    let ghost ss = views(*services);
    let mut i: usize = 0;
    assert(ss.skip(0) =~= ss);
    while i < services.len()
        invariant
            ss == views(*services),
            all == views(*locs),
            i <= ss.len(),
            model::check_services(all, ss) == model::check_services(all, ss.skip(i as int)),
        decreases ss.len() - i,
    {
        assert(ss.skip(i as int)[0] == ss[i as int]);
        assert(ss.skip(i as int).drop_first() =~= ss.skip(i + 1));
        if !world_has_location(locs, services[i].location_id.as_str()) {
            return Err(
                CoreError::MissingServiceLocation(services[i].id.clone(), services[i].location_id.clone()),
            );
        }
        i = i + 1;
    }
    let mut i: usize = 0;
    assert(all.skip(0) =~= all);
    while i < locs.len()
        invariant
            all == views(*locs),
            i <= all.len(),
            model::check_directions(all) == model::check_directions(all.skip(i as int)),
        decreases all.len() - i,
    {
        assert(all.skip(i as int)[0] == all[i as int]);
        assert(all.skip(i as int).drop_first() =~= all.skip(i + 1));
        if !directions_distinct(&locs[i].directional_exits) {
            return Err(CoreError::RepeatedDirection(locs[i].id.clone()));
        }
        i = i + 1;
    }
    Ok(())
}

/// Whether no direction occurs twice among the exits.
fn directions_distinct(d: &Vec<(Direction, LocationId)>) -> (r: bool)
    ensures
        r == model::directions_distinct(d@.map_values(|e: (Direction, String)| (e.0, e.1@))),
{
    let ghost v = d@.map_values(|e: (Direction, String)| (e.0, e.1@));
    let mut j: usize = 0;
    while j < d.len()
        invariant
            v == d@.map_values(|e: (Direction, String)| (e.0, e.1@)),
            j <= d.len(),
            forall|a: int, b: int| 0 <= a < b < j ==> #[trigger] v[a].0 != #[trigger] v[b].0,
        decreases d.len() - j,
    {
        let mut a: usize = 0;
        while a < j
            invariant
                v == d@.map_values(|e: (Direction, String)| (e.0, e.1@)),
                a <= j,
                j < d.len(),
                forall|x: int| 0 <= x < a ==> #[trigger] v[x].0 != v[j as int].0,
            decreases j - a,
        {
            if d[a].0 == d[j].0 {
                assert(v[a as int].0 == v[j as int].0);
                return false;
            }
            a = a + 1;
        }
        j = j + 1;
    }
    true
}

pub open spec fn opt_s(o: Option<String>) -> Option<Seq<char>> {
    match o {
        Some(v) => Some(v@),
        None => None,
    }
}

pub open spec fn opt_entity(o: Option<EntityView>) -> Option<SpecEntityView> {
    match o {
        Some(v) => Some(v@),
        None => None,
    }
}

/// The engine: the authoritative world state plus the ordered event log.
#[derive(Debug)]
pub struct Engine {
    state: WorldSnapshot,
    events: Vec<Event>,
}

impl View for Engine {
    type V = SpecEngine;

    closed spec fn view(&self) -> SpecEngine {
        SpecEngine { state: self.state@, events: views(self.events) }
    }
}

impl Clone for Engine {
    fn clone(&self) -> (r: Self)
        ensures
            r@ == self@,
    {
        Engine { state: self.state.clone(), events: clone_events(&self.events) }
    }
}

pub fn clone_events(v: &Vec<Event>) -> (r: Vec<Event>)
    ensures
        views(r) == views(*v),
{
    let mut r: Vec<Event> = Vec::new();
    let mut i: usize = 0;
    while i < v.len()
        invariant
            i <= v@.len(),
            r@.len() == i,
            forall|k: int| 0 <= k < i ==> #[trigger] r@[k]@ == v@[k]@,
        decreases v@.len() - i,
    {
        r.push(v[i].clone());
        i = i + 1;
    }
    assert(views(r) =~= views(*v));
    r
}

impl Engine {
    /// An engine over a snapshot and its event log, as they were persisted.
    pub fn from_snapshot(snapshot: WorldSnapshot, events: Vec<Event>) -> (e: Engine)
        ensures
            e@ == (SpecEngine { state: snapshot@, events: views(events) }),
    {
        Engine { state: snapshot, events }
    }

    /// The current snapshot; its character ids are always in order.
    pub fn state(&self) -> (s: &WorldSnapshot)
        ensures
            s@ == self@.state,
            keys_sorted(s@.characters),
            keys_sorted(s@.notifications),
    {
        let _ = self.state.characters.len();
        let _ = self.state.notifications.len();
        &self.state
    }

    pub fn events(&self) -> (s: &[Event])
        ensures
            s@.map_values(|x: Event| x@) == self@.events,
    {
        self.events.as_slice()
    }

    pub fn command_log(&self) -> (s: &[crate::protocol::CommandEnvelope])
        ensures
            s@.map_values(|x: crate::protocol::CommandEnvelope| x@) == self@.state.command_log,
    {
        self.state.command_log.as_slice()
    }

    /// The events whose id is above `after_id` (above zero when it is absent), in order.
    pub fn events_after(&self, after_id: Option<EventId>) -> (r: Vec<Event>)
        ensures
            views(r) == model::events_after(
                self@.events,
                match after_id {
                    Some(a) => a,
                    None => 0,
                },
            ),
    {
        let min_id: u64 = match after_id {
            Some(a) => a,
            None => 0,
        };
        let mut r: Vec<Event> = Vec::new();
        let mut i: usize = 0;
        while i < self.events.len()
            invariant
                i <= self.events@.len(),
                views(r) == model::events_after(views(self.events).take(i as int), min_id),
            decreases self.events@.len() - i,
        {
            let ghost before = views(self.events).take(i as int);
            assert(views(self.events).take(i + 1).drop_last() =~= before);
            if self.events[i].id > min_id {
                r.push(self.events[i].clone());
            }
            i = i + 1;
            assert(views(r) =~= model::events_after(views(self.events).take(i as int), min_id));
        }
        assert(views(self.events).take(i as int) =~= views(self.events));
        r
    }

    // ------------------------------------------------------------ bookkeeping

    fn record(&mut self, kind: EventKind)
        ensures
            final(self)@ == model::record(old(self)@, kind@),
    {
        let event = Event {
            schema_version: lit(SCHEMA_VERSION),
            id: self.state.next_event_id,
            tick: self.state.tick,
            kind,
        };
        self.state.next_event_id = self.state.next_event_id.wrapping_add(1);
        self.events.push(event);
        assert(self@.events =~= model::record(old(self)@, kind@).events);
    }

    /// The position of a character, or the error for an unknown one.
    fn char_index(&self, cid: &str) -> (r: Result<usize, ApiError>)
        ensures
            keys_sorted(self@.state.characters),
            match r {
                Ok(i) => {
                    &&& i < self@.state.characters.len()
                    &&& self@.state.characters[i as int].0 == cid@
                    &&& model::require_character(self@.state, cid@) == Ok::<
                        crate::protocol::SpecCharacter,
                        crate::protocol::SpecApiError,
                    >(self@.state.characters[i as int].1)
                    &&& lookup(self@.state.characters, cid@) == Some(
                        self@.state.characters[i as int].1,
                    )
                },
                Err(e) => model::require_character(self@.state, cid@) == Err::<
                    crate::protocol::SpecCharacter,
                    crate::protocol::SpecApiError,
                >(e@) && lookup(self@.state.characters, cid@) is None,
            },
    {
        match self.state.characters.find(cid) {
            Some(i) => Ok(i),
            None => Err(unknown_character()),
        }
    }

    /// Replaces the character at position `i`.
    fn set_char_at(&mut self, i: usize, c: Character)
        requires
            i < old(self)@.state.characters.len(),
        ensures
            final(self)@ == model::set_character(
                old(self)@,
                old(self)@.state.characters[i as int].0,
                c@,
            ),
            final(self)@.state.characters == map_set_value(
                old(self)@.state.characters,
                i as int,
                c@,
            ),
            keys_sorted(final(self)@.state.characters),
            forall|k: Seq<char>|
                #[trigger] lookup(final(self)@.state.characters, k) == if k == old(
                    self,
                )@.state.characters[i as int].0 {
                    Some(c@)
                } else {
                    lookup(old(self)@.state.characters, k)
                },
    {
        self.state.characters.replace_at(i, c);
        proof {
            lemma_insert_existing(old(self)@.state.characters, i as int, c@);
            assert forall|k: Seq<char>|
                #[trigger] lookup(self@.state.characters, k) == if k == old(
                    self,
                )@.state.characters[i as int].0 {
                    Some(c@)
                } else {
                    lookup(old(self)@.state.characters, k)
                } by {
                lemma_set_value_lookup(old(self)@.state.characters, i as int, c@, k);
            }
        }
    }

    fn location_index(&self, id: &str) -> (r: Option<usize>)
        ensures
            match r {
                Some(i) => i < self@.state.world.locations.len() && model::location(
                    self@.state,
                    id@,
                ) == Some(self@.state.world.locations[i as int]),
                None => model::location(self@.state, id@) is None,
            },
    {
        let locs = &self.state.world.locations;
        let ghost s = views(*locs);
        assert(self@.state.world.locations == s);
        let mut i: usize = 0;
        assert(s.skip(0) =~= s);
        while i < locs.len()
            invariant
                s == views(*locs),
                i <= s.len(),
                self@.state.world.locations == s,
                model::find_location(s, id@) == model::find_location(s.skip(i as int), id@),
            decreases s.len() - i,
        {
            assert(s.skip(i as int)[0] == s[i as int]);
            if str_eq(locs[i].id.as_str(), id) {
                assert(s[i as int].id == id@);
                assert(model::find_location(s.skip(i as int), id@) == Some(s[i as int]));
                return Some(i);
            }
            assert(s.skip(i as int).drop_first() =~= s.skip(i + 1));
            i = i + 1;
        }
        None
    }

    fn service_index(&self, id: &str) -> (r: Result<usize, ApiError>)
        ensures
            match r {
                Ok(i) => i < self@.state.world.services.len() && model::service(self@.state, id@)
                    == Ok::<crate::protocol::SpecService, crate::protocol::SpecApiError>(
                    self@.state.world.services[i as int],
                ),
                Err(e) => model::service(self@.state, id@) == Err::<
                    crate::protocol::SpecService,
                    crate::protocol::SpecApiError,
                >(e@),
            },
    {
        let svcs = &self.state.world.services;
        let ghost s = views(*svcs);
        assert(self@.state.world.services == s);
        let mut i: usize = 0;
        assert(s.skip(0) =~= s);
        while i < svcs.len()
            invariant
                s == views(*svcs),
                i <= s.len(),
                self@.state.world.services == s,
                model::find_service(s, id@) == model::find_service(s.skip(i as int), id@),
            decreases s.len() - i,
        {
            assert(s.skip(i as int)[0] == s[i as int]);
            if str_eq(svcs[i].id.as_str(), id) {
                assert(s[i as int].id == id@);
                assert(model::find_service(s.skip(i as int), id@) == Some(s[i as int]));
                return Ok(i);
            }
            assert(s.skip(i as int).drop_first() =~= s.skip(i + 1));
            i = i + 1;
        }
        Err(api_error("unknown_service", "The requested service does not exist."))
    }

    fn home_locked(&self, home_id: &str) -> (r: bool)
        ensures
            r == model::home_locked(self@.state, home_id@),
    {
        match self.state.home_locks.get(home_id) {
            Some(b) => *b,
            None => false,
        }
    }

    fn local_state_hash(&self, actor: &Character) -> (h: String)
        ensures
            h@ == model::local_state_hash(self@.state, actor@),
    {
        let mut h = lit("obs_");
        h.append(actor.location_id.as_str());
        h.append("_");
        match &actor.current_activity {
            Some(a) => h.append(a.id.as_str()),
            None => h.append("none"),
        }
        h.append("_");
        push_decimal(&mut h, actor.queued_commands.len() as u64);
        h.append("_");
        push_decimal(&mut h, self.state.tick);
        h
    }

    fn world_time(&self) -> (t: WorldTime)
        ensures
            t == model::world_time(self@.state),
    {
        WorldTime {
            tick: self.state.tick,
            ingame_day: self.state.tick / TICKS_PER_INGAME_DAY,
            tick_of_day: self.state.tick % TICKS_PER_INGAME_DAY,
        }
    }

    fn recent_events(&self) -> (r: Vec<Event>)
        ensures
            views(r) == model::recent_events(self@.events),
    {
        let n = self.events.len();
        let start: usize = if n > 20 { n - 20 } else { 0 };
        let mut r: Vec<Event> = Vec::new();
        let mut i: usize = start;
        while i < n
            invariant
                n == self.events@.len(),
                start <= i <= n,
                r@.len() == i - start,
                forall|k: int| 0 <= k < i - start ==> #[trigger] r@[k]@ == self.events@[start + k]@,
            decreases n - i,
        {
            r.push(self.events[i].clone());
            i = i + 1;
        }
        assert(views(r) =~= model::recent_events(self@.events));
        r
    }

    /// The notifications addressed to the character, unacknowledged ones only
    /// unless `include_acknowledged`, in id order.
    pub fn notifications_for(&self, character_id: &str, include_acknowledged: bool) -> (r: Vec<
        Notification,
    >)
        ensures
            views(r) == model::notifications_for(
                self@.state.notifications,
                character_id@,
                include_acknowledged,
            ),
    {
        let ns = &self.state.notifications;
        let n = ns.len();
        let mut r: Vec<Notification> = Vec::new();
        let mut i: usize = 0;
        while i < n
            invariant
                n == ns@.len(),
                i <= n,
                views(r) == model::notifications_for(
                    ns@.take(i as int),
                    character_id@,
                    include_acknowledged,
                ),
            decreases n - i,
        {
            assert(ns@.take(i + 1).drop_last() =~= ns@.take(i as int));
            let note = ns.value_at(i);
            if str_eq(note.character_id.as_str(), character_id) && (include_acknowledged
                || !note.acknowledged) {
                r.push(note.clone());
            }
            i = i + 1;
            assert(views(r) =~= model::notifications_for(
                ns@.take(i as int),
                character_id@,
                include_acknowledged,
            ));
        }
        assert(ns@.take(n as int) =~= ns@);
        r
    }

    /// Files a notification for the character, keyed by the next event id.
    pub fn create_notification(
        &mut self,
        character_id: &str,
        kind: &str,
        summary: &str,
        related: Vec<(String, String)>,
    )
        ensures
            final(self)@ == model::create_notification(
                old(self)@,
                character_id@,
                kind@,
                summary@,
                related@.map_values(|p: (String, String)| (p.0@, p.1@)),
            ),
    {
        let ghost pairs = related@.map_values(|p: (String, String)| (p.0@, p.1@));
        let mut map: StrMap<String> = StrMap::new();
        let mut i: usize = 0;
        let n = related.len();
        while i < n
            invariant
                n == related@.len(),
                i <= n,
                pairs == related@.map_values(|p: (String, String)| (p.0@, p.1@)),
                map@ == model::related_map(pairs.take(i as int)),
            decreases n - i,
        {
            assert(pairs.take(i + 1).drop_last() =~= pairs.take(i as int));
            map.insert(related[i].0.clone(), related[i].1.clone());
            i = i + 1;
        }
        assert(pairs.take(n as int) =~= pairs);
        let mut nid = lit("notif.");
        push_decimal(&mut nid, self.state.next_event_id);
        let note = Notification {
            notification_id: nid.clone(),
            character_id: lit(character_id),
            kind: lit(kind),
            priority: lit("normal"),
            created_at_tick: self.state.tick,
            expires_at_tick: self.state.tick.wrapping_add(DEFAULT_NOTIFICATION_TTL_TICKS),
            summary: lit(summary),
            acknowledged: false,
            related: map,
        };
        self.state.notifications.insert(nid, note);
    }

    fn touch_actor(&mut self, cid: &str)
        ensures
            final(self)@ == model::touch_actor(old(self)@, cid@),
    {
        match self.char_index(cid) {
            Ok(i) => {
                let mut c = self.state.characters.value_at(i).clone();
                c.last_agent_action_tick = self.state.tick;
                self.set_char_at(i, c);
            },
            Err(_) => {},
        }
    }

    fn next_activity_id(&mut self, prefix: &str) -> (id: String)
        ensures
            (final(self)@, id@) == model::next_activity_id(old(self)@, prefix@),
    {
        let mut id = lit("activity.");
        id.append(prefix);
        id.append(".");
        push_decimal(&mut id, self.state.next_command_seq);
        self.state.next_command_seq = self.state.next_command_seq.wrapping_add(1);
        id
    }

    fn next_promise_id(&mut self) -> (id: String)
        ensures
            (final(self)@, id@) == model::next_promise_id(old(self)@),
    {
        let mut id = lit("promise.");
        push_decimal(&mut id, self.state.next_command_seq);
        self.state.next_command_seq = self.state.next_command_seq.wrapping_add(1);
        id
    }

    fn release_all_reservations(&mut self, cid: &str)
        ensures
            final(self)@ == model::release_all_reservations(old(self)@, cid@),
    {
        match self.char_index(cid) {
            Ok(i) => {
                let amount = self.state.characters.value_at(i).reserved_coins;
                if amount == 0 {
                    return;
                }
                let mut c = self.state.characters.value_at(i).clone();
                c.reserved_coins = 0;
                self.set_char_at(i, c);
                self.record(EventKind::CoinsReleased { character_id: lit(cid), amount });
            },
            Err(_) => {},
        }
    }

    // ------------------------------------------------------------ perception

    fn nearby_characters(&self, actor: &Character) -> (r: Vec<EntityView>)
        ensures
            views(r) == model::nearby_characters(self@.state.characters, actor@),
    {
        let mut r: Vec<EntityView> = Vec::new();
        let cs = &self.state.characters;
        let n = cs.len();
        let mut i: usize = 0;
        while i < n
            invariant
                n == cs@.len(),
                i <= n,
                cs@ == self@.state.characters,
                views(r) == model::nearby_characters(cs@.take(i as int), actor@),
            decreases n - i,
        {
            assert(cs@.take(i + 1).drop_last() =~= cs@.take(i as int));
            let c = cs.value_at(i);
            if !(c.id == actor.id) && c.location_id == actor.location_id {
                r.push(
                    EntityView {
                        id: c.id.clone(),
                        entity_type: lit("character"),
                        name: c.name.clone(),
                        distance: lit("near"),
                        available_actions: two("say", "look_at"),
                    },
                );
            }
            i = i + 1;
            assert(views(r) =~= model::nearby_characters(cs@.take(i as int), actor@));
        }
        assert(cs@.take(n as int) =~= cs@);
        r
    }

    fn nearby_services(&self, actor: &Character) -> (r: Vec<EntityView>)
        ensures
            views(r) == model::nearby_services(self@.state.world.services, actor@.location_id),
    {
        let mut r: Vec<EntityView> = Vec::new();
        let svcs = &self.state.world.services;
        let ghost sv = views(*svcs);
        assert(self@.state.world.services == sv);
        let mut i: usize = 0;
        while i < svcs.len()
            invariant
                sv == views(*svcs),
                i <= sv.len(),
                views(r) == model::nearby_services(sv.take(i as int), actor@.location_id),
            decreases sv.len() - i,
        {
            assert(sv.take(i + 1).drop_last() =~= sv.take(i as int));
            assert(sv.take(i + 1).last() == sv[i as int]);
            let svc = &svcs[i];
            if svc.location_id == actor.location_id {
                r.push(
                    EntityView {
                        id: svc.id.clone(),
                        entity_type: lit("service"),
                        name: svc.name.clone(),
                        distance: lit("near"),
                        available_actions: two("order", "look_at"),
                    },
                );
            }
            i = i + 1;
            assert(views(r) =~= model::nearby_services(sv.take(i as int), actor@.location_id));
        }
        assert(sv.take(i as int) =~= sv);
        r
    }

    fn exit_views(&self, loc: &LocationDefinition) -> (r: Vec<EntityView>)
        ensures
            views(r) == model::exit_views(self@.state, loc@.exits),
    {
        let mut r: Vec<EntityView> = Vec::new();
        let ghost ex = strs(loc.exits);
        let mut i: usize = 0;
        while i < loc.exits.len()
            invariant
                ex == strs(loc.exits),
                i <= ex.len(),
                views(r) == model::exit_views(self@.state, ex.take(i as int)),
            decreases ex.len() - i,
        {
            assert(ex.take(i + 1).drop_last() =~= ex.take(i as int));
            assert(ex.take(i + 1).last() == ex[i as int]);
            let exit = &loc.exits[i];
            let name = match self.location_index(exit.as_str()) {
                Some(k) => self.state.world.locations[k].name.clone(),
                None => exit.clone(),
            };
            let v = EntityView {
                id: exit.clone(),
                entity_type: lit("location"),
                name,
                distance: lit("near"),
                available_actions: two("move", "look_at"),
            };
            assert(v@ == model::exit_view(self@.state, ex[i as int]));
            r.push(v);
            i = i + 1;
            assert(views(r) =~= model::exit_views(self@.state, ex.take(i as int)));
        }
        assert(ex.take(i as int) =~= ex);
        r
    }

    fn nearby_entities(&self, actor: &Character, loc: &LocationDefinition) -> (r: Vec<EntityView>)
        ensures
            views(r) == model::nearby_entities(self@.state, actor@, loc@),
    {
        let mut r = self.nearby_characters(actor);
        let mut b = self.nearby_services(actor);
        let mut c = self.exit_views(loc);
        let ghost (va, vb, vc) = (views(r), views(b), views(c));
        r.append(&mut b);
        assert(views(r) =~= va + vb);
        r.append(&mut c);
        assert(views(r) =~= va + vb + vc);
        r
    }

    fn conversation_visible(&self, actor: &Character, conv: &Conversation) -> (r: bool)
        ensures
            r == model::conversation_visible(self@.state, actor@, conv@),
    {
        let ps = &conv.participant_ids;
        let mut j: usize = 0;
        while j < ps.len()
            invariant
                j <= ps@.len(),
                conv@.participant_ids == strs(*ps),
                forall|k: int|
                    0 <= k < j ==> !#[trigger] model::participant_nearby(
                        self@.state,
                        actor@,
                        strs(*ps)[k],
                    ),
            decreases ps@.len() - j,
        {
            let near = match self.state.characters.get(ps[j].as_str()) {
                Some(c) => c.location_id == actor.location_id,
                None => false,
            };
            assert(near == model::participant_nearby(self@.state, actor@, strs(*ps)[j as int]));
            if near {
                assert(model::participant_nearby(self@.state, actor@, conv@.participant_ids[j as int]));
                return true;
            }
            j = j + 1;
        }
        false
    }

    fn visible_conversations(&self, actor: &Character) -> (r: Vec<Conversation>)
        ensures
            views(r) == model::visible_conversations(
                self@.state,
                self@.state.conversations,
                actor@,
            ),
    {
        let convs = &self.state.conversations;
        let n = convs.len();
        let mut r: Vec<Conversation> = Vec::new();
        let mut i: usize = 0;
        while i < n
            invariant
                n == convs@.len(),
                i <= n,
                convs@ == self@.state.conversations,
                views(r) == model::visible_conversations(self@.state, convs@.take(i as int), actor@),
            decreases n - i,
        {
            assert(convs@.take(i + 1).drop_last() =~= convs@.take(i as int));
            let conv = convs.value_at(i);
            if self.conversation_visible(actor, conv) {
                r.push(conv.clone());
            }
            i = i + 1;
            assert(views(r) =~= model::visible_conversations(
                self@.state,
                convs@.take(i as int),
                actor@,
            ));
        }
        assert(convs@.take(n as int) =~= convs@);
        r
    }

    fn entity_view(&self, actor: &Character, target: &str) -> (r: Option<EntityView>)
        ensures
            opt_entity(r) == model::entity_view(self@.state, actor@, target@),
    {
        let k = match self.location_index(actor.location_id.as_str()) {
            Some(k) => k,
            None => return None,
        };
        let loc = &self.state.world.locations[k];
        assert(loc@ == self@.state.world.locations[k as int]);
        let mut nearby = self.nearby_entities(actor, loc);
        let ghost s = views(nearby);
        let mut i: usize = 0;
        assert(s.skip(0) =~= s);
        while i < nearby.len()
            invariant
                s == views(nearby),
                i <= s.len(),
                model::location(self@.state, actor@.location_id) == Some(loc@),
                model::nearby_entities(self@.state, actor@, loc@) == s,
                model::find_entity(s, target@) == model::find_entity(s.skip(i as int), target@),
            decreases s.len() - i,
        {
            assert(s.skip(i as int)[0] == s[i as int]);
            if str_eq(nearby[i].id.as_str(), target) {
                assert(model::find_entity(s.skip(i as int), target@) == Some(s[i as int]));
                let v = nearby.swap_remove(i);
                assert(v@ == s[i as int]);
                assert(model::location(self@.state, actor@.location_id) == Some(loc@));
                assert(model::nearby_entities(self@.state, actor@, loc@) == s);
                assert(model::find_entity(s, target@) == Some(v@));
                return Some(v);
            }
            assert(s.skip(i as int).drop_first() =~= s.skip(i + 1));
            i = i + 1;
        }
        if str_eq(target, actor.id.as_str()) {
            let v = vec![lit("observe")];
            assert(strs(v) =~= seq!["observe"@]);
            Some(
                EntityView {
                    id: actor.id.clone(),
                    entity_type: lit("character"),
                    name: actor.name.clone(),
                    distance: lit("self"),
                    available_actions: v,
                },
            )
        } else {
            None
        }
    }

    fn is_visible_to(&self, actor: &Character, entity: &str) -> (r: bool)
        ensures
            r == model::is_visible_to(self@.state, actor@, entity@),
    {
        str_eq(entity, actor.location_id.as_str()) || str_eq(entity, actor.id.as_str())
            || self.entity_view(actor, entity).is_some()
    }

    fn available_actions(&self, cid: &str) -> (r: Result<Vec<ActionView>, ApiError>)
        ensures
            match r {
                Ok(v) => model::available_actions(self@.state, cid@) == Ok::<
                    Seq<crate::protocol::SpecActionView>,
                    SpecApiError,
                >(views(v)),
                Err(e) => model::available_actions(self@.state, cid@) == Err::<
                    Seq<crate::protocol::SpecActionView>,
                    SpecApiError,
                >(e@),
            },
    {
        let i = self.char_index(cid)?;
        let actor = self.state.characters.value_at(i);
        let k = match self.location_index(actor.location_id.as_str()) {
            Some(k) => k,
            None => return Err(api_error("location_missing", "Current location is missing.")),
        };
        let loc = &self.state.world.locations[k];
        let empty0: Vec<String> = Vec::new();
        let empty1: Vec<String> = Vec::new();
        let empty2: Vec<String> = Vec::new();
        let room = vec![lit("room")];
        let home = vec![actor.home_id.clone()];
        let exits = loc.exits.clone();
        assert(strs(empty0) =~= Seq::<Seq<char>>::empty());
        assert(strs(empty1) =~= Seq::<Seq<char>>::empty());
        assert(strs(empty2) =~= Seq::<Seq<char>>::empty());
        assert(strs(room) =~= seq!["room"@]);
        assert(strs(home) =~= seq![actor@.home_id]);
        assert(strs(exits) =~= strs(loc.exits));
        let mut actions = vec![
            ActionView { action: lit("observe"), targets: empty0 },
            ActionView { action: lit("wait"), targets: empty1 },
            ActionView { action: lit("say"), targets: room },
            ActionView { action: lit("home_manual"), targets: home },
            ActionView { action: lit("notifications"), targets: empty2 },
            ActionView { action: lit("move"), targets: exits },
        ];
        let svcs = &self.state.world.services;
        let ghost sv = views(*svcs);
        assert(self@.state.world.services == sv);
        let mut targets: Vec<String> = Vec::new();
        let mut j: usize = 0;
        while j < svcs.len()
            invariant
                sv == views(*svcs),
                j <= sv.len(),
                strs(targets) == model::local_services(sv.take(j as int), actor@.location_id),
            decreases sv.len() - j,
        {
            assert(sv.take(j + 1).drop_last() =~= sv.take(j as int));
            if svcs[j].location_id == actor.location_id {
                targets.push(svcs[j].id.clone());
            }
            j = j + 1;
            assert(strs(targets) =~= model::local_services(sv.take(j as int), actor@.location_id));
        }
        assert(sv.take(j as int) =~= sv);
        let ghost base = views(actions);
        if targets.len() > 0 {
            actions.push(ActionView { action: lit("order"), targets });
        }
        proof {
            let loc_v = model::location(self@.state, actor@.location_id)->Some_0;
            assert(base =~= seq![
                model::action("observe"@, Seq::empty()),
                model::action("wait"@, Seq::empty()),
                model::action("say"@, seq!["room"@]),
                model::action("home_manual"@, seq![actor@.home_id]),
                model::action("notifications"@, Seq::empty()),
                model::action("move"@, loc_v.exits),
            ]);
        }
        assert(views(actions) =~= model::available_actions(self@.state, cid@)->Ok_0);
        Ok(actions)
    }

    /// What the character perceives now: its own state, its location, what is
    /// nearby, the conversations it can hear, its affordances, recent events
    /// and its pending notifications, with a freshness window.
    pub fn observe(&self, character_id: &str) -> (r: Result<Observation, ApiError>)
        ensures
            match r {
                Ok(o) => model::observe(self@, character_id@) == Ok::<
                    crate::protocol::SpecObservation,
                    SpecApiError,
                >(o@),
                Err(e) => model::observe(self@, character_id@) == Err::<
                    crate::protocol::SpecObservation,
                    SpecApiError,
                >(e@),
            },
    {
        let i = self.char_index(character_id)?;
        let actor = self.state.characters.value_at(i).clone();
        let k = match self.location_index(actor.location_id.as_str()) {
            Some(k) => k,
            None => return Err(
                api_error("location_missing", "The actor's location no longer exists."),
            ),
        };
        let loc = &self.state.world.locations[k];
        let nearby_entities = self.nearby_entities(&actor, loc);
        let conversations = self.visible_conversations(&actor);
        let notifications = self.notifications_for(character_id, false);
        let available_actions = self.available_actions(character_id)?;
        let exits = loc.exits.clone();
        assert(strs(exits) =~= strs(loc.exits));
        let local_state_hash = self.local_state_hash(&actor);
        Ok(
            Observation {
                schema_version: lit(SCHEMA_VERSION),
                observed_at_tick: self.state.tick,
                valid_until_tick: self.state.tick.wrapping_add(model::DEFAULT_OBSERVATION_TTL_TICKS),
                local_state_hash,
                staleness_policy: lit("valid_if_local_state_compatible"),
                actor,
                location: LocationView {
                    id: loc.id.clone(),
                    name: loc.name.clone(),
                    description: loc.description.clone(),
                    exits,
                },
                nearby_entities,
                conversations,
                available_actions,
                recent_events: self.recent_events(),
                notifications,
                world_time: self.world_time(),
            },
        )
    }

    // ------------------------------------------------------------ validation

    fn has_location(&self, id: &str) -> (r: bool)
        ensures
            r == model::has_location(self@.state.world.locations, id@),
    {
        proof {
            model::lemma_find_location(self@.state.world.locations, id@);
        }
        self.location_index(id).is_some()
    }

    fn validate_freshness(&self, env: &CommandEnvelope) -> (r: Result<(), ApiError>)
        ensures
            res_view(r) == model::check_freshness(self@.state, env@),
    {
        match env.valid_until_tick {
            Some(v) => {
                if self.state.tick > v {
                    return Err(
                        with_suggestions(
                            api_error(
                                "stale_command",
                                "The command was based on an observation that is no longer fresh.",
                            ),
                            observe_hint(),
                        ),
                    );
                }
            },
            None => {},
        }
        match &env.local_state_hash {
            Some(h) => {
                let i = self.char_index(env.character_id.as_str())?;
                let expected = self.local_state_hash(self.state.characters.value_at(i));
                if !(*h == expected) {
                    return Err(
                        with_suggestions(
                            api_error(
                                "local_state_changed",
                                "The local state changed since the observation.",
                            ),
                            observe_hint(),
                        ),
                    );
                }
            },
            None => {},
        }
        Ok(())
    }

    fn validate_preconditions(&self, env: &CommandEnvelope) -> (r: Result<(), ApiError>)
        ensures
            res_view(r) == model::validate_preconditions(self@.state, env@),
    {
        let ps = &env.preconditions;
        if ps.len() == 0 {
            return Ok(());
        }
        let ci = self.char_index(env.character_id.as_str())?;
        let actor = self.state.characters.value_at(ci);
        let ghost s = views(*ps);
        let mut i: usize = 0;
        assert(s.skip(0) =~= s);
        while i < ps.len()
            invariant
                s == views(*ps),
                s == env@.preconditions,
                i <= s.len(),
                model::require_character(self@.state, env@.character_id) == Ok::<
                    SpecCharacter,
                    SpecApiError,
                >(actor@),
                model::check_preconditions(self@.state, actor@, s) == model::check_preconditions(
                    self@.state,
                    actor@,
                    s.skip(i as int),
                ),
            decreases s.len() - i,
        {
            assert(s.skip(i as int)[0] == s[i as int]);
            assert(s.skip(i as int).drop_first() =~= s.skip(i + 1));
            let p = &ps[i];
            match p.condition {
                PreconditionKind::NearbyOrVisible => {
                    if !self.is_visible_to(actor, p.entity.as_str()) {
                        return Err(
                            with_suggestions(
                                api_error(
                                    "precondition_failed",
                                    "A required entity is no longer nearby or visible.",
                                ),
                                observe_hint(),
                            ),
                        );
                    }
                },
                PreconditionKind::ActorAtLocation => {
                    if !(actor.location_id == p.entity) {
                        return Err(
                            with_suggestions(
                                api_error(
                                    "precondition_failed",
                                    "The actor is no longer at the required location.",
                                ),
                                observe_hint(),
                            ),
                        );
                    }
                },
            }
            i = i + 1;
        }
        Ok(())
    }

    fn ensure_can_start_activity(&self, cid: &str, allow_while_moving: bool) -> (r: Result<
        (),
        ApiError,
    >)
        ensures
            res_view(r) == model::ensure_can_start_activity(self@.state, cid@, allow_while_moving),
    {
        let i = self.char_index(cid)?;
        match &self.state.characters.value_at(i).current_activity {
            Some(a) => {
                if !(allow_while_moving && a.kind == ActivityKind::Moving) {
                    return Err(
                        with_retry(
                            api_error(
                                "actor_busy",
                                "The character is already doing an activity.",
                            ),
                            a.completes_at_tick.saturating_sub(self.state.tick),
                        ),
                    );
                }
                Ok(())
            },
            None => Ok(()),
        }
    }

    fn ensure_home_access(&self, cid: &str, target: &str) -> (r: Result<(), ApiError>)
        ensures
            res_view(r) == model::ensure_home_access(self@.state, cid@, target@),
    {
        if !self.home_locked(target) {
            return Ok(());
        }
        let i = self.char_index(cid)?;
        if str_eq(self.state.characters.value_at(i).home_id.as_str(), target) {
            Ok(())
        } else {
            Err(
                api_error(
                    "home_locked",
                    "The target home is locked and this character does not own it.",
                ),
            )
        }
    }

    fn find_direction(loc: &LocationDefinition, d: Direction) -> (r: Option<String>)
        ensures
            match r {
                Some(t) => model::find_direction(loc@.directional_exits, d) == Some(t@),
                None => model::find_direction(loc@.directional_exits, d) is None,
            },
    {
                let ghost s = loc@.directional_exits;
        let mut i: usize = 0;
        assert(s.skip(0) =~= s);
        while i < loc.directional_exits.len()
            invariant
                s == loc@.directional_exits,
                s.len() == loc.directional_exits@.len(),
                i <= s.len(),
                model::find_direction(s, d) == model::find_direction(s.skip(i as int), d),
            decreases s.len() - i,
        {
            assert(s.skip(i as int)[0] == s[i as int]);
            assert(s[i as int] == (loc.directional_exits@[i as int].0, loc.directional_exits@[i as int].1@));
            let same = match (loc.directional_exits[i].0, d) {
                (Direction::Forward, Direction::Forward) => true,
                (Direction::Back, Direction::Back) => true,
                (Direction::Left, Direction::Left) => true,
                (Direction::Right, Direction::Right) => true,
                (Direction::North, Direction::North) => true,
                (Direction::South, Direction::South) => true,
                (Direction::East, Direction::East) => true,
                (Direction::West, Direction::West) => true,
                _ => false,
            };
            if same {
                return Some(loc.directional_exits[i].1.clone());
            }
            assert(s.skip(i as int).drop_first() =~= s.skip(i + 1));
            i = i + 1;
        }
        None
    }

    fn exits_contain(loc: &LocationDefinition, target: &str) -> (r: bool)
        ensures
            r == model::seq_contains_str(loc@.exits, target@),
    {
        let mut i: usize = 0;
        while i < loc.exits.len()
            invariant
                i <= loc.exits@.len(),
                loc@.exits == strs(loc.exits),
                forall|k: int| 0 <= k < i ==> #[trigger] loc@.exits[k] != target@,
            decreases loc.exits@.len() - i,
        {
            if str_eq(loc.exits[i].as_str(), target) {
                assert(loc@.exits[i as int] == target@);
                return true;
            }
            i = i + 1;
        }
        false
    }

    fn resolve_move_target(&self, cid: &str, mode: &MoveMode) -> (r: Result<String, ApiError>)
        ensures
            res_view(r) == model::resolve_move_target(self@.state, cid@, mode@),
    {
        let i = self.char_index(cid)?;
        let actor = self.state.characters.value_at(i);
        let k = match self.location_index(actor.location_id.as_str()) {
            Some(k) => k,
            None => return Err(api_error("location_missing", "Current location is missing.")),
        };
        let current = &self.state.world.locations[k];
        assert(current@ == self@.state.world.locations[k as int]);
        let target: String = match mode {
            MoveMode::ToTarget { target } => target.clone(),
            MoveMode::Direction { direction, distance } => {
                if *distance == 0 {
                    return Err(
                        api_error(
                            "invalid_distance",
                            "Directional movement distance must be greater than zero.",
                        ),
                    );
                }
                let found = match Self::find_direction(current, *direction) {
                    Some(t) => Some(t),
                    None => match direction {
                        Direction::Forward => if current.exits.len() > 0 {
                            Some(current.exits[0].clone())
                        } else {
                            None
                        },
                        Direction::Back => if current.exits.len() > 0 {
                            Some(current.exits[current.exits.len() - 1].clone())
                        } else {
                            None
                        },
                        _ => None,
                    },
                };
                match found {
                    Some(t) => t,
                    None => {
                        return Err(
                            with_suggestions(
                                api_error(
                                    "direction_not_available",
                                    "There is no reachable exit in that direction.",
                                ),
                                observe_hint(),
                            ),
                        );
                    },
                }
            },
        };
        if !self.has_location(target.as_str()) {
            return Err(api_error("unknown_target", "The target location does not exist."));
        }
        if !Self::exits_contain(current, target.as_str()) {
            return Err(
                with_suggestions(
                    api_error(
                        "target_not_reachable",
                        "The target location is not directly reachable from here.",
                    ),
                    observe_hint(),
                ),
            );
        }
        Ok(target)
    }

    // ------------------------------------------------------------ commands

    fn look_at(&self, cid: &str, target: &str) -> (r: Result<CommandResult, ApiError>)
        ensures
            res_view(r) == model::look_at(self@.state, cid@, target@),
    {
        let i = self.char_index(cid)?;
        let actor = self.state.characters.value_at(i);
        let entity = match self.entity_view(actor, target) {
            Some(v) => v,
            None => return Err(api_error("not_visible", "The target is not currently visible.")),
        };
        proof {
            reveal_strlit("character");
            reveal_strlit("service");
            reveal_strlit("location");
        }
        let description = if str_eq(entity.entity_type.as_str(), "character") {
            let mut d = entity.name.clone();
            d.append(" is nearby.");
            d
        } else if str_eq(entity.entity_type.as_str(), "service") {
            let mut d = entity.name.clone();
            d.append(" can be used here.");
            d
        } else if str_eq(entity.entity_type.as_str(), "location") {
            match self.location_index(entity.id.as_str()) {
                Some(k) => self.state.world.locations[k].description.clone(),
                None => entity.name.clone(),
            }
        } else {
            entity.name.clone()
        };
        Ok(CommandResult::LookedAt { entity, description })
    }

    /// The character starts walking to an adjacent location.
    fn start_move(&mut self, cid: &str, mode: &MoveMode) -> (r: Result<CommandResult, ApiError>)
        ensures
            (final(self)@, res_view(r)) == model::start_move(old(self)@, cid@, mode@),
            r is Ok ==> lookup(final(self)@.state.characters, cid@) is Some && model::char_of(
                final(self)@,
                cid@,
            ).location_id == model::char_of(old(self)@, cid@).location_id,
    {
        let target = self.resolve_move_target(cid, mode)?;
        self.ensure_can_start_activity(cid, true)?;
        self.ensure_home_access(cid, target.as_str())?;
        let i = self.char_index(cid)?;
        let from = self.state.characters.value_at(i).location_id.clone();
        let activity_id = self.next_activity_id("move");
        let mut description = lit(cid);
        description.append(" walks from ");
        description.append(from.as_str());
        description.append(" to ");
        description.append(target.as_str());
        description.append(".");
        let started = self.state.tick;
        let completes = self.state.tick.wrapping_add(MOVE_BASE_TICKS);
        let mut c = self.state.characters.value_at(i).clone();
        c.current_activity = Some(
            Activity {
                id: activity_id.clone(),
                kind: ActivityKind::Moving,
                status: ActivityStatus::Active,
                target_id: Some(target),
                started_at_tick: started,
                completes_at_tick: completes,
                description: description.clone(),
                promise_id: None,
                reserved_coins: 0,
            },
        );
        c.status = CharacterStatus::Moving;
        self.set_char_at(i, c);
        self.record(
            EventKind::ActivityStarted {
                character_id: lit(cid),
                activity_id: activity_id.clone(),
                description: description.clone(),
                completes_at_tick: completes,
            },
        );
        Ok(
            CommandResult::ActivityStarted {
                activity_id,
                description,
                estimated_ticks: MOVE_BASE_TICKS,
                promise: None,
            },
        )
    }

    /// The character waits for a number of ticks.
    fn start_wait_activity(&mut self, cid: &str, ticks: Tick) -> (r: Result<CommandResult, ApiError>)
        ensures
            (final(self)@, res_view(r)) == model::start_wait_activity(old(self)@, cid@, ticks),
    {
        self.ensure_can_start_activity(cid, false)?;
        let i = self.char_index(cid)?;
        let activity_id = self.next_activity_id("wait");
        let mut description = lit(cid);
        description.append(" waits for ");
        push_decimal(&mut description, ticks);
        description.append(" ticks.");
        let started = self.state.tick;
        let completes = self.state.tick.wrapping_add(ticks);
        let mut c = self.state.characters.value_at(i).clone();
        c.current_activity = Some(
            Activity {
                id: activity_id.clone(),
                kind: ActivityKind::Waiting,
                status: ActivityStatus::Active,
                target_id: None,
                started_at_tick: started,
                completes_at_tick: completes,
                description: description.clone(),
                promise_id: None,
                reserved_coins: 0,
            },
        );
        c.status = CharacterStatus::Waiting;
        self.set_char_at(i, c);
        self.record(
            EventKind::ActivityStarted {
                character_id: lit(cid),
                activity_id: activity_id.clone(),
                description: description.clone(),
                completes_at_tick: completes,
            },
        );
        Ok(CommandResult::ActivityStarted { activity_id, description, estimated_ticks: ticks, promise: None })
    }

    /// The character speaks in the conversation of its location.
    fn say(&mut self, cid: &str, target: &SpeechTarget, text: &String) -> (r: Result<
        CommandResult,
        ApiError,
    >)
        ensures
            (final(self)@, res_view(r)) == model::say(old(self)@, cid@, target@, text@),
    {
        let i = self.char_index(cid)?;
        if str_is_blank(text.as_str()) {
            return Err(api_error("empty_speech", "Speech text cannot be empty."));
        }
        match target {
            SpeechTarget::Character(tid) => {
                let j = self.char_index(tid.as_str())?;
                if !(self.state.characters.value_at(j).location_id
                    == self.state.characters.value_at(i).location_id) {
                    return Err(
                        api_error(
                            "target_not_audible",
                            "The target character is not near enough to hear this.",
                        ),
                    );
                }
            },
            _ => {},
        }
        let mut conversation_id = lit("conversation.");
        conversation_id.append(self.state.characters.value_at(i).location_id.as_str());
        let message = SpeechMessage {
            speaker_id: lit(cid),
            target: target.clone(),
            text: text.clone(),
            tick: self.state.tick,
        };
        let mut conv = match self.state.conversations.get(conversation_id.as_str()) {
            Some(c) => c.clone(),
            None => {
                let p: Vec<String> = Vec::new();
                let m: Vec<SpeechMessage> = Vec::new();
                assert(strs(p) =~= Seq::<Seq<char>>::empty());
                assert(views(m) =~= Seq::<crate::protocol::SpecSpeechMessage>::empty());
                Conversation {
                    id: conversation_id.clone(),
                    participant_ids: p,
                    recent_messages: m,
                    open: true,
                }
            },
        };
        let ghost conv0 = conv@;
        insert_unique(&mut conv.participant_ids, lit(cid));
        match target {
            SpeechTarget::Character(tid) => insert_unique(&mut conv.participant_ids, tid.clone()),
            _ => {},
        }
        conv.recent_messages.push(message);
        if conv.recent_messages.len() > 12 {
            conv.recent_messages.remove(0);
        }
        assert(views(conv.recent_messages) =~= model::push_message(conv0.recent_messages, message@));
        self.state.conversations.insert(conversation_id.clone(), conv);
        self.record(
            EventKind::MessageSpoken {
                conversation_id: conversation_id.clone(),
                speaker_id: lit(cid),
                target: target.clone(),
                text: text.clone(),
            },
        );
        Ok(CommandResult::MessageSpoken { conversation_id })
    }

    /// The character orders from a service at its location.
    fn start_order(&mut self, cid: &str, service_id: &str, item: &str, already_reserved: bool) -> (r:
        Result<CommandResult, ApiError>)
        ensures
            (final(self)@, res_view(r)) == model::start_order(
                old(self)@,
                cid@,
                service_id@,
                item@,
                already_reserved,
            ),
    {
        self.ensure_can_start_activity(cid, false)?;
        let i = self.char_index(cid)?;
        let si = self.service_index(service_id)?;
        let svc = self.state.world.services[si].clone();
        if !(svc.location_id == self.state.characters.value_at(i).location_id) {
            return Err(
                with_suggestions(
                    api_error(
                        "service_not_nearby",
                        "The requested service is not available at this location.",
                    ),
                    two("observe", "move"),
                ),
            );
        }
        if !str_eq(svc.item.as_str(), item) {
            return Err(
                api_error(
                    "item_unavailable",
                    "The requested item is not available from this service.",
                ),
            );
        }
        if !already_reserved {
            let actor = self.state.characters.value_at(i);
            if actor.coins.saturating_sub(actor.reserved_coins) < svc.price_coins {
                return Err(
                    api_error(
                        "insufficient_coins",
                        "The character does not have enough unreserved coins.",
                    ),
                );
            }
            let mut c = actor.clone();
            c.reserved_coins = c.reserved_coins + svc.price_coins;
            self.set_char_at(i, c);
            self.record(EventKind::CoinsReserved { character_id: lit(cid), amount: svc.price_coins });
        }
        let activity_id = self.next_activity_id("order");
        let promise_id = self.next_promise_id();
        let started = self.state.tick;
        let completes = self.state.tick.wrapping_add(svc.duration_ticks);
        let mut description = lit(cid);
        description.append(" orders ");
        description.append(svc.item.as_str());
        description.append(" at ");
        description.append(svc.name.as_str());
        description.append(".");
        let mut c = self.state.characters.value_at(i).clone();
        c.current_activity = Some(
            Activity {
                id: activity_id.clone(),
                kind: ActivityKind::PlacingOrder,
                status: ActivityStatus::Active,
                target_id: Some(svc.id.clone()),
                started_at_tick: started,
                completes_at_tick: completes,
                description: description.clone(),
                promise_id: Some(promise_id.clone()),
                reserved_coins: svc.price_coins,
            },
        );
        c.status = CharacterStatus::PlacingOrder;
        self.set_char_at(i, c);
        let mut hint = lit("Your ");
        hint.append(svc.item.as_str());
        hint.append(" is ready at ");
        hint.append(svc.name.as_str());
        hint.append(".");
        let promise = Promise {
            id: promise_id,
            activity_id: activity_id.clone(),
            trigger: lit("activity_ready"),
            estimated_ready_at_tick: completes,
            resume_hint: hint,
        };
        self.record(
            EventKind::ActivityStarted {
                character_id: lit(cid),
                activity_id: activity_id.clone(),
                description: description.clone(),
                completes_at_tick: completes,
            },
        );
        self.record(EventKind::PromiseCreated { promise: promise.clone() });
        Ok(
            CommandResult::ActivityStarted {
                activity_id,
                description,
                estimated_ticks: svc.duration_ticks,
                promise: Some(promise),
            },
        )
    }

    fn home_manual(&self, cid: &str) -> (r: Result<HomeManual, ApiError>)
        ensures
            res_view(r) == model::home_manual(self@.state, cid@),
    {
        let i = self.char_index(cid)?;
        let actor = self.state.characters.value_at(i);
        let actions = vec![
            HomeAction::Enter,
            HomeAction::Leave,
            HomeAction::Lock,
            HomeAction::Unlock,
            HomeAction::ReturnHome,
        ];
        assert(actions@ =~= seq![
            HomeAction::Enter,
            HomeAction::Leave,
            HomeAction::Lock,
            HomeAction::Unlock,
            HomeAction::ReturnHome,
        ]);
        Ok(
            HomeManual {
                home_id: actor.home_id.clone(),
                owner_character_id: actor.id.clone(),
                supported_actions: actions,
                locked: self.home_locked(actor.home_id.as_str()),
                description: lit(
                    "Homes support entering, leaving, locking, unlocking, and returning home.",
                ),
            },
        )
    }

    fn set_home_lock(&mut self, home_id: &String, locked: bool)
        ensures
            final(self)@ == model::set_home_lock(old(self)@, home_id@, locked),
    {
        self.state.home_locks.insert(home_id.clone(), locked);
    }

    /// Entering, leaving, locking and unlocking the character's own home.
    fn home_action(&mut self, cid: &str, action: HomeAction) -> (r: Result<CommandResult, ApiError>)
        ensures
            (final(self)@, res_view(r)) == model::home_action(old(self)@, cid@, action),
    {
        let i = self.char_index(cid)?;
        let home_id = self.state.characters.value_at(i).home_id.clone();
        match action {
            HomeAction::Enter | HomeAction::ReturnHome => {
                if self.state.characters.value_at(i).location_id == home_id {
                    let mut c = self.state.characters.value_at(i).clone();
                    c.status = CharacterStatus::InsideHome;
                    self.set_char_at(i, c);
                    let locked = self.home_locked(home_id.as_str());
                    return Ok(
                        CommandResult::HomeUpdated {
                            home_id: home_id.clone(),
                            locked,
                            location_id: home_id,
                        },
                    );
                }
                let location_id = self.state.characters.value_at(i).location_id.clone();
                self.start_move(cid, &MoveMode::ToTarget { target: home_id.clone() })?;
                let locked = self.home_locked(home_id.as_str());
                Ok(CommandResult::HomeUpdated { home_id, locked, location_id })
            },
            HomeAction::Leave => {
                let location_id = self.state.characters.value_at(i).location_id.clone();
                if !(location_id == home_id) {
                    return Err(api_error("not_at_home", "The character is not at home."));
                }
                let k = match self.location_index(home_id.as_str()) {
                    Some(k) => k,
                    None => return Err(
                        api_error("location_missing", "The character's home location is missing."),
                    ),
                };
                if self.state.world.locations[k].exits.len() == 0 {
                    return Err(api_error("no_exit", "The home has no exit."));
                }
                let exit = self.state.world.locations[k].exits[0].clone();
                let mut c = self.state.characters.value_at(i).clone();
                c.status = CharacterStatus::Idle;
                self.set_char_at(i, c);
                self.start_move(cid, &MoveMode::ToTarget { target: exit })?;
                let locked = self.home_locked(home_id.as_str());
                Ok(CommandResult::HomeUpdated { home_id, locked, location_id })
            },
            HomeAction::Lock => {
                let location_id = self.state.characters.value_at(i).location_id.clone();
                self.set_home_lock(&home_id, true);
                self.record(EventKind::HomeLocked { character_id: lit(cid), home_id: home_id.clone() });
                Ok(CommandResult::HomeUpdated { home_id, locked: true, location_id })
            },
            HomeAction::Unlock => {
                let location_id = self.state.characters.value_at(i).location_id.clone();
                self.set_home_lock(&home_id, false);
                self.record(
                    EventKind::HomeUnlocked { character_id: lit(cid), home_id: home_id.clone() },
                );
                Ok(CommandResult::HomeUpdated { home_id, locked: false, location_id })
            },
        }
    }

    /// Listing and acknowledging the character's notifications.
    fn notification_action(&mut self, cid: &str, action: &NotificationAction) -> (r: Result<
        CommandResult,
        ApiError,
    >)
        ensures
            (final(self)@, res_view(r)) == model::notification_action(old(self)@, cid@, action@),
    {
        self.char_index(cid)?;
        match action {
            NotificationAction::List => Ok(
                CommandResult::Notifications { notifications: self.notifications_for(cid, false) },
            ),
            NotificationAction::Ack { notification_id } => {
                let k = match self.state.notifications.find(notification_id.as_str()) {
                    Some(k) => k,
                    None => return Err(
                        api_error("unknown_notification", "The notification does not exist."),
                    ),
                };
                let mut note = self.state.notifications.value_at(k).clone();
                if !str_eq(note.character_id.as_str(), cid) {
                    return Err(
                        api_error(
                            "notification_not_owned",
                            "The notification belongs to another character.",
                        ),
                    );
                }
                note.acknowledged = true;
                proof {
                    lemma_insert_existing(self@.state.notifications, k as int, note@);
                }
                self.state.notifications.replace_at(k, note);
                self.record(
                    EventKind::NotificationAcknowledged {
                        character_id: lit(cid),
                        notification_id: notification_id.clone(),
                    },
                );
                Ok(CommandResult::NotificationAcknowledged { notification_id: notification_id.clone() })
            },
        }
    }

    fn required_queue_reservation(&self, cid: &str, actions: &Vec<QueuedCommand>) -> (r: Result<
        u32,
        ApiError,
    >)
        ensures
            res_view(r) == model::required_queue_reservation(self@.state, cid@, views(*actions)),
    {
        self.char_index(cid)?;
        let ghost s = views(*actions);
        let mut total: u32 = 0;
        let mut i: usize = 0;
        assert(s.skip(0) =~= s);
        while i < actions.len()
            invariant
                s == views(*actions),
                i <= s.len(),
                model::require_character(self@.state, cid@) is Ok,
                model::queue_reservation(self@.state, s, 0) == model::queue_reservation(
                    self@.state,
                    s.skip(i as int),
                    total,
                ),
            decreases s.len() - i,
        {
            assert(s.skip(i as int)[0] == s[i as int]);
            assert(s.skip(i as int).drop_first() =~= s.skip(i + 1));
            match &actions[i].command {
                QueueableCommand::Order { service_id, item } => {
                    let si = self.service_index(service_id.as_str())?;
                    if !(self.state.world.services[si].item == *item) {
                        return Err(
                            api_error(
                                "item_unavailable",
                                "A queued item is not available from the requested service.",
                            ),
                        );
                    }
                    total = total.saturating_add(self.state.world.services[si].price_coins);
                },
                _ => {},
            }
            i = i + 1;
        }
        Ok(total)
    }

    /// Runs one queued command.
    fn run_queued(&mut self, cid: &str, cmd: &QueueableCommand) -> (r: Result<CommandResult, ApiError>)
        ensures
            (final(self)@, res_view(r)) == model::run_queued(old(self)@, cid@, cmd@),
    {
        match cmd {
            QueueableCommand::Move { mode } => self.start_move(cid, mode),
            QueueableCommand::Say { target, text } => self.say(cid, target, text),
            QueueableCommand::Order { service_id, item } => self.start_order(
                cid,
                service_id.as_str(),
                item.as_str(),
                true,
            ),
            QueueableCommand::Wait { ticks } => self.start_wait_activity(cid, *ticks),
            QueueableCommand::Home { action } => self.home_action(cid, *action),
        }
    }

    /// Works through the character's queue: steps start one after another
    /// until one takes time, one fails, or the queue is empty.
    fn start_next_queue_step(&mut self, cid: &str)
        ensures
            final(self)@ == model::start_next_queue_step(old(self)@, cid@),
    {
        let n = match self.state.characters.find(cid) {
            Some(i) => self.state.characters.value_at(i).queued_commands.len(),
            None => return,
        };
        let ghost e0 = self@;
        let mut k: usize = 0;
        while k < n
            invariant
                k <= n,
                self@ == model::run_queue_steps(e0, cid@, k as nat),
            decreases n - k,
        {
            self.queue_step(cid);
            k = k + 1;
        }
    }

    /// Starts the character's next queued command when it is free.
    fn queue_step(&mut self, cid: &str)
        ensures
            final(self)@ == model::queue_step(old(self)@, cid@),
    {
        let i = match self.char_index(cid) {
            Ok(i) => i,
            Err(_) => return,
        };
        if self.state.characters.value_at(i).current_activity.is_some()
            || self.state.characters.value_at(i).queued_commands.len() == 0 {
            return;
        }
        let mut c = self.state.characters.value_at(i).clone();
        let ghost q = views(c.queued_commands);
        let next = c.queued_commands.remove(0);
        assert(views(c.queued_commands) =~= q.drop_first());
        let remaining = c.queued_commands.len();
        self.set_char_at(i, c);
        self.record(EventKind::QueueStepStarted { character_id: lit(cid), remaining });
        let result = self.run_queued(cid, &next.command);
        match result {
            Ok(_) => {},
            Err(error) => {
                self.release_all_reservations(cid);
                match self.char_index(cid) {
                    Ok(j) => {
                        let mut c3 = self.state.characters.value_at(j).clone();
                        let empty: Vec<QueuedCommand> = Vec::new();
                        assert(views(empty) =~= Seq::<crate::protocol::SpecQueueableCommand>::empty());
                        c3.queued_commands = empty;
                        self.set_char_at(j, c3);
                    },
                    Err(_) => {},
                }
                self.record(EventKind::QueueStepFailed { character_id: lit(cid), code: error.code });
            },
        }
    }

    /// Accepts a queue of one to three commands, reserving what its orders cost.
    fn accept_queue(&mut self, cid: &str, actions: Vec<QueuedCommand>) -> (r: Result<
        CommandResult,
        ApiError,
    >)
        ensures
            (final(self)@, res_view(r)) == model::accept_queue(old(self)@, cid@, views(actions)),
    {
        self.ensure_can_start_activity(cid, false)?;
        if actions.len() == 0 {
            return Err(api_error("empty_queue", "A queue must include at least one action."));
        }
        if actions.len() > model::MAX_QUEUE_LEN {
            return Err(api_error("queue_too_long", "Queues are capped at three actions."));
        }
        let reserve = self.required_queue_reservation(cid, &actions)?;
        let i = self.char_index(cid)?;
        let actor = self.state.characters.value_at(i);
        if actor.coins.saturating_sub(actor.reserved_coins) < reserve {
            return Err(
                api_error(
                    "insufficient_coins",
                    "The character cannot reserve enough coins for this queue.",
                ),
            );
        }
        let queued_count = actions.len();
        let mut c = actor.clone();
        c.reserved_coins = c.reserved_coins + reserve;
        c.queued_commands = actions;
        self.set_char_at(i, c);
        if reserve > 0 {
            self.record(EventKind::CoinsReserved { character_id: lit(cid), amount: reserve });
        }
        self.record(
            EventKind::QueueAccepted { character_id: lit(cid), queued_count, reserved_coins: reserve },
        );
        self.start_next_queue_step(cid);
        Ok(CommandResult::QueueAccepted { queued_count, reserved_coins: reserve })
    }

    fn home_occupied(&self, home_id: &str) -> (r: bool)
        ensures
            r == model::is_occupied(self@.state.characters, home_id@),
    {
        let n = self.state.characters.len();
        let mut i: usize = 0;
        while i < n
            invariant
                n == self@.state.characters.len(),
                i <= n,
                forall|k: int|
                    0 <= k < i ==> (#[trigger] self@.state.characters[k]).1.home_id != home_id@,
            decreases n - i,
        {
            if str_eq(self.state.characters.value_at(i).home_id.as_str(), home_id) {
                assert(self@.state.characters[i as int].1.home_id == home_id@);
                return true;
            }
            i = i + 1;
        }
        false
    }

    /// Gives the first free home to the character.
    fn allocate_home(&mut self, cid: &str) -> (r: Option<String>)
        ensures
            (final(self)@, opt_s(r)) == model::allocate_home(old(self)@, cid@),
    {
        let n = self.state.world.homes.len();
        let mut i: usize = 0;
        while i < n
            invariant
                n == self@.state.world.homes.len(),
                i <= n,
                *self == *old(self),
                model::first_free_home(self@.state, 0) == model::first_free_home(
                    self@.state,
                    i as nat,
                ),
            decreases n - i,
        {
            let h = &self.state.world.homes[i];
            let free = h.owner_character_id.is_none() && !self.home_occupied(h.id.as_str());
            assert(free == model::home_is_free(self@.state, self@.state.world.homes[i as int]));
            if free {
                let id = h.id.clone();
                let home = HomeDefinition { id: h.id.clone(), owner_character_id: Some(lit(cid)) };
                let ghost old_homes = self@.state.world.homes;
                self.state.world.homes.set(i, home);
                assert(self@.state.world.homes =~= old_homes.update(
                    i as int,
                    crate::protocol::SpecHome { owner_character_id: Some(cid@), ..old_homes[i as int] },
                ));
                return Some(id);
            }
            i = i + 1;
        }
        None
    }

    /// Creates the character in a free home, or at the spawn point.
    fn create_character(
        &mut self,
        cid: &String,
        name: &String,
        body_color: &String,
        face_color: &String,
    ) -> (r: Result<Character, ApiError>)
        ensures
            (final(self)@, res_view(r)) == model::create_character(
                old(self)@,
                cid@,
                name@,
                body_color@,
                face_color@,
            ),
    {
        if self.state.characters.contains_key(cid.as_str()) {
            return Err(
                api_error(
                    "character_exists",
                    "A character already exists for this token or character id.",
                ),
            );
        }
        validate_hex_color(body_color.as_str(), "body_color")?;
        validate_hex_color(face_color.as_str(), "face_color")?;
        let home = self.allocate_home(cid.as_str());
        let home_id = match home {
            Some(h) => h,
            None => self.state.world.spawn_location_id.clone(),
        };
        let empty: Vec<QueuedCommand> = Vec::new();
        assert(views(empty) =~= Seq::<crate::protocol::SpecQueueableCommand>::empty());
        let c = Character {
            id: cid.clone(),
            name: name.clone(),
            body_color: body_color.clone(),
            face_color: face_color.clone(),
            location_id: home_id.clone(),
            home_id: home_id.clone(),
            coins: self.state.world.starting_coins,
            reserved_coins: 0,
            current_activity: None,
            queued_commands: empty,
            last_agent_action_tick: self.state.tick,
            status: CharacterStatus::Idle,
        };
        self.state.characters.insert(cid.clone(), c.clone());
        self.record(EventKind::CharacterCreated { character_id: cid.clone(), home_id });
        Ok(c)
    }

    // ------------------------------------------------------------ time

    /// Finishes an activity of the character: arriving, paying and being
    /// notified, or being done waiting.
    fn complete_activity(&mut self, cid: &String, a: Activity)
        requires
            lookup(old(self)@.state.characters, cid@) is Some,
        ensures
            final(self)@ == model::complete_activity(old(self)@, cid@, a@),
    {
        let i = match self.char_index(cid.as_str()) {
            Ok(i) => i,
            Err(_) => return,
        };
        let mut c0 = self.state.characters.value_at(i).clone();
        c0.current_activity = None;
        self.set_char_at(i, c0);
        match a.kind {
            ActivityKind::Moving | ActivityKind::ReturningHome => {
                match &a.target_id {
                    Some(t) => {
                        let mut c = self.state.characters.value_at(i).clone();
                        let from = c.location_id.clone();
                        c.status = if *t == c.home_id {
                            CharacterStatus::InsideHome
                        } else {
                            CharacterStatus::Idle
                        };
                        c.location_id = t.clone();
                        self.set_char_at(i, c);
                        self.record(
                            EventKind::CharacterMoved { character_id: cid.clone(), from, to: t.clone() },
                        );
                    },
                    None => {},
                }
            },
            ActivityKind::PlacingOrder => {
                match &a.target_id {
                    Some(sid) => match self.service_index(sid.as_str()) {
                        Ok(si) => {
                            let price = self.state.world.services[si].price_coins;
                            let mut c = self.state.characters.value_at(i).clone();
                            c.reserved_coins = c.reserved_coins.saturating_sub(price);
                            c.coins = c.coins.saturating_sub(price);
                            c.status = CharacterStatus::Idle;
                            self.set_char_at(i, c);
                            self.record(EventKind::CoinsSpent { character_id: cid.clone(), amount: price });
                        },
                        Err(_) => {},
                    },
                    None => {},
                }
                match &a.promise_id {
                    Some(pid) => {
                        let sid = match &a.target_id {
                            Some(t) => t.clone(),
                            None => String::new(),
                        };
                        let hint = match self.service_index(sid.as_str()) {
                            Ok(si) => {
                                let svc = &self.state.world.services[si];
                                let mut h = lit("Your ");
                                h.append(svc.item.as_str());
                                h.append(" is ready at ");
                                h.append(svc.name.as_str());
                                h.append(".");
                                h
                            },
                            Err(_) => lit("Your activity is ready."),
                        };
                        self.record(
                            EventKind::PromiseResolved {
                                promise_id: pid.clone(),
                                character_id: cid.clone(),
                                resume_hint: hint.clone(),
                            },
                        );
                        let related = vec![(lit("promise_id"), pid.clone()), (lit("activity_id"), a.id.clone())];
                        assert(related@.map_values(|p: (String, String)| (p.0@, p.1@)) =~= seq![
                            ("promise_id"@, pid@),
                            ("activity_id"@, a.id@),
                        ]);
                        self.create_notification(cid.as_str(), "promise_resolved", hint.as_str(), related);
                    },
                    None => {},
                }
            },
            ActivityKind::Waiting => {
                let mut c = self.state.characters.value_at(i).clone();
                c.status = CharacterStatus::Idle;
                self.set_char_at(i, c);
            },
        }
        self.record(EventKind::ActivityCompleted { character_id: cid.clone(), activity_id: a.id });
    }

    fn complete_due_activities(&mut self)
        ensures
            final(self)@ == model::complete_due_activities(old(self)@),
    {
        let n = self.state.characters.len();
        let tick = self.state.tick;
        let mut ids: Vec<String> = Vec::new();
        let mut i: usize = 0;
        while i < n
            invariant
                n == self@.state.characters.len(),
                tick == self@.state.tick,
                i <= n,
                strs(ids) == model::due_ids(self@.state.characters.take(i as int), tick),
            decreases n - i,
        {
            assert(self@.state.characters.take(i + 1).drop_last() =~= self@.state.characters.take(
                i as int,
            ));
            match &self.state.characters.value_at(i).current_activity {
                Some(a) => {
                    if a.completes_at_tick <= tick {
                        ids.push(self.state.characters.key_at(i).clone());
                    }
                },
                None => {},
            }
            i = i + 1;
            assert(strs(ids) =~= model::due_ids(self@.state.characters.take(i as int), tick));
        }
        assert(self@.state.characters.take(n as int) =~= self@.state.characters);
        let ghost e0 = self@;
        let ghost sids = strs(ids);
        let mut j: usize = 0;
        while j < ids.len()
            invariant
                sids == strs(ids),
                j <= sids.len(),
                self@ == model::complete_all(e0, sids.take(j as int)),
            decreases sids.len() - j,
        {
            assert(sids.take(j + 1).drop_last() =~= sids.take(j as int));
            let cid = &ids[j];
            match self.char_index(cid.as_str()) {
                Ok(k) => {
                    match &self.state.characters.value_at(k).current_activity {
                        Some(a) => {
                            let a = a.clone();
                            self.complete_activity(cid, a);
                            self.start_next_queue_step(cid.as_str());
                        },
                        None => {},
                    }
                },
                Err(_) => {},
            }
            j = j + 1;
        }
        assert(sids.take(j as int) =~= sids);
    }

    #[verifier::spinoff_prover]
    fn return_inactive_characters_home(&mut self)
        ensures
            final(self)@ == model::return_inactive_characters_home(old(self)@),
    {
        let n = self.state.characters.len();
        let tick = self.state.tick;
        let mut ids: Vec<String> = Vec::new();
        let mut i: usize = 0;
        while i < n
            invariant
                n == self@.state.characters.len(),
                tick == self@.state.tick,
                i <= n,
                strs(ids) == model::inactive_ids(self@.state.characters.take(i as int), tick),
            decreases n - i,
        {
            assert(self@.state.characters.take(i + 1).drop_last() =~= self@.state.characters.take(
                i as int,
            ));
            let c = self.state.characters.value_at(i);
            if tick.saturating_sub(c.last_agent_action_tick) >= crate::protocol::OFFLINE_RETURN_HOME_TICKS
                && c.current_activity.is_none() && !(c.location_id == c.home_id) {
                ids.push(self.state.characters.key_at(i).clone());
            }
            i = i + 1;
            assert(strs(ids) =~= model::inactive_ids(self@.state.characters.take(i as int), tick));
        }
        assert(self@.state.characters.take(n as int) =~= self@.state.characters);
        proof {
            model::lemma_inactive_ids_are_keys(self@.state.characters, tick);
        }
        let ghost e0 = self@;
        let ghost sids = strs(ids);
        let mut j: usize = 0;
        while j < ids.len()
            invariant
                sids == strs(ids),
                j <= sids.len(),
                self@ == model::send_all_home(e0, sids.take(j as int)),
                forall|k: int| 0 <= k < sids.len() ==> has_key(self@.state.characters, #[trigger] sids[k]),
            decreases sids.len() - j,
        {
            assert(sids.take(j + 1).drop_last() =~= sids.take(j as int));
            let cid = &ids[j];
            match self.char_index(cid.as_str()) {
                Ok(k) => {
                    let mut c = self.state.characters.value_at(k).clone();
                    let from = c.location_id.clone();
                    let to = c.home_id.clone();
                    c.location_id = to.clone();
                    c.status = CharacterStatus::InsideHome;
                    let ghost before = self@.state.characters;
                    self.set_char_at(k, c);
                    proof {
                        let after = self@.state.characters;
                        assert forall|q: int| 0 <= q < sids.len() implies has_key(
                            after,
                            #[trigger] sids[q],
                        ) by {
                            let p = key_index(before, sids[q]);
                            assert(after[p].0 == before[p].0);
                        }
                    }
                    self.record(EventKind::CharacterSentHome { character_id: cid.clone(), from, to });
                },
                Err(_) => {},
            }
            j = j + 1;
        }
        assert(sids.take(j as int) =~= sids);
    }

    /// Advances time by `ticks`: each tick completes due activities and sends
    /// long-idle absent characters home; a non-empty span is recorded.
    pub fn advance_ticks(&mut self, ticks: Tick)
        ensures
            final(self)@ == model::advance_ticks(old(self)@, ticks),
    {
        if ticks == 0 {
            return;
        }
        let from_tick = self.state.tick;
        let ghost e0 = self@;
        let mut k: u64 = 0;
        while k < ticks
            invariant
                k <= ticks,
                self@ == model::run_ticks(e0, k as nat),
            decreases ticks - k,
        {
            self.state.tick = self.state.tick.saturating_add(1);
            self.complete_due_activities();
            self.return_inactive_characters_home();
            k = k + 1;
        }
        self.record(EventKind::WorldTimeAdvanced { from_tick, to_tick: self.state.tick });
    }

    // ------------------------------------------------------------ commands

    /// Runs a command that passed the freshness and precondition checks.
    #[verifier::rlimit(60)]
    #[verifier::spinoff_prover]
    fn dispatch(&mut self, cid: &String, cmd: &Command) -> (r: Result<
        (Option<CommandResult>, Option<Observation>),
        ApiError,
    >)
        ensures
            (final(self)@, inner_view(r)) == model::dispatch(old(self)@, cid@, cmd@),
    {
        match cmd {
            Command::CreateCharacter { name, body_color, face_color } => {
                let c = self.create_character(cid, name, body_color, face_color)?;
                Ok((Some(CommandResult::CharacterCreated { character: c }), None))
            },
            Command::Observe => {
                let o = self.observe(cid.as_str())?;
                Ok((None, Some(o)))
            },
            Command::LookAt { target } => {
                let r = self.look_at(cid.as_str(), target.as_str())?;
                let o = self.observe(cid.as_str())?;
                Ok((Some(r), Some(o)))
            },
            Command::Move { mode } => {
                let r = self.start_move(cid.as_str(), mode)?;
                let o = self.observe(cid.as_str())?;
                Ok((Some(r), Some(o)))
            },
            Command::Say { target, text } => {
                let r = self.say(cid.as_str(), target, text)?;
                let o = self.observe(cid.as_str())?;
                Ok((Some(r), Some(o)))
            },
            Command::Order { service_id, item } => {
                let r = self.start_order(cid.as_str(), service_id.as_str(), item.as_str(), false)?;
                let o = self.observe(cid.as_str())?;
                Ok((Some(r), Some(o)))
            },
            Command::Wait { ticks } => {
                self.advance_ticks(*ticks);
                let o = self.observe(cid.as_str())?;
                Ok((Some(CommandResult::Waited { advanced_ticks: *ticks }), Some(o)))
            },
            Command::Queue { actions } => {
                let r = self.accept_queue(cid.as_str(), crate::protocol::clone_queue(actions))?;
                let o = self.observe(cid.as_str())?;
                Ok((Some(r), Some(o)))
            },
            Command::HomeManual => {
                let m = self.home_manual(cid.as_str())?;
                Ok((Some(CommandResult::HomeManual { manual: m }), None))
            },
            Command::Home { action } => {
                let r = self.home_action(cid.as_str(), *action)?;
                let o = self.observe(cid.as_str())?;
                Ok((Some(r), Some(o)))
            },
            Command::Notifications { action } => {
                let r = self.notification_action(cid.as_str(), action)?;
                let o = self.observe(cid.as_str())?;
                Ok((Some(r), Some(o)))
            },
        }
    }

    fn apply_inner(&mut self, envelope: &CommandEnvelope) -> (r: Result<
        (Option<CommandResult>, Option<Observation>),
        ApiError,
    >)
        ensures
            (final(self)@, inner_view(r)) == model::apply_inner(old(self)@, envelope@),
    {
        self.validate_freshness(envelope)?;
        self.validate_preconditions(envelope)?;
        let saved = self.state.clone();
        let n = self.events.len();
        let ghost e0 = self@;
        self.touch_actor(envelope.character_id.as_str());
        let ghost e1 = self@;
        let r = self.dispatch(&envelope.character_id, &envelope.command);
        if r.is_err() {
            proof {
                crate::laws::lemma_touch_actor(e0, envelope.character_id@);
                crate::laws::lemma_dispatch(e1, envelope.character_id@, envelope.command@);
            }
            let ghost e2 = self@;
            let ghost before = self.events@;
            self.state = saved;
            self.events.truncate(n);
            assert(self.events@ =~= before.subrange(0, n as int));
            assert forall|k: int| 0 <= k < n implies #[trigger] views(self.events)[k] == e0.events[k] by {
                assert(views(self.events)[k] == before[k]@);
                assert(e2.events[k] == before[k]@);
                assert(e2.events[k] == e1.events[k]);
            }
            assert(views(self.events) =~= e0.events);
        }
        r
    }

    /// Applies one command envelope and answers it. An accepted command is
    /// appended to the command log; a rejected one changes nothing but a
    /// `CommandRejected` event, and is answered with its error.
    pub fn apply(&mut self, envelope: CommandEnvelope) -> (r: CommandResponse)
        ensures
            (final(self)@, r@) == model::apply(old(self)@, envelope@),
    {
        let command_id = envelope.command_id.clone();
        let result = self.apply_inner(&envelope);
        match result {
            Ok((result, observation)) => {
                let ghost before = self@;
                self.state.command_log.push(envelope);
                assert(views(self.state.command_log) =~= before.state.command_log.push(envelope@));
                CommandResponse {
                    ok: true,
                    accepted: true,
                    command_id,
                    tick: self.state.tick,
                    result,
                    observation,
                    error: None,
                }
            },
            Err(error) => {
                self.record(
                    EventKind::CommandRejected {
                        character_id: envelope.character_id.clone(),
                        code: error.code.clone(),
                    },
                );
                CommandResponse {
                    ok: false,
                    accepted: false,
                    command_id,
                    tick: self.state.tick,
                    result: None,
                    observation: None,
                    error: Some(error),
                }
            },
        }
    }

    /// An engine over a valid world: no characters yet, every home unlocked,
    /// and a `WorldLoaded` event.
    pub fn new(world: WorldDefinition) -> (r: Result<Engine, CoreError>)
        ensures
            core_res(r) == model::new_engine(world@),
    {
        validate_world(&world)?;
        let mut home_locks: StrMap<bool> = StrMap::new();
        let ghost hs = views(world.homes);
        let mut i: usize = 0;
        while i < world.homes.len()
            invariant
                hs == views(world.homes),
                i <= hs.len(),
                home_locks@ == model::initial_home_locks(hs.take(i as int)),
            decreases hs.len() - i,
        {
            assert(hs.take(i + 1).drop_last() =~= hs.take(i as int));
            home_locks.insert(world.homes[i].id.clone(), false);
            i = i + 1;
        }
        assert(hs.take(i as int) =~= hs);
        let world_id = world.id.clone();
        let command_log: Vec<CommandEnvelope> = Vec::new();
        let events: Vec<Event> = Vec::new();
        assert(views(command_log) =~= Seq::<crate::protocol::SpecEnvelope>::empty());
        assert(views(events) =~= Seq::<crate::protocol::SpecEvent>::empty());
        let mut engine = Engine {
            state: WorldSnapshot {
                schema_version: lit(SCHEMA_VERSION),
                world_id: world_id.clone(),
                tick: 0,
                next_event_id: 1,
                next_command_seq: 1,
                next_conversation_seq: 1,
                world,
                characters: StrMap::new(),
                home_locks,
                conversations: StrMap::new(),
                notifications: StrMap::new(),
                command_log,
            },
            events,
        };
        engine.record(EventKind::WorldLoaded { world_id });
        Ok(engine)
    }

    /// Rebuilds an engine by applying the commands, in order, to a new engine
    /// over the world.
    pub fn replay(world: WorldDefinition, commands: &[CommandEnvelope]) -> (r: Result<
        Engine,
        CoreError,
    >)
        ensures
            core_res(r) == model::replay(world@, commands@.map_values(|c: CommandEnvelope| c@)),
    {
        let mut engine = Engine::new(world)?;
        let ghost e0 = engine@;
        let ghost cs = commands@.map_values(|c: CommandEnvelope| c@);
        let mut i: usize = 0;
        while i < commands.len()
            invariant
                cs == commands@.map_values(|c: CommandEnvelope| c@),
                i <= cs.len(),
                engine@ == model::apply_all(e0, cs.take(i as int)),
            decreases cs.len() - i,
        {
            assert(cs.take(i + 1).drop_last() =~= cs.take(i as int));
            engine.apply(commands[i].clone());
            i = i + 1;
        }
        assert(cs.take(i as int) =~= cs);
        Ok(engine)
    }
}

} // verus!
