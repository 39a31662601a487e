//! The data the engine reads and produces: world definitions, commands,
//! characters, events, observations and responses, each with its view.
use vstd::prelude::*;
use crate::strmap::{StrMap, Duplicate};

verus! {

pub type Tick = u64;

pub type EventId = u64;

pub type CharacterId = String;

pub type LocationId = String;

pub type EntityId = String;

pub type ConversationId = String;

/// Version stamped on events, snapshots and observations.
pub const SCHEMA_VERSION: &'static str = "0.1";

/// Ticks in one in-game day.
pub const TICKS_PER_INGAME_DAY: Tick = 21_600;

/// Ticks without an agent action after which an idle character is sent home.
pub const OFFLINE_RETURN_HOME_TICKS: Tick = 3_600;

pub open spec fn opt_str(o: Option<String>) -> Option<Seq<char>> {
    match o {
        Some(s) => Some(s@),
        None => None,
    }
}

pub open spec fn strs(v: Vec<String>) -> Seq<Seq<char>> {
    v@.map_values(|s: String| s@)
}

pub open spec fn views<T: View>(v: Vec<T>) -> Seq<T::V> {
    v@.map_values(|x: T| x@)
}

pub open spec fn opt_view<T: View>(o: Option<T>) -> Option<T::V> {
    match o {
        Some(x) => Some(x@),
        None => None,
    }
}

/// A result by the views of its value and of its error.
pub open spec fn res_view<T: View>(r: Result<T, ApiError>) -> Result<T::V, SpecApiError> {
    match r {
        Ok(x) => Ok(x@),
        Err(e) => Err(e@),
    }
}

#[derive(Clone, Copy, Debug, PartialEq, Eq, Structural)]
pub enum Direction {
    Forward,
    Back,
    Left,
    Right,
    North,
    South,
    East,
    West,
}

#[derive(Clone, Copy, Debug, PartialEq, Eq, Structural)]
pub enum HomeAction {
    Enter,
    Leave,
    Lock,
    Unlock,
    ReturnHome,
}

#[derive(Clone, Copy, Debug, PartialEq, Eq, Structural)]
pub enum PreconditionKind {
    NearbyOrVisible,
    ActorAtLocation,
}

#[derive(Clone, Copy, Debug, PartialEq, Eq, Structural)]
pub enum ActivityKind {
    Moving,
    PlacingOrder,
    Waiting,
    ReturningHome,
}

#[derive(Clone, Copy, Debug, PartialEq, Eq, Structural)]
pub enum ActivityStatus {
    Active,
    Completed,
    Failed,
}

#[derive(Clone, Copy, Debug, PartialEq, Eq, Structural)]
pub enum CharacterStatus {
    Idle,
    Moving,
    PlacingOrder,
    Waiting,
    InsideHome,
}

// ---------------------------------------------------------------- commands

#[derive(Debug, PartialEq, Eq)]
pub enum MoveMode {
    ToTarget { target: LocationId },
    Direction { direction: Direction, distance: u32 },
}

pub enum SpecMoveMode {
    ToTarget { target: Seq<char> },
    Direction { direction: Direction, distance: u32 },
}

impl View for MoveMode {
    type V = SpecMoveMode;

    open spec fn view(&self) -> SpecMoveMode {
        match self {
            MoveMode::ToTarget { target } => SpecMoveMode::ToTarget { target: target@ },
            MoveMode::Direction { direction, distance } => SpecMoveMode::Direction {
                direction: *direction,
                distance: *distance,
            },
        }
    }
}

impl Clone for MoveMode {
    fn clone(&self) -> (r: Self)
        ensures
            r@ == self@,
    {
        match self {
            MoveMode::ToTarget { target } => MoveMode::ToTarget { target: target.clone() },
            MoveMode::Direction { direction, distance } => MoveMode::Direction {
                direction: *direction,
                distance: *distance,
            },
        }
    }
}

#[derive(Debug, PartialEq, Eq)]
pub enum SpeechTarget {
    Room,
    Shout,
    Character(CharacterId),
}

pub enum SpecSpeechTarget {
    Room,
    Shout,
    Character(Seq<char>),
}

impl View for SpeechTarget {
    type V = SpecSpeechTarget;

    open spec fn view(&self) -> SpecSpeechTarget {
        match self {
            SpeechTarget::Room => SpecSpeechTarget::Room,
            SpeechTarget::Shout => SpecSpeechTarget::Shout,
            SpeechTarget::Character(c) => SpecSpeechTarget::Character(c@),
        }
    }
}

impl Clone for SpeechTarget {
    fn clone(&self) -> (r: Self)
        ensures
            r@ == self@,
    {
        match self {
            SpeechTarget::Room => SpeechTarget::Room,
            SpeechTarget::Shout => SpeechTarget::Shout,
            SpeechTarget::Character(c) => SpeechTarget::Character(c.clone()),
        }
    }
}

#[derive(Debug, PartialEq, Eq)]
pub enum NotificationAction {
    List,
    Ack { notification_id: String },
}

pub enum SpecNotificationAction {
    List,
    Ack { notification_id: Seq<char> },
}

impl View for NotificationAction {
    type V = SpecNotificationAction;

    open spec fn view(&self) -> SpecNotificationAction {
        match self {
            NotificationAction::List => SpecNotificationAction::List,
            NotificationAction::Ack { notification_id } => SpecNotificationAction::Ack {
                notification_id: notification_id@,
            },
        }
    }
}

impl Clone for NotificationAction {
    fn clone(&self) -> (r: Self)
        ensures
            r@ == self@,
    {
        match self {
            NotificationAction::List => NotificationAction::List,
            NotificationAction::Ack { notification_id } => NotificationAction::Ack {
                notification_id: notification_id.clone(),
            },
        }
    }
}

/// A command that may stand in a queue.
#[derive(Debug, PartialEq, Eq)]
#[allow(inconsistent_fields)]
pub enum QueueableCommand {
    Move { mode: MoveMode },
    Say { target: SpeechTarget, text: String },
    Order { service_id: EntityId, item: String },
    Wait { ticks: Tick },
    Home { action: HomeAction },
}

#[allow(inconsistent_fields)]
pub enum SpecQueueableCommand {
    Move { mode: SpecMoveMode },
    Say { target: SpecSpeechTarget, text: Seq<char> },
    Order { service_id: Seq<char>, item: Seq<char> },
    Wait { ticks: Tick },
    Home { action: HomeAction },
}

impl View for QueueableCommand {
    type V = SpecQueueableCommand;

    open spec fn view(&self) -> SpecQueueableCommand {
        match self {
            QueueableCommand::Move { mode } => SpecQueueableCommand::Move { mode: mode@ },
            QueueableCommand::Say { target, text } => SpecQueueableCommand::Say {
                target: target@,
                text: text@,
            },
            QueueableCommand::Order { service_id, item } => SpecQueueableCommand::Order {
                service_id: service_id@,
                item: item@,
            },
            QueueableCommand::Wait { ticks } => SpecQueueableCommand::Wait { ticks: *ticks },
            QueueableCommand::Home { action } => SpecQueueableCommand::Home { action: *action },
        }
    }
}

impl Clone for QueueableCommand {
    fn clone(&self) -> (r: Self)
        ensures
            r@ == self@,
    {
        match self {
            QueueableCommand::Move { mode } => QueueableCommand::Move { mode: mode.clone() },
            QueueableCommand::Say { target, text } => QueueableCommand::Say {
                target: target.clone(),
                text: text.clone(),
            },
            QueueableCommand::Order { service_id, item } => QueueableCommand::Order {
                service_id: service_id.clone(),
                item: item.clone(),
            },
            QueueableCommand::Wait { ticks } => QueueableCommand::Wait { ticks: *ticks },
            QueueableCommand::Home { action } => QueueableCommand::Home { action: *action },
        }
    }
}

#[derive(Debug, PartialEq, Eq)]
pub struct QueuedCommand {
    pub command: QueueableCommand,
}

impl View for QueuedCommand {
    type V = SpecQueueableCommand;

    open spec fn view(&self) -> SpecQueueableCommand {
        self.command@
    }
}

impl Clone for QueuedCommand {
    fn clone(&self) -> (r: Self)
        ensures
            r@ == self@,
    {
        QueuedCommand { command: self.command.clone() }
    }
}

/// Clones a list of queued commands.
pub fn clone_queue(v: &Vec<QueuedCommand>) -> (r: Vec<QueuedCommand>)
    ensures
        views(r) == views(*v),
{
    let mut r: Vec<QueuedCommand> = Vec::new();
    let mut i: usize = 0;
    while i < v.len()
        invariant
            i <= v@.len(),
            r@.len() == i,
            forall|k: int| 0 <= k < i ==> #[trigger] r@[k]@ == v@[k]@,
        decreases v@.len() - i,
    {
        r.push(v[i].clone());
        i = i + 1;
    }
    assert(views(r) =~= views(*v));
    r
}

#[derive(Debug, PartialEq, Eq)]
#[allow(inconsistent_fields)]
pub enum Command {
    CreateCharacter { name: String, body_color: String, face_color: String },
    Observe,
    LookAt { target: EntityId },
    Move { mode: MoveMode },
    Say { target: SpeechTarget, text: String },
    Order { service_id: EntityId, item: String },
    Wait { ticks: Tick },
    Queue { actions: Vec<QueuedCommand> },
    HomeManual,
    Home { action: HomeAction },
    Notifications { action: NotificationAction },
}

#[allow(inconsistent_fields)]
pub enum SpecCommand {
    CreateCharacter { name: Seq<char>, body_color: Seq<char>, face_color: Seq<char> },
    Observe,
    LookAt { target: Seq<char> },
    Move { mode: SpecMoveMode },
    Say { target: SpecSpeechTarget, text: Seq<char> },
    Order { service_id: Seq<char>, item: Seq<char> },
    Wait { ticks: Tick },
    Queue { actions: Seq<SpecQueueableCommand> },
    HomeManual,
    Home { action: HomeAction },
    Notifications { action: SpecNotificationAction },
}

impl View for Command {
    type V = SpecCommand;

    open spec fn view(&self) -> SpecCommand {
        match self {
            Command::CreateCharacter { name, body_color, face_color } =>
                SpecCommand::CreateCharacter {
                    name: name@,
                    body_color: body_color@,
                    face_color: face_color@,
                },
            Command::Observe => SpecCommand::Observe,
            Command::LookAt { target } => SpecCommand::LookAt { target: target@ },
            Command::Move { mode } => SpecCommand::Move { mode: mode@ },
            Command::Say { target, text } => SpecCommand::Say { target: target@, text: text@ },
            Command::Order { service_id, item } => SpecCommand::Order {
                service_id: service_id@,
                item: item@,
            },
            Command::Wait { ticks } => SpecCommand::Wait { ticks: *ticks },
            Command::Queue { actions } => SpecCommand::Queue { actions: views(*actions) },
            Command::HomeManual => SpecCommand::HomeManual,
            Command::Home { action } => SpecCommand::Home { action: *action },
            Command::Notifications { action } => SpecCommand::Notifications { action: action@ },
        }
    }
}

impl Clone for Command {
    fn clone(&self) -> (r: Self)
        ensures
            r@ == self@,
    {
        match self {
            Command::CreateCharacter { name, body_color, face_color } => Command::CreateCharacter {
                name: name.clone(),
                body_color: body_color.clone(),
                face_color: face_color.clone(),
            },
            Command::Observe => Command::Observe,
            Command::LookAt { target } => Command::LookAt { target: target.clone() },
            Command::Move { mode } => Command::Move { mode: mode.clone() },
            Command::Say { target, text } => Command::Say {
                target: target.clone(),
                text: text.clone(),
            },
            Command::Order { service_id, item } => Command::Order {
                service_id: service_id.clone(),
                item: item.clone(),
            },
            Command::Wait { ticks } => Command::Wait { ticks: *ticks },
            Command::Queue { actions } => Command::Queue { actions: clone_queue(actions) },
            Command::HomeManual => Command::HomeManual,
            Command::Home { action } => Command::Home { action: *action },
            Command::Notifications { action } => Command::Notifications { action: action.clone() },
        }
    }
}

#[derive(Debug, PartialEq, Eq)]
pub struct Precondition {
    pub entity: EntityId,
    pub condition: PreconditionKind,
}

pub struct SpecPrecondition {
    pub entity: Seq<char>,
    pub condition: PreconditionKind,
}

impl View for Precondition {
    type V = SpecPrecondition;

    open spec fn view(&self) -> SpecPrecondition {
        SpecPrecondition { entity: self.entity@, condition: self.condition }
    }
}

impl Clone for Precondition {
    fn clone(&self) -> (r: Self)
        ensures
            r@ == self@,
    {
        Precondition { entity: self.entity.clone(), condition: self.condition }
    }
}

/// A command with the identity of its sender and the freshness of the
/// observation it was based on.
#[derive(Debug, PartialEq, Eq)]
pub struct CommandEnvelope {
    pub schema_version: String,
    pub command_id: String,
    pub character_id: CharacterId,
    pub submitted_at: String,
    pub based_on_tick: Option<Tick>,
    pub valid_until_tick: Option<Tick>,
    pub local_state_hash: Option<String>,
    pub preconditions: Vec<Precondition>,
    pub command: Command,
}

pub struct SpecEnvelope {
    pub schema_version: Seq<char>,
    pub command_id: Seq<char>,
    pub character_id: Seq<char>,
    pub submitted_at: Seq<char>,
    pub based_on_tick: Option<Tick>,
    pub valid_until_tick: Option<Tick>,
    pub local_state_hash: Option<Seq<char>>,
    pub preconditions: Seq<SpecPrecondition>,
    pub command: SpecCommand,
}

impl View for CommandEnvelope {
    type V = SpecEnvelope;

    open spec fn view(&self) -> SpecEnvelope {
        SpecEnvelope {
            schema_version: self.schema_version@,
            command_id: self.command_id@,
            character_id: self.character_id@,
            submitted_at: self.submitted_at@,
            based_on_tick: self.based_on_tick,
            valid_until_tick: self.valid_until_tick,
            local_state_hash: opt_str(self.local_state_hash),
            preconditions: views(self.preconditions),
            command: self.command@,
        }
    }
}

impl Clone for CommandEnvelope {
    fn clone(&self) -> (r: Self)
        ensures
            r@ == self@,
    {
        let mut preconditions: Vec<Precondition> = Vec::new();
        let mut i: usize = 0;
        while i < self.preconditions.len()
            invariant
                i <= self.preconditions@.len(),
                preconditions@.len() == i,
                forall|k: int| 0 <= k < i ==> #[trigger] preconditions@[k]@ == self.preconditions@[k]@,
            decreases self.preconditions@.len() - i,
        {
            preconditions.push(self.preconditions[i].clone());
            i = i + 1;
        }
        assert(views(preconditions) =~= views(self.preconditions));
        CommandEnvelope {
            schema_version: self.schema_version.clone(),
            command_id: self.command_id.clone(),
            character_id: self.character_id.clone(),
            submitted_at: self.submitted_at.clone(),
            based_on_tick: self.based_on_tick,
            valid_until_tick: self.valid_until_tick,
            local_state_hash: match &self.local_state_hash {
                Some(h) => Some(h.clone()),
                None => None,
            },
            preconditions,
            command: self.command.clone(),
        }
    }
}


// ---------------------------------------------------------------- world

#[derive(Debug, PartialEq, Eq)]
pub struct LocationDefinition {
    pub id: LocationId,
    pub name: String,
    pub description: String,
    pub exits: Vec<LocationId>,
    pub directional_exits: Vec<(Direction, LocationId)>,
}

pub struct SpecLocation {
    pub id: Seq<char>,
    pub name: Seq<char>,
    pub description: Seq<char>,
    pub exits: Seq<Seq<char>>,
    pub directional_exits: Seq<(Direction, Seq<char>)>,
}

impl View for LocationDefinition {
    type V = SpecLocation;

    open spec fn view(&self) -> SpecLocation {
        SpecLocation {
            id: self.id@,
            name: self.name@,
            description: self.description@,
            exits: strs(self.exits),
            directional_exits: self.directional_exits@.map_values(
                |e: (Direction, String)| (e.0, e.1@),
            ),
        }
    }
}

impl Clone for LocationDefinition {
    fn clone(&self) -> (r: Self)
        ensures
            r@ == self@,
    {
        let mut directional_exits: Vec<(Direction, LocationId)> = Vec::new();
        let mut i: usize = 0;
        while i < self.directional_exits.len()
            invariant
                i <= self.directional_exits@.len(),
                directional_exits@.len() == i,
                forall|k: int|
                    0 <= k < i ==> (#[trigger] directional_exits@[k]).0
                        == self.directional_exits@[k].0 && directional_exits@[k].1@
                        == self.directional_exits@[k].1@,
            decreases self.directional_exits@.len() - i,
        {
            directional_exits.push(
                (self.directional_exits[i].0, self.directional_exits[i].1.clone()),
            );
            i = i + 1;
        }
        let exits = self.exits.clone();
        assert(strs(exits) =~= strs(self.exits));
        let r = LocationDefinition {
            id: self.id.clone(),
            name: self.name.clone(),
            description: self.description.clone(),
            exits,
            directional_exits,
        };
        assert(r@.directional_exits =~= self@.directional_exits);
        r
    }
}

#[derive(Debug, PartialEq, Eq)]
pub struct HomeDefinition {
    pub id: LocationId,
    pub owner_character_id: Option<CharacterId>,
}

pub struct SpecHome {
    pub id: Seq<char>,
    pub owner_character_id: Option<Seq<char>>,
}

impl View for HomeDefinition {
    type V = SpecHome;

    open spec fn view(&self) -> SpecHome {
        SpecHome { id: self.id@, owner_character_id: opt_str(self.owner_character_id) }
    }
}

impl Clone for HomeDefinition {
    fn clone(&self) -> (r: Self)
        ensures
            r@ == self@,
    {
        HomeDefinition {
            id: self.id.clone(),
            owner_character_id: match &self.owner_character_id {
                Some(o) => Some(o.clone()),
                None => None,
            },
        }
    }
}

/// A deterministic point of interest that sells one item.
#[derive(Debug, PartialEq, Eq)]
pub struct ServiceDefinition {
    pub id: EntityId,
    pub name: String,
    pub location_id: LocationId,
    pub item: String,
    pub price_coins: u32,
    pub duration_ticks: Tick,
    pub capacity: u32,
}

pub struct SpecService {
    pub id: Seq<char>,
    pub name: Seq<char>,
    pub location_id: Seq<char>,
    pub item: Seq<char>,
    pub price_coins: u32,
    pub duration_ticks: Tick,
    pub capacity: u32,
}

impl View for ServiceDefinition {
    type V = SpecService;

    open spec fn view(&self) -> SpecService {
        SpecService {
            id: self.id@,
            name: self.name@,
            location_id: self.location_id@,
            item: self.item@,
            price_coins: self.price_coins,
            duration_ticks: self.duration_ticks,
            capacity: self.capacity,
        }
    }
}

impl Clone for ServiceDefinition {
    fn clone(&self) -> (r: Self)
        ensures
            r@ == self@,
    {
        ServiceDefinition {
            id: self.id.clone(),
            name: self.name.clone(),
            location_id: self.location_id.clone(),
            item: self.item.clone(),
            price_coins: self.price_coins,
            duration_ticks: self.duration_ticks,
            capacity: self.capacity,
        }
    }
}

#[derive(Debug, PartialEq, Eq)]
pub struct WorldDefinition {
    pub id: String,
    pub name: String,
    pub spawn_location_id: LocationId,
    pub starting_coins: u32,
    pub locations: Vec<LocationDefinition>,
    pub homes: Vec<HomeDefinition>,
    pub services: Vec<ServiceDefinition>,
}

pub struct SpecWorld {
    pub id: Seq<char>,
    pub name: Seq<char>,
    pub spawn_location_id: Seq<char>,
    pub starting_coins: u32,
    pub locations: Seq<SpecLocation>,
    pub homes: Seq<SpecHome>,
    pub services: Seq<SpecService>,
}

impl View for WorldDefinition {
    type V = SpecWorld;

    open spec fn view(&self) -> SpecWorld {
        SpecWorld {
            id: self.id@,
            name: self.name@,
            spawn_location_id: self.spawn_location_id@,
            starting_coins: self.starting_coins,
            locations: views(self.locations),
            homes: views(self.homes),
            services: views(self.services),
        }
    }
}

impl Clone for WorldDefinition {
    fn clone(&self) -> (r: Self)
        ensures
            r@ == self@,
    {
        let mut locations: Vec<LocationDefinition> = Vec::new();
        let mut i: usize = 0;
        while i < self.locations.len()
            invariant
                i <= self.locations@.len(),
                locations@.len() == i,
                forall|k: int| 0 <= k < i ==> #[trigger] locations@[k]@ == self.locations@[k]@,
            decreases self.locations@.len() - i,
        {
            locations.push(self.locations[i].clone());
            i = i + 1;
        }
        let mut homes: Vec<HomeDefinition> = Vec::new();
        let mut i: usize = 0;
        while i < self.homes.len()
            invariant
                i <= self.homes@.len(),
                homes@.len() == i,
                forall|k: int| 0 <= k < i ==> #[trigger] homes@[k]@ == self.homes@[k]@,
            decreases self.homes@.len() - i,
        {
            homes.push(self.homes[i].clone());
            i = i + 1;
        }
        let mut services: Vec<ServiceDefinition> = Vec::new();
        let mut i: usize = 0;
        while i < self.services.len()
            invariant
                i <= self.services@.len(),
                services@.len() == i,
                forall|k: int| 0 <= k < i ==> #[trigger] services@[k]@ == self.services@[k]@,
            decreases self.services@.len() - i,
        {
            services.push(self.services[i].clone());
            i = i + 1;
        }
        assert(views(locations) =~= views(self.locations));
        assert(views(homes) =~= views(self.homes));
        assert(views(services) =~= views(self.services));
        WorldDefinition {
            id: self.id.clone(),
            name: self.name.clone(),
            spawn_location_id: self.spawn_location_id.clone(),
            starting_coins: self.starting_coins,
            locations,
            homes,
            services,
        }
    }
}

// ---------------------------------------------------------------- characters

/// A long-running behaviour of a character.
#[derive(Debug, PartialEq, Eq)]
pub struct Activity {
    pub id: String,
    pub kind: ActivityKind,
    pub status: ActivityStatus,
    pub target_id: Option<String>,
    pub started_at_tick: Tick,
    pub completes_at_tick: Tick,
    pub description: String,
    pub promise_id: Option<String>,
    pub reserved_coins: u32,
}

pub struct SpecActivity {
    pub id: Seq<char>,
    pub kind: ActivityKind,
    pub status: ActivityStatus,
    pub target_id: Option<Seq<char>>,
    pub started_at_tick: Tick,
    pub completes_at_tick: Tick,
    pub description: Seq<char>,
    pub promise_id: Option<Seq<char>>,
    pub reserved_coins: u32,
}

impl View for Activity {
    type V = SpecActivity;

    open spec fn view(&self) -> SpecActivity {
        SpecActivity {
            id: self.id@,
            kind: self.kind,
            status: self.status,
            target_id: opt_str(self.target_id),
            started_at_tick: self.started_at_tick,
            completes_at_tick: self.completes_at_tick,
            description: self.description@,
            promise_id: opt_str(self.promise_id),
            reserved_coins: self.reserved_coins,
        }
    }
}

impl Clone for Activity {
    fn clone(&self) -> (r: Self)
        ensures
            r@ == self@,
    {
        Activity {
            id: self.id.clone(),
            kind: self.kind,
            status: self.status,
            target_id: match &self.target_id {
                Some(t) => Some(t.clone()),
                None => None,
            },
            started_at_tick: self.started_at_tick,
            completes_at_tick: self.completes_at_tick,
            description: self.description.clone(),
            promise_id: match &self.promise_id {
                Some(t) => Some(t.clone()),
                None => None,
            },
            reserved_coins: self.reserved_coins,
        }
    }
}

/// An agent's body in the world.
#[derive(Debug, PartialEq, Eq)]
pub struct Character {
    pub id: CharacterId,
    pub name: String,
    pub body_color: String,
    pub face_color: String,
    pub location_id: LocationId,
    pub home_id: LocationId,
    pub coins: u32,
    pub reserved_coins: u32,
    pub current_activity: Option<Activity>,
    pub queued_commands: Vec<QueuedCommand>,
    pub last_agent_action_tick: Tick,
    pub status: CharacterStatus,
}

pub struct SpecCharacter {
    pub id: Seq<char>,
    pub name: Seq<char>,
    pub body_color: Seq<char>,
    pub face_color: Seq<char>,
    pub location_id: Seq<char>,
    pub home_id: Seq<char>,
    pub coins: u32,
    pub reserved_coins: u32,
    pub current_activity: Option<SpecActivity>,
    pub queued_commands: Seq<SpecQueueableCommand>,
    pub last_agent_action_tick: Tick,
    pub status: CharacterStatus,
}

impl View for Character {
    type V = SpecCharacter;

    open spec fn view(&self) -> SpecCharacter {
        SpecCharacter {
            id: self.id@,
            name: self.name@,
            body_color: self.body_color@,
            face_color: self.face_color@,
            location_id: self.location_id@,
            home_id: self.home_id@,
            coins: self.coins,
            reserved_coins: self.reserved_coins,
            current_activity: opt_view(self.current_activity),
            queued_commands: views(self.queued_commands),
            last_agent_action_tick: self.last_agent_action_tick,
            status: self.status,
        }
    }
}

impl Clone for Character {
    fn clone(&self) -> (r: Self)
        ensures
            r@ == self@,
    {
        Character {
            id: self.id.clone(),
            name: self.name.clone(),
            body_color: self.body_color.clone(),
            face_color: self.face_color.clone(),
            location_id: self.location_id.clone(),
            home_id: self.home_id.clone(),
            coins: self.coins,
            reserved_coins: self.reserved_coins,
            current_activity: match &self.current_activity {
                Some(a) => Some(a.clone()),
                None => None,
            },
            queued_commands: clone_queue(&self.queued_commands),
            last_agent_action_tick: self.last_agent_action_tick,
            status: self.status,
        }
    }
}

impl Duplicate for Character {
    fn duplicate(&self) -> (r: Self) {
        self.clone()
    }
}

// ---------------------------------------------------------------- speech

#[derive(Debug, PartialEq, Eq)]
pub struct SpeechMessage {
    pub speaker_id: CharacterId,
    pub target: SpeechTarget,
    pub text: String,
    pub tick: Tick,
}

pub struct SpecSpeechMessage {
    pub speaker_id: Seq<char>,
    pub target: SpecSpeechTarget,
    pub text: Seq<char>,
    pub tick: Tick,
}

impl View for SpeechMessage {
    type V = SpecSpeechMessage;

    open spec fn view(&self) -> SpecSpeechMessage {
        SpecSpeechMessage {
            speaker_id: self.speaker_id@,
            target: self.target@,
            text: self.text@,
            tick: self.tick,
        }
    }
}

impl Clone for SpeechMessage {
    fn clone(&self) -> (r: Self)
        ensures
            r@ == self@,
    {
        SpeechMessage {
            speaker_id: self.speaker_id.clone(),
            target: self.target.clone(),
            text: self.text.clone(),
            tick: self.tick,
        }
    }
}

#[derive(Debug, PartialEq, Eq)]
pub struct Conversation {
    pub id: ConversationId,
    pub participant_ids: Vec<CharacterId>,
    pub recent_messages: Vec<SpeechMessage>,
    pub open: bool,
}

pub struct SpecConversation {
    pub id: Seq<char>,
    pub participant_ids: Seq<Seq<char>>,
    pub recent_messages: Seq<SpecSpeechMessage>,
    pub open: bool,
}

impl View for Conversation {
    type V = SpecConversation;

    open spec fn view(&self) -> SpecConversation {
        SpecConversation {
            id: self.id@,
            participant_ids: strs(self.participant_ids),
            recent_messages: views(self.recent_messages),
            open: self.open,
        }
    }
}

impl Clone for Conversation {
    fn clone(&self) -> (r: Self)
        ensures
            r@ == self@,
    {
        let mut recent_messages: Vec<SpeechMessage> = Vec::new();
        let mut i: usize = 0;
        while i < self.recent_messages.len()
            invariant
                i <= self.recent_messages@.len(),
                recent_messages@.len() == i,
                forall|k: int|
                    0 <= k < i ==> #[trigger] recent_messages@[k]@ == self.recent_messages@[k]@,
            decreases self.recent_messages@.len() - i,
        {
            recent_messages.push(self.recent_messages[i].clone());
            i = i + 1;
        }
        assert(views(recent_messages) =~= views(self.recent_messages));
        let participant_ids = self.participant_ids.clone();
        assert(strs(participant_ids) =~= strs(self.participant_ids));
        Conversation { id: self.id.clone(), participant_ids, recent_messages, open: self.open }
    }
}

impl Duplicate for Conversation {
    fn duplicate(&self) -> (r: Self) {
        self.clone()
    }
}

// ---------------------------------------------------------------- notifications

/// A durable wake hint for one character.
#[derive(Debug, PartialEq, Eq)]
pub struct Notification {
    pub notification_id: String,
    pub character_id: CharacterId,
    pub kind: String,
    pub priority: String,
    pub created_at_tick: Tick,
    pub expires_at_tick: Tick,
    pub summary: String,
    pub acknowledged: bool,
    pub related: StrMap<String>,
}

pub struct SpecNotification {
    pub notification_id: Seq<char>,
    pub character_id: Seq<char>,
    pub kind: Seq<char>,
    pub priority: Seq<char>,
    pub created_at_tick: Tick,
    pub expires_at_tick: Tick,
    pub summary: Seq<char>,
    pub acknowledged: bool,
    pub related: Seq<(Seq<char>, Seq<char>)>,
}

impl View for Notification {
    type V = SpecNotification;

    open spec fn view(&self) -> SpecNotification {
        SpecNotification {
            notification_id: self.notification_id@,
            character_id: self.character_id@,
            kind: self.kind@,
            priority: self.priority@,
            created_at_tick: self.created_at_tick,
            expires_at_tick: self.expires_at_tick,
            summary: self.summary@,
            acknowledged: self.acknowledged,
            related: self.related@,
        }
    }
}

impl Clone for Notification {
    fn clone(&self) -> (r: Self)
        ensures
            r@ == self@,
    {
        Notification {
            notification_id: self.notification_id.clone(),
            character_id: self.character_id.clone(),
            kind: self.kind.clone(),
            priority: self.priority.clone(),
            created_at_tick: self.created_at_tick,
            expires_at_tick: self.expires_at_tick,
            summary: self.summary.clone(),
            acknowledged: self.acknowledged,
            related: self.related.clone(),
        }
    }
}

impl Duplicate for Notification {
    fn duplicate(&self) -> (r: Self) {
        self.clone()
    }
}

/// A handle on the future outcome of a long-running activity.
#[derive(Debug, PartialEq, Eq)]
pub struct Promise {
    pub id: String,
    pub activity_id: String,
    pub trigger: String,
    pub estimated_ready_at_tick: Tick,
    pub resume_hint: String,
}

pub struct SpecPromise {
    pub id: Seq<char>,
    pub activity_id: Seq<char>,
    pub trigger: Seq<char>,
    pub estimated_ready_at_tick: Tick,
    pub resume_hint: Seq<char>,
}

impl View for Promise {
    type V = SpecPromise;

    open spec fn view(&self) -> SpecPromise {
        SpecPromise {
            id: self.id@,
            activity_id: self.activity_id@,
            trigger: self.trigger@,
            estimated_ready_at_tick: self.estimated_ready_at_tick,
            resume_hint: self.resume_hint@,
        }
    }
}

impl Clone for Promise {
    fn clone(&self) -> (r: Self)
        ensures
            r@ == self@,
    {
        Promise {
            id: self.id.clone(),
            activity_id: self.activity_id.clone(),
            trigger: self.trigger.clone(),
            estimated_ready_at_tick: self.estimated_ready_at_tick,
            resume_hint: self.resume_hint.clone(),
        }
    }
}

// ---------------------------------------------------------------- events

#[derive(Debug, PartialEq, Eq)]
#[allow(inconsistent_fields)]
pub enum EventKind {
    WorldLoaded { world_id: String },
    CommandRejected { character_id: String, code: String },
    WorldTimeAdvanced { from_tick: Tick, to_tick: Tick },
    CharacterCreated { character_id: String, home_id: String },
    ActivityStarted { character_id: String, activity_id: String, description: String, completes_at_tick: Tick },
    ActivityCompleted { character_id: String, activity_id: String },
    CharacterMoved { character_id: String, from: String, to: String },
    CharacterSentHome { character_id: String, from: String, to: String },
    MessageSpoken { conversation_id: String, speaker_id: String, target: SpeechTarget, text: String },
    CoinsReserved { character_id: String, amount: u32 },
    CoinsSpent { character_id: String, amount: u32 },
    CoinsReleased { character_id: String, amount: u32 },
    PromiseCreated { promise: Promise },
    PromiseResolved { promise_id: String, character_id: String, resume_hint: String },
    QueueAccepted { character_id: String, queued_count: usize, reserved_coins: u32 },
    QueueStepStarted { character_id: String, remaining: usize },
    QueueStepFailed { character_id: String, code: String },
    HomeLocked { character_id: String, home_id: String },
    HomeUnlocked { character_id: String, home_id: String },
    NotificationAcknowledged { character_id: String, notification_id: String },
}

#[allow(inconsistent_fields)]
pub enum SpecEventKind {
    WorldLoaded { world_id: Seq<char> },
    CommandRejected { character_id: Seq<char>, code: Seq<char> },
    WorldTimeAdvanced { from_tick: Tick, to_tick: Tick },
    CharacterCreated { character_id: Seq<char>, home_id: Seq<char> },
    ActivityStarted { character_id: Seq<char>, activity_id: Seq<char>, description: Seq<char>, completes_at_tick: Tick },
    ActivityCompleted { character_id: Seq<char>, activity_id: Seq<char> },
    CharacterMoved { character_id: Seq<char>, from: Seq<char>, to: Seq<char> },
    CharacterSentHome { character_id: Seq<char>, from: Seq<char>, to: Seq<char> },
    MessageSpoken { conversation_id: Seq<char>, speaker_id: Seq<char>, target: SpecSpeechTarget, text: Seq<char> },
    CoinsReserved { character_id: Seq<char>, amount: u32 },
    CoinsSpent { character_id: Seq<char>, amount: u32 },
    CoinsReleased { character_id: Seq<char>, amount: u32 },
    PromiseCreated { promise: SpecPromise },
    PromiseResolved { promise_id: Seq<char>, character_id: Seq<char>, resume_hint: Seq<char> },
    QueueAccepted { character_id: Seq<char>, queued_count: usize, reserved_coins: u32 },
    QueueStepStarted { character_id: Seq<char>, remaining: usize },
    QueueStepFailed { character_id: Seq<char>, code: Seq<char> },
    HomeLocked { character_id: Seq<char>, home_id: Seq<char> },
    HomeUnlocked { character_id: Seq<char>, home_id: Seq<char> },
    NotificationAcknowledged { character_id: Seq<char>, notification_id: Seq<char> },
}

impl View for EventKind {
    type V = SpecEventKind;

    open spec fn view(&self) -> SpecEventKind {
        match self {
            EventKind::WorldLoaded { world_id } => SpecEventKind::WorldLoaded { world_id: world_id@ },
            EventKind::CommandRejected { character_id, code } => SpecEventKind::CommandRejected { character_id: character_id@, code: code@ },
            EventKind::WorldTimeAdvanced { from_tick, to_tick } => SpecEventKind::WorldTimeAdvanced { from_tick: *from_tick, to_tick: *to_tick },
            EventKind::CharacterCreated { character_id, home_id } => SpecEventKind::CharacterCreated { character_id: character_id@, home_id: home_id@ },
            EventKind::ActivityStarted { character_id, activity_id, description, completes_at_tick } => SpecEventKind::ActivityStarted { character_id: character_id@, activity_id: activity_id@, description: description@, completes_at_tick: *completes_at_tick },
            EventKind::ActivityCompleted { character_id, activity_id } => SpecEventKind::ActivityCompleted { character_id: character_id@, activity_id: activity_id@ },
            EventKind::CharacterMoved { character_id, from, to } => SpecEventKind::CharacterMoved { character_id: character_id@, from: from@, to: to@ },
            EventKind::CharacterSentHome { character_id, from, to } => SpecEventKind::CharacterSentHome { character_id: character_id@, from: from@, to: to@ },
            EventKind::MessageSpoken { conversation_id, speaker_id, target, text } => SpecEventKind::MessageSpoken { conversation_id: conversation_id@, speaker_id: speaker_id@, target: target@, text: text@ },
            EventKind::CoinsReserved { character_id, amount } => SpecEventKind::CoinsReserved { character_id: character_id@, amount: *amount },
            EventKind::CoinsSpent { character_id, amount } => SpecEventKind::CoinsSpent { character_id: character_id@, amount: *amount },
            EventKind::CoinsReleased { character_id, amount } => SpecEventKind::CoinsReleased { character_id: character_id@, amount: *amount },
            EventKind::PromiseCreated { promise } => SpecEventKind::PromiseCreated { promise: promise@ },
            EventKind::PromiseResolved { promise_id, character_id, resume_hint } => SpecEventKind::PromiseResolved { promise_id: promise_id@, character_id: character_id@, resume_hint: resume_hint@ },
            EventKind::QueueAccepted { character_id, queued_count, reserved_coins } => SpecEventKind::QueueAccepted { character_id: character_id@, queued_count: *queued_count, reserved_coins: *reserved_coins },
            EventKind::QueueStepStarted { character_id, remaining } => SpecEventKind::QueueStepStarted { character_id: character_id@, remaining: *remaining },
            EventKind::QueueStepFailed { character_id, code } => SpecEventKind::QueueStepFailed { character_id: character_id@, code: code@ },
            EventKind::HomeLocked { character_id, home_id } => SpecEventKind::HomeLocked { character_id: character_id@, home_id: home_id@ },
            EventKind::HomeUnlocked { character_id, home_id } => SpecEventKind::HomeUnlocked { character_id: character_id@, home_id: home_id@ },
            EventKind::NotificationAcknowledged { character_id, notification_id } => SpecEventKind::NotificationAcknowledged { character_id: character_id@, notification_id: notification_id@ },
        }
    }
}

impl Clone for EventKind {
    fn clone(&self) -> (r: Self)
        ensures
            r@ == self@,
    {
        match self {
            EventKind::WorldLoaded { world_id } => EventKind::WorldLoaded { world_id: world_id.clone() },
            EventKind::CommandRejected { character_id, code } => EventKind::CommandRejected { character_id: character_id.clone(), code: code.clone() },
            EventKind::WorldTimeAdvanced { from_tick, to_tick } => EventKind::WorldTimeAdvanced { from_tick: *from_tick, to_tick: *to_tick },
            EventKind::CharacterCreated { character_id, home_id } => EventKind::CharacterCreated { character_id: character_id.clone(), home_id: home_id.clone() },
            EventKind::ActivityStarted { character_id, activity_id, description, completes_at_tick } => EventKind::ActivityStarted { character_id: character_id.clone(), activity_id: activity_id.clone(), description: description.clone(), completes_at_tick: *completes_at_tick },
            EventKind::ActivityCompleted { character_id, activity_id } => EventKind::ActivityCompleted { character_id: character_id.clone(), activity_id: activity_id.clone() },
            EventKind::CharacterMoved { character_id, from, to } => EventKind::CharacterMoved { character_id: character_id.clone(), from: from.clone(), to: to.clone() },
            EventKind::CharacterSentHome { character_id, from, to } => EventKind::CharacterSentHome { character_id: character_id.clone(), from: from.clone(), to: to.clone() },
            EventKind::MessageSpoken { conversation_id, speaker_id, target, text } => EventKind::MessageSpoken { conversation_id: conversation_id.clone(), speaker_id: speaker_id.clone(), target: target.clone(), text: text.clone() },
            EventKind::CoinsReserved { character_id, amount } => EventKind::CoinsReserved { character_id: character_id.clone(), amount: *amount },
            EventKind::CoinsSpent { character_id, amount } => EventKind::CoinsSpent { character_id: character_id.clone(), amount: *amount },
            EventKind::CoinsReleased { character_id, amount } => EventKind::CoinsReleased { character_id: character_id.clone(), amount: *amount },
            EventKind::PromiseCreated { promise } => EventKind::PromiseCreated { promise: promise.clone() },
            EventKind::PromiseResolved { promise_id, character_id, resume_hint } => EventKind::PromiseResolved { promise_id: promise_id.clone(), character_id: character_id.clone(), resume_hint: resume_hint.clone() },
            EventKind::QueueAccepted { character_id, queued_count, reserved_coins } => EventKind::QueueAccepted { character_id: character_id.clone(), queued_count: *queued_count, reserved_coins: *reserved_coins },
            EventKind::QueueStepStarted { character_id, remaining } => EventKind::QueueStepStarted { character_id: character_id.clone(), remaining: *remaining },
            EventKind::QueueStepFailed { character_id, code } => EventKind::QueueStepFailed { character_id: character_id.clone(), code: code.clone() },
            EventKind::HomeLocked { character_id, home_id } => EventKind::HomeLocked { character_id: character_id.clone(), home_id: home_id.clone() },
            EventKind::HomeUnlocked { character_id, home_id } => EventKind::HomeUnlocked { character_id: character_id.clone(), home_id: home_id.clone() },
            EventKind::NotificationAcknowledged { character_id, notification_id } => EventKind::NotificationAcknowledged { character_id: character_id.clone(), notification_id: notification_id.clone() },
        }
    }
}

/// An ordered, schema-versioned record of something that happened.
#[derive(Debug, PartialEq, Eq)]
pub struct Event {
    pub schema_version: String,
    pub id: EventId,
    pub tick: Tick,
    pub kind: EventKind,
}

pub struct SpecEvent {
    pub schema_version: Seq<char>,
    pub id: EventId,
    pub tick: Tick,
    pub kind: SpecEventKind,
}

impl View for Event {
    type V = SpecEvent;

    open spec fn view(&self) -> SpecEvent {
        SpecEvent {
            schema_version: self.schema_version@,
            id: self.id,
            tick: self.tick,
            kind: self.kind@,
        }
    }
}

impl Clone for Event {
    fn clone(&self) -> (r: Self)
        ensures
            r@ == self@,
    {
        Event {
            schema_version: self.schema_version.clone(),
            id: self.id,
            tick: self.tick,
            kind: self.kind.clone(),
        }
    }
}

// ---------------------------------------------------------------- snapshot

/// The complete authoritative state of a world.
#[derive(Debug, PartialEq, Eq)]
pub struct WorldSnapshot {
    pub schema_version: String,
    pub world_id: String,
    pub tick: Tick,
    pub next_event_id: EventId,
    pub next_command_seq: u64,
    pub next_conversation_seq: u64,
    pub world: WorldDefinition,
    pub characters: StrMap<Character>,
    pub home_locks: StrMap<bool>,
    pub conversations: StrMap<Conversation>,
    pub notifications: StrMap<Notification>,
    pub command_log: Vec<CommandEnvelope>,
}

pub struct SpecSnapshot {
    pub schema_version: Seq<char>,
    pub world_id: Seq<char>,
    pub tick: Tick,
    pub next_event_id: EventId,
    pub next_command_seq: u64,
    pub next_conversation_seq: u64,
    pub world: SpecWorld,
    pub characters: Seq<(Seq<char>, SpecCharacter)>,
    pub home_locks: Seq<(Seq<char>, bool)>,
    pub conversations: Seq<(Seq<char>, SpecConversation)>,
    pub notifications: Seq<(Seq<char>, SpecNotification)>,
    pub command_log: Seq<SpecEnvelope>,
}

impl View for WorldSnapshot {
    type V = SpecSnapshot;

    open spec fn view(&self) -> SpecSnapshot {
        SpecSnapshot {
            schema_version: self.schema_version@,
            world_id: self.world_id@,
            tick: self.tick,
            next_event_id: self.next_event_id,
            next_command_seq: self.next_command_seq,
            next_conversation_seq: self.next_conversation_seq,
            world: self.world@,
            characters: self.characters@,
            home_locks: self.home_locks@,
            conversations: self.conversations@,
            notifications: self.notifications@,
            command_log: views(self.command_log),
        }
    }
}

impl Clone for WorldSnapshot {
    fn clone(&self) -> (r: Self)
        ensures
            r@ == self@,
    {
        let mut command_log: Vec<CommandEnvelope> = Vec::new();
        let mut i: usize = 0;
        while i < self.command_log.len()
            invariant
                i <= self.command_log@.len(),
                command_log@.len() == i,
                forall|k: int| 0 <= k < i ==> #[trigger] command_log@[k]@ == self.command_log@[k]@,
            decreases self.command_log@.len() - i,
        {
            command_log.push(self.command_log[i].clone());
            i = i + 1;
        }
        assert(views(command_log) =~= views(self.command_log));
        WorldSnapshot {
            schema_version: self.schema_version.clone(),
            world_id: self.world_id.clone(),
            tick: self.tick,
            next_event_id: self.next_event_id,
            next_command_seq: self.next_command_seq,
            next_conversation_seq: self.next_conversation_seq,
            world: self.world.clone(),
            characters: self.characters.clone(),
            home_locks: self.home_locks.clone(),
            conversations: self.conversations.clone(),
            notifications: self.notifications.clone(),
            command_log,
        }
    }
}

// ---------------------------------------------------------------- errors

/// A structured rejection that agents can act on.
#[derive(Debug, PartialEq, Eq)]
pub struct ApiError {
    pub code: String,
    pub message: String,
    pub details: StrMap<String>,
    pub retry_after_ticks: Option<Tick>,
    pub suggested_actions: Vec<String>,
}

pub struct SpecApiError {
    pub code: Seq<char>,
    pub message: Seq<char>,
    pub details: Seq<(Seq<char>, Seq<char>)>,
    pub retry_after_ticks: Option<Tick>,
    pub suggested_actions: Seq<Seq<char>>,
}

impl View for ApiError {
    type V = SpecApiError;

    open spec fn view(&self) -> SpecApiError {
        SpecApiError {
            code: self.code@,
            message: self.message@,
            details: self.details@,
            retry_after_ticks: self.retry_after_ticks,
            suggested_actions: strs(self.suggested_actions),
        }
    }
}

// ---------------------------------------------------------------- observations

#[derive(Debug, PartialEq, Eq)]
pub struct ActionView {
    pub action: String,
    pub targets: Vec<String>,
}

pub struct SpecActionView {
    pub action: Seq<char>,
    pub targets: Seq<Seq<char>>,
}

impl View for ActionView {
    type V = SpecActionView;

    open spec fn view(&self) -> SpecActionView {
        SpecActionView { action: self.action@, targets: strs(self.targets) }
    }
}

/// What an actor can see of a nearby entity.
#[derive(Debug, PartialEq, Eq)]
pub struct EntityView {
    pub id: String,
    pub entity_type: String,
    pub name: String,
    pub distance: String,
    pub available_actions: Vec<String>,
}

pub struct SpecEntityView {
    pub id: Seq<char>,
    pub entity_type: Seq<char>,
    pub name: Seq<char>,
    pub distance: Seq<char>,
    pub available_actions: Seq<Seq<char>>,
}

impl View for EntityView {
    type V = SpecEntityView;

    open spec fn view(&self) -> SpecEntityView {
        SpecEntityView {
            id: self.id@,
            entity_type: self.entity_type@,
            name: self.name@,
            distance: self.distance@,
            available_actions: strs(self.available_actions),
        }
    }
}

#[derive(Debug, PartialEq, Eq)]
pub struct LocationView {
    pub id: LocationId,
    pub name: String,
    pub description: String,
    pub exits: Vec<LocationId>,
}

pub struct SpecLocationView {
    pub id: Seq<char>,
    pub name: Seq<char>,
    pub description: Seq<char>,
    pub exits: Seq<Seq<char>>,
}

impl View for LocationView {
    type V = SpecLocationView;

    open spec fn view(&self) -> SpecLocationView {
        SpecLocationView {
            id: self.id@,
            name: self.name@,
            description: self.description@,
            exits: strs(self.exits),
        }
    }
}

#[derive(Clone, Copy, Debug, PartialEq, Eq, Structural)]
pub struct WorldTime {
    pub tick: Tick,
    pub ingame_day: Tick,
    pub tick_of_day: Tick,
}

/// What one character can perceive, with the freshness window for acting on it.
#[derive(Debug, PartialEq, Eq)]
pub struct Observation {
    pub schema_version: String,
    pub observed_at_tick: Tick,
    pub valid_until_tick: Tick,
    pub local_state_hash: String,
    pub staleness_policy: String,
    pub actor: Character,
    pub location: LocationView,
    pub nearby_entities: Vec<EntityView>,
    pub conversations: Vec<Conversation>,
    pub available_actions: Vec<ActionView>,
    pub recent_events: Vec<Event>,
    pub notifications: Vec<Notification>,
    pub world_time: WorldTime,
}

pub struct SpecObservation {
    pub schema_version: Seq<char>,
    pub observed_at_tick: Tick,
    pub valid_until_tick: Tick,
    pub local_state_hash: Seq<char>,
    pub staleness_policy: Seq<char>,
    pub actor: SpecCharacter,
    pub location: SpecLocationView,
    pub nearby_entities: Seq<SpecEntityView>,
    pub conversations: Seq<SpecConversation>,
    pub available_actions: Seq<SpecActionView>,
    pub recent_events: Seq<SpecEvent>,
    pub notifications: Seq<SpecNotification>,
    pub world_time: WorldTime,
}

impl View for Observation {
    type V = SpecObservation;

    open spec fn view(&self) -> SpecObservation {
        SpecObservation {
            schema_version: self.schema_version@,
            observed_at_tick: self.observed_at_tick,
            valid_until_tick: self.valid_until_tick,
            local_state_hash: self.local_state_hash@,
            staleness_policy: self.staleness_policy@,
            actor: self.actor@,
            location: self.location@,
            nearby_entities: views(self.nearby_entities),
            conversations: views(self.conversations),
            available_actions: views(self.available_actions),
            recent_events: views(self.recent_events),
            notifications: views(self.notifications),
            world_time: self.world_time,
        }
    }
}

/// How to operate a character's home.
#[derive(Debug, PartialEq, Eq)]
pub struct HomeManual {
    pub home_id: LocationId,
    pub owner_character_id: CharacterId,
    pub supported_actions: Vec<HomeAction>,
    pub locked: bool,
    pub description: String,
}

pub struct SpecHomeManual {
    pub home_id: Seq<char>,
    pub owner_character_id: Seq<char>,
    pub supported_actions: Seq<HomeAction>,
    pub locked: bool,
    pub description: Seq<char>,
}

impl View for HomeManual {
    type V = SpecHomeManual;

    open spec fn view(&self) -> SpecHomeManual {
        SpecHomeManual {
            home_id: self.home_id@,
            owner_character_id: self.owner_character_id@,
            supported_actions: self.supported_actions@,
            locked: self.locked,
            description: self.description@,
        }
    }
}

// ---------------------------------------------------------------- responses

#[derive(Debug, PartialEq, Eq)]
pub enum CommandResult {
    CharacterCreated { character: Character },
    LookedAt { entity: EntityView, description: String },
    ActivityStarted {
        activity_id: String,
        description: String,
        estimated_ticks: Tick,
        promise: Option<Promise>,
    },
    MessageSpoken { conversation_id: ConversationId },
    Waited { advanced_ticks: Tick },
    QueueAccepted { queued_count: usize, reserved_coins: u32 },
    HomeManual { manual: HomeManual },
    HomeUpdated { home_id: LocationId, locked: bool, location_id: LocationId },
    Notifications { notifications: Vec<Notification> },
    NotificationAcknowledged { notification_id: String },
}

#[allow(inconsistent_fields)]
pub enum SpecCommandResult {
    CharacterCreated { character: SpecCharacter },
    LookedAt { entity: SpecEntityView, description: Seq<char> },
    ActivityStarted {
        activity_id: Seq<char>,
        description: Seq<char>,
        estimated_ticks: Tick,
        promise: Option<SpecPromise>,
    },
    MessageSpoken { conversation_id: Seq<char> },
    Waited { advanced_ticks: Tick },
    QueueAccepted { queued_count: usize, reserved_coins: u32 },
    HomeManual { manual: SpecHomeManual },
    HomeUpdated { home_id: Seq<char>, locked: bool, location_id: Seq<char> },
    Notifications { notifications: Seq<SpecNotification> },
    NotificationAcknowledged { notification_id: Seq<char> },
}

impl View for CommandResult {
    type V = SpecCommandResult;

    open spec fn view(&self) -> SpecCommandResult {
        match self {
            CommandResult::CharacterCreated { character } => SpecCommandResult::CharacterCreated {
                character: character@,
            },
            CommandResult::LookedAt { entity, description } => SpecCommandResult::LookedAt {
                entity: entity@,
                description: description@,
            },
            CommandResult::ActivityStarted { activity_id, description, estimated_ticks, promise } =>
                SpecCommandResult::ActivityStarted {
                activity_id: activity_id@,
                description: description@,
                estimated_ticks: *estimated_ticks,
                promise: opt_view(*promise),
            },
            CommandResult::MessageSpoken { conversation_id } => SpecCommandResult::MessageSpoken {
                conversation_id: conversation_id@,
            },
            CommandResult::Waited { advanced_ticks } => SpecCommandResult::Waited {
                advanced_ticks: *advanced_ticks,
            },
            CommandResult::QueueAccepted { queued_count, reserved_coins } =>
                SpecCommandResult::QueueAccepted {
                queued_count: *queued_count,
                reserved_coins: *reserved_coins,
            },
            CommandResult::HomeManual { manual } => SpecCommandResult::HomeManual {
                manual: manual@,
            },
            CommandResult::HomeUpdated { home_id, locked, location_id } =>
                SpecCommandResult::HomeUpdated {
                home_id: home_id@,
                locked: *locked,
                location_id: location_id@,
            },
            CommandResult::Notifications { notifications } => SpecCommandResult::Notifications {
                notifications: views(*notifications),
            },
            CommandResult::NotificationAcknowledged { notification_id } =>
                SpecCommandResult::NotificationAcknowledged { notification_id: notification_id@ },
        }
    }
}

/// The answer to one command envelope.
#[derive(Debug, PartialEq, Eq)]
pub struct CommandResponse {
    pub ok: bool,
    pub accepted: bool,
    pub command_id: String,
    pub tick: Tick,
    pub result: Option<CommandResult>,
    pub observation: Option<Observation>,
    pub error: Option<ApiError>,
}

pub struct SpecResponse {
    pub ok: bool,
    pub accepted: bool,
    pub command_id: Seq<char>,
    pub tick: Tick,
    pub result: Option<SpecCommandResult>,
    pub observation: Option<SpecObservation>,
    pub error: Option<SpecApiError>,
}

impl View for CommandResponse {
    type V = SpecResponse;

    open spec fn view(&self) -> SpecResponse {
        SpecResponse {
            ok: self.ok,
            accepted: self.accepted,
            command_id: self.command_id@,
            tick: self.tick,
            result: opt_view(self.result),
            observation: opt_view(self.observation),
            error: opt_view(self.error),
        }
    }
}

} // verus!
