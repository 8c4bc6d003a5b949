//! The reconciliation loop: what one tick does about the statuses that it
//! observed.
//!
//! The caller polls both rooms, hands the two statuses to `tick`, carries
//! out the actions in the order given, and sleeps until the next tick.

use crate::source::Platform;
use crate::status::Status;
use vstd::prelude::*;
use vstd::string::StringExecFns;

verus! {

/// Title under which a notice is sent.
pub const NOTICE_TITLE: &'static str = "bilistream";

/// What follows the room in a notice that the source went live.
pub const NOTICE_SUFFIX: &'static str = "开始直播";

/// One thing that a tick asks for.
#[derive(Clone, Copy, Debug, PartialEq, Eq, Structural)]
pub enum Action {
    /// Tell the user that the source went live.
    Notify,
    /// Start the destination room.
    StartDestination,
    /// Stop the destination room.
    StopDestination,
    /// Begin to supervise a relay.
    StartRelay,
    /// Cancel the relay that is supervised.
    StopRelay,
}

/// What a tick does, in order, about a source and a destination observed in
/// these statuses, with or without a relay under supervision.
///
/// A live source with an offline destination is announced, the destination
/// is started, and a relay is begun unless one runs. With both live, a relay
/// is begun unless one runs. An offline source with a live destination has
/// the relay cancelled, where one runs, and then the destination stopped.
/// Nothing is done about any other pair, and so nothing where either status
/// is unknown.
pub open spec fn plan(source: Status, destination: Status, relaying: bool) -> Seq<Action> {
    match (source, destination) {
        (Status::Online, Status::Offline) => if relaying {
            seq![Action::Notify, Action::StartDestination]
        } else {
            seq![Action::Notify, Action::StartDestination, Action::StartRelay]
        },
        (Status::Online, Status::Online) => if relaying {
            Seq::empty()
        } else {
            seq![Action::StartRelay]
        },
        (Status::Offline, Status::Online) => if relaying {
            seq![Action::StopRelay, Action::StopDestination]
        } else {
            seq![Action::StopDestination]
        },
        _ => Seq::empty(),
    }
}

/// The status in which the actions leave a destination that was observed as
/// `observed`: live once it is started, offline once it is stopped, and as
/// observed otherwise.
pub open spec fn destination_after(observed: Status, actions: Seq<Action>) -> Status {
    if actions.contains(Action::StartDestination) {
        Status::Online
    } else if actions.contains(Action::StopDestination) {
        Status::Offline
    } else {
        observed
    }
}

/// Whether a relay is under supervision once the actions are carried out.
pub open spec fn relaying_after(relaying: bool, actions: Seq<Action>) -> bool {
    if actions.contains(Action::StartRelay) {
        true
    } else if actions.contains(Action::StopRelay) {
        false
    } else {
        relaying
    }
}

/// What the loop carries from one tick to the next.
#[derive(Clone, Debug)]
pub struct LoopState {
    /// The platform of the source.
    pub platform: Platform,
    /// The room of the source.
    pub room: String,
    /// The status of the source at the last tick.
    pub source: Status,
    /// The status of the destination after the last tick.
    pub destination: Status,
    /// Whether a relay is under supervision.
    pub relaying: bool,
}

impl LoopState {
    /// Whether two states differ in nothing but the room.
    pub open spec fn same_but_room(self, other: LoopState) -> bool {
        &&& self.platform == other.platform
        &&& self.source == other.source
        &&& self.destination == other.destination
        &&& self.relaying == other.relaying
    }

    /// The state before the first tick: the source is in `room`, nothing is
    /// known and nothing runs.
    pub fn new(platform: Platform, room: String) -> (state: LoopState)
        ensures
            state == (LoopState {
                platform,
                room,
                source: Status::Unknown,
                destination: Status::Unknown,
                relaying: false,
            }),
    {
        LoopState {
            platform,
            room,
            source: Status::Unknown,
            destination: Status::Unknown,
            relaying: false,
        }
    }

    /// The room of the source.
    pub fn room(&self) -> (room: &str)
        ensures
            room@ == self.room@,
    {
        self.room.as_str()
    }

    /// Replaces the room of the source, and nothing else.
    pub fn set_room(&mut self, room: &str)
        ensures
            final(self).room@ == room@,
            final(self).same_but_room(*old(self)),
    {
        self.room = String::from_str(room);
    }

    /// Takes over the room that a lookup found, and says whether there was
    /// one. The room is then the one found, and nothing else has changed. A
    /// lookup that failed, for whatever reason, changes nothing at all: the
    /// room is the one from before.
    pub fn refresh_room<E>(&mut self, resolved: &Result<String, E>) -> (changed: bool)
        ensures
            changed == resolved is Ok,
            final(self).same_but_room(*old(self)),
            match resolved {
                Ok(room) => final(self).room@ == room@,
                Err(_) => *final(self) == *old(self),
            },
    {
        match resolved {
            Ok(room) => {
                self.set_room(room.as_str());
                true
            },
            Err(_) => false,
        }
    }

    /// One tick: takes the two statuses as just observed, and gives the
    /// actions to carry out, in order.
    pub fn tick(&mut self, source: Status, destination: Status) -> (actions: Vec<Action>)
        ensures
            actions@ == plan(source, destination, old(self).relaying),
            final(self).platform == old(self).platform,
            final(self).room == old(self).room,
            final(self).source == source,
            final(self).destination == destination_after(destination, actions@),
            final(self).relaying == relaying_after(old(self).relaying, actions@),
    {
        let mut actions: Vec<Action> = Vec::new();
        let relaying = self.relaying;
        self.source = source;
        self.destination = destination;
        match (source, destination) {
            (Status::Online, Status::Offline) => {
                actions.push(Action::Notify);
                actions.push(Action::StartDestination);
                self.destination = Status::Online;
                if !relaying {
                    actions.push(Action::StartRelay);
                    self.relaying = true;
                }
            },
            (Status::Online, Status::Online) => {
                if !relaying {
                    actions.push(Action::StartRelay);
                    self.relaying = true;
                }
            },
            (Status::Offline, Status::Online) => {
                if relaying {
                    actions.push(Action::StopRelay);
                    self.relaying = false;
                }
                actions.push(Action::StopDestination);
                self.destination = Status::Offline;
            },
            _ => {},
        }
        proof {
            let expected = plan(source, destination, relaying);
            assert(actions@ =~= expected);
            lemma_plan_contents(source, destination, relaying);
        }
        actions
    }

    /// Notes that the relay ended by itself. The next tick begins another
    /// where the source is still live.
    pub fn relay_ended(&mut self)
        ensures
            *final(self) == (LoopState { relaying: false, ..*old(self) }),
    {
        self.relaying = false;
    }

    /// Whether the room of the source is to be looked up again after the
    /// tick.
    pub fn needs_room_lookup(&self) -> (needed: bool)
        ensures
            needed == (self.platform == Platform::YoutubePreviewLive),
    {
        self.platform.is_preview()
    }
}

/// The text of the notice that the source in `room` went live.
pub open spec fn notice_of(room: Seq<char>) -> Seq<char> {
    room + NOTICE_SUFFIX@
}

/// The text of the notice that the source in `room` went live.
pub fn notice_text(room: &str) -> (text: String)
    ensures
        text@ == notice_of(room@),
{
    let mut text = String::from_str(room);
    text.append(NOTICE_SUFFIX);
    text
}

/// How often `action` stands in `actions`.
pub open spec fn times(actions: Seq<Action>, action: Action) -> nat
    decreases actions.len(),
{
    if actions.len() == 0 {
        0
    } else if actions.last() == action {
        times(actions.drop_last(), action) + 1
    } else {
        times(actions.drop_last(), action)
    }
}

/// Which actions a plan holds: each one at most once, and each one exactly
/// for the statuses that call for it.
pub proof fn lemma_plan_contents(source: Status, destination: Status, relaying: bool)
    ensures
        forall|action: Action|
            plan(source, destination, relaying).contains(action) <==> #[trigger] times(
                plan(source, destination, relaying),
                action,
            ) == 1,
        forall|action: Action| #[trigger] times(plan(source, destination, relaying), action) <= 1,
        plan(source, destination, relaying).contains(Action::Notify) <==> source == Status::Online
            && destination == Status::Offline,
        plan(source, destination, relaying).contains(Action::StartDestination) <==> source
            == Status::Online && destination == Status::Offline,
        plan(source, destination, relaying).contains(Action::StopDestination) <==> source
            == Status::Offline && destination == Status::Online,
        plan(source, destination, relaying).contains(Action::StartRelay) <==> source
            == Status::Online && destination != Status::Unknown && !relaying,
        plan(source, destination, relaying).contains(Action::StopRelay) <==> source
            == Status::Offline && destination == Status::Online && relaying,
{
    let actions = plan(source, destination, relaying);
    assert forall|action: Action|
        (actions.contains(action) <==> #[trigger] times(actions, action) == 1) && times(
            actions,
            action,
        ) <= 1 by {
        lemma_times_of_distinct(actions, action);
    }
    if actions.len() == 3 {
        assert(actions[0] == Action::Notify && actions[1] == Action::StartDestination && actions[2]
            == Action::StartRelay);
    } else if actions.len() == 2 {
        assert(actions[0] == Action::Notify || actions[0] == Action::StopRelay);
        assert(actions[1] == Action::StartDestination || actions[1] == Action::StopDestination);
    } else if actions.len() == 1 {
        assert(actions[0] == Action::StartRelay || actions[0] == Action::StopDestination);
    }
}

/// In a sequence without repeats, an action stands once or not at all.
pub proof fn lemma_times_of_distinct(actions: Seq<Action>, action: Action)
    requires
        forall|i: int, j: int| 0 <= i < j < actions.len() ==> actions[i] != actions[j],
    ensures
        times(actions, action) <= 1,
        actions.contains(action) <==> times(actions, action) == 1,
    decreases actions.len(),
{
    if actions.len() > 0 {
        let rest = actions.drop_last();
        lemma_times_of_distinct(rest, action);
        if actions.last() == action {
            assert(!rest.contains(action)) by {
                if rest.contains(action) {
                    let i = choose|i: int| 0 <= i < rest.len() && rest[i] == action;
                    assert(actions[i] == actions[actions.len() - 1]);
                }
            }
            assert(actions[actions.len() - 1] == action);
        } else {
            if actions.contains(action) {
                let i = choose|i: int| 0 <= i < actions.len() && actions[i] == action;
                assert(rest[i] == action);
            }
            if rest.contains(action) {
                let i = choose|i: int| 0 <= i < rest.len() && rest[i] == action;
                assert(actions[i] == action);
            }
        }
    }
}

/// The destination is touched for two pairs of statuses and no other:
/// started when the source is live and the destination offline, stopped when
/// the source is offline and the destination live. It is never both.
pub proof fn lemma_destination_untouched(source: Status, destination: Status, relaying: bool)
    ensures
        !(source == Status::Online && destination == Status::Offline) ==> !plan(
            source,
            destination,
            relaying,
        ).contains(Action::StartDestination),
        !(source == Status::Offline && destination == Status::Online) ==> !plan(
            source,
            destination,
            relaying,
        ).contains(Action::StopDestination),
        !(plan(source, destination, relaying).contains(Action::StartDestination) && plan(
            source,
            destination,
            relaying,
        ).contains(Action::StopDestination)),
        source == Status::Unknown || destination == Status::Unknown ==> plan(
            source,
            destination,
            relaying,
        ) == Seq::<Action>::empty(),
{
    lemma_plan_contents(source, destination, relaying);
}

/// Starting is idempotent: a destination that a tick started is live, and
/// the tick that next observes it so, with the source still live, does not
/// start it again, and leaves it live.
pub proof fn lemma_start_is_not_repeated(relaying: bool)
    ensures
        destination_after(
            Status::Offline,
            plan(Status::Online, Status::Offline, relaying),
        ) == Status::Online,
        !plan(Status::Online, Status::Online, relaying).contains(Action::StartDestination),
        destination_after(Status::Online, plan(Status::Online, Status::Online, relaying))
            == Status::Online,
{
    lemma_plan_contents(Status::Online, Status::Offline, relaying);
    lemma_plan_contents(Status::Online, Status::Online, relaying);
}

/// Stopping is idempotent: a destination that a tick stopped is offline, and
/// the tick that next observes it so, with the source still offline, does
/// nothing at all.
pub proof fn lemma_stop_is_not_repeated(relaying: bool)
    ensures
        destination_after(
            Status::Online,
            plan(Status::Offline, Status::Online, relaying),
        ) == Status::Offline,
        plan(Status::Offline, Status::Offline, relaying) == Seq::<Action>::empty(),
        destination_after(Status::Offline, plan(Status::Offline, Status::Offline, relaying))
            == Status::Offline,
{
    lemma_plan_contents(Status::Offline, Status::Online, relaying);
    lemma_plan_contents(Status::Offline, Status::Offline, relaying);
}

} // verus!
