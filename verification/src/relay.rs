//! The relay: the transcoder's command line, and the decisions of the
//! supervisor that keeps one transcoder running while the source is live.
//!
//! The caller spawns and reaps the process. After each thing that happens to
//! it, the supervisor says what to do next.

use vstd::prelude::*;
use vstd::string::StringExecFns;

verus! {

/// The program that transcodes.
pub const TRANSCODER: &'static str = "ffmpeg";

/// Where the relay sends the stream.
#[derive(Clone, Debug)]
pub struct RelayTarget {
    /// Address that takes the stream in.
    pub ingest_url: String,
    /// Key of the stream, appended to the address.
    pub ingest_key: String,
    /// Proxy through which the transcoder fetches the media, if any.
    pub proxy: Option<String>,
}

/// The arguments of the transcoder: the proxy, where there is one; reading
/// at the media's own rate; the media address as input; the picture copied
/// and the sound encoded as AAC; an FLV container; and as output the ingest
/// address followed by the key.
pub open spec fn ffmpeg_args(
    rtmp_url: Seq<char>,
    rtmp_key: Seq<char>,
    m3u8_url: Seq<char>,
    ffmpeg_proxy: Option<Seq<char>>,
) -> Seq<Seq<char>> {
    let proxy = match ffmpeg_proxy {
        Some(address) => seq!["-http_proxy"@, address],
        None => Seq::empty(),
    };
    proxy + seq![
        "-re"@,
        "-i"@,
        m3u8_url,
        "-vcodec"@,
        "copy"@,
        "-acodec"@,
        "aac"@,
        "-f"@,
        "flv"@,
        rtmp_url + rtmp_key,
    ]
}

/// Builds the arguments with which the transcoder relays `m3u8_url` to
/// `rtmp_url` under the key `rtmp_key`.
pub fn ffmpeg(rtmp_url: String, rtmp_key: String, m3u8_url: String, ffmpeg_proxy: Option<String>) -> (args:
    Vec<String>)
    ensures
        args.deep_view() == ffmpeg_args(rtmp_url@, rtmp_key@, m3u8_url@, ffmpeg_proxy.deep_view()),
{
    let ghost expected = ffmpeg_args(rtmp_url@, rtmp_key@, m3u8_url@, ffmpeg_proxy.deep_view());
    let mut args: Vec<String> = Vec::new();
    match ffmpeg_proxy {
        Some(address) => {
            args.push(String::from_str("-http_proxy"));
            args.push(address);
        },
        None => {},
    }
    let ghost head = args.deep_view();
    assert(head =~= match ffmpeg_proxy {
        Some(address) => seq!["-http_proxy"@, address@],
        None => Seq::empty(),
    });
    let ghost base = args@;
    args.push(String::from_str("-re"));
    args.push(String::from_str("-i"));
    args.push(m3u8_url);
    args.push(String::from_str("-vcodec"));
    args.push(String::from_str("copy"));
    args.push(String::from_str("-acodec"));
    args.push(String::from_str("aac"));
    args.push(String::from_str("-f"));
    args.push(String::from_str("flv"));
    args.push(rtmp_url.concat(rtmp_key.as_str()));
    assert(args.deep_view() =~= expected) by {
        assert(args@.len() == base.len() + 10);
        assert forall|i: int| 0 <= i < base.len() implies args@[i] == base[i] by {}
    }
    args
}

/// Where a relay run stands.
#[derive(Clone, Copy, Debug, PartialEq, Eq, Structural)]
pub enum Phase {
    /// The media address is being looked up; no transcoder runs.
    Resolving,
    /// A transcoder runs.
    Running,
    /// The transcoder was told to end and has not ended yet.
    Stopping,
    /// The run is over; no transcoder runs.
    Finished,
}

/// Why a relay run is over.
#[derive(Clone, Copy, Debug, PartialEq, Eq, Structural)]
pub enum Ending {
    /// A signal killed the transcoder.
    Killed,
    /// The source gave no media address.
    MediaUnavailable,
    /// The run was cancelled.
    Cancelled,
}

/// What happened, as the caller reports it.
#[derive(Clone, Debug)]
pub enum Event {
    /// The source gave this media address.
    Resolved(String),
    /// The source gave no media address.
    ResolveFailed,
    /// The transcoder ended, with this exit code or, killed by a signal,
    /// with none.
    Exited(Option<i32>),
    /// The reconciliation loop wants the relay stopped.
    Cancel,
    /// The transcoder was told to end and the time allowed for it is over.
    GraceExpired,
}

/// What the caller is to do next.
#[derive(Clone, Debug)]
pub enum Command {
    /// Ask the source for its media address.
    Resolve,
    /// Start the transcoder with these arguments.
    Launch(Vec<String>),
    /// Tell the transcoder to end.
    Terminate,
    /// Kill the transcoder.
    Kill,
    /// The run is over, for this reason.
    Report(Ending),
    /// Nothing.
    Nothing,
}

/// An event without what it carries.
#[derive(Clone, Copy, Debug, PartialEq, Eq, Structural)]
pub enum EventKind {
    Resolved,
    ResolveFailed,
    ExitedWithCode,
    ExitedBySignal,
    Cancel,
    GraceExpired,
}

/// A command without what it carries.
#[derive(Clone, Copy, Debug, PartialEq, Eq, Structural)]
pub enum CommandKind {
    Resolve,
    Launch,
    Terminate,
    Kill,
    Report(Ending),
    Nothing,
}

impl Event {
    /// The event without what it carries.
    pub open spec fn kind(self) -> EventKind {
        match self {
            Event::Resolved(_) => EventKind::Resolved,
            Event::ResolveFailed => EventKind::ResolveFailed,
            Event::Exited(Some(_)) => EventKind::ExitedWithCode,
            Event::Exited(None) => EventKind::ExitedBySignal,
            Event::Cancel => EventKind::Cancel,
            Event::GraceExpired => EventKind::GraceExpired,
        }
    }
}

impl Command {
    /// The command without what it carries.
    pub open spec fn kind(self) -> CommandKind {
        match self {
            Command::Resolve => CommandKind::Resolve,
            Command::Launch(_) => CommandKind::Launch,
            Command::Terminate => CommandKind::Terminate,
            Command::Kill => CommandKind::Kill,
            Command::Report(ending) => CommandKind::Report(ending),
            Command::Nothing => CommandKind::Nothing,
        }
    }
}

/// The answer to an event: the command, and the phase after it.
///
/// While the address is looked up, an address starts the transcoder, and a
/// failed lookup or a cancellation ends the run. While the transcoder runs,
/// its exit with any code, zero or not, leads back to the lookup; its death
/// by a signal ends the run; a cancellation asks it to end. While it is
/// asked to end, its exit ends the run, and the end of the grace time kills
/// it. Anything else changes nothing.
pub open spec fn answer(phase: Phase, event: EventKind) -> (CommandKind, Phase) {
    match (phase, event) {
        (Phase::Resolving, EventKind::Resolved) => (CommandKind::Launch, Phase::Running),
        (Phase::Resolving, EventKind::ResolveFailed) => (
            CommandKind::Report(Ending::MediaUnavailable),
            Phase::Finished,
        ),
        (Phase::Resolving, EventKind::Cancel) => (
            CommandKind::Report(Ending::Cancelled),
            Phase::Finished,
        ),
        (Phase::Running, EventKind::ExitedWithCode) => (CommandKind::Resolve, Phase::Resolving),
        (Phase::Running, EventKind::ExitedBySignal) => (
            CommandKind::Report(Ending::Killed),
            Phase::Finished,
        ),
        (Phase::Running, EventKind::Cancel) => (CommandKind::Terminate, Phase::Stopping),
        (Phase::Stopping, EventKind::ExitedWithCode) => (
            CommandKind::Report(Ending::Cancelled),
            Phase::Finished,
        ),
        (Phase::Stopping, EventKind::ExitedBySignal) => (
            CommandKind::Report(Ending::Cancelled),
            Phase::Finished,
        ),
        (Phase::Stopping, EventKind::GraceExpired) => (CommandKind::Kill, Phase::Stopping),
        _ => (CommandKind::Nothing, phase),
    }
}

/// The transcoders that live in a phase.
pub open spec fn transcoders(phase: Phase) -> nat {
    match phase {
        Phase::Running => 1,
        Phase::Stopping => 1,
        _ => 0,
    }
}

/// The supervisor of one relay run.
#[derive(Clone, Debug)]
pub struct Supervisor {
    /// Where the stream goes.
    pub target: RelayTarget,
    /// Where the run stands.
    pub phase: Phase,
    /// The exit code of the transcoder that ended last.
    pub last_exit: Option<i32>,
    /// The media address that the transcoder was last started with.
    pub media_url: Option<String>,
}

impl Supervisor {
    /// Begins a run: the supervisor, and its first command, which asks for
    /// the media address.
    pub fn start(target: RelayTarget) -> (begun: (Supervisor, Command))
        ensures
            begun.0.target == target,
            begun.0.phase == Phase::Resolving,
            begun.0.last_exit is None,
            begun.0.media_url is None,
            begun.1.kind() == CommandKind::Resolve,
    {
        (
            Supervisor { target, phase: Phase::Resolving, last_exit: None, media_url: None },
            Command::Resolve,
        )
    }

    /// Whether a transcoder lives.
    pub fn is_relaying(&self) -> (relaying: bool)
        ensures
            relaying == (transcoders(self.phase) == 1),
    {
        match self.phase {
            Phase::Running => true,
            Phase::Stopping => true,
            _ => false,
        }
    }

    /// Whether the run is over.
    pub fn is_finished(&self) -> (finished: bool)
        ensures
            finished == (self.phase == Phase::Finished),
    {
        match self.phase {
            Phase::Finished => true,
            _ => false,
        }
    }

    /// Takes an event and says what to do next.
    ///
    /// The command and the new phase are those of `answer`. A launch carries
    /// the arguments for the address that just came, never an earlier one,
    /// and that address is kept; an exit is kept with its code.
    pub fn handle(&mut self, event: Event) -> (command: Command)
        ensures
            (command.kind(), final(self).phase) == answer(old(self).phase, event.kind()),
            final(self).target == old(self).target,
            match command {
                Command::Launch(args) => match event {
                    Event::Resolved(url) => args.deep_view() == ffmpeg_args(
                        old(self).target.ingest_url@,
                        old(self).target.ingest_key@,
                        url@,
                        old(self).target.proxy.deep_view(),
                    ),
                    _ => false,
                },
                _ => true,
            },
            final(self).media_url.deep_view() == match (old(self).phase, event) {
                (Phase::Resolving, Event::Resolved(url)) => Some(url@),
                _ => old(self).media_url.deep_view(),
            },
            final(self).last_exit == match (old(self).phase, event) {
                (Phase::Running, Event::Exited(code)) => code,
                (Phase::Stopping, Event::Exited(code)) => code,
                _ => old(self).last_exit,
            },
    {
        match self.phase {
            Phase::Resolving => match event {
                Event::Resolved(url) => {
                    let proxy = match &self.target.proxy {
                        Some(address) => Some(address.clone()),
                        None => None,
                    };
                    let args = ffmpeg(
                        self.target.ingest_url.clone(),
                        self.target.ingest_key.clone(),
                        url.clone(),
                        proxy,
                    );
                    self.media_url = Some(url);
                    self.phase = Phase::Running;
                    Command::Launch(args)
                },
                Event::ResolveFailed => {
                    self.phase = Phase::Finished;
                    Command::Report(Ending::MediaUnavailable)
                },
                Event::Cancel => {
                    self.phase = Phase::Finished;
                    Command::Report(Ending::Cancelled)
                },
                _ => Command::Nothing,
            },
            Phase::Running => match event {
                Event::Exited(Some(code)) => {
                    self.last_exit = Some(code);
                    self.phase = Phase::Resolving;
                    Command::Resolve
                },
                Event::Exited(None) => {
                    self.last_exit = None;
                    self.phase = Phase::Finished;
                    Command::Report(Ending::Killed)
                },
                Event::Cancel => {
                    self.phase = Phase::Stopping;
                    Command::Terminate
                },
                _ => Command::Nothing,
            },
            Phase::Stopping => match event {
                Event::Exited(code) => {
                    self.last_exit = code;
                    self.phase = Phase::Finished;
                    Command::Report(Ending::Cancelled)
                },
                Event::GraceExpired => Command::Kill,
                _ => Command::Nothing,
            },
            Phase::Finished => Command::Nothing,
        }
    }
}

/// The phase after the events of `events`, taken in order from `start`.
pub open spec fn phase_after(start: Phase, events: Seq<EventKind>) -> Phase
    decreases events.len(),
{
    if events.len() == 0 {
        start
    } else {
        answer(phase_after(start, events.drop_last()), events.last()).1
    }
}

/// How many transcoders the events of `events` had started.
pub open spec fn launched(start: Phase, events: Seq<EventKind>) -> nat
    decreases events.len(),
{
    if events.len() == 0 {
        0
    } else {
        let before = phase_after(start, events.drop_last());
        let earlier = launched(start, events.drop_last());
        if answer(before, events.last()).0 == CommandKind::Launch {
            earlier + 1
        } else {
            earlier
        }
    }
}

/// An event that reports the end of a transcoder.
pub open spec fn is_exit(event: EventKind) -> bool {
    event == EventKind::ExitedWithCode || event == EventKind::ExitedBySignal
}

/// How many transcoders had ended, among the events of `events`, while one
/// lived.
pub open spec fn ended(start: Phase, events: Seq<EventKind>) -> nat
    decreases events.len(),
{
    if events.len() == 0 {
        0
    } else {
        let before = phase_after(start, events.drop_last());
        let earlier = ended(start, events.drop_last());
        if is_exit(events.last()) && transcoders(before) == 1 {
            earlier + 1
        } else {
            earlier
        }
    }
}

/// Whatever happens, at most one transcoder lives: after any events, the
/// transcoders that were started, less those that ended, are the one or
/// none of the phase that was reached.
pub proof fn lemma_at_most_one_transcoder(start: Phase, events: Seq<EventKind>)
    ensures
        transcoders(start) + launched(start, events) - ended(start, events) == transcoders(
            phase_after(start, events),
        ),
        transcoders(phase_after(start, events)) <= 1,
    decreases events.len(),
{
    if events.len() > 0 {
        lemma_at_most_one_transcoder(start, events.drop_last());
    }
}

/// A transcoder that ends with an exit code, zero or not, is started again
/// after a new lookup of the media address; one that a signal killed is not.
pub proof fn lemma_exit_policy(event: EventKind)
    ensures
        event == EventKind::ExitedWithCode ==> answer(Phase::Running, event) == (
            CommandKind::Resolve,
            Phase::Resolving,
        ),
        event == EventKind::ExitedBySignal ==> answer(Phase::Running, event) == (
            CommandKind::Report(Ending::Killed),
            Phase::Finished,
        ),
        answer(Phase::Resolving, EventKind::Resolved) == (CommandKind::Launch, Phase::Running),
{
}

} // verus!
