//! Following a run: its event stream, and waiting for its end.

use crate::error::{ErrorView, WritError};
use crate::json::document;
use crate::models::{event_of_text, EventView, RunCompleted, RunEvent};
use crate::resources::RunOptions;
use crate::sse::{parsed, SseParser};
use crate::text::{cat3, decimal, decimal_i64, decimal_u64, int_text, texts};
use crate::time::{min_nat, Duration, NANOS_PER_SEC};
use std::collections::VecDeque;
use vstd::prelude::*;

verus! {

broadcast use vstd::string::group_string_axioms;

/// What an event stream wants done.
#[derive(Debug)]
pub enum FeedAction {
    /// Hand out this event.
    Deliver(RunEvent),
    /// The stream has ended.
    End,
    /// Read the next chunk of the response.
    Read,
}

/// An event stream: chunks of a response go in, events come out. It decides; reading and
/// handing out is its caller's part.
#[derive(Debug)]
pub struct EventFeed {
    pub parser: SseParser,
    /// Events read and not yet handed out.
    pub pending: VecDeque<RunEvent>,
    pub done: bool,
}

/// The contents of events.
pub open spec fn event_views(v: Seq<RunEvent>) -> Seq<EventView> {
    v.map_values(|e: RunEvent| e@)
}

/// The events of payloads.
pub open spec fn payload_events(payloads: Seq<Seq<char>>) -> Seq<EventView> {
    payloads.map_values(|p: Seq<char>| event_of_text(p, document(p)))
}

impl EventFeed {
    /// A stream before its first chunk.
    pub fn new() -> (r: EventFeed)
        ensures
            r.parser.pending() == Seq::<u8>::empty(),
            r.parser.frame() == Seq::<Seq<char>>::empty(),
            r.pending@ == Seq::<RunEvent>::empty(),
            !r.done,
    {
        EventFeed { parser: SseParser::new(), pending: VecDeque::new(), done: false }
    }

    /// What a step does: it hands out the first event that is waiting, and drops the rest
    /// where that one is terminal; else it ends a stream that is over; else it asks for
    /// more.
    pub open spec fn stepped(self, action: FeedAction, after: EventFeed) -> bool {
        if self.pending@.len() > 0 {
            &&& action == FeedAction::Deliver(self.pending@[0])
            &&& after.parser == self.parser
            &&& if self.pending@[0]@.is_terminal() {
                after.done && after.pending@ == Seq::<RunEvent>::empty()
            } else {
                after.done == self.done && after.pending@ == self.pending@.drop_first()
            }
        } else {
            &&& action == if self.done {
                FeedAction::End
            } else {
                FeedAction::Read
            }
            &&& after.parser == self.parser
            &&& after.pending@ == self.pending@
            &&& after.done == self.done
        }
    }

    /// Says what is to be done next.
    pub fn step(&mut self) -> (r: FeedAction)
        ensures
            old(self).stepped(r, *final(self)),
    {
        match self.pending.pop_front() {
            Some(event) => {
                if event.is_terminal() {
                    self.done = true;
                    self.pending.clear();
                } else {
                    assert(self.pending@ == old(self).pending@.drop_first());
                }
                FeedAction::Deliver(event)
            },
            None => {
                if self.done {
                    FeedAction::End
                } else {
                    FeedAction::Read
                }
            },
        }
    }

    /// Takes a chunk: the events it completes are queued.
    pub fn on_chunk(&mut self, chunk: &[u8])
        ensures
            ({
                let r = parsed(old(self).parser.frame(), old(self).parser.pending() + chunk@);
                &&& final(self).parser.pending() == r.rest
                &&& final(self).parser.frame() == r.data
                &&& event_views(final(self).pending@) == event_views(old(self).pending@)
                    + payload_events(r.payloads)
                &&& final(self).done == old(self).done
            }),
    {
        let mut payloads: Vec<String> = Vec::new();
        let ghost r = parsed(self.parser.frame(), self.parser.pending() + chunk@);
        assert(texts(payloads@) == Seq::<Seq<char>>::empty());
        self.parser.feed(chunk, &mut payloads);
        assert(texts(payloads@) == r.payloads);
        let ghost before = event_views(self.pending@);
        assert(before == before + payload_events(r.payloads).take(0));
        let mut i: usize = 0;
        while i < payloads.len()
            invariant
                i <= payloads.len(),
                texts(payloads@) == r.payloads,
                self.parser.pending() == r.rest,
                self.parser.frame() == r.data,
                self.done == old(self).done,
                event_views(self.pending@) == before + payload_events(r.payloads).take(i as int),
            decreases payloads.len() - i,
        {
            let event: RunEvent = RunEvent::parse(payloads[i].as_str());
            let ghost view = event@;
            let ghost queue = self.pending@;
            assert(texts(payloads@)[i as int] == payloads@[i as int]@);
            assert(view == payload_events(r.payloads)[i as int]);
            self.pending.push_back(event);
            assert(event_views(self.pending@) == event_views(queue).push(view));
            assert(event_views(self.pending@) == before + payload_events(r.payloads).take(i + 1));
            i = i + 1;
        }
        assert(payload_events(r.payloads).take(payloads@.len() as int) == payload_events(
            r.payloads,
        ));
    }

    /// Takes a failure of the connection, which is handed out and ends the stream.
    pub fn on_error(&mut self)
        ensures
            final(self).done,
            final(self).parser == old(self).parser,
            final(self).pending@ == old(self).pending@,
    {
        self.done = true;
    }
}

/// A terminal event is the last: once it is handed out the stream ends, and stays ended.
pub proof fn law_terminal_event_is_last(
    feed: EventFeed,
    action: FeedAction,
    after: EventFeed,
    next: FeedAction,
    later: EventFeed,
)
    requires
        feed.stepped(action, after),
        action matches FeedAction::Deliver(e) && e@.is_terminal(),
        after.stepped(next, later),
    ensures
        next is End,
        later.done,
        later.pending@.len() == 0,
{
}

/// The result of a run that was waited for by the server: the run, or that it goes on.
pub fn run_wait_result(out: RunCompleted) -> (r: Result<RunCompleted, WritError>)
    ensures
        out.done ==> r == Ok::<RunCompleted, WritError>(out),
        !out.done ==> r is Err && r->Err_0@ == (ErrorView::RunTimeout {
            run_id: out.run_id,
            status_url: crate::text::opt_string(out.status_url),
            events_url: crate::text::opt_string(out.events_url),
        }),
{
    if out.done {
        Ok(out)
    } else {
        Err(
            WritError::RunTimeout {
                run_id: out.run_id,
                status_url: out.status_url,
                events_url: out.events_url,
            },
        )
    }
}

/// How long a run is waited for unless another limit is set: ten minutes.
pub fn default_wait() -> (r: Duration)
    ensures
        r@ == 600 * NANOS_PER_SEC,
{
    Duration::from_secs(600)
}

/// What happened while a run is waited for, with the time since it was started.
#[derive(Debug, Clone, Copy)]
pub enum WaitEvent {
    /// The run was started.
    Started { elapsed: Duration },
    /// The event stream was opened.
    StreamOpened,
    /// An event came.
    StreamEvent { terminal: bool, elapsed: Duration },
    /// The event stream could not be opened, failed, or closed.
    StreamLost { elapsed: Duration },
    /// The run's state was read.
    Polled { running: bool, elapsed: Duration },
    /// The nap between two polls is over.
    Napped { elapsed: Duration },
}

/// What to do while a run is waited for.
#[derive(Debug, Clone, Copy)]
pub enum WaitAction {
    /// Open the event stream, for at most this long.
    OpenStream(Duration),
    /// Read the next event.
    ReadStream,
    /// Read the run's state.
    Poll,
    /// Wait before the next poll.
    Nap(Duration),
    /// The run is over: fetch its final state, and its results where they are wanted.
    Finish,
    /// Give up waiting. The run goes on.
    GiveUp,
}

/// An action with its length in nanoseconds.
pub enum WaitView {
    OpenStream(nat),
    ReadStream,
    Poll,
    Nap(nat),
    Finish,
    GiveUp,
}

impl View for WaitAction {
    type V = WaitView;

    open spec fn view(&self) -> WaitView {
        match *self {
            WaitAction::OpenStream(d) => WaitView::OpenStream(d@),
            WaitAction::ReadStream => WaitView::ReadStream,
            WaitAction::Poll => WaitView::Poll,
            WaitAction::Nap(d) => WaitView::Nap(d@),
            WaitAction::Finish => WaitView::Finish,
            WaitAction::GiveUp => WaitView::GiveUp,
        }
    }
}

/// Poll, unless the time is up.
pub open spec fn poll_or_give_up(limit: nat, elapsed: nat) -> WaitView {
    if elapsed >= limit {
        WaitView::GiveUp
    } else {
        WaitView::Poll
    }
}

/// What follows an event: the stream first, polling once a second where it fails, and
/// nothing past the limit.
pub open spec fn wait_view(limit: nat, event: WaitEvent) -> WaitView {
    match event {
        WaitEvent::Started { elapsed } => if elapsed@ < limit {
            WaitView::OpenStream((limit - elapsed@) as nat)
        } else {
            WaitView::GiveUp
        },
        WaitEvent::StreamOpened => WaitView::ReadStream,
        WaitEvent::StreamEvent { terminal, elapsed } => if terminal {
            WaitView::Finish
        } else if elapsed@ >= limit {
            WaitView::GiveUp
        } else {
            WaitView::ReadStream
        },
        WaitEvent::StreamLost { elapsed } => poll_or_give_up(limit, elapsed@),
        WaitEvent::Polled { running, elapsed } => if !running {
            WaitView::Finish
        } else if elapsed@ >= limit {
            WaitView::GiveUp
        } else {
            WaitView::Nap(min_nat(NANOS_PER_SEC as nat, (limit - elapsed@) as nat))
        },
        WaitEvent::Napped { elapsed } => poll_or_give_up(limit, elapsed@),
    }
}

/// Decides what follows an event.
pub fn wait_action(limit: Duration, event: WaitEvent) -> (r: WaitAction)
    ensures
        r@ == wait_view(limit@, event),
{
    match event {
        WaitEvent::Started { elapsed } => {
            let left: Duration = limit.saturating_sub(&elapsed);
            if left.is_zero() {
                WaitAction::GiveUp
            } else {
                WaitAction::OpenStream(left)
            }
        },
        WaitEvent::StreamOpened => WaitAction::ReadStream,
        WaitEvent::StreamEvent { terminal, elapsed } => {
            if terminal {
                WaitAction::Finish
            } else if limit.longer_than(&elapsed) {
                WaitAction::ReadStream
            } else {
                WaitAction::GiveUp
            }
        },
        WaitEvent::StreamLost { elapsed } => {
            if limit.longer_than(&elapsed) {
                WaitAction::Poll
            } else {
                WaitAction::GiveUp
            }
        },
        WaitEvent::Polled { running, elapsed } => {
            if !running {
                return WaitAction::Finish;
            }
            let left: Duration = limit.saturating_sub(&elapsed);
            if left.is_zero() {
                WaitAction::GiveUp
            } else {
                WaitAction::Nap(Duration::from_secs(1).min(&left))
            }
        },
        WaitEvent::Napped { elapsed } => {
            if limit.longer_than(&elapsed) {
                WaitAction::Poll
            } else {
                WaitAction::GiveUp
            }
        },
    }
}

/// What is said where a run was not over in time.
pub open spec fn not_over_text(run_id: i64, limit: nat) -> Seq<char> {
    "run_and_wait: run "@ + int_text(run_id as int) + " not terminal after "@ + decimal(
        limit / NANOS_PER_SEC as nat,
    ) + "s — the run was NOT cancelled and continues on the daemon"@
}

/// The error where a run was not over in time.
pub fn wait_timeout(run_id: i64, limit: Duration) -> (r: WritError)
    ensures
        r@ == ErrorView::Connection(not_over_text(run_id, limit@)),
{
    let id: String = decimal_i64(run_id);
    let secs: String = decimal_u64(limit.as_secs());
    let mut m: String = cat3("run_and_wait: run ", id.as_str(), " not terminal after ");
    m.append(secs.as_str());
    m.append("s — the run was NOT cancelled and continues on the daemon");
    WritError::Connection(m)
}

/// Waiting keeps to its limit: it is given up only once the time is up, no nap and no
/// stream is allowed past it, and the run is taken as over only after a terminal event or
/// a state other than running.
pub proof fn law_waiting_keeps_to_its_limit(limit: nat, event: WaitEvent)
    ensures
        wait_view(limit, event) is Finish ==> (event matches WaitEvent::StreamEvent {
            terminal,
            ..
        } && terminal) || (event matches WaitEvent::Polled { running, .. } && !running),
        wait_view(limit, event) is GiveUp ==> match event {
            WaitEvent::Started { elapsed } => elapsed@ >= limit,
            WaitEvent::StreamEvent { elapsed, .. } => elapsed@ >= limit,
            WaitEvent::StreamLost { elapsed } => elapsed@ >= limit,
            WaitEvent::Polled { elapsed, .. } => elapsed@ >= limit,
            WaitEvent::Napped { elapsed } => elapsed@ >= limit,
            WaitEvent::StreamOpened => false,
        },
        wait_view(limit, event) matches WaitView::Nap(n) ==> event matches WaitEvent::Polled {
            elapsed,
            ..
        } && 0 < n && elapsed@ + n <= limit,
        wait_view(limit, event) matches WaitView::OpenStream(n) ==> event matches
            WaitEvent::Started { elapsed } && elapsed@ + n == limit,
{
}

/// Waiting misses nothing: a terminal event ends it, and so does a state other than running;
/// while there is time a stream that is open is read on, one that is lost gives way to
/// polling, and two polls are a second apart unless the limit is nearer.
pub proof fn law_waiting_misses_nothing(limit: nat, elapsed: Duration)
    ensures
        wait_view(limit, WaitEvent::StreamEvent { terminal: true, elapsed }) is Finish,
        wait_view(limit, WaitEvent::Polled { running: false, elapsed }) is Finish,
        elapsed@ < limit ==> {
            &&& wait_view(limit, WaitEvent::Started { elapsed }) == WaitView::OpenStream(
                (limit - elapsed@) as nat,
            )
            &&& wait_view(limit, WaitEvent::StreamEvent { terminal: false, elapsed }) is ReadStream
            &&& wait_view(limit, WaitEvent::StreamLost { elapsed }) is Poll
            &&& wait_view(limit, WaitEvent::Napped { elapsed }) is Poll
            &&& wait_view(limit, WaitEvent::Polled { running: true, elapsed }) matches
                WaitView::Nap(n) && (n == 1_000_000_000 && elapsed@ + n <= limit || n
                < 1_000_000_000 && elapsed@ + n == limit)
        },
        elapsed@ >= limit ==> {
            &&& wait_view(limit, WaitEvent::Started { elapsed }) is GiveUp
            &&& wait_view(limit, WaitEvent::StreamEvent { terminal: false, elapsed }) is GiveUp
            &&& wait_view(limit, WaitEvent::StreamLost { elapsed }) is GiveUp
            &&& wait_view(limit, WaitEvent::Napped { elapsed }) is GiveUp
            &&& wait_view(limit, WaitEvent::Polled { running: true, elapsed }) is GiveUp
        },
        wait_view(limit, WaitEvent::StreamOpened) is ReadStream,
{
}

/// A build is polled until it is over: its end is never missed, and waiting is given up only
/// once a poll came after the limit.
pub proof fn law_builds_are_polled_to_their_end(limit: nat, elapsed: Duration, id: i64)
    ensures
        build_next(limit, BuildEvent::Started { build_id: Some(id) }) is Poll,
        build_next(limit, BuildEvent::Started { build_id: None }) is Finish,
        build_next(limit, BuildEvent::Polled { terminal: true, elapsed }) is Finish,
        elapsed@ < limit ==> build_next(
            limit,
            BuildEvent::Polled { terminal: false, elapsed },
        ) is Pause,
        elapsed@ >= limit ==> build_next(
            limit,
            BuildEvent::Polled { terminal: false, elapsed },
        ) is GiveUp,
        build_next(limit, BuildEvent::Paused) is Poll,
{
}

/// After the end the run is read exactly once, its results exactly where they are wanted, and
/// then what was read is handed back.
pub proof fn law_the_end_is_read_once(include_results: bool)
    ensures
        closing_next(include_results, ClosingEvent::Over) is ReadRun,
        closing_next(include_results, ClosingEvent::RunRead) is ReadResults <==> include_results,
        closing_next(include_results, ClosingEvent::RunRead) is HandBack <==> !include_results,
        closing_next(include_results, ClosingEvent::ResultsRead) is HandBack,
{
}

/// Events are handed out one by one in the order in which they came, none left out, until one
/// is terminal; and more is read only where none is waiting.
pub proof fn law_events_are_handed_out_in_order(
    feed: EventFeed,
    action: FeedAction,
    after: EventFeed,
)
    requires
        feed.stepped(action, after),
    ensures
        action matches FeedAction::Deliver(e) ==> feed.pending@.len() > 0 && feed.pending@[0] == e,
        action matches FeedAction::Deliver(e) ==> !(e@ is Finished || e@ is Error) ==> feed.pending@
            == seq![e] + after.pending@ && after.done == feed.done,
        action is Read ==> feed.pending@.len() == 0 && !feed.done,
        action is End ==> feed.pending@.len() == 0 && feed.done,
{
    if let FeedAction::Deliver(e) = action {
        assert(feed.pending@ == seq![feed.pending@[0]] + feed.pending@.drop_first());
    }
}

/// What happened after a run that was waited for was over.
#[derive(Debug, Clone, Copy, PartialEq, Eq, Structural)]
pub enum ClosingEvent {
    /// Waiting ended with [`WaitAction::Finish`].
    Over,
    /// The run's final state was read.
    RunRead,
    /// The run's results were read.
    ResultsRead,
}

/// What to do after a run that was waited for is over.
#[derive(Debug, Clone, Copy, PartialEq, Eq, Structural)]
pub enum ClosingAction {
    /// Read the run's final state.
    ReadRun,
    /// Read the run's results.
    ReadResults,
    /// Hand back what was read.
    HandBack,
}

/// What follows an event after the end: the run is always read, its results where they
/// are wanted, and then what was read is handed back.
pub open spec fn closing_next(include_results: bool, event: ClosingEvent) -> ClosingAction {
    match event {
        ClosingEvent::Over => ClosingAction::ReadRun,
        ClosingEvent::RunRead => if include_results {
            ClosingAction::ReadResults
        } else {
            ClosingAction::HandBack
        },
        ClosingEvent::ResultsRead => ClosingAction::HandBack,
    }
}

/// Decides what follows an event after the end.
pub fn closing_action(opts: &RunOptions, event: ClosingEvent) -> (r: ClosingAction)
    ensures
        r == closing_next(opts.include_results, event),
{
    match event {
        ClosingEvent::Over => ClosingAction::ReadRun,
        ClosingEvent::RunRead => {
            if opts.include_results {
                ClosingAction::ReadResults
            } else {
                ClosingAction::HandBack
            }
        },
        ClosingEvent::ResultsRead => ClosingAction::HandBack,
    }
}

/// What happened while a build is waited for.
#[derive(Debug, Clone, Copy)]
pub enum BuildEvent {
    /// The build was started, under this id where it has one.
    Started { build_id: Option<i64> },
    /// The build's state was read.
    Polled { terminal: bool, elapsed: Duration },
    /// The pause between two polls is over.
    Paused,
}

/// What to do while a build is waited for.
#[derive(Debug, Clone, Copy, PartialEq, Eq, Structural)]
pub enum BuildAction {
    /// Hand back the latest state.
    Finish,
    /// Read the build's state.
    Poll,
    /// Wait for the poll interval.
    Pause,
    /// Give up waiting. The build goes on.
    GiveUp,
}

/// What follows an event: a build without an id is what it is; any other is polled until
/// it is over, or the time is up after a poll.
pub open spec fn build_next(limit: nat, event: BuildEvent) -> BuildAction {
    match event {
        BuildEvent::Started { build_id } => if build_id is None {
            BuildAction::Finish
        } else {
            BuildAction::Poll
        },
        BuildEvent::Polled { terminal, elapsed } => if terminal {
            BuildAction::Finish
        } else if elapsed@ >= limit {
            BuildAction::GiveUp
        } else {
            BuildAction::Pause
        },
        BuildEvent::Paused => BuildAction::Poll,
    }
}

/// Decides what follows an event.
pub fn build_action(limit: Duration, event: BuildEvent) -> (r: BuildAction)
    ensures
        r == build_next(limit@, event),
{
    match event {
        BuildEvent::Started { build_id } => {
            if build_id.is_none() {
                BuildAction::Finish
            } else {
                BuildAction::Poll
            }
        },
        BuildEvent::Polled { terminal, elapsed } => {
            if terminal {
                BuildAction::Finish
            } else if limit.longer_than(&elapsed) {
                BuildAction::Pause
            } else {
                BuildAction::GiveUp
            }
        },
        BuildEvent::Paused => BuildAction::Poll,
    }
}

} // verus!
