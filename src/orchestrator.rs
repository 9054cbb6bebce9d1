//! The orchestrator: the terminal's main control loop, as a state machine.
//!
//! Two lanes carry calls to the service, one at a time each: the view lane answers
//! read-only `View` queries, the update lane applies `Update` calls. Every tick, the loop
//! takes at most one input event, at most one answer from each lane, and decides what to
//! do: the actions it returns (calls to send, results to render, captures to write) are
//! performed by the caller, which hands the outcome back on the next tick.
//!
//! The `ready` and `dirty` flags are the flow control: a `View` is sent only when the
//! previous one has been answered (`ready`) and new events are buffered (`dirty`). An
//! `Update` is sent only on the answer to the previous one, with the events buffered since;
//! those events become the committed prefix of the following `View` batches.
use vstd::prelude::*;

use crate::event::{clone_events, events_view, Event, EventInfo, EventInfoView, EventView};
use crate::graphics::{self, Dim, Request};
use crate::replay::{frames, ReplayDriver};
use crate::types::{event_info, ServiceCall, ServiceCallView, UserInfoCli};

verus! {

/// Phase of the loop.
#[derive(Clone, Copy, Debug, PartialEq, Eq, Structural)]
pub enum Phase {
    /// Taking input and driving both lanes.
    Running,
    /// Quit was requested: waiting for the update lane's answer.
    Draining,
    /// The final update, with every event still buffered, was sent: waiting for its answer.
    Flushing,
    /// Both lanes were told to stop and the capture was written.
    Terminated,
}

/// Where events come from: a live user, or a recorded log replayed frame by frame.
#[derive(Debug, PartialEq)]
pub enum Source {
    Live(UserInfoCli),
    Replay(ReplayDriver),
}

/// The view lane's answer: the decoded result, or a reply that could not be decoded.
#[derive(Debug, PartialEq)]
pub enum ViewReply {
    Decoded(graphics::Result),
    Undecodable,
}

/// The update lane's answer: the decoded graphics, or a reply that could not be decoded.
#[derive(Debug, PartialEq)]
pub enum UpdateReply {
    Decoded(Vec<graphics::Result>),
    Undecodable,
}

/// Errors that end the loop.
#[derive(Clone, Copy, Debug, PartialEq, Eq, Structural)]
pub enum LoopError {
    /// The update lane's reply could not be decoded: the terminal can no longer assume
    /// that its state agrees with the service's.
    UpdateUndecodable,
}

/// What the caller performs for a tick.
#[derive(Debug, PartialEq)]
pub enum Action {
    /// Send this call to the view lane.
    ToView(ServiceCall),
    /// Send this call to the update lane.
    ToUpdate(ServiceCall),
    /// Render this result on the window and the capture surface.
    Render(graphics::Result),
    /// Write the captured frames, taken at the given dimension, as an animation.
    FlushCapture(Dim, Vec<String>),
    /// Recreate the capture surface at the given dimension.
    ResizeSurface(Dim),
    /// Write the recorded events, graphics and frames.
    WriteCapture(Dim, Vec<EventInfo>, Vec<graphics::Result>, Vec<String>),
}

/// An action as a value.
pub enum ActionView {
    ToView(ServiceCallView),
    ToUpdate(ServiceCallView),
    Render(graphics::Result),
    FlushCapture(Dim, Seq<String>),
    ResizeSurface(Dim),
    WriteCapture(Dim, Seq<EventInfoView>, Seq<graphics::Result>, Seq<String>),
}

impl View for Action {
    type V = ActionView;

    open spec fn view(&self) -> ActionView {
        match self {
            Action::ToView(c) => ActionView::ToView(c@),
            Action::ToUpdate(c) => ActionView::ToUpdate(c@),
            Action::Render(r) => ActionView::Render(*r),
            Action::FlushCapture(d, paths) => ActionView::FlushCapture(*d, paths@),
            Action::ResizeSurface(d) => ActionView::ResizeSurface(*d),
            Action::WriteCapture(d, evs, gs, paths) => ActionView::WriteCapture(
                *d,
                events_view(evs@),
                gs@,
                paths@,
            ),
        }
    }
}

pub open spec fn actions_view(acts: Seq<Action>) -> Seq<ActionView> {
    acts.map_values(|a: Action| a@)
}

/// The update lane's answer as a value.
pub enum UpdateReplyView {
    Decoded(Seq<graphics::Result>),
    Undecodable,
}

impl View for UpdateReply {
    type V = UpdateReplyView;

    open spec fn view(&self) -> UpdateReplyView {
        match self {
            UpdateReply::Decoded(gs) => UpdateReplyView::Decoded(gs@),
            UpdateReply::Undecodable => UpdateReplyView::Undecodable,
        }
    }
}

pub open spec fn update_reply_view(r: Option<UpdateReply>) -> Option<UpdateReplyView> {
    match r {
        Some(u) => Some(u@),
        None => None,
    }
}

/// Source of events, as a value.
pub enum SourceView {
    Live(UserInfoCli),
    /// The events still to replay, and the frame size.
    Replay(Seq<EventInfo>, nat),
}

/// The orchestrator's state, as a value.
pub struct State {
    pub source: SourceView,
    pub phase: Phase,
    pub window_dim: Dim,
    /// Whether updates ask the service for all graphics.
    pub all_graphics: bool,
    /// Events buffered since the last update call: the novel part of the next view batch.
    pub view_events: Seq<EventInfoView>,
    /// The batch of the last update call: the committed prefix of the next view batch.
    pub update_events: Seq<EventInfoView>,
    /// Events recorded for the capture.
    pub dump_events: Seq<EventInfoView>,
    /// Graphics returned by update calls, recorded for the capture.
    pub dump_graphics: Seq<graphics::Result>,
    /// Captured frames taken since the last flush.
    pub frame_paths: Seq<String>,
    /// New events wait to be shown by a view call.
    pub dirty: bool,
    /// The view lane has answered its last request.
    pub ready: bool,
    /// An update call has not been answered yet.
    pub update_pending: bool,
    pub view_requests: u64,
    pub view_responses: u64,
    pub update_requests: u64,
    pub update_responses: u64,
    /// Every event buffered for the service, in order.
    pub buffered: Seq<EventInfoView>,
    /// The batch of every view call sent, in order.
    pub view_log: Seq<Seq<EventInfoView>>,
    /// The batch of every update call sent, in order.
    pub update_log: Seq<Seq<EventInfoView>>,
    pub views_answered: nat,
    pub updates_answered: nat,
}

/// Outcome of a tick: the next state and the actions to perform, or an error.
pub enum Outcome {
    Next(State, Seq<ActionView>),
    Fatal(LoopError),
}

/// The record of a window resize that is buffered for the service: a skip event that
/// carries the resize's user information and time stamps.
pub open spec fn skip_of(info: EventInfoView) -> EventInfoView {
    EventInfoView { event: EventView::Skip, ..info }
}

/// `s` with event `e` buffered for the service and recorded for the capture.
pub open spec fn buffer_event(s: State, e: EventInfoView) -> State {
    State {
        view_events: s.view_events.push(e),
        dump_events: s.dump_events.push(e),
        buffered: s.buffered.push(e),
        dirty: true,
        ..s
    }
}

/// The input part of a tick: take the input event of a live user.
pub open spec fn input_step(s: State, input: Option<EventInfo>) -> (State, Seq<ActionView>) {
    if s.phase != Phase::Running || !(s.source is Live) {
        (s, Seq::empty())
    } else {
        match input {
            None => (s, Seq::empty()),
            Some(info) => match info.event {
                Event::Quit => (State { phase: Phase::Draining, ..s }, Seq::empty()),
                Event::WindowSize(d) => {
                    let s1 = buffer_event(s, skip_of(info@));
                    (
                        State { window_dim: d, frame_paths: Seq::empty(), ..s1 },
                        seq![
                            ActionView::FlushCapture(s.window_dim, s.frame_paths),
                            ActionView::ResizeSurface(d),
                        ],
                    )
                },
                Event::Skip => (s, Seq::empty()),
                _ => (buffer_event(s, info@), Seq::empty()),
            },
        }
    }
}

/// What a view answer renders: an undecodable reply renders as an error, a blank frame.
pub open spec fn view_result(r: ViewReply) -> graphics::Result {
    match r {
        ViewReply::Decoded(x) => x,
        ViewReply::Undecodable => graphics::Result::Failed(None),
    }
}

/// The view part of a tick: render the view lane's answer, then send a view call if the
/// lane is ready and new events are buffered.
pub open spec fn view_step(s: State, reply: Option<ViewReply>) -> (State, Seq<ActionView>) {
    let (s1, a1) = match reply {
        None => (s, Seq::<ActionView>::empty()),
        Some(r) => (
            State {
                ready: true,
                view_responses: s.view_responses.saturating_add(1),
                views_answered: s.views_answered + 1,
                ..s
            },
            seq![ActionView::Render(view_result(r))],
        ),
    };
    if s1.phase == Phase::Running && s1.source is Live && s1.dirty && s1.ready {
        let batch = s1.update_events + s1.view_events;
        (
            State {
                dirty: false,
                ready: false,
                view_requests: s1.view_requests.saturating_add(1),
                view_log: s1.view_log.push(batch),
                ..s1
            },
            a1.push(ActionView::ToView(ServiceCallView::View(s1.window_dim, batch))),
        )
    } else {
        (s1, a1)
    }
}

/// The graphics request of a live update.
pub open spec fn live_request(s: State) -> Request {
    if s.all_graphics {
        Request::All(s.window_dim)
    } else {
        Request::Nothing
    }
}

/// The end of the loop: both lanes are told to stop, and the capture is written.
pub open spec fn finish(s: State) -> (State, Seq<ActionView>) {
    (
        State {
            phase: Phase::Terminated,
            dump_events: Seq::empty(),
            dump_graphics: Seq::empty(),
            frame_paths: Seq::empty(),
            ..s
        },
        seq![
            ActionView::ToUpdate(ServiceCallView::FlushQuit),
            ActionView::ToView(ServiceCallView::FlushQuit),
            ActionView::WriteCapture(s.window_dim, s.dump_events, s.dump_graphics, s.frame_paths),
        ],
    )
}

/// `s` with an update call of `batch` sent.
pub open spec fn sent_update(s: State, batch: Seq<EventInfoView>) -> State {
    State {
        update_pending: true,
        update_requests: s.update_requests.saturating_add(1),
        update_log: s.update_log.push(batch),
        ..s
    }
}

/// Once the update lane is idle: a live loop sends the events buffered since the last
/// update (the final ones once quit was requested, and stops after their answer); a
/// replay sends the next frame, and stops once the log is exhausted.
pub open spec fn next_update(s: State) -> (State, Seq<ActionView>) {
    if s.update_pending || s.phase == Phase::Terminated {
        (s, Seq::empty())
    } else {
        match s.source {
            SourceView::Live(_) => if s.phase == Phase::Flushing {
                finish(s)
            } else {
                let batch = s.view_events;
                let s1 = sent_update(s, batch);
                (
                    State {
                        update_events: batch,
                        view_events: Seq::empty(),
                        dirty: true,
                        phase: if s.phase == Phase::Draining {
                            Phase::Flushing
                        } else {
                            s.phase
                        },
                        ..s1
                    },
                    seq![
                        ActionView::ToUpdate(ServiceCallView::Update(batch, live_request(s))),
                    ],
                )
            },
            SourceView::Replay(rem, fs) => if rem.len() == 0 {
                finish(s)
            } else {
                let f = frames(rem, fs)[0];
                let batch = events_view(f);
                let s1 = sent_update(s, batch);
                (
                    State {
                        source: SourceView::Replay(rem.skip(f.len() as int), fs),
                        dump_events: s.dump_events + batch,
                        buffered: s.buffered + batch,
                        ..s1
                    },
                    seq![
                        ActionView::ToUpdate(
                            ServiceCallView::Update(batch, Request::All(s.window_dim)),
                        ),
                    ],
                )
            },
        }
    }
}

/// The update part of a tick: record the update lane's answer, then send the next update,
/// or stop.
pub open spec fn update_step(s: State, reply: Option<UpdateReplyView>) -> Outcome {
    match reply {
        Some(UpdateReplyView::Undecodable) => Outcome::Fatal(LoopError::UpdateUndecodable),
        Some(UpdateReplyView::Decoded(gs)) => {
            let s1 = State {
                dump_graphics: s.dump_graphics + gs,
                update_pending: false,
                update_responses: s.update_responses.saturating_add(1),
                updates_answered: s.updates_answered + 1,
                ..s
            };
            let (s2, a) = next_update(s1);
            Outcome::Next(s2, a)
        },
        None => {
            let (s2, a) = next_update(s);
            Outcome::Next(s2, a)
        },
    }
}

/// One tick of the loop.
pub open spec fn tick_spec(
    s: State,
    input: Option<EventInfo>,
    view_reply: Option<ViewReply>,
    update_reply: Option<UpdateReplyView>,
) -> Outcome {
    let (s1, a1) = input_step(s, input);
    let (s2, a2) = view_step(s1, view_reply);
    match update_step(s2, update_reply) {
        Outcome::Next(s3, a3) => Outcome::Next(s3, a1 + a2 + a3),
        Outcome::Fatal(e) => Outcome::Fatal(e),
    }
}

/// Whether the answers handed to a tick are possible: a lane answers only a request it
/// has not answered yet.
pub open spec fn answers_possible(
    s: State,
    view_reply: Option<ViewReply>,
    update_reply: Option<UpdateReplyView>,
) -> bool {
    &&& view_reply is Some ==> !s.ready
    &&& update_reply is Some ==> s.update_pending
}

/// A replay cuts its log into frames of at least one event.
pub open spec fn frame_size_positive(s: State) -> bool {
    s.source matches SourceView::Replay(_, fs) ==> fs > 0
}

/// The invariant of the loop's state.
pub open spec fn inv(s: State) -> bool {
    // no event is lost or repeated: the update batches, then the events still buffered,
    // are the events buffered for the service
    &&& s.update_log.flatten() + s.view_events == s.buffered
    // at most one request is unanswered per lane
    &&& s.view_log.len() == s.views_answered + if s.ready {
        0nat
    } else {
        1nat
    }
    &&& s.update_log.len() == s.updates_answered + if s.update_pending {
        1nat
    } else {
        0nat
    }
    &&& s.phase == Phase::Flushing || s.phase == Phase::Terminated ==> s.view_events.len() == 0
    &&& match s.source {
        SourceView::Live(_) => {
            &&& s.phase != Phase::Terminated ==> s.update_pending
            &&& s.update_log.len() > 0
            &&& s.update_events == s.update_log.last()
        },
        SourceView::Replay(_, fs) => {
            &&& fs > 0
            &&& s.ready
            &&& s.view_log.len() == 0
            &&& s.view_events.len() == 0
            &&& s.phase == Phase::Running || s.phase == Phase::Terminated
        },
    }
}


proof fn lemma_input_step_keeps_inv(s: State, input: Option<EventInfo>)
    requires
        inv(s),
        s.phase != Phase::Terminated,
    ensures
        inv(input_step(s, input).0),
        input_step(s, input).0.phase != Phase::Terminated,
        input_step(s, input).0.ready == s.ready,
        input_step(s, input).0.update_pending == s.update_pending,
        input_step(s, input).0.source == s.source,
{
    let s1 = input_step(s, input).0;
    if s1 != s {
        let e = s1.buffered.last();
        if s1.buffered != s.buffered {
            assert(s1.buffered == s.buffered.push(e));
            assert(s1.view_events == s.view_events.push(e));
            assert(s1.update_log.flatten() + s1.view_events =~= (s.update_log.flatten()
                + s.view_events).push(e));
        }
    }
}

proof fn lemma_view_step_keeps_inv(s: State, reply: Option<ViewReply>)
    requires
        inv(s),
        s.phase != Phase::Terminated,
        reply is Some ==> !s.ready,
    ensures
        inv(view_step(s, reply).0),
        view_step(s, reply).0.phase == s.phase,
        view_step(s, reply).0.update_pending == s.update_pending,
        view_step(s, reply).0.source == s.source,
{
}

proof fn lemma_update_step_keeps_inv(s: State, reply: Option<UpdateReplyView>)
    requires
        inv(s),
        s.phase != Phase::Terminated,
        reply is Some ==> s.update_pending,
    ensures
        update_step(s, reply) matches Outcome::Next(s2, _) ==> inv(s2),
{
    let s1 = match reply {
        Some(UpdateReplyView::Decoded(gs)) => State {
            dump_graphics: s.dump_graphics + gs,
            update_pending: false,
            update_responses: s.update_responses.saturating_add(1),
            updates_answered: s.updates_answered + 1,
            ..s
        },
        _ => s,
    };
    let s2 = next_update(s1).0;
    if !s1.update_pending {
        match s1.source {
            SourceView::Live(_) => {
                if s1.phase != Phase::Flushing {
                    s1.update_log.lemma_flatten_push(s1.view_events);
                    assert(s2.update_log.flatten() + s2.view_events =~= s1.update_log.flatten()
                        + s1.view_events);
                }
            },
            SourceView::Replay(rem, fs) => {
                if rem.len() > 0 {
                    let batch = events_view(frames(rem, fs)[0]);
                    s1.update_log.lemma_flatten_push(batch);
                    assert(s2.update_log.flatten() + s2.view_events =~= s1.update_log.flatten()
                        + s1.view_events + batch);
                }
            },
        }
    }
}

proof fn lemma_tick_keeps_inv(
    s: State,
    input: Option<EventInfo>,
    view_reply: Option<ViewReply>,
    update_reply: Option<UpdateReplyView>,
)
    requires
        inv(s),
        s.phase != Phase::Terminated,
        answers_possible(s, view_reply, update_reply),
    ensures
        tick_spec(s, input, view_reply, update_reply) matches Outcome::Next(s3, _) ==> inv(s3),
        frame_size_positive(view_step(input_step(s, input).0, view_reply).0),
        frame_size_positive(input_step(s, input).0),
{
    let s1 = input_step(s, input).0;
    lemma_input_step_keeps_inv(s, input);
    let s2 = view_step(s1, view_reply).0;
    lemma_view_step_keeps_inv(s1, view_reply);
    lemma_update_step_keeps_inv(s2, update_reply);
}

/// The state right after a live start: a skip event, which carries the user's
/// information, was sent both as the first update and as the first view.
pub open spec fn live_start(
    user: UserInfoCli,
    window_dim: Dim,
    all_graphics: bool,
    skip: EventInfoView,
) -> State {
    State {
        source: SourceView::Live(user),
        phase: Phase::Running,
        window_dim,
        all_graphics,
        view_events: Seq::empty(),
        update_events: seq![skip],
        dump_events: seq![skip],
        dump_graphics: Seq::empty(),
        frame_paths: Seq::empty(),
        dirty: false,
        ready: false,
        update_pending: true,
        view_requests: 1,
        view_responses: 0,
        update_requests: 1,
        update_responses: 0,
        buffered: seq![skip],
        view_log: seq![seq![skip]],
        update_log: seq![seq![skip]],
        views_answered: 0,
        updates_answered: 0,
    }
}

/// The state of a replay before its first tick.
pub open spec fn replay_start(log: Seq<EventInfo>, frame_size: nat, window_dim: Dim) -> State {
    State {
        source: SourceView::Replay(log, frame_size),
        phase: Phase::Running,
        window_dim,
        all_graphics: true,
        view_events: Seq::empty(),
        update_events: Seq::empty(),
        dump_events: Seq::empty(),
        dump_graphics: Seq::empty(),
        frame_paths: Seq::empty(),
        dirty: false,
        ready: true,
        update_pending: false,
        view_requests: 0,
        view_responses: 0,
        update_requests: 0,
        update_responses: 0,
        buffered: Seq::empty(),
        view_log: Seq::empty(),
        update_log: Seq::empty(),
        views_answered: 0,
        updates_answered: 0,
    }
}

/// The orchestrator: flow-control state, buffered events, and what the capture records.
pub struct Orchestrator {
    source: Source,
    phase: Phase,
    window_dim: Dim,
    all_graphics: bool,
    view_events: Vec<EventInfo>,
    update_events: Vec<EventInfo>,
    dump_events: Vec<EventInfo>,
    dump_graphics: Vec<graphics::Result>,
    frame_paths: Vec<String>,
    dirty: bool,
    ready: bool,
    update_pending: bool,
    view_requests: u64,
    view_responses: u64,
    update_requests: u64,
    update_responses: u64,
    buffered: Ghost<Seq<EventInfoView>>,
    view_log: Ghost<Seq<Seq<EventInfoView>>>,
    update_log: Ghost<Seq<Seq<EventInfoView>>>,
    views_answered: Ghost<nat>,
    updates_answered: Ghost<nat>,
}

impl View for Orchestrator {
    type V = State;

    closed spec fn view(&self) -> State {
        State {
            source: match self.source {
                Source::Live(u) => SourceView::Live(u),
                Source::Replay(d) => SourceView::Replay(d.remaining(), d.frame_size()),
            },
            phase: self.phase,
            window_dim: self.window_dim,
            all_graphics: self.all_graphics,
            view_events: events_view(self.view_events@),
            update_events: events_view(self.update_events@),
            dump_events: events_view(self.dump_events@),
            dump_graphics: self.dump_graphics@,
            frame_paths: self.frame_paths@,
            dirty: self.dirty,
            ready: self.ready,
            update_pending: self.update_pending,
            view_requests: self.view_requests,
            view_responses: self.view_responses,
            update_requests: self.update_requests,
            update_responses: self.update_responses,
            buffered: self.buffered@,
            view_log: self.view_log@,
            update_log: self.update_log@,
            views_answered: self.views_answered@,
            updates_answered: self.updates_answered@,
        }
    }
}

impl Orchestrator {
    pub open spec fn wf(&self) -> bool {
        inv(self@)
    }

    /// Starts a live session: sends a skip event, which carries the user's information and
    /// the time now, as the first update and as the first view.
    pub fn start_live(user: UserInfoCli, window_dim: Dim, all_graphics: bool) -> (r: (
        Orchestrator,
        Vec<Action>,
    ))
        ensures
            r.0.wf(),
            r.0@.buffered.len() == 1,
            r.0@ == live_start(user, window_dim, all_graphics, r.0@.buffered[0]),
            r.0@.buffered[0].event is Skip,
            r.0@.buffered[0].user_info == crate::types::user_info_of(user),
            r.0@.buffered[0].nonce is None,
            actions_view(r.1@) == seq![
                ActionView::ToUpdate(
                    ServiceCallView::Update(seq![r.0@.buffered[0]], live_request(r.0@)),
                ),
                ActionView::ToView(ServiceCallView::View(window_dim, seq![r.0@.buffered[0]])),
            ],
    {
        let skip = event_info(&user, Event::Skip);
        let ghost sv = skip@;
        let ghost one = seq![sv];
        let ghost batches = seq![seq![sv]];
        let req = if all_graphics {
            Request::All(window_dim)
        } else {
            Request::Nothing
        };
        let mut update_batch: Vec<EventInfo> = Vec::new();
        update_batch.push(skip.clone());
        let mut view_batch: Vec<EventInfo> = Vec::new();
        view_batch.push(skip.clone());
        let mut update_events: Vec<EventInfo> = Vec::new();
        update_events.push(skip.clone());
        let mut dump_events: Vec<EventInfo> = Vec::new();
        dump_events.push(skip);
        let mut acts: Vec<Action> = Vec::new();
        acts.push(Action::ToUpdate(ServiceCall::Update(update_batch, req)));
        acts.push(Action::ToView(ServiceCall::View(window_dim, view_batch)));
        let o = Orchestrator {
            source: Source::Live(user),
            phase: Phase::Running,
            window_dim,
            all_graphics,
            view_events: Vec::new(),
            update_events,
            dump_events,
            dump_graphics: Vec::new(),
            frame_paths: Vec::new(),
            dirty: false,
            ready: false,
            update_pending: true,
            view_requests: 1,
            view_responses: 0,
            update_requests: 1,
            update_responses: 0,
            buffered: Ghost(one),
            view_log: Ghost(batches),
            update_log: Ghost(batches),
            views_answered: Ghost(0nat),
            updates_answered: Ghost(0nat),
        };
        proof {
            assert(events_view(o.view_events@) =~= Seq::empty());
            assert(events_view(o.update_events@) =~= seq![sv]);
            assert(events_view(o.dump_events@) =~= seq![sv]);
            assert(o.dump_graphics@ =~= Seq::empty());
            assert(o.frame_paths@ =~= Seq::empty());
            assert(o@ =~= live_start(user, window_dim, all_graphics, sv));
            assert(seq![seq![sv]].flatten() =~= seq![sv]) by {
                seq![seq![sv]].lemma_flatten_singleton();
            }
            assert(actions_view(acts@) =~= seq![
                ActionView::ToUpdate(ServiceCallView::Update(seq![sv], live_request(o@))),
                ActionView::ToView(ServiceCallView::View(window_dim, seq![sv])),
            ]) by {
                assert(events_view(seq![acts@[0]->ToUpdate_0->Update_0][0]@) =~= seq![sv]) by {
                }
            }
        }
        (o, acts)
    }

    /// Starts a replay of `log`, cut into frames of `frame_size` events; the view lane is
    /// not used.
    pub fn start_replay(log: Vec<EventInfo>, frame_size: usize, window_dim: Dim) -> (r:
        Orchestrator)
        requires
            frame_size > 0,
        ensures
            r.wf(),
            r@ == replay_start(log@, frame_size as nat, window_dim),
    {
        let ghost l = log@;
        let o = Orchestrator {
            source: Source::Replay(ReplayDriver::new(log, frame_size)),
            phase: Phase::Running,
            window_dim,
            all_graphics: true,
            view_events: Vec::new(),
            update_events: Vec::new(),
            dump_events: Vec::new(),
            dump_graphics: Vec::new(),
            frame_paths: Vec::new(),
            dirty: false,
            ready: true,
            update_pending: false,
            view_requests: 0,
            view_responses: 0,
            update_requests: 0,
            update_responses: 0,
            buffered: Ghost(Seq::empty()),
            view_log: Ghost(Seq::empty()),
            update_log: Ghost(Seq::empty()),
            views_answered: Ghost(0nat),
            updates_answered: Ghost(0nat),
        };
        proof {
            assert(events_view(o.view_events@) =~= Seq::empty());
            assert(events_view(o.update_events@) =~= Seq::empty());
            assert(events_view(o.dump_events@) =~= Seq::empty());
            assert(o.dump_graphics@ =~= Seq::empty());
            assert(o.frame_paths@ =~= Seq::empty());
            assert(o@ =~= replay_start(l, frame_size as nat, window_dim));
            assert(Seq::<Seq<EventInfoView>>::empty().flatten() =~= Seq::empty());
        }
        o
    }

    pub fn phase(&self) -> (r: Phase)
        ensures
            r == self@.phase,
    {
        self.phase
    }

    pub fn window_dim(&self) -> (r: Dim)
        ensures
            r == self@.window_dim,
    {
        self.window_dim
    }

    /// Whether events come from a live user.
    pub fn is_live(&self) -> (r: bool)
        ensures
            r == self@.source is Live,
    {
        match &self.source {
            Source::Live(_) => true,
            Source::Replay(_) => false,
        }
    }

    pub fn view_requests(&self) -> (r: u64)
        ensures
            r == self@.view_requests,
    {
        self.view_requests
    }

    pub fn view_responses(&self) -> (r: u64)
        ensures
            r == self@.view_responses,
    {
        self.view_responses
    }

    pub fn update_requests(&self) -> (r: u64)
        ensures
            r == self@.update_requests,
    {
        self.update_requests
    }

    pub fn update_responses(&self) -> (r: u64)
        ensures
            r == self@.update_responses,
    {
        self.update_responses
    }

    /// Records a captured frame, written at `path`, for the next capture flush.
    pub fn record_frame(&mut self, path: String)
        requires
            old(self).wf(),
        ensures
            final(self).wf(),
            final(self)@ == (State { frame_paths: old(self)@.frame_paths.push(path), ..old(self)@ }),
    {
        self.frame_paths.push(path);
    }

    /// Buffers event `e` for the service and records it for the capture.
    fn buffer(&mut self, e: EventInfo)
        ensures
            final(self)@ == buffer_event(old(self)@, e@),
    {
        let c = e.clone();
        proof {
            crate::event::lemma_events_view_push(self.view_events@, e);
            crate::event::lemma_events_view_push(self.dump_events@, c);
        }
        self.view_events.push(e);
        self.dump_events.push(c);
        self.buffered = Ghost(self.buffered@.push(c@));
        self.dirty = true;
    }

    fn on_input(&mut self, input: Option<EventInfo>, acts: &mut Vec<Action>)
        ensures
            final(self)@ == input_step(old(self)@, input).0,
            actions_view(final(acts)@) == actions_view(old(acts)@) + input_step(
                old(self)@,
                input,
            ).1,
    {
        let ghost a0 = acts@;
        assert(actions_view(a0) + Seq::empty() =~= actions_view(a0));
        if self.phase != Phase::Running || !self.is_live() {
            return ;
        }
        if let Some(info) = input {
            let kind: u8 = match &info.event {
                Event::Quit => 0,
                Event::WindowSize(_) => 1,
                Event::Skip => 2,
                _ => 3,
            };
            if kind == 0 {
                self.phase = Phase::Draining;
            } else if kind == 1 {
                let d = match &info.event {
                    Event::WindowSize(d) => *d,
                    _ => self.window_dim,
                };
                let ghost iv = info@;
                let skip = EventInfo {
                    user_info: info.user_info,
                    nonce: info.nonce,
                    date_time_utc: info.date_time_utc,
                    date_time_local: info.date_time_local,
                    event: Event::Skip,
                };
                assert(skip@ == skip_of(iv));
                let old_dim = self.window_dim;
                let paths = self.frame_paths.split_off(0);
                self.buffer(skip);
                self.window_dim = d;
                acts.push(Action::FlushCapture(old_dim, paths));
                acts.push(Action::ResizeSurface(d));
                proof {
                    assert(self.frame_paths@ =~= Seq::empty());
                    assert(paths@ =~= old(self)@.frame_paths);
                    assert(acts@ =~= a0.push(acts@[a0.len() as int]).push(acts@[a0.len() + 1int]));
                    assert(acts@[a0.len() as int]@ == ActionView::FlushCapture(
                        old(self)@.window_dim,
                        old(self)@.frame_paths,
                    ));
                    assert(actions_view(acts@) =~= actions_view(a0) + input_step(
                        old(self)@,
                        input,
                    ).1);
                }
            } else if kind == 3 {
                self.buffer(info);
            }
        }
    }

    fn attend_view(&mut self, reply: Option<ViewReply>, acts: &mut Vec<Action>)
        ensures
            final(self)@ == view_step(old(self)@, reply).0,
            actions_view(final(acts)@) == actions_view(old(acts)@) + view_step(
                old(self)@,
                reply,
            ).1,
    {
        let ghost a0 = acts@;
        let ghost s0 = self@;
        match reply {
            None => {},
            Some(r) => {
                let res = match r {
                    ViewReply::Decoded(x) => x,
                    ViewReply::Undecodable => graphics::Result::Failed(None),
                };
                acts.push(Action::Render(res));
                self.ready = true;
                self.view_responses = self.view_responses.saturating_add(1);
                self.views_answered = Ghost(self.views_answered@ + 1);
            },
        }
        if self.phase == Phase::Running && self.is_live() && self.dirty && self.ready {
            let mut batch = clone_events(&self.update_events);
            let mut novel = clone_events(&self.view_events);
            proof {
                crate::event::lemma_events_view_concat(batch@, novel@);
            }
            batch.append(&mut novel);
            self.view_log = Ghost(self.view_log@.push(events_view(batch@)));
            self.dirty = false;
            self.ready = false;
            self.view_requests = self.view_requests.saturating_add(1);
            acts.push(Action::ToView(ServiceCall::View(self.window_dim, batch)));
        }
        proof {
            assert(actions_view(acts@) =~= actions_view(a0) + view_step(s0, reply).1);
        }
    }

    fn finish(&mut self, acts: &mut Vec<Action>)
        ensures
            final(self)@ == finish(old(self)@).0,
            actions_view(final(acts)@) == actions_view(old(acts)@) + finish(old(self)@).1,
    {
        let ghost a0 = acts@;
        let ghost s0 = self@;
        let evs = self.dump_events.split_off(0);
        let gs = self.dump_graphics.split_off(0);
        let paths = self.frame_paths.split_off(0);
        acts.push(Action::ToUpdate(ServiceCall::FlushQuit));
        acts.push(Action::ToView(ServiceCall::FlushQuit));
        acts.push(Action::WriteCapture(self.window_dim, evs, gs, paths));
        self.phase = Phase::Terminated;
        proof {
            assert(evs@ =~= old(self).dump_events@);
            assert(gs@ =~= s0.dump_graphics);
            assert(paths@ =~= s0.frame_paths);
            assert(events_view(self.dump_events@) =~= Seq::empty());
            assert(self.dump_graphics@ =~= Seq::empty());
            assert(self.frame_paths@ =~= Seq::empty());
            assert(self@ =~= finish(s0).0);
            assert(actions_view(acts@) =~= actions_view(a0) + finish(s0).1);
        }
    }

    fn send_next_update(&mut self, acts: &mut Vec<Action>)
        requires
            frame_size_positive(old(self)@),
        ensures
            final(self)@ == next_update(old(self)@).0,
            actions_view(final(acts)@) == actions_view(old(acts)@) + next_update(old(self)@).1,
    {
        let ghost a0 = acts@;
        let ghost s0 = self@;
        assert(actions_view(a0) + Seq::empty() =~= actions_view(a0));
        if self.update_pending || self.phase == Phase::Terminated {
            return ;
        }
        if self.is_live() {
            if self.phase == Phase::Flushing {
                self.finish(acts);
            } else {
                let batch = self.view_events.split_off(0);
                let req = if self.all_graphics {
                    Request::All(self.window_dim)
                } else {
                    Request::Nothing
                };
                self.update_events = clone_events(&batch);
                self.update_log = Ghost(self.update_log@.push(events_view(batch@)));
                self.update_pending = true;
                self.update_requests = self.update_requests.saturating_add(1);
                self.dirty = true;
                if self.phase == Phase::Draining {
                    self.phase = Phase::Flushing;
                }
                acts.push(Action::ToUpdate(ServiceCall::Update(batch, req)));
                proof {
                    assert(batch@ =~= old(self).view_events@);
                    assert(events_view(self.view_events@) =~= Seq::empty());
                    assert(self@ =~= next_update(s0).0);
                    assert(actions_view(acts@) =~= actions_view(a0) + next_update(s0).1);
                }
            }
        } else {
            let ghost rem = match s0.source {
                SourceView::Replay(r, _) => r,
                SourceView::Live(_) => Seq::empty(),
            };
            let frame = match &mut self.source {
                Source::Replay(driver) => driver.next_frame(),
                Source::Live(_) => None,
            };
            match frame {
                None => {
                    self.finish(acts);
                },
                Some(f) => {
                    proof {
                        let fs = s0.source->Replay_1;
                        assert(frames(rem, fs) == seq![f@] + frames(self@.source->Replay_0, fs));
                        assert(frames(rem, fs)[0] == f@);
                        assert(self@.source->Replay_0 =~= rem.skip(f@.len() as int));
                    }
                    let mut c = clone_events(&f);
                    proof {
                        crate::event::lemma_events_view_concat(self.dump_events@, c@);
                    }
                    self.dump_events.append(&mut c);
                    self.buffered = Ghost(self.buffered@ + events_view(f@));
                    self.update_log = Ghost(self.update_log@.push(events_view(f@)));
                    self.update_pending = true;
                    self.update_requests = self.update_requests.saturating_add(1);
                    acts.push(Action::ToUpdate(ServiceCall::Update(f, Request::All(self.window_dim))));
                    proof {
                        assert(self@ =~= next_update(s0).0);
                        assert(actions_view(acts@) =~= actions_view(a0) + next_update(s0).1);
                    }
                },
            }
        }
    }

    fn attend_update(&mut self, reply: Option<UpdateReply>, acts: &mut Vec<Action>) -> (r:
        Result<(), LoopError>)
        requires
            frame_size_positive(old(self)@),
        ensures
            match update_step(old(self)@, update_reply_view(reply)) {
                Outcome::Next(s, a) => {
                    &&& r is Ok
                    &&& final(self)@ == s
                    &&& actions_view(final(acts)@) == actions_view(old(acts)@) + a
                },
                Outcome::Fatal(e) => r == Err::<(), LoopError>(e),
            },
    {
        let ghost s0 = self@;
        match reply {
            Some(UpdateReply::Undecodable) => {
                return Err(LoopError::UpdateUndecodable);
            },
            Some(UpdateReply::Decoded(mut gs)) => {
                let ghost g = gs@;
                self.dump_graphics.append(&mut gs);
                self.update_pending = false;
                self.update_responses = self.update_responses.saturating_add(1);
                self.updates_answered = Ghost(self.updates_answered@ + 1);
                assert(self@ =~= (State {
                    dump_graphics: s0.dump_graphics + g,
                    update_pending: false,
                    update_responses: s0.update_responses.saturating_add(1),
                    updates_answered: s0.updates_answered + 1,
                    ..s0
                }));
            },
            None => {},
        }
        self.send_next_update(acts);
        Ok(())
    }

    /// One tick of the loop: takes the input event (ignored in a replay), then the view
    /// lane's answer, then the update lane's answer, each if there is one, and returns the
    /// actions to perform, in order.
    pub fn tick(
        &mut self,
        input: Option<EventInfo>,
        view_reply: Option<ViewReply>,
        update_reply: Option<UpdateReply>,
    ) -> (r: Result<Vec<Action>, LoopError>)
        requires
            old(self).wf(),
            old(self)@.phase != Phase::Terminated,
            answers_possible(old(self)@, view_reply, update_reply_view(update_reply)),
        ensures
            match tick_spec(old(self)@, input, view_reply, update_reply_view(update_reply)) {
                Outcome::Next(s, a) => {
                    &&& r matches Ok(acts)
                    &&& final(self)@ == s
                    &&& actions_view(acts@) == a
                    &&& final(self).wf()
                },
                Outcome::Fatal(e) => r == Err::<Vec<Action>, LoopError>(e),
            },
    {
        let ghost s0 = self@;
        let ghost ur = update_reply_view(update_reply);
        proof {
            lemma_tick_keeps_inv(s0, input, view_reply, ur);
        }
        let mut acts: Vec<Action> = Vec::new();
        assert(actions_view(acts@) =~= Seq::empty());
        self.on_input(input, &mut acts);
        self.attend_view(view_reply, &mut acts);
        match self.attend_update(update_reply, &mut acts) {
            Ok(()) => {},
            Err(e) => {
                return Err(e);
            },
        }
        proof {
            let (s1, a1) = input_step(s0, input);
            let (s2, a2) = view_step(s1, view_reply);
            assert(Seq::<ActionView>::empty() + a1 =~= a1);
        }
        Ok(acts)
    }
}


/// At any instant at most one request is unanswered per lane. Every tick keeps the
/// loop's invariant, under which the view calls sent number at most one more than the
/// view answers received, and likewise for update calls.
pub proof fn lemma_single_flight(
    s: State,
    input: Option<EventInfo>,
    view_reply: Option<ViewReply>,
    update_reply: Option<UpdateReplyView>,
)
    requires
        inv(s),
        s.phase != Phase::Terminated,
        answers_possible(s, view_reply, update_reply),
    ensures
        s.view_log.len() <= s.views_answered + 1,
        s.update_log.len() <= s.updates_answered + 1,
        tick_spec(s, input, view_reply, update_reply) matches Outcome::Next(s2, _) ==> {
            &&& inv(s2)
            &&& s2.view_log.len() <= s2.views_answered + 1
            &&& s2.update_log.len() <= s2.updates_answered + 1
        },
{
    lemma_tick_keeps_inv(s, input, view_reply, update_reply);
}

/// No event is lost on quit. Once quit is requested nothing more is buffered, and the tick
/// that tells the update lane to stop ends the loop with every buffered event sent, in
/// order, in exactly one update batch.
pub proof fn lemma_no_event_lost(
    s: State,
    input: Option<EventInfo>,
    view_reply: Option<ViewReply>,
    update_reply: Option<UpdateReplyView>,
)
    requires
        inv(s),
        s.phase != Phase::Terminated,
        answers_possible(s, view_reply, update_reply),
    ensures
        tick_spec(s, input, view_reply, update_reply) matches Outcome::Next(s2, acts) ==> {
            &&& (s.phase != Phase::Running && s.source is Live) ==> s2.buffered == s.buffered
            &&& acts.contains(ActionView::ToUpdate(ServiceCallView::FlushQuit)) ==> {
                &&& s2.phase == Phase::Terminated
                &&& s2.update_log.flatten() == s2.buffered
            }
        },
{
    lemma_tick_keeps_inv(s, input, view_reply, update_reply);
    let (s1, a1) = input_step(s, input);
    let (s2, a2) = view_step(s1, view_reply);
    if let Outcome::Next(s3, a3) = update_step(s2, update_reply) {
        let acts = a1 + a2 + a3;
        let fq = ActionView::ToUpdate(ServiceCallView::FlushQuit);
        if acts.contains(fq) {
            let i = choose|i: int| 0 <= i < acts.len() && acts[i] == fq;
            assert(!a1.contains(fq)) by {
                if a1.len() > 0 {
                    assert(a1[0] != fq && a1[1] != fq);
                }
            }
            assert(!a2.contains(fq)) by {
                assert forall|j: int| 0 <= j < a2.len() implies a2[j] != fq by {}
            }
            if i < a1.len() {
                assert(a1[i] == fq);
            } else if i < a1.len() + a2.len() {
                assert(a2[i - a1.len()] == fq);
            } else {
                assert(a3[i - a1.len() - a2.len()] == fq);
                assert(s3.phase == Phase::Terminated);
                assert(s3.update_log.flatten() + s3.view_events == s3.buffered);
                assert(s3.update_log.flatten() =~= s3.update_log.flatten() + s3.view_events);
            }
        }
    }
}

/// Whether event record `info` is one that a live loop buffers for the service as it is:
/// a key press, a clipboard text or a mouse press.
pub open spec fn is_buffered_input(info: EventInfo) -> bool {
    info.event is KeyDown || info.event is ClipBoard || info.event is MouseDown
}

/// One-batch lag, for one tick: when a running live loop buffers an input event and both
/// lanes answer, the view call shows the last update batch followed by the novel events,
/// and the update call of the same tick carries exactly those novel events, which become
/// the committed prefix of the next view call. Both lanes are then busy again.
pub proof fn lemma_one_batch_lag(
    s: State,
    info: EventInfo,
    rendered: graphics::Result,
    graphics: Seq<graphics::Result>,
)
    requires
        inv(s),
        s.source is Live,
        s.phase == Phase::Running,
        !s.ready,
        s.update_pending,
        is_buffered_input(info),
    ensures
        ({
            let novel = s.view_events.push(info@);
            tick_spec(
                s,
                Some(info),
                Some(ViewReply::Decoded(rendered)),
                Some(UpdateReplyView::Decoded(graphics)),
            ) matches Outcome::Next(s2, acts) && {
                &&& acts == seq![
                    ActionView::Render(rendered),
                    ActionView::ToView(
                        ServiceCallView::View(s.window_dim, s.update_events + novel),
                    ),
                    ActionView::ToUpdate(ServiceCallView::Update(novel, live_request(s))),
                ]
                &&& s2.view_log == s.view_log.push(s.update_events + novel)
                &&& s2.update_log == s.update_log.push(novel)
                &&& s2.update_events == novel
                &&& s2.view_events.len() == 0
                &&& s2.source == s.source
                &&& s2.phase == Phase::Running
                &&& !s2.ready
                &&& s2.update_pending
                &&& s2.window_dim == s.window_dim
                &&& s2.all_graphics == s.all_graphics
                &&& inv(s2)
            }
        }),
{
    let vr = Some(ViewReply::Decoded(rendered));
    let ur = Some(UpdateReplyView::Decoded(graphics));
    lemma_tick_keeps_inv(s, Some(info), vr, ur);
    let (s1, a1) = input_step(s, Some(info));
    assert(s1 == buffer_event(s, info@));
    assert(a1 =~= Seq::<ActionView>::empty());
    let (s2, a2) = view_step(s1, vr);
    if let Outcome::Next(s3, a3) = update_step(s2, ur) {
        assert(a1 + a2 + a3 =~= seq![
            ActionView::Render(rendered),
            ActionView::ToView(
                ServiceCallView::View(s.window_dim, s.update_events + s.view_events.push(info@)),
            ),
            ActionView::ToUpdate(
                ServiceCallView::Update(s.view_events.push(info@), live_request(s)),
            ),
        ]);
    }
}

/// The state after ticks in lockstep: at each, the next input event arrives and both lanes
/// answer, the view lane with the next of `rendered`, the update lane with the next of
/// `graphics`.
pub open spec fn lockstep(
    s: State,
    infos: Seq<EventInfo>,
    rendered: Seq<graphics::Result>,
    graphics: Seq<Seq<graphics::Result>>,
) -> State
    decreases infos.len(),
{
    if infos.len() == 0 || rendered.len() == 0 || graphics.len() == 0 {
        s
    } else {
        match tick_spec(
            s,
            Some(infos[0]),
            Some(ViewReply::Decoded(rendered[0])),
            Some(UpdateReplyView::Decoded(graphics[0])),
        ) {
            Outcome::Next(s2, _) => lockstep(
                s2,
                infos.drop_first(),
                rendered.drop_first(),
                graphics.drop_first(),
            ),
            Outcome::Fatal(_) => s,
        }
    }
}

/// One-batch lag: over any run of input events to buffer, with both lanes answering at
/// every tick, the k-th update batch is the k-th event alone (the first also carries what
/// was buffered before), and the k-th view batch is the update batch before it followed by
/// the k-th update batch: each update carries exactly the novel events that the view of
/// its cycle already showed.
pub proof fn lemma_one_batch_lag_run(
    s: State,
    infos: Seq<EventInfo>,
    rendered: Seq<graphics::Result>,
    graphics: Seq<Seq<graphics::Result>>,
)
    requires
        inv(s),
        s.source is Live,
        s.phase == Phase::Running,
        !s.ready,
        s.update_pending,
        rendered.len() == infos.len(),
        graphics.len() == infos.len(),
        forall|k: int| 0 <= k < infos.len() ==> is_buffered_input(#[trigger] infos[k]),
    ensures
        ({
            let t = lockstep(s, infos, rendered, graphics);
            let u = s.update_log.len() as int;
            let v = s.view_log.len() as int;
            &&& t.update_log.len() == u + infos.len()
            &&& t.view_log.len() == v + infos.len()
            &&& t.update_log.subrange(0, u) == s.update_log
            &&& t.view_log.subrange(0, v) == s.view_log
            &&& forall|k: int|
                0 <= k < infos.len() ==> #[trigger] t.update_log[u + k] == (if k == 0 {
                    s.view_events
                } else {
                    Seq::empty()
                }).push(infos[k]@)
            &&& forall|k: int|
                0 <= k < infos.len() ==> #[trigger] t.view_log[v + k] == t.update_log[u + k - 1]
                    + t.update_log[u + k]
        }),
    decreases infos.len(),
{
    let t = lockstep(s, infos, rendered, graphics);
    let u = s.update_log.len() as int;
    let v = s.view_log.len() as int;
    if infos.len() == 0 {
        assert(t.update_log.subrange(0, u) =~= s.update_log);
        assert(t.view_log.subrange(0, v) =~= s.view_log);
    } else {
        lemma_one_batch_lag(s, infos[0], rendered[0], graphics[0]);
        let s2 = match tick_spec(
            s,
            Some(infos[0]),
            Some(ViewReply::Decoded(rendered[0])),
            Some(UpdateReplyView::Decoded(graphics[0])),
        ) {
            Outcome::Next(s2, _) => s2,
            Outcome::Fatal(_) => s,
        };
        let infos2 = infos.drop_first();
        assert forall|k: int| 0 <= k < infos2.len() implies is_buffered_input(
            #[trigger] infos2[k],
        ) by {
            assert(infos2[k] == infos[k + 1]);
        }
        lemma_one_batch_lag_run(s2, infos2, rendered.drop_first(), graphics.drop_first());
        assert(t == lockstep(s2, infos2, rendered.drop_first(), graphics.drop_first()));
        assert(s2.update_events == s2.update_log.last());
        assert(s.update_events == s.update_log.last());
        assert(t.update_log.subrange(0, u + 1) == s2.update_log);
        assert(t.view_log.subrange(0, v + 1) == s2.view_log);
        assert(t.update_log[u] == s2.update_log[u]);
        assert(t.update_log.subrange(0, u) =~= s.update_log) by {
            assert(t.update_log.subrange(0, u) =~= t.update_log.subrange(0, u + 1).subrange(0, u));
        }
        assert(t.view_log.subrange(0, v) =~= s.view_log) by {
            assert(t.view_log.subrange(0, v) =~= t.view_log.subrange(0, v + 1).subrange(0, v));
        }
        assert forall|k: int| 0 <= k < infos.len() implies #[trigger] t.update_log[u + k] == (if k
            == 0 {
            s.view_events
        } else {
            Seq::empty()
        }).push(infos[k]@) by {
            if k > 0 {
                assert(t.update_log[(u + 1) + (k - 1)] == (if k - 1 == 0 {
                    s2.view_events
                } else {
                    Seq::empty()
                }).push(infos2[k - 1]@));
                assert(s2.view_events =~= Seq::empty());
            }
        }
        assert forall|k: int| 0 <= k < infos.len() implies #[trigger] t.view_log[v + k]
            == t.update_log[u + k - 1] + t.update_log[u + k] by {
            if k > 0 {
                assert(t.view_log[(v + 1) + (k - 1)] == t.update_log[(u + 1) + (k - 1) - 1]
                    + t.update_log[(u + 1) + (k - 1)]);
            } else {
                assert(t.view_log[v] == s2.view_log[v]);
                assert(t.update_log[u - 1] == s.update_log[u - 1]) by {
                    assert(t.update_log.subrange(0, u)[u - 1] == t.update_log[u - 1]);
                }
            }
        }
    }
}

/// The batches that replaying `log` with frame size `fs` sends, as values.
pub open spec fn frame_batches(log: Seq<EventInfo>, fs: nat) -> Seq<Seq<EventInfoView>> {
    frames(log, fs).map_values(|f: Seq<EventInfo>| events_view(f))
}

/// Whether the update batches of replay state `s` are the first frames of `log`, and the
/// events it still has to replay make up the rest of them.
pub open spec fn replays(s: State, log: Seq<EventInfo>) -> bool {
    s.source matches SourceView::Replay(rem, fs) && s.update_log + frame_batches(rem, fs)
        == frame_batches(log, fs)
}

proof fn lemma_frames_first(rem: Seq<EventInfo>, fs: nat)
    requires
        fs > 0,
        rem.len() > 0,
    ensures
        frames(rem, fs) == seq![frames(rem, fs)[0]] + frames(
            rem.skip(frames(rem, fs)[0].len() as int),
            fs,
        ),
{
    if rem.len() <= fs {
        assert(rem.skip(rem.len() as int) =~= Seq::<EventInfo>::empty());
        assert(frames(rem, fs) =~= seq![frames(rem, fs)[0]] + Seq::<Seq<EventInfo>>::empty());
    }
}

/// A replay starts with no batch sent and the whole log to replay.
pub proof fn lemma_replay_start(log: Seq<EventInfo>, fs: nat, window_dim: Dim)
    requires
        fs > 0,
    ensures
        inv(replay_start(log, fs, window_dim)),
        replays(replay_start(log, fs, window_dim), log),
{
    assert(Seq::<Seq<EventInfoView>>::empty().flatten() =~= Seq::empty());
    assert(Seq::<Seq<EventInfoView>>::empty() + frame_batches(log, fs) =~= frame_batches(log, fs));
}

/// Replay determinism: every tick of a replay keeps its update batches the first frames of
/// the log, so a replay sends the frames of the log in order, and two replays of one log
/// with one frame size send the same batches, whatever their timing.
pub proof fn lemma_replay_deterministic(
    s: State,
    log: Seq<EventInfo>,
    input: Option<EventInfo>,
    view_reply: Option<ViewReply>,
    update_reply: Option<UpdateReplyView>,
)
    requires
        inv(s),
        replays(s, log),
        s.phase != Phase::Terminated,
        answers_possible(s, view_reply, update_reply),
    ensures
        tick_spec(s, input, view_reply, update_reply) matches Outcome::Next(s2, _) ==> replays(
            s2,
            log,
        ),
{
    lemma_tick_keeps_inv(s, input, view_reply, update_reply);
    let (s1, a1) = input_step(s, input);
    let (s2, a2) = view_step(s1, view_reply);
    assert(s2.source == s.source && s2.update_log == s.update_log);
    let s3 = match update_reply {
        Some(UpdateReplyView::Decoded(gs)) => State {
            dump_graphics: s2.dump_graphics + gs,
            update_pending: false,
            update_responses: s2.update_responses.saturating_add(1),
            updates_answered: s2.updates_answered + 1,
            ..s2
        },
        _ => s2,
    };
    if let SourceView::Replay(rem, fs) = s3.source {
        if !s3.update_pending && rem.len() > 0 {
            lemma_frames_first(rem, fs);
            let f = frames(rem, fs)[0];
            let rest = rem.skip(f.len() as int);
            assert(frame_batches(rem, fs) =~= seq![events_view(f)] + frame_batches(rest, fs));
            assert(s3.update_log.push(events_view(f)) + frame_batches(rest, fs) =~= s3.update_log
                + frame_batches(rem, fs));
        }
    }
}

} // verus!
