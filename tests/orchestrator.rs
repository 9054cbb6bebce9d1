use icmt::event::{Event, EventInfo, KeyEventInfo, UserInfo};
use icmt::graphics::{Dim, Elm, Fill, Out, Pos, Rect, Request, Result};
use icmt::orchestrator::{Action, LoopError, Orchestrator, Phase, UpdateReply, ViewReply};
use icmt::types::ServiceCall;

fn user() -> (String, (u64, u64, u64)) {
    ("ann".to_string(), (1, 2, 3))
}

fn ev(stamp: &str, event: Event) -> EventInfo {
    EventInfo {
        user_info: UserInfo { user_name: "ann".to_string(), text_color: ((1, 2, 3), (0, 0, 0)) },
        nonce: None,
        date_time_utc: format!("utc-{}", stamp),
        date_time_local: format!("local-{}", stamp),
        event,
    }
}

fn key(k: &str) -> EventInfo {
    ev(k, Event::KeyDown(vec![KeyEventInfo {
        key: k.to_string(),
        alt: false,
        ctrl: false,
        meta: false,
        shift: false,
    }]))
}

fn skip_of(e: &EventInfo) -> EventInfo {
    EventInfo { event: Event::Skip, ..e.clone() }
}

fn picture() -> Result {
    Result::Drawn(Out::Draw(Elm::Rect(Rect::new(1, 1, 2, 2), Fill::Closed((7, 7, 7)))))
}

fn dim(w: u64, h: u64) -> Dim {
    Dim { width: w, height: h }
}

fn started() -> (Orchestrator, EventInfo) {
    let (o, acts) = Orchestrator::start_live(user(), dim(500, 400), false);
    let skip = match &acts[0] {
        Action::ToUpdate(ServiceCall::Update(batch, Request::Nothing)) => batch[0].clone(),
        other => panic!("unexpected {:?}", other),
    };
    (o, skip)
}

#[test]
fn live_start_sends_skip_to_both_lanes() {
    let (o, acts) = Orchestrator::start_live(user(), dim(500, 400), true);
    assert_eq!(acts.len(), 2);
    let skip = match &acts[0] {
        Action::ToUpdate(ServiceCall::Update(batch, Request::All(d))) => {
            assert_eq!(*d, dim(500, 400));
            assert_eq!(batch.len(), 1);
            batch[0].clone()
        }
        other => panic!("unexpected {:?}", other),
    };
    assert_eq!(skip.event, Event::Skip);
    assert_eq!(skip.user_info.user_name, "ann");
    assert_eq!(skip.user_info.text_color, ((1, 2, 3), (0, 0, 0)));
    assert_eq!(acts[1], Action::ToView(ServiceCall::View(dim(500, 400), vec![skip])));
    assert_eq!(o.phase(), Phase::Running);
    assert!(o.is_live());
    assert_eq!(o.view_requests(), 1);
    assert_eq!(o.update_requests(), 1);
}

#[test]
fn quit_scenario_flushes_then_terminates() {
    let (mut o, skip) = started();
    let (a, b, c) = (key("a"), key("b"), key("c"));
    assert_eq!(o.tick(Some(a.clone()), None, None), Ok(vec![]));
    assert_eq!(o.tick(Some(b.clone()), None, None), Ok(vec![]));
    assert_eq!(o.tick(Some(c.clone()), None, None), Ok(vec![]));
    // the first update is answered: the three keys go in the next update
    let acts = o.tick(None, None, Some(UpdateReply::Decoded(vec![]))).unwrap();
    assert_eq!(
        acts,
        vec![Action::ToUpdate(ServiceCall::Update(
            vec![a.clone(), b.clone(), c.clone()],
            Request::Nothing
        ))]
    );
    // the view lane answers: the keys are shown as the committed prefix
    let acts = o.tick(None, Some(ViewReply::Decoded(picture())), None).unwrap();
    assert_eq!(
        acts,
        vec![
            Action::Render(picture()),
            Action::ToView(ServiceCall::View(dim(500, 400), vec![a.clone(), b.clone(), c.clone()])),
        ]
    );
    o.record_frame("frame-1.bmp".to_string());
    // resize: flush the frames of the old size, then resize the surface
    let resize = ev("resize", Event::WindowSize(dim(300, 200)));
    let acts = o.tick(Some(resize.clone()), None, None).unwrap();
    assert_eq!(
        acts,
        vec![
            Action::FlushCapture(dim(500, 400), vec!["frame-1.bmp".to_string()]),
            Action::ResizeSurface(dim(300, 200)),
        ]
    );
    assert_eq!(o.window_dim(), dim(300, 200));
    // quit while the update of [a, b, c] is acknowledged: the final update is sent
    let quit = ev("quit", Event::Quit);
    let acts = o.tick(Some(quit), None, Some(UpdateReply::Decoded(vec![]))).unwrap();
    assert_eq!(
        acts,
        vec![Action::ToUpdate(ServiceCall::Update(vec![skip_of(&resize)], Request::Nothing))]
    );
    assert_eq!(o.phase(), Phase::Flushing);
    // events after quit are not taken
    assert_eq!(o.tick(Some(key("z")), None, None), Ok(vec![]));
    // the final update is answered: both lanes stop and the capture is written
    let acts = o.tick(None, None, Some(UpdateReply::Decoded(vec![picture()]))).unwrap();
    assert_eq!(
        acts,
        vec![
            Action::ToUpdate(ServiceCall::FlushQuit),
            Action::ToView(ServiceCall::FlushQuit),
            Action::WriteCapture(
                dim(300, 200),
                vec![skip, a, b, c, skip_of(&resize)],
                vec![picture()],
                vec![]
            ),
        ]
    );
    assert_eq!(o.phase(), Phase::Terminated);
}

#[test]
fn each_update_carries_what_the_view_just_showed() {
    let (mut o, skip) = started();
    let (a, b, c) = (key("a"), key("b"), key("c"));
    let acts = o
        .tick(Some(a.clone()), Some(ViewReply::Decoded(picture())), Some(UpdateReply::Decoded(vec![])))
        .unwrap();
    assert_eq!(
        acts,
        vec![
            Action::Render(picture()),
            Action::ToView(ServiceCall::View(dim(500, 400), vec![skip, a.clone()])),
            Action::ToUpdate(ServiceCall::Update(vec![a.clone()], Request::Nothing)),
        ]
    );
    let acts = o
        .tick(Some(b.clone()), Some(ViewReply::Decoded(picture())), Some(UpdateReply::Decoded(vec![])))
        .unwrap();
    assert_eq!(
        acts,
        vec![
            Action::Render(picture()),
            Action::ToView(ServiceCall::View(dim(500, 400), vec![a, b.clone()])),
            Action::ToUpdate(ServiceCall::Update(vec![b.clone()], Request::Nothing)),
        ]
    );
    let acts = o
        .tick(Some(c.clone()), Some(ViewReply::Decoded(picture())), Some(UpdateReply::Decoded(vec![])))
        .unwrap();
    assert_eq!(
        acts,
        vec![
            Action::Render(picture()),
            Action::ToView(ServiceCall::View(dim(500, 400), vec![b, c.clone()])),
            Action::ToUpdate(ServiceCall::Update(vec![c], Request::Nothing)),
        ]
    );
}

#[test]
fn view_is_not_resent_before_its_answer() {
    let (mut o, skip) = started();
    let (a, b) = (key("a"), key("b"));
    assert_eq!(o.tick(Some(a.clone()), None, None), Ok(vec![]));
    assert_eq!(o.tick(Some(b.clone()), None, None), Ok(vec![]));
    assert_eq!(o.view_requests(), 1);
    let acts = o.tick(None, Some(ViewReply::Decoded(picture())), None).unwrap();
    assert_eq!(
        acts,
        vec![
            Action::Render(picture()),
            Action::ToView(ServiceCall::View(dim(500, 400), vec![skip, a, b])),
        ]
    );
    assert_eq!(o.view_requests(), 2);
    assert_eq!(o.view_responses(), 1);
}

#[test]
fn mouse_and_clipboard_events_are_buffered() {
    let (mut o, _skip) = started();
    let m = ev("m", Event::MouseDown(Pos { x: 3, y: 4 }));
    let t = ev("t", Event::ClipBoard("text".to_string()));
    let s = ev("s", Event::Skip);
    assert_eq!(o.tick(Some(m.clone()), None, None), Ok(vec![]));
    assert_eq!(o.tick(Some(s), None, None), Ok(vec![]));
    assert_eq!(o.tick(Some(t.clone()), None, None), Ok(vec![]));
    let acts = o.tick(None, None, Some(UpdateReply::Decoded(vec![]))).unwrap();
    assert_eq!(acts, vec![Action::ToUpdate(ServiceCall::Update(vec![m, t], Request::Nothing))]);
    assert_eq!(o.update_requests(), 2);
    assert_eq!(o.update_responses(), 1);
}

#[test]
fn undecodable_view_renders_blank_frame() {
    let (mut o, _skip) = started();
    let acts = o.tick(None, Some(ViewReply::Undecodable), None).unwrap();
    assert_eq!(acts, vec![Action::Render(Result::Failed(None))]);
    assert_eq!(o.phase(), Phase::Running);
}

#[test]
fn undecodable_update_is_fatal() {
    let (mut o, _skip) = started();
    assert_eq!(
        o.tick(None, None, Some(UpdateReply::Undecodable)),
        Err(LoopError::UpdateUndecodable)
    );
}

fn numbered(i: u64) -> EventInfo {
    EventInfo { nonce: Some(i), ..key(&format!("k{}", i)) }
}

fn replay_batches(n: u64, frame_size: usize) -> Vec<Vec<EventInfo>> {
    let log: Vec<EventInfo> = (0..n).map(numbered).collect();
    let mut o = Orchestrator::start_replay(log, frame_size, dim(320, 240));
    let mut batches = vec![];
    let mut reply = None;
    loop {
        let acts = o.tick(None, None, reply).unwrap();
        match &acts[0] {
            Action::ToUpdate(ServiceCall::Update(batch, Request::All(d))) => {
                assert_eq!(*d, dim(320, 240));
                assert_eq!(acts.len(), 1);
                batches.push(batch.clone());
            }
            Action::ToUpdate(ServiceCall::FlushQuit) => {
                assert_eq!(acts[1], Action::ToView(ServiceCall::FlushQuit));
                match &acts[2] {
                    Action::WriteCapture(d, evs, gs, paths) => {
                        assert_eq!(*d, dim(320, 240));
                        assert_eq!(evs.len() as u64, n);
                        assert_eq!(gs.len(), batches.len());
                        assert!(paths.is_empty());
                    }
                    other => panic!("unexpected {:?}", other),
                }
                assert_eq!(o.phase(), Phase::Terminated);
                return batches;
            }
            other => panic!("unexpected {:?}", other),
        }
        reply = Some(UpdateReply::Decoded(vec![picture()]));
    }
}

#[test]
fn replay_sends_frames_then_stops() {
    let batches = replay_batches(7, 3);
    let sizes: Vec<usize> = batches.iter().map(|b| b.len()).collect();
    assert_eq!(sizes, vec![3, 3, 1]);
    let flat: Vec<u64> = batches.iter().flatten().map(|e| e.nonce.unwrap()).collect();
    assert_eq!(flat, vec![0, 1, 2, 3, 4, 5, 6]);
}

#[test]
fn replay_is_deterministic() {
    assert_eq!(replay_batches(10, 4), replay_batches(10, 4));
    assert_eq!(replay_batches(0, 4).len(), 0);
}
