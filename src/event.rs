//! Terminal events, buffered locally as input to the service.
use vstd::prelude::*;

use crate::graphics::{Color, Dim, Pos};

verus! {

/// User information, identifying where events come from.
#[derive(Debug, PartialEq, Eq, Hash)]
pub struct UserInfo {
    pub user_name: String,
    pub text_color: (Color, Color),
}

impl Clone for UserInfo {
    fn clone(&self) -> (r: Self)
        ensures
            r == *self,
    {
        UserInfo { user_name: self.user_name.clone(), text_color: self.text_color }
    }
}

/// Event information (full record).
#[derive(Debug, PartialEq, Eq, Hash)]
pub struct EventInfo {
    pub user_info: UserInfo,
    pub nonce: Option<u64>,
    pub date_time_utc: String,
    pub date_time_local: String,
    pub event: Event,
}

/// Event(-specific information).
#[derive(Debug, PartialEq, Eq, Hash)]
pub enum Event {
    Skip,
    Quit,
    KeyDown(Vec<KeyEventInfo>),
    MouseDown(Pos),
    WindowSize(Dim),
    ClipBoard(String),
}

/// Keyboard event information.
#[derive(Debug, PartialEq, Eq, Hash)]
pub struct KeyEventInfo {
    pub key: String,
    pub alt: bool,
    pub ctrl: bool,
    pub meta: bool,
    pub shift: bool,
}

impl Clone for KeyEventInfo {
    fn clone(&self) -> (r: Self)
        ensures
            r == *self,
    {
        KeyEventInfo {
            key: self.key.clone(),
            alt: self.alt,
            ctrl: self.ctrl,
            meta: self.meta,
            shift: self.shift,
        }
    }
}

/// An event as a value: the keys of a key press as a sequence.
pub enum EventView {
    Skip,
    Quit,
    KeyDown(Seq<KeyEventInfo>),
    MouseDown(Pos),
    WindowSize(Dim),
    ClipBoard(String),
}

/// An event record as a value.
pub struct EventInfoView {
    pub user_info: UserInfo,
    pub nonce: Option<u64>,
    pub date_time_utc: String,
    pub date_time_local: String,
    pub event: EventView,
}

impl View for Event {
    type V = EventView;

    open spec fn view(&self) -> EventView {
        match self {
            Event::Skip => EventView::Skip,
            Event::Quit => EventView::Quit,
            Event::KeyDown(keys) => EventView::KeyDown(keys@),
            Event::MouseDown(p) => EventView::MouseDown(*p),
            Event::WindowSize(d) => EventView::WindowSize(*d),
            Event::ClipBoard(t) => EventView::ClipBoard(*t),
        }
    }
}

impl View for EventInfo {
    type V = EventInfoView;

    open spec fn view(&self) -> EventInfoView {
        EventInfoView {
            user_info: self.user_info,
            nonce: self.nonce,
            date_time_utc: self.date_time_utc,
            date_time_local: self.date_time_local,
            event: self.event@,
        }
    }
}

/// The values of a sequence of event records.
pub open spec fn events_view(evs: Seq<EventInfo>) -> Seq<EventInfoView> {
    evs.map_values(|e: EventInfo| e@)
}

pub proof fn lemma_events_view_push(evs: Seq<EventInfo>, e: EventInfo)
    ensures
        events_view(evs.push(e)) == events_view(evs).push(e@),
{
    assert(events_view(evs.push(e)) =~= events_view(evs).push(e@));
}

pub proof fn lemma_events_view_concat(a: Seq<EventInfo>, b: Seq<EventInfo>)
    ensures
        events_view(a + b) == events_view(a) + events_view(b),
{
    assert(events_view(a + b) =~= events_view(a) + events_view(b));
}

impl Clone for Event {
    fn clone(&self) -> (r: Self)
        ensures
            r@ == self@,
    {
        match self {
            Event::Skip => Event::Skip,
            Event::Quit => Event::Quit,
            Event::KeyDown(keys) => {
                let k = keys.clone();
                assert(k@ =~= keys@);
                Event::KeyDown(k)
            },
            Event::MouseDown(p) => Event::MouseDown(*p),
            Event::WindowSize(d) => Event::WindowSize(*d),
            Event::ClipBoard(t) => Event::ClipBoard(t.clone()),
        }
    }
}

impl Clone for EventInfo {
    fn clone(&self) -> (r: Self)
        ensures
            r@ == self@,
    {
        EventInfo {
            user_info: self.user_info.clone(),
            nonce: self.nonce,
            date_time_utc: self.date_time_utc.clone(),
            date_time_local: self.date_time_local.clone(),
            event: self.event.clone(),
        }
    }
}

/// A copy of a sequence of event records, value for value.
pub fn clone_events(evs: &Vec<EventInfo>) -> (r: Vec<EventInfo>)
    ensures
        events_view(r@) == events_view(evs@),
{
    let mut r: Vec<EventInfo> = Vec::new();
    let mut i: usize = 0;
    while i < evs.len()
        invariant
            0 <= i <= evs@.len(),
            r@.len() == i,
            events_view(r@) == events_view(evs@.subrange(0, i as int)),
        decreases evs@.len() - i,
    {
        let ghost prev = r@;
        let c = evs[i].clone();
        r.push(c);
        proof {
            let s = evs@.subrange(0, i as int + 1);
            assert forall|j: int| 0 <= j < r@.len() implies #[trigger] events_view(r@)[j]
                == events_view(s)[j] by {
                if j < i {
                    assert(events_view(prev)[j] == events_view(evs@.subrange(0, i as int))[j]);
                }
            }
            assert(events_view(r@) =~= events_view(s));
        }
        i = i + 1;
    }
    assert(evs@.subrange(0, evs@.len() as int) =~= evs@);
    r
}

} // verus!
