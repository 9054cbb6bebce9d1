//! Types and helpers shared by the terminal's components.
use vstd::prelude::*;

use crate::event::{events_view, Event, EventInfo, EventInfoView, UserInfo};
use crate::graphics::{Color, Dim, Request};

verus! {

/// A natural number that the terminal hands to a 32-bit surface.
pub fn nat_ceil(n: u64) -> (r: u32)
    requires
        n <= u32::MAX,
    ensures
        r == n,
{
    n as u32
}

/// A natural number as a byte, clamped to 255.
pub fn byte_ceil(n: u64) -> (r: u8)
    ensures
        r as int == if n > 255 { 255 } else { n as int },
{
    if n > 255 {
        255
    } else {
        n as u8
    }
}

/// User name and user-chosen text color.
pub type UserInfoCli = (String, Color);

/// User kind: a live user, or a recorded session to replay.
#[derive(Debug, PartialEq)]
pub enum UserKind {
    Local(UserInfoCli),
    Replay(Vec<EventInfo>),
}

/// Messages from terminal to service.
#[derive(Debug, PartialEq)]
pub enum ServiceCall {
    /// Query a projected view of the service.
    View(Dim, Vec<EventInfo>),
    /// Update the state of the service.
    Update(Vec<EventInfo>, Request),
    /// Stop the lane that receives it.
    FlushQuit,
}

/// A service call as a value.
pub enum ServiceCallView {
    View(Dim, Seq<EventInfoView>),
    Update(Seq<EventInfoView>, Request),
    FlushQuit,
}

impl View for ServiceCall {
    type V = ServiceCallView;

    open spec fn view(&self) -> ServiceCallView {
        match self {
            ServiceCall::View(d, evs) => ServiceCallView::View(*d, events_view(evs@)),
            ServiceCall::Update(evs, req) => ServiceCallView::Update(events_view(evs@), *req),
            ServiceCall::FlushQuit => ServiceCallView::FlushQuit,
        }
    }
}

/// The user information that a live user's events carry: the user's name and text color,
/// on a black background.
pub open spec fn user_info_of(user: UserInfoCli) -> UserInfo {
    UserInfo { user_name: user.0, text_color: (user.1, (0, 0, 0)) }
}

/// User name.
pub fn user_name(kind: &UserKind) -> (r: Option<String>)
    ensures
        r == match kind {
            UserKind::Local(u) => Some(u.0),
            UserKind::Replay(_) => None,
        },
{
    match kind {
        UserKind::Local(user_info) => Some(user_info.0.clone()),
        UserKind::Replay(_) => None,
    }
}

/// Text color.
pub fn text_color(kind: &UserKind) -> (r: Option<Color>)
    ensures
        r == match kind {
            UserKind::Local(u) => Some(u.1),
            UserKind::Replay(_) => None,
        },
{
    match kind {
        UserKind::Local(user_info) => Some(user_info.1),
        UserKind::Replay(_) => None,
    }
}

/// Relies on chrono's `Local::now` and `DateTime::to_rfc3339`: the local time now, as
/// RFC 3339 text. The clock decides the value, so nothing is stated of it.
#[verifier::external_body]
fn local_now_text() -> String {
    chrono::Local::now().to_rfc3339()
}

/// Relies on chrono's `Utc::now` and `DateTime::to_rfc3339`: the UTC time now, as RFC 3339
/// text. The clock decides the value, so nothing is stated of it.
#[verifier::external_body]
fn utc_now_text() -> String {
    chrono::Utc::now().to_rfc3339()
}

/// An event record of a live user, stamped with the local and UTC time now.
pub fn event_info(user: &UserInfoCli, event: Event) -> (r: EventInfo)
    ensures
        r.user_info == user_info_of(*user),
        r.nonce is None,
        r.event == event,
{
    EventInfo {
        user_info: UserInfo { user_name: user.0.clone(), text_color: (user.1, (0, 0, 0)) },
        nonce: None,
        date_time_local: local_now_text(),
        date_time_utc: utc_now_text(),
        event,
    }
}

/// Forms a skip event: it does nothing but carry the user's information, which per-user
/// views need. Only a live user has skip events.
pub fn skip_event(kind: &UserKind) -> (r: EventInfo)
    requires
        kind is Local,
    ensures
        r.user_info == user_info_of(kind->Local_0),
        r.nonce is None,
        r.event is Skip,
{
    match kind {
        UserKind::Local(user) => event_info(user, Event::Skip),
        UserKind::Replay(_) => {
            proof {
                assert(false);
            }
            event_info(&(String::new(), (0, 0, 0)), Event::Skip)
        },
    }
}

} // verus!
