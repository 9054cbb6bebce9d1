//! Replay of a recorded session: the log is cut into frames of a fixed number of events,
//! and each frame goes to the service as one update batch.
use vstd::prelude::*;

use crate::event::EventInfo;

verus! {

/// The frames that replaying `log` with frame size `fs` sends, in order: consecutive
/// slices of `fs` events, the last one holding what remains.
pub open spec fn frames(log: Seq<EventInfo>, fs: nat) -> Seq<Seq<EventInfo>>
    decreases log.len(),
{
    if log.len() == 0 || fs == 0 {
        Seq::empty()
    } else if log.len() <= fs {
        seq![log]
    } else {
        seq![log.take(fs as int)] + frames(log.skip(fs as int), fs)
    }
}

/// Replay driver: the events still to replay, and the number of events per frame.
#[derive(Debug, PartialEq)]
pub struct ReplayDriver {
    remaining: Vec<EventInfo>,
    frame_size: usize,
}

impl ReplayDriver {
    /// The events still to replay.
    pub closed spec fn remaining(&self) -> Seq<EventInfo> {
        self.remaining@
    }

    /// The number of events per frame.
    pub closed spec fn frame_size(&self) -> nat {
        self.frame_size as nat
    }

    /// The frames still to send.
    pub open spec fn pending_frames(&self) -> Seq<Seq<EventInfo>> {
        frames(self.remaining(), self.frame_size())
    }

    pub open spec fn wf(&self) -> bool {
        self.frame_size() > 0
    }

    /// A driver for `log`, cut into frames of `frame_size` events.
    pub fn new(log: Vec<EventInfo>, frame_size: usize) -> (r: ReplayDriver)
        requires
            frame_size > 0,
        ensures
            r.wf(),
            r.remaining() == log@,
            r.frame_size() == frame_size,
    {
        ReplayDriver { remaining: log, frame_size }
    }

    /// Whether every event has been replayed.
    pub fn is_done(&self) -> (r: bool)
        ensures
            r == (self.remaining().len() == 0),
    {
        self.remaining.len() == 0
    }

    /// Takes the next frame: the next `frame_size` events, or all that remain if fewer;
    /// `None` once the log is exhausted.
    pub fn next_frame(&mut self) -> (r: Option<Vec<EventInfo>>)
        requires
            old(self).wf(),
        ensures
            final(self).wf(),
            final(self).frame_size() == old(self).frame_size(),
            old(self).remaining().len() == 0 ==> r is None && final(self).remaining() == old(
                self,
            ).remaining(),
            old(self).remaining().len() > 0 ==> (r matches Some(f) && old(self).pending_frames()
                == seq![f@] + final(self).pending_frames() && old(self).remaining() == f@
                + final(self).remaining()),
    {
        if self.remaining.len() == 0 {
            None
        } else if self.remaining.len() > self.frame_size {
            let ghost old_rem = self.remaining@;
            let tail = self.remaining.split_off(self.frame_size);
            let head = self.remaining.split_off(0);
            self.remaining = tail;
            assert(old_rem.take(self.frame_size as int) =~= head@);
            assert(old_rem.skip(self.frame_size as int) =~= self.remaining@);
            assert(old_rem =~= head@ + self.remaining@);
            Some(head)
        } else {
            let ghost old_rem = self.remaining@;
            let head = self.remaining.split_off(0);
            assert(frames(self.remaining@, self.frame_size as nat) =~= Seq::empty());
            assert(seq![head@] + Seq::<Seq<EventInfo>>::empty() =~= seq![head@]);
            assert(old_rem =~= head@ + self.remaining@);
            Some(head)
        }
    }
}

/// Replaying a log cuts it into frames that depend on the log and the frame size alone:
/// in order they hold the whole log, each is non-empty, and all but the last hold exactly
/// the frame size; so two replays of one log with one frame size send the same batches.
pub proof fn lemma_replay_frames(log: Seq<EventInfo>, fs: nat)
    requires
        fs > 0,
    ensures
        frames(log, fs).flatten() == log,
        forall|i: int| 0 <= i < frames(log, fs).len() ==> #[trigger] frames(log, fs)[i].len() > 0,
        forall|i: int|
            0 <= i < frames(log, fs).len() - 1 ==> #[trigger] frames(log, fs)[i].len() == fs,
        frames(log, fs).len() > 0 ==> frames(log, fs).last().len() <= fs,
    decreases log.len(),
{
    let fr = frames(log, fs);
    if log.len() == 0 {
        assert(fr.flatten() =~= log);
    } else if log.len() <= fs {
        assert(fr =~= seq![log]);
        fr.lemma_flatten_singleton();
    } else {
        let rest = frames(log.skip(fs as int), fs);
        lemma_replay_frames(log.skip(fs as int), fs);
        assert(fr == seq![log.take(fs as int)] + rest);
        vstd::seq_lib::lemma_flatten_concat(seq![log.take(fs as int)], rest);
        seq![log.take(fs as int)].lemma_flatten_singleton();
        assert(log =~= log.take(fs as int) + log.skip(fs as int));
        assert forall|i: int| 0 <= i < fr.len() implies #[trigger] fr[i].len() > 0 by {
            if i > 0 {
                assert(fr[i] == rest[i - 1]);
            }
        }
        assert forall|i: int| 0 <= i < fr.len() - 1 implies #[trigger] fr[i].len() == fs by {
            if i > 0 {
                assert(fr[i] == rest[i - 1]);
            }
        }
        assert(fr.last() == rest.last());
    }
}

} // verus!
