use crate::calendar::Stamp;
use std::collections::VecDeque;
use vstd::prelude::*;

verus! {

/// The two timelapse cadences, each with its own directories, queue and
/// retention horizon.
#[derive(Clone, Copy, Debug, PartialEq, Eq, Structural)]
pub enum VideoClass {
    /// Short cycle: a shot every few minutes, one video per day.
    Daily,
    /// Long cycle: one shot per day, one video per month.
    LongTerm,
}

/// The persisted record: the four timers and the two delivery queues.
///
/// A name in a queue means "not yet confirmed delivered"; the queues are in
/// delivery order, head first.
pub struct State {
    pub last_daily_capture: Stamp,
    pub last_longterm_capture: Stamp,
    pub last_daily_video: Stamp,
    pub last_longterm_video: Stamp,
    pub daily_vids_to_upload: VecDeque<String>,
    pub longterm_vids_to_upload: VecDeque<String>,
}

/// Whether some entry of `q` has the text `name`.
pub open spec fn queued(q: Seq<String>, name: Seq<char>) -> bool {
    exists|i: int| 0 <= i < q.len() && (#[trigger] q[i])@ == name
}

impl State {
    pub open spec fn wf(&self) -> bool {
        &&& self.last_daily_capture.wf()
        &&& self.last_longterm_capture.wf()
        &&& self.last_daily_video.wf()
        &&& self.last_longterm_video.wf()
    }

    pub open spec fn queue_of(&self, class: VideoClass) -> Seq<String> {
        match class {
            VideoClass::Daily => self.daily_vids_to_upload@,
            VideoClass::LongTerm => self.longterm_vids_to_upload@,
        }
    }

    /// The record of a first run: every timer at `now`, both queues empty.
    pub fn default_at(now: Stamp) -> (r: State)
        requires
            now.wf(),
        ensures
            r.wf(),
            r.last_daily_capture == now,
            r.last_longterm_capture == now,
            r.last_daily_video == now,
            r.last_longterm_video == now,
            r.daily_vids_to_upload@ == Seq::<String>::empty(),
            r.longterm_vids_to_upload@ == Seq::<String>::empty(),
    {
        State {
            last_daily_capture: now,
            last_longterm_capture: now,
            last_daily_video: now,
            last_longterm_video: now,
            daily_vids_to_upload: VecDeque::new(),
            longterm_vids_to_upload: VecDeque::new(),
        }
    }

    /// The delivery queue of `class`.
    pub fn queue(&self, class: VideoClass) -> (r: &VecDeque<String>)
        ensures
            r@ == self.queue_of(class),
    {
        match class {
            VideoClass::Daily => &self.daily_vids_to_upload,
            VideoClass::LongTerm => &self.longterm_vids_to_upload,
        }
    }

    /// Whether a delivery session is wanted this tick: some name is queued in
    /// either class.
    pub fn has_pending_delivery(&self) -> (r: bool)
        ensures
            r == (self.daily_vids_to_upload@.len() > 0 || self.longterm_vids_to_upload@.len() > 0),
    {
        self.daily_vids_to_upload.len() > 0 || self.longterm_vids_to_upload.len() > 0
    }

    /// Appends `name` at the tail of the queue of `class`.
    pub fn enqueue(&mut self, class: VideoClass, name: String)
        ensures
            final(self).queue_of(class) == old(self).queue_of(class).push(name),
            final(self).last_daily_capture == old(self).last_daily_capture,
            final(self).last_longterm_capture == old(self).last_longterm_capture,
            final(self).last_daily_video == old(self).last_daily_video,
            final(self).last_longterm_video == old(self).last_longterm_video,
            class == VideoClass::Daily ==> final(self).longterm_vids_to_upload@
                == old(self).longterm_vids_to_upload@,
            class == VideoClass::LongTerm ==> final(self).daily_vids_to_upload@
                == old(self).daily_vids_to_upload@,
    {
        match class {
            VideoClass::Daily => self.daily_vids_to_upload.push_back(name),
            VideoClass::LongTerm => self.longterm_vids_to_upload.push_back(name),
        }
    }

    /// Whether `name` is pending delivery in the queue of `class`.
    pub fn is_queued(&self, class: VideoClass, name: &String) -> (r: bool)
        ensures
            r == queued(self.queue_of(class), name@),
    {
        queue_contains(self.queue(class), name)
    }
}

/// Whether some entry of `q` has the text of `name`.
pub fn queue_contains(q: &VecDeque<String>, name: &String) -> (r: bool)
    ensures
        r == queued(q@, name@),
{
    let n = q.len();
    let mut i: usize = 0;
    while i < n
        invariant
            n == q@.len(),
            i <= n,
            forall|j: int| 0 <= j < i ==> (#[trigger] q@[j])@ != name@,
        decreases n - i,
    {
        if q[i] == *name {
            return true;
        }
        i = i + 1;
    }
    false
}

} // verus!
