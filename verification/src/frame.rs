//! Per-frame decisions of the main window: the frame counter, which tabs
//! receive queued events, the labels of the "add tab" menu and the
//! notification shown in the top bar.

use vstd::prelude::*;
use crate::types::{Event, Notification, DistanceUnit};

verus! {

/// One second, in nanoseconds.
pub const NANOS_PER_SECOND: u64 = 1_000_000_000;

/// Whether a frame rendered at `frame` (nanoseconds) is within the second
/// before `now`.
pub open spec fn spec_recent_frame(frame: u64, now: u64) -> bool {
    frame + NANOS_PER_SECOND > now
}

/// The frames of `frames` rendered within the second before `now`, in order.
pub open spec fn spec_recent_frames(frames: Seq<u64>, now: u64) -> Seq<u64>
    decreases frames.len(),
{
    if frames.len() == 0 {
        Seq::empty()
    } else {
        let p = spec_recent_frames(frames.drop_last(), now);
        if spec_recent_frame(frames.last(), now) {
            p.push(frames.last())
        } else {
            p
        }
    }
}

/// An FPS counter: the times (in nanoseconds of a monotonic clock) of the
/// frames rendered in the last second.
#[derive(Debug, Default, Clone)]
pub struct FpsCounter {
    pub frames: Vec<u64>,
}

impl FpsCounter {
    /// Records a frame rendered at `now` and returns the number of frames
    /// rendered within the last second, this one included.
    pub fn tick(&mut self, now: u64) -> (n: usize)
        ensures
            final(self).frames@ == spec_recent_frames(old(self).frames@, now).push(now),
            n == final(self).frames.len(),
    {
        let mut kept: Vec<u64> = Vec::new();
        let mut i: usize = 0;
        while i < self.frames.len()
            invariant
                i <= self.frames.len(),
                self.frames@ == old(self).frames@,
                kept@ == spec_recent_frames(self.frames@.take(i as int), now),
                kept.len() <= i,
            decreases self.frames.len() - i,
        {
            let f = self.frames[i];
            assert(self.frames@.take(i + 1).drop_last() =~= self.frames@.take(i as int));
            assert(self.frames@.take(i + 1).last() == f);
            if f >= now || now - f < NANOS_PER_SECOND {
                kept.push(f);
            }
            i = i + 1;
        }
        assert(self.frames@.take(self.frames.len() as int) =~= self.frames@);
        kept.push(now);
        self.frames = kept;
        self.frames.len()
    }
}

/// The index of the first tab whose ID is `id`.
pub open spec fn spec_first_tab(tabs: Seq<u64>, id: u64) -> Option<int>
    decreases tabs.len(),
{
    if tabs.len() == 0 {
        None
    } else if tabs[0] == id {
        Some(0)
    } else {
        match spec_first_tab(tabs.drop_first(), id) {
            Some(i) => Some(i + 1),
            None => None,
        }
    }
}

/// The deliveries of one queued event: to the first tab with its target
/// ID, or to every tab when it has no target.
pub open spec fn spec_event_deliveries(target: Option<u64>, event: Event, tabs: Seq<u64>) -> Seq<(int, Event)> {
    match target {
        Some(id) => match spec_first_tab(tabs, id) {
            Some(i) => seq![(i, event)],
            None => Seq::empty(),
        },
        None => Seq::new(tabs.len(), |i: int| (i, event)),
    }
}

/// The deliveries of a queue of events, taken from the back of the queue.
pub open spec fn spec_deliveries(events: Seq<(Option<u64>, Event)>, tabs: Seq<u64>) -> Seq<(int, Event)>
    decreases events.len(),
{
    if events.len() == 0 {
        Seq::empty()
    } else {
        spec_event_deliveries(events.last().0, events.last().1, tabs) + spec_deliveries(events.drop_last(), tabs)
    }
}

/// An event queued without a target tab, as a finished contact insert
/// queues `RefreshContacts`, is the first one delivered, and it reaches
/// every tab, in order.
pub proof fn law_global_event_reaches_every_tab(events: Seq<(Option<u64>, Event)>, tabs: Seq<u64>, e: Event)
    ensures
        spec_deliveries(events.push((None, e)), tabs).len() >= tabs.len(),
        forall|k: int| 0 <= k < tabs.len() ==> #[trigger] spec_deliveries(events.push((None, e)), tabs)[k] == (k, e),
{
    let q = events.push((None, e));
    assert(q.drop_last() =~= events);
    assert(q.last() == (None::<u64>, e));
}

fn first_tab(tabs: &Vec<u64>, id: u64) -> (r: Option<usize>)
    ensures
        r matches Some(i) ==> spec_first_tab(tabs@, id) == Some(i as int),
        r is None ==> spec_first_tab(tabs@, id) is None,
{
    let mut i: usize = 0;
    while i < tabs.len()
        invariant
            i <= tabs.len(),
            forall|j: int| 0 <= j < i ==> tabs@[j] != id,
        decreases tabs.len() - i,
    {
        if tabs[i] == id {
            proof {
                lemma_first_tab_at(tabs@, id, i as int);
            }
            return Some(i);
        }
        i = i + 1;
    }
    proof {
        lemma_first_tab_none(tabs@, id);
    }
    None
}

proof fn lemma_first_tab_at(tabs: Seq<u64>, id: u64, i: int)
    requires
        0 <= i < tabs.len(),
        tabs[i] == id,
        forall|j: int| 0 <= j < i ==> tabs[j] != id,
    ensures
        spec_first_tab(tabs, id) == Some(i),
    decreases i,
{
    if i > 0 {
        let t = tabs.drop_first();
        assert forall|j: int| 0 <= j < i - 1 implies t[j] != id by {
            assert(t[j] == tabs[j + 1]);
        }
        lemma_first_tab_at(t, id, i - 1);
    }
}

proof fn lemma_first_tab_none(tabs: Seq<u64>, id: u64)
    requires
        forall|j: int| 0 <= j < tabs.len() ==> tabs[j] != id,
    ensures
        spec_first_tab(tabs, id) is None,
    decreases tabs.len(),
{
    if tabs.len() > 0 {
        let t = tabs.drop_first();
        assert forall|j: int| 0 <= j < t.len() implies t[j] != id by {
            assert(t[j] == tabs[j + 1]);
        }
        lemma_first_tab_none(t, id);
    }
}

proof fn lemma_map_push(s: Seq<(usize, Event)>, x: (usize, Event))
    ensures
        s.push(x).map_values(|d: (usize, Event)| (d.0 as int, d.1)) =~= s.map_values(
            |d: (usize, Event)| (d.0 as int, d.1),
        ).push((x.0 as int, x.1)),
{
    let a = s.push(x).map_values(|d: (usize, Event)| (d.0 as int, d.1));
    let b = s.map_values(|d: (usize, Event)| (d.0 as int, d.1)).push((x.0 as int, x.1));
    assert forall|i: int| 0 <= i < a.len() implies a[i] == b[i] by {
        if i < s.len() {
            assert(s.push(x)[i] == s[i]);
        }
    }
}

/// Empties the event queue, from its back, into the list of deliveries:
/// each event goes to the first tab with its target ID, or, without a
/// target, to every tab in order. Each delivery names the tab's index in
/// `tabs`.
pub fn plan_event_delivery(events: &mut Vec<(Option<u64>, Event)>, tabs: &Vec<u64>) -> (r: Vec<(usize, Event)>)
    ensures
        final(events)@.len() == 0,
        r@.map_values(|d: (usize, Event)| (d.0 as int, d.1)) == spec_deliveries(old(events)@, tabs@),
{
    let mut out: Vec<(usize, Event)> = Vec::new();
    while events.len() > 0
        invariant
            spec_deliveries(old(events)@, tabs@) == out@.map_values(|d: (usize, Event)| (d.0 as int, d.1))
                + spec_deliveries(events@, tabs@),
        decreases events.len(),
    {
        let ghost before = events@;
        let (target, event) = events.pop().unwrap();
        assert(before.drop_last() =~= events@);
        assert(before.last() == (target, event));
        let ghost head = spec_event_deliveries(target, event, tabs@);
        let ghost out0 = out@.map_values(|d: (usize, Event)| (d.0 as int, d.1));
        match target {
            Some(id) => {
                if let Some(i) = first_tab(tabs, id) {
                    let ghost prev = out@;
                    out.push((i, event));
                    proof {
                        lemma_map_push(prev, (i, event));
                    }
                    assert(head =~= seq![(i as int, event)]);
                } else {
                    assert(head =~= Seq::<(int, Event)>::empty());
                }
            },
            None => {
                let mut k: usize = 0;
                while k < tabs.len()
                    invariant
                        k <= tabs.len(),
                        out@.map_values(|d: (usize, Event)| (d.0 as int, d.1)) == out0 + Seq::new(
                            k as nat,
                            |i: int| (i, event),
                        ),
                    decreases tabs.len() - k,
                {
                    let ghost prev = out@;
                    out.push((k, event.duplicate()));
                    proof {
                        lemma_map_push(prev, (k, event));
                    }
                    k = k + 1;
                    assert(out@.map_values(|d: (usize, Event)| (d.0 as int, d.1)) =~= out0 + Seq::new(
                        k as nat,
                        |i: int| (i, event),
                    ));
                }
                assert(Seq::new(k as nat, |i: int| (i, event)) =~= head);
            },
        }
        assert(out@.map_values(|d: (usize, Event)| (d.0 as int, d.1)) =~= out0 + head);
    }
    assert(spec_deliveries(events@, tabs@) =~= Seq::empty());
    assert(out@.map_values(|d: (usize, Event)| (d.0 as int, d.1)) + Seq::empty() =~= out@.map_values(
        |d: (usize, Event)| (d.0 as int, d.1),
    ));
    out
}

/// The label of the `idx`-th entry of the "add tab" menu.
pub fn add_tab_label(idx: usize) -> (r: &'static str)
    ensures
        r@ == (if idx == 0 {
            "Home"@
        } else if idx == 1 {
            "Contacts"@
        } else if idx == 2 {
            "Contact Logger"@
        } else if idx == 3 {
            "Callsign Lookup"@
        } else if idx == 4 {
            "PSKReporter"@
        } else {
            "Settings"@
        }),
{
    match idx {
        0 => "Home",
        1 => "Contacts",
        2 => "Contact Logger",
        3 => "Callsign Lookup",
        4 => "PSKReporter",
        _ => "Settings",
    }
}

/// The notification the top bar shows: the latest of `count`, unless it has
/// been marked as read.
pub fn shown_notification(count: usize, read: bool) -> (r: Option<usize>)
    ensures
        r == (if count > 0 && !read { Some((count - 1) as usize) } else { None::<usize> }),
{
    if count > 0 && !read {
        Some(count - 1)
    } else {
        None
    }
}

/// The most notifications kept; older ones are dropped.
pub const NOTIFICATION_LIMIT: usize = 32;

/// The state that the main window shares with its tabs.
#[derive(Debug)]
pub struct GuiState {
    /// Messages for the user; the top bar shows the latest.
    pub notifications: Vec<Notification>,
    /// Whether the latest notification has been marked as read.
    pub notification_read: bool,
    /// Events waiting to be delivered, each to the tab with its ID or, with
    /// no ID, to every tab.
    pub events: Vec<(Option<u64>, Event)>,
    /// The frame counter.
    pub fps_counter: FpsCounter,
    /// The entry selected in the "add tab" menu.
    pub add_tab_idx: usize,
    /// The distance unit shown.
    pub distance_unit: DistanceUnit,
}

impl Default for GuiState {
    /// No notifications, events or frames yet, distances in miles.
    fn default() -> (g: GuiState)
        ensures
            g.notifications@.len() == 0,
            !g.notification_read,
            g.events@.len() == 0,
            g.fps_counter.frames@.len() == 0,
            g.add_tab_idx == 0,
            g.distance_unit == DistanceUnit::Miles,
    {
        GuiState {
            notifications: Vec::new(),
            notification_read: false,
            events: Vec::new(),
            fps_counter: FpsCounter { frames: Vec::new() },
            add_tab_idx: 0,
            distance_unit: DistanceUnit::Miles,
        }
    }
}

impl GuiState {
    /// Shows `n` as the latest notification, unread.
    pub fn notify(&mut self, n: Notification)
        ensures
            final(self).notifications@ == old(self).notifications@.push(n),
            !final(self).notification_read,
            final(self).events@ == old(self).events@,
            final(self).add_tab_idx == old(self).add_tab_idx,
            final(self).distance_unit == old(self).distance_unit,
    {
        self.notification_read = false;
        self.notifications.push(n);
    }

    /// Keeps only the latest `NOTIFICATION_LIMIT` notifications, dropping
    /// the oldest; the latest, and whether it was read, stay as they were.
    pub fn limit_notifications(&mut self)
        ensures
            old(self).notifications@.len() > NOTIFICATION_LIMIT ==> final(self).notifications@
                == old(self).notifications@.subrange(
                    old(self).notifications@.len() - NOTIFICATION_LIMIT,
                    old(self).notifications@.len() as int,
                ),
            old(self).notifications@.len() <= NOTIFICATION_LIMIT ==> final(self).notifications@
                == old(self).notifications@,
            final(self).notifications@.len() <= NOTIFICATION_LIMIT,
            old(self).notifications@.len() > 0 ==> final(self).notifications@.last()
                == old(self).notifications@.last(),
            final(self).notification_read == old(self).notification_read,
            final(self).events@ == old(self).events@,
            final(self).add_tab_idx == old(self).add_tab_idx,
            final(self).distance_unit == old(self).distance_unit,
    {
        let n = self.notifications.len();
        if n > NOTIFICATION_LIMIT {
            let kept = self.notifications.split_off(n - NOTIFICATION_LIMIT);
            self.notifications = kept;
        }
    }

    /// Marks the latest notification as read, which hides it.
    pub fn mark_read(&mut self)
        ensures
            final(self).notification_read,
            final(self).notifications@ == old(self).notifications@,
            final(self).events@ == old(self).events@,
    {
        self.notification_read = true;
    }

    /// The notification the top bar shows: the latest, unless read.
    pub fn shown(&self) -> (r: Option<&Notification>)
        ensures
            r is Some <==> (self.notifications@.len() > 0 && !self.notification_read),
            r is Some ==> *r->0 == self.notifications@.last(),
    {
        match shown_notification(self.notifications.len(), self.notification_read) {
            Some(i) => Some(&self.notifications[i]),
            None => None,
        }
    }
}

} // verus!
