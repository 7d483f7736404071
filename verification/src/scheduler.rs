//! What is shown, and for how long.
//!
//! Items arrive from two sources: notifications as the desktop publishes
//! them, metrics once a second. Each item that can be rendered replaces the
//! whole frame. A notification then keeps the display for five seconds:
//! whatever arrives meanwhile waits until that time is over.

use crate::framebuffer::{blank_frame, FrameBuffer};
use crate::notification::{with_content, with_title, Notification, SourceError};
use crate::screen::Screen;
use crate::sysinfo::{with_metrics, SysInfo};
use crate::text::{drawable, RenderFailure};
use vstd::prelude::*;

verus! {

/// How long a notification keeps the display, in milliseconds.
pub const NOTIFICATION_HOLD_MS: u64 = 5000;

/// Time between two samples of the metrics, in milliseconds.
pub const METRICS_PERIOD_MS: u64 = 1000;

/// Time allowed for subscribing to the notifications, in milliseconds.
pub const SUBSCRIBE_TIMEOUT_MS: u64 = 500;

/// Something that can be shown.
#[derive(Debug)]
pub enum Renderable {
    Notification(Notification),
    Metrics(SysInfo),
}

impl Renderable {
    /// Whether every line of the item is short enough to be drawn.
    pub open spec fn renders(&self) -> bool {
        match self {
            Renderable::Notification(n) => drawable(n.title@) && drawable(n.content@),
            Renderable::Metrics(_) => true,
        }
    }

    /// `frame` with the item drawn over it.
    pub open spec fn rendered(&self, frame: Seq<u8>) -> Seq<u8> {
        match self {
            Renderable::Notification(n) => with_content(with_title(frame, n.title@), n.content@),
            Renderable::Metrics(m) => with_metrics(
                frame,
                m.mem_used() as nat,
                m.cpu_used() as nat,
            ),
        }
    }

    /// What is left on `frame` by an item that could not be drawn whole: the
    /// title of a notification whose body alone is too long, else nothing.
    pub open spec fn left_behind(&self, frame: Seq<u8>) -> Seq<u8> {
        match self {
            Renderable::Notification(n) => if drawable(n.title@) {
                with_title(frame, n.title@)
            } else {
                frame
            },
            Renderable::Metrics(_) => frame,
        }
    }

    /// How long the item keeps the display once it is shown.
    pub open spec fn spec_hold_ms(&self) -> u64 {
        match self {
            Renderable::Notification(_) => 5000,
            Renderable::Metrics(_) => 0,
        }
    }

    /// How long the item keeps the display once it is shown: a notification
    /// five seconds, metrics no time at all.
    #[verifier::when_used_as_spec(spec_hold_ms)]
    pub fn hold_ms(&self) -> (ms: u64)
        ensures
            ms == self.hold_ms(),
    {
        match self {
            Renderable::Notification(_) => NOTIFICATION_HOLD_MS,
            Renderable::Metrics(_) => 0,
        }
    }

    /// Draws the item over what `target` holds. It fails where a line is too
    /// long to be drawn, and then leaves what was drawn before that line.
    pub fn render(&self, target: &mut FrameBuffer) -> (done: Result<(), RenderFailure>)
        ensures
            done.is_ok() <==> self.renders(),
            done.is_err() ==> done == Err::<(), RenderFailure>(RenderFailure::TextTooLong),
            self.renders() ==> final(target)@ == self.rendered(old(target)@),
            !self.renders() ==> final(target)@ == self.left_behind(old(target)@),
    {
        match self {
            Renderable::Notification(n) => n.draw(target),
            Renderable::Metrics(m) => m.draw(target),
        }
    }
}

/// The time at which an item is shown that arrived at `arrival`, where the
/// display is held until `ready_at`.
pub open spec fn display_time(ready_at: u64, arrival: u64) -> u64 {
    if arrival > ready_at {
        arrival
    } else {
        ready_at
    }
}

/// The time until which an item holds the display that is shown at `start`
/// for `hold` milliseconds. Time ends at the largest number.
pub open spec fn hold_end(start: u64, hold: u64) -> u64 {
    if start + hold > u64::MAX {
        u64::MAX
    } else {
        (start + hold) as u64
    }
}

/// The one who decides what is shown next. Times are in milliseconds since
/// a start that the caller chooses.
#[derive(Clone, Copy, Debug, PartialEq, Eq)]
pub struct Scheduler {
    ready_at: u64,
}

impl Scheduler {
    /// The time until which the display is held.
    pub closed spec fn spec_ready_at(&self) -> u64 {
        self.ready_at
    }

    /// A scheduler whose display is free from the start.
    pub fn new() -> (s: Scheduler)
        ensures
            s.ready_at() == 0,
    {
        Scheduler { ready_at: 0 }
    }

    /// The time until which the display is held: nothing is shown earlier.
    #[verifier::when_used_as_spec(spec_ready_at)]
    pub fn ready_at(&self) -> (t: u64)
        ensures
            t == self.ready_at(),
    {
        self.ready_at
    }

    /// Takes the next item of a source, which arrived at `arrival`.
    ///
    /// An item that is an error is passed over: nothing changes. One that
    /// can be rendered is drawn on an empty frame, which becomes the frame
    /// of `screen`; the result is the time from which it is shown, and the
    /// display is held from then for as long as the item asks. One that
    /// cannot be rendered fails the call and changes nothing.
    pub fn accept(
        &mut self,
        arrival: u64,
        item: &Result<Renderable, SourceError>,
        screen: &mut Screen,
    ) -> (shown: Result<Option<u64>, RenderFailure>)
        ensures
            match *item {
                Err(_) => {
                    &&& shown == Ok::<Option<u64>, RenderFailure>(None)
                    &&& final(self).ready_at() == old(self).ready_at()
                    &&& final(screen)@ == old(screen)@
                },
                Ok(content) => if content.renders() {
                    &&& shown == Ok::<Option<u64>, RenderFailure>(
                        Some(display_time(old(self).ready_at(), arrival)),
                    )
                    &&& final(self).ready_at() == hold_end(
                        display_time(old(self).ready_at(), arrival),
                        content.hold_ms(),
                    )
                    &&& final(screen)@ == content.rendered(blank_frame())
                    &&& final(screen).stamped()
                } else {
                    &&& shown == Err::<Option<u64>, RenderFailure>(RenderFailure::TextTooLong)
                    &&& final(self).ready_at() == old(self).ready_at()
                    &&& final(screen)@ == old(screen)@
                },
            },
    {
        match item {
            Err(_) => Ok(None),
            Ok(content) => {
                let mut frame: FrameBuffer = FrameBuffer::new();
                frame.clear();
                match content.render(&mut frame) {
                    Ok(()) => {},
                    Err(e) => {
                        return Err(e);
                    },
                }
                proof {
                    lemma_rendered_keeps_header(*content, blank_frame());
                }
                let bytes: &[u8] = frame.as_bytes();
                screen.clear();
                screen.draw(bytes);
                assert(screen@ =~= content.rendered(blank_frame()));
                let start: u64 = if arrival > self.ready_at {
                    arrival
                } else {
                    self.ready_at
                };
                let hold: u64 = content.hold_ms();
                self.ready_at = if start > u64::MAX - hold {
                    u64::MAX
                } else {
                    start + hold
                };
                Ok(Some(start))
            },
        }
    }
}

/// Drawing an item keeps the length of the frame and its header.
pub proof fn lemma_rendered_keeps_header(content: Renderable, frame: Seq<u8>)
    requires
        frame.len() >= 2,
    ensures
        content.rendered(frame).len() == frame.len(),
        content.rendered(frame)[0] == frame[0],
        content.rendered(frame)[1] == frame[1],
        content.left_behind(frame).len() == frame.len(),
        content.left_behind(frame)[0] == frame[0],
        content.left_behind(frame)[1] == frame[1],
{
}

/// Nothing is shown before it arrives, nor while the display is held; and
/// the time until which the display is held never goes back.
pub proof fn lemma_display_time_bounds(ready_at: u64, arrival: u64, hold: u64)
    ensures
        display_time(ready_at, arrival) >= arrival,
        display_time(ready_at, arrival) >= ready_at,
        hold_end(display_time(ready_at, arrival), hold) >= display_time(ready_at, arrival),
        hold_end(display_time(ready_at, arrival), hold) >= ready_at,
{
}

/// Items are shown in the order in which they are taken: none is shown
/// before the one that was taken before it.
pub proof fn lemma_shown_in_turn(ready_at: u64, arrival: u64, hold: u64, next_arrival: u64)
    ensures
        display_time(hold_end(display_time(ready_at, arrival), hold), next_arrival)
            >= display_time(ready_at, arrival),
{
}

/// A notification keeps the display for five seconds: whatever arrives
/// after it is shown no sooner than five seconds after the notification was,
/// and what arrived within those five seconds is shown exactly then.
pub proof fn lemma_notification_holds_display(ready_at: u64, arrival: u64, next_arrival: u64)
    requires
        display_time(ready_at, arrival) + 5000 <= u64::MAX,
    ensures
        display_time(hold_end(display_time(ready_at, arrival), 5000), next_arrival)
            >= display_time(ready_at, arrival) + 5000,
        next_arrival <= display_time(ready_at, arrival) + 5000 ==> display_time(
            hold_end(display_time(ready_at, arrival), 5000),
            next_arrival,
        ) == display_time(ready_at, arrival) + 5000,
{
}

/// Metrics hold the display for no time: what arrives after them is shown
/// as soon as it arrives, or at once if it was waiting.
pub proof fn lemma_metrics_hold_nothing(ready_at: u64, arrival: u64, next_arrival: u64)
    ensures
        hold_end(display_time(ready_at, arrival), 0) == display_time(ready_at, arrival),
        display_time(hold_end(display_time(ready_at, arrival), 0), next_arrival) == (
        if next_arrival > display_time(ready_at, arrival) {
            next_arrival
        } else {
            display_time(ready_at, arrival)
        }),
{
}

} // verus!
