//! Handle events of a user interface.
use vstd::prelude::*;
use vstd::std_specs::cmp::PartialEqSpec;

verus! {

/// A user interface event.
///
/// The keyboard, mouse, window and touch payloads belong to the input
/// subsystems that produce them: this type only carries them. `Seconds` is
/// the type in which the host measures time for [`TickEvent`].
#[derive(Debug, Clone, PartialEq)]
pub enum Event<Keyboard, Mouse, Window, Touch, Seconds> {
    /// A keyboard event
    Keyboard(Keyboard),
    /// A mouse event
    Mouse(Mouse),
    /// A window event
    Window(Window),
    /// A touch event
    Touch(Touch),
    /// A platform specific event
    PlatformSpecific(PlatformSpecific),
    /// An arbitrary timing event that fires every frame, regardless of input.
    /// Generally used for animated components.
    ///
    /// The toolkit does not initiate this event itself: its source depends on
    /// the environment the interface runs in, and each application decides
    /// how and when to send it.
    Tick(TickEvent<Seconds>),
}

/// A platform specific event
#[derive(Debug, Clone, Eq)]
pub enum PlatformSpecific {
    /// A MacOS specific event
    MacOS(MacOS),
}

/// Describes an event specific to MacOS
#[derive(Debug, Clone, Eq)]
pub enum MacOS {
    /// Triggered when the app receives an URL from the system
    ///
    /// _**Note:** For this event to be triggered, the executable needs to be
    /// bundled as an application._
    ReceivedUrl(String),
}

impl PartialEq for MacOS {
    fn eq(&self, other: &MacOS) -> (r: bool) {
        match (self, other) {
            (MacOS::ReceivedUrl(a), MacOS::ReceivedUrl(b)) => *a == *b,
        }
    }
}

impl vstd::std_specs::cmp::PartialEqSpecImpl for MacOS {
    open spec fn obeys_eq_spec() -> bool {
        true
    }

    open spec fn eq_spec(&self, other: &MacOS) -> bool {
        match (self, other) {
            (MacOS::ReceivedUrl(a), MacOS::ReceivedUrl(b)) => a@ == b@,
        }
    }
}

impl PartialEq for PlatformSpecific {
    fn eq(&self, other: &PlatformSpecific) -> (r: bool) {
        match (self, other) {
            (PlatformSpecific::MacOS(a), PlatformSpecific::MacOS(b)) => a == b,
        }
    }
}

impl vstd::std_specs::cmp::PartialEqSpecImpl for PlatformSpecific {
    open spec fn obeys_eq_spec() -> bool {
        true
    }

    open spec fn eq_spec(&self, other: &PlatformSpecific) -> bool {
        match (self, other) {
            (
                PlatformSpecific::MacOS(MacOS::ReceivedUrl(a)),
                PlatformSpecific::MacOS(MacOS::ReceivedUrl(b)),
            ) => a@ == b@,
        }
    }
}

/// A timing event that fires every frame, regardless of input. Used for animation.
///
/// Neither field is checked: that `delta_seconds` is not negative and that
/// `total_seconds` does not decrease from one tick to the next is up to the
/// host that makes the ticks.
#[derive(Debug, Clone, Copy, PartialEq)]
pub struct TickEvent<Seconds> {
    /// Seconds elapsed since last tick.
    pub delta_seconds: Seconds,
    /// Total seconds elapsed since the app was started.
    pub total_seconds: Seconds,
}

impl<Seconds> TickEvent<Seconds> {
    /// Creates a new [`TickEvent`].
    pub fn new(delta_seconds: Seconds, total_seconds: Seconds) -> (r: Self)
        ensures
            r.delta_seconds == delta_seconds,
            r.total_seconds == total_seconds,
    {
        Self { delta_seconds, total_seconds }
    }
}

/// The status of an [`Event`] after being processed.
#[derive(Debug, Clone, Copy, PartialEq, Eq, Structural)]
pub enum Status {
    /// The [`Event`] was **NOT** handled by any widget.
    Ignored,
    /// The [`Event`] was handled and processed by a widget.
    Captured,
}

/// The status of two offers taken together: captured as soon as either was.
pub open spec fn merged(a: Status, b: Status) -> Status {
    if a is Captured || b is Captured {
        Status::Captured
    } else {
        Status::Ignored
    }
}

impl Status {
    /// Merges two [`Status`] into one.
    ///
    /// `Captured` takes precedence over `Ignored`.
    pub fn merge(self, b: Self) -> (r: Self)
        ensures
            r == merged(self, b),
            r is Captured <==> (self is Captured || b is Captured),
    {
        match self {
            Status::Ignored => b,
            Status::Captured => Status::Captured,
        }
    }
}

/// The status of a whole offer: the statuses of its consumers merged in
/// sequence, starting from `Ignored`.
pub open spec fn merge_all(s: Seq<Status>) -> Status
    decreases s.len(),
{
    if s.len() == 0 {
        Status::Ignored
    } else {
        merged(merge_all(s.drop_last()), s.last())
    }
}

/// Merging is commutative, associative and idempotent.
pub proof fn lemma_merge_algebra(a: Status, b: Status, c: Status)
    ensures
        merged(a, b) == merged(b, a),
        merged(merged(a, b), c) == merged(a, merged(b, c)),
        merged(a, a) == a,
{
}

/// `Ignored` is the identity of merging and `Captured` absorbs everything.
pub proof fn lemma_merge_identity_absorbing(a: Status)
    ensures
        merged(a, Status::Ignored) == a,
        merged(a, Status::Captured) == Status::Captured,
{
}

/// Merging a sequence of statuses gives `Captured` exactly when one of them
/// is `Captured`.
pub proof fn lemma_merge_all_captured(s: Seq<Status>)
    ensures
        merge_all(s) is Captured <==> s.contains(Status::Captured),
    decreases s.len(),
{
    if s.len() > 0 {
        lemma_merge_all_captured(s.drop_last());
        let init = s.drop_last();
        if s.contains(Status::Captured) {
            let i = choose|i: int| 0 <= i < s.len() && s[i] == Status::Captured;
            if i < s.len() - 1 {
                assert(init[i] == Status::Captured);
            }
        }
        if init.contains(Status::Captured) {
            let j = choose|j: int| 0 <= j < init.len() && init[j] == Status::Captured;
            assert(s[j] == Status::Captured);
        }
    }
}

/// Merging the statuses of an offer in any order gives the same result, and
/// that result is `Captured` exactly when one of them is `Captured`.
pub proof fn lemma_merge_all_any_order(s: Seq<Status>, t: Seq<Status>)
    requires
        s.to_multiset() == t.to_multiset(),
    ensures
        merge_all(s) == merge_all(t),
        merge_all(s) is Captured <==> s.contains(Status::Captured),
{
    lemma_merge_all_captured(s);
    lemma_merge_all_captured(t);
    vstd::seq_lib::to_multiset_contains(s, Status::Captured);
    vstd::seq_lib::to_multiset_contains(t, Status::Captured);
}

} // verus!
