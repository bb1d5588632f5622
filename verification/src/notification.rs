use vstd::prelude::*;

verus! {

/// Notification settings for the audio engine's housekeeping callbacks:
/// `true` means each event is printed, `false` keeps them quiet. The
/// engine-facing handler lives outside the verified core and consults this
/// flag before printing.
#[derive(Clone, Copy, Debug, PartialEq, Eq, Structural)]
pub struct Notifications(pub bool);

impl Notifications {
    /// Whether events should be printed.
    pub fn verbose(&self) -> (r: bool)
        ensures
            r == self.0,
    {
        self.0
    }
}

} // verus!
