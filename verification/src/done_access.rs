use vstd::prelude::*;

verus! {

/// Tells a stream of samples when it has come to its end.
pub struct DoneAccess {
    signal_sent: bool,
}

impl DoneAccess {
    /// The signal was given already.
    pub closed spec fn signal_sent(&self) -> bool {
        self.signal_sent
    }

    /// A wrapper whose stream has not ended.
    pub fn new() -> (access: DoneAccess)
        ensures
            !access.signal_sent(),
    {
        DoneAccess { signal_sent: false }
    }

    /// Takes note of a pull that gave a sample or, with `exhausted`, none. Returns
    /// whether the signal is due: on the first pull that gave none, and on no other.
    pub fn next(&mut self, exhausted: bool) -> (fire: bool)
        ensures
            fire == (exhausted && !old(self).signal_sent()),
            final(self).signal_sent() == (old(self).signal_sent() || exhausted),
    {
        if !self.signal_sent && exhausted {
            self.signal_sent = true;
            true
        } else {
            false
        }
    }
}

} // verus!
