use vstd::prelude::*;

verus! {

/// Tells a stream of samples when its first sample is pulled.
pub struct StartAccess {
    signal_sent: bool,
}

impl StartAccess {
    /// The signal was given already.
    pub closed spec fn signal_sent(&self) -> bool {
        self.signal_sent
    }

    /// A wrapper whose stream has not been pulled from.
    pub fn new() -> (access: StartAccess)
        ensures
            !access.signal_sent(),
    {
        StartAccess { signal_sent: false }
    }

    /// Takes note of a pull. Returns whether the signal is due: on the first pull, and
    /// on no other.
    pub fn next(&mut self) -> (fire: bool)
        ensures
            fire == !old(self).signal_sent(),
            final(self).signal_sent(),
    {
        let fire = !self.signal_sent;
        self.signal_sent = true;
        fire
    }
}

} // verus!
