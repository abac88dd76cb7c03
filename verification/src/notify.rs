//! The caller-supplied notification mechanism.

use vstd::prelude::*;
use crate::fill::chunk_views;

verus! {

/// A sink for the status messages that the range-fetch operation emits on
/// its success path. The host implements this to route each message to its
/// own callback mechanism; `history` is the list of messages received so
/// far, oldest first.
pub trait Notifier {
    /// The messages received so far, oldest first.
    spec fn history(&self) -> Seq<Seq<u8>>;

    /// Delivers one status message, synchronously.
    fn notify(&mut self, message: Vec<u8>)
        ensures
            final(self).history() == old(self).history().push(message@),
    ;
}

/// A notifier that simply records every message it receives.
pub struct RecordingNotifier {
    messages: Vec<Vec<u8>>,
}

impl RecordingNotifier {
    /// A notifier with an empty history.
    pub fn new() -> (r: RecordingNotifier)
        ensures
            r.history() == Seq::<Seq<u8>>::empty(),
    {
        let r = RecordingNotifier { messages: Vec::new() };
        proof {
            assert(r.history() =~= Seq::<Seq<u8>>::empty());
        }
        r
    }

    /// How many messages have been received.
    pub fn count(&self) -> (n: usize)
        ensures
            n == self.history().len(),
    {
        self.messages.len()
    }

    /// The `i`-th message received, oldest first.
    pub fn message_at(&self, i: usize) -> (m: &Vec<u8>)
        requires
            i < self.history().len(),
        ensures
            m@ == self.history()[i as int],
    {
        &self.messages[i]
    }
}

impl Notifier for RecordingNotifier {
    closed spec fn history(&self) -> Seq<Seq<u8>> {
        chunk_views(self.messages@)
    }

    fn notify(&mut self, message: Vec<u8>) {
        let ghost m = message@;
        self.messages.push(message);
        proof {
            assert(self.history() =~= old(self).history().push(m));
        }
    }
}

} // verus!
