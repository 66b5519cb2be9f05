use std::collections::HashMap;
use std::hash::Hash;
use vstd::prelude::*;
use vstd::std_specs::hash::*;

verus! {

/// How long a caller waits for a reply unless it says otherwise, in milliseconds.
pub const DEFAULT_TIMEOUT_MS: u64 = 10_000;

/// What one look into the store tells a caller that waits for a message.
#[derive(Debug, PartialEq, Eq)]
pub enum Waited<V> {
    /// The message was there; it has been taken out and is the caller's now.
    Received(V),
    /// Nothing yet, and time is left: sleep until the store changes or the
    /// time runs out, then look again with what is left of it.
    Pending,
    /// Nothing, and no time is left.
    TimedOut,
}

/// Messages that have arrived and that nobody has asked for yet, by key.
///
/// The receiving side puts each message under its key; a later message with
/// the same key replaces an earlier one that was never collected. The
/// waiting side takes a message out by its key, so that each stored message
/// reaches one caller at most.
///
/// The store itself never blocks. A program that shares it between a
/// receiver and a waiter keeps it behind a lock, and sleeps on the lock's
/// change signal whenever `wait_for_message` answers `Pending`.
pub struct MessageStorage<T: Eq + Hash, V> {
    messages: HashMap<T, V>,
}

impl<T: Eq + Hash, V> View for MessageStorage<T, V> {
    type V = Map<T, V>;

    closed spec fn view(&self) -> Map<T, V> {
        self.messages@
    }
}

/// What a look for `key` with `remaining_ms` left answers on a store that holds `stored`.
pub open spec fn wait_outcome<T, V>(stored: Map<T, V>, key: T, remaining_ms: u64) -> Waited<V> {
    if stored.contains_key(key) {
        Waited::Received(stored[key])
    } else if remaining_ms > 0 {
        Waited::Pending
    } else {
        Waited::TimedOut
    }
}

/// Whether keys of type `T` can be told apart by the store: equal keys hash
/// alike, and `==` on them means that they are the same value. The integer
/// types are such keys.
pub open spec fn valid_key<T>() -> bool {
    obeys_key_model::<T>()
}

impl<T: Eq + Hash, V> MessageStorage<T, V> {
    /// A store with nothing in it.
    pub fn new() -> (storage: MessageStorage<T, V>)
        ensures
            storage@ == Map::<T, V>::empty(),
    {
        MessageStorage { messages: HashMap::new() }
    }

    /// Looks for the message under `key`, with `remaining_ms` milliseconds
    /// left to wait for it.
    ///
    /// A message that is there is removed and handed over, however little
    /// time is left. Otherwise the store stays as it is, and the answer says
    /// whether to go on waiting.
    pub fn wait_for_message(&mut self, key: T, remaining_ms: u64) -> (outcome: Waited<V>)
        requires
            valid_key::<T>(),
        ensures
            outcome == wait_outcome(old(self)@, key, remaining_ms),
            final(self)@ == old(self)@.remove(key),
    {
        match self.messages.remove(&key) {
            Some(message) => Waited::Received(message),
            None => {
                if remaining_ms > 0 {
                    Waited::Pending
                } else {
                    Waited::TimedOut
                }
            },
        }
    }

    /// Puts `message` under `key`, in place of any message that was there.
    pub fn put_message(&mut self, key: T, message: V)
        requires
            valid_key::<T>(),
        ensures
            final(self)@ == old(self)@.insert(key, message),
    {
        self.messages.insert(key, message);
    }
}

/// A message that was put into an empty store is handed to the first caller
/// that asks for its key, whatever time that caller has left, and to nobody
/// after that: the next caller finds nothing, is told to wait while it has
/// time, and times out when it has none.
pub proof fn lemma_put_then_wait_delivers_once<T, V>(key: T, message: V, first_ms: u64, second_ms: u64)
    ensures
        ({
            let stored = Map::<T, V>::empty().insert(key, message);
            let collected = stored.remove(key);
            &&& wait_outcome(stored, key, first_ms) == Waited::Received(message)
            &&& collected == Map::<T, V>::empty()
            &&& !(wait_outcome(collected, key, second_ms) is Received)
            &&& second_ms == 0 ==> wait_outcome(collected, key, second_ms) == Waited::<V>::TimedOut
            &&& second_ms > 0 ==> wait_outcome(collected, key, second_ms) == Waited::<V>::Pending
        }),
{
    let stored = Map::<T, V>::empty().insert(key, message);
    assert(stored.remove(key) =~= Map::<T, V>::empty());
}

} // verus!
