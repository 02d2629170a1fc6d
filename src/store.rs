use vstd::prelude::*;
use tokio::sync::watch;

verus! {

#[verifier::external_type_specification]
#[verifier::external_body]
#[verifier::reject_recursive_types(T)]
pub struct ExWatchSender<T>(watch::Sender<T>);

#[verifier::external_type_specification]
#[verifier::external_body]
#[verifier::reject_recursive_types(T)]
pub struct ExWatchReceiver<T>(watch::Receiver<T>);

/// Relies on tokio's `watch::Sender::new`: a wake-up signal with no receiver yet.
#[verifier::external_body]
fn new_signal() -> watch::Sender<u64> {
    watch::Sender::new(0)
}

/// Relies on tokio's `watch::Sender::send_replace`: stores the generation and
/// wakes every receiver, whether or not any exists.
#[verifier::external_body]
fn raise_signal(signal: &watch::Sender<u64>, generation: u64) {
    signal.send_replace(generation);
}

/// Relies on tokio's `watch::Sender::subscribe`: a receiver woken by every
/// later raise of the signal.
#[verifier::external_body]
fn listen(signal: &watch::Sender<u64>) -> watch::Receiver<u64> {
    signal.subscribe()
}

/// What a reader of the store learns when it looks at it: a value, nothing yet,
/// or that the store was closed and nothing more will come.
pub enum Update {
    Ready(Vec<u8>),
    Pending,
    Closed,
}

/// The model of an `Update`: `Some(Some(b))` for a value, `Some(None)` while
/// waiting, `None` once closed.
pub open spec fn update_model(u: Update) -> Option<Option<Seq<u8>>> {
    match u {
        Update::Ready(b) => Some(Some(b@)),
        Update::Pending => Some(None),
        Update::Closed => None,
    }
}

/// The single slot that holds the current artifact, with the number of
/// publishes so far as its generation, and a signal raised on each publish and
/// on closing, which wakes whoever waits for a change.
///
/// Its model is the sequence of every artifact published, oldest first, and
/// whether the store was closed. Version `k` (from 1) is `published()[k - 1]`.
pub struct ArtifactStore {
    current: Option<Vec<u8>>,
    version: u64,
    closed: bool,
    signal: watch::Sender<u64>,
    history: Ghost<Seq<Seq<u8>>>,
}

/// The latest artifact of a history, if any.
pub open spec fn latest_of(published: Seq<Seq<u8>>) -> Option<Seq<u8>> {
    if published.len() == 0 {
        None
    } else {
        Some(published.last())
    }
}

impl ArtifactStore {
    pub closed spec fn published(&self) -> Seq<Seq<u8>> {
        self.history@
    }

    pub closed spec fn is_closed(&self) -> bool {
        self.closed
    }

    /// The generation of the current value: the number of publishes.
    pub open spec fn version(&self) -> nat {
        self.published().len()
    }

    pub open spec fn latest(&self) -> Option<Seq<u8>> {
        latest_of(self.published())
    }

    pub closed spec fn wf(&self) -> bool {
        &&& self.version as nat == self.history@.len()
        &&& match self.current {
            None => self.history@.len() == 0,
            Some(b) => self.history@.len() > 0 && b@ == self.history@.last(),
        }
    }

    /// An open store that holds no artifact yet.
    pub fn new() -> (r: Self)
        ensures
            r.wf(),
            r.published() == Seq::<Seq<u8>>::empty(),
            !r.is_closed(),
    {
        ArtifactStore {
            current: None,
            version: 0,
            closed: false,
            signal: new_signal(),
            history: Ghost(Seq::empty()),
        }
    }

    /// The number of publishes so far.
    pub fn current_version(&self) -> (r: u64)
        requires
            self.wf(),
        ensures
            r as nat == self.version(),
    {
        self.version
    }

    /// A copy of the current artifact, if one was ever published.
    pub fn current(&self) -> (r: Option<Vec<u8>>)
        requires
            self.wf(),
        ensures
            r matches Some(b) ==> self.latest() == Some(b@),
            r is None ==> self.latest() is None,
    {
        match &self.current {
            Some(b) => Some(b.clone()),
            None => None,
        }
    }

    pub fn closed(&self) -> (r: bool)
        requires
            self.wf(),
        ensures
            r == self.is_closed(),
    {
        self.closed
    }

    /// Replaces the current artifact and moves to the next generation.
    pub fn publish(&mut self, bytes: Vec<u8>)
        requires
            old(self).wf(),
            !old(self).is_closed(),
            old(self).version() < u64::MAX,
        ensures
            final(self).wf(),
            final(self).published() == old(self).published().push(bytes@),
            !final(self).is_closed(),
    {
        let ghost b = bytes@;
        self.current = Some(bytes);
        self.version = self.version + 1;
        self.history = Ghost(self.history@.push(b));
        raise_signal(&self.signal, self.version);
    }

    /// Marks the store closed: waiters that find no value are released.
    pub fn close(&mut self)
        requires
            old(self).wf(),
        ensures
            final(self).wf(),
            final(self).published() == old(self).published(),
            final(self).is_closed(),
    {
        self.closed = true;
        raise_signal(&self.signal, self.version);
    }

    /// A receiver woken by every later publish and by closing. Take it before
    /// looking at the store, then wait on it while the look gives `Pending`.
    pub fn wake_signal(&self) -> (r: watch::Receiver<u64>)
        requires
            self.wf(),
    {
        listen(&self.signal)
    }

    /// A new subscription that has seen nothing yet: its first `changed` yields
    /// the current artifact at once when there is one.
    pub fn subscribe(&self) -> (r: Subscription)
        requires
            self.wf(),
        ensures
            r.seen() == 0,
    {
        Subscription { seen: 0 }
    }

    /// The current artifact if there is one; otherwise `Pending` while the store
    /// is open and `Closed` once it is closed.
    pub fn current_or_wait(&self) -> (r: Update)
        requires
            self.wf(),
        ensures
            update_model(r) == current_or_wait_spec(self.latest(), self.is_closed()),
    {
        match &self.current {
            Some(b) => Update::Ready(b.clone()),
            None => if self.closed {
                Update::Closed
            } else {
                Update::Pending
            },
        }
    }
}

pub open spec fn current_or_wait_spec(latest: Option<Seq<u8>>, closed: bool) -> Option<Option<Seq<u8>>> {
    match latest {
        Some(b) => Some(Some(b)),
        None => if closed {
            None
        } else {
            Some(None)
        },
    }
}

/// One observer's interest in the values of a store: the generation it has
/// seen last.
pub struct Subscription {
    seen: u64,
}

/// What waiting on a subscription that has seen `seen` gives: the latest value
/// when there is a newer generation, else nothing while open, else the end.
pub open spec fn changed_spec(seen: nat, published: Seq<Seq<u8>>, closed: bool) -> Option<Option<Seq<u8>>> {
    if seen < published.len() {
        Some(Some(published.last()))
    } else if closed {
        None
    } else {
        Some(None)
    }
}

impl Subscription {
    pub closed spec fn seen(&self) -> nat {
        self.seen as nat
    }

    /// The value that the subscription holds now, without waiting: the store's
    /// latest artifact.
    pub fn borrow(&self, store: &ArtifactStore) -> (r: Option<Vec<u8>>)
        requires
            store.wf(),
        ensures
            r matches Some(b) ==> store.latest() == Some(b@),
            r is None ==> store.latest() is None,
    {
        store.current()
    }

    /// Takes the latest value if a generation newer than the one seen was
    /// published, and marks it seen. Skipped generations are not replayed.
    pub fn changed(&mut self, store: &ArtifactStore) -> (r: Update)
        requires
            store.wf(),
            old(self).seen() <= store.version(),
        ensures
            update_model(r) == changed_spec(old(self).seen(), store.published(), store.is_closed()),
            final(self).seen() == if old(self).seen() < store.version() {
                store.version()
            } else {
                old(self).seen()
            },
            final(self).seen() <= store.version(),
    {
        if self.seen < store.version {
            self.seen = store.version;
            match &store.current {
                Some(b) => Update::Ready(b.clone()),
                None => Update::Pending,
            }
        } else if store.closed {
            Update::Closed
        } else {
            Update::Pending
        }
    }
}

} // verus!
