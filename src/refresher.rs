use vstd::prelude::*;
use crate::store::{ArtifactStore, latest_of};

verus! {

/// A file's modification time, as seconds and nanoseconds from the Unix epoch.
#[derive(PartialEq, Eq, Structural, Clone, Copy, Debug)]
pub struct ModifiedTime {
    pub secs: i64,
    pub nanos: u32,
}

/// Whether a tick that found `modified` (or failed to query it) must re-read the
/// file: only when a time was found and it differs from the last one observed.
pub open spec fn time_moved(last: Option<ModifiedTime>, modified: Option<ModifiedTime>) -> bool {
    modified is Some && modified != last
}

/// The history after a successful read of `bytes`: one more entry exactly when
/// the bytes differ from the latest artifact.
pub open spec fn publish_if_changed(published: Seq<Seq<u8>>, bytes: Seq<u8>) -> Seq<Seq<u8>> {
    if latest_of(published) == Some(bytes) {
        published
    } else {
        published.push(bytes)
    }
}

/// One refresh cycle: the time query's outcome, and the outcome of the read that
/// follows when the time moved (`None` for a failed read).
pub struct Tick {
    pub modified: Option<ModifiedTime>,
    pub read: Option<Seq<u8>>,
}

/// The refresher's baseline and the store's history after one cycle.
pub open spec fn cycle(last: Option<ModifiedTime>, published: Seq<Seq<u8>>, tick: Tick) -> (Option<ModifiedTime>, Seq<Seq<u8>>) {
    if time_moved(last, tick.modified) {
        (
            tick.modified,
            match tick.read {
                Some(b) => publish_if_changed(published, b),
                None => published,
            },
        )
    } else {
        (last, published)
    }
}

/// The refresher's baseline and the store's history after a series of cycles,
/// taken in order.
pub open spec fn run(last: Option<ModifiedTime>, published: Seq<Seq<u8>>, ticks: Seq<Tick>) -> (Option<ModifiedTime>, Seq<Seq<u8>>)
    decreases ticks.len(),
{
    if ticks.len() == 0 {
        (last, published)
    } else {
        let next = cycle(last, published, ticks[0]);
        run(next.0, next.1, ticks.subrange(1, ticks.len() as int))
    }
}

/// The single writer of the artifact store. It remembers the modification time
/// seen last, so that a tick re-reads the file only when that time moved.
pub struct PdfReader {
    pub current_modified_time: Option<ModifiedTime>,
}

impl PdfReader {
    /// A reader that has observed no modification time yet.
    pub fn new() -> (r: Self)
        ensures
            r.current_modified_time is None,
    {
        PdfReader { current_modified_time: None }
    }

    /// Publishes freshly read bytes unless they equal the current artifact.
    /// Returns whether a publish happened.
    pub fn try_read_pdf(&self, store: &mut ArtifactStore, new_bytes: Vec<u8>) -> (changed: bool)
        requires
            old(store).wf(),
            !old(store).is_closed(),
            old(store).version() < u64::MAX,
        ensures
            final(store).wf(),
            !final(store).is_closed(),
            changed == (old(store).latest() != Some(new_bytes@)),
            final(store).published() == publish_if_changed(old(store).published(), new_bytes@),
    {
        let changed = match store.current() {
            Some(cur) => !bytes_equal(&cur, &new_bytes),
            None => true,
        };
        if changed {
            store.publish(new_bytes);
        }
        changed
    }

    /// The unconditional read at startup: publishes what was read, if the read
    /// succeeded and differs from the current artifact. The baseline time is
    /// left as it is.
    pub fn init(&self, store: &mut ArtifactStore, read: Option<Vec<u8>>) -> (changed: bool)
        requires
            old(store).wf(),
            !old(store).is_closed(),
            old(store).version() < u64::MAX,
        ensures
            final(store).wf(),
            !final(store).is_closed(),
            final(store).published() == match read {
                Some(b) => publish_if_changed(old(store).published(), b@),
                None => old(store).published(),
            },
            changed == (final(store).published() != old(store).published()),
    {
        match read {
            Some(b) => {
                let changed = self.try_read_pdf(store, b);
                proof {
                    if changed {
                        assert(store.published().len() != old(store).published().len());
                    }
                }
                changed
            },
            None => false,
        }
    }

    /// Handles a tick, given the outcome of querying the file's modification
    /// time (`None` when it failed). Returns whether the file must be re-read;
    /// when it must, the new time becomes the baseline.
    pub fn handle_cast(&mut self, modified: Option<ModifiedTime>) -> (must_read: bool)
        ensures
            must_read == time_moved(old(self).current_modified_time, modified),
            final(self).current_modified_time == if must_read {
                modified
            } else {
                old(self).current_modified_time
            },
    {
        match modified {
            Some(t) => {
                let same = match self.current_modified_time {
                    Some(c) => c == t,
                    None => false,
                };
                if same {
                    false
                } else {
                    self.current_modified_time = Some(t);
                    true
                }
            },
            None => false,
        }
    }
}

/// Exact byte-for-byte equality.
pub fn bytes_equal(a: &Vec<u8>, b: &Vec<u8>) -> (r: bool)
    ensures
        r == (a@ == b@),
{
    if a.len() != b.len() {
        return false;
    }
    let mut i: usize = 0;
    while i < a.len()
        invariant
            a@.len() == b@.len(),
            0 <= i <= a@.len(),
            forall|j: int| 0 <= j < i ==> a@[j] == b@[j],
        decreases a@.len() - i,
    {
        if a[i] != b[i] {
            return false;
        }
        i = i + 1;
    }
    assert(a@ =~= b@);
    true
}

} // verus!
