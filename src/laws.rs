use vstd::prelude::*;
use crate::refresher::{ModifiedTime, Tick, run, cycle, time_moved, publish_if_changed};
use crate::store::{ArtifactStore, Subscription, latest_of, changed_spec, current_or_wait_spec};

verus! {

/// Whether every successful read among `ticks` returned `content`.
pub open spec fn reads_only(ticks: Seq<Tick>, content: Seq<u8>) -> bool {
    forall|i: int| 0 <= i < ticks.len() ==> (#[trigger] ticks[i]).read is None || ticks[i].read == Some(content)
}

/// While the file's bytes stay those of the current artifact, no series of
/// ticks publishes anything, whatever the modification times do.
pub proof fn lemma_no_byte_change_no_publish(
    last: Option<ModifiedTime>,
    published: Seq<Seq<u8>>,
    ticks: Seq<Tick>,
    content: Seq<u8>,
)
    requires
        latest_of(published) == Some(content),
        reads_only(ticks, content),
    ensures
        run(last, published, ticks).1 == published,
    decreases ticks.len(),
{
    if ticks.len() > 0 {
        let next = cycle(last, published, ticks[0]);
        let rest = ticks.subrange(1, ticks.len() as int);
        assert(ticks[0].read is None || ticks[0].read == Some(content));
        assert(next.1 == published);
        assert forall|i: int| 0 <= i < rest.len() implies (#[trigger] rest[i]).read is None
            || rest[i].read == Some(content) by {
            assert(rest[i] == ticks[i + 1]);
        }
        lemma_no_byte_change_no_publish(next.0, next.1, rest, content);
    }
}

/// A change of the file's bytes to `content` publishes at most once however
/// many ticks follow, and exactly once when the first tick re-reads the file
/// and finds `content`.
pub proof fn lemma_single_change_publishes_once(
    last: Option<ModifiedTime>,
    published: Seq<Seq<u8>>,
    ticks: Seq<Tick>,
    content: Seq<u8>,
)
    requires
        latest_of(published) != Some(content),
        reads_only(ticks, content),
    ensures
        run(last, published, ticks).1 == published
            || run(last, published, ticks).1 == published.push(content),
        ticks.len() > 0 && time_moved(last, ticks[0].modified) && ticks[0].read == Some(content)
            ==> run(last, published, ticks).1 == published.push(content),
    decreases ticks.len(),
{
    if ticks.len() > 0 {
        let next = cycle(last, published, ticks[0]);
        let rest = ticks.subrange(1, ticks.len() as int);
        assert(ticks[0].read is None || ticks[0].read == Some(content));
        assert forall|i: int| 0 <= i < rest.len() implies (#[trigger] rest[i]).read is None
            || rest[i].read == Some(content) by {
            assert(rest[i] == ticks[i + 1]);
        }
        if next.1 == published {
            lemma_single_change_publishes_once(next.0, next.1, rest, content);
        } else {
            assert(next.1 == published.push(content));
            assert(latest_of(next.1) == Some(content));
            lemma_no_byte_change_no_publish(next.0, next.1, rest, content);
        }
    }
}

/// A subscription made before any publish waits, with no placeholder value,
/// and then yields the first artifact published.
pub proof fn lemma_early_subscription_gets_first(
    before: ArtifactStore,
    sub: Subscription,
    after: ArtifactStore,
    first: Seq<u8>,
)
    requires
        before.version() == 0,
        !before.is_closed(),
        sub.seen() == 0,
        after.published() == before.published().push(first),
    ensures
        changed_spec(sub.seen(), before.published(), before.is_closed()) == Some(None::<Seq<u8>>),
        changed_spec(sub.seen(), after.published(), after.is_closed()) == Some(Some(first)),
{
}

/// After `n > 0` publishes, a new subscription yields publish `n` on its first
/// `changed`, without waiting for another publish; its current value and the
/// one a fetch gets are publish `n` too.
pub proof fn lemma_late_subscription_sees_latest(store: ArtifactStore, sub: Subscription)
    requires
        store.version() > 0,
        sub.seen() == 0,
    ensures
        changed_spec(sub.seen(), store.published(), store.is_closed())
            == Some(Some(store.published()[store.version() - 1])),
        store.latest() == Some(store.published()[store.version() - 1]),
        current_or_wait_spec(store.latest(), store.is_closed())
            == Some(Some(store.published()[store.version() - 1])),
{
}

/// The bytes that a new version carries are the bytes that were read: every
/// subscription behind it and every fetch receive exactly them.
pub proof fn lemma_delivered_bytes_are_read_bytes(
    published: Seq<Seq<u8>>,
    read: Seq<u8>,
    seen: nat,
    closed: bool,
)
    requires
        latest_of(published) != Some(read),
        seen <= published.len(),
    ensures
        publish_if_changed(published, read).len() == published.len() + 1,
        publish_if_changed(published, read)[published.len() as int] == read,
        changed_spec(seen, publish_if_changed(published, read), closed) == Some(Some(read)),
        current_or_wait_spec(latest_of(publish_if_changed(published, read)), closed) == Some(Some(read)),
{
}

/// Every subscription woken by the same store state receives the same value,
/// the latest, however far behind each one was.
pub proof fn lemma_woken_subscribers_agree(store: ArtifactStore, first: Subscription, second: Subscription)
    requires
        first.seen() < store.version(),
        second.seen() < store.version(),
    ensures
        changed_spec(first.seen(), store.published(), store.is_closed())
            == changed_spec(second.seen(), store.published(), store.is_closed()),
        changed_spec(first.seen(), store.published(), store.is_closed()) == Some(store.latest()),
{
}

} // verus!
