//! Laws of the registry, stated over the subscribe-step relations.
//!
//! The step relations (`portfolio_subscribe_post`, `payments_subscribe_post`)
//! describe exactly what one subscribe does to the guarded table. Because the
//! lock serializes the steps, any interleaving of concurrent subscribers is
//! some chain of these relations; the lemmas below state what every such
//! chain guarantees.

use vstd::prelude::*;

use axum::extract::ws::Message;
use tokio::sync::broadcast;
use tokio::sync::watch;

use crate::channels::broadcast_receiver_channel;
use crate::channels::broadcast_sender_channel;
use crate::channels::watch_receiver_channel;
use crate::channels::watch_sender_channel;
use crate::keytable::UserTable;
use crate::registry::payments_subscribe_post;
use crate::registry::portfolio_subscribe_post;

verus! {

/// Law: two portfolio subscribers for the same user id — in particular two
/// concurrent first-time subscribers, whichever order the lock serializes
/// them in — obtain receivers attached to one shared channel: the channel of
/// the single sender the table ends up holding for that id.
pub proof fn lemma_portfolio_subscribers_share_channel(
    t0: UserTable<watch::Sender<()>>,
    t1: UserTable<watch::Sender<()>>,
    t2: UserTable<watch::Sender<()>>,
    k: Seq<char>,
    r1: watch::Receiver<()>,
    r2: watch::Receiver<()>,
)
    requires
        portfolio_subscribe_post(t0, t1, k, r1),
        portfolio_subscribe_post(t1, t2, k, r2),
    ensures
        t2.spec_find(k) is Some,
        watch_receiver_channel(r1) == watch_sender_channel(t2.spec_find(k).unwrap()),
        watch_receiver_channel(r2) == watch_sender_channel(t2.spec_find(k).unwrap()),
        watch_receiver_channel(r1) == watch_receiver_channel(r2),
{
}

/// Law: once a portfolio entry exists for a user id, no later subscribe —
/// for that id or any other — replaces or removes it.
pub proof fn lemma_portfolio_entry_never_replaced(
    t0: UserTable<watch::Sender<()>>,
    t1: UserTable<watch::Sender<()>>,
    k: Seq<char>,
    k2: Seq<char>,
    r: watch::Receiver<()>,
)
    requires
        portfolio_subscribe_post(t0, t1, k2, r),
        t0.spec_find(k) is Some,
    ensures
        t1.spec_find(k) == t0.spec_find(k),
{
}

/// Law: a chain of N serialized portfolio subscribes for one user id,
/// starting from a table that does not know the id, creates exactly one
/// entry: the first step adds it and every later step reuses it unchanged,
/// so every receiver in the chain shares the one channel.
pub proof fn lemma_portfolio_single_entry_under_race(
    tables: Seq<UserTable<watch::Sender<()>>>,
    receivers: Seq<watch::Receiver<()>>,
    k: Seq<char>,
)
    requires
        tables.len() == receivers.len() + 1,
        receivers.len() >= 1,
        tables[0].spec_find(k) is None,
        forall|i: int|
            0 <= i < receivers.len() ==> portfolio_subscribe_post(
                tables[i],
                tables[i + 1],
                k,
                #[trigger] receivers[i],
            ),
    ensures
        tables.last().spec_find(k) is Some,
        tables.last().len() == tables[0].len() + 1,
        forall|i: int|
            0 <= i < receivers.len() ==> watch_receiver_channel(#[trigger] receivers[i])
                == watch_sender_channel(tables.last().spec_find(k).unwrap()),
    decreases receivers.len(),
{
    let n = receivers.len() as int;
    if n == 1 {
        assert(portfolio_subscribe_post(tables[0], tables[1], k, receivers[0]));
        assert(tables.last() == tables[1]);
    } else {
        let tp = tables.take(n);
        let rp = receivers.take(n - 1);
        assert(tp[0] == tables[0]);
        assert forall|i: int|
            0 <= i < rp.len() implies portfolio_subscribe_post(
                tp[i],
                tp[i + 1],
                k,
                #[trigger] rp[i],
            ) by {
            assert(rp[i] == receivers[i]);
            assert(tp[i] == tables[i]);
            assert(tp[i + 1] == tables[i + 1]);
            assert(portfolio_subscribe_post(tables[i], tables[i + 1], k, receivers[i]));
        }
        lemma_portfolio_single_entry_under_race(tp, rp, k);
        assert(tp.last() == tables[n - 1]);
        assert(portfolio_subscribe_post(tables[n - 1], tables[n], k, receivers[n - 1]));
        assert(tables[n] == tables[n - 1]);
        assert(tables.last() == tables[n]);
        assert forall|i: int|
            0 <= i < n implies watch_receiver_channel(#[trigger] receivers[i])
                == watch_sender_channel(tables.last().spec_find(k).unwrap()) by {
            if i < n - 1 {
                assert(rp[i] == receivers[i]);
                assert(watch_receiver_channel(rp[i]) == watch_sender_channel(
                    tp.last().spec_find(k).unwrap(),
                ));
            }
        }
    }
}

/// Law: two payment subscribers for the same user id obtain receivers
/// attached to one shared channel, the payments counterpart of
/// [`lemma_portfolio_subscribers_share_channel`].
pub proof fn lemma_payments_subscribers_share_channel(
    t0: UserTable<broadcast::Sender<Message>>,
    t1: UserTable<broadcast::Sender<Message>>,
    t2: UserTable<broadcast::Sender<Message>>,
    k: Seq<char>,
    r1: broadcast::Receiver<Message>,
    r2: broadcast::Receiver<Message>,
)
    requires
        payments_subscribe_post(t0, t1, k, r1),
        payments_subscribe_post(t1, t2, k, r2),
    ensures
        t2.spec_find(k) is Some,
        broadcast_receiver_channel(r1) == broadcast_sender_channel(t2.spec_find(k).unwrap()),
        broadcast_receiver_channel(r2) == broadcast_sender_channel(t2.spec_find(k).unwrap()),
        broadcast_receiver_channel(r1) == broadcast_receiver_channel(r2),
{
}

/// Law: a chain of N serialized payment subscribes for one user id, starting
/// from a table that does not know the id, creates exactly one entry, and
/// every receiver in the chain shares the one channel; the payments
/// counterpart of [`lemma_portfolio_single_entry_under_race`].
pub proof fn lemma_payments_single_entry_under_race(
    tables: Seq<UserTable<broadcast::Sender<Message>>>,
    receivers: Seq<broadcast::Receiver<Message>>,
    k: Seq<char>,
)
    requires
        tables.len() == receivers.len() + 1,
        receivers.len() >= 1,
        tables[0].spec_find(k) is None,
        forall|i: int|
            0 <= i < receivers.len() ==> payments_subscribe_post(
                tables[i],
                tables[i + 1],
                k,
                #[trigger] receivers[i],
            ),
    ensures
        tables.last().spec_find(k) is Some,
        tables.last().len() == tables[0].len() + 1,
        forall|i: int|
            0 <= i < receivers.len() ==> broadcast_receiver_channel(#[trigger] receivers[i])
                == broadcast_sender_channel(tables.last().spec_find(k).unwrap()),
    decreases receivers.len(),
{
    let n = receivers.len() as int;
    if n == 1 {
        assert(payments_subscribe_post(tables[0], tables[1], k, receivers[0]));
        assert(tables.last() == tables[1]);
    } else {
        let tp = tables.take(n);
        let rp = receivers.take(n - 1);
        assert(tp[0] == tables[0]);
        assert forall|i: int|
            0 <= i < rp.len() implies payments_subscribe_post(
                tp[i],
                tp[i + 1],
                k,
                #[trigger] rp[i],
            ) by {
            assert(rp[i] == receivers[i]);
            assert(tp[i] == tables[i]);
            assert(tp[i + 1] == tables[i + 1]);
            assert(payments_subscribe_post(tables[i], tables[i + 1], k, receivers[i]));
        }
        lemma_payments_single_entry_under_race(tp, rp, k);
        assert(tp.last() == tables[n - 1]);
        assert(payments_subscribe_post(tables[n - 1], tables[n], k, receivers[n - 1]));
        assert(tables[n] == tables[n - 1]);
        assert(tables.last() == tables[n]);
        assert forall|i: int|
            0 <= i < n implies broadcast_receiver_channel(#[trigger] receivers[i])
                == broadcast_sender_channel(tables.last().spec_find(k).unwrap()) by {
            if i < n - 1 {
                assert(rp[i] == receivers[i]);
                assert(broadcast_receiver_channel(rp[i]) == broadcast_sender_channel(
                    tp.last().spec_find(k).unwrap(),
                ));
            }
        }
    }
}

/// Law: once a payment entry exists for a user id, no later subscribe
/// replaces or removes it.
pub proof fn lemma_payments_entry_never_replaced(
    t0: UserTable<broadcast::Sender<Message>>,
    t1: UserTable<broadcast::Sender<Message>>,
    k: Seq<char>,
    k2: Seq<char>,
    r: broadcast::Receiver<Message>,
)
    requires
        payments_subscribe_post(t0, t1, k2, r),
        t0.spec_find(k) is Some,
    ensures
        t1.spec_find(k) == t0.spec_find(k),
{
}

} // verus!
