//! The subscription registry: three channel families behind one handle.
//!
//! Each per-user family keeps its senders in a [`UserTable`] guarded by a
//! verified read/write lock whose invariant is the table's well-formedness:
//! at most one entry — hence at most one channel — per user id, however many
//! subscribers race on first access. Subscribing takes the cheap read path
//! when the entry already exists and only falls back to the write lock, with
//! a re-check, to create it; the re-check is forced by `insert_new`'s
//! precondition. Sending to an unknown user id needs only read access, so it
//! can never create an entry.
//!
//! The handle is shared between threads, so a public operation cannot promise
//! what the guarded tables hold after it returns — another caller may already
//! have changed them. The specification therefore lives on the step functions
//! that run under the lock (`portfolio_subscribe_step`,
//! `payments_subscribe_step`, `portfolio_notify_step`, `payment_send_step`):
//! the lock serializes concurrent callers into a chain of such steps, each
//! fully described by its step relation, and `laws` states what every such
//! chain guarantees.

use vstd::prelude::*;
use vstd::rwlock::RwLock;
use vstd::rwlock::RwLockPredicate;

use axum::extract::ws::Message;
use std::sync::Arc;
use tokio::sync::broadcast;
use tokio::sync::watch;

use crate::channels::broadcast_channel;
use crate::channels::broadcast_channel_capacity;
use crate::channels::broadcast_receiver_channel;
use crate::channels::broadcast_send;
use crate::channels::broadcast_sender_channel;
use crate::channels::broadcast_sender_new;
use crate::channels::broadcast_subscribe;
use crate::channels::watch_channel_unit;
use crate::channels::watch_notify;
use crate::channels::watch_receiver_channel;
use crate::channels::watch_sender_channel;
use crate::channels::watch_subscribe;
use crate::keytable::UserTable;

verus! {

/// Capacity of the single public broadcast channel.
pub const MARKETS_BROADCAST_BUFFER_SIZE: usize = 256;

/// Capacity of each per-user payment broadcast channel.
pub const PAYMENT_BROADCAST_BUFFER_SIZE: usize = 16;

/// The invariant each family's lock maintains: the table has at most one
/// entry per user id.
pub struct TableInv {}

impl<V> RwLockPredicate<UserTable<V>> for TableInv {
    open spec fn inv(self, t: UserTable<V>) -> bool {
        t.wf()
    }
}

/// Every payment sender the table holds was created with the payment channel
/// capacity.
pub open spec fn payments_capacities_ok(t: UserTable<broadcast::Sender<Message>>) -> bool {
    forall|k: Seq<char>|
        (#[trigger] t.spec_find(k)) matches Some(s) ==> broadcast_channel_capacity(
            broadcast_sender_channel(s),
        ) == PAYMENT_BROADCAST_BUFFER_SIZE as int
}

/// The payments lock maintains, besides at most one entry per user id, that
/// every stored channel has the payment capacity.
pub struct PaymentsTableInv {}

impl RwLockPredicate<UserTable<broadcast::Sender<Message>>> for PaymentsTableInv {
    open spec fn inv(self, t: UserTable<broadcast::Sender<Message>>) -> bool {
        t.wf() && payments_capacities_ok(t)
    }
}

struct SubscriptionsInner {
    /// user id -> single-slot "portfolio changed" signal sender
    portfolio: RwLock<UserTable<watch::Sender<()>>, TableInv>,
    /// the singleton channel carrying serialized public market events
    public: broadcast::Sender<Message>,
    /// user id -> broadcast sender carrying that user's serialized payment events
    payments: RwLock<UserTable<broadcast::Sender<Message>>, PaymentsTableInv>,
}

/// A cheaply cloneable handle to the shared registry; all clones reach the
/// same underlying state.
#[derive(Clone)]
pub struct Subscriptions {
    inner: Arc<SubscriptionsInner>,
}

/// How one portfolio subscribe step relates the guarded table before (`pre`)
/// and after (`post`) the step, and the receiver `r` it hands out: the key
/// ends up present; the receiver is attached to the channel of the sender the
/// table then holds under the key; an entry that already existed is reused
/// untouched, otherwise exactly one entry is added; no other key changes.
pub open spec fn portfolio_subscribe_post(
    pre: UserTable<watch::Sender<()>>,
    post: UserTable<watch::Sender<()>>,
    k: Seq<char>,
    r: watch::Receiver<()>,
) -> bool {
    &&& post.spec_find(k) is Some
    &&& watch_receiver_channel(r) == watch_sender_channel(post.spec_find(k).unwrap())
    &&& (pre.spec_find(k) is Some ==> post == pre)
    &&& (pre.spec_find(k) is None ==> post.len() == pre.len() + 1)
    &&& forall|k2: Seq<char>| k2 != k ==> post.spec_find(k2) == pre.spec_find(k2)
}

/// The payments counterpart of [`portfolio_subscribe_post`].
pub open spec fn payments_subscribe_post(
    pre: UserTable<broadcast::Sender<Message>>,
    post: UserTable<broadcast::Sender<Message>>,
    k: Seq<char>,
    r: broadcast::Receiver<Message>,
) -> bool {
    &&& post.spec_find(k) is Some
    &&& broadcast_receiver_channel(r) == broadcast_sender_channel(post.spec_find(k).unwrap())
    &&& (pre.spec_find(k) is Some ==> post == pre)
    &&& (pre.spec_find(k) is None ==> post.len() == pre.len() + 1)
    &&& forall|k2: Seq<char>| k2 != k ==> post.spec_find(k2) == pre.spec_find(k2)
}

/// One portfolio subscribe step on the guarded table: reuse the existing
/// entry or create the one entry this key will ever have.
pub fn portfolio_subscribe_step(
    table: &mut UserTable<watch::Sender<()>>,
    user_id: &str,
) -> (r: watch::Receiver<()>)
    requires
        old(table).wf(),
    ensures
        final(table).wf(),
        portfolio_subscribe_post(*old(table), *final(table), user_id@, r),
{
    if let Some(sender) = table.find(user_id) {
        return watch_subscribe(sender);
    }
    let (sender, receiver) = watch_channel_unit();
    table.insert_new(user_id, sender);
    receiver
}

/// One payments subscribe step on the guarded table; a channel it creates
/// has the payment capacity, so the capacity invariant is kept and the
/// returned receiver's channel has it too.
pub fn payments_subscribe_step(
    table: &mut UserTable<broadcast::Sender<Message>>,
    user_id: &str,
) -> (r: broadcast::Receiver<Message>)
    requires
        old(table).wf(),
        payments_capacities_ok(*old(table)),
    ensures
        final(table).wf(),
        payments_capacities_ok(*final(table)),
        payments_subscribe_post(*old(table), *final(table), user_id@, r),
        broadcast_channel_capacity(broadcast_receiver_channel(r)) == PAYMENT_BROADCAST_BUFFER_SIZE
            as int,
{
    if let Some(sender) = table.find(user_id) {
        return broadcast_subscribe(sender);
    }
    let (sender, receiver) = broadcast_channel(PAYMENT_BROADCAST_BUFFER_SIZE);
    table.insert_new(user_id, sender);
    receiver
}

/// Signals the portfolio entry for the user id, if one exists. Needs only
/// shared access, so it can neither create nor change an entry; the result
/// says whether an entry was there to signal.
pub fn portfolio_notify_step(table: &UserTable<watch::Sender<()>>, user_id: &str) -> (signaled:
    bool)
    ensures
        signaled == (table.spec_find(user_id@) is Some),
{
    if let Some(sender) = table.find(user_id) {
        watch_notify(sender);
        true
    } else {
        false
    }
}

/// Broadcasts a payment payload to the entry for the user id, if one exists.
/// Needs only shared access, so it can neither create nor change an entry;
/// the result says whether an entry was there to send to.
pub fn payment_send_step(
    table: &UserTable<broadcast::Sender<Message>>,
    user_id: &str,
    data: Message,
) -> (sent: bool)
    ensures
        sent == (table.spec_find(user_id@) is Some),
{
    if let Some(sender) = table.find(user_id) {
        broadcast_send(sender, data);
        true
    } else {
        false
    }
}

impl Subscriptions {
    /// The identity of the singleton public channel of this registry.
    pub closed spec fn public_channel(&self) -> int {
        broadcast_sender_channel(self.inner.public)
    }

    /// The capacity of the singleton public channel.
    pub open spec fn public_capacity(&self) -> int {
        broadcast_channel_capacity(self.public_channel())
    }

    /// A fresh registry: empty portfolio and payment tables, and a newly
    /// created public broadcast channel with the public capacity.
    pub fn new() -> (r: Self)
        ensures
            r.public_capacity() == MARKETS_BROADCAST_BUFFER_SIZE as int,
    {
        let public = broadcast_sender_new(MARKETS_BROADCAST_BUFFER_SIZE);
        let portfolio = RwLock::new(UserTable::new(), Ghost(TableInv {}));
        let payments = RwLock::new(UserTable::new(), Ghost(PaymentsTableInv {}));
        Subscriptions { inner: Arc::new(SubscriptionsInner { portfolio, public, payments }) }
    }

    /// Returns a receiver observing the "portfolio changed" signal for the
    /// user id, creating the per-user entry on first subscription. The fast
    /// path only reads; creation re-checks under the write lock, so two
    /// racing first subscribers still end up sharing one entry.
    pub fn subscribe_portfolio(&self, user_id: &str) -> watch::Receiver<()> {
        let read_handle = self.inner.portfolio.acquire_read();
        let existing = match read_handle.borrow().find(user_id) {
            Some(sender) => Some(watch_subscribe(sender)),
            None => None,
        };
        read_handle.release_read();
        match existing {
            Some(receiver) => receiver,
            None => {
                let (mut table, write_handle) = self.inner.portfolio.acquire_write();
                let receiver = portfolio_subscribe_step(&mut table, user_id);
                write_handle.release_write(table);
                receiver
            },
        }
    }

    /// Signals "your portfolio may have changed" to the user's subscribers.
    /// A silent no-op when the user id has no entry: only read access is
    /// taken, so no entry can come into being.
    pub fn notify_user_portfolio(&self, user_id: &str) {
        let read_handle = self.inner.portfolio.acquire_read();
        portfolio_notify_step(read_handle.borrow(), user_id);
        read_handle.release_read();
    }

    /// Returns a new receiver attached to the singleton public channel; it
    /// observes only messages sent after this call.
    pub fn subscribe_public(&self) -> (r: broadcast::Receiver<Message>)
        ensures
            broadcast_receiver_channel(r) == self.public_channel(),
    {
        broadcast_subscribe(&self.inner.public)
    }

    /// Broadcasts an opaque payload to every current public subscriber;
    /// never blocks and never fails, whatever the receiver count.
    pub fn send_public(&self, data: Message) {
        broadcast_send(&self.inner.public, data);
    }

    /// Returns a receiver for the user's payment events — its channel has
    /// the payment capacity — creating the per-user entry on first
    /// subscription, with the same double-checked protocol as the portfolio
    /// family.
    pub fn subscribe_payments(&self, user_id: &str) -> (r: broadcast::Receiver<Message>)
        ensures
            broadcast_channel_capacity(broadcast_receiver_channel(r))
                == PAYMENT_BROADCAST_BUFFER_SIZE as int,
    {
        let read_handle = self.inner.payments.acquire_read();
        let existing = match read_handle.borrow().find(user_id) {
            Some(sender) => Some(broadcast_subscribe(sender)),
            None => None,
        };
        read_handle.release_read();
        match existing {
            Some(receiver) => receiver,
            None => {
                let (mut table, write_handle) = self.inner.payments.acquire_write();
                let receiver = payments_subscribe_step(&mut table, user_id);
                write_handle.release_write(table);
                receiver
            },
        }
    }

    /// Broadcasts an opaque payment payload to the user's subscribers. A
    /// silent no-op when the user id has no entry: only read access is
    /// taken, so no entry can come into being.
    pub fn send_payment(&self, user_id: &str, data: Message) {
        let read_handle = self.inner.payments.acquire_read();
        payment_send_step(read_handle.borrow(), user_id, data);
        read_handle.release_read();
    }
}

impl Default for Subscriptions {
    /// Same as [`Subscriptions::new`].
    fn default() -> (s: Self)
        ensures
            s.public_capacity() == MARKETS_BROADCAST_BUFFER_SIZE as int,
    {
        Subscriptions::new()
    }
}

} // verus!
