use vstd::prelude::*;
use std::sync::Arc;
use tokio::sync::mpsc::{Receiver, Sender};
use tokio::sync::Mutex;
use tokio_modbus::client::Context;
use crate::error::LinkError;
use crate::retry::{standard_policy, RetryPolicy, RETRY_ATTEMPTS, RETRY_BASE_DELAY_MS};
use crate::state::ConnectionState;

verus! {

#[verifier::external_type_specification]
#[verifier::external_body]
#[verifier::reject_recursive_types(T)]
pub struct ExSender<T>(Sender<T>);

#[verifier::external_type_specification]
#[verifier::external_body]
#[verifier::reject_recursive_types(T)]
pub struct ExReceiver<T>(Receiver<T>);

#[verifier::external_type_specification]
#[verifier::external_body]
#[verifier::reject_recursive_types(T)]
pub struct ExMutex<T: ?Sized>(Mutex<T>);

/// How many address changes may wait for the updater before further ones
/// are dropped.
pub const ADDRESS_QUEUE_CAPACITY: usize = 8;

/// Relies on tokio's `mpsc::channel`: a bounded channel of the given
/// capacity. It panics on a capacity of 0 or above its semaphore's
/// `MAX_PERMITS` (`usize::MAX >> 3`, that is `usize::MAX / 8`).
#[verifier::external_body]
fn address_channel(capacity: usize) -> (Sender<u8>, Receiver<u8>)
    requires
        0 < capacity <= usize::MAX / 8,
{
    tokio::sync::mpsc::channel(capacity)
}

/// Relies on tokio's `Sender::try_send`: it never waits; it queues the value,
/// or, where the channel is full or closed, drops it. The result tells which.
#[verifier::external_body]
fn offer_address(sender: &Sender<u8>, unit: u8) -> bool {
    sender.try_send(unit).is_ok()
}

/// Relies on tokio's `Mutex::new`: an unlocked async mutex around the value.
#[verifier::external_body]
fn async_mutex<T>(value: T) -> Mutex<T> {
    Mutex::new(value)
}

/// A resilient client for one remote unit: one shared connection slot,
/// repaired on failure, and a queue through which the addressed unit can be
/// changed without waiting for the slot.
pub struct RobustContext {
    pub host: String,
    pub slave: u8,
    slave_sender: Sender<u8>,
    pub ctx: Arc<Mutex<ConnectionState<Context>>>,
}

impl RobustContext {
    /// The host that every (re)connection resolves.
    pub closed spec fn host_name(self) -> Seq<char> {
        self.host@
    }

    /// The shared connection slot.
    pub closed spec fn shared_slot(self) -> Arc<Mutex<ConnectionState<Context>>> {
        self.ctx
    }

    /// The unit address that the next (re)connection targets.
    pub closed spec fn unit(self) -> u8 {
        self.slave
    }

    /// A manager for `host` (name or address with port) and unit `slave`. It
    /// starts disconnected and connects on first use. The receiving end of
    /// the address queue is handed back for the updater task to drain.
    pub fn new(host: &str, slave: u8) -> (r: (RobustContext, Receiver<u8>))
        ensures
            r.0.host_name() == host@,
            r.0.unit() == slave,
    {
        let (slave_sender, slave_receiver) = address_channel(ADDRESS_QUEUE_CAPACITY);
        let ctx = Arc::new(async_mutex(ConnectionState::not_yet_connected()));
        let name = host.to_string();
        proof { vstd::string::to_string_from_display_ensures_for_str(host, name); }
        (RobustContext { host: name, slave, slave_sender, ctx }, slave_receiver)
    }

    /// The policy for connection attempts.
    pub fn retry_strategy_connect() -> (r: RetryPolicy)
        ensures
            r == standard_policy(),
    {
        RetryPolicy { attempts: RETRY_ATTEMPTS, base_delay_ms: RETRY_BASE_DELAY_MS }
    }

    /// The policy for operation calls.
    pub fn retry_strategy_command() -> (r: RetryPolicy)
        ensures
            r == standard_policy(),
    {
        RetryPolicy { attempts: RETRY_ATTEMPTS, base_delay_ms: RETRY_BASE_DELAY_MS }
    }

    /// Changes the addressed unit without waiting, neither for the connection
    /// slot (which it leaves alone) nor for room in the queue: future
    /// (re)connections target `slave`, and the change is offered to the
    /// updater, which re-points a live link in place. Where the queue is full
    /// or the updater is gone the offered change is dropped and the result is
    /// false; the new address still holds for every future (re)connection.
    pub fn set_slave(&mut self, slave: u8) -> (queued: bool)
        ensures
            final(self).unit() == slave,
            final(self).host_name() == old(self).host_name(),
            final(self).shared_slot() == old(self).shared_slot(),
    {
        self.slave = slave;
        offer_address(&self.slave_sender, slave)
    }

    /// Repairs the connection slot with the outcome of one connection
    /// attempt, made against the manager's current unit address.
    pub fn refresh_context<H>(&self, state: &mut ConnectionState<H>, opened: Result<H, LinkError>) -> (r: Result<(), LinkError>)
        ensures
            *final(state) == ConnectionState::<H>::installed(opened, self.unit()),
            r == ConnectionState::<H>::install_result(opened),
    {
        state.install(opened, self.slave)
    }
}

} // verus!
