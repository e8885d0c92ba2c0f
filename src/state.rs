use vstd::prelude::*;
use crate::error::LinkError;
use crate::retry::{attempt_cap, standard_policy};

verus! {

/// Something that can be re-pointed at another unit address in place.
pub trait UnitTarget {
    /// The unit address that the requests made through it go to.
    spec fn addressed(&self) -> u8;

    fn set_unit(&mut self, unit: u8)
        ensures
            final(self).addressed() == unit,
    ;
}

#[verifier::external_type_specification]
#[verifier::external_body]
pub struct ExContext(tokio_modbus::client::Context);

/// The unit id that a tokio-modbus client context puts in its requests.
pub uninterp spec fn context_unit(c: tokio_modbus::client::Context) -> u8;

/// Relies on `SlaveContext::set_slave` of tokio-modbus's client context: it
/// stores the unit id that the requests which follow carry.
#[verifier::external_body]
fn context_set_slave(ctx: &mut tokio_modbus::client::Context, unit: u8)
    ensures
        context_unit(*final(ctx)) == unit,
{
    tokio_modbus::slave::SlaveContext::set_slave(ctx, tokio_modbus::slave::Slave(unit))
}

impl UnitTarget for tokio_modbus::client::Context {
    open spec fn addressed(&self) -> u8 {
        context_unit(*self)
    }

    fn set_unit(&mut self, unit: u8) {
        context_set_slave(self, unit)
    }
}

/// A live transport handle together with the unit address it targets.
#[derive(Debug)]
pub struct Link<H> {
    pub handle: H,
    pub unit: u8,
}

/// The single connection slot: either a live link, or the error that explains
/// why there is none. Being an enum, it is always exactly one of the two.
#[derive(Debug)]
pub enum ConnectionState<H> {
    Connected(Link<H>),
    Disconnected(LinkError),
}

impl<H> ConnectionState<H> {
    /// The initial state of every manager.
    pub fn not_yet_connected() -> (r: Self)
        ensures
            r == ConnectionState::<H>::Disconnected(LinkError::NotYetConnected),
    {
        ConnectionState::Disconnected(LinkError::NotYetConnected)
    }

    pub fn is_connected(&self) -> (r: bool)
        ensures
            r == (self is Connected),
    {
        match self {
            ConnectionState::Connected(_) => true,
            ConnectionState::Disconnected(_) => false,
        }
    }

    /// The stored error, if the slot holds no live link.
    pub fn fault(&self) -> (r: Option<LinkError>)
        ensures
            r == self.stored_error(),
    {
        match self {
            ConnectionState::Connected(_) => None,
            ConnectionState::Disconnected(e) => Some(*e),
        }
    }

    /// The unit address that the live link targets, if there is one.
    pub open spec fn target(self) -> Option<u8> {
        match self {
            ConnectionState::Connected(l) => Some(l.unit),
            ConnectionState::Disconnected(_) => None,
        }
    }

    pub fn unit(&self) -> (r: Option<u8>)
        ensures
            r == self.target(),
    {
        match self {
            ConnectionState::Connected(l) => Some(l.unit),
            ConnectionState::Disconnected(_) => None,
        }
    }

    /// Access to the live handle for one protocol call; where there is none,
    /// the stored error, so that the call fails without any I/O.
    pub fn live_handle(&mut self) -> (r: Result<&mut H, LinkError>)
        ensures
            match *old(self) {
                ConnectionState::Connected(l) => r is Ok && *r->Ok_0 == l.handle
                    && *final(self) == (ConnectionState::Connected(Link { handle: *final(r->Ok_0), unit: l.unit })),
                ConnectionState::Disconnected(e) => r == Err::<&mut H, LinkError>(e) && *final(self) == *old(self),
            },
    {
        match self {
            ConnectionState::Connected(l) => Ok(&mut l.handle),
            ConnectionState::Disconnected(e) => Err(*e),
        }
    }

    /// The slot after installing the outcome of a connection attempt.
    pub open spec fn installed(opened: Result<H, LinkError>, unit: u8) -> Self {
        match opened {
            Ok(h) => ConnectionState::Connected(Link { handle: h, unit }),
            Err(e) => ConnectionState::Disconnected(e),
        }
    }

    /// What installing the outcome of a connection attempt reports.
    pub open spec fn install_result(opened: Result<H, LinkError>) -> Result<(), LinkError> {
        match opened {
            Ok(_) => Ok(()),
            Err(e) => Err(e),
        }
    }

    /// What an attempt finds in the slot: `None` where it reaches a live
    /// handle, else the error with which it fails without any I/O.
    pub open spec fn stored_error(self) -> Option<LinkError> {
        match self {
            ConnectionState::Connected(_) => None,
            ConnectionState::Disconnected(e) => Some(e),
        }
    }

    /// Installs the outcome of a connection attempt, replacing whatever the
    /// slot held: the new link on success, the error otherwise.
    pub fn install(&mut self, opened: Result<H, LinkError>, unit: u8) -> (r: Result<(), LinkError>)
        ensures
            *final(self) == Self::installed(opened, unit),
            r == ConnectionState::<H>::install_result(opened),
    {
        match opened {
            Ok(h) => {
                *self = ConnectionState::Connected(Link { handle: h, unit });
                Ok(())
            },
            Err(e) => {
                *self = ConnectionState::Disconnected(e);
                Err(e)
            },
        }
    }
}

impl<H: UnitTarget> ConnectionState<H> {
    /// Re-points a live link at another unit address without reconnecting:
    /// the link's handle itself is re-addressed, and stays the live one.
    /// Without a live link nothing changes and the stored error is returned:
    /// the new address then takes effect at the next reconnection.
    pub fn retarget(&mut self, unit: u8) -> (r: Result<(), LinkError>)
        ensures
            match *old(self) {
                ConnectionState::Connected(_) => r is Ok
                    && *final(self) is Connected
                    && final(self)->Connected_0.unit == unit
                    && final(self)->Connected_0.handle.addressed() == unit,
                ConnectionState::Disconnected(e) => r == Err::<(), LinkError>(e) && *final(self) == *old(self),
            },
    {
        match self {
            ConnectionState::Connected(l) => {
                l.handle.set_unit(unit);
                l.unit = unit;
                Ok(())
            },
            ConnectionState::Disconnected(e) => Err(*e),
        }
    }
}

/// The slot is always exactly one of connected and disconnected.
pub proof fn lemma_exactly_one_state<H>(s: ConnectionState<H>)
    ensures
        (s is Connected) != (s is Disconnected),
        (s.stored_error() is None) == (s is Connected),
{
}

/// Recovery: an attempt that finds the slot disconnected fails with the
/// stored error, without I/O, and triggers a reconnection. Under the standard
/// policy that first failure leaves attempts to spare, and once the
/// reconnection installs a live link the slot holds no error and targets the
/// given unit, so the next attempt reaches the new handle.
pub proof fn lemma_recovery<H>(s: ConnectionState<H>, h: H, unit: u8)
    requires
        s is Disconnected,
    ensures
        s.stored_error() is Some,
        1 < attempt_cap(standard_policy()),
        ConnectionState::<H>::installed(Ok(h), unit) is Connected,
        ConnectionState::<H>::installed(Ok(h), unit).stored_error() is None,
        ConnectionState::<H>::installed(Ok(h), unit).target() == Some(unit),
{
}

} // verus!
