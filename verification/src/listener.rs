//! The same address model under the names `Duplex*`.

use vstd::prelude::*;
use crate::dual::{AddrError, DualAddr, DualAddrView, SockAddr, UdsAddr, addr_result_view};

verus! {

/// An address that is either a TCP socket address or a Unix socket address.
pub type DuplexAddr = DualAddr;

/// Conversion of a value into the address that a listener binds.
pub trait ToDuplexAddr {
    /// The address this value names.
    fn to_duplex_addr(&self) -> Result<DuplexAddr, AddrError>;
}

impl ToDuplexAddr for SockAddr {
    fn to_duplex_addr(&self) -> (r: Result<DuplexAddr, AddrError>)
        ensures
            addr_result_view(r) == Ok::<DualAddrView, AddrError>(DualAddrView::Tcp(*self)),
    {
        Ok(DualAddr::Tcp(*self))
    }
}

impl ToDuplexAddr for UdsAddr {
    fn to_duplex_addr(&self) -> (r: Result<DuplexAddr, AddrError>)
        ensures
            addr_result_view(r) == Ok::<DualAddrView, AddrError>(DualAddrView::Uds(self@)),
    {
        Ok(DualAddr::Uds(self.clone()))
    }
}

impl ToDuplexAddr for DualAddr {
    fn to_duplex_addr(&self) -> (r: Result<DuplexAddr, AddrError>)
        ensures
            addr_result_view(r) == Ok::<DualAddrView, AddrError>(self@),
    {
        Ok(self.clone())
    }
}

} // verus!
