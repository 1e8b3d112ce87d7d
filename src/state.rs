//! The port chosen for the process: set once, then read unchanged.
use vstd::prelude::*;

verus! {

/// A cell that holds the chosen port once it has been set.
#[derive(Debug)]
pub struct PortCell {
    port: Option<u16>,
}

/// The cell after `set_once(picked)`, and the port that call returns.
pub open spec fn set_once_result(c: Option<u16>, picked: u16) -> (Option<u16>, u32) {
    match c {
        Some(p) => (Some(p), p as u32),
        None => (Some(picked), picked as u32),
    }
}

impl View for PortCell {
    type V = Option<u16>;

    closed spec fn view(&self) -> Option<u16> {
        self.port
    }
}

impl PortCell {
    /// An empty cell.
    pub fn new() -> (r: PortCell)
        ensures
            r@ is None,
    {
        PortCell { port: None }
    }

    /// Whether a port has been set.
    pub fn is_set(&self) -> (r: bool)
        ensures
            r == self@ is Some,
    {
        self.port.is_some()
    }

    /// The port, widened for callers that take 32-bit ports, once set.
    pub fn get(&self) -> (r: Option<u32>)
        ensures
            match self@ {
                Some(p) => r == Some(p as u32),
                None => r is None,
            },
    {
        match self.port {
            Some(p) => Some(p as u32),
            None => None,
        }
    }

    /// Sets the cell to `picked` unless it already holds a port, and returns
    /// the port it holds afterwards. A port once set never changes.
    pub fn set_once(&mut self, picked: u16) -> (r: u32)
        ensures
            (final(self)@, r) == set_once_result(old(self)@, picked),
    {
        match self.port {
            Some(p) => p as u32,
            None => {
                self.port = Some(picked);
                picked as u32
            },
        }
    }
}

/// Asking for the port twice gives the same port, whatever is offered the
/// second time; and the cell then holds that port for good.
pub proof fn lemma_port_stable(c: Option<u16>, first: u16, second: u16)
    ensures
        set_once_result(set_once_result(c, first).0, second).1 == set_once_result(c, first).1,
        set_once_result(set_once_result(c, first).0, second).0 == set_once_result(c, first).0,
        set_once_result(c, first).0 matches Some(p) && set_once_result(c, first).1 == p as u32,
{
}

} // verus!
