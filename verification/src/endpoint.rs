//! Where a packet comes from or goes to: a physical interface and, within
//! it, a channel.
use vstd::prelude::*;
use vstd::std_specs::convert::FromSpecImpl;
use crate::channel::Channel;

verus! {

/// A physical MIDI interface of the device, by kind and number.
#[derive(Copy, Clone, Debug, Eq, PartialEq, Hash)]
pub enum Interface {
    USB(u8),
    Serial(u8),
}

/// One end of a route between interfaces.
#[derive(Copy, Clone, Debug)]
pub enum Binding {
    Src(Interface),
    Dst(Interface),
}

/// A channel of an interface.
#[derive(Copy, Clone, Debug)]
pub struct Endpoint {
    pub interface: Interface,
    pub channel: Channel,
}

impl FromSpecImpl<(Interface, Channel)> for Endpoint {
    open spec fn obeys_from_spec() -> bool {
        true
    }

    open spec fn from_spec(pa: (Interface, Channel)) -> Endpoint {
        Endpoint { interface: pa.0, channel: pa.1 }
    }
}

impl From<(Interface, Channel)> for Endpoint {
    fn from(pa: (Interface, Channel)) -> (r: Endpoint) {
        Endpoint { interface: pa.0, channel: pa.1 }
    }
}

} // verus!
