//! The error kinds shared by every fallible operation of the crate.
use vstd::prelude::*;
use vstd::std_specs::convert::FromSpecImpl;
use crate::endpoint::Binding;
use crate::endpoint::Interface;
use crate::list::PacketList;
use crate::packet::Packet;

verus! {

/// Why a conversion or a parsing step failed.
#[derive(Debug, Clone, Copy, PartialEq, Eq)]
pub enum MidiError {
    SysexInterrupted,
    InvalidStatus(u8),
    /// No message has the shape of this packet.
    BadPacket(Packet),
    NoModeForParameter,
    SysexOutOfBounds,
    InvalidCodeIndexNumber,
    InvalidCableNumber,
    InvalidChannel,
    InvalidProgram,
    InvalidNote,
    InvalidVelocity,
    InvalidInteger,
    // What the transports report
    TryFromSliceError,
    PortError,
    BufferFull,
    DroppedPacket,
}

/// `nb::Error`, what a non-blocking operation fails with: it would block,
/// or it failed for a reason of its own.
#[verifier::external_type_specification]
#[verifier::external_body]
#[verifier::reject_recursive_types(E)]
pub struct ExNbError<E>(nb::Error<E>);

/// `usb_device::UsbError`, the failures of the USB device stack.
#[verifier::external_type_specification]
#[verifier::external_body]
pub struct ExUsbError(usb_device::UsbError);

/// `core::array::TryFromSliceError`, the failure to take a slice as an
/// array of another length.
#[verifier::external_type_specification]
#[verifier::external_body]
pub struct ExTryFromSliceError(core::array::TryFromSliceError);

impl<E> FromSpecImpl<nb::Error<E>> for MidiError {
    open spec fn obeys_from_spec() -> bool {
        true
    }

    open spec fn from_spec(err: nb::Error<E>) -> MidiError {
        MidiError::PortError
    }
}

/// A port that would block, or that failed, is a port error.
impl<E> From<nb::Error<E>> for MidiError {
    fn from(_err: nb::Error<E>) -> (r: MidiError) {
        MidiError::PortError
    }
}

impl FromSpecImpl<usb_device::UsbError> for MidiError {
    open spec fn obeys_from_spec() -> bool {
        true
    }

    open spec fn from_spec(err: usb_device::UsbError) -> MidiError {
        MidiError::PortError
    }
}

/// Whatever goes wrong in the USB stack is a port error.
impl From<usb_device::UsbError> for MidiError {
    fn from(_err: usb_device::UsbError) -> (r: MidiError) {
        MidiError::PortError
    }
}

impl FromSpecImpl<core::array::TryFromSliceError> for MidiError {
    open spec fn obeys_from_spec() -> bool {
        true
    }

    open spec fn from_spec(err: core::array::TryFromSliceError) -> MidiError {
        MidiError::TryFromSliceError
    }
}

/// A slice of the wrong length for a packet.
impl From<core::array::TryFromSliceError> for MidiError {
    fn from(_err: core::array::TryFromSliceError) -> (r: MidiError) {
        MidiError::TryFromSliceError
    }
}

impl FromSpecImpl<(Binding, PacketList)> for MidiError {
    open spec fn obeys_from_spec() -> bool {
        true
    }

    open spec fn from_spec(rejected: (Binding, PacketList)) -> MidiError {
        MidiError::DroppedPacket
    }
}

/// Packets that a task queue handed back because it was full are dropped.
impl From<(Binding, PacketList)> for MidiError {
    fn from(_rejected: (Binding, PacketList)) -> (r: MidiError) {
        MidiError::DroppedPacket
    }
}

impl FromSpecImpl<(Interface, PacketList)> for MidiError {
    open spec fn obeys_from_spec() -> bool {
        true
    }

    open spec fn from_spec(rejected: (Interface, PacketList)) -> MidiError {
        MidiError::DroppedPacket
    }
}

/// Packets that a task queue handed back because it was full are dropped.
impl From<(Interface, PacketList)> for MidiError {
    fn from(_rejected: (Interface, PacketList)) -> (r: MidiError) {
        MidiError::DroppedPacket
    }
}

/// The value of a conversion that succeeded.
pub open spec fn converted<T, E>(r: Result<T, E>) -> Option<T> {
    match r {
        Ok(value) => Some(value),
        Err(_) => None,
    }
}

} // verus!
