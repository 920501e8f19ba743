use midi::Binding;
use midi::Channel;
use midi::Endpoint;
use midi::Interface;
use midi::MidiError;
use midi::Packet;
use midi::PacketList;
use midi::Receive;
use midi::Transmit;

fn numbered(n: u8) -> Packet {
    Packet::from_raw([0x09, 0x90, n, 0x7F])
}

#[test]
fn a_list_of_one_packet() {
    let list = PacketList::single(numbered(7));
    assert_eq!(list.len(), 1);
    assert_eq!(list[0], numbered(7));
}

#[test]
fn an_empty_list_by_default() {
    let list = PacketList::default();
    assert_eq!(list.len(), 0);
    assert!(list.is_empty());
}

#[test]
fn a_list_collects_what_an_iterator_gives() {
    let list = PacketList::from_iter((0u8..5).map(numbered));
    assert_eq!(list.len(), 5);
    for i in 0u8..5 {
        assert_eq!(list[i as usize], numbered(i));
    }
    let none = PacketList::from_iter(std::iter::empty());
    assert_eq!(none.len(), 0);
}

#[test]
fn a_list_keeps_the_first_sixteen_packets() {
    let list = PacketList::from_iter((0u8..16).map(numbered));
    assert_eq!(list.len(), 16);
    let list = PacketList::from_iter((0u8..40).map(numbered));
    assert_eq!(list.len(), 16);
    for i in 0u8..16 {
        assert_eq!(list[i as usize], numbered(i));
    }
}

#[test]
fn a_clone_holds_the_same_packets() {
    let list = PacketList::from_iter((0u8..3).map(numbered));
    let copy = list.clone();
    assert_eq!(copy.len(), 3);
    assert_eq!(copy[0], numbered(0));
    assert_eq!(copy[1], numbered(1));
    assert_eq!(copy[2], numbered(2));
}

#[test]
fn a_list_can_be_changed_through_its_vector() {
    let mut list = PacketList::single(numbered(1));
    assert!(list.push(numbered(2)).is_ok());
    assert_eq!(list.len(), 2);
    assert_eq!(list[1], numbered(2));
}

#[test]
fn an_endpoint_from_its_parts() {
    let e = Endpoint::from((Interface::Serial(2), Channel(3)));
    assert_eq!(e.interface, Interface::Serial(2));
    assert_eq!(e.channel, Channel(3));
    let e = Endpoint::from((Interface::USB(0), Channel(15)));
    assert_eq!(e.interface, Interface::USB(0));
    assert_eq!(e.channel, Channel(15));
}

#[test]
fn transport_failures_become_errors_of_the_crate() {
    assert_eq!(MidiError::from(nb::Error::Other(5u8)), MidiError::PortError);
    assert_eq!(MidiError::from(nb::Error::<u8>::WouldBlock), MidiError::PortError);
    assert_eq!(MidiError::from(usb_device::UsbError::WouldBlock), MidiError::PortError);
    assert_eq!(MidiError::from(usb_device::UsbError::BufferOverflow), MidiError::PortError);
    let short: Result<[u8; 4], _> = <[u8; 4]>::try_from(&[1u8, 2, 3][..]);
    assert_eq!(MidiError::from(short.unwrap_err()), MidiError::TryFromSliceError);
    let list = PacketList::single(numbered(1));
    assert_eq!(MidiError::from((Interface::USB(1), list.clone())), MidiError::DroppedPacket);
    assert_eq!(MidiError::from((Binding::Dst(Interface::Serial(1)), list)), MidiError::DroppedPacket);
}

struct Loopback {
    held: Option<Packet>,
}

impl Transmit for Loopback {
    fn transmit(&mut self, event: PacketList) -> Result<(), MidiError> {
        match event.first() {
            Some(p) if self.held.is_none() => {
                self.held = Some(*p);
                Ok(())
            }
            Some(_) => Err(MidiError::BufferFull),
            None => Ok(()),
        }
    }
}

impl Receive for Loopback {
    fn receive(&mut self) -> Result<Option<Packet>, MidiError> {
        Ok(self.held.take())
    }
}

#[test]
fn a_port_can_implement_both_directions() {
    let mut port = Loopback { held: None };
    assert_eq!(port.receive(), Ok(None));
    assert_eq!(port.transmit(PacketList::single(numbered(9))), Ok(()));
    assert_eq!(port.transmit(PacketList::single(numbered(10))), Err(MidiError::BufferFull));
    assert_eq!(port.receive(), Ok(Some(numbered(9))));
    assert_eq!(port.receive(), Ok(None));
}
