//! A short list of packets, without allocation: what a transport takes at
//! once.
use vstd::prelude::*;
use vstd::std_specs::iter::IteratorSpec;
use crate::packet::Packet;

verus! {

/// The most packets that a list holds.
pub const MAX_PACKETS: usize = 16;

/// `heapless::Vec`, a vector of fixed capacity that lives where it is
/// declared. Nothing is known of its inside; `vec_items` names what it holds.
#[verifier::external_type_specification]
#[verifier::external_body]
#[verifier::reject_recursive_types(T)]
pub struct ExHeaplessVec<T, const N: usize>(heapless::Vec<T, N>);

/// The packets that a `heapless::Vec` holds, in their order.
pub uninterp spec fn vec_items(v: heapless::Vec<Packet, MAX_PACKETS>) -> Seq<Packet>;

/// `heapless::Vec::new`: a vector without items.
#[verifier::external_body]
fn vec_new() -> (v: heapless::Vec<Packet, MAX_PACKETS>)
    ensures
        vec_items(v) == Seq::<Packet>::empty(),
{
    heapless::Vec::new()
}

/// `heapless::Vec::push`: below its capacity the vector takes the item at
/// its end; at capacity it stays as it is and hands the item back.
#[verifier::external_body]
fn vec_push(v: &mut heapless::Vec<Packet, MAX_PACKETS>, packet: Packet) -> (r: Result<(), Packet>)
    ensures
        r is Ok <==> vec_items(*old(v)).len() < MAX_PACKETS,
        r is Ok ==> vec_items(*final(v)) == vec_items(*old(v)).push(packet),
        r matches Err(back) ==> back == packet && vec_items(*final(v)) == vec_items(*old(v)),
{
    v.push(packet)
}

/// `heapless::Vec::clone`: a vector with the same items in the same order.
#[verifier::external_body]
fn vec_clone(v: &heapless::Vec<Packet, MAX_PACKETS>) -> (r: heapless::Vec<Packet, MAX_PACKETS>)
    ensures
        vec_items(r) == vec_items(*v),
{
    v.clone()
}

/// Up to sixteen packets in a row.
#[derive(Debug)]
pub struct PacketList(heapless::Vec<Packet, MAX_PACKETS>);

impl View for PacketList {
    type V = Seq<Packet>;

    /// The packets of the list, in their order.
    closed spec fn view(&self) -> Seq<Packet> {
        vec_items(self.0)
    }
}

impl PacketList {
    /// The list of one packet.
    pub fn single(packet: Packet) -> (r: PacketList)
        ensures
            r@ == seq![packet],
    {
        let mut list = vec_new();
        let _ = vec_push(&mut list, packet);
        assert(Seq::<Packet>::empty().push(packet) =~= seq![packet]);
        PacketList(list)
    }
}

impl PacketList {
    /// The packets that a list keeps of those it is offered: the first
    /// sixteen.
    pub open spec fn kept(offered: Seq<Packet>) -> Seq<Packet> {
        if offered.len() <= MAX_PACKETS {
            offered
        } else {
            offered.take(MAX_PACKETS as int)
        }
    }

    /// Collects the packets that an iterator gives, up to the capacity of
    /// the list; what comes after is dropped.
    pub fn from_iter<I: Iterator<Item = Packet>>(iter: I) -> (r: PacketList)
        ensures
            r@.len() <= MAX_PACKETS,
            iter.obeys_prophetic_iter_laws() ==> r@ == Self::kept(iter.remaining()),
    {
        let mut list = vec_new();
        let mut it = iter;
        loop
            invariant_except_break
                iter.obeys_prophetic_iter_laws() ==> vec_items(list) + it.remaining()
                    == iter.remaining(),
            invariant
                vec_items(list).len() <= MAX_PACKETS,
                it.obeys_prophetic_iter_laws() == iter.obeys_prophetic_iter_laws(),
            ensures
                vec_items(list).len() <= MAX_PACKETS,
                iter.obeys_prophetic_iter_laws() ==> vec_items(list) == Self::kept(
                    iter.remaining(),
                ),
            decreases MAX_PACKETS - vec_items(list).len(),
        {
            let ghost before = it.remaining();
            match it.next() {
                Some(p) => {
                    proof {
                        if iter.obeys_prophetic_iter_laws() {
                            assert(before =~= seq![p] + it.remaining());
                            assert(vec_items(list).push(p) + it.remaining() =~= vec_items(list)
                                + before);
                        }
                    }
                    if vec_push(&mut list, p).is_err() {
                        proof {
                            if iter.obeys_prophetic_iter_laws() {
                                assert(iter.remaining().take(MAX_PACKETS as int) =~= vec_items(
                                    list,
                                ));
                            }
                        }
                        break ;
                    }
                },
                None => {
                    proof {
                        if iter.obeys_prophetic_iter_laws() {
                            assert(vec_items(list) + before =~= vec_items(list));
                        }
                    }
                    break ;
                },
            }
        }
        PacketList(list)
    }
}

impl Clone for PacketList {
    fn clone(&self) -> (r: PacketList)
        ensures
            r@ == self@,
    {
        PacketList(vec_clone(&self.0))
    }
}

/// Gives the vector that holds the packets.
impl core::ops::Deref for PacketList {
    type Target = heapless::Vec<Packet, MAX_PACKETS>;

    fn deref(&self) -> (r: &Self::Target)
        ensures
            vec_items(*r) == self@,
    {
        &self.0
    }
}

/// Gives the vector that holds the packets, to be changed in place: what
/// the vector holds when the caller is done with it is what the list holds
/// from then on.
impl core::ops::DerefMut for PacketList {
    fn deref_mut(&mut self) -> (r: &mut Self::Target)
        ensures
            vec_items(*r) == old(self)@,
            final(self)@ == vec_items(*final(r)),
    {
        &mut self.0
    }
}

impl Default for PacketList {
    /// The empty list.
    fn default() -> (r: PacketList)
        ensures
            r@ == Seq::<Packet>::empty(),
    {
        PacketList(vec_new())
    }
}

} // verus!
