//! The fixed-layout configuration request handed to every control call.
//!
//! A request holds the interface name, truncated or null-padded to the
//! platform limit, together with a single property slot.  The wire layout
//! reuses one buffer for every property; here the slot is modelled as a
//! tagged variant, and the caller selects the meaning by the control
//! operation it issues.

use vstd::prelude::*;
use vstd::string::StringSliceAdditionalSpecFns;

verus! {

/// The platform limit on the length of an interface name, in bytes.
pub const IFNAMSIZ: usize = 16;

/// Device kind: the interface exchanges raw IP packets (TUN).
pub const IFF_TUN: i16 = 0x0001;

/// Device kind: the interface exchanges raw Ethernet frames (TAP).
pub const IFF_TAP: i16 = 0x0002;

/// Suppresses the packet-information header in the packet stream.
pub const IFF_NO_PI: i16 = 0x1000;

/// Allows several packet-queue descriptors to attach to one interface.
pub const IFF_MULTI_QUEUE: i16 = 0x0100;

/// Link flag: the interface is administratively up.
pub const IFF_UP: i16 = 0x0001;

/// Link flag: the interface is operationally running.
pub const IFF_RUNNING: i16 = 0x0040;

/// Whether a flag word includes every bit of the given mask.
pub open spec fn flags_include(f: i16, mask: i16) -> bool {
    f & mask == mask
}

/// Adding bits to a flag word with OR always yields a word that includes
/// them, whatever the current flags were.
pub proof fn lemma_or_includes(f: i16, bits: i16)
    ensures
        flags_include(f | bits, bits),
{
    assert((f | bits) & bits == bits) by (bit_vector);
}

/// The fixed-size kernel socket-address structure used inside control
/// requests: a two-byte address-family tag followed by fourteen opaque
/// data bytes.
#[derive(Clone, Copy, Debug, PartialEq, Eq)]
pub struct SockAddr {
    /// The address-family tag.
    pub family: u16,
    /// The opaque payload; its interpretation depends on the family.
    pub data: [u8; 14],
}

/// The single property slot of a configuration request, as a tagged
/// variant.  Exactly one property is meaningful per control call.
#[derive(Clone, Copy, Debug, PartialEq, Eq)]
pub enum Prop {
    /// No property filled in; query-style calls start from this.
    Empty,
    /// A flag word: device-kind flags at creation, link flags afterwards.
    Flags(i16),
    /// The maximum transmission unit.
    Mtu(i32),
    /// One of the socket-address properties (address, destination,
    /// broadcast, netmask).
    Addr(SockAddr),
}

/// What the name buffer holds after a name is written into it: the name's
/// bytes, truncated to the platform limit, with zero padding behind them.
pub open spec fn padded_name(bytes: Seq<u8>) -> Seq<u8> {
    Seq::new(IFNAMSIZ as nat, |i: int| if i < bytes.len() { bytes[i] } else { 0u8 })
}

/// How a name buffer reads back: every non-zero byte, in order, as a
/// character.
pub open spec fn name_chars(bytes: Seq<u8>) -> Seq<char>
    decreases bytes.len(),
{
    if bytes.len() == 0 {
        Seq::empty()
    } else {
        let prefix = name_chars(bytes.drop_last());
        if bytes.last() == 0 {
            prefix
        } else {
            prefix.push(bytes.last() as char)
        }
    }
}

/// The configuration request: a name buffer and one property slot.
#[derive(Clone, Copy, Debug, PartialEq, Eq)]
pub struct IfReq {
    /// The interface name, null-padded to [`IFNAMSIZ`] bytes.
    pub name: [u8; 16],
    /// The property slot, written immediately before a mutating call and
    /// read back immediately after a query.
    pub prop: Prop,
}

impl IfReq {
    /// Builds a request for the given interface name with an empty
    /// property slot.  A name longer than the platform limit is silently
    /// truncated, matching kernel semantics; a shorter one is null-padded.
    pub fn new(name: &str) -> (r: IfReq)
        ensures
            r.name@ == padded_name(name.spec_bytes()),
            r.prop == Prop::Empty,
    {
        let bytes = name.as_bytes();
        let mut buf: [u8; 16] = [0; 16];
        let n = if bytes.len() < IFNAMSIZ {
            bytes.len()
        } else {
            IFNAMSIZ
        };
        for i in 0..n
            invariant
                n <= bytes@.len(),
                n <= 16,
                buf@.len() == 16,
                forall|j: int| 0 <= j < i ==> buf@[j] == bytes@[j],
                forall|j: int| i <= j < 16 ==> buf@[j] == 0u8,
        {
            buf[i] = bytes[i];
        }
        proof {
            assert(buf@ =~= padded_name(name.spec_bytes()));
        }
        IfReq { name: buf, prop: Prop::Empty }
    }

    /// Builds a request from an already padded name buffer, as read back
    /// from the kernel, with an empty property slot.
    pub fn from_buf(name: [u8; 16]) -> (r: IfReq)
        ensures
            r.name == name,
            r.prop == Prop::Empty,
    {
        IfReq { name, prop: Prop::Empty }
    }

    /// Reads the name back out of the buffer, stripping the padding bytes.
    pub fn name(&self) -> (r: String)
        ensures
            r@ == name_chars(self.name@),
    {
        let mut s = String::new();
        for i in 0..IFNAMSIZ
            invariant
                s@ == name_chars(self.name@.take(i as int)),
        {
            let b = self.name[i];
            proof {
                assert(self.name@.take(i + 1).drop_last() =~= self.name@.take(i as int));
                assert(self.name@.take(i + 1).last() == self.name@[i as int]);
            }
            if b != 0 {
                crate::text::push_char(&mut s, b as char);
            }
        }
        proof {
            assert(self.name@.take(IFNAMSIZ as int) =~= self.name@);
        }
        s
    }
}

/// A name of exactly the platform limit is preserved whole; a longer one
/// is truncated to the limit; and reading the buffer back yields exactly
/// the stored name bytes, never any padding, provided the name itself
/// holds no zero byte.
pub proof fn lemma_name_round_trip(bytes: Seq<u8>)
    requires
        forall|i: int| 0 <= i < bytes.len() ==> bytes[i] != 0u8,
    ensures
        bytes.len() <= IFNAMSIZ ==> name_chars(padded_name(bytes)) == bytes.map_values(
            |b: u8| b as char,
        ),
        bytes.len() > IFNAMSIZ ==> name_chars(padded_name(bytes)) == bytes.take(
            IFNAMSIZ as int,
        ).map_values(|b: u8| b as char),
{
    let stored = if bytes.len() <= IFNAMSIZ {
        bytes
    } else {
        bytes.take(IFNAMSIZ as int)
    };
    assert(padded_name(bytes) =~= stored + Seq::new((IFNAMSIZ - stored.len()) as nat, |i| 0u8));
    lemma_name_chars_of_padded(stored, (IFNAMSIZ - stored.len()) as nat);
}

/// Reading back a buffer that holds non-zero name bytes followed by zero
/// padding yields the name bytes as characters.
proof fn lemma_name_chars_of_padded(bytes: Seq<u8>, pad: nat)
    requires
        forall|i: int| 0 <= i < bytes.len() ==> bytes[i] != 0u8,
    ensures
        name_chars(bytes + Seq::new(pad, |i| 0u8)) == bytes.map_values(|b: u8| b as char),
    decreases pad,
{
    if pad == 0 {
        assert(bytes + Seq::new(0, |i| 0u8) =~= bytes);
        lemma_name_chars_all_nonzero(bytes);
    } else {
        let shorter = bytes + Seq::new((pad - 1) as nat, |i| 0u8);
        let full = bytes + Seq::new(pad, |i| 0u8);
        assert(full.last() == 0u8);
        assert(full.drop_last() =~= shorter);
        lemma_name_chars_of_padded(bytes, (pad - 1) as nat);
    }
}

/// Reading back a buffer with no zero byte maps every byte to a character.
proof fn lemma_name_chars_all_nonzero(bytes: Seq<u8>)
    requires
        forall|i: int| 0 <= i < bytes.len() ==> bytes[i] != 0u8,
    ensures
        name_chars(bytes) == bytes.map_values(|b: u8| b as char),
    decreases bytes.len(),
{
    if bytes.len() == 0 {
        assert(name_chars(bytes) =~= bytes.map_values(|b: u8| b as char));
    } else {
        lemma_name_chars_all_nonzero(bytes.drop_last());
        assert(name_chars(bytes) =~= bytes.map_values(|b: u8| b as char));
    }
}

} // verus!
