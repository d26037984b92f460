//! Six-byte Ethernet hardware addresses.

use vstd::prelude::*;

verus! {

/// A six-byte Ethernet (MAC) hardware address.
#[derive(Clone, Copy, Debug, PartialEq, Eq)]
pub struct EthernetAddr([u8; 6]);

impl View for EthernetAddr {
    type V = Seq<u8>;

    closed spec fn view(&self) -> Seq<u8> {
        self.0@
    }
}

/// An Ethernet address always views as exactly its six bytes.
pub broadcast proof fn lemma_ethernet_addr_len(a: EthernetAddr)
    ensures
        (#[trigger] a@).len() == 6,
{
}

/// The ways constructing an [`EthernetAddr`] from raw bytes can fail.
#[derive(Clone, Copy, Debug, PartialEq, Eq, Structural)]
pub enum EthernetAddrError {
    /// The byte slice did not hold exactly six bytes; carries the actual length.
    WrongLength(usize),
}

impl From<[u8; 6]> for EthernetAddr {
    fn from(addr: [u8; 6]) -> (r: Self)
        ensures
            r@ == addr@,
    {
        EthernetAddr(addr)
    }
}

impl vstd::std_specs::convert::FromSpecImpl<[u8; 6]> for EthernetAddr {
    open spec fn obeys_from_spec() -> bool {
        true
    }

    closed spec fn from_spec(addr: [u8; 6]) -> EthernetAddr {
        EthernetAddr(addr)
    }
}

/// The lowercase hexadecimal digit for a value below sixteen.
pub open spec fn hex_digit(n: u8) -> char
    recommends
        n < 16,
{
    if n < 10 {
        (48 + n) as char
    } else {
        (87 + n) as char
    }
}

/// How a hardware address prints: two lowercase hexadecimal digits per
/// byte, bytes separated by colons.
pub open spec fn mac_hex_chars(bytes: Seq<u8>) -> Seq<char>
    decreases bytes.len(),
{
    if bytes.len() == 0 {
        Seq::empty()
    } else {
        let prefix = mac_hex_chars(bytes.drop_last());
        let b = bytes.last();
        let sep: Seq<char> = if bytes.len() == 1 {
            Seq::empty()
        } else {
            seq![':']
        };
        prefix + sep + seq![hex_digit(b / 16), hex_digit(b % 16)]
    }
}

/// The lowercase hexadecimal digit for a value below sixteen.
fn hex_char(n: u8) -> (c: char)
    requires
        n < 16,
    ensures
        c == hex_digit(n),
{
    if n < 10 {
        (48 + n) as char
    } else {
        (87 + n) as char
    }
}

impl EthernetAddr {
    /// Renders the address as colon-separated lowercase hexadecimal
    /// byte pairs.
    pub fn hex_string(&self) -> (r: String)
        ensures
            r@ == mac_hex_chars(self@),
    {
        let mut s = String::new();
        let mut i: usize = 0;
        while i < 6
            invariant
                i <= 6,
                s@ == mac_hex_chars(self@.take(i as int)),
            decreases 6 - i,
        {
            proof {
                lemma_ethernet_addr_len(*self);
                assert(self@.take(i + 1).drop_last() =~= self@.take(i as int));
                assert(self@.take(i + 1).last() == self@[i as int]);
            }
            if i > 0 {
                crate::text::push_char(&mut s, ':');
            }
            let b = self.0[i];
            crate::text::push_char(&mut s, hex_char(b / 16));
            crate::text::push_char(&mut s, hex_char(b % 16));
            proof {
                assert(s@ =~= mac_hex_chars(self@.take(i + 1)));
            }
            i = i + 1;
        }
        proof {
            lemma_ethernet_addr_len(*self);
            assert(self@.take(6) =~= self@);
        }
        s
    }

    /// The address as a slice of its six bytes.
    pub fn as_bytes(&self) -> (r: &[u8])
        ensures
            r@ == self@,
    {
        self.0.as_slice()
    }

    /// Builds an address from a slice, which must hold exactly six bytes.
    pub fn try_from_slice(addr: &[u8]) -> (r: Result<Self, EthernetAddrError>)
        ensures
            addr@.len() == 6 ==> (r matches Ok(a) && a@ == addr@),
            addr@.len() != 6 ==> r == Err::<Self, _>(EthernetAddrError::WrongLength(addr.len())),
    {
        if addr.len() != 6 {
            return Err(EthernetAddrError::WrongLength(addr.len()));
        }
        let mut bytes: [u8; 6] = [0; 6];
        for i in 0..6
            invariant
                addr@.len() == 6,
                forall|j: int| 0 <= j < i ==> bytes@[j] == addr@[j],
        {
            bytes[i] = addr[i];
        }
        assert(bytes@ =~= addr@);
        Ok(EthernetAddr(bytes))
    }
}

} // verus!
