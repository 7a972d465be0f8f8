use crate::rng::random_octets;
use vstd::prelude::*;
use vstd::string::*;

verus! {

/// Bit of the first octet that marks an address as locally administered.
pub const LOCAL_BIT: u8 = 0x02;

/// Bit of the first octet that marks an address as a group (multicast) address.
pub const GROUP_BIT: u8 = 0x01;

/// The first octet with the local bit set and the group bit cleared.
pub open spec fn local_unicast(first: u8) -> u8 {
    (first | 0x02u8) & 0xFEu8
}

/// The six octets turned into those of a locally administered unicast address:
/// only two bits of the first octet change.
pub open spec fn as_local_unicast(octets: Seq<u8>) -> Seq<u8> {
    octets.update(0, local_unicast(octets[0]))
}

/// The lower-case hexadecimal digit of a value below sixteen.
pub open spec fn hex_digit(nibble: u8) -> char {
    if nibble == 0 {
        '0'
    } else if nibble == 1 {
        '1'
    } else if nibble == 2 {
        '2'
    } else if nibble == 3 {
        '3'
    } else if nibble == 4 {
        '4'
    } else if nibble == 5 {
        '5'
    } else if nibble == 6 {
        '6'
    } else if nibble == 7 {
        '7'
    } else if nibble == 8 {
        '8'
    } else if nibble == 9 {
        '9'
    } else if nibble == 10 {
        'a'
    } else if nibble == 11 {
        'b'
    } else if nibble == 12 {
        'c'
    } else if nibble == 13 {
        'd'
    } else if nibble == 14 {
        'e'
    } else {
        'f'
    }
}

/// The two hexadecimal digits of one octet, high digit first.
pub open spec fn octet_text(octet: u8) -> Seq<char> {
    seq![hex_digit(octet / 16), hex_digit(octet % 16)]
}

/// The colon-separated text of the first `count` octets.
pub open spec fn octets_text(octets: Seq<u8>, count: nat) -> Seq<char>
    decreases count,
{
    if count == 0 {
        Seq::empty()
    } else if count == 1 {
        octet_text(octets[0])
    } else {
        octets_text(octets, (count - 1) as nat) + seq![':'] + octet_text(octets[count - 1])
    }
}

/// A link-layer (Ethernet) address of six octets.
#[derive(Debug)]
pub struct MacAddress([u8; 6]);

impl View for MacAddress {
    type V = Seq<u8>;

    closed spec fn view(&self) -> Seq<u8> {
        self.0@
    }
}

/// One hexadecimal digit as a string of its own.
fn hex_str(nibble: u8) -> (digit: &'static str)
    requires
        nibble < 16,
    ensures
        digit@ == seq![hex_digit(nibble)],
{
    proof {
        reveal_strlit("0");
        reveal_strlit("1");
        reveal_strlit("2");
        reveal_strlit("3");
        reveal_strlit("4");
        reveal_strlit("5");
        reveal_strlit("6");
        reveal_strlit("7");
        reveal_strlit("8");
        reveal_strlit("9");
        reveal_strlit("a");
        reveal_strlit("b");
        reveal_strlit("c");
        reveal_strlit("d");
        reveal_strlit("e");
        reveal_strlit("f");
    }
    let digit: &'static str = match nibble {
        0 => "0",
        1 => "1",
        2 => "2",
        3 => "3",
        4 => "4",
        5 => "5",
        6 => "6",
        7 => "7",
        8 => "8",
        9 => "9",
        10 => "a",
        11 => "b",
        12 => "c",
        13 => "d",
        14 => "e",
        _ => "f",
    };
    assert(digit@ =~= seq![hex_digit(nibble)]);
    digit
}

impl MacAddress {
    /// Every address of this type is locally administered and unicast.
    #[verifier::type_invariant]
    spec fn well_formed(&self) -> bool {
        &&& self.0@[0] & LOCAL_BIT == LOCAL_BIT
        &&& self.0@[0] & GROUP_BIT == 0
    }

    /// A fresh random address that is locally administered and unicast.
    pub fn new() -> (mac: MacAddress)
        ensures
            mac@.len() == 6,
            mac@[0] & LOCAL_BIT == LOCAL_BIT,
            mac@[0] & GROUP_BIT == 0,
    {
        let octets = random_octets();
        proof {
            lemma_local_unicast_bits(octets[0]);
        }
        MacAddress::from_random(octets)
    }

    /// The address that six arbitrary octets stand for: the local bit is set
    /// and the group bit cleared, and nothing else is touched.
    pub fn from_random(octets: [u8; 6]) -> (mac: MacAddress)
        ensures
            mac@ == as_local_unicast(octets@),
    {
        let mut octets = octets;
        let first: u8 = (octets[0] | LOCAL_BIT) & 0xFEu8;
        proof {
            lemma_local_unicast_bits(octets[0]);
        }
        octets[0] = first;
        MacAddress(octets)
    }

    /// The six octets, in transmission order. The first has the local bit
    /// set and the group bit clear, whatever the address was made from.
    pub fn octets(&self) -> (octets: [u8; 6])
        ensures
            octets@ == self@,
            octets@.len() == 6,
            octets@[0] & LOCAL_BIT == LOCAL_BIT,
            octets@[0] & GROUP_BIT == 0,
    {
        proof {
            use_type_invariant(self);
        }
        self.0
    }

    /// The usual notation: six two-digit lower-case hexadecimal numbers
    /// separated by colons.
    pub fn to_string(&self) -> (text: String)
        ensures
            text@ == octets_text(self@, 6),
    {
        let mut text = String::new();
        let mut i: usize = 0;
        while i < 6
            invariant
                i <= 6,
                text@ == octets_text(self@, i as nat),
                self@.len() == 6,
            decreases 6 - i,
        {
            if i > 0 {
                proof {
                    reveal_strlit(":");
                }
                text.append(":");
            }
            let octet: u8 = self.0[i];
            text.append(hex_str(octet / 16));
            text.append(hex_str(octet % 16));
            i = i + 1;
            assert(text@ =~= octets_text(self@, i as nat));
        }
        text
    }
}

/// Setting the local bit and clearing the group bit gives a first octet with
/// exactly those two properties, and leaves the six upper bits as they were.
pub proof fn lemma_local_unicast_bits(first: u8)
    ensures
        local_unicast(first) & LOCAL_BIT == LOCAL_BIT,
        local_unicast(first) & GROUP_BIT == 0,
        local_unicast(first) & 0xFCu8 == first & 0xFCu8,
{
    assert(((first | 0x02u8) & 0xFEu8) & 0x02u8 == 0x02u8) by (bit_vector);
    assert(((first | 0x02u8) & 0xFEu8) & 0x01u8 == 0u8) by (bit_vector);
    assert(((first | 0x02u8) & 0xFEu8) & 0xFCu8 == first & 0xFCu8) by (bit_vector);
}

} // verus!
