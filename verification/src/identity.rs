//! The identifier under which a connection is known to its peer.

use vstd::prelude::*;
use vstd::string::*;

verus! {

/// The least number of bytes in a connection identifier of this client.
pub const MIN_CONNECTION_ID_LEN: usize = 8;

/// The largest number of bytes that a connection identifier has, and the
/// number of bytes in a generated one.
pub const MAX_CONNECTION_ID_LEN: usize = 20;

/// The hexadecimal digit of a value below sixteen, in lower case.
pub open spec fn hex_digit(value: int) -> char {
    if value == 0 {
        '0'
    } else if value == 1 {
        '1'
    } else if value == 2 {
        '2'
    } else if value == 3 {
        '3'
    } else if value == 4 {
        '4'
    } else if value == 5 {
        '5'
    } else if value == 6 {
        '6'
    } else if value == 7 {
        '7'
    } else if value == 8 {
        '8'
    } else if value == 9 {
        '9'
    } else if value == 10 {
        'a'
    } else if value == 11 {
        'b'
    } else if value == 12 {
        'c'
    } else if value == 13 {
        'd'
    } else if value == 14 {
        'e'
    } else {
        'f'
    }
}

/// The bytes written out in hexadecimal: two lower-case digits for each
/// byte, the high half first, nothing between the bytes.
pub open spec fn hex_text(bytes: Seq<u8>) -> Seq<char> {
    Seq::new(
        2 * bytes.len(),
        |i: int|
            if i % 2 == 0 {
                hex_digit(bytes[i / 2] as int / 16)
            } else {
                hex_digit(bytes[i / 2] as int % 16)
            },
    )
}

/// The digit of a value below sixteen, as text.
fn digit(value: u8) -> (text: &'static str)
    requires
        value < 16,
    ensures
        text@ == seq![hex_digit(value as int)],
{
    proof {
        reveal_strlit("0");
        reveal_strlit("1");
        reveal_strlit("2");
        reveal_strlit("3");
        reveal_strlit("4");
        reveal_strlit("5");
        reveal_strlit("6");
        reveal_strlit("7");
        reveal_strlit("8");
        reveal_strlit("9");
        reveal_strlit("a");
        reveal_strlit("b");
        reveal_strlit("c");
        reveal_strlit("d");
        reveal_strlit("e");
        reveal_strlit("f");
    }
    let text = match value {
        0 => "0",
        1 => "1",
        2 => "2",
        3 => "3",
        4 => "4",
        5 => "5",
        6 => "6",
        7 => "7",
        8 => "8",
        9 => "9",
        10 => "a",
        11 => "b",
        12 => "c",
        13 => "d",
        14 => "e",
        _ => "f",
    };
    assert(text@ =~= seq![hex_digit(value as int)]);
    text
}

/// Writes bytes out in hexadecimal.
pub fn hex_dump(buf: &[u8]) -> (text: String)
    ensures
        text@ == hex_text(buf@),
{
    let mut text = String::new();
    let mut i: usize = 0;
    while i < buf.len()
        invariant
            i <= buf@.len(),
            text@ == hex_text(buf@.take(i as int)),
        decreases buf@.len() - i,
    {
        let byte = buf[i];
        text.append(digit(byte / 16));
        text.append(digit(byte % 16));
        assert(text@ =~= hex_text(buf@.take(i + 1))) by {
            assert(buf@.take(i + 1) =~= buf@.take(i as int).push(byte));
        }
        i = i + 1;
    }
    assert(buf@.take(i as int) =~= buf@);
    text
}

/// Fills `dest` with random bytes from the operating system, with
/// `ring::rand::SystemRandom::fill`. Tells whether that succeeded. The
/// number of bytes stays what it was; which bytes they are is left open.
#[verifier::external_body]
fn fill_random(dest: &mut Vec<u8>) -> (filled: bool)
    ensures
        final(dest)@.len() == old(dest)@.len(),
{
    ring::rand::SecureRandom::fill(&ring::rand::SystemRandom::new(), dest.as_mut_slice()).is_ok()
}

/// A connection identifier: between eight and twenty bytes.
#[derive(Debug)]
pub struct ConnectionId {
    bytes: Vec<u8>,
}

impl View for ConnectionId {
    type V = Seq<u8>;

    closed spec fn view(&self) -> Seq<u8> {
        self.bytes@
    }
}

impl ConnectionId {
    #[verifier::type_invariant]
    spec fn wf(self) -> bool {
        MIN_CONNECTION_ID_LEN <= self.bytes@.len() <= MAX_CONNECTION_ID_LEN
    }

    /// The identifier made of `bytes`, if they are of a length that an
    /// identifier can have.
    pub fn new(bytes: Vec<u8>) -> (id: Option<ConnectionId>)
        ensures
            id is Some <==> MIN_CONNECTION_ID_LEN <= bytes@.len() <= MAX_CONNECTION_ID_LEN,
            id matches Some(made) ==> made@ == bytes@,
    {
        if MIN_CONNECTION_ID_LEN <= bytes.len() && bytes.len() <= MAX_CONNECTION_ID_LEN {
            Some(ConnectionId { bytes })
        } else {
            None
        }
    }

    /// The identifier that comes of an attempt to fill `bytes` with random
    /// bytes: the one made of `bytes` where the attempt succeeded and the
    /// bytes are of a length that an identifier can have, and none
    /// otherwise.
    pub fn from_fill(bytes: Vec<u8>, filled: bool) -> (id: Option<ConnectionId>)
        ensures
            id is Some <==> filled && MIN_CONNECTION_ID_LEN <= bytes@.len()
                <= MAX_CONNECTION_ID_LEN,
            id matches Some(made) ==> made@ == bytes@,
    {
        if filled {
            ConnectionId::new(bytes)
        } else {
            None
        }
    }

    /// A fresh random identifier of the largest length, or `None` where the
    /// operating system gave no random bytes. Whether it gives any is for
    /// the operating system to decide; [`ConnectionId::from_fill`] says what
    /// comes of either outcome.
    pub fn random() -> (id: Option<ConnectionId>)
        ensures
            id matches Some(made) ==> made@.len() == MAX_CONNECTION_ID_LEN,
    {
        let mut bytes: Vec<u8> = Vec::new();
        bytes.resize(MAX_CONNECTION_ID_LEN, 0u8);
        let filled = fill_random(&mut bytes);
        ConnectionId::from_fill(bytes, filled)
    }

    /// The bytes of the identifier.
    pub fn as_bytes(&self) -> (bytes: &[u8])
        ensures
            bytes@ == self@,
            MIN_CONNECTION_ID_LEN <= bytes@.len() <= MAX_CONNECTION_ID_LEN,
    {
        proof {
            use_type_invariant(self);
        }
        self.bytes.as_slice()
    }

    /// The identifier in hexadecimal.
    pub fn to_hex(&self) -> (text: String)
        ensures
            text@ == hex_text(self@),
    {
        hex_dump(self.bytes.as_slice())
    }
}

} // verus!
