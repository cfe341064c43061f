//! Peer identities: the 32 bytes of a node's public key.
use vstd::prelude::*;
use vstd::utf8::*;
use crate::text::string_from_utf8;

verus! {

broadcast use vstd::utf8::group_utf8_lib;

/// Number of bytes in a peer identity.
pub const ID_LEN: usize = 32;

/// Number of leading identity bytes shown in the short rendering.
pub const SHORT_BYTES: usize = 5;

/// An opaque, globally unique node identifier, compared byte for byte.
#[derive(Clone, Copy, Debug)]
pub struct PeerId {
    pub bytes: [u8; 32],
}

impl View for PeerId {
    type V = Seq<u8>;

    open spec fn view(&self) -> Seq<u8> {
        self.bytes@
    }
}

/// The lowercase hexadecimal digit for a value below sixteen, as a byte.
pub open spec fn hex_byte(n: u8) -> u8 {
    if n < 10 {
        (48 + n) as u8
    } else {
        (87 + n) as u8
    }
}

/// Byte `i` of the short rendering: the high then the low nibble of each
/// leading identity byte.
pub open spec fn short_byte(id: Seq<u8>, i: int) -> u8 {
    if i % 2 == 0 {
        hex_byte(id[i / 2] / 16)
    } else {
        hex_byte(id[i / 2] % 16)
    }
}

/// The short rendering of an identity, as ASCII bytes: the first five bytes
/// in lowercase hexadecimal.
pub open spec fn short_bytes(id: Seq<u8>) -> Seq<u8> {
    Seq::new(2 * SHORT_BYTES as nat, |i: int| short_byte(id, i))
}

/// The short rendering of an identity, as text.
pub open spec fn short_form(id: Seq<u8>) -> Seq<char> {
    Seq::new(2 * SHORT_BYTES as nat, |i: int| short_byte(id, i) as char)
}

fn hex_digit(n: u8) -> (r: u8)
    requires
        n < 16,
    ensures
        r == hex_byte(n),
{
    if n < 10 {
        48 + n
    } else {
        87 + n
    }
}

impl PeerId {
    /// Wraps the 32 bytes of an identity.
    pub fn from_bytes(bytes: [u8; 32]) -> (r: PeerId)
        ensures
            r@ == bytes@,
    {
        PeerId { bytes }
    }

    /// The 32 bytes of this identity.
    pub fn to_bytes(&self) -> (r: [u8; 32])
        ensures
            r@ == self@,
    {
        self.bytes
    }

    /// Byte `i` of this identity.
    pub fn byte(&self, i: usize) -> (r: u8)
        requires
            i < ID_LEN,
        ensures
            r == self@[i as int],
    {
        self.bytes[i]
    }

    /// Whether two identities are equal, byte for byte.
    pub fn same_as(&self, other: &PeerId) -> (r: bool)
        ensures
            r <==> self@ == other@,
    {
        let mut i: usize = 0;
        while i < ID_LEN
            invariant
                i <= ID_LEN,
                self@.len() == ID_LEN,
                other@.len() == ID_LEN,
                forall|j: int| 0 <= j < i ==> self@[j] == other@[j],
            decreases ID_LEN - i,
        {
            if self.bytes[i] != other.bytes[i] {
                return false;
            }
            i = i + 1;
        }
        assert(self@ =~= other@);
        true
    }

    /// The short rendering of this identity: its first five bytes in
    /// lowercase hexadecimal, ten characters in all.
    pub fn fmt_short(&self) -> (r: String)
        ensures
            r@ == short_form(self@),
    {
        let mut out: Vec<u8> = Vec::new();
        let mut i: usize = 0;
        while i < SHORT_BYTES
            invariant
                i <= SHORT_BYTES,
                self@.len() == ID_LEN,
                out@ =~= short_bytes(self@).take(2 * i as int),
            decreases SHORT_BYTES - i,
        {
            let b = self.bytes[i];
            out.push(hex_digit(b / 16));
            out.push(hex_digit(b % 16));
            i = i + 1;
        }
        proof {
            assert(out@ =~= short_bytes(self@));
            let chars = short_form(self@);
            assert forall|j: int| 0 <= j < chars.len() implies '\0' <= #[trigger] chars[j] <= '\u{7f}' by {
                assert(short_byte(self@, j) < 128);
            }
            assert(is_ascii_chars(chars));
            assert(encode_utf8(chars) =~= out@);
        }
        let r = string_from_utf8(out);
        match r {
            Some(s) => s,
            None => {
                proof {
                    assert(false);
                }
                String::new()
            }
        }
    }
}

} // verus!
