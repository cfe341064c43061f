//! The wire protocol: a tag byte, the sender's 32 identity bytes, the length
//! of the text in bytes as an 8-byte big-endian number, then the text in
//! UTF-8.
use vstd::prelude::*;
use vstd::utf8::*;
use vstd::arithmetic::div_mod::{
    lemma_fundamental_div_mod_converse_div,
    lemma_fundamental_div_mod_converse_mod,
    lemma_mod_breakdown,
    lemma_small_mod,
};
use crate::error::ChatError;
use crate::peer::{PeerId, ID_LEN};
use crate::text::string_from_utf8;

verus! {

broadcast use vstd::utf8::group_utf8_lib;

/// Tag byte of an identity announcement.
pub const ANNOUNCE_TAG: u8 = 0;

/// Tag byte of a chat line.
pub const CHAT_TAG: u8 = 1;

/// Offset of the length field: after the tag and the identity.
pub const LEN_AT: usize = 33;

/// Number of bytes in the length field.
pub const LEN_BYTES: usize = 8;

/// Length of the fixed part of every payload: tag, identity and length.
pub const HEADER_LEN: usize = 41;

/// 256 to the power `k`.
pub open spec fn pow256(k: nat) -> nat
    decreases k,
{
    if k == 0 {
        1
    } else {
        256 * pow256((k - 1) as nat)
    }
}

/// The number that bytes spell in big-endian order.
pub open spec fn be_value(s: Seq<u8>) -> nat
    decreases s.len(),
{
    if s.len() == 0 {
        0
    } else {
        be_value(s.drop_last()) * 256 + s.last() as nat
    }
}

/// The last `k` base-256 digits of `n`, most significant first.
pub open spec fn be_bytes(n: nat, k: nat) -> Seq<u8>
    decreases k,
{
    if k == 0 {
        seq![]
    } else {
        be_bytes(n / 256, (k - 1) as nat).push((n % 256) as u8)
    }
}

proof fn lemma_be_bytes_len(n: nat, k: nat)
    ensures
        be_bytes(n, k).len() == k,
    decreases k,
{
    if k > 0 {
        lemma_be_bytes_len(n / 256, (k - 1) as nat);
    }
}

/// Reading back `k` digits of `n` gives `n` modulo `256^k`.
proof fn lemma_be_value_of_bytes(n: nat, k: nat)
    ensures
        be_value(be_bytes(n, k)) == n % pow256(k),
    decreases k,
{
    if k > 0 {
        let prev = be_bytes(n / 256, (k - 1) as nat);
        lemma_be_value_of_bytes(n / 256, (k - 1) as nat);
        assert(be_bytes(n, k).drop_last() =~= prev);
        lemma_pow256_positive((k - 1) as nat);
        lemma_mod_breakdown(n as int, 256, pow256((k - 1) as nat) as int);
    }
}

proof fn lemma_pow256_positive(k: nat)
    ensures
        pow256(k) > 0,
    decreases k,
{
    if k > 0 {
        lemma_pow256_positive((k - 1) as nat);
    }
}

/// Writing out the number that bytes spell gives those bytes back.
proof fn lemma_bytes_of_be_value(s: Seq<u8>)
    ensures
        be_bytes(be_value(s), s.len()) == s,
    decreases s.len(),
{
    if s.len() > 0 {
        let prev = s.drop_last();
        let v = be_value(s);
        lemma_bytes_of_be_value(prev);
        lemma_fundamental_div_mod_converse_div(v as int, 256, be_value(prev) as int, s.last() as int);
        lemma_fundamental_div_mod_converse_mod(v as int, 256, be_value(prev) as int, s.last() as int);
        assert(be_bytes(v, s.len()) =~= s);
    }
}

/// The number that `k` bytes spell is below `256^k`.
proof fn lemma_be_value_bound(s: Seq<u8>)
    ensures
        be_value(s) < pow256(s.len()),
    decreases s.len(),
{
    if s.len() > 0 {
        lemma_be_value_bound(s.drop_last());
        let p = pow256((s.len() - 1) as nat);
        let v = be_value(s.drop_last());
        assert(v * 256 + s.last() < 256 * p) by (nonlinear_arith)
            requires
                v < p,
                s.last() < 256,
        ;
    }
}

/// A protocol message; each one carries its sender's identity.
#[derive(Clone, Debug)]
pub enum Message {
    /// Declares the display name of `from`.
    Announce { from: PeerId, name: String },
    /// One line of chat from `from`.
    Chat { from: PeerId, text: String },
}

/// The mathematical value of a message.
pub enum MessageView {
    Announce { from: Seq<u8>, name: Seq<char> },
    Chat { from: Seq<u8>, text: Seq<char> },
}

impl View for Message {
    type V = MessageView;

    open spec fn view(&self) -> MessageView {
        match self {
            Message::Announce { from, name } => MessageView::Announce { from: from@, name: name@ },
            Message::Chat { from, text } => MessageView::Chat { from: from@, text: text@ },
        }
    }
}

impl MessageView {
    /// The sender's identity.
    pub open spec fn sender(self) -> Seq<u8> {
        match self {
            MessageView::Announce { from, .. } => from,
            MessageView::Chat { from, .. } => from,
        }
    }

    /// The text the message carries: a name or a chat line.
    pub open spec fn body(self) -> Seq<char> {
        match self {
            MessageView::Announce { name, .. } => name,
            MessageView::Chat { text, .. } => text,
        }
    }

    /// The tag byte that names the variant.
    pub open spec fn tag(self) -> u8 {
        match self {
            MessageView::Announce { .. } => ANNOUNCE_TAG,
            MessageView::Chat { .. } => CHAT_TAG,
        }
    }

    /// A message value that can be encoded: its identity is 32 bytes and
    /// its text's UTF-8 length fits the length field, as the length of any
    /// text held in memory does.
    pub open spec fn valid(self) -> bool {
        &&& self.sender().len() == ID_LEN
        &&& encode_utf8(self.body()).len() < pow256(LEN_BYTES as nat)
    }
}

/// The encoding of a message.
pub open spec fn wire(m: MessageView) -> Seq<u8> {
    let text = encode_utf8(m.body());
    seq![m.tag()] + m.sender() + be_bytes(text.len(), LEN_BYTES as nat) + text
}

/// Whether bytes are a tag, 32 identity bytes, a length field that counts
/// exactly the bytes that follow it, and valid UTF-8 text.
pub open spec fn well_formed(b: Seq<u8>) -> bool {
    &&& b.len() >= HEADER_LEN
    &&& (b[0] == ANNOUNCE_TAG || b[0] == CHAT_TAG)
    &&& be_value(b.subrange(LEN_AT as int, HEADER_LEN as int)) == b.len() - HEADER_LEN
    &&& valid_utf8(b.skip(HEADER_LEN as int))
}

/// The message that bytes decode to, if any.
pub open spec fn decode_spec(b: Seq<u8>) -> Option<MessageView> {
    if well_formed(b) {
        let from = b.subrange(1, LEN_AT as int);
        let body = decode_utf8(b.skip(HEADER_LEN as int));
        if b[0] == ANNOUNCE_TAG {
            Some(MessageView::Announce { from, name: body })
        } else {
            Some(MessageView::Chat { from, text: body })
        }
    } else {
        None
    }
}

/// Round trip: decoding the encoding of any message gives that message back.
pub proof fn lemma_round_trip(m: MessageView)
    requires
        m.valid(),
    ensures
        decode_spec(wire(m)) == Some(m),
{
    let b = wire(m);
    let text = encode_utf8(m.body());
    lemma_be_bytes_len(text.len(), LEN_BYTES as nat);
    lemma_be_value_of_bytes(text.len(), LEN_BYTES as nat);
    lemma_small_mod(text.len(), pow256(LEN_BYTES as nat));
    assert(b.skip(HEADER_LEN as int) =~= text);
    assert(b.subrange(1, LEN_AT as int) =~= m.sender());
    assert(b.subrange(LEN_AT as int, HEADER_LEN as int) =~= be_bytes(text.len(), LEN_BYTES as nat));
    assert(b[0] == m.tag());
}

/// Decoding is closed: bytes that decode are exactly the encoding of what
/// they decode to, and bytes that are no message's encoding fail to decode.
pub proof fn lemma_decode_closed(b: Seq<u8>)
    ensures
        decode_spec(b) matches Some(m) ==> m.valid() && wire(m) == b,
        decode_spec(b) is None ==> forall|m: MessageView| m.valid() ==> wire(m) != b,
{
    if let Some(m) = decode_spec(b) {
        let text = b.skip(HEADER_LEN as int);
        let len_field = b.subrange(LEN_AT as int, HEADER_LEN as int);
        decode_utf8_encode_utf8(text);
        lemma_bytes_of_be_value(len_field);
        lemma_be_value_bound(len_field);
        assert(wire(m) =~= b);
    } else {
        assert forall|m: MessageView| m.valid() implies wire(m) != b by {
            if wire(m) == b {
                lemma_round_trip(m);
            }
        }
    }
}

/// A payload cut short, or with bytes added after it, is no message: every
/// strict prefix and every strict extension of an encoding fails to decode.
pub proof fn lemma_truncated_or_extended_rejected(m: MessageView, k: int, extra: Seq<u8>)
    requires
        m.valid(),
        0 <= k < wire(m).len(),
        extra.len() > 0,
    ensures
        decode_spec(wire(m).take(k)) is None,
        decode_spec(wire(m) + extra) is None,
{
    let b = wire(m);
    let text = encode_utf8(m.body());
    lemma_be_bytes_len(text.len(), LEN_BYTES as nat);
    lemma_be_value_of_bytes(text.len(), LEN_BYTES as nat);
    lemma_small_mod(text.len(), pow256(LEN_BYTES as nat));
    let len_field = be_bytes(text.len(), LEN_BYTES as nat);
    assert(be_value(len_field) == text.len());
    assert(b.len() == HEADER_LEN + text.len());
    if k >= HEADER_LEN {
        assert(b.take(k).subrange(LEN_AT as int, HEADER_LEN as int) =~= len_field);
        assert(!well_formed(b.take(k)));
    }
    assert((b + extra).subrange(LEN_AT as int, HEADER_LEN as int) =~= len_field);
    assert(!well_formed(b + extra));
}

impl PartialEq for Message {
    fn eq(&self, other: &Message) -> (r: bool) {
        match (self, other) {
            (Message::Announce { from: a, name: x }, Message::Announce { from: b, name: y }) => {
                a.same_as(b) && *x == *y
            },
            (Message::Chat { from: a, text: x }, Message::Chat { from: b, text: y }) => {
                a.same_as(b) && *x == *y
            },
            _ => false,
        }
    }
}

impl vstd::std_specs::cmp::PartialEqSpecImpl for Message {
    open spec fn obeys_eq_spec() -> bool {
        true
    }

    open spec fn eq_spec(&self, other: &Message) -> bool {
        self@ == other@
    }
}

fn push_all(out: &mut Vec<u8>, src: &[u8])
    ensures
        final(out)@ == old(out)@ + src@,
{
    let mut i: usize = 0;
    while i < src.len()
        invariant
            i <= src@.len(),
            out@ == old(out)@ + src@.take(i as int),
        decreases src@.len() - i,
    {
        out.push(src[i]);
        i = i + 1;
        assert(src@.take(i as int) =~= src@.take(i - 1) + seq![src@[i - 1]]);
    }
    assert(src@.take(i as int) =~= src@);
}

/// The length field for `n`: its eight bytes, most significant first.
fn be_encode(n: u64) -> (r: [u8; 8])
    ensures
        r@ == be_bytes(n as nat, LEN_BYTES as nat),
{
    let mut out: [u8; 8] = [0u8; 8];
    let mut v: u64 = n;
    let mut i: usize = LEN_BYTES;
    while i > 0
        invariant
            i <= LEN_BYTES,
            out@.len() == LEN_BYTES,
            be_bytes(n as nat, LEN_BYTES as nat) =~= be_bytes(v as nat, i as nat) + out@.skip(i as int),
        decreases i,
    {
        let ghost before = out@;
        out[i - 1] = (v % 256) as u8;
        proof {
            assert(out@.skip(i - 1) =~= seq![(v % 256) as u8] + before.skip(i as int));
            assert(be_bytes(v as nat, i as nat) == be_bytes((v / 256) as nat, (i - 1) as nat).push((v % 256) as u8));
        }
        v = v / 256;
        i = i - 1;
    }
    assert(out@.skip(0) =~= out@);
    out
}

/// The number in the length field of a payload that has a full header.
fn be_decode(bytes: &[u8]) -> (r: u64)
    requires
        bytes@.len() >= HEADER_LEN,
    ensures
        r == be_value(bytes@.subrange(LEN_AT as int, HEADER_LEN as int)),
{
    let mut v: u64 = 0;
    let mut i: usize = 0;
    while i < LEN_BYTES
        invariant
            i <= LEN_BYTES,
            bytes@.len() >= HEADER_LEN,
            v == be_value(bytes@.subrange(LEN_AT as int, LEN_AT + i)),
            v < pow256(i as nat),
        decreases LEN_BYTES - i,
    {
        let ghost prefix = bytes@.subrange(LEN_AT as int, LEN_AT + i);
        let b = bytes[LEN_AT + i];
        proof {
            reveal_with_fuel(pow256, 9);
            let p = pow256(i as nat);
            assert(pow256(i as nat + 1) == 256 * p);
            assert(v * 256 + b < 256 * p) by (nonlinear_arith)
                requires
                    v < p,
                    b < 256,
            ;
            assert(pow256(8) == 0x1_0000_0000_0000_0000);
            assert(pow256(i as nat + 1) <= pow256(8)) by {
                lemma_pow256_monotone(i as nat + 1, 8);
            }
            assert(bytes@.subrange(LEN_AT as int, LEN_AT + i + 1).drop_last() =~= prefix);
        }
        v = v * 256 + b as u64;
        i = i + 1;
    }
    v
}

proof fn lemma_pow256_monotone(a: nat, b: nat)
    requires
        a <= b,
    ensures
        pow256(a) <= pow256(b),
    decreases b - a,
{
    if a < b {
        lemma_pow256_monotone(a, (b - 1) as nat);
        lemma_pow256_positive((b - 1) as nat);
    }
}

impl Message {
    /// The sender's identity.
    pub fn sender(&self) -> (r: PeerId)
        ensures
            r@ == self@.sender(),
    {
        match self {
            Message::Announce { from, .. } => *from,
            Message::Chat { from, .. } => *from,
        }
    }

    /// Encodes the message: never fails, and the same message always gives
    /// the same bytes. Any message held in memory is valid, so its
    /// encoding decodes back to it.
    pub fn to_vec(&self) -> (r: Vec<u8>)
        ensures
            r@ == wire(self@),
            self@.valid(),
    {
        let mut out: Vec<u8> = Vec::new();
        let (tag, from, body) = match self {
            Message::Announce { from, name } => (ANNOUNCE_TAG, from, name),
            Message::Chat { from, text } => (CHAT_TAG, from, text),
        };
        out.push(tag);
        let id = from.to_bytes();
        push_all(&mut out, id.as_slice());
        let text = body.as_str().as_bytes();
        proof {
            reveal_with_fuel(pow256, 9);
        }
        let len_field = be_encode(text.len() as u64);
        push_all(&mut out, len_field.as_slice());
        push_all(&mut out, text);
        assert(out@ =~= wire(self@));
        out
    }

    /// Decodes a payload; fails with `MalformedMessage` exactly when the
    /// bytes are no message's encoding.
    pub fn from_bytes(bytes: &[u8]) -> (r: Result<Message, ChatError>)
        ensures
            match r {
                Ok(m) => decode_spec(bytes@) == Some(m@),
                Err(e) => decode_spec(bytes@) is None && e == ChatError::MalformedMessage,
            },
    {
        if bytes.len() < HEADER_LEN {
            return Err(ChatError::MalformedMessage);
        }
        let tag = bytes[0];
        if tag != ANNOUNCE_TAG && tag != CHAT_TAG {
            return Err(ChatError::MalformedMessage);
        }
        let mut id: [u8; 32] = [0u8; 32];
        let mut i: usize = 0;
        while i < ID_LEN
            invariant
                i <= ID_LEN,
                bytes@.len() >= HEADER_LEN,
                id@.len() == ID_LEN,
                forall|j: int| 0 <= j < i ==> id@[j] == bytes@[j + 1],
            decreases ID_LEN - i,
        {
            id[i] = bytes[i + 1];
            i = i + 1;
        }
        let len = be_decode(bytes);
        if len != (bytes.len() - HEADER_LEN) as u64 {
            return Err(ChatError::MalformedMessage);
        }
        let mut rest: Vec<u8> = Vec::new();
        let mut k: usize = HEADER_LEN;
        while k < bytes.len()
            invariant
                HEADER_LEN <= k <= bytes@.len(),
                rest@ =~= bytes@.subrange(HEADER_LEN as int, k as int),
            decreases bytes@.len() - k,
        {
            rest.push(bytes[k]);
            k = k + 1;
        }
        assert(rest@ =~= bytes@.skip(HEADER_LEN as int));
        assert(id@ =~= bytes@.subrange(1, LEN_AT as int));
        let from = PeerId::from_bytes(id);
        match string_from_utf8(rest) {
            None => Err(ChatError::MalformedMessage),
            Some(body) => {
                if tag == ANNOUNCE_TAG {
                    Ok(Message::Announce { from, name: body })
                } else {
                    Ok(Message::Chat { from, text: body })
                }
            },
        }
    }
}

} // verus!
