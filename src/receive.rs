//! The receive side: each inbound event is decoded, updates the directory
//! and is rendered as a line for the user.
use vstd::prelude::*;
use vstd::string::*;
use crate::codec::{Message, MessageView, decode_spec, wire};
use crate::directory::{PeerDirectory, resolved};
use crate::peer::short_form;

verus! {

/// An event from the topic's inbound stream.
pub enum InboundEvent {
    /// A payload that some member broadcast.
    Payload(Vec<u8>),
    /// A membership or connectivity signal, which carries no payload.
    Signal,
}

impl InboundEvent {
    /// The payload's bytes, if the event carries one.
    pub open spec fn payload(&self) -> Option<Seq<u8>> {
        match self {
            InboundEvent::Payload(b) => Some(b@),
            InboundEvent::Signal => None,
        }
    }
}

/// What handling one event shows the user.
#[derive(Debug)]
pub enum Rendered {
    /// A line of output.
    Line(String),
    /// The payload was malformed and was skipped.
    Malformed,
    /// Nothing to show.
    Nothing,
}

/// The mathematical value of a rendering.
pub enum RenderedView {
    Line(Seq<char>),
    Malformed,
    Nothing,
}

impl View for Rendered {
    type V = RenderedView;

    open spec fn view(&self) -> RenderedView {
        match self {
            Rendered::Line(s) => RenderedView::Line(s@),
            Rendered::Malformed => RenderedView::Malformed,
            Rendered::Nothing => RenderedView::Nothing,
        }
    }
}

/// The notice for an announcement: "<short identity> is now known as <name>".
pub open spec fn known_as_line(id: Seq<u8>, name: Seq<char>) -> Seq<char> {
    short_form(id) + " is now known as "@ + name
}

/// The line for a chat message: "<name>: <text>".
pub open spec fn chat_line(name: Seq<char>, text: Seq<char>) -> Seq<char> {
    name + ": "@ + text
}

/// One step of the receive loop: the directory after an event, and what is
/// shown for it.
pub open spec fn receive_step(
    names: Map<Seq<u8>, Seq<char>>,
    payload: Option<Seq<u8>>,
) -> (Map<Seq<u8>, Seq<char>>, RenderedView) {
    match payload {
        None => (names, RenderedView::Nothing),
        Some(b) => match decode_spec(b) {
            None => (names, RenderedView::Malformed),
            Some(MessageView::Announce { from, name }) => (
                names.insert(from, name),
                RenderedView::Line(known_as_line(from, name)),
            ),
            Some(MessageView::Chat { from, text }) => (
                names,
                RenderedView::Line(chat_line(resolved(names, from), text)),
            ),
        },
    }
}

/// Fault isolation: a payload that does not decode is reported, changes
/// nothing, and the next event is handled as if it had not come.
pub proof fn lemma_fault_isolation(
    names: Map<Seq<u8>, Seq<char>>,
    bad: Seq<u8>,
    next: Option<Seq<u8>>,
)
    requires
        decode_spec(bad) is None,
    ensures
        receive_step(names, Some(bad)) == (names, RenderedView::Malformed),
        receive_step(receive_step(names, Some(bad)).0, next) == receive_step(names, next),
{
}

/// Out-of-order announcement: a chat from an identity not yet announced is
/// shown under its short rendering; once it announces a name, its later
/// chats are shown under that name.
pub proof fn lemma_out_of_order_announce(
    names: Map<Seq<u8>, Seq<char>>,
    id: Seq<u8>,
    early: Seq<char>,
    name: Seq<char>,
    late: Seq<char>,
)
    requires
        (MessageView::Chat { from: id, text: early }).valid(),
        (MessageView::Announce { from: id, name }).valid(),
        (MessageView::Chat { from: id, text: late }).valid(),
        !names.contains_key(id),
    ensures
        ({
            let chat1 = wire(MessageView::Chat { from: id, text: early });
            let announce = wire(MessageView::Announce { from: id, name });
            let chat2 = wire(MessageView::Chat { from: id, text: late });
            let s1 = receive_step(names, Some(chat1));
            let s2 = receive_step(s1.0, Some(announce));
            let s3 = receive_step(s2.0, Some(chat2));
            &&& s1.1 == RenderedView::Line(chat_line(short_form(id), early))
            &&& s2.1 == RenderedView::Line(known_as_line(id, name))
            &&& s3.1 == RenderedView::Line(chat_line(name, late))
        }),
{
    crate::codec::lemma_round_trip(MessageView::Chat { from: id, text: early });
    crate::codec::lemma_round_trip(MessageView::Announce { from: id, name });
    crate::codec::lemma_round_trip(MessageView::Chat { from: id, text: late });
}

/// The receive loop's own state: the directory of announced names.
pub struct ReceiveLoop {
    directory: PeerDirectory,
}

impl View for ReceiveLoop {
    type V = Map<Seq<u8>, Seq<char>>;

    closed spec fn view(&self) -> Map<Seq<u8>, Seq<char>> {
        self.directory@
    }
}

impl ReceiveLoop {
    /// The directory is well formed.
    pub closed spec fn wf(&self) -> bool {
        self.directory.wf()
    }

    /// A loop that knows no names yet.
    pub fn new() -> (r: ReceiveLoop)
        ensures
            r.wf(),
            r@ == Map::<Seq<u8>, Seq<char>>::empty(),
    {
        ReceiveLoop { directory: PeerDirectory::new() }
    }

    /// The directory of names announced so far.
    pub fn directory(&self) -> (r: &PeerDirectory)
        requires
            self.wf(),
        ensures
            r.wf(),
            r@ == self@,
    {
        &self.directory
    }

    /// Handles one inbound event: decodes a payload, records an
    /// announcement, and renders what the user sees. A malformed payload is
    /// reported and changes nothing.
    pub fn handle(&mut self, event: &InboundEvent) -> (r: Rendered)
        requires
            old(self).wf(),
        ensures
            final(self).wf(),
            (final(self)@, r@) == receive_step(old(self)@, event.payload()),
    {
        match event {
            InboundEvent::Signal => Rendered::Nothing,
            InboundEvent::Payload(bytes) => match Message::from_bytes(bytes.as_slice()) {
                Err(_) => Rendered::Malformed,
                Ok(Message::Announce { from, name }) => {
                    let mut line = from.fmt_short();
                    line.append(" is now known as ");
                    line.append(name.as_str());
                    self.directory.record_announcement(from, name);
                    Rendered::Line(line)
                },
                Ok(Message::Chat { from, text }) => {
                    let mut line = self.directory.resolve(&from);
                    line.append(": ");
                    line.append(text.as_str());
                    Rendered::Line(line)
                },
            },
        }
    }
}

} // verus!
