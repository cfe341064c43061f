//! The input bridge: decisions on each line read from a blocking source, and
//! the single-slot hand-off that carries lines to the send path.
use vstd::prelude::*;
use vstd::string::*;
use crate::error::ChatError;

verus! {

/// A line without its terminator: one trailing "\n" or "\r\n" is removed.
pub open spec fn stripped(s: Seq<char>) -> Seq<char> {
    if s.len() > 0 && s.last() == '\n' {
        let t = s.drop_last();
        if t.len() > 0 && t.last() == '\r' {
            t.drop_last()
        } else {
            t
        }
    } else {
        s
    }
}

/// Removes one trailing line terminator ("\n" or "\r\n") from a line.
pub fn strip_terminator(line: &str) -> (r: String)
    ensures
        r@ == stripped(line@),
{
    let n = line.unicode_len();
    let mut end = n;
    if end > 0 && line.get_char(end - 1) == '\n' {
        end = end - 1;
        assert(line@.drop_last() =~= line@.subrange(0, end as int));
        if end > 0 && line.get_char(end - 1) == '\r' {
            end = end - 1;
            assert(line@.drop_last().drop_last() =~= line@.subrange(0, end as int));
        }
    } else {
        assert(line@.subrange(0, n as int) =~= line@);
    }
    String::from_str(line.substring_char(0, end))
}

/// What one blocking read of the input source gave.
pub enum ReadOutcome {
    /// A line, as read, terminator included where there was one.
    Line(String),
    /// The source has no more input.
    EndOfInput,
    /// The read failed.
    Failed,
}

/// What the bridge does after a read.
#[derive(Debug)]
pub enum BridgeAction {
    /// Hand this line to the send path, then read again.
    Send(String),
    /// Stop reading and close the hand-off, for this reason.
    Stop(ChatError),
}

/// The bridge's decision after a read: a line is handed on without its
/// terminator; the end of input closes the bridge with `InputClosed`, and a
/// failed read with `InputIOError`.
pub fn after_read(outcome: ReadOutcome) -> (r: BridgeAction)
    ensures
        match outcome {
            ReadOutcome::Line(s) => r matches BridgeAction::Send(t) && t@ == stripped(s@),
            ReadOutcome::EndOfInput => r == BridgeAction::Stop(ChatError::InputClosed),
            ReadOutcome::Failed => r == BridgeAction::Stop(ChatError::InputIOError),
        },
{
    match outcome {
        ReadOutcome::Line(s) => BridgeAction::Send(strip_terminator(s.as_str())),
        ReadOutcome::EndOfInput => BridgeAction::Stop(ChatError::InputClosed),
        ReadOutcome::Failed => BridgeAction::Stop(ChatError::InputIOError),
    }
}

/// The mathematical state of a hand-off: the line it holds, if any, and
/// whether the producer has closed it.
pub struct HandOffView {
    pub held: Option<Seq<char>>,
    pub closed: bool,
}

/// What a consumer gets from the hand-off.
#[derive(Debug)]
pub enum Taken {
    /// The line that was waiting.
    Line(String),
    /// No line yet; the producer is still open.
    Empty,
    /// No line, and none will come.
    Closed,
}

/// The mathematical value of what a consumer gets.
pub enum TakenView {
    Line(Seq<char>),
    Empty,
    Closed,
}

impl View for Taken {
    type V = TakenView;

    open spec fn view(&self) -> TakenView {
        match self {
            Taken::Line(s) => TakenView::Line(s@),
            Taken::Empty => TakenView::Empty,
            Taken::Closed => TakenView::Closed,
        }
    }
}

/// Offering a line: accepted only into an empty, open slot; otherwise the
/// state stays as it was and the producer must wait.
pub open spec fn offer_step(h: HandOffView, line: Seq<char>) -> (HandOffView, bool) {
    if h.held is None && !h.closed {
        (HandOffView { held: Some(line), closed: false }, true)
    } else {
        (h, false)
    }
}

/// Taking: the held line, if any, leaves the slot; a closed, empty slot says
/// so; an open, empty one has nothing yet.
pub open spec fn take_step(h: HandOffView) -> (HandOffView, TakenView) {
    match h.held {
        Some(l) => (HandOffView { held: None, closed: h.closed }, TakenView::Line(l)),
        None => (h, if h.closed { TakenView::Closed } else { TakenView::Empty }),
    }
}

/// Backpressure: a line is never read more than one ahead of the consumer.
/// While one line waits, a second offer is refused and changes nothing; once
/// the first is taken, the second is accepted, and lines come out in the
/// order they went in.
pub proof fn lemma_backpressure(first: Seq<char>, second: Seq<char>)
    ensures
        ({
            let empty = HandOffView { held: None, closed: false };
            let (s1, ok1) = offer_step(empty, first);
            let (s2, ok2) = offer_step(s1, second);
            let (s3, out1) = take_step(s2);
            let (s4, ok3) = offer_step(s3, second);
            let (s5, out2) = take_step(s4);
            &&& ok1 && !ok2 && s2 == s1 && ok3
            &&& out1 == TakenView::Line(first)
            &&& out2 == TakenView::Line(second)
            &&& s5 == empty
        }),
{
}

/// Closing loses nothing: a line that waits when the producer closes is
/// still taken, and only then does the consumer see the end.
pub proof fn lemma_close_keeps_held_line(line: Seq<char>)
    ensures
        ({
            let closed = HandOffView { held: Some(line), closed: true };
            let (s1, out1) = take_step(closed);
            let (s2, out2) = take_step(s1);
            &&& out1 == TakenView::Line(line)
            &&& out2 == TakenView::Closed
            &&& s2 == s1
        }),
{
}

/// A slot of capacity one between the input reader and the send path.
pub struct HandOff {
    held: Option<String>,
    closed: bool,
}

impl View for HandOff {
    type V = HandOffView;

    closed spec fn view(&self) -> HandOffView {
        HandOffView {
            held: match self.held {
                Some(s) => Some(s@),
                None => None,
            },
            closed: self.closed,
        }
    }
}

impl HandOff {
    /// An open, empty slot.
    pub fn new() -> (r: HandOff)
        ensures
            r@ == (HandOffView { held: None, closed: false }),
    {
        HandOff { held: None, closed: false }
    }

    /// Whether a line waits in the slot.
    pub fn is_full(&self) -> (r: bool)
        ensures
            r <==> self@.held is Some,
    {
        self.held.is_some()
    }

    /// Whether the producer has closed the slot.
    pub fn is_closed(&self) -> (r: bool)
        ensures
            r == self@.closed,
    {
        self.closed
    }

    /// Offers a line. It is accepted only into an empty, open slot; else the
    /// line comes back and nothing changes.
    pub fn offer(&mut self, line: String) -> (r: Result<(), String>)
        ensures
            (final(self)@, r is Ok) == offer_step(old(self)@, line@),
            r matches Err(l) ==> l@ == line@,
    {
        if self.held.is_none() && !self.closed {
            self.held = Some(line);
            Ok(())
        } else {
            Err(line)
        }
    }

    /// Takes the waiting line, if any.
    pub fn take(&mut self) -> (r: Taken)
        ensures
            (final(self)@, r@) == take_step(old(self)@),
    {
        match self.held.take() {
            Some(l) => Taken::Line(l),
            None => {
                if self.closed {
                    Taken::Closed
                } else {
                    Taken::Empty
                }
            },
        }
    }

    /// Closes the slot: no further line is accepted; one that waits stays.
    pub fn close(&mut self)
        ensures
            final(self)@ == (HandOffView { held: old(self)@.held, closed: true }),
    {
        self.closed = true;
    }
}

} // verus!
