//! What a run has to write to the console, in the order in which it is
//! written.
//!
//! The library never writes by itself.  It records every text together with
//! the stream that it is meant for; the caller takes the recorded messages
//! and writes each one, unchanged, to its stream.

use vstd::prelude::*;

verus! {

/// One of the two console streams.
#[derive(Clone, Copy, Debug, PartialEq, Eq, Structural, Hash)]
pub enum Stream {
    /// The standard output: progress lines and echoed output.
    Stdout,
    /// The standard error: diagnostics and echoed error output.
    Stderr,
}

/// A text to be written, as it is, to one stream.
#[derive(Clone, Debug, PartialEq, Eq)]
pub struct Message {
    /// The stream to write to.
    pub stream: Stream,
    /// The text to write, line breaks included.
    pub text: String,
}

/// The mathematical value of a [`Message`].
pub struct Line {
    pub stream: Stream,
    pub text: Seq<char>,
}

impl View for Message {
    type V = Line;

    open spec fn view(&self) -> Line {
        Line { stream: self.stream, text: self.text@ }
    }
}

/// A text for the standard output.
pub open spec fn out(text: Seq<char>) -> Line {
    Line { stream: Stream::Stdout, text }
}

/// A text for the standard error.
pub open spec fn err(text: Seq<char>) -> Line {
    Line { stream: Stream::Stderr, text }
}

/// The values of a sequence of messages, in the same order.
pub open spec fn lines(messages: Seq<Message>) -> Seq<Line> {
    messages.map_values(|message: Message| message@)
}

/// The messages recorded so far and not yet taken by the caller.
#[derive(Debug)]
pub struct Console {
    messages: Vec<Message>,
}

impl View for Console {
    type V = Seq<Line>;

    closed spec fn view(&self) -> Seq<Line> {
        lines(self.messages@)
    }
}

impl Console {
    /// A console on which nothing is recorded.
    pub fn new() -> (console: Console)
        ensures
            console@ == Seq::<Line>::empty(),
    {
        Console { messages: Vec::new() }
    }

    fn record(&mut self, stream: Stream, text: String)
        ensures
            final(self)@ == old(self)@.push(Line { stream, text: text@ }),
    {
        self.messages.push(Message { stream, text });
        assert(self@ =~= old(self)@.push(Line { stream, text: text@ }));
    }

    /// Records a text for the standard output.
    pub fn print(&mut self, text: String)
        ensures
            final(self)@ == old(self)@.push(out(text@)),
    {
        self.record(Stream::Stdout, text);
    }

    /// Records a text for the standard error.
    pub fn eprint(&mut self, text: String)
        ensures
            final(self)@ == old(self)@.push(err(text@)),
    {
        self.record(Stream::Stderr, text);
    }

    /// The messages recorded and not yet taken, oldest first.
    pub fn messages(&self) -> (messages: &Vec<Message>)
        ensures
            lines(messages@) == self@,
    {
        &self.messages
    }

    /// Hands out the recorded messages, oldest first, and leaves the console
    /// empty.
    pub fn take(&mut self) -> (taken: Vec<Message>)
        ensures
            lines(taken@) == old(self)@,
            final(self)@ == Seq::<Line>::empty(),
    {
        let mut taken: Vec<Message> = Vec::new();
        core::mem::swap(&mut self.messages, &mut taken);
        taken
    }
}

} // verus!
