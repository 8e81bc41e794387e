//! The two states of a client's connection: blank, with a message staged for
//! sending, and established.

use vstd::prelude::*;

verus! {

/// A connection that carries no flow yet. It holds the stream and the
/// encoded message that goes out next.
#[derive(Debug)]
pub struct BlankConnection<S> {
    stream: S,
    message_buf: Vec<u8>,
}

/// What a [`BlankConnection`] stands for.
pub struct BlankConnectionView<S> {
    pub stream: S,
    pub message: Seq<u8>,
}

impl<S> View for BlankConnection<S> {
    type V = BlankConnectionView<S>;

    closed spec fn view(&self) -> BlankConnectionView<S> {
        BlankConnectionView { stream: self.stream, message: self.message_buf@ }
    }
}

impl<S> BlankConnection<S> {
    /// A blank connection over `stream`, with no message staged.
    pub fn new(stream: S) -> (connection: Self)
        ensures
            connection@ == (BlankConnectionView { stream, message: Seq::empty() }),
    {
        BlankConnection { stream, message_buf: Vec::new() }
    }

    /// Stages an encoded message in place of the one staged before.
    pub fn stage(&mut self, message: &[u8])
        ensures
            final(self)@ == (BlankConnectionView { stream: old(self)@.stream, message: message@ }),
    {
        self.message_buf.clear();
        self.message_buf.extend_from_slice(message);
        assert(self.message_buf@ =~= message@);
    }

    /// The message staged last.
    pub fn staged(&self) -> (message: &[u8])
        ensures
            message@ == self@.message,
    {
        self.message_buf.as_slice()
    }

    /// Gives the stream up as an established connection.
    pub fn establish(self) -> (connection: EstablishedConnection<S>)
        ensures
            connection@ == self@.stream,
    {
        EstablishedConnection(self.stream)
    }
}

/// A connection that carries a flow.
#[derive(Debug)]
pub struct EstablishedConnection<S>(S);

impl<S> View for EstablishedConnection<S> {
    type V = S;

    closed spec fn view(&self) -> S {
        self.0
    }
}

impl<S> EstablishedConnection<S> {
    /// The stream of the connection.
    pub fn inner(self) -> (stream: S)
        ensures
            stream == self@,
    {
        self.0
    }
}

} // verus!
