use vstd::prelude::*;
use crate::email::Email;

verus! {

/// Delivers mail; a failure is opaque to the caller.
pub trait EmailClient {
    /// The messages this client accepted for delivery, oldest first: (recipient, subject, body).
    spec fn outbox(&self) -> Seq<(Seq<char>, Seq<char>, Seq<char>)>;

    /// The client never refuses a message.
    spec fn reliable(&self) -> bool;

    /// Hands one message to the transport.
    fn send_email(&mut self, recipient: &Email, subject: &str, content: &str) -> (r: Result<
        (),
        String,
    >)
        ensures
            r is Ok ==> final(self).outbox() == old(self).outbox().push(
                (recipient@, subject@, content@),
            ),
            old(self).reliable() ==> r is Ok,
            final(self).reliable() == old(self).reliable(),
    ;
}

/// A client that delivers nothing, records what it was given, and always succeeds.
#[derive(Clone, Copy)]
pub struct MockEmailClient {
    sent: Ghost<Seq<(Seq<char>, Seq<char>, Seq<char>)>>,
}

impl MockEmailClient {
    pub fn new() -> (r: MockEmailClient)
        ensures
            r.outbox() == Seq::<(Seq<char>, Seq<char>, Seq<char>)>::empty(),
    {
        MockEmailClient { sent: Ghost(Seq::empty()) }
    }
}

impl Default for MockEmailClient {
    fn default() -> (r: MockEmailClient)
        ensures
            r.outbox() == Seq::<(Seq<char>, Seq<char>, Seq<char>)>::empty(),
    {
        MockEmailClient::new()
    }
}

impl EmailClient for MockEmailClient {
    closed spec fn outbox(&self) -> Seq<(Seq<char>, Seq<char>, Seq<char>)> {
        self.sent@
    }

    open spec fn reliable(&self) -> bool {
        true
    }

    fn send_email(&mut self, recipient: &Email, subject: &str, content: &str) -> (r: Result<
        (),
        String,
    >)
        ensures
            r is Ok,
    {
        self.sent = Ghost(self.sent@.push((recipient@, subject@, content@)));
        Ok(())
    }
}

/// The client used when no transport is configured.
pub fn get_email_client() -> (r: MockEmailClient)
    ensures
        r.outbox() == Seq::<(Seq<char>, Seq<char>, Seq<char>)>::empty(),
        r.reliable(),
{
    MockEmailClient::new()
}

} // verus!
