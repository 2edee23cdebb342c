//! In-memory model of the outbound email-transport collaborator: accepted
//! messages are queued on an outbox, and recipients listed as failing make
//! the send attempt fail, so that callers' failure policies can be stated
//! and exercised.

use vstd::prelude::*;

verus! {

/// One outbound email, as handed to the transport.
pub struct EmailMessage {
    pub recipient: String,
    pub subject: String,
    pub html_body: String,
    pub text_body: String,
}

/// A failed delivery attempt, naming the recipient it failed for.
#[derive(Debug)]
pub struct TransportError {
    pub recipient: String,
}

/// The email-transport collaborator. `outbox` holds every message accepted
/// so far, in order; a send to a recipient listed in `failing_recipients`
/// fails instead.
pub struct EmailClient {
    pub outbox: Vec<EmailMessage>,
    pub failing_recipients: Vec<String>,
}

/// Whether some string in `rows` has exactly the characters of `s`.
pub open spec fn contains_string(rows: Seq<String>, s: Seq<char>) -> bool {
    exists|i: int| 0 <= i < rows.len() && #[trigger] rows[i]@ == s
}

impl EmailClient {
    pub fn new() -> (c: EmailClient)
        ensures
            c.outbox@ =~= Seq::<EmailMessage>::empty(),
            c.failing_recipients@ =~= Seq::<String>::empty(),
    {
        EmailClient { outbox: Vec::new(), failing_recipients: Vec::new() }
    }

    /// Attempts one delivery: queues the message unless the recipient is
    /// listed as failing, in which case nothing is queued and the attempt
    /// fails.
    pub fn send_email(
        &mut self,
        recipient: &String,
        subject: &str,
        html_body: &str,
        text_body: &str,
    ) -> (r: Result<(), TransportError>)
        ensures
            r is Ok <==> !contains_string(old(self).failing_recipients@, recipient@),
            final(self).failing_recipients@ == old(self).failing_recipients@,
            r is Ok ==> final(self).outbox@.len() == old(self).outbox@.len() + 1
                && final(self).outbox@.subrange(0, old(self).outbox@.len() as int)
                == old(self).outbox@
                && final(self).outbox@.last().recipient@ == recipient@
                && final(self).outbox@.last().subject@ == subject@
                && final(self).outbox@.last().html_body@ == html_body@
                && final(self).outbox@.last().text_body@ == text_body@,
            r matches Err(e) ==> final(self).outbox@ == old(self).outbox@ && e.recipient@
                == recipient@,
    {
        let n = self.failing_recipients.len();
        let mut i: usize = 0;
        while i < n
            invariant
                0 <= i <= n,
                n == self.failing_recipients@.len(),
                forall|j: int| 0 <= j < i ==> #[trigger] self.failing_recipients@[j]@ != recipient@,
                *self == *old(self),
            decreases n - i,
        {
            if self.failing_recipients[i].eq(recipient) {
                return Err(TransportError { recipient: recipient.clone() });
            }
            i = i + 1;
        }
        let message = EmailMessage {
            recipient: recipient.clone(),
            subject: subject.to_owned(),
            html_body: html_body.to_owned(),
            text_body: text_body.to_owned(),
        };
        let ghost before = self.outbox@;
        self.outbox.push(message);
        proof {
            assert(self.outbox@.subrange(0, before.len() as int) =~= before);
        }
        Ok(())
    }
}

} // verus!
