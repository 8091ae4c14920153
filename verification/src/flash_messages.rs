//! One-time ("flash") messages: a short-lived, request-scoped queue of
//! user-visible notices. A message is queued when a request fails, shown on
//! the next render of the login page, and cleared by that same render, so a
//! reload never shows it twice.

use vstd::prelude::*;
use vstd::string::StringExecFns;

verus! {

/// What one queued message becomes on the login page.
pub open spec fn flash_paragraph(message: Seq<char>) -> Seq<char> {
    "<p><i>"@ + message + "</i></p>\n"@
}

/// The error block of the login page: one paragraph per queued message, in
/// the order they were sent.
pub open spec fn flash_html(messages: Seq<Seq<char>>) -> Seq<char>
    decreases messages.len(),
{
    if messages.len() == 0 {
        Seq::<char>::empty()
    } else {
        flash_html(messages.drop_last()) + flash_paragraph(messages.last())
    }
}

/// The messages queued for the next page render, oldest first.
pub struct FlashMessages {
    pub queued: Vec<String>,
}

impl FlashMessages {
    /// The queued messages as character sequences, oldest first.
    pub open spec fn messages(self) -> Seq<Seq<char>> {
        Seq::new(self.queued@.len(), |i: int| self.queued@[i]@)
    }

    /// An empty queue: nothing pending for the next render.
    pub fn new() -> (q: FlashMessages)
        ensures
            q.messages() == Seq::<Seq<char>>::empty(),
    {
        let q = FlashMessages { queued: Vec::new() };
        proof {
            assert(q.messages() =~= Seq::<Seq<char>>::empty());
        }
        q
    }

    /// Queues one message for the next render.
    pub fn send(&mut self, message: String)
        ensures
            final(self).messages() == old(self).messages().push(message@),
    {
        self.queued.push(message);
        proof {
            assert(self.messages() =~= old(self).messages().push(message@));
        }
    }

    /// Hands out every queued message and clears the queue: each message is
    /// read exactly once.
    pub fn take_all(&mut self) -> (messages: Vec<String>)
        ensures
            messages@ == old(self).queued@,
            final(self).messages() == Seq::<Seq<char>>::empty(),
    {
        let mut messages: Vec<String> = Vec::new();
        core::mem::swap(&mut messages, &mut self.queued);
        proof {
            assert(self.messages() =~= Seq::<Seq<char>>::empty());
        }
        messages
    }

    /// Renders the queued messages as the login page's error block and
    /// clears the queue, so a second render comes out empty.
    pub fn render_html(&mut self) -> (out: String)
        ensures
            out@ == flash_html(old(self).messages()),
            final(self).messages() == Seq::<Seq<char>>::empty(),
    {
        let mut out = String::new();
        let n = self.queued.len();
        let mut i: usize = 0;
        while i < n
            invariant
                *self == *old(self),
                n == self.queued@.len(),
                i <= n,
                out@ == flash_html(self.messages().take(i as int)),
            decreases n - i,
        {
            out.append("<p><i>");
            out.append(self.queued[i].as_str());
            out.append("</i></p>\n");
            proof {
                let prev = self.messages().take(i as int);
                let taken = self.messages().take(i as int + 1);
                assert(taken.drop_last() =~= prev);
                assert(taken.last() == self.queued@[i as int]@);
                assert(out@ =~= flash_html(taken));
            }
            i += 1;
        }
        proof {
            assert(self.messages().take(n as int) =~= self.messages());
        }
        self.queued = Vec::new();
        proof {
            assert(self.messages() =~= Seq::<Seq<char>>::empty());
        }
        out
    }
}

} // verus!
