//! Copying text to the clipboard: which backends to try, in which order, and
//! what to report when all of them fail.
use vstd::prelude::*;

verus! {

/// A way to put text on the clipboard.
#[derive(Clone, Copy, Debug, PartialEq, Eq, Structural)]
pub enum CopyTextBackend {
    /// The desktop's clipboard, reached through the windowing system.
    Native,
    /// An OSC 52 escape sequence, which the terminal turns into a clipboard
    /// write; it also works over SSH.
    Osc52,
}

/// The order in which to try the backends. Remote sessions reach the local
/// terminal's clipboard only through OSC 52, so they try it first.
pub open spec fn spec_copy_text_backend_order(remote_session: bool) -> Seq<CopyTextBackend> {
    if remote_session {
        seq![CopyTextBackend::Osc52, CopyTextBackend::Native]
    } else {
        seq![CopyTextBackend::Native, CopyTextBackend::Osc52]
    }
}

pub fn copy_text_backend_order(remote_session: bool) -> (order: [CopyTextBackend; 2])
    ensures
        order@ == spec_copy_text_backend_order(remote_session),
{
    let order = if remote_session {
        [CopyTextBackend::Osc52, CopyTextBackend::Native]
    } else {
        [CopyTextBackend::Native, CopyTextBackend::Osc52]
    };
    assert(order@ =~= spec_copy_text_backend_order(remote_session));
    order
}

/// The failure messages joined by `sep`, in order.
pub open spec fn joined(parts: Seq<Seq<char>>, sep: Seq<char>) -> Seq<char>
    decreases parts.len(),
{
    if parts.len() == 0 {
        Seq::empty()
    } else if parts.len() == 1 {
        parts[0]
    } else {
        joined(parts.drop_last(), sep) + sep + parts.last()
    }
}

/// Every backend failed; `details` lists why, in the order they were tried.
#[derive(Debug, PartialEq, Eq)]
pub struct ClipboardError {
    details: String,
}

impl View for ClipboardError {
    type V = Seq<char>;

    closed spec fn view(&self) -> Seq<char> {
        self.details@
    }
}

impl ClipboardError {
    /// The message of the error.
    pub fn details(&self) -> (details: String)
        ensures
            details@ == self@,
    {
        self.details.clone()
    }
}

/// An attempt to copy text: the backends in the order they are tried, how
/// many have failed so far, and why.
#[derive(Debug)]
pub struct CopyTextAttempts {
    order: [CopyTextBackend; 2],
    failures: Vec<String>,
}

impl CopyTextAttempts {
    /// The backends in the order they are tried.
    pub closed spec fn order(self) -> Seq<CopyTextBackend> {
        self.order@
    }

    /// The failure messages so far, one per backend tried.
    pub closed spec fn failures(self) -> Seq<Seq<char>> {
        self.failures@.map_values(|failure: String| failure@)
    }

    #[verifier::type_invariant]
    closed spec fn at_most_one_failure_per_backend(self) -> bool {
        self.failures@.len() <= 2
    }

    /// A new attempt, in the order that suits the session.
    pub fn new(remote_session: bool) -> (attempts: Self)
        ensures
            attempts.order() == spec_copy_text_backend_order(remote_session),
            attempts.failures().len() == 0,
    {
        let attempts = CopyTextAttempts {
            order: copy_text_backend_order(remote_session),
            failures: Vec::new(),
        };
        assert(attempts.failures() =~= Seq::<Seq<char>>::empty());
        attempts
    }

    /// The backend to try next: the first that has not failed yet.
    pub fn next_backend(&self) -> (backend: Option<CopyTextBackend>)
        ensures
            self.failures().len() < 2 ==> backend == Some(self.order()[self.failures().len() as int]),
            self.failures().len() >= 2 ==> backend is None,
    {
        proof {
            use_type_invariant(self);
        }
        if self.failures.len() < 2 {
            Some(self.order[self.failures.len()])
        } else {
            None
        }
    }

    /// Records that the backend returned by `next_backend` failed, and why.
    pub fn record_failure(&mut self, failure: String)
        requires
            old(self).failures().len() < 2,
        ensures
            final(self).order() == old(self).order(),
            final(self).failures() == old(self).failures().push(failure@),
    {
        proof {
            use_type_invariant(&*self);
        }
        let ghost before = self.failures@;
        let mut failures = Vec::new();
        std::mem::swap(&mut failures, &mut self.failures);
        failures.push(failure);
        self.failures = failures;
        assert(self.failures@.map_values(|f: String| f@) =~= before.map_values(|f: String| f@).push(
            failure@,
        ));
    }

    /// The error to report once every backend failed: the failures joined by
    /// `"; "`.
    pub fn into_error(self) -> (error: ClipboardError)
        ensures
            error@ == joined(self.failures(), "; "@),
    {
        let mut details = String::new();
        let mut i: usize = 0;
        let ghost parts = self.failures();
        assert(parts.take(0) =~= Seq::<Seq<char>>::empty());
        while i < self.failures.len()
            invariant
                i <= self.failures@.len(),
                parts == self.failures@.map_values(|failure: String| failure@),
                details@ == joined(parts.take(i as int), "; "@),
            decreases self.failures.len() - i,
        {
            assert(parts.take(i + 1).drop_last() =~= parts.take(i as int));
            assert(parts.take(i + 1).last() == self.failures@[i as int]@);
            if i > 0 {
                details.append("; ");
            } else {
                assert(parts.take(1) =~= seq![parts[0]]);
            }
            details.append(self.failures[i].as_str());
            i += 1;
        }
        assert(parts.take(parts.len() as int) =~= parts);
        ClipboardError { details }
    }
}

/// Remote sessions try OSC 52 first and the native clipboard second; local
/// sessions the other way round. Either way both backends are tried, each
/// once.
pub proof fn lemma_backend_order(remote_session: bool)
    ensures
        spec_copy_text_backend_order(true) == seq![CopyTextBackend::Osc52, CopyTextBackend::Native],
        spec_copy_text_backend_order(false) == seq![CopyTextBackend::Native, CopyTextBackend::Osc52],
        spec_copy_text_backend_order(remote_session).len() == 2,
        spec_copy_text_backend_order(remote_session)[0] != spec_copy_text_backend_order(
            remote_session,
        )[1],
{
}

/// Joining keeps every message, in order, with the separator between two
/// of them and nowhere else: nothing for no message, the message itself for
/// one, and the two with the separator between them for two.
pub proof fn lemma_joined_messages(a: Seq<char>, b: Seq<char>, sep: Seq<char>)
    ensures
        joined(Seq::<Seq<char>>::empty(), sep) == Seq::<char>::empty(),
        joined(seq![a], sep) == a,
        joined(seq![a, b], sep) == a + sep + b,
{
    assert(seq![a, b].drop_last() =~= seq![a]);
}

} // verus!
