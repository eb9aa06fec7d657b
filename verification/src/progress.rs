//! The shared progress channel: a mailbox for the download worker's output.
//!
//! The channel itself is a sequential value; the surrounding program shares
//! it between the worker's drain threads and the render loop behind a lock,
//! so each call below happens atomically with respect to the others. The
//! contracts here pin down what any such serialized history can produce:
//! the text is always the newline-terminated concatenation of the whole
//! lines appended so far, and the `done`/`succeeded` pair is exactly what
//! `mark_done` recorded.
use vstd::prelude::*;
use vstd::string::StringExecFns;

verus! {

/// The abstract state of a progress channel: the whole lines appended so
/// far, in the order their appends were serialized, and the completion pair.
pub ghost struct ChannelView {
    pub lines: Seq<Seq<char>>,
    pub done: bool,
    pub succeeded: bool,
}

/// The text that a sequence of appended lines accumulates to: each line
/// followed by a newline, in order.
pub open spec fn flat_lines(lines: Seq<Seq<char>>) -> Seq<char>
    decreases lines.len(),
{
    if lines.len() == 0 {
        Seq::empty()
    } else {
        flat_lines(lines.drop_last()) + lines.last() + seq!['\n']
    }
}

/// `m` is one of the orders in which the elements of `a` and `b` can be
/// serialized: a merge that keeps each side's own order.
pub open spec fn is_interleaving(m: Seq<Seq<char>>, a: Seq<Seq<char>>, b: Seq<Seq<char>>) -> bool
    decreases m.len(),
{
    if a.len() == 0 {
        m == b
    } else if b.len() == 0 {
        m == a
    } else {
        m.len() > 0 && ((m.first() == a.first() && is_interleaving(m.drop_first(),
            a.drop_first(),
            b,
        )) || (m.first() == b.first() && is_interleaving(m.drop_first(), a, b.drop_first())))
    }
}

/// Accumulated worker output plus the completion flags, for one download
/// attempt.
pub struct ProgressChannel {
    output: String,
    done: bool,
    succeeded: bool,
    lines: Ghost<Seq<Seq<char>>>,
}

impl View for ProgressChannel {
    type V = ChannelView;

    closed spec fn view(&self) -> ChannelView {
        ChannelView { lines: self.lines@, done: self.done, succeeded: self.succeeded }
    }
}

impl ProgressChannel {
    /// The stored text is exactly the accumulation of the recorded lines:
    /// no partial fragment can ever be stored.
    pub closed spec fn wf(&self) -> bool {
        self.output@ == flat_lines(self.lines@)
    }

    /// A fresh channel: no output, not done, not succeeded.
    pub fn new() -> (r: ProgressChannel)
        ensures
            r.wf(),
            r@.lines == Seq::<Seq<char>>::empty(),
            !r@.done,
            !r@.succeeded,
    {
        ProgressChannel {
            output: String::new(),
            done: false,
            succeeded: false,
            lines: Ghost(Seq::empty()),
        }
    }

    /// Add one whole line of text, followed by a newline. The completion
    /// pair is untouched.
    pub fn append(&mut self, line: &str)
        requires
            old(self).wf(),
        ensures
            final(self).wf(),
            final(self)@.lines == old(self)@.lines.push(line@),
            final(self)@.done == old(self)@.done,
            final(self)@.succeeded == old(self)@.succeeded,
    {
        self.output.append(line);
        self.output.append("\n");
        proof {
            self.lines@ = self.lines@.push(line@);
            reveal_strlit("\n");
            assert(("\n")@ =~= seq!['\n']);
            assert(self.lines@.drop_last() =~= old(self).lines@);
            assert(self.output@ =~= flat_lines(self.lines@));
        }
    }

    /// Record the worker's terminal outcome. The accumulated text is
    /// untouched, so a reader that sees `done` sees the complete output.
    pub fn mark_done(&mut self, succeeded: bool)
        requires
            old(self).wf(),
        ensures
            final(self).wf(),
            final(self)@.lines == old(self)@.lines,
            final(self)@.done,
            final(self)@.succeeded == succeeded,
    {
        self.done = true;
        self.succeeded = succeeded;
    }

    /// Non-blocking completion poll.
    pub fn is_done(&self) -> (r: bool)
        ensures
            r == self@.done,
    {
        self.done
    }

    /// Whether the attempt succeeded; meaningful once `done` is true.
    pub fn succeeded(&self) -> (r: bool)
        ensures
            r == self@.succeeded,
    {
        self.succeeded
    }

    /// A copy of the accumulated text: always the concatenation of the
    /// whole lines appended so far, never a partial line.
    pub fn snapshot(&self) -> (r: String)
        requires
            self.wf(),
        ensures
            r@ == flat_lines(self@.lines),
    {
        self.output.clone()
    }
}

/// A serialized history made by two writers contains exactly their lines:
/// it is as long as the two line sequences together, and every recorded
/// line is a whole line that one of the two writers appended. Together
/// with the contract of `snapshot`, every snapshot of such a history is a
/// newline-terminated concatenation of whole writer lines — never a
/// partial fragment.
pub proof fn lemma_interleaving_is_whole_lines(
    m: Seq<Seq<char>>,
    a: Seq<Seq<char>>,
    b: Seq<Seq<char>>,
)
    requires
        is_interleaving(m, a, b),
    ensures
        m.len() == a.len() + b.len(),
        forall|i: int| 0 <= i < m.len() ==> a.contains(m[i]) || b.contains(m[i]),
    decreases m.len(),
{
    if a.len() == 0 {
        assert(m == b);
        assert forall|i: int| 0 <= i < m.len() implies a.contains(m[i]) || b.contains(m[i]) by {
            assert(b[i] == m[i]);
        }
    } else if b.len() == 0 {
        assert(m == a);
        assert forall|i: int| 0 <= i < m.len() implies a.contains(m[i]) || b.contains(m[i]) by {
            assert(a[i] == m[i]);
        }
    } else {
        if m.first() == a.first() && is_interleaving(m.drop_first(), a.drop_first(), b) {
            lemma_interleaving_is_whole_lines(m.drop_first(), a.drop_first(), b);
            assert forall|i: int| 0 <= i < m.len() implies a.contains(m[i]) || b.contains(
                m[i],
            ) by {
                if i == 0 {
                    assert(a[0] == m[0]);
                } else {
                    assert(m.drop_first()[i - 1] == m[i]);
                    if a.drop_first().contains(m[i]) {
                        let j = choose|j: int|
                            0 <= j < a.drop_first().len() && a.drop_first()[j] == m[i];
                        assert(a[j + 1] == m[i]);
                    }
                }
            }
        } else {
            lemma_interleaving_is_whole_lines(m.drop_first(), a, b.drop_first());
            assert forall|i: int| 0 <= i < m.len() implies a.contains(m[i]) || b.contains(
                m[i],
            ) by {
                if i == 0 {
                    assert(b[0] == m[0]);
                } else {
                    assert(m.drop_first()[i - 1] == m[i]);
                    if b.drop_first().contains(m[i]) {
                        let j = choose|j: int|
                            0 <= j < b.drop_first().len() && b.drop_first()[j] == m[i];
                        assert(b[j + 1] == m[i]);
                    }
                }
            }
        }
    }
}

} // verus!
