//! Transcript tokens and their accumulation into text.

use crate::text::{trim_text, trimmed};
use vstd::prelude::*;
use vstd::string::*;

verus! {

/// A fragment of transcript. A final token will not be revised by the
/// service; any other token is tentative.
#[derive(Clone, Debug, PartialEq, Eq)]
pub struct TranscriptToken {
    pub text: String,
    pub is_final: bool,
}

/// The text of the tokens of a batch that are final (`want_final`), or of
/// those that are not, joined in the order of the batch.
pub open spec fn batch_text(tokens: Seq<TranscriptToken>, want_final: bool) -> Seq<char>
    decreases tokens.len(),
{
    if tokens.len() == 0 {
        Seq::empty()
    } else if tokens.last().is_final == want_final {
        batch_text(tokens.drop_last(), want_final) + tokens.last().text@
    } else {
        batch_text(tokens.drop_last(), want_final)
    }
}

/// The text of the final tokens of a batch, in order.
pub open spec fn final_part(tokens: Seq<TranscriptToken>) -> Seq<char> {
    batch_text(tokens, true)
}

/// The text of the tentative tokens of a batch, in order.
pub open spec fn pending_part(tokens: Seq<TranscriptToken>) -> Seq<char> {
    batch_text(tokens, false)
}

/// What an accumulator holds.
pub struct AccumulatorView {
    /// Text of every final token seen so far.
    pub final_text: Seq<char>,
    /// Text of the tentative tokens of the latest batch.
    pub pending_text: Seq<char>,
}

impl AccumulatorView {
    /// The text to show: the final text followed by the pending text.
    pub open spec fn display(self) -> Seq<char> {
        self.final_text + self.pending_text
    }

    /// The accumulator after a batch: final tokens are appended to the final
    /// text, and the tentative tokens replace the pending text.
    pub open spec fn after_batch(self, tokens: Seq<TranscriptToken>) -> AccumulatorView {
        AccumulatorView {
            final_text: self.final_text + final_part(tokens),
            pending_text: pending_part(tokens),
        }
    }
}

/// Merges batches of tokens into a final text that only grows and a pending
/// text that each batch replaces.
#[derive(Clone, Debug, PartialEq, Eq)]
pub struct Accumulator {
    final_text: String,
    pending_text: String,
}

impl View for Accumulator {
    type V = AccumulatorView;

    closed spec fn view(&self) -> AccumulatorView {
        AccumulatorView { final_text: self.final_text@, pending_text: self.pending_text@ }
    }
}

impl Accumulator {
    /// An accumulator that has seen no token.
    pub fn new() -> (acc: Accumulator)
        ensures
            acc@.final_text == Seq::<char>::empty(),
            acc@.pending_text == Seq::<char>::empty(),
    {
        Accumulator { final_text: String::new(), pending_text: String::new() }
    }

    /// Takes in one batch, in arrival order. Text that was final before the
    /// call is still there afterwards, unchanged and in front.
    pub fn process_batch(&mut self, tokens: &[TranscriptToken])
        ensures
            final(self)@ == old(self)@.after_batch(tokens@),
            old(self)@.final_text.is_prefix_of(final(self)@.final_text),
    {
        let ghost before = self.final_text@;
        let mut pending = String::new();
        let mut i: usize = 0;
        while i < tokens.len()
            invariant
                i <= tokens.len(),
                self.final_text@ == before + final_part(tokens@.take(i as int)),
                pending@ == pending_part(tokens@.take(i as int)),
            decreases tokens.len() - i,
        {
            proof {
                let head = tokens@.take(i + 1);
                assert(head.drop_last() =~= tokens@.take(i as int));
                assert(head.last() == tokens@[i as int]);
            }
            let token = &tokens[i];
            if token.is_final {
                self.final_text.append(token.text.as_str());
                assert(self.final_text@ =~= before + final_part(tokens@.take(i + 1)));
            } else {
                pending.append(token.text.as_str());
            }
            i += 1;
        }
        proof {
            assert(tokens@.take(i as int) =~= tokens@);
        }
        self.pending_text = pending;
    }

    /// The text to show.
    pub fn display_text(&self) -> (text: String)
        ensures
            text@ == self@.display(),
    {
        let mut text = self.final_text.clone();
        text.append(self.pending_text.as_str());
        text
    }

    pub fn final_text(&self) -> (text: String)
        ensures
            text@ == self@.final_text,
    {
        self.final_text.clone()
    }

    pub fn pending_text(&self) -> (text: String)
        ensures
            text@ == self@.pending_text,
    {
        self.pending_text.clone()
    }

    /// The transcript to hand over when a session ends: the final text
    /// without surrounding whitespace. Pending text is not part of it.
    pub fn finished_text(&self) -> (text: String)
        ensures
            text@ == trimmed(self@.final_text),
    {
        trim_text(self.final_text.as_str())
    }
}

/// Final text accumulates across batches as if the batches were one, and only
/// the last batch decides the pending text.
pub proof fn lemma_batches_compose(
    start: AccumulatorView,
    first: Seq<TranscriptToken>,
    second: Seq<TranscriptToken>,
)
    ensures
        start.after_batch(first).after_batch(second).final_text == start.after_batch(
            first + second,
        ).final_text,
        start.after_batch(first).after_batch(second).pending_text == pending_part(second),
{
    lemma_batch_text_concat(first, second, true);
    assert(start.final_text + final_part(first) + final_part(second) =~= start.final_text + (
    final_part(first) + final_part(second)));
}

proof fn lemma_batch_text_concat(
    first: Seq<TranscriptToken>,
    second: Seq<TranscriptToken>,
    want_final: bool,
)
    ensures
        batch_text(first + second, want_final) == batch_text(first, want_final) + batch_text(
            second,
            want_final,
        ),
    decreases second.len(),
{
    if second.len() == 0 {
        assert(first + second =~= first);
        assert(batch_text(first, want_final) + Seq::<char>::empty() =~= batch_text(
            first,
            want_final,
        ));
    } else {
        let whole = first + second;
        assert(whole.drop_last() =~= first + second.drop_last());
        assert(whole.last() == second.last());
        lemma_batch_text_concat(first, second.drop_last(), want_final);
        if second.last().is_final == want_final {
            assert(batch_text(first, want_final) + batch_text(second.drop_last(), want_final)
                + second.last().text@ =~= batch_text(first, want_final) + (batch_text(
                second.drop_last(),
                want_final,
            ) + second.last().text@));
        }
    }
}

} // verus!
