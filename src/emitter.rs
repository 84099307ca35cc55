use vstd::prelude::*;

use crate::output::{emission, emission_lines, lines_view};
use crate::unit::same_text;

verus! {

/// Whether `output` is written, given the output written last (`None` before the first).
pub open spec fn emits(last: Option<Seq<char>>, output: Seq<char>) -> bool {
    last != Some(output)
}

/// The outputs that a run of offers writes, one offer per item of `outputs`,
/// starting from `last`.
pub open spec fn offered(last: Option<Seq<char>>, outputs: Seq<Seq<char>>) -> Seq<Seq<char>>
    decreases outputs.len(),
{
    if outputs.len() == 0 {
        Seq::empty()
    } else {
        let rest = offered(Some(outputs[0]), outputs.drop_first());
        if emits(last, outputs[0]) {
            seq![outputs[0]] + rest
        } else {
            rest
        }
    }
}

/// `s` with each run of equal neighbours collapsed to one item.
pub open spec fn dedup(s: Seq<Seq<char>>) -> Seq<Seq<char>>
    decreases s.len(),
{
    if s.len() <= 1 {
        s
    } else if s[0] == s[1] {
        dedup(s.drop_first())
    } else {
        seq![s[0]] + dedup(s.drop_first())
    }
}

/// Stands in front of the output sink and lets an output through only when it
/// differs from the one emitted last.
pub struct Emitter {
    last: Option<String>,
    streaming: bool,
}

impl Emitter {
    /// The output written last, `None` before the first emission.
    pub closed spec fn last_view(&self) -> Option<Seq<char>> {
        match self.last {
            Some(l) => Some(l@),
            None => None,
        }
    }

    /// Whether each emission is followed by a blank line.
    pub closed spec fn streaming_view(&self) -> bool {
        self.streaming
    }

    pub fn new(streaming: bool) -> (r: Emitter)
        ensures
            r.last_view() == None::<Seq<char>>,
            r.streaming_view() == streaming,
    {
        Emitter { last: None, streaming }
    }

    pub fn is_streaming(&self) -> (r: bool)
        ensures
            r == self.streaming_view(),
    {
        self.streaming
    }

    /// Takes the next mapped `output`; the result holds no line when it repeats
    /// the last emitted output, and one emission of it otherwise.
    pub fn offer(&mut self, output: &str) -> (r: Vec<String>)
        ensures
            lines_view(r@) == (if emits(old(self).last_view(), output@) {
                emission(output@, old(self).streaming_view())
            } else {
                Seq::empty()
            }),
            final(self).last_view() == Some(output@),
            final(self).streaming_view() == old(self).streaming_view(),
    {
        let repeated = match &self.last {
            Some(l) => same_text(l.as_str(), output),
            None => false,
        };
        if repeated {
            let r: Vec<String> = Vec::new();
            assert(lines_view(r@) =~= Seq::empty());
            r
        } else {
            self.last = Some(output.to_owned());
            emission_lines(output, self.streaming)
        }
    }
}

proof fn lemma_dedup_first(s: Seq<Seq<char>>)
    requires
        s.len() > 0,
    ensures
        dedup(s).len() > 0,
        dedup(s)[0] == s[0],
    decreases s.len(),
{
    if s.len() > 1 && s[0] == s[1] {
        lemma_dedup_first(s.drop_first());
    }
}

proof fn lemma_offered_after(x: Seq<char>, s: Seq<Seq<char>>)
    ensures
        offered(Some(x), s) == dedup(seq![x] + s).drop_first(),
    decreases s.len(),
{
    let xs = seq![x] + s;
    assert(xs.drop_first() =~= s);
    if s.len() == 0 {
        assert(xs =~= seq![x]);
    } else {
        assert(xs[1] == s[0]);
        let t = s.drop_first();
        lemma_offered_after(s[0], t);
        assert(seq![s[0]] + t =~= s);
        if s[0] == x {
            lemma_offered_after(x, t);
        } else {
            lemma_dedup_first(s);
            assert((seq![s[0]] + dedup(s).drop_first()) =~= dedup(s));
            assert((seq![x] + dedup(s)).drop_first() =~= dedup(s));
        }
    }
}

/// Over a whole run that begins with nothing emitted, the emitted outputs are
/// the offered ones with consecutive repeats dropped; a value that comes back
/// after a different one is emitted again.
pub proof fn lemma_emitted_outputs(outputs: Seq<Seq<char>>)
    ensures
        offered(None, outputs) == dedup(outputs),
{
    if outputs.len() > 0 {
        let t = outputs.drop_first();
        lemma_offered_after(outputs[0], t);
        assert(seq![outputs[0]] + t =~= outputs);
        lemma_dedup_first(outputs);
        assert((seq![outputs[0]] + dedup(outputs).drop_first()) =~= dedup(outputs));
    }
}

} // verus!
