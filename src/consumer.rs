use vstd::prelude::*;
use vstd::string::StringExecFns;

verus! {

/// The characters of each token, in order.
pub open spec fn token_chars(ws: Seq<String>) -> Seq<Seq<char>> {
    ws.map_values(|w: String| w@)
}

/// The first `k` tokens of `ws` in order, each followed by one space.
pub open spec fn joined(ws: Seq<Seq<char>>, k: nat) -> Seq<char>
    decreases k,
{
    if k == 0 {
        Seq::empty()
    } else {
        joined(ws, (k - 1) as nat) + ws[k - 1] + seq![' ']
    }
}

/// Words learned after one turn of the singer that sees `counter`, having
/// learned `learned` of `t` words: a turn learns the pending word when the
/// counter holds its position, and then waits for the next one.
pub open spec fn turn_learned(t: nat, learned: nat, counter: nat) -> nat {
    if learned < t && counter == learned + 1 {
        learned + 1
    } else {
        learned
    }
}

/// Words learned by a fresh singer of `t` words whose successive polls saw
/// the counter values `obs`, in order. Whatever the scheduler, a run hands
/// the singer some such sequence of values.
pub open spec fn learned_after(t: nat, obs: Seq<nat>) -> nat
    decreases obs.len(),
{
    if obs.len() == 0 {
        0
    } else {
        turn_learned(t, learned_after(t, obs.drop_last()), obs.last())
    }
}

/// Under any schedule, a singer that only ever sees counter values up to `b`,
/// fewer than its words, learns at most `b` words and so never finishes: its
/// wait for the word at position `b + 1` never ends.
pub proof fn lemma_low_counter_never_finishes(t: nat, b: nat, obs: Seq<nat>)
    requires
        b < t,
        forall|i: int| 0 <= i < obs.len() ==> obs[i] <= b,
    ensures
        learned_after(t, obs) <= b,
        learned_after(t, obs) < t,
    decreases obs.len(),
{
    if obs.len() > 0 {
        lemma_low_counter_never_finishes(t, b, obs.drop_last());
    }
}

/// The words of a text, as `str::split_whitespace` finds them.
pub uninterp spec fn whitespace_words(s: Seq<char>) -> Seq<Seq<char>>;

/// Relies on `str::split_whitespace`: the words of `s` in order, which depend
/// on the characters of `s` alone.
#[verifier::external_body]
fn split_words(s: &str) -> (r: Vec<String>)
    ensures
        token_chars(r@) == whitespace_words(s@),
{
    s.split_whitespace().map(|w| w.to_string()).collect()
}

/// What the singer asks its driver to do after one look at the counter.
#[derive(Debug, Clone, Copy, PartialEq, Eq, Structural)]
pub enum ConsumerAction {
    /// The counter does not hold the position of the pending word yet: yield
    /// to the scheduler and look again later.
    Wait { observed: u64, target: u64 },
    /// The pending word is learned; this many words are learned in all. Look
    /// at the counter again at once.
    Learned(usize),
    /// Every word is learned; the task ends and hands over its song.
    Finished,
}

/// The singer: appends the words of a song one by one, and moves past a word
/// only once the shared counter equals that word's 1-based position.
pub struct Consumer {
    words: Vec<String>,
    learned: usize,
    song: String,
}

impl Consumer {
    pub closed spec fn spec_tokens(&self) -> Seq<Seq<char>> {
        token_chars(self.words@)
    }

    /// How many words are learned, that is, confirmed by the counter.
    pub closed spec fn spec_learned(&self) -> nat {
        self.learned as nat
    }

    /// The song built so far: the learned words and the pending one.
    pub closed spec fn spec_song(&self) -> Seq<char> {
        self.song@
    }

    /// How many words the song holds: the learned ones and the pending one.
    pub open spec fn spec_appended(&self) -> nat {
        if self.spec_learned() < self.spec_tokens().len() {
            self.spec_learned() + 1
        } else {
            self.spec_tokens().len()
        }
    }

    pub open spec fn wf(&self) -> bool {
        &&& self.spec_learned() <= self.spec_tokens().len()
        &&& self.spec_song() == joined(self.spec_tokens(), self.spec_appended())
    }

    pub open spec fn spec_is_finished(&self) -> bool {
        self.spec_learned() == self.spec_tokens().len()
    }

    /// The counter value that confirms the pending word: its 1-based position.
    pub open spec fn spec_target(&self) -> nat {
        self.spec_learned() + 1
    }

    /// A singer that has learned none of `words` and holds the first one, if
    /// any, as its pending word.
    pub fn new(words: Vec<String>) -> (r: Consumer)
        ensures
            r.wf(),
            r.spec_tokens() == token_chars(words@),
            r.spec_learned() == 0,
    {
        let mut song = String::new();
        if words.len() > 0 {
            song.append(words[0].as_str());
            song.append(" ");
        }
        proof {
            let ws = token_chars(words@);
            if words.len() > 0 {
                reveal_strlit(" ");
                assert(ws[0] == words@[0]@);
                assert(joined(ws, 0) =~= Seq::<char>::empty());
                assert(song@ =~= joined(ws, 1));
            }
        }
        Consumer { words, learned: 0, song }
    }

    /// A singer for the whitespace-separated words of `lyrics`.
    pub fn from_lyrics(lyrics: &str) -> (r: Consumer)
        ensures
            r.wf(),
            r.spec_tokens() == whitespace_words(lyrics@),
            r.spec_learned() == 0,
    {
        Consumer::new(split_words(lyrics))
    }

    pub fn word_count(&self) -> (r: usize)
        ensures
            r == self.spec_tokens().len(),
    {
        self.words.len()
    }

    pub fn learned(&self) -> (r: usize)
        ensures
            r == self.spec_learned(),
    {
        self.learned
    }

    pub fn is_finished(&self) -> (r: bool)
        ensures
            r == self.spec_is_finished(),
    {
        self.learned == self.words.len()
    }

    /// The song built so far.
    pub fn song(&self) -> (r: &str)
        ensures
            r@ == self.spec_song(),
    {
        self.song.as_str()
    }

    /// The learned words alone, each followed by a space: the song without
    /// its pending word.
    pub fn learned_song(&self) -> (r: String)
        requires
            self.wf(),
        ensures
            r@ == joined(self.spec_tokens(), self.spec_learned()),
    {
        let ghost ws = self.spec_tokens();
        let mut r = String::new();
        let mut i: usize = 0;
        while i < self.learned
            invariant
                ws == token_chars(self.words@),
                self.learned <= self.words.len(),
                i <= self.learned,
                r@ == joined(ws, i as nat),
            decreases self.learned - i,
        {
            r.append(self.words[i].as_str());
            r.append(" ");
            proof {
                reveal_strlit(" ");
                assert(ws[i as int] == self.words@[i as int]@);
                assert(r@ =~= joined(ws, (i + 1) as nat));
            }
            i = i + 1;
        }
        r
    }

    /// Ends the task and hands over the song.
    pub fn into_song(self) -> (r: String)
        ensures
            r@ == self.spec_song(),
    {
        self.song
    }

    /// One look at the shared counter. When it equals the position of the
    /// pending word, that word is learned and the next one, if any, is
    /// appended to the song; otherwise the singer asks to wait.
    pub fn poll(&mut self, counter: u64) -> (r: ConsumerAction)
        requires
            old(self).wf(),
        ensures
            final(self).wf(),
            final(self).spec_tokens() == old(self).spec_tokens(),
            final(self).spec_learned() == turn_learned(
                old(self).spec_tokens().len(),
                old(self).spec_learned(),
                counter as nat,
            ),
            old(self).spec_is_finished() ==> r == ConsumerAction::Finished
                && final(self).spec_learned() == old(self).spec_learned()
                && final(self).spec_song() == old(self).spec_song(),
            !old(self).spec_is_finished() && counter == old(self).spec_target() ==> r
                == ConsumerAction::Learned(final(self).spec_learned() as usize)
                && final(self).spec_learned() == old(self).spec_learned() + 1,
            !old(self).spec_is_finished() && counter != old(self).spec_target() ==> r == (
            ConsumerAction::Wait { observed: counter, target: old(self).spec_target() as u64 })
                && final(self).spec_learned() == old(self).spec_learned()
                && final(self).spec_song() == old(self).spec_song(),
    {
        if self.learned == self.words.len() {
            return ConsumerAction::Finished;
        }
        let target: u64 = (self.learned + 1) as u64;
        if counter != target {
            return ConsumerAction::Wait { observed: counter, target };
        }
        self.learned = self.learned + 1;
        if self.learned < self.words.len() {
            let ghost ws = token_chars(self.words@);
            self.song.append(self.words[self.learned].as_str());
            self.song.append(" ");
            proof {
                reveal_strlit(" ");
                assert(ws[self.learned as int] == self.words@[self.learned as int]@);
                assert(self.song@ =~= joined(ws, (self.learned + 1) as nat));
            }
        }
        ConsumerAction::Learned(self.learned)
    }
}

} // verus!
