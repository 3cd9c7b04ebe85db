//! A character-chain name generator.
//!
//! The model counts, over a training text, how often each bigram of
//! adjacent characters is followed by the next overlapping bigram, and
//! then emits characters by walking those transition counts at random.
//! Drawing indices by integer counts is exactly drawing by the
//! normalized transition frequencies.

use vstd::prelude::*;

use vstd::string::StrSliceExecFns;

use crate::generate::RPGenerator;
use crate::rng::{fresh_rng, rand_below, seeded_rng};

verus! {

/// The word separators of the training text.
pub open spec fn is_space_char(c: char) -> bool {
    c == ' ' || c == '\n' || c == '\t' || c == '\r'
}

/// Whether a character separates words.
pub fn space_char(c: char) -> (b: bool)
    ensures
        b == is_space_char(c),
{
    c == ' ' || c == '\n' || c == '\t' || c == '\r'
}

/// Both bigrams of the word's transition at position `k` are in the
/// roster.
pub open spec fn trained_on(ngrams: Seq<(char, char)>, word: Seq<char>, k: int) -> bool {
    ngrams.contains((word[k], word[k + 1])) && ngrams.contains((word[k + 1], word[k + 2]))
}

/// The total of a row of transition counts.
pub open spec fn sum_weights(s: Seq<u32>) -> int
    decreases s.len(),
{
    if s.len() == 0 {
        0
    } else {
        sum_weights(s.drop_last()) + s.last()
    }
}

proof fn lemma_sum_weights_prefix(s: Seq<u32>, k: int)
    requires
        0 <= k <= s.len(),
    ensures
        sum_weights(s.take(k)) <= sum_weights(s),
    decreases s.len() - k,
{
    if k == s.len() {
        assert(s.take(k) =~= s);
    } else {
        assert(s.take(k + 1).drop_last() =~= s.take(k));
        assert(s.take(k + 1).last() == s[k]);
        lemma_sum_weights_prefix(s, k + 1);
    }
}

proof fn lemma_sum_weights_bounds(s: Seq<u32>)
    ensures
        0 <= sum_weights(s) <= s.len() * (u32::MAX as int),
    decreases s.len(),
{
    if s.len() > 0 {
        lemma_sum_weights_bounds(s.drop_last());
        assert((s.len() - 1) * (u32::MAX as int) + (u32::MAX as int) == s.len() * (
        u32::MAX as int)) by (nonlinear_arith);
    }
}

/// Draws an index with probability proportional to its weight: index
/// `i` comes with weight `weights[i]` out of the total.  `None` exactly
/// when the weights sum to zero, so a drawn index always has positive
/// weight.
fn sample_weighted_index(rng: &mut rand::rngs::StdRng, weights: &Vec<u32>) -> (r: Option<usize>)
    requires
        weights@.len() <= 0xFFFF_FFFF,
    ensures
        match r {
            Some(i) => i < weights@.len() && weights@[i as int] > 0,
            None => sum_weights(weights@) == 0,
        },
{
    let n = weights.len();
    let mut total: u64 = 0;
    let mut i: usize = 0;
    while i < n
        invariant
            n == weights@.len() <= 0xFFFF_FFFF,
            i <= n,
            total == sum_weights(weights@.take(i as int)),
            total <= (i as int) * (u32::MAX as int),
        decreases n - i,
    {
        proof {
            assert(weights@.take(i + 1).drop_last() =~= weights@.take(i as int));
            assert(weights@.take(i + 1).last() == weights@[i as int]);
            assert((i as int) * (u32::MAX as int) + (u32::MAX as int) == (i + 1) * (
            u32::MAX as int)) by (nonlinear_arith);
        }
        total = total + (weights[i] as u64);
        i += 1;
    }
    proof {
        assert(weights@.take(n as int) =~= weights@);
    }
    if total == 0 {
        return None;
    }
    // Pick a point below the total and find the index whose cumulative
    // range holds it.
    let pick = rand_below(rng, total);
    let mut j: usize = 0;
    let mut seen: u64 = 0;
    while j < n
        invariant
            n == weights@.len(),
            j <= n,
            seen == sum_weights(weights@.take(j as int)),
            0 <= seen <= pick,
            pick < total,
            total == sum_weights(weights@),
        decreases n - j,
    {
        let w = weights[j] as u64;
        proof {
            assert(weights@.take(j + 1).drop_last() =~= weights@.take(j as int));
            assert(weights@.take(j + 1).last() == weights@[j as int]);
            lemma_sum_weights_bounds(weights@.take(j + 1));
            lemma_sum_weights_prefix(weights@, j + 1);
        }
        if pick < seen + w {
            return Some(j);
        }
        seen = seen + w;
        j += 1;
    }
    // The cumulative total over all indices exceeds every admissible
    // pick, so the walk cannot fall off the end.
    proof {
        assert(weights@.take(n as int) =~= weights@);
        assert(false);
    }
    None
}

/// The bigram chain: each known bigram, and for each, how often every
/// other bigram followed it in the training text.
pub struct MarkovModel {
    /// The distinct bigrams, in training order.
    pub ngrams: Vec<(char, char)>,
    /// `occurrences[i][j]` counts how often `ngrams[j]` followed
    /// `ngrams[i]`; rows are extended on demand.
    pub occurrences: Vec<Vec<u32>>,
    /// The bigram emitted last, if any.
    pub last_ngram: Option<usize>,
    /// Whether the second character of the freshly drawn first bigram
    /// is still owed.
    pub first_char: bool,
    /// The generator driving the random walk.
    pub rng: rand::rngs::StdRng,
}

impl MarkovModel {
    /// The chain invariant: one count row per bigram, no row longer
    /// than the bigram roster, all bigrams distinct, and the emission
    /// cursor in range.
    pub open spec fn wf(self) -> bool {
        &&& self.occurrences@.len() == self.ngrams@.len()
        &&& forall|i: int|
            0 <= i < self.occurrences@.len() ==> (#[trigger] self.occurrences@[i])@.len()
                <= self.ngrams@.len()
        &&& forall|i: int, j: int|
            0 <= i < j < self.ngrams@.len() ==> self.ngrams@[i] != self.ngrams@[j]
        &&& self.ngrams@.len() <= 0xFFFF_FFFF
        &&& (self.last_ngram matches Some(i) ==> i < self.ngrams@.len())
    }

    /// The index of a bigram, if it is known.
    fn position_of(&self, g: (char, char)) -> (r: Option<usize>)
        ensures
            match r {
                Some(i) => i < self.ngrams@.len() && self.ngrams@[i as int] == g,
                None => forall|i: int| 0 <= i < self.ngrams@.len() ==> self.ngrams@[i] != g,
            },
    {
        let n = self.ngrams.len();
        let mut i: usize = 0;
        while i < n
            invariant
                n == self.ngrams@.len(),
                i <= n,
                forall|k: int| 0 <= k < i ==> self.ngrams@[k] != g,
            decreases n - i,
        {
            let (a, b) = self.ngrams[i];
            if a == g.0 && b == g.1 {
                return Some(i);
            }
            i += 1;
        }
        None
    }

    /// The index of a bigram, inserting it (with an empty count row)
    /// when it is new.
    fn index_of_or_insert(&mut self, g: (char, char)) -> (i: usize)
        requires
            old(self).wf(),
            old(self).ngrams@.len() < 0xFFFF_FFFF,
        ensures
            final(self).wf(),
            i < final(self).ngrams@.len(),
            final(self).ngrams@[i as int] == g,
            final(self).ngrams@.len() <= old(self).ngrams@.len() + 1,
            old(self).ngrams@.is_prefix_of(final(self).ngrams@),
            final(self).last_ngram == old(self).last_ngram,
            final(self).first_char == old(self).first_char,
            final(self).rng == old(self).rng,
    {
        match self.position_of(g) {
            Some(i) => i,
            None => {
                let i = self.ngrams.len();
                self.ngrams.push(g);
                self.occurrences.push(Vec::new());
                i
            },
        }
    }

    /// Counts one transition from the `src` bigram to the `dst`
    /// bigram, extending the count row on demand.  A saturated count
    /// stays put.
    fn count_transition(&mut self, src: usize, dst: usize)
        requires
            old(self).wf(),
            src < old(self).ngrams@.len(),
            dst < old(self).ngrams@.len(),
        ensures
            final(self).wf(),
            final(self).ngrams == old(self).ngrams,
            final(self).last_ngram == old(self).last_ngram,
            final(self).first_char == old(self).first_char,
            final(self).rng == old(self).rng,
            final(self).occurrences@.len() == old(self).occurrences@.len(),
            forall|i: int|
                0 <= i < old(self).occurrences@.len() && i != src ==> final(self).occurrences@[i]
                    == old(self).occurrences@[i],
            ({
                let r0 = old(self).occurrences@[src as int]@;
                let r1 = final(self).occurrences@[src as int]@;
                &&& r1.len() == (if r0.len() <= dst {
                    dst + 1
                } else {
                    r0.len() as int
                })
                &&& forall|j: int|
                    0 <= j < r1.len() && j != dst ==> r1[j] == (if j < r0.len() {
                        r0[j]
                    } else {
                        0u32
                    })
                &&& r1[dst as int] == (if dst < r0.len() {
                    if r0[dst as int] < u32::MAX {
                        (r0[dst as int] + 1) as u32
                    } else {
                        r0[dst as int]
                    }
                } else {
                    1u32
                })
            }),
    {
        let ghost row0 = self.occurrences@[src as int]@;
        let row = &mut self.occurrences[src];
        while row.len() <= dst
            invariant
                row0.len() <= dst ==> {
                    &&& row0.is_prefix_of(row@)
                    &&& row@.len() <= dst + 1
                    &&& forall|j: int| row0.len() <= j < row@.len() ==> row@[j] == 0u32
                },
                row0.len() > dst ==> row@ == row0,
            decreases dst + 1 - row@.len(),
        {
            row.push(0);
        }
        let c = row[dst];
        if c < u32::MAX {
            row[dst] = c + 1;
        }
    }

    /// Trains the chain on one word: every adjacent bigram transition
    /// of the word is counted, and both of its bigrams enter the
    /// roster.  Words shorter than three characters carry no
    /// transition and train nothing.
    pub fn add_word(&mut self, word: &Vec<char>)
        requires
            old(self).wf(),
            old(self).ngrams@.len() + 2 * word@.len() <= 0xFFFF_FFFF,
        ensures
            final(self).wf(),
            final(self).ngrams@.len() <= old(self).ngrams@.len() + 2 * word@.len(),
            old(self).ngrams@.is_prefix_of(final(self).ngrams@),
            forall|k: int|
                0 <= k && k + 2 < word@.len() ==> #[trigger] trained_on(
                    final(self).ngrams@,
                    word@,
                    k,
                ),
            final(self).last_ngram == old(self).last_ngram,
            final(self).first_char == old(self).first_char,
            final(self).rng == old(self).rng,
    {
        let n = word.len();
        if n < 3 {
            return ;
        }
        let mut i: usize = 0;
        while i + 2 < n
            invariant
                n == word@.len(),
                3 <= n,
                old(self).ngrams@.len() + 2 * n <= 0xFFFF_FFFF,
                i <= n - 2,
                self.wf(),
                self.ngrams@.len() <= old(self).ngrams@.len() + 2 * i,
                old(self).ngrams@.is_prefix_of(self.ngrams@),
                forall|k: int| 0 <= k < i ==> #[trigger] trained_on(self.ngrams@, word@, k),
                self.last_ngram == old(self).last_ngram,
                self.first_char == old(self).first_char,
                self.rng == old(self).rng,
            decreases n - i,
        {
            let ghost before = self.ngrams@;
            let src = self.index_of_or_insert((word[i], word[i + 1]));
            let dst = self.index_of_or_insert((word[i + 1], word[i + 2]));
            proof {
                assert(self.ngrams@.contains((word@[i as int], word@[i + 1]))) by {
                    assert(self.ngrams@[src as int] == (word@[i as int], word@[i + 1]));
                }
                assert(self.ngrams@.contains((word@[i + 1], word@[i + 2]))) by {
                    assert(self.ngrams@[dst as int] == (word@[i + 1], word@[i + 2]));
                }
                assert forall|k: int| 0 <= k < i implies #[trigger] trained_on(
                    self.ngrams@,
                    word@,
                    k,
                ) by {
                    assert(trained_on(before, word@, k));
                    let g1 = (word@[k], word@[k + 1]);
                    let g2 = (word@[k + 1], word@[k + 2]);
                    let w1 = choose|w: int| 0 <= w < before.len() && before[w] == g1;
                    assert(self.ngrams@[w1] == g1);
                    let w2 = choose|w: int| 0 <= w < before.len() && before[w] == g2;
                    assert(self.ngrams@[w2] == g2);
                }
            }
            proof {
                assert(trained_on(self.ngrams@, word@, i as int));
            }
            self.count_transition(src, dst);
            i += 1;
        }
    }

    /// Builds the chain from a training text: its whitespace-separated
    /// words, each counted bigram for bigram.  The walk starts fresh,
    /// seeded from the operating system.
    pub fn new(input: &str) -> (model: MarkovModel)
        requires
            input@.len() <= 0x3FFF_FFFF,
        ensures
            model.wf(),
            model.last_ngram is None,
            model.first_char,
            (forall|j: int| 0 <= j < input@.len() ==> !is_space_char(input@[j])) ==> forall|
                k: int,
            |
                0 <= k && k + 2 < input@.len() ==> #[trigger] trained_on(
                    model.ngrams@,
                    input@,
                    k,
                ),
    {
        let mut model = MarkovModel {
            ngrams: Vec::new(),
            occurrences: Vec::new(),
            last_ngram: None,
            first_char: true,
            rng: fresh_rng(),
        };
        let n = input.unicode_len();
        let mut word: Vec<char> = Vec::new();
        let mut i: usize = 0;
        while i < n
            invariant
                n == input@.len() <= 0x3FFF_FFFF,
                i <= n,
                word@.len() <= i,
                model.wf(),
                model.ngrams@.len() <= 2 * (i - word@.len()),
                model.last_ngram is None,
                model.first_char,
                (forall|j: int| 0 <= j < i ==> !is_space_char(input@[j])) ==> word@ == input@.take(
                    i as int,
                ),
            decreases n - i,
        {
            let c = input.get_char(i);
            if space_char(c) {
                if word.len() > 0 {
                    model.add_word(&word);
                    word = Vec::new();
                }
            } else {
                word.push(c);
                proof {
                    if forall|j: int| 0 <= j <= i ==> !is_space_char(input@[j]) {
                        assert(word@.drop_last() =~= input@.take(i as int));
                        assert(word@ =~= input@.take(i + 1));
                    }
                }
            }
            i += 1;
        }
        if word.len() > 0 {
            model.add_word(&word);
        }
        proof {
            if forall|j: int| 0 <= j < input@.len() ==> !is_space_char(input@[j]) {
                assert(input@.take(n as int) =~= input@);
            }
        }
        model
    }

    /// Restarts the walk's randomness deterministically from one seed
    /// word; training and cursor are untouched.
    pub fn seed(&mut self, s: u64)
        requires
            old(self).wf(),
        ensures
            final(self).wf(),
            final(self).ngrams == old(self).ngrams,
            final(self).occurrences == old(self).occurrences,
            final(self).last_ngram == old(self).last_ngram,
            final(self).first_char == old(self).first_char,
    {
        self.rng = seeded_rng(s);
    }

    /// Emits the next character of the walk.
    ///
    /// The first call draws a uniformly random starting bigram and
    /// emits its first character; the second call emits its second
    /// character; every further call draws the next bigram with
    /// probability proportional to its transition count from the last
    /// one and emits that bigram's second character.  `None` exactly
    /// when nothing can be drawn: the chain is empty, or no transition
    /// was ever counted from the last bigram.
    pub fn next(&mut self) -> (r: Option<char>)
        requires
            old(self).wf(),
        ensures
            final(self).wf(),
            final(self).ngrams == old(self).ngrams,
            final(self).occurrences == old(self).occurrences,
            match old(self).last_ngram {
                None => {
                    &&& (old(self).ngrams@.len() == 0 ==> r is None && final(self).last_ngram
                        is None)
                    &&& (old(self).ngrams@.len() > 0 ==> (final(self).last_ngram matches Some(i)
                        && i < old(self).ngrams@.len() && r == Some(
                        old(self).ngrams@[i as int].0,
                    )))
                    &&& final(self).first_char == old(self).first_char
                },
                Some(src) => {
                    if old(self).first_char {
                        &&& r == Some(old(self).ngrams@[src as int].1)
                        &&& final(self).last_ngram == old(self).last_ngram
                        &&& !final(self).first_char
                    } else {
                        &&& final(self).first_char == old(self).first_char
                        &&& match r {
                            None => sum_weights(old(self).occurrences@[src as int]@) == 0
                                && final(self).last_ngram == old(self).last_ngram,
                            Some(c) => final(self).last_ngram matches Some(j)
                                && j < old(self).ngrams@.len() && (j as int) < old(
                                self,
                            ).occurrences@[src as int]@.len() && old(
                                self,
                            ).occurrences@[src as int]@[j as int] > 0 && c == old(
                                self,
                            ).ngrams@[j as int].1,
                        }
                    }
                },
            },
    {
        match self.last_ngram {
            None => {
                if self.ngrams.len() == 0 {
                    return None;
                }
                // Initialize with a uniformly random bigram; the next
                // call looks back on it and returns a fitting one.
                let i = rand_below(&mut self.rng, self.ngrams.len() as u64) as usize;
                self.last_ngram = Some(i);
                Some(self.ngrams[i].0)
            },
            Some(src) => {
                if self.first_char {
                    self.first_char = false;
                    Some(self.ngrams[src].1)
                } else {
                    let drawn = sample_weighted_index(&mut self.rng, &self.occurrences[src]);
                    match drawn {
                        None => None,
                        Some(j) => {
                            self.last_ngram = Some(j);
                            Some(self.ngrams[j].1)
                        },
                    }
                }
            },
        }
    }
}

impl RPGenerator for MarkovModel {
    type Seed = u64;

    /// A well-formed chain.
    open spec fn inv(&self) -> bool {
        self.wf()
    }

    /// Reseeds the random walk deterministically.
    fn seed(&mut self, s: u64) {
        MarkovModel::seed(self, s);
    }
}

} // verus!
