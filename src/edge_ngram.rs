//! The edge n-gram analyzer stage: leading n-grams of each word, counted in
//! grapheme clusters, over input cut to a cluster budget.
use unicode_segmentation::UnicodeSegmentation;
use vstd::prelude::*;
use vstd::string::StringExecFns;

verus! {

broadcast use vstd::std_specs::vec::group_vec_axioms, vstd::seq::group_seq_axioms;

/// The extended grapheme clusters of a text, in order.
pub uninterp spec fn graphemes_of(s: Seq<char>) -> Seq<Seq<char>>;

/// The words of a text by the Unicode word-boundary rules, in order.
pub uninterp spec fn words_of(s: Seq<char>) -> Seq<Seq<char>>;

pub open spec fn strings_view(v: Seq<String>) -> Seq<Seq<char>> {
    v.map_values(|s: String| s@)
}

/// Relies on `UnicodeSegmentation::graphemes` with extended clusters.
#[verifier::external_body]
fn grapheme_clusters(s: &str) -> (r: Vec<String>)
    ensures
        strings_view(r@) == graphemes_of(s@),
{
    s.graphemes(true).map(|g| g.to_string()).collect()
}

/// Relies on `UnicodeSegmentation::unicode_words`.
#[verifier::external_body]
fn unicode_words(s: &str) -> (r: Vec<String>)
    ensures
        strings_view(r@) == words_of(s@),
{
    s.unicode_words().map(|w| w.to_string()).collect()
}

/// The characters of the pieces, one after the other.
pub open spec fn concat(s: Seq<Seq<char>>) -> Seq<char>
    decreases s.len(),
{
    if s.len() == 0 {
        Seq::empty()
    } else {
        concat(s.drop_last()) + s.last()
    }
}

/// The first `limit` grapheme clusters of a text.
pub open spec fn truncated(text: Seq<char>, limit: nat) -> Seq<char> {
    let g = graphemes_of(text);
    concat(g.take(if limit < g.len() { limit as int } else { g.len() as int }))
}

/// One token of the edge n-gram stream.
#[derive(Debug, Clone, PartialEq, Eq)]
pub struct EdgeToken {
    pub offset_from: usize,
    /// The token's length in grapheme clusters.
    pub offset_to: usize,
    /// The ordinal of the word, among the words that produced tokens.
    pub position: usize,
    pub text: String,
    pub position_length: usize,
}

pub struct TokenSpec {
    pub offset_from: usize,
    pub offset_to: usize,
    pub position: usize,
    pub text: Seq<char>,
    pub position_length: usize,
}

impl View for EdgeToken {
    type V = TokenSpec;

    open spec fn view(&self) -> TokenSpec {
        TokenSpec {
            offset_from: self.offset_from,
            offset_to: self.offset_to,
            position: self.position,
            text: self.text@,
            position_length: self.position_length,
        }
    }
}

pub open spec fn tokens_view(v: Seq<EdgeToken>) -> Seq<TokenSpec> {
    v.map_values(|t: EdgeToken| t@)
}

/// The largest n-gram length for a word of `len` clusters.
pub open spec fn top_gram(len: nat, max_gram: nat) -> nat {
    if max_gram < len {
        max_gram
    } else {
        len
    }
}

/// Whether a word of `len` clusters yields at least one n-gram.
pub open spec fn yields(len: nat, min_gram: nat, max_gram: nat) -> bool {
    min_gram <= top_gram(len, max_gram)
}

/// The n-grams of one word (given by its clusters), shortest first: one for
/// each length from `min_gram` to `min(max_gram, len)`.
pub open spec fn word_grams(g: Seq<Seq<char>>, min_gram: nat, max_gram: nat, position: nat) -> Seq<
    TokenSpec,
> {
    if !yields(g.len(), min_gram, max_gram) {
        Seq::empty()
    } else {
        Seq::new(
            (top_gram(g.len(), max_gram) - min_gram + 1) as nat,
            |k: int|
                TokenSpec {
                    offset_from: 0,
                    offset_to: (min_gram + k) as usize,
                    position: position as usize,
                    text: concat(g.take(min_gram + k)),
                    position_length: 1,
                },
        )
    }
}

/// How many of the words yield n-grams.
pub open spec fn yielding(words: Seq<Seq<Seq<char>>>, min_gram: nat, max_gram: nat) -> nat
    decreases words.len(),
{
    if words.len() == 0 {
        0
    } else {
        yielding(words.drop_last(), min_gram, max_gram) + if yields(
            words.last().len(),
            min_gram,
            max_gram,
        ) {
            1nat
        } else {
            0nat
        }
    }
}

/// The token stream over words given by their clusters: each yielding word
/// contributes its n-grams at its ordinal among the yielding words.
pub open spec fn grams_of_words(words: Seq<Seq<Seq<char>>>, min_gram: nat, max_gram: nat) -> Seq<
    TokenSpec,
>
    decreases words.len(),
{
    if words.len() == 0 {
        Seq::empty()
    } else {
        grams_of_words(words.drop_last(), min_gram, max_gram) + word_grams(
            words.last(),
            min_gram,
            max_gram,
            yielding(words.drop_last(), min_gram, max_gram),
        )
    }
}

/// The token stream of a text: truncate to `limit` clusters, split into
/// words, and take the n-grams of each word.
pub open spec fn edge_ngrams(text: Seq<char>, min_gram: nat, max_gram: nat, limit: nat) -> Seq<
    TokenSpec,
> {
    grams_of_words(
        words_of(truncated(text, limit)).map_values(|w: Seq<char>| graphemes_of(w)),
        min_gram,
        max_gram,
    )
}

pub open spec fn clusters_view(v: Seq<Vec<String>>) -> Seq<Seq<Seq<char>>> {
    v.map_values(|w: Vec<String>| strings_view(w@))
}

proof fn lemma_concat_take_step(g: Seq<Seq<char>>, n: int)
    requires
        0 <= n < g.len(),
    ensures
        concat(g.take(n + 1)) == concat(g.take(n)) + g[n],
{
    assert(g.take(n + 1).drop_last() =~= g.take(n));
}

/// A word too short for the smallest n-gram adds no token and takes no
/// position: wherever it stands among the words, the stream is as if it were
/// not there.
pub proof fn law_short_word_skipped(
    before: Seq<Seq<Seq<char>>>,
    word: Seq<Seq<char>>,
    after: Seq<Seq<Seq<char>>>,
    min_gram: nat,
    max_gram: nat,
)
    requires
        word.len() < min_gram,
    ensures
        grams_of_words(before + seq![word] + after, min_gram, max_gram) == grams_of_words(
            before + after,
            min_gram,
            max_gram,
        ),
        yielding(before + seq![word] + after, min_gram, max_gram) == yielding(
            before + after,
            min_gram,
            max_gram,
        ),
    decreases after.len(),
{
    if after.len() == 0 {
        assert(before + seq![word] + after =~= before.push(word));
        assert(before.push(word).drop_last() =~= before);
        assert(before + after =~= before);
        assert(word_grams(word, min_gram, max_gram, yielding(before, min_gram, max_gram)) =~= Seq::<
            TokenSpec,
        >::empty());
        assert(grams_of_words(before, min_gram, max_gram) + Seq::<TokenSpec>::empty()
            =~= grams_of_words(before, min_gram, max_gram));
    } else {
        let a = after.drop_last();
        law_short_word_skipped(before, word, a, min_gram, max_gram);
        assert((before + seq![word] + after).drop_last() =~= before + seq![word] + a);
        assert((before + after).drop_last() =~= before + a);
        assert((before + seq![word] + after).last() == after.last());
        assert((before + after).last() == after.last());
    }
}

/// An analyzer stage that emits, for each word, its leading n-grams of
/// `min_gram` to `max_gram` grapheme clusters, after cutting the input to its
/// first `limit` clusters.
#[derive(Clone, Debug)]
pub struct EdgeNgramTokenizer {
    pub min_gram: usize,
    pub max_gram: usize,
    pub limit: usize,
}

impl EdgeNgramTokenizer {
    pub fn new(min_gram: usize, max_gram: usize, limit: usize) -> (r: EdgeNgramTokenizer)
        ensures
            r.min_gram == min_gram,
            r.max_gram == max_gram,
            r.limit == limit,
    {
        EdgeNgramTokenizer { min_gram, max_gram, limit }
    }

    /// Appends the n-grams of one word to `out`.
    fn push_word_grams(&self, g: &Vec<String>, position: usize, out: &mut Vec<EdgeToken>)
        requires
            yields(g@.len(), self.min_gram as nat, self.max_gram as nat),
        ensures
            tokens_view(final(out)@) == tokens_view(old(out)@) + word_grams(
                strings_view(g@),
                self.min_gram as nat,
                self.max_gram as nat,
                position as nat,
            ),
    {
        let ghost gv = strings_view(g@);
        let ghost start = tokens_view(out@);
        let hi = if self.max_gram < g.len() {
            self.max_gram
        } else {
            g.len()
        };
        let ghost want = word_grams(gv, self.min_gram as nat, self.max_gram as nat, position as nat);
        let mut prefix = String::new();
        if self.min_gram == 0 {
            out.push(
                EdgeToken {
                    offset_from: 0,
                    offset_to: 0,
                    position,
                    text: prefix.clone(),
                    position_length: 1,
                },
            );
            assert(gv.take(0) =~= Seq::<Seq<char>>::empty());
        }
        let mut n: usize = 0;
        while n < hi
            invariant
                gv == strings_view(g@),
                hi == top_gram(g@.len() as nat, self.max_gram as nat),
                self.min_gram <= hi,
                n <= hi,
                hi <= g@.len(),
                prefix@ == concat(gv.take(n as int)),
                tokens_view(out@) =~= start + want.take(
                    if n < self.min_gram {
                        0
                    } else {
                        n - self.min_gram + 1
                    },
                ),
                want == word_grams(gv, self.min_gram as nat, self.max_gram as nat, position as nat),
            decreases hi - n,
        {
            proof {
                lemma_concat_take_step(gv, n as int);
            }
            prefix.append(g[n].as_str());
            n += 1;
            if n >= self.min_gram {
                let ghost before = tokens_view(out@);
                let t = EdgeToken {
                    offset_from: 0,
                    offset_to: n,
                    position,
                    text: prefix.clone(),
                    position_length: 1,
                };
                out.push(t);
                assert(tokens_view(out@) =~= before.push(t@));
                assert(want[n - self.min_gram] == t@);
                assert(want.take(n - self.min_gram + 1) =~= want.take(n - self.min_gram).push(
                    t@,
                ));
            }
        }
        assert(want.take(want.len() as int) =~= want);
    }

    /// The token stream over words given by their grapheme clusters.
    pub fn grams_of_words(&self, words: &Vec<Vec<String>>) -> (r: Vec<EdgeToken>)
        ensures
            tokens_view(r@) == grams_of_words(
                clusters_view(words@),
                self.min_gram as nat,
                self.max_gram as nat,
            ),
    {
        let ghost wv = clusters_view(words@);
        let mut out: Vec<EdgeToken> = Vec::new();
        let mut position: usize = 0;
        let mut i: usize = 0;
        while i < words.len()
            invariant
                i <= words@.len(),
                wv == clusters_view(words@),
                position as nat == yielding(
                    wv.take(i as int),
                    self.min_gram as nat,
                    self.max_gram as nat,
                ),
                position <= i,
                tokens_view(out@) == grams_of_words(
                    wv.take(i as int),
                    self.min_gram as nat,
                    self.max_gram as nat,
                ),
            decreases words@.len() - i,
        {
            assert(wv.take(i + 1).drop_last() =~= wv.take(i as int));
            assert(wv.take(i + 1).last() == strings_view(words@[i as int]@));
            let g = &words[i];
            let len = g.len();
            let hi = if self.max_gram < len {
                self.max_gram
            } else {
                len
            };
            if self.min_gram <= hi {
                self.push_word_grams(g, position, &mut out);
                position += 1;
            }
            i += 1;
        }
        assert(wv.take(words@.len() as int) =~= wv);
        out
    }

    /// The first `limit` grapheme clusters of `text`.
    fn truncate(&self, text: &str) -> (r: String)
        ensures
            r@ == truncated(text@, self.limit as nat),
    {
        let g = grapheme_clusters(text);
        let ghost gv = strings_view(g@);
        let end = if self.limit < g.len() {
            self.limit
        } else {
            g.len()
        };
        let mut s = String::new();
        let mut k: usize = 0;
        while k < end
            invariant
                end <= g@.len(),
                k <= end,
                gv == strings_view(g@),
                s@ == concat(gv.take(k as int)),
            decreases end - k,
        {
            proof {
                lemma_concat_take_step(gv, k as int);
            }
            s.append(g[k].as_str());
            k += 1;
        }
        s
    }

    /// The edge n-gram tokens of `text`, in stream order.
    pub fn tokenize(&self, text: &str) -> (r: Vec<EdgeToken>)
        ensures
            tokens_view(r@) == edge_ngrams(
                text@,
                self.min_gram as nat,
                self.max_gram as nat,
                self.limit as nat,
            ),
    {
        let cut = self.truncate(text);
        let ws = unicode_words(cut.as_str());
        let mut words: Vec<Vec<String>> = Vec::new();
        let mut i: usize = 0;
        while i < ws.len()
            invariant
                i <= ws@.len(),
                words@.len() == i,
                forall|k: int|
                    0 <= k < i ==> strings_view(#[trigger] words@[k]@) == graphemes_of(ws@[k]@),
            decreases ws@.len() - i,
        {
            let g = grapheme_clusters(ws[i].as_str());
            words.push(g);
            i += 1;
        }
        assert(clusters_view(words@) =~= strings_view(ws@).map_values(
            |w: Seq<char>| graphemes_of(w),
        ));
        self.grams_of_words(&words)
    }
}

} // verus!
