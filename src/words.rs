//! Word lists and the human-readable keys drawn from them.

use vstd::prelude::*;
use vstd::std_specs::iter::IteratorSpec;
use rand::Rng;

verus! {

broadcast use vstd::string::group_string_axioms;

/// A line with one trailing carriage return removed.
pub open spec fn strip_cr(line: Seq<char>) -> Seq<char> {
    if line.len() > 0 && line.last() == '\r' {
        line.drop_last()
    } else {
        line
    }
}

/// `words` with `word` added, unless it is empty.
pub open spec fn add_word(words: Seq<Seq<char>>, word: Seq<char>) -> Seq<Seq<char>> {
    if word.len() == 0 {
        words
    } else {
        words.push(word)
    }
}

/// Reading `s` from the left: the words of the lines that `'\n'` ended so
/// far (each without one trailing `'\r'`), and the line that is still open.
pub open spec fn scan_lines(s: Seq<char>) -> (Seq<Seq<char>>, Seq<char>)
    decreases s.len(),
{
    if s.len() == 0 {
        (Seq::empty(), Seq::empty())
    } else {
        let (words, open) = scan_lines(s.drop_last());
        if s.last() == '\n' {
            (add_word(words, strip_cr(open)), Seq::empty())
        } else {
            (words, open.push(s.last()))
        }
    }
}

/// The words of a line-delimited text: its lines split at `'\n'`, one
/// trailing `'\r'` removed from each line that `'\n'` ended (a last line
/// without `'\n'` keeps it), empty ones left out.
pub open spec fn words_of(s: Seq<char>) -> Seq<Seq<char>> {
    add_word(scan_lines(s).0, scan_lines(s).1)
}

/// No word of `v` is empty.
pub open spec fn all_nonempty(v: Seq<Seq<char>>) -> bool {
    forall|i: int| 0 <= i < v.len() ==> (#[trigger] v[i]).len() > 0
}

/// The words of a text are never empty.
pub proof fn lemma_words_nonempty(s: Seq<char>)
    ensures
        all_nonempty(scan_lines(s).0),
        all_nonempty(words_of(s)),
    decreases s.len(),
{
    if s.len() > 0 {
        lemma_words_nonempty(s.drop_last());
    }
}

/// `k` is three non-empty words joined by `'-'`.
pub open spec fn three_words(k: Seq<char>) -> bool {
    exists|a: Seq<char>, b: Seq<char>, n: Seq<char>|
        a.len() > 0 && b.len() > 0 && n.len() > 0 && k == #[trigger] key_of(a, b, n)
}

/// The views of a list of strings.
pub open spec fn views(v: Seq<String>) -> Seq<Seq<char>> {
    v.map_values(|w: String| w@)
}

/// The word `s` contains no path separator.
pub open spec fn separator_free(s: Seq<char>) -> bool {
    forall|i: int| 0 <= i < s.len() ==> s[i] != '/'
}

/// A key: two adjectives and a noun joined by `'-'`.
pub open spec fn key_of(adj_a: Seq<char>, adj_b: Seq<char>, noun: Seq<char>) -> Seq<char> {
    adj_a + seq!['-'] + adj_b + seq!['-'] + noun
}

/// Splits a line-delimited text into its non-blank lines.
pub fn parse_lines(text: &str) -> (r: Vec<String>)
    ensures
        views(r@) == words_of(text@),
{
    let ghost s = text@;
    let n = text.unicode_len();
    let mut it = text.chars();
    let mut words: Vec<String> = Vec::new();
    let mut i: usize = 0;
    let mut start: usize = 0;
    loop
        invariant
            n == s.len(),
            s == text@,
            it.remaining() == s.skip(i as int),
            it.obeys_prophetic_iter_laws(),
            start <= i <= n,
            views(words@) == scan_lines(s.take(i as int)).0,
            s.subrange(start as int, i as int) == scan_lines(s.take(i as int)).1,
        ensures
            i == n,
        decreases n - i,
    {
        let ghost before = it;
        match it.next() {
            None => {
                proof {
                    assert(s.take(i as int) == s);
                }
                break;
            },
            Some(c) => {
                proof {
                    assert(c == s[i as int]);
                    assert(s.take(i as int + 1).drop_last() == s.take(i as int));
                    assert(s.take(i as int + 1).last() == c);
                    assert(s.skip(i as int).drop_first() == s.skip(i as int + 1));
                }
                if c == '\n' {
                    push_line(&mut words, text, start, i, true);
                    start = i + 1;
                    proof {
                        assert(s.subrange(start as int, i as int + 1) == Seq::<char>::empty());
                    }
                } else {
                    proof {
                        assert(s.subrange(start as int, i as int + 1) == s.subrange(
                            start as int,
                            i as int,
                        ).push(c));
                    }
                }
                i = i + 1;
            },
        }
    }
    assert(s.take(n as int) == s);
    push_line(&mut words, text, start, n, false);
    words
}

/// Adds the line `text[start..end]` to `words` unless it is empty; a line
/// that `'\n'` ended (`ended`) first loses one trailing `'\r'`.
fn push_line(words: &mut Vec<String>, text: &str, start: usize, end: usize, ended: bool)
    requires
        start <= end <= text@.len(),
    ensures
        views(final(words)@) == add_word(
            views(old(words)@),
            if ended {
                strip_cr(text@.subrange(start as int, end as int))
            } else {
                text@.subrange(start as int, end as int)
            },
        ),
{
    let ghost line = text@.subrange(start as int, end as int);
    let ghost word = if ended {
        strip_cr(line)
    } else {
        line
    };
    let mut stop = end;
    if ended && start < end && text.get_char(end - 1) == '\r' {
        stop = end - 1;
    }
    assert(text@.subrange(start as int, stop as int) == word);
    if start < stop {
        let w = text.substring_char(start, stop).to_string();
        words.push(w);
        assert(views(words@) == views(old(words)@).push(word));
    } else {
        assert(views(words@) == views(old(words)@));
    }
}

/// Why word lists were refused.
#[derive(Clone, Copy, Debug, PartialEq, Eq, Structural)]
pub enum WordListError {
    /// The adjectives text holds no word.
    NoAdjectives,
    /// The nouns text holds no word.
    NoNouns,
    /// A word holds a path separator, which no key may contain.
    Separator,
}

/// Every word of `v` is free of path separators.
pub open spec fn all_separator_free(v: Seq<Seq<char>>) -> bool {
    forall|i: int| 0 <= i < v.len() ==> separator_free(#[trigger] v[i])
}

/// The two lists that keys are drawn from, loaded once and never changed.
/// Neither list is empty and no word holds a path separator.
#[derive(Debug)]
pub struct WordLists {
    adjectives: Vec<String>,
    nouns: Vec<String>,
}

impl WordLists {
    /// The adjectives, in the order of their text.
    pub closed spec fn adjectives(self) -> Seq<Seq<char>> {
        views(self.adjectives@)
    }

    /// The nouns, in the order of their text.
    pub closed spec fn nouns(self) -> Seq<Seq<char>> {
        views(self.nouns@)
    }

    #[verifier::type_invariant]
    closed spec fn inv(self) -> bool {
        &&& self.adjectives@.len() > 0
        &&& self.nouns@.len() > 0
        &&& all_separator_free(views(self.adjectives@))
        &&& all_separator_free(views(self.nouns@))
        &&& all_nonempty(views(self.adjectives@))
        &&& all_nonempty(views(self.nouns@))
    }

    /// `k` is one of the keys that these lists can give.
    pub open spec fn is_key(self, k: Seq<char>) -> bool {
        exists|i: int, j: int, n: int|
            0 <= i < self.adjectives().len() && 0 <= j < self.adjectives().len() && 0 <= n
                < self.nouns().len() && k == key_of(
                #[trigger] self.adjectives()[i],
                #[trigger] self.adjectives()[j],
                #[trigger] self.nouns()[n],
            )
    }

    /// The word lists of two line-delimited texts. Fails when either holds
    /// no word, or when a word holds a path separator.
    pub fn from_text(adjectives: &str, nouns: &str) -> (r: Result<WordLists, WordListError>)
        ensures
            r matches Ok(w) ==> w.adjectives() == words_of(adjectives@) && w.nouns() == words_of(
                nouns@,
            ),
            r == Err::<WordLists, _>(WordListError::NoAdjectives) <==> words_of(adjectives@).len()
                == 0,
            r == Err::<WordLists, _>(WordListError::NoNouns) <==> words_of(adjectives@).len() > 0
                && words_of(nouns@).len() == 0,
            r == Err::<WordLists, _>(WordListError::Separator) <==> words_of(adjectives@).len() > 0
                && words_of(nouns@).len() > 0 && !(all_separator_free(words_of(adjectives@))
                && all_separator_free(words_of(nouns@))),
    {
        let adjectives_text = adjectives;
        let nouns_text = nouns;
        let adjectives = parse_lines(adjectives_text);
        let nouns = parse_lines(nouns_text);
        if adjectives.len() == 0 {
            return Err(WordListError::NoAdjectives);
        }
        if nouns.len() == 0 {
            return Err(WordListError::NoNouns);
        }
        if !words_separator_free(&adjectives) || !words_separator_free(&nouns) {
            return Err(WordListError::Separator);
        }
        proof {
            lemma_words_nonempty(adjectives_text@);
            lemma_words_nonempty(nouns_text@);
        }
        Ok(WordLists { adjectives, nouns })
    }
}

/// Whether one word is free of path separators.
pub fn word_separator_free(w: &str) -> (r: bool)
    ensures
        r == separator_free(w@),
{
    let n = w.unicode_len();
    let mut i: usize = 0;
    while i < n
        invariant
            n == w@.len(),
            i <= n,
            forall|k: int| 0 <= k < i ==> w@[k] != '/',
        decreases n - i,
    {
        if w.get_char(i) == '/' {
            return false;
        }
        i = i + 1;
    }
    true
}

/// Whether every word of a list is free of path separators.
fn words_separator_free(v: &Vec<String>) -> (r: bool)
    ensures
        r == all_separator_free(views(v@)),
{
    let mut i: usize = 0;
    while i < v.len()
        invariant
            i <= v@.len(),
            forall|k: int| 0 <= k < i ==> separator_free(#[trigger] views(v@)[k]),
        decreases v@.len() - i,
    {
        if !word_separator_free(v[i].as_str()) {
            assert(!separator_free(views(v@)[i as int]));
            return false;
        }
        i = i + 1;
    }
    true
}

/// Joins two adjectives and a noun into a key.
pub fn compose_key(adj_a: &str, adj_b: &str, noun: &str) -> (r: String)
    ensures
        r@ == key_of(adj_a@, adj_b@, noun@),
{
    let mut k = String::from_str(adj_a);
    proof {
        reveal_strlit("-");
    }
    k.append("-");
    k.append(adj_b);
    k.append("-");
    k.append(noun);
    k
}

/// A key built of separator-free words is separator-free.
pub proof fn lemma_key_separator_free(adj_a: Seq<char>, adj_b: Seq<char>, noun: Seq<char>)
    requires
        separator_free(adj_a),
        separator_free(adj_b),
        separator_free(noun),
    ensures
        separator_free(key_of(adj_a, adj_b, noun)),
{
    let k = key_of(adj_a, adj_b, noun);
    assert forall|i: int| 0 <= i < k.len() implies k[i] != '/' by {
        if i < adj_a.len() {
            assert(k[i] == adj_a[i]);
        } else if i == adj_a.len() {
        } else if i < adj_a.len() + 1 + adj_b.len() {
            assert(k[i] == adj_b[i - adj_a.len() - 1]);
        } else if i == adj_a.len() + 1 + adj_b.len() {
        } else {
            assert(k[i] == noun[i - adj_a.len() - 2 - adj_b.len()]);
        }
    }
}

/// Draws a key: two adjectives and a noun, each chosen uniformly and
/// independently. Nothing makes two keys differ: uniqueness rests on the
/// size of the lists.
pub fn generate_key(words: &WordLists) -> (r: String)
    ensures
        words.is_key(r@),
        three_words(r@),
        separator_free(r@),
{
    proof {
        use_type_invariant(words);
    }
    let a = random_index(words.adjectives.len());
    let b = random_index(words.adjectives.len());
    let n = random_index(words.nouns.len());
    let k = compose_key(
        words.adjectives[a].as_str(),
        words.adjectives[b].as_str(),
        words.nouns[n].as_str(),
    );
    proof {
        let adj = words.adjectives();
        let nouns = words.nouns();
        assert(adj[a as int] == words.adjectives@[a as int]@);
        assert(adj[b as int] == words.adjectives@[b as int]@);
        assert(nouns[n as int] == words.nouns@[n as int]@);
        assert(separator_free(adj[a as int]));
        assert(separator_free(adj[b as int]));
        assert(separator_free(nouns[n as int]));
        lemma_key_separator_free(adj[a as int], adj[b as int], nouns[n as int]);
        assert(adj[a as int].len() > 0 && adj[b as int].len() > 0 && nouns[n as int].len() > 0);
        assert(key_of(adj[a as int], adj[b as int], nouns[n as int]) == k@);
    }
    k
}

/// Relies on rand's `Rng::gen_range` over `0..len` with the thread-local
/// generator: an index below `len` (it panics on an empty range).
#[verifier::external_body]
fn random_index(len: usize) -> (r: usize)
    requires
        len > 0,
    ensures
        r < len,
{
    rand::thread_rng().gen_range(0..len)
}

} // verus!
