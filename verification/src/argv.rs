//! Shell-ish argument splitting: whitespace separates words, double quotes group them.
use vstd::prelude::*;

use crate::text::{chars_of, is_whitespace, is_ws, string_of};

verus! {

/// Splitter state after a prefix: finished words, the word being built, inside quotes.
pub struct SplitState {
    pub words: Seq<Seq<char>>,
    pub cur: Seq<char>,
    pub quoted: bool,
}

/// One character step. With `quotes`, a `"` toggles quoting and is dropped; whitespace
/// outside quotes ends the current word (empty words are never emitted).
pub open spec fn split_step(st: SplitState, c: char, quotes: bool) -> SplitState {
    if quotes && c == '"' {
        SplitState { words: st.words, cur: st.cur, quoted: !st.quoted }
    } else if is_ws(c) && !st.quoted {
        if st.cur.len() > 0 {
            SplitState { words: st.words.push(st.cur), cur: Seq::empty(), quoted: st.quoted }
        } else {
            st
        }
    } else {
        SplitState { words: st.words, cur: st.cur.push(c), quoted: st.quoted }
    }
}

pub open spec fn split_fold(s: Seq<char>, quotes: bool) -> SplitState
    decreases s.len(),
{
    if s.len() == 0 {
        SplitState { words: Seq::empty(), cur: Seq::empty(), quoted: false }
    } else {
        split_step(split_fold(s.drop_last(), quotes), s.last(), quotes)
    }
}

pub open spec fn split_finish(st: SplitState) -> Seq<Seq<char>> {
    if st.cur.len() > 0 {
        st.words.push(st.cur)
    } else {
        st.words
    }
}

/// The words of `split_argv`: whitespace-separated, `"` groups and is removed.
pub open spec fn argv_words(s: Seq<char>) -> Seq<Seq<char>> {
    split_finish(split_fold(s, true))
}

/// The words of `str::split_whitespace`.
pub open spec fn whitespace_words(s: Seq<char>) -> Seq<Seq<char>> {
    split_finish(split_fold(s, false))
}

pub open spec fn string_views(v: Seq<String>) -> Seq<Seq<char>> {
    v.map_values(|x: String| x@)
}

fn split_chars(v: &Vec<char>, quotes: bool) -> (r: Vec<String>)
    ensures
        string_views(r@) == split_finish(split_fold(v@, quotes)),
{
    let mut out: Vec<String> = Vec::new();
    let mut cur: Vec<char> = Vec::new();
    let mut quoted = false;
    let mut i: usize = 0;
    assert(string_views(out@) =~= Seq::<Seq<char>>::empty());
    assert(cur@ =~= Seq::<char>::empty());
    assert(v@.take(0) =~= Seq::<char>::empty());
    while i < v.len()
        invariant
            i <= v.len(),
            split_fold(v@.take(i as int), quotes) == (SplitState {
                words: string_views(out@),
                cur: cur@,
                quoted,
            }),
        decreases v.len() - i,
    {
        let c = v[i];
        proof {
            assert(v@.take(i + 1).drop_last() =~= v@.take(i as int));
            assert(v@.take(i + 1).last() == c);
        }
        if quotes && c == '"' {
            quoted = !quoted;
        } else if is_whitespace(c) && !quoted {
            if cur.len() > 0 {
                let w = string_of(&cur);
                let ghost before = string_views(out@);
                out.push(w);
                assert(string_views(out@) =~= before.push(cur@));
                cur = Vec::new();
                assert(cur@ =~= Seq::<char>::empty());
            }
        } else {
            cur.push(c);
        }
        i = i + 1;
    }
    assert(v@.take(v.len() as int) =~= v@);
    if cur.len() > 0 {
        let w = string_of(&cur);
        let ghost before = string_views(out@);
        out.push(w);
        assert(string_views(out@) =~= before.push(cur@));
    }
    out
}

/// Split a shell-ish argv string (whitespace + double quotes).
pub fn split_argv(s: &str) -> (r: Vec<String>)
    ensures
        string_views(r@) == argv_words(s@),
{
    let v = chars_of(s);
    split_chars(&v, true)
}

/// `str::split_whitespace`, collected.
pub fn split_whitespace(s: &str) -> (r: Vec<String>)
    ensures
        string_views(r@) == whitespace_words(s@),
{
    let v = chars_of(s);
    split_chars(&v, false)
}

/// `words` joined with single spaces.
pub open spec fn join_spaces(words: Seq<Seq<char>>) -> Seq<char>
    decreases words.len(),
{
    if words.len() == 0 {
        Seq::empty()
    } else if words.len() == 1 {
        words[0]
    } else {
        join_spaces(words.drop_last()) + seq![' '] + words.last()
    }
}

/// A word that `split_argv` keeps intact: non-empty, no whitespace, no `"`.
pub open spec fn plain_word(w: Seq<char>) -> bool {
    w.len() > 0 && forall|i: int| 0 <= i < w.len() ==> !is_ws(#[trigger] w[i]) && w[i] != '"'
}

pub open spec fn clean_state(st: SplitState) -> bool {
    &&& forall|k: int| 0 <= k < st.words.len() ==> (#[trigger] st.words[k]).len() > 0
    &&& forall|k: int, j: int|
        0 <= k < st.words.len() && 0 <= j < st.words[k].len() ==> #[trigger] st.words[k][j]
            != '"'
    &&& forall|j: int| 0 <= j < st.cur.len() ==> #[trigger] st.cur[j] != '"'
}

proof fn lemma_fold_clean(s: Seq<char>)
    ensures
        clean_state(split_fold(s, true)),
    decreases s.len(),
{
    if s.len() > 0 {
        lemma_fold_clean(s.drop_last());
        let st = split_fold(s.drop_last(), true);
        let n = split_fold(s, true);
        assert(n == split_step(st, s.last(), true));
        if !(s.last() == '"') && is_ws(s.last()) && !st.quoted && st.cur.len() > 0 {
            assert forall|k: int, j: int|
                0 <= k < n.words.len() && 0 <= j < n.words[k].len() implies #[trigger] n.words[k][j]
                != '"' by {
                if k == st.words.len() {
                    assert(n.words[k] == st.cur);
                }
            }
        }
    }
}

/// Every word that `split_argv` yields is non-empty and holds no `"`.
pub proof fn law_argv_words_clean(s: Seq<char>)
    ensures
        forall|k: int| 0 <= k < argv_words(s).len() ==> (#[trigger] argv_words(s)[k]).len() > 0,
        forall|k: int, j: int|
            0 <= k < argv_words(s).len() && 0 <= j < argv_words(s)[k].len()
                ==> #[trigger] argv_words(s)[k][j] != '"',
{
    lemma_fold_clean(s);
    let st = split_fold(s, true);
    if st.cur.len() > 0 {
        assert forall|k: int, j: int|
            0 <= k < argv_words(s).len() && 0 <= j < argv_words(s)[k].len() implies #[trigger] argv_words(
            s,
        )[k][j] != '"' by {
            if k == st.words.len() {
                assert(argv_words(s)[k] == st.cur);
            }
        }
    }
}

proof fn lemma_fold_append_plain(p: Seq<char>, w: Seq<char>)
    requires
        split_fold(p, true).cur.len() == 0,
        !split_fold(p, true).quoted,
        forall|i: int| 0 <= i < w.len() ==> !is_ws(#[trigger] w[i]) && w[i] != '"',
    ensures
        split_fold(p + w, true) == (SplitState {
            words: split_fold(p, true).words,
            cur: w,
            quoted: false,
        }),
    decreases w.len(),
{
    if w.len() == 0 {
        assert(p + w =~= p);
        assert(w =~= split_fold(p, true).cur);
    } else {
        assert((p + w).drop_last() =~= p + w.drop_last());
        assert((p + w).last() == w.last());
        let c = w.last();
        assert(!is_ws(w[w.len() - 1]) && w[w.len() - 1] != '"');
        lemma_fold_append_plain(p, w.drop_last());
        assert(w.drop_last().push(w.last()) =~= w);
        let prev = split_fold(p + w.drop_last(), true);
        assert(split_fold(p + w, true) == split_step(prev, c, true));
    }
}

proof fn lemma_fold_join(words: Seq<Seq<char>>)
    requires
        words.len() > 0,
        forall|k: int| 0 <= k < words.len() ==> plain_word(#[trigger] words[k]),
    ensures
        split_fold(join_spaces(words), true) == (SplitState {
            words: words.drop_last(),
            cur: words.last(),
            quoted: false,
        }),
    decreases words.len(),
{
    if words.len() == 1 {
        assert(plain_word(words[0]));
        lemma_fold_append_plain(Seq::empty(), words[0]);
        assert(Seq::<char>::empty() + words[0] =~= words[0]);
        assert(words.drop_last() =~= Seq::<Seq<char>>::empty());
    } else {
        let init = words.drop_last();
        assert forall|k: int| 0 <= k < init.len() implies plain_word(#[trigger] init[k]) by {
            assert(init[k] == words[k]);
        }
        lemma_fold_join(init);
        let j = join_spaces(init);
        let js = j + seq![' '];
        assert(js.drop_last() =~= j);
        assert(js.last() == ' ');
        assert(is_ws(' '));
        assert(plain_word(init.last()));
        assert(split_fold(js, true) == (SplitState {
            words: init.drop_last().push(init.last()),
            cur: Seq::empty(),
            quoted: false,
        }));
        assert(init.drop_last().push(init.last()) =~= init);
        assert(plain_word(words.last()));
        lemma_fold_append_plain(js, words.last());
        assert(join_spaces(words) == js + words.last());
    }
}

/// Splitting words joined by single spaces gives the words back, when every word is
/// non-empty and holds no whitespace and no `"`.
pub proof fn law_argv_join_round_trip(words: Seq<Seq<char>>)
    requires
        forall|k: int| 0 <= k < words.len() ==> plain_word(#[trigger] words[k]),
    ensures
        argv_words(join_spaces(words)) == words,
{
    if words.len() == 0 {
        assert(join_spaces(words) =~= Seq::<char>::empty());
    } else {
        lemma_fold_join(words);
        assert(plain_word(words.last()));
        assert(words.drop_last().push(words.last()) =~= words);
    }
}

/// Splitting with and without quote handling agrees on text that holds no `"`.
proof fn lemma_fold_quote_free(s: Seq<char>)
    requires
        forall|i: int| 0 <= i < s.len() ==> #[trigger] s[i] != '"',
    ensures
        split_fold(s, true) == split_fold(s, false),
    decreases s.len(),
{
    if s.len() > 0 {
        assert forall|i: int| 0 <= i < s.drop_last().len() implies #[trigger] s.drop_last()[i] != '"' by {
            assert(s.drop_last()[i] == s[i]);
        }
        lemma_fold_quote_free(s.drop_last());
        assert(s.last() == s[s.len() - 1]);
    }
}

/// On text without `"`, `split_argv` splits exactly as `str::split_whitespace` does.
pub proof fn law_argv_without_quotes_is_whitespace_split(s: Seq<char>)
    requires
        forall|i: int| 0 <= i < s.len() ==> #[trigger] s[i] != '"',
    ensures
        argv_words(s) == whitespace_words(s),
{
    lemma_fold_quote_free(s);
}

/// The number of `"` in `s`.
pub open spec fn quote_count(s: Seq<char>) -> nat
    decreases s.len(),
{
    if s.len() == 0 {
        0
    } else {
        quote_count(s.drop_last()) + if s.last() == '"' { 1nat } else { 0nat }
    }
}

/// The characters of `s` that end up in some word: all but each `"` and each whitespace
/// character outside quotes.
pub open spec fn kept_chars(s: Seq<char>) -> Seq<char>
    decreases s.len(),
{
    if s.len() == 0 {
        Seq::empty()
    } else {
        let c = s.last();
        let p = s.drop_last();
        kept_chars(p) + if c == '"' || (is_ws(c) && quote_count(p) % 2 == 0) {
            Seq::empty()
        } else {
            seq![c]
        }
    }
}

/// Words written one after the other.
pub open spec fn concat_words(ws: Seq<Seq<char>>) -> Seq<char>
    decreases ws.len(),
{
    if ws.len() == 0 {
        Seq::empty()
    } else {
        concat_words(ws.drop_last()) + ws.last()
    }
}

proof fn lemma_fold_kept(s: Seq<char>)
    ensures
        concat_words(split_fold(s, true).words) + split_fold(s, true).cur == kept_chars(s),
        split_fold(s, true).quoted == (quote_count(s) % 2 == 1),
    decreases s.len(),
{
    if s.len() == 0 {
        assert(concat_words(Seq::<Seq<char>>::empty()) + Seq::<char>::empty() =~= Seq::<char>::empty());
    } else {
        let p = s.drop_last();
        let c = s.last();
        lemma_fold_kept(p);
        let st = split_fold(p, true);
        let n = split_fold(s, true);
        assert(n == split_step(st, c, true));
        if c == '"' {
            assert(kept_chars(s) =~= kept_chars(p) + Seq::<char>::empty());
        } else if is_ws(c) && !st.quoted {
            assert(kept_chars(s) =~= kept_chars(p) + Seq::<char>::empty());
            if st.cur.len() > 0 {
                assert(st.words.push(st.cur).drop_last() =~= st.words);
                assert(concat_words(n.words) == concat_words(st.words) + st.cur);
                assert(concat_words(n.words) + n.cur =~= concat_words(st.words) + st.cur);
            }
        } else {
            assert(kept_chars(s) =~= kept_chars(p) + seq![c]);
            assert(concat_words(st.words) + st.cur.push(c) =~= (concat_words(st.words) + st.cur) + seq![c]);
        }
    }
}

/// The words of `split_argv` written one after the other give the text back without its
/// `"` and without the whitespace outside quotes.
pub proof fn law_argv_concat_keeps_text(s: Seq<char>)
    ensures
        concat_words(argv_words(s)) == kept_chars(s),
{
    lemma_fold_kept(s);
    let st = split_fold(s, true);
    if st.cur.len() > 0 {
        assert(st.words.push(st.cur).drop_last() =~= st.words);
    } else {
        assert(concat_words(st.words) + st.cur =~= concat_words(st.words));
    }
}

} // verus!
