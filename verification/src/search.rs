use vstd::prelude::*;
use vstd::string::*;

verus! {

/// What `str::to_lowercase` gives for a string.
pub uninterp spec fn lowercase(s: Seq<char>) -> Seq<char>;

/// Calls `str::to_lowercase`. Trusted: the result is the Unicode lowercase form
/// of `s` (named `lowercase`, a function of `s` alone); the lowercase form of
/// the empty string is empty.
#[verifier::external_body]
fn to_lowercase(s: &str) -> (r: String)
    ensures
        r@ == lowercase(s@),
        s@.len() == 0 ==> r@.len() == 0,
{
    s.to_lowercase()
}

/// The pieces that `str::split(' ')` cuts a string into: the runs between
/// single spaces, empty runs included.
pub open spec fn split_spaces(s: Seq<char>) -> Seq<Seq<char>>
    decreases s.len(),
{
    if s.len() == 0 {
        seq![Seq::<char>::empty()]
    } else {
        let pieces = split_spaces(s.drop_last());
        if s.last() == ' ' {
            pieces.push(Seq::<char>::empty())
        } else {
            pieces.update(pieces.len() - 1, pieces.last().push(s.last()))
        }
    }
}

/// `word` occurs in `text` as a contiguous run.
pub open spec fn occurs_in(word: Seq<char>, text: Seq<char>) -> bool {
    exists|i: int| 0 <= i && i + word.len() <= text.len() && #[trigger] text.subrange(i, i + word.len()) == word
}

/// Every non-empty word of `words` occurs in `text`.
pub open spec fn all_words_occur(words: Seq<Seq<char>>, text: Seq<char>) -> bool {
    forall|k: int| 0 <= k < words.len() && words[k].len() > 0 ==> occurs_in(#[trigger] words[k], text)
}

/// An item whose text is `label` is kept by the search `query`: ignoring case,
/// every space-separated word of the query occurs in the label (so the empty
/// query keeps every item).
pub open spec fn query_matches(query: Seq<char>, label: Seq<char>) -> bool {
    query.len() == 0 || all_words_occur(split_spaces(lowercase(query)), lowercase(label))
}

/// The indices, in increasing order, of the labels that the query keeps.
pub open spec fn matching_indices(query: Seq<char>, labels: Seq<Seq<char>>) -> Seq<int>
    decreases labels.len(),
{
    if labels.len() == 0 {
        Seq::<int>::empty()
    } else {
        let kept = matching_indices(query, labels.drop_last());
        if query_matches(query, labels.last()) {
            kept.push(labels.len() - 1)
        } else {
            kept
        }
    }
}

/// The views of a slice of strings.
pub open spec fn label_views(labels: Seq<String>) -> Seq<Seq<char>> {
    labels.map_values(|s: String| s@)
}

/// The kept indices point into the labels.
pub proof fn lemma_matching_indices_in_range(query: Seq<char>, labels: Seq<Seq<char>>, k: int)
    requires
        0 <= k < matching_indices(query, labels).len(),
    ensures
        0 <= matching_indices(query, labels)[k] < labels.len(),
    decreases labels.len(),
{
    if labels.len() > 0 {
        let kept = matching_indices(query, labels.drop_last());
        if k < kept.len() {
            lemma_matching_indices_in_range(query, labels.drop_last(), k);
        }
    }
}

/// The query keeps exactly the labels it matches, each once, in the order
/// they come: the kept indices increase, each points at a label that the
/// query matches, and every label that it matches is kept.
pub proof fn lemma_matching_indices_exact(query: Seq<char>, labels: Seq<Seq<char>>)
    ensures
        forall|k: int| 0 <= k < matching_indices(query, labels).len() ==> {
            &&& 0 <= #[trigger] matching_indices(query, labels)[k] < labels.len()
            &&& query_matches(query, labels[matching_indices(query, labels)[k]])
        },
        forall|k: int, l: int| 0 <= k < l < matching_indices(query, labels).len()
            ==> #[trigger] matching_indices(query, labels)[k] < #[trigger] matching_indices(query, labels)[l],
        forall|i: int| 0 <= i < labels.len() && query_matches(query, #[trigger] labels[i])
            ==> matching_indices(query, labels).contains(i),
    decreases labels.len(),
{
    if labels.len() > 0 {
        let rest = labels.drop_last();
        let kept = matching_indices(query, rest);
        lemma_matching_indices_exact(query, rest);
        let all = matching_indices(query, labels);
        assert forall|k: int| 0 <= k < all.len() implies {
            &&& 0 <= #[trigger] all[k] < labels.len()
            &&& query_matches(query, labels[all[k]])
        } by {
            if k < kept.len() {
                assert(all[k] == kept[k]);
                assert(rest[kept[k]] == labels[kept[k]]);
            }
        }
        assert forall|k: int, l: int| 0 <= k < l < all.len() implies #[trigger] all[k] < #[trigger] all[l] by {
            if l < kept.len() {
                assert(all[k] == kept[k] && all[l] == kept[l]);
            } else {
                assert(all[k] == kept[k]);
            }
        }
        assert forall|i: int| 0 <= i < labels.len() && query_matches(query, #[trigger] labels[i]) implies all.contains(i) by {
            if i < labels.len() - 1 {
                assert(rest[i] == labels[i]);
                let k = choose|k: int| 0 <= k < kept.len() && kept[k] == i;
                assert(all[k] == i);
            } else {
                assert(all[all.len() - 1] == i);
            }
        }
    }
}

/// The empty query keeps every label, in order.
pub proof fn lemma_empty_query_keeps_all(query: Seq<char>, labels: Seq<Seq<char>>)
    requires
        query.len() == 0,
    ensures
        matching_indices(query, labels) == Seq::new(labels.len(), |i: int| i),
    decreases labels.len(),
{
    if labels.len() > 0 {
        lemma_empty_query_keeps_all(query, labels.drop_last());
        assert(matching_indices(query, labels) =~= Seq::new(labels.len(), |i: int| i));
    } else {
        assert(matching_indices(query, labels) =~= Seq::new(labels.len(), |i: int| i));
    }
}

/// The characters of a string.
fn chars_of(s: &str) -> (v: Vec<char>)
    ensures
        v@ == s@,
{
    let n = s.unicode_len();
    let mut v: Vec<char> = Vec::new();
    let mut i: usize = 0;
    while i < n
        invariant
            n == s@.len(),
            i <= n,
            v@ == s@.take(i as int),
        decreases n - i,
    {
        let c = s.get_char(i);
        v.push(c);
        i = i + 1;
        assert(v@ =~= s@.take(i as int));
    }
    assert(v@ =~= s@);
    v
}

/// Whether `text` holds `word` at position `at`.
fn occurs_at(word: &Vec<char>, text: &Vec<char>, at: usize) -> (r: bool)
    requires
        at + word@.len() <= text@.len(),
    ensures
        r == (text@.subrange(at as int, at + word@.len()) == word@),
{
    let mut k: usize = 0;
    while k < word.len()
        invariant
            at + word@.len() <= text@.len(),
            k <= word@.len(),
            forall|j: int| 0 <= j < k ==> text@[at + j] == word@[j],
        decreases word@.len() - k,
    {
        assert(at + k < text.len());
        if text[at + k] != word[k] {
            assert(text@.subrange(at as int, at + word@.len())[k as int] != word@[k as int]);
            return false;
        }
        k = k + 1;
    }
    assert(text@.subrange(at as int, at + word@.len()) =~= word@);
    true
}

/// Whether `word` occurs in `text` (what `str::contains` answers).
fn contains_word(text: &Vec<char>, word: &Vec<char>) -> (r: bool)
    ensures
        r == occurs_in(word@, text@),
{
    if word.len() > text.len() {
        return false;
    }
    let last = text.len() - word.len();
    let mut i: usize = 0;
    loop
        invariant
            last == text@.len() - word@.len(),
            word@.len() <= text@.len(),
            i <= last,
            forall|j: int| 0 <= j < i ==> #[trigger] text@.subrange(j, j + word@.len()) != word@,
        decreases last - i,
    {
        if occurs_at(word, text, i) {
            return true;
        }
        if i == last {
            return false;
        }
        i = i + 1;
    }
}

/// Whether every non-empty word of the (already lowercased) query occurs in
/// the (already lowercased) text.
fn words_occur(query: &Vec<char>, text: &Vec<char>) -> (r: bool)
    ensures
        r == all_words_occur(split_spaces(query@), text@),
{
    let mut ok = true;
    let mut word: Vec<char> = Vec::new();
    let mut i: usize = 0;
    proof {
        assert(query@.take(0) =~= Seq::<char>::empty());
    }
    while i < query.len()
        invariant
            i <= query@.len(),
            split_spaces(query@.take(i as int)).len() >= 1,
            word@ == split_spaces(query@.take(i as int)).last(),
            ok == (forall|k: int|
                0 <= k < split_spaces(query@.take(i as int)).len() - 1
                    && split_spaces(query@.take(i as int))[k].len() > 0
                    ==> occurs_in(#[trigger] split_spaces(query@.take(i as int))[k], text@)),
        decreases query@.len() - i,
    {
        let ghost before = split_spaces(query@.take(i as int));
        let c = query[i];
        proof {
            assert(query@.take(i + 1).drop_last() =~= query@.take(i as int));
            assert(query@.take(i + 1).last() == c);
        }
        if c == ' ' {
            let ghost old_ok = ok;
            let ghost had_word = word@.len() > 0;
            let mut found = true;
            if word.len() > 0 {
                found = contains_word(text, &word);
                ok = ok && found;
            }
            proof {
                let after = split_spaces(query@.take(i + 1));
                assert(after == before.push(Seq::<char>::empty()));
                let last_k = before.len() - 1;
                assert(after[last_k] == word@);
                assert(had_word ==> found == occurs_in(word@, text@));
                if ok {
                    assert forall|k: int| 0 <= k < after.len() - 1 && after[k].len() > 0
                        implies occurs_in(#[trigger] after[k], text@) by {
                        if k < last_k {
                            assert(after[k] == before[k]);
                        }
                    }
                } else if !old_ok {
                    let k = choose|k: int| 0 <= k < before.len() - 1 && before[k].len() > 0
                        && !occurs_in(#[trigger] before[k], text@);
                    assert(after[k] == before[k]);
                } else {
                    assert(after[last_k].len() > 0 && !occurs_in(after[last_k], text@));
                }
            }
            word = Vec::new();
        } else {
            word.push(c);
            proof {
                let after = split_spaces(query@.take(i + 1));
                assert(after == before.update(before.len() - 1, before.last().push(c)));
                assert forall|k: int| 0 <= k < after.len() - 1 implies #[trigger] after[k] == before[k] by {}
                if ok {
                    assert forall|k: int| 0 <= k < after.len() - 1 && after[k].len() > 0
                        implies occurs_in(#[trigger] after[k], text@) by {
                        assert(after[k] == before[k]);
                    }
                } else {
                    let k = choose|k: int| 0 <= k < before.len() - 1 && before[k].len() > 0
                        && !occurs_in(#[trigger] before[k], text@);
                    assert(after[k] == before[k]);
                }
            }
        }
        i = i + 1;
    }
    proof {
        assert(query@.take(query@.len() as int) =~= query@);
    }
    if word.len() > 0 {
        let found = contains_word(text, &word);
        ok = ok && found;
    }
    ok
}

/// The items of `items` whose labels the search `query` keeps, in their order.
///
/// `labels[i]` is the text shown for `items[i]`. Case is ignored, and an item
/// is kept when every space-separated word of the query occurs in its label;
/// a query without words keeps every item.
pub fn filtered_items_from_query<'a, T>(query: &str, items: &'a [T], labels: &[String]) -> (r: Vec<&'a T>)
    requires
        items@.len() == labels@.len(),
    ensures
        r@.len() == matching_indices(query@, label_views(labels@)).len(),
        forall|k: int| 0 <= k < r@.len() ==>
            *r@[k] == items@[#[trigger] matching_indices(query@, label_views(labels@))[k]],
        query@.len() == 0 ==> r@.len() == items@.len(),
        query@.len() == 0 ==> forall|k: int| 0 <= k < r@.len() ==> *r@[k] == items@[k],
{
    let ghost all = label_views(labels@);
    let lowered = to_lowercase(query);
    let q = chars_of(lowered.as_str());
    let mut r: Vec<&'a T> = Vec::new();
    let mut i: usize = 0;
    while i < items.len()
        invariant
            items@.len() == labels@.len(),
            all == label_views(labels@),
            q@ == lowercase(query@),
            query@.len() == 0 ==> q@.len() == 0,
            i <= items@.len(),
            r@.len() == matching_indices(query@, all.take(i as int)).len(),
            forall|k: int| 0 <= k < r@.len() ==>
                *r@[k] == items@[#[trigger] matching_indices(query@, all.take(i as int))[k]],
        decreases items@.len() - i,
    {
        let ghost before = matching_indices(query@, all.take(i as int));
        let lowered_label = to_lowercase(labels[i].as_str());
        let t = chars_of(lowered_label.as_str());
        let keep = words_occur(&q, &t);
        proof {
            if query@.len() == 0 {
                assert(q@ =~= Seq::<char>::empty());
                assert(split_spaces(q@) =~= seq![Seq::<char>::empty()]);
            }
            assert(all.take(i + 1).drop_last() =~= all.take(i as int));
            assert(all.take(i + 1).last() == labels@[i as int]@);
        }
        if keep {
            r.push(&items[i]);
        }
        i = i + 1;
    }
    proof {
        assert(all.take(items@.len() as int) =~= all);
        if query@.len() == 0 {
            lemma_empty_query_keeps_all(query@, all);
            assert forall|k: int| 0 <= k < r@.len() implies *r@[k] == items@[k] by {
                assert(matching_indices(query@, all)[k] == k);
            }
        }
    }
    r
}

} // verus!
