//! Search-path variables (`PATH`, `PYTHONPATH`): entries separated by `;`,
//! new entries placed in front.
use vstd::prelude::*;
use crate::text::{append_chars, append_str, chars_of, contains_chars, has_substr, occurs_at, string_of};

verus! {

/// `entry` placed in front of `current`, separated by `;`.
pub open spec fn prepended(entry: Seq<char>, current: Seq<char>) -> Seq<char> {
    entry + ";"@ + current
}

/// `current` with `entry` in front, unless the text of `entry` already
/// occurs in it.
pub open spec fn with_entry(current: Seq<char>, entry: Seq<char>) -> Seq<char> {
    if has_substr(current, entry) {
        current
    } else {
        prepended(entry, current)
    }
}

/// `current` with each of `entries`, in turn, added unless already present;
/// the last one added ends up in front.
pub open spec fn with_entries(current: Seq<char>, entries: Seq<Seq<char>>) -> Seq<char>
    decreases entries.len(),
{
    if entries.len() == 0 {
        current
    } else {
        with_entry(with_entries(current, entries.drop_last()), entries.last())
    }
}

/// `entry;current`.
pub fn prepend_entry(entry: &str, current: &str) -> (r: String)
    ensures
        r@ == prepended(entry@, current@),
{
    let mut v = chars_of(entry);
    append_str(&mut v, ";");
    append_str(&mut v, current);
    string_of(&v)
}

fn with_entry_chars(current: Vec<char>, entry: &Vec<char>) -> (r: Vec<char>)
    ensures
        r@ == with_entry(current@, entry@),
{
    if contains_chars(&current, entry) {
        current
    } else {
        let mut v: Vec<char> = Vec::new();
        append_chars(&mut v, entry);
        v.push(';');
        append_chars(&mut v, &current);
        assert(v@ =~= prepended(entry@, current@)) by {
            reveal_strlit(";");
        }
        v
    }
}

/// `current` with `entry` in front unless its text already occurs in it.
pub fn add_if_missing(current: &str, entry: &str) -> (r: String)
    ensures
        r@ == with_entry(current@, entry@),
{
    let c = chars_of(current);
    let e = chars_of(entry);
    let r = with_entry_chars(c, &e);
    string_of(&r)
}

/// `current` with each of `entries`, in turn, added unless already present.
pub fn add_all_if_missing(current: &str, entries: &Vec<String>) -> (r: String)
    ensures
        r@ == with_entries(current@, entries@.map_values(|e: String| e@)),
{
    let ghost views = entries@.map_values(|e: String| e@);
    let mut acc = chars_of(current);
    let mut i: usize = 0;
    assert(views.take(0) =~= Seq::<Seq<char>>::empty());
    while i < entries.len()
        invariant
            i <= entries.len(),
            views == entries@.map_values(|e: String| e@),
            acc@ == with_entries(current@, views.take(i as int)),
        decreases entries.len() - i,
    {
        let e = chars_of(entries[i].as_str());
        acc = with_entry_chars(acc, &e);
        proof {
            let next = views.take(i + 1);
            assert(next.drop_last() == views.take(i as int));
            assert(next.last() == entries@[i as int]@);
        }
        i = i + 1;
    }
    assert(views.take(entries.len() as int) == views);
    string_of(&acc)
}

/// Text that occurs in a list still occurs after something is put in front.
pub proof fn lemma_prepend_keeps(current: Seq<char>, entry: Seq<char>, x: Seq<char>)
    requires
        has_substr(current, x),
    ensures
        has_substr(prepended(entry, current), x),
{
    reveal_strlit(";");
    let i = choose|i: int| occurs_at(current, x, i);
    let p = prepended(entry, current);
    let off = entry.len() + 1;
    assert(p.subrange(i + off, i + off + x.len()) =~= current.subrange(i, i + x.len())) by {
        reveal_strlit(";");
    }
    assert(occurs_at(p, x, i + off));
}

/// After adding an entry, its text occurs in the list; adding it a second
/// time changes nothing.
pub proof fn lemma_with_entry_present(current: Seq<char>, entry: Seq<char>)
    ensures
        has_substr(with_entry(current, entry), entry),
        with_entry(with_entry(current, entry), entry) == with_entry(current, entry),
{
    if !has_substr(current, entry) {
        let p = prepended(entry, current);
        assert(p.subrange(0, entry.len() as int) =~= entry);
        assert(occurs_at(p, entry, 0));
    }
}

/// After adding several entries, the text of every one of them occurs in
/// the list, and so does everything that occurred in it before.
pub proof fn lemma_with_entries_present(current: Seq<char>, entries: Seq<Seq<char>>)
    ensures
        forall|k: int| 0 <= k < entries.len() ==> has_substr(
            with_entries(current, entries),
            #[trigger] entries[k],
        ),
        forall|x: Seq<char>|
            has_substr(current, x) ==> #[trigger] has_substr(with_entries(current, entries), x),
    decreases entries.len(),
{
    if entries.len() > 0 {
        let prev = with_entries(current, entries.drop_last());
        let e = entries.last();
        lemma_with_entries_present(current, entries.drop_last());
        lemma_with_entry_present(prev, e);
        assert forall|x: Seq<char>| has_substr(prev, x) implies has_substr(with_entry(prev, e), x) by {
            if !has_substr(prev, e) {
                lemma_prepend_keeps(prev, e, x);
            }
        }
        assert forall|k: int| 0 <= k < entries.len() implies has_substr(
            with_entries(current, entries),
            #[trigger] entries[k],
        ) by {
            if k < entries.len() - 1 {
                assert(entries[k] == entries.drop_last()[k]);
                assert(has_substr(prev, entries[k]));
            }
        }
        assert forall|x: Seq<char>| has_substr(current, x) implies #[trigger] has_substr(
            with_entries(current, entries),
            x,
        ) by {
            assert(has_substr(prev, x));
        }
    }
}

} // verus!
