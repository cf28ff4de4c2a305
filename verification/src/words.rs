//! Small helpers on words and counts, used when composing replies.

use vstd::hash_set::StringHashSet;
use vstd::prelude::*;

verus! {

/// The texts of a list of strings, in order.
pub open spec fn texts(items: Seq<String>) -> Seq<Seq<char>> {
    items.map_values(|item: String| item@)
}

/// Whether `wanted` is one of `items`.
pub fn contains_text(items: &Vec<String>, wanted: &str) -> (r: bool)
    ensures
        r == texts(items@).contains(wanted@),
{
    let needle = wanted.to_owned();
    let mut i: usize = 0;
    while i < items.len()
        invariant
            i <= items.len(),
            needle@ == wanted@,
            forall|j: int| 0 <= j < i ==> texts(items@)[j] != wanted@,
        decreases items.len() - i,
    {
        if items[i] == needle {
            assert(texts(items@)[i as int] == wanted@);
            return true;
        }
        i += 1;
    }
    false
}

/// The plural ending for a count: nothing for exactly one, `"s"` otherwise.
pub fn plural(n: u64) -> (r: &'static str)
    ensures
        r@ == if n == 1 { ""@ } else { "s"@ },
{
    if n == 1 {
        ""
    } else {
        "s"
    }
}

/// Whether some text occurs more than once in `items`.
pub fn has_duplicates(items: &Vec<String>) -> (r: bool)
    ensures
        r == !texts(items@).no_duplicates(),
{
    let mut seen = StringHashSet::new();
    let mut i: usize = 0;
    while i < items.len()
        invariant
            i <= items.len(),
            texts(items@).subrange(0, i as int).no_duplicates(),
            forall|t: Seq<char>| seen@.contains(t) <==> texts(items@).subrange(0, i as int).contains(t),
        decreases items.len() - i,
    {
        let ghost before = texts(items@).subrange(0, i as int);
        let ghost here = texts(items@).subrange(0, i as int + 1);
        assert(here =~= before.push(items[i as int]@));
        let fresh = seen.insert(items[i].clone());
        if !fresh {
            proof {
                let j = choose|j: int| 0 <= j < before.len() && before[j] == items[i as int]@;
                assert(texts(items@)[j] == texts(items@)[i as int]);
            }
            return true;
        }
        proof {
            assert forall|t: Seq<char>| seen@.contains(t) <==> here.contains(t) by {
                if here.contains(t) {
                    let k = choose|k: int| 0 <= k < here.len() && here[k] == t;
                    if k < i {
                        assert(before[k] == t);
                    }
                }
                if before.contains(t) {
                    let k = choose|k: int| 0 <= k < before.len() && before[k] == t;
                    assert(here[k] == t);
                }
                assert(here[i as int] == items[i as int]@);
            }
        }
        i += 1;
    }
    assert(texts(items@).subrange(0, i as int) =~= texts(items@));
    false
}

} // verus!
