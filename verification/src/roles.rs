//! Suggestions for a role name that was not found.

use crate::words::texts;
use vstd::prelude::*;

verus! {

/// The edit distance between two texts, counted in characters, as
/// `levenshtein::levenshtein` computes it.
pub uninterp spec fn levenshtein_distance(a: Seq<char>, b: Seq<char>) -> usize;

/// Calls `levenshtein::levenshtein`.
///
/// Trusted: the result depends on the two texts alone.
#[verifier::external_body]
fn edit_distance(a: &str, b: &str) -> (r: usize)
    ensures
        r == levenshtein_distance(a@, b@),
{
    levenshtein::levenshtein(a, b)
}

/// A name is suggested when it is at most this far from what was typed.
pub const MAX_DISTANCE: usize = 3;

/// A known role name and its distance from what was typed.
pub struct Candidate {
    pub name: String,
    pub distance: usize,
}

/// The names that are close enough, in order, each with a space before it.
pub open spec fn close_names(names: Seq<Seq<char>>, distances: Seq<usize>) -> Seq<char>
    decreases names.len(),
{
    if names.len() == 0 || distances.len() != names.len() {
        Seq::empty()
    } else {
        let front = close_names(names.drop_last(), distances.drop_last());
        if distances.last() <= MAX_DISTANCE {
            front + " "@ + names.last()
        } else {
            front
        }
    }
}

/// The hint shown for a name that was not found: nothing where no name is
/// close enough, otherwise the close names in one bracketed line.
pub open spec fn hint(names: Seq<Seq<char>>, distances: Seq<usize>) -> Option<Seq<char>> {
    if close_names(names, distances).len() == 0 {
        None
    } else {
        Some("(*similar roles:* "@ + close_names(names, distances) + ")\n"@)
    }
}

/// The names of a list of candidates, in order.
pub open spec fn candidate_names(candidates: Seq<Candidate>) -> Seq<Seq<char>> {
    candidates.map_values(|c: Candidate| c.name@)
}

/// The distances of a list of candidates, in order.
pub open spec fn candidate_distances(candidates: Seq<Candidate>) -> Seq<usize> {
    candidates.map_values(|c: Candidate| c.distance)
}

/// The distance of each name from `role`, in order.
pub open spec fn distances_from(role: Seq<char>, names: Seq<Seq<char>>) -> Seq<usize> {
    names.map_values(|name: Seq<char>| levenshtein_distance(role, name))
}

/// The characters of a string that may be missing.
pub open spec fn line_of(line: Option<String>) -> Option<Seq<char>> {
    match line {
        Some(s) => Some(s@),
        None => None,
    }
}

/// The hint for a list of candidates whose distances are known.
pub fn suggestion_line(candidates: &Vec<Candidate>) -> (r: Option<String>)
    ensures
        line_of(r) == hint(candidate_names(candidates@), candidate_distances(candidates@)),
{
    let ghost names = candidate_names(candidates@);
    let ghost distances = candidate_distances(candidates@);
    let mut close = String::new();
    let mut i: usize = 0;
    while i < candidates.len()
        invariant
            i <= candidates.len(),
            names == candidate_names(candidates@),
            distances == candidate_distances(candidates@),
            close@ == close_names(names.take(i as int), distances.take(i as int)),
        decreases candidates.len() - i,
    {
        proof {
            assert(names.take(i as int + 1).drop_last() =~= names.take(i as int));
            assert(distances.take(i as int + 1).drop_last() =~= distances.take(i as int));
            assert(names.take(i as int + 1).last() == candidates@[i as int].name@);
            assert(distances.take(i as int + 1).last() == candidates@[i as int].distance);
        }
        if candidates[i].distance <= MAX_DISTANCE {
            close.append(" ");
            close.append(candidates[i].name.as_str());
        }
        assert(close@ =~= close_names(names.take(i as int + 1), distances.take(i as int + 1)));
        i += 1;
    }
    proof {
        assert(names.take(i as int) =~= names);
        assert(distances.take(i as int) =~= distances);
    }
    if close.as_str().is_empty() {
        None
    } else {
        let mut line = "(*similar roles:* ".to_owned();
        line.append(close.as_str());
        line.append(")\n");
        Some(line)
    }
}

/// The hint for `role`, which is none of `names`: the names within
/// [`MAX_DISTANCE`] edits of it.
pub fn get_role_suggestions(role: &str, names: &Vec<String>) -> (r: Option<String>)
    ensures
        line_of(r) == hint(texts(names@), distances_from(role@, texts(names@))),
{
    let mut candidates: Vec<Candidate> = Vec::new();
    let mut i: usize = 0;
    while i < names.len()
        invariant
            i <= names.len(),
            candidates@.len() == i,
            candidate_names(candidates@) == texts(names@).take(i as int),
            candidate_distances(candidates@) == distances_from(role@, texts(names@)).take(i as int),
        decreases names.len() - i,
    {
        let ghost had = candidates@;
        let distance = edit_distance(role, names[i].as_str());
        candidates.push(Candidate { name: names[i].clone(), distance });
        proof {
            assert(candidate_names(had) == texts(names@).take(i as int));
            assert(candidate_distances(had) == distances_from(role@, texts(names@)).take(i as int));
            assert forall|j: int| 0 <= j < i implies candidate_names(candidates@)[j] == texts(
                names@,
            )[j] by {
                assert(candidate_names(had)[j] == texts(names@).take(i as int)[j]);
            }
            assert forall|j: int| 0 <= j < i implies candidate_distances(candidates@)[j]
                == distances_from(role@, texts(names@))[j] by {
                assert(candidate_distances(had)[j] == distances_from(role@, texts(names@)).take(
                    i as int,
                )[j]);
            }
            assert(candidate_names(candidates@) =~= texts(names@).take(i as int + 1));
            assert(candidate_distances(candidates@) =~= distances_from(role@, texts(names@)).take(
                i as int + 1,
            ));
        }
        i += 1;
    }
    proof {
        assert(texts(names@).take(i as int) =~= texts(names@));
        assert(distances_from(role@, texts(names@)).take(i as int) =~= distances_from(
            role@,
            texts(names@),
        ));
    }
    suggestion_line(&candidates)
}

} // verus!
