//! OAuth scopes: space-separated lists of words. A request is within a
//! session's grant when each of its words is among the granted ones.
use crate::text::{has_word, split_spaces, split_spaces_exec, words_within};
use vstd::prelude::*;

verus! {

/// Whether `w` is one of `pieces`.
pub fn contains_piece(pieces: &Vec<String>, w: &String) -> (r: bool)
    ensures
        r == exists|i: int| 0 <= i < pieces@.len() && #[trigger] pieces@[i]@ == w@,
{
    let mut i: usize = 0;
    while i < pieces.len()
        invariant
            i <= pieces@.len(),
            forall|k: int| 0 <= k < i ==> #[trigger] pieces@[k]@ != w@,
        decreases pieces@.len() - i,
    {
        if pieces[i] == *w {
            return true;
        }
        i = i + 1;
    }
    false
}

/// Whether every word of the `requested` scope is a word of the `granted` one.
pub fn scope_covers(requested: &str, granted: &str) -> (r: bool)
    ensures
        r == words_within(requested@, granted@),
{
    let wanted = split_spaces_exec(requested);
    let have = split_spaces_exec(granted);
    let mut i: usize = 0;
    while i < wanted.len()
        invariant
            i <= wanted@.len(),
            wanted@.len() == split_spaces(requested@).len(),
            forall|k: int| 0 <= k < wanted@.len() ==> #[trigger] wanted@[k]@ == split_spaces(requested@)[k],
            have@.len() == split_spaces(granted@).len(),
            forall|k: int| 0 <= k < have@.len() ==> #[trigger] have@[k]@ == split_spaces(granted@)[k],
            forall|k: int| 0 <= k < i ==> has_word(granted@, #[trigger] split_spaces(requested@)[k]),
        decreases wanted@.len() - i,
    {
        let found = contains_piece(&have, &wanted[i]);
        proof {
            if found {
                let j = choose|j: int| 0 <= j < have@.len() && #[trigger] have@[j]@ == wanted@[i as int]@;
                assert(split_spaces(granted@)[j] == split_spaces(requested@)[i as int]);
            } else {
                if has_word(granted@, split_spaces(requested@)[i as int]) {
                    let j = choose|j: int| 0 <= j < split_spaces(granted@).len() && split_spaces(granted@)[j] == split_spaces(requested@)[i as int];
                    assert(have@[j]@ == wanted@[i as int]@);
                }
            }
        }
        if !found {
            return false;
        }
        i = i + 1;
    }
    true
}

/// Whether `word` is one of the words of `scope`.
pub fn scope_has(scope: &str, word: &str) -> (r: bool)
    ensures
        r == has_word(scope@, word@),
{
    let pieces = split_spaces_exec(scope);
    let w = String::from_str(word);
    let r = contains_piece(&pieces, &w);
    proof {
        if r {
            let j = choose|j: int| 0 <= j < pieces@.len() && #[trigger] pieces@[j]@ == w@;
            assert(split_spaces(scope@)[j] == word@);
        } else if has_word(scope@, word@) {
            let j = choose|j: int| 0 <= j < split_spaces(scope@).len() && split_spaces(scope@)[j] == word@;
            assert(pieces@[j]@ == w@);
        }
    }
    r
}

/// Every scope is within itself.
pub proof fn lemma_scope_covers_itself(s: Seq<char>)
    ensures
        words_within(s, s),
{
    assert forall|i: int| 0 <= i < split_spaces(s).len() implies has_word(s, #[trigger] split_spaces(s)[i]) by {
        assert(split_spaces(s).contains(split_spaces(s)[i]));
    }
}

/// Being within a grant carries over: a scope within `b`, where `b` is within
/// `c`, is within `c`.
pub proof fn lemma_scope_covers_transitive(a: Seq<char>, b: Seq<char>, c: Seq<char>)
    requires
        words_within(a, b),
        words_within(b, c),
    ensures
        words_within(a, c),
{
    assert forall|i: int| 0 <= i < split_spaces(a).len() implies has_word(c, #[trigger] split_spaces(a)[i]) by {
        assert(has_word(b, split_spaces(a)[i]));
        let j = choose|j: int| 0 <= j < split_spaces(b).len() && split_spaces(b)[j] == split_spaces(a)[i];
        assert(has_word(c, split_spaces(b)[j]));
    }
}

} // verus!
