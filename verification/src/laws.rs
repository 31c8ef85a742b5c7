//! Laws of the validator and the sanitizer, stated and proved over the same
//! spec functions the executable contracts use.

use vstd::prelude::*;
use crate::app::{spec_sanitize, spec_valid_id, spec_valid_name, spec_valid_number};
use crate::text::spec_is_id_char;

verus! {

/// Counts the `'#'` characters of a text.
pub open spec fn hash_count(s: Seq<char>) -> nat
    decreases s.len(),
{
    if s.len() == 0 {
        0
    } else {
        hash_count(s.drop_last()) + if s.last() == '#' {
            1nat
        } else {
            0nat
        }
    }
}

proof fn lemma_hash_count_zero(s: Seq<char>)
    requires
        forall|j: int| 0 <= j < s.len() ==> s[j] != '#',
    ensures
        hash_count(s) == 0,
    decreases s.len(),
{
    if s.len() > 0 {
        assert forall|j: int| 0 <= j < s.drop_last().len() implies s.drop_last()[j] != '#' by {
            assert(s.drop_last()[j] == s[j]);
        }
        lemma_hash_count_zero(s.drop_last());
    }
}

proof fn lemma_hash_count_one(s: Seq<char>, w: int)
    requires
        0 <= w < s.len(),
        s[w] == '#',
        forall|j: int| 0 <= j < s.len() && j != w ==> s[j] != '#',
    ensures
        hash_count(s) == 1,
    decreases s.len(),
{
    if w == s.len() - 1 {
        assert forall|j: int| 0 <= j < s.drop_last().len() implies s.drop_last()[j] != '#' by {
            assert(s.drop_last()[j] == s[j]);
        }
        lemma_hash_count_zero(s.drop_last());
    } else {
        assert forall|j: int|
            0 <= j < s.drop_last().len() && j != w implies s.drop_last()[j] != '#' by {
            assert(s.drop_last()[j] == s[j]);
        }
        assert(s.drop_last()[w] == s[w]);
        lemma_hash_count_one(s.drop_last(), w);
        assert(s.last() != '#');
    }
}

/// A string that does not hold exactly one `'#'` is never a valid
/// identifier.
pub proof fn lemma_invalid_without_single_hash(s: Seq<char>)
    requires
        hash_count(s) != 1,
    ensures
        !spec_valid_id(s),
{
    if spec_valid_id(s) {
        let w = choose|w: int|
            {
                &&& 0 <= w < s.len()
                &&& #[trigger] s[w] == '#'
                &&& forall|j: int| 0 <= j < s.len() && j != w ==> s[j] != '#'
                &&& spec_valid_name(s.subrange(0, w))
                &&& spec_valid_number(s.subrange(w + 1, s.len() as int))
            };
        lemma_hash_count_one(s, w);
    }
}

/// A non-empty alphanumeric name joined by `'#'` to four or more digits is
/// always a valid identifier.
pub proof fn lemma_valid_of_parts(name: Seq<char>, digits: Seq<char>)
    requires
        spec_valid_name(name),
        spec_valid_number(digits),
    ensures
        spec_valid_id(name + seq!['#'] + digits),
{
    let s = name + seq!['#'] + digits;
    let i = name.len() as int;
    assert(s[i] == '#');
    assert forall|j: int| 0 <= j < s.len() && j != i implies s[j] != '#' by {
        if j < i {
            assert(s[j] == name[j]);
        } else {
            assert(s[j] == digits[j - i - 1]);
        }
    }
    assert(s.subrange(0, i) =~= name);
    assert(s.subrange(i + 1, s.len() as int) =~= digits);
}

/// Every character the sanitizer leaves is an ASCII alphanumeric or `'#'`.
pub proof fn lemma_sanitize_chars(s: Seq<char>)
    ensures
        forall|i: int|
            0 <= i < spec_sanitize(s).len() ==> spec_is_id_char(#[trigger] spec_sanitize(s)[i]),
    decreases s.len(),
{
    if s.len() > 0 {
        lemma_sanitize_chars(s.drop_last());
        if spec_is_id_char(s.last()) {
            assert forall|i: int|
                0 <= i < spec_sanitize(s).len() implies spec_is_id_char(
                #[trigger] spec_sanitize(s)[i],
            ) by {
                if i < spec_sanitize(s).len() - 1 {
                    assert(spec_sanitize(s)[i] == spec_sanitize(s.drop_last())[i]);
                } else {
                    assert(spec_sanitize(s)[i] == s.last());
                }
            }
        }
    }
}

/// A text made only of ASCII alphanumerics and `'#'` passes the sanitizer
/// unchanged.
pub proof fn lemma_sanitize_identity(s: Seq<char>)
    requires
        forall|i: int| 0 <= i < s.len() ==> spec_is_id_char(#[trigger] s[i]),
    ensures
        spec_sanitize(s) == s,
    decreases s.len(),
{
    if s.len() == 0 {
        assert(spec_sanitize(s) =~= s);
    } else {
        assert forall|i: int| 0 <= i < s.drop_last().len() implies spec_is_id_char(
            #[trigger] s.drop_last()[i],
        ) by {
            assert(s.drop_last()[i] == s[i]);
        }
        lemma_sanitize_identity(s.drop_last());
        assert(spec_sanitize(s) =~= s);
    }
}

/// The sanitizer is idempotent: sanitizing twice is sanitizing once.
pub proof fn lemma_sanitize_idempotent(s: Seq<char>)
    ensures
        spec_sanitize(spec_sanitize(s)) == spec_sanitize(s),
{
    lemma_sanitize_chars(s);
    lemma_sanitize_identity(spec_sanitize(s));
}

} // verus!
