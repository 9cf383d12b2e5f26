use vstd::prelude::*;

verus! {

/// How a datastore operation failed.
#[derive(Clone, Copy, Debug, PartialEq, Eq, Structural)]
pub enum StoreFailure {
    /// A write broke a uniqueness rule (a second user with the same email).
    ConstraintViolation,
    /// No row matched.
    NotFound,
    /// The datastore could not be reached in time.
    Unavailable,
    /// Any other error the datastore reported.
    Other,
}

/// The text with which the datastore reports a broken uniqueness rule.
pub open spec fn unique_violation_text() -> Seq<char> {
    "duplicate key value violates unique constraint"@
}

/// `needle` occurs in `hay` starting at position `i`.
pub open spec fn occurs_at(hay: Seq<char>, needle: Seq<char>, i: int) -> bool {
    0 <= i && i + needle.len() <= hay.len() && hay.subrange(i, i + needle.len()) == needle
}

/// `needle` occurs somewhere in `hay`.
pub open spec fn contains_seq(hay: Seq<char>, needle: Seq<char>) -> bool {
    exists|i: int| occurs_at(hay, needle, i)
}

/// The failure that a datastore error stands for: a missing row first, then a
/// uniqueness conflict recognised by the text of the error, then a lost
/// connection; anything else is a plain storage error.
pub open spec fn failure_kind(row_not_found: bool, connection_lost: bool, text: Seq<char>) -> StoreFailure {
    if row_not_found {
        StoreFailure::NotFound
    } else if contains_seq(text, unique_violation_text()) {
        StoreFailure::ConstraintViolation
    } else if connection_lost {
        StoreFailure::Unavailable
    } else {
        StoreFailure::Other
    }
}

fn occurs_at_exec(hay: &str, needle: &str, n: usize, m: usize, i: usize) -> (r: bool)
    requires
        n == hay@.len(),
        m == needle@.len(),
        i + m <= n,
    ensures
        r == occurs_at(hay@, needle@, i as int),
{
    let mut j: usize = 0;
    while j < m
        invariant
            n == hay@.len(),
            m == needle@.len(),
            i + m <= n,
            j <= m,
            forall|t: int| 0 <= t < j ==> hay@[i + t] == needle@[t],
        decreases m - j,
    {
        if hay.get_char(i + j) != needle.get_char(j) {
            assert(hay@.subrange(i as int, i + m)[j as int] != needle@[j as int]);
            return false;
        }
        j = j + 1;
    }
    assert(hay@.subrange(i as int, i + m) =~= needle@);
    true
}

/// Whether `needle` occurs in `hay`.
pub fn contains_text(hay: &str, needle: &str) -> (r: bool)
    ensures
        r == contains_seq(hay@, needle@),
{
    let n = hay.unicode_len();
    let m = needle.unicode_len();
    if m > n {
        return false;
    }
    let mut i: usize = 0;
    loop
        invariant
            n == hay@.len(),
            m == needle@.len(),
            m <= n,
            i <= n - m,
            forall|k: int| 0 <= k < i ==> !occurs_at(hay@, needle@, k),
        ensures
            forall|k: int| 0 <= k <= n - m ==> !occurs_at(hay@, needle@, k),
        decreases n - m - i,
    {
        if occurs_at_exec(hay, needle, n, m, i) {
            return true;
        }
        if i == n - m {
            break;
        }
        i = i + 1;
    }
    false
}

/// Classifies a datastore error from what its driver reports of it: whether no
/// row matched, whether the connection was lost or timed out, and its text.
pub fn classify_store_error(row_not_found: bool, connection_lost: bool, text: &str) -> (r: StoreFailure)
    ensures
        r == failure_kind(row_not_found, connection_lost, text@),
{
    if row_not_found {
        StoreFailure::NotFound
    } else if contains_text(text, "duplicate key value violates unique constraint") {
        StoreFailure::ConstraintViolation
    } else if connection_lost {
        StoreFailure::Unavailable
    } else {
        StoreFailure::Other
    }
}

} // verus!
