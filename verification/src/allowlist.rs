//! Which sensor addresses an exporter publishes.

use vstd::prelude::*;
use vstd::std_specs::iter::IteratorSpec;

verus! {

broadcast use {vstd::string::axiom_spec_iter, vstd::string::next_postcondition};

/// The code of a character after ASCII lowercasing: `'A'..='Z'` map to
/// `'a'..='z'`, every other character is kept.
pub open spec fn ascii_fold(c: char) -> int {
    let n = c as int;
    if 65 <= n <= 90 {
        n + 32
    } else {
        n
    }
}

/// Two strings are an ASCII case-insensitive match: the same characters, up to the
/// case of ASCII letters.
pub open spec fn ascii_case_eq(a: Seq<char>, b: Seq<char>) -> bool {
    &&& a.len() == b.len()
    &&& forall|i: int| 0 <= i < a.len() ==> #[trigger] ascii_fold(a[i]) == ascii_fold(b[i])
}

/// An address passes the allowlist: the list is empty, or one of its entries
/// matches the address case-insensitively.
pub open spec fn spec_is_allowed(address: Seq<char>, allowlist: Seq<String>) -> bool {
    ||| allowlist.len() == 0
    ||| exists|i: int| 0 <= i < allowlist.len() && ascii_case_eq(#[trigger] allowlist[i]@, address)
}

/// The characters of a string, in order.
fn chars_of(s: &str) -> (v: Vec<char>)
    ensures
        v@ == s@,
{
    let mut it = s.chars();
    let mut v: Vec<char> = Vec::new();
    loop
        invariant
            v@ + it.remaining() == s@,
            it.decrease() is Some,
        ensures
            v@ == s@,
        decreases it.decrease()->0,
    {
        match it.next() {
            Some(c) => {
                v.push(c);
            },
            None => {
                break ;
            },
        }
    }
    v
}

/// The code of `c` after ASCII lowercasing.
fn fold_char(c: char) -> (n: u32)
    ensures
        n == ascii_fold(c),
{
    let n = c as u32;
    if 65 <= n && n <= 90 {
        n + 32
    } else {
        n
    }
}

/// Whether `a` and `b` are an ASCII case-insensitive match.
fn eq_ignore_ascii_case(a: &str, b: &str) -> (r: bool)
    ensures
        r == ascii_case_eq(a@, b@),
{
    let ac = chars_of(a);
    let bc = chars_of(b);
    if ac.len() != bc.len() {
        return false;
    }
    let mut i: usize = 0;
    while i < ac.len()
        invariant
            ac@ == a@,
            bc@ == b@,
            ac.len() == bc.len(),
            0 <= i <= ac.len(),
            forall|j: int| 0 <= j < i ==> #[trigger] ascii_fold(a@[j]) == ascii_fold(b@[j]),
        decreases ac.len() - i,
    {
        if fold_char(ac[i]) != fold_char(bc[i]) {
            return false;
        }
        i += 1;
    }
    true
}

/// Returns `true` if a sensor address should be exported, given an optional allowlist.
///
/// An empty allowlist matches every address. Comparison is case-insensitive.
pub fn is_allowed(address: &str, allowlist: &[String]) -> (r: bool)
    ensures
        r == spec_is_allowed(address@, allowlist@),
{
    if allowlist.len() == 0 {
        return true;
    }
    let mut i: usize = 0;
    while i < allowlist.len()
        invariant
            0 <= i <= allowlist.len(),
            forall|j: int| 0 <= j < i ==> !ascii_case_eq(#[trigger] allowlist@[j]@, address@),
        decreases allowlist.len() - i,
    {
        if eq_ignore_ascii_case(allowlist[i].as_str(), address) {
            return true;
        }
        i += 1;
    }
    false
}

/// An empty allowlist lets every address through.
pub proof fn lemma_empty_allowlist_allows_all(address: Seq<char>, allowlist: Seq<String>)
    requires
        allowlist.len() == 0,
    ensures
        spec_is_allowed(address, allowlist),
{
}

/// An address that an entry of the allowlist spells exactly is allowed.
pub proof fn lemma_listed_address_is_allowed(address: Seq<char>, allowlist: Seq<String>, i: int)
    requires
        0 <= i < allowlist.len(),
        allowlist[i]@ == address,
    ensures
        spec_is_allowed(address, allowlist),
{
    assert(ascii_case_eq(allowlist[i]@, address));
}

/// Whether an address is allowed does not depend on the case of its ASCII letters:
/// two addresses that match case-insensitively are both allowed or both refused.
pub proof fn lemma_is_allowed_ignores_ascii_case(a: Seq<char>, b: Seq<char>, allowlist: Seq<String>)
    requires
        ascii_case_eq(a, b),
    ensures
        spec_is_allowed(a, allowlist) == spec_is_allowed(b, allowlist),
{
    if allowlist.len() > 0 {
        if spec_is_allowed(a, allowlist) {
            let i = choose|i: int| 0 <= i < allowlist.len() && ascii_case_eq(#[trigger] allowlist[i]@, a);
            assert(forall|j: int| 0 <= j < b.len() ==> ascii_fold(allowlist[i]@[j]) == ascii_fold(a[j]));
            assert(ascii_case_eq(allowlist[i]@, b));
        }
        if spec_is_allowed(b, allowlist) {
            let i = choose|i: int| 0 <= i < allowlist.len() && ascii_case_eq(#[trigger] allowlist[i]@, b);
            assert(forall|j: int| 0 <= j < a.len() ==> ascii_fold(allowlist[i]@[j]) == ascii_fold(b[j]));
            assert(ascii_case_eq(allowlist[i]@, a));
        }
    }
}

/// The allowlist filter, with case folding written out: an address is allowed
/// exactly when the list is empty, or some entry has the address's length and, at
/// every position, the same character, or the same ASCII letter in the other case.
/// In particular, an address that no entry of a non-empty list matches is refused.
pub proof fn lemma_allowlist_filter(address: Seq<char>, allowlist: Seq<String>)
    ensures
        spec_is_allowed(address, allowlist) <==> (allowlist.len() == 0 || exists|i: int|
            0 <= i < allowlist.len() && #[trigger] allowlist[i]@.len() == address.len() && forall|j: int|
                0 <= j < address.len() ==> {
                    let c = #[trigger] allowlist[i]@[j] as int;
                    let d = address[j] as int;
                    ||| c == d
                    ||| (65 <= c <= 90 && d == c + 32)
                    ||| (65 <= d <= 90 && c == d + 32)
                }),
{
    assert forall|s: Seq<char>| #[trigger] ascii_case_eq(s, address) <==> (s.len() == address.len()
        && forall|j: int| 0 <= j < address.len() ==> {
            let c = #[trigger] s[j] as int;
            let d = address[j] as int;
            ||| c == d
            ||| (65 <= c <= 90 && d == c + 32)
            ||| (65 <= d <= 90 && c == d + 32)
        }) by {
        if s.len() == address.len() {
            assert forall|j: int| 0 <= j < address.len() implies (ascii_fold(s[j]) == ascii_fold(address[j])
                <==> {
                let c = s[j] as int;
                let d = address[j] as int;
                ||| c == d
                ||| (65 <= c <= 90 && d == c + 32)
                ||| (65 <= d <= 90 && c == d + 32)
            }) by {}
        }
    }
    if allowlist.len() > 0 {
        if spec_is_allowed(address, allowlist) {
            let i = choose|i: int| 0 <= i < allowlist.len() && ascii_case_eq(#[trigger] allowlist[i]@, address);
            assert(ascii_case_eq(allowlist[i]@, address));
        }
    }
}

} // verus!
