use vstd::prelude::*;

verus! {

/// What `str::to_lowercase` returns for a string with the characters `s`.
pub uninterp spec fn lower_of(s: Seq<char>) -> Seq<char>;

/// Relies on `str::to_lowercase`: the lowercase form depends on the
/// characters of its argument alone.
#[verifier::external_body]
fn to_lower(s: &str) -> (r: String)
    ensures
        r@ == lower_of(s@),
{
    s.to_lowercase()
}

/// `p` is a prefix of `s`.
pub open spec fn is_prefix(p: Seq<char>, s: Seq<char>) -> bool {
    p.len() <= s.len() && s.subrange(0, p.len() as int) == p
}

/// The match predicate: `identifier` starts with `pattern`, after both are
/// lowered when the search ignores case.
pub open spec fn vanity_match(identifier: Seq<char>, pattern: Seq<char>, case_sensitive: bool) -> bool {
    if case_sensitive {
        is_prefix(pattern, identifier)
    } else {
        is_prefix(lower_of(pattern), lower_of(identifier))
    }
}

/// Whether `text` starts with `prefix`, character by character.
pub fn starts_with_chars(text: &str, prefix: &str) -> (r: bool)
    ensures
        r == is_prefix(prefix@, text@),
{
    let n = prefix.unicode_len();
    let m = text.unicode_len();
    if n > m {
        return false;
    }
    let mut i: usize = 0;
    while i < n
        invariant
            n == prefix@.len(),
            m == text@.len(),
            n <= m,
            i <= n,
            forall|j: int| 0 <= j < i ==> text@[j] == prefix@[j],
        decreases n - i,
    {
        if text.get_char(i) != prefix.get_char(i) {
            assert(text@.subrange(0, n as int)[i as int] != prefix@[i as int]);
            return false;
        }
        i = i + 1;
    }
    assert(text@.subrange(0, n as int) =~= prefix@);
    true
}

/// Whether `public_key` starts with `vanity_string`; when `case_sensitive`
/// is false both are lowered first, by the same fold.
pub fn check_vanity_string(public_key: &str, vanity_string: &str, case_sensitive: bool) -> (r: bool)
    ensures
        r == vanity_match(public_key@, vanity_string@, case_sensitive),
{
    if case_sensitive {
        starts_with_chars(public_key, vanity_string)
    } else {
        let key = to_lower(public_key);
        let pattern = to_lower(vanity_string);
        starts_with_chars(key.as_str(), pattern.as_str())
    }
}

} // verus!
