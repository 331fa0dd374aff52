use vstd::prelude::*;
use vstd::string::*;

verus! {

/// A public key shortened for display: with more than 8 characters, the
/// first 4, an ellipsis, and the last 4; otherwise the text as it is.
pub open spec fn truncated_form(s: Seq<char>) -> Seq<char> {
    if s.len() > 8 {
        s.subrange(0, 4) + "..."@ + s.subrange(s.len() - 4, s.len() as int)
    } else {
        s
    }
}

/// Shortens a public key for display.
pub fn truncate_pubkey(pubkey: &str) -> (r: String)
    ensures
        r@ == truncated_form(pubkey@),
{
    let n = pubkey.unicode_len();
    if n > 8 {
        let mut out = String::from_str(pubkey.substring_char(0, 4));
        out.append("...");
        out.append(pubkey.substring_char(n - 4, n));
        out
    } else {
        String::from_str(pubkey)
    }
}

/// ASCII upper-case letters folded to lower case; all else unchanged.
pub open spec fn ascii_lower(c: u8) -> u8 {
    if 65 <= c <= 90 {
        (c + 32) as u8
    } else {
        c
    }
}

/// A byte text folded to ASCII lower case.
pub open spec fn lower_seq(s: Seq<u8>) -> Seq<u8> {
    s.map_values(|c: u8| ascii_lower(c))
}

/// Whether `needle` occurs contiguously inside `hay`.
pub open spec fn contains_sub(hay: Seq<u8>, needle: Seq<u8>) -> bool {
    exists|i: int|
        0 <= i <= hay.len() - needle.len() && #[trigger] hay.subrange(i, i + needle.len())
            == needle
}

/// The rate-limit signal of the remote endpoint, as its error text shows it:
/// the status code 429, or the phrase "too many" in any letter case.
pub open spec fn rate_limit_signal(msg: Seq<u8>) -> bool {
    contains_sub(msg, seq![52u8, 50u8, 57u8]) || contains_sub(
        lower_seq(msg),
        seq![116u8, 111u8, 111u8, 32u8, 109u8, 97u8, 110u8, 121u8],
    )
}

/// Whether `hay` holds `needle` starting at position `at`.
fn match_at(hay: &Vec<u8>, needle: &Vec<u8>, at: usize) -> (b: bool)
    requires
        at + needle@.len() <= hay@.len(),
    ensures
        b == (hay@.subrange(at as int, at + needle@.len()) == needle@),
{
    let hay_len: usize = hay.len();
    let mut j: usize = 0;
    while j < needle.len()
        invariant
            hay_len == hay@.len(),
            at + needle@.len() <= hay@.len(),
            0 <= j <= needle@.len(),
            forall|m: int| 0 <= m < j ==> hay@[at + m] == needle@[m],
        decreases needle.len() - j,
    {
        proof {
            assert(at + j < hay@.len());
        }
        if hay[at + j] != needle[j] {
            proof {
                assert(hay@.subrange(at as int, at + needle@.len())[j as int] == hay@[at + j]);
            }
            return false;
        }
        j = j + 1;
    }
    proof {
        assert(hay@.subrange(at as int, at + needle@.len()) =~= needle@);
    }
    true
}

/// Whether `needle` occurs contiguously inside `hay`.
pub fn contains_bytes(hay: &Vec<u8>, needle: &Vec<u8>) -> (b: bool)
    ensures
        b == contains_sub(hay@, needle@),
{
    if needle.len() == 0 {
        proof {
            assert(hay@.subrange(0, 0 + needle@.len() as int) =~= needle@);
        }
        return true;
    }
    if needle.len() > hay.len() {
        return false;
    }
    let last: usize = hay.len() - needle.len();
    let mut i: usize = 0;
    while i <= last
        invariant
            hay@.len() <= usize::MAX,
            1 <= needle@.len() <= hay@.len(),
            last == hay@.len() - needle@.len(),
            0 <= i <= last + 1,
            forall|k: int| 0 <= k < i ==> #[trigger] hay@.subrange(k, k + needle@.len())
                != needle@,
        decreases last + 1 - i,
    {
        if match_at(hay, needle, i) {
            return true;
        }
        i = i + 1;
    }
    false
}

/// A copy of the text folded to ASCII lower case.
fn to_ascii_lower(v: &Vec<u8>) -> (r: Vec<u8>)
    ensures
        r@ == lower_seq(v@),
{
    let mut out: Vec<u8> = Vec::new();
    let mut i: usize = 0;
    while i < v.len()
        invariant
            0 <= i <= v@.len(),
            out@.len() == i,
            forall|k: int| 0 <= k < i ==> out@[k] == ascii_lower(v@[k]),
        decreases v.len() - i,
    {
        let c = v[i];
        if 65 <= c && c <= 90 {
            out.push(c + 32);
        } else {
            out.push(c);
        }
        i = i + 1;
    }
    proof {
        assert(out@ =~= lower_seq(v@));
    }
    out
}

/// Classifies a failure text from the funding endpoint: true exactly on the
/// rate-limit signal, which the executor retries; every other failure is
/// terminal.
pub fn is_rate_limit_signal(msg: &Vec<u8>) -> (b: bool)
    ensures
        b == rate_limit_signal(msg@),
{
    let needle429: Vec<u8> = vec![52u8, 50u8, 57u8];
    proof {
        assert(needle429@ =~= seq![52u8, 50u8, 57u8]);
    }
    if contains_bytes(msg, &needle429) {
        return true;
    }
    let needle_too_many: Vec<u8> = vec![116u8, 111u8, 111u8, 32u8, 109u8, 97u8, 110u8, 121u8];
    proof {
        assert(needle_too_many@ =~= seq![116u8, 111u8, 111u8, 32u8, 109u8, 97u8, 110u8, 121u8]);
    }
    let lowered = to_ascii_lower(msg);
    contains_bytes(&lowered, &needle_too_many)
}

} // verus!
