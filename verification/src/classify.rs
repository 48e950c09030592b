//! Risk classification of item names.
//!
//! A pure, deterministic, total function from an item name to a numeric risk
//! score and a categorical risk level. Matching is case-insensitive substring
//! matching against a fixed, ordered rule table; the first matching rule wins.
//! Case folding is ASCII-only lowercasing, applied to the UTF-8 bytes of the
//! name. For a name of ASCII characters this is exactly character-level
//! matching (`lemma_ascii_match_agrees`); for other names the byte-level
//! reading is the definition, the match patterns being pure ASCII.

use vstd::prelude::*;
use vstd::utf8::encode_utf8;

verus! {

/// Categorical risk level derived from the numeric score.
#[derive(Clone, Copy, Debug, PartialEq, Eq, Structural)]
pub enum RiskLevel {
    Low,
    Medium,
    High,
}

impl RiskLevel {
    /// The level's wire name.
    pub open spec fn spec_name(self) -> Seq<char> {
        match self {
            RiskLevel::Low => "LOW"@,
            RiskLevel::Medium => "MEDIUM"@,
            RiskLevel::High => "HIGH"@,
        }
    }

    /// The level rendered as its wire name, `"LOW"`, `"MEDIUM"` or `"HIGH"`.
    pub fn name(&self) -> (r: &'static str)
        ensures
            r@ == self.spec_name(),
    {
        match self {
            RiskLevel::Low => "LOW",
            RiskLevel::Medium => "MEDIUM",
            RiskLevel::High => "HIGH",
        }
    }
}

/// ASCII lowercasing of one byte; bytes outside `A..=Z` are untouched.
pub open spec fn lower(b: u8) -> u8 {
    if 65 <= b && b <= 90 {
        (b + 32) as u8
    } else {
        b
    }
}

/// The lowercase pattern `p` occurs in `s` at position `i`, comparing each
/// byte of `s` after ASCII lowercasing.
pub open spec fn match_at(s: Seq<u8>, p: Seq<u8>, i: int) -> bool {
    &&& 0 <= i
    &&& i + p.len() <= s.len()
    &&& forall|j: int| 0 <= j < p.len() ==> lower(s[i + j]) == p[j]
}

/// Case-insensitive containment: the lowercase pattern `p` occurs somewhere
/// in `s`.
pub open spec fn contains_token(s: Seq<u8>, p: Seq<u8>) -> bool {
    exists|i: int| match_at(s, p, i)
}

/// The bytes of `"test"`.
pub open spec fn pat_test() -> Seq<u8> {
    seq![116u8, 101u8, 115u8, 116u8]
}

/// The bytes of `"dummy"`.
pub open spec fn pat_dummy() -> Seq<u8> {
    seq![100u8, 117u8, 109u8, 109u8, 121u8]
}

/// The bytes of `"fraud"`.
pub open spec fn pat_fraud() -> Seq<u8> {
    seq![102u8, 114u8, 97u8, 117u8, 100u8]
}

/// The bytes of `"scam"`.
pub open spec fn pat_scam() -> Seq<u8> {
    seq![115u8, 99u8, 97u8, 109u8]
}

/// The bytes of `"risky"`.
pub open spec fn pat_risky() -> Seq<u8> {
    seq![114u8, 105u8, 115u8, 107u8, 121u8]
}

/// The bytes of `"flag"`.
pub open spec fn pat_flag() -> Seq<u8> {
    seq![102u8, 108u8, 97u8, 103u8]
}

/// The risk score of a name, given as the name's UTF-8 bytes. The rule table
/// is ordered and the first matching rule wins.
pub open spec fn spec_score(s: Seq<u8>) -> int {
    if contains_token(s, pat_test()) || contains_token(s, pat_dummy()) {
        10
    } else if contains_token(s, pat_fraud()) || contains_token(s, pat_scam()) {
        90
    } else if contains_token(s, pat_risky()) || contains_token(s, pat_flag()) {
        70
    } else {
        30
    }
}

/// The categorical level of a score: at least 80 is high, at least 50 is
/// medium, below 50 is low.
pub open spec fn spec_level(score: int) -> RiskLevel {
    if score >= 80 {
        RiskLevel::High
    } else if score >= 50 {
        RiskLevel::Medium
    } else {
        RiskLevel::Low
    }
}

/// ASCII lowercasing of one byte.
fn lower_byte(b: u8) -> (r: u8)
    ensures
        r == lower(b),
{
    if 65 <= b && b <= 90 {
        b + 32
    } else {
        b
    }
}

/// Whether the lowercase pattern `p` occurs at position `i` of `s`, comparing
/// bytes of `s` after ASCII lowercasing.
fn matches_at(s: &[u8], p: &[u8], i: usize) -> (r: bool)
    requires
        i + p@.len() <= s@.len(),
    ensures
        r == match_at(s@, p@, i as int),
{
    let slen = s.len();
    let mut j: usize = 0;
    while j < p.len()
        invariant
            i + p@.len() <= s@.len(),
            slen == s@.len(),
            j <= p@.len(),
            forall|k: int| 0 <= k < j ==> lower(s@[i + k]) == p@[k],
        decreases p@.len() - j,
    {
        if lower_byte(s[i + j]) != p[j] {
            return false;
        }
        j += 1;
    }
    true
}

/// Case-insensitive containment of the lowercase pattern `p` in `s`.
fn contains_ci(s: &[u8], p: &[u8]) -> (r: bool)
    ensures
        r == contains_token(s@, p@),
{
    if p.len() == 0 {
        proof {
            assert(match_at(s@, p@, 0));
        }
        return true;
    }
    if p.len() > s.len() {
        return false;
    }
    let last = s.len() - p.len();
    let mut i: usize = 0;
    loop
        invariant
            1 <= p@.len() <= s@.len(),
            last == s@.len() - p@.len(),
            last < usize::MAX,
            i <= last + 1,
            forall|k: int| 0 <= k < i ==> !match_at(s@, p@, k),
        decreases last + 1 - i,
    {
        if i > last {
            return false;
        }
        if matches_at(s, p, i) {
            return true;
        }
        i += 1;
    }
}

/// Builds the bytes of `"test"`.
fn pat_test_bytes() -> (v: Vec<u8>)
    ensures
        v@ == pat_test(),
{
    let v = vec![116u8, 101u8, 115u8, 116u8];
    proof {
        assert(v@ =~= pat_test());
    }
    v
}

/// Builds the bytes of `"dummy"`.
fn pat_dummy_bytes() -> (v: Vec<u8>)
    ensures
        v@ == pat_dummy(),
{
    let v = vec![100u8, 117u8, 109u8, 109u8, 121u8];
    proof {
        assert(v@ =~= pat_dummy());
    }
    v
}

/// Builds the bytes of `"fraud"`.
fn pat_fraud_bytes() -> (v: Vec<u8>)
    ensures
        v@ == pat_fraud(),
{
    let v = vec![102u8, 114u8, 97u8, 117u8, 100u8];
    proof {
        assert(v@ =~= pat_fraud());
    }
    v
}

/// Builds the bytes of `"scam"`.
fn pat_scam_bytes() -> (v: Vec<u8>)
    ensures
        v@ == pat_scam(),
{
    let v = vec![115u8, 99u8, 97u8, 109u8];
    proof {
        assert(v@ =~= pat_scam());
    }
    v
}

/// Builds the bytes of `"risky"`.
fn pat_risky_bytes() -> (v: Vec<u8>)
    ensures
        v@ == pat_risky(),
{
    let v = vec![114u8, 105u8, 115u8, 107u8, 121u8];
    proof {
        assert(v@ =~= pat_risky());
    }
    v
}

/// Builds the bytes of `"flag"`.
fn pat_flag_bytes() -> (v: Vec<u8>)
    ensures
        v@ == pat_flag(),
{
    let v = vec![102u8, 108u8, 97u8, 103u8];
    proof {
        assert(v@ =~= pat_flag());
    }
    v
}

/// The risk score of a name given as UTF-8 bytes: first matching rule of the
/// ordered table wins.
pub fn score_of_bytes(s: &[u8]) -> (score: u8)
    ensures
        score == spec_score(s@),
{
    if contains_ci(s, pat_test_bytes().as_slice()) || contains_ci(s, pat_dummy_bytes().as_slice()) {
        10
    } else if contains_ci(s, pat_fraud_bytes().as_slice()) || contains_ci(
        s,
        pat_scam_bytes().as_slice(),
    ) {
        90
    } else if contains_ci(s, pat_risky_bytes().as_slice()) || contains_ci(
        s,
        pat_flag_bytes().as_slice(),
    ) {
        70
    } else {
        30
    }
}

/// The categorical level of a score.
pub fn level_of_score(score: u8) -> (level: RiskLevel)
    ensures
        level == spec_level(score as int),
{
    if score >= 80 {
        RiskLevel::High
    } else if score >= 50 {
        RiskLevel::Medium
    } else {
        RiskLevel::Low
    }
}

/// Classifies an item name: total and deterministic over every string,
/// including the empty one. Returns the risk score and its level.
pub fn classify(name: &str) -> (r: (u8, RiskLevel))
    ensures
        r.0 == spec_score(encode_utf8(name@)),
        r.1 == spec_level(r.0 as int),
{
    let bytes: &[u8] = name.as_bytes();
    let score = score_of_bytes(bytes);
    let level = level_of_score(score);
    (score, level)
}

/// ASCII lowercasing of one character; characters outside `A..=Z` are
/// untouched.
pub open spec fn lower_char(c: char) -> char {
    if 'A' <= c && c <= 'Z' {
        ((c as u8) + 32) as char
    } else {
        c
    }
}

/// The lowercase ASCII pattern `p` occurs at position `i` of the character
/// sequence `s`, comparing each character after ASCII lowercasing.
pub open spec fn char_match_at(s: Seq<char>, p: Seq<u8>, i: int) -> bool {
    &&& 0 <= i
    &&& i + p.len() <= s.len()
    &&& forall|j: int| 0 <= j < p.len() ==> lower_char(s[i + j]) as u32 == p[j] as u32
}

/// Case-insensitive containment, stated over characters.
pub open spec fn char_contains_token(s: Seq<char>, p: Seq<u8>) -> bool {
    exists|i: int| char_match_at(s, p, i)
}

/// ASCII lowercasing commutes with the one-byte encoding of an ASCII
/// character.
proof fn lemma_lower_char_byte(c: char)
    requires
        c <= '\u{7f}',
    ensures
        lower_char(c) as u32 == lower(c as u8) as u32,
{
}

/// For a name of ASCII characters, matching on the UTF-8 bytes is matching
/// on the characters themselves: each ASCII character encodes as the one
/// byte with its code, and lowercasing commutes with that encoding. This
/// grounds the byte-level model the score is stated over; for non-ASCII
/// names the byte-level reading is the definition.
pub proof fn lemma_ascii_match_agrees(s: Seq<char>, p: Seq<u8>)
    requires
        vstd::utf8::is_ascii_chars(s),
    ensures
        contains_token(encode_utf8(s), p) == char_contains_token(s, p),
{
    vstd::utf8::is_ascii_chars_encode_utf8(s);
    let b = encode_utf8(s);
    assert forall|i: int| match_at(b, p, i) == char_match_at(s, p, i) by {
        if match_at(b, p, i) {
            assert forall|j: int| 0 <= j < p.len() implies lower_char(s[i + j]) as u32 == p[j]
                as u32 by {
                assert(b[i + j] == s[i + j] as u8);
                lemma_lower_char_byte(s[i + j]);
            }
            assert(char_match_at(s, p, i));
        }
        if char_match_at(s, p, i) {
            assert forall|j: int| 0 <= j < p.len() implies lower(b[i + j]) == p[j] by {
                assert(b[i + j] == s[i + j] as u8);
                lemma_lower_char_byte(s[i + j]);
            }
            assert(match_at(b, p, i));
        }
    }
    if contains_token(b, p) {
        let i = choose|i: int| match_at(b, p, i);
        assert(char_match_at(s, p, i));
    }
    if char_contains_token(s, p) {
        let i = choose|i: int| char_match_at(s, p, i);
        assert(match_at(b, p, i));
    }
}

/// Every name that contains `"fraud"` or `"scam"` (case-insensitively) and
/// contains neither `"test"` nor `"dummy"` scores 90 and is rated high.
pub proof fn lemma_fraud_scores_high(s: Seq<u8>)
    requires
        contains_token(s, pat_fraud()) || contains_token(s, pat_scam()),
        !contains_token(s, pat_test()),
        !contains_token(s, pat_dummy()),
    ensures
        spec_score(s) == 90,
        spec_level(spec_score(s)) == RiskLevel::High,
{
}

/// The empty name matches no pattern, scores 30 and is rated low.
pub proof fn lemma_empty_name_scores_low()
    ensures
        spec_score(Seq::<u8>::empty()) == 30,
        spec_level(spec_score(Seq::<u8>::empty())) == RiskLevel::Low,
{
    assert forall|i: int| !match_at(Seq::<u8>::empty(), pat_test(), i) by {}
    assert forall|i: int| !match_at(Seq::<u8>::empty(), pat_dummy(), i) by {}
    assert forall|i: int| !match_at(Seq::<u8>::empty(), pat_fraud(), i) by {}
    assert forall|i: int| !match_at(Seq::<u8>::empty(), pat_scam(), i) by {}
    assert forall|i: int| !match_at(Seq::<u8>::empty(), pat_risky(), i) by {}
    assert forall|i: int| !match_at(Seq::<u8>::empty(), pat_flag(), i) by {}
}

} // verus!
