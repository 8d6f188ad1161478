//! Patterns compiled for matching, and the three comparison policies.
//!
//! A pattern and a candidate are compared as byte sequences. Case is an ASCII
//! notion throughout: see [`crate::ascii`].

use crate::ascii::{
    fold_lower, fold_upper, is_ascii_lower, is_ascii_upper, is_lower, is_upper, lower_seq,
    same_letter, to_ascii_lower, to_ascii_upper, upper_seq,
};
use vstd::prelude::*;
use vstd::slice::slice_to_vec;
use vstd::string::StringSliceAdditionalSpecFns;
use vstd::utf8::{encode_utf8, encode_utf8_decode_utf8};

verus! {

/// How strictly the case of a candidate's letters must follow the pattern.
#[derive(Clone, Copy, Debug, PartialEq, Eq, Structural)]
pub enum CaseMode {
    /// Byte for byte.
    Exact,
    /// Letters compared without regard to case.
    UpperInsensitive,
    /// Letters compared without regard to case, exactly as `UpperInsensitive`.
    LowerInsensitive,
    /// Only the case of each letter is compared, position by position.
    Mixed,
}

impl CaseMode {
    /// The mode that a selector names. A selector that names none is `Exact`.
    pub open spec fn spec_parse(selector: Seq<char>) -> CaseMode {
        if selector == "upper"@ {
            CaseMode::UpperInsensitive
        } else if selector == "lower"@ {
            CaseMode::LowerInsensitive
        } else if selector == "mixed"@ {
            CaseMode::Mixed
        } else {
            CaseMode::Exact
        }
    }

    /// Reads a selector: `upper`, `lower`, `mixed`, and `exact` for anything
    /// else.
    pub fn parse(selector: &str) -> (mode: CaseMode)
        ensures
            mode == Self::spec_parse(selector@),
    {
        if same_text(selector, "upper") {
            CaseMode::UpperInsensitive
        } else if same_text(selector, "lower") {
            CaseMode::LowerInsensitive
        } else if same_text(selector, "mixed") {
            CaseMode::Mixed
        } else {
            CaseMode::Exact
        }
    }
}

/// What a compiled pattern stands for: the pattern's bytes and the policy.
pub struct PatternView {
    pub literal: Seq<u8>,
    pub mode: CaseMode,
}

/// The two sequences have one length and agree letter by letter, case apart.
pub open spec fn eq_ignore_case(a: Seq<u8>, b: Seq<u8>) -> bool {
    &&& a.len() == b.len()
    &&& forall|i: int| 0 <= i < a.len() ==> #[trigger] same_letter(a[i], b[i])
}

/// A pattern byte `p` admits a text byte `t`: where `p` is a capital letter so
/// is `t`, where `p` is a small letter so is `t`, and any other `p` admits
/// every `t`.
pub open spec fn shape_allows(p: u8, t: u8) -> bool {
    &&& is_upper(p) ==> is_upper(t)
    &&& is_lower(p) ==> is_lower(t)
}

/// `text` is as long as `pattern` and has a letter of the same case wherever
/// `pattern` has a letter.
pub open spec fn same_shape(pattern: Seq<u8>, text: Seq<u8>) -> bool {
    &&& text.len() == pattern.len()
    &&& forall|i: int| 0 <= i < pattern.len() ==> #[trigger] shape_allows(pattern[i], text[i])
}

/// Some byte of `s` is a capital letter.
pub open spec fn has_upper(s: Seq<u8>) -> bool {
    exists|i: int| 0 <= i < s.len() && is_upper(#[trigger] s[i])
}

/// Some byte of `s` is a small letter.
pub open spec fn has_lower(s: Seq<u8>) -> bool {
    exists|i: int| 0 <= i < s.len() && is_lower(#[trigger] s[i])
}

impl PatternView {
    /// The policy applied to a slice that was cut to the pattern's length.
    pub open spec fn slice_matches(self, slice: Seq<u8>) -> bool {
        match self.mode {
            CaseMode::Exact => slice == self.literal,
            CaseMode::UpperInsensitive => eq_ignore_case(slice, self.literal),
            CaseMode::LowerInsensitive => eq_ignore_case(slice, self.literal),
            CaseMode::Mixed => same_shape(self.literal, slice),
        }
    }

    /// The candidate is at least as long as the pattern and its leading bytes
    /// match.
    pub open spec fn matches_prefix(self, candidate: Seq<u8>) -> bool {
        &&& self.literal.len() <= candidate.len()
        &&& self.slice_matches(candidate.subrange(0, self.literal.len() as int))
    }

    /// The candidate is at least as long as the pattern and its trailing
    /// bytes match.
    pub open spec fn matches_suffix(self, candidate: Seq<u8>) -> bool {
        &&& self.literal.len() <= candidate.len()
        &&& self.slice_matches(
            candidate.subrange(candidate.len() - self.literal.len(), candidate.len() as int),
        )
    }
}

/// What compiling `pattern` under `selector` yields.
pub open spec fn spec_compile(pattern: Seq<u8>, selector: Seq<char>) -> PatternView {
    PatternView { literal: pattern, mode: CaseMode::spec_parse(selector) }
}

/// A candidate shorter than the pattern matches neither at its start nor at
/// its end, whatever the policy.
pub proof fn lemma_short_candidate_never_matches(p: PatternView, candidate: Seq<u8>)
    requires
        candidate.len() < p.literal.len(),
    ensures
        !p.matches_prefix(candidate),
        !p.matches_suffix(candidate),
{
}

/// Under `Exact` a candidate matches at its start exactly when it is the
/// pattern followed by some bytes, and at its end exactly when it is some
/// bytes followed by the pattern.
pub proof fn lemma_exact_matches_identical_bytes(p: PatternView, candidate: Seq<u8>)
    requires
        p.mode == CaseMode::Exact,
    ensures
        p.matches_prefix(candidate) <==> exists|rest: Seq<u8>| candidate == p.literal + rest,
        p.matches_suffix(candidate) <==> exists|rest: Seq<u8>| candidate == rest + p.literal,
{
    let n = p.literal.len() as int;
    let m = candidate.len() as int;
    if p.matches_prefix(candidate) {
        let rest = candidate.subrange(n, m);
        assert(candidate =~= p.literal + rest);
    }
    if exists|rest: Seq<u8>| candidate == p.literal + rest {
        let rest = choose|rest: Seq<u8>| candidate == p.literal + rest;
        assert(candidate.subrange(0, n) =~= p.literal);
    }
    if p.matches_suffix(candidate) {
        let rest = candidate.subrange(0, m - n);
        assert(candidate =~= rest + p.literal);
    }
    if exists|rest: Seq<u8>| candidate == rest + p.literal {
        let rest = choose|rest: Seq<u8>| candidate == rest + p.literal;
        assert(candidate.subrange(m - n, m) =~= p.literal);
    }
}

/// Under `Mixed` a candidate matches exactly when, at every position of the
/// pattern, a capital letter of the pattern meets a capital letter of the
/// candidate and a small letter meets a small letter. Which letters they are
/// does not count, and a position whose pattern byte is no letter is free.
pub proof fn lemma_mixed_matches_case_shape(p: PatternView, candidate: Seq<u8>)
    requires
        p.mode == CaseMode::Mixed,
    ensures
        p.matches_prefix(candidate) <==> (p.literal.len() <= candidate.len() && forall|i: int|
            0 <= i < p.literal.len() ==> #[trigger] shape_allows(p.literal[i], candidate[i])),
        p.matches_suffix(candidate) <==> (p.literal.len() <= candidate.len() && forall|i: int|
            0 <= i < p.literal.len() ==> #[trigger] shape_allows(
                p.literal[i],
                candidate[candidate.len() - p.literal.len() + i],
            )),
{
    let n = p.literal.len() as int;
    let m = candidate.len() as int;
    if n <= m {
        let head = candidate.subrange(0, n);
        let tail = candidate.subrange(m - n, m);
        assert(forall|i: int| 0 <= i < n ==> head[i] == candidate[i]);
        assert(forall|i: int| 0 <= i < n ==> tail[i] == candidate[m - n + i]);
        if p.matches_prefix(candidate) {
            assert forall|i: int| 0 <= i < n implies #[trigger] shape_allows(
                p.literal[i],
                candidate[i],
            ) by {
                assert(shape_allows(p.literal[i], head[i]));
            }
        }
        if p.matches_suffix(candidate) {
            assert forall|i: int| 0 <= i < n implies #[trigger] shape_allows(
                p.literal[i],
                candidate[m - n + i],
            ) by {
                assert(shape_allows(p.literal[i], tail[i]));
            }
        }
    }
}

/// The two case-insensitive policies decide every candidate alike.
pub proof fn lemma_insensitive_modes_agree(literal: Seq<u8>, candidate: Seq<u8>)
    ensures
        (PatternView { literal, mode: CaseMode::UpperInsensitive }).matches_prefix(candidate) == (
        PatternView { literal, mode: CaseMode::LowerInsensitive }).matches_prefix(candidate),
        (PatternView { literal, mode: CaseMode::UpperInsensitive }).matches_suffix(candidate) == (
        PatternView { literal, mode: CaseMode::LowerInsensitive }).matches_suffix(candidate),
{
}

/// Compiling the same pattern under the same selector twice gives two
/// matchers that decide every candidate alike.
pub proof fn lemma_compiling_twice_matches_alike(
    pattern: Seq<u8>,
    selector: Seq<char>,
    first: OptimizedPattern,
    second: OptimizedPattern,
    candidate: Seq<u8>,
)
    requires
        first@ == spec_compile(pattern, selector),
        second@ == spec_compile(pattern, selector),
    ensures
        first@.matches_prefix(candidate) == second@.matches_prefix(candidate),
        first@.matches_suffix(candidate) == second@.matches_suffix(candidate),
        same_shape(first@.literal, candidate) == same_shape(second@.literal, candidate),
{
}

/// A pattern with everything precomputed that a comparison needs.
pub struct OptimizedPattern {
    exact: Vec<u8>,
    upper: Vec<u8>,
    lower: Vec<u8>,
    case_mode: CaseMode,
    pattern_len: usize,
}

impl View for OptimizedPattern {
    type V = PatternView;

    closed spec fn view(&self) -> PatternView {
        PatternView { literal: self.exact@, mode: self.case_mode }
    }
}

/// Whether two strings hold the same text.
fn same_text(a: &str, b: &str) -> (r: bool)
    ensures
        r == (a@ == b@),
{
    let x = a.as_bytes();
    let y = b.as_bytes();
    proof {
        encode_utf8_decode_utf8(a@);
        encode_utf8_decode_utf8(b@);
        assert(x@ == encode_utf8(a@));
        assert(y@ == encode_utf8(b@));
    }
    if x.len() != y.len() {
        return false;
    }
    let r = identical_at(x, y, 0);
    assert(y@.subrange(0, x@.len() as int) =~= y@);
    r
}

/// Whether the bytes of `text` from `start` on begin with `pattern`.
fn identical_at(pattern: &[u8], text: &[u8], start: usize) -> (r: bool)
    ensures
        r == (start + pattern@.len() <= text@.len() && text@.subrange(
            start as int,
            start + pattern@.len(),
        ) == pattern@),
{
    let n: usize = pattern.len();
    if text.len() < n || text.len() - n < start {
        return false;
    }
    let ghost window = text@.subrange(start as int, start + n);
    let mut i: usize = 0;
    while i < n
        invariant
            i <= n,
            n == pattern@.len(),
            start + n <= text@.len() <= usize::MAX,
            window == text@.subrange(start as int, start + n),
            forall|j: int| 0 <= j < i ==> window[j] == pattern@[j],
        decreases n - i,
    {
        if text[start + i] != pattern[i] {
            assert(window[i as int] != pattern@[i as int]);
            return false;
        }
        i += 1;
    }
    assert(window =~= pattern@);
    true
}

/// Whether the bytes of `text` from `start` on have the case shape of
/// `pattern`.
fn shape_matches_at(pattern: &[u8], text: &[u8], start: usize) -> (r: bool)
    requires
        start + pattern@.len() <= text@.len(),
    ensures
        r == same_shape(pattern@, text@.subrange(start as int, start + pattern@.len())),
{
    let n: usize = pattern.len();
    let ghost window = text@.subrange(start as int, start + n);
    assert(text@.len() == text.len());
    let mut i: usize = 0;
    while i < n
        invariant
            i <= n,
            n == pattern@.len(),
            start + n <= text@.len() <= usize::MAX,
            window == text@.subrange(start as int, start + n),
            forall|j: int| 0 <= j < i ==> #[trigger] shape_allows(pattern@[j], window[j]),
        decreases n - i,
    {
        let pattern_byte: u8 = pattern[i];
        let text_byte: u8 = text[start + i];
        if is_ascii_upper(pattern_byte) && !is_ascii_upper(text_byte) {
            assert(!shape_allows(pattern@[i as int], window[i as int]));
            return false;
        }
        if is_ascii_lower(pattern_byte) && !is_ascii_lower(text_byte) {
            assert(!shape_allows(pattern@[i as int], window[i as int]));
            return false;
        }
        i += 1;
    }
    true
}

/// Whether the bytes of `text` from `start` on, folded to lower case, are
/// `folded`, itself the lower-case folding of `literal`.
fn lower_matches_at(folded: &[u8], text: &[u8], start: usize, Ghost(literal): Ghost<Seq<u8>>) -> (r:
    bool)
    requires
        start + folded@.len() <= text@.len(),
        folded@ == lower_seq(literal),
    ensures
        r == eq_ignore_case(text@.subrange(start as int, start + folded@.len()), literal),
{
    let n: usize = folded.len();
    let ghost window = text@.subrange(start as int, start + n);
    assert(text@.len() == text.len());
    let mut i: usize = 0;
    while i < n
        invariant
            i <= n,
            n == folded@.len() == literal.len(),
            folded@ == lower_seq(literal),
            start + n <= text@.len() <= usize::MAX,
            window == text@.subrange(start as int, start + n),
            forall|j: int| 0 <= j < i ==> #[trigger] same_letter(window[j], literal[j]),
        decreases n - i,
    {
        if to_ascii_lower(text[start + i]) != folded[i] {
            assert(!same_letter(window[i as int], literal[i as int]));
            return false;
        }
        assert(same_letter(window[i as int], literal[i as int]));
        i += 1;
    }
    true
}

/// Whether the bytes of `text` from `start` on, folded to upper case, are
/// `folded`, itself the upper-case folding of `literal`.
fn upper_matches_at(folded: &[u8], text: &[u8], start: usize, Ghost(literal): Ghost<Seq<u8>>) -> (r:
    bool)
    requires
        start + folded@.len() <= text@.len(),
        folded@ == upper_seq(literal),
    ensures
        r == eq_ignore_case(text@.subrange(start as int, start + folded@.len()), literal),
{
    let n: usize = folded.len();
    let ghost window = text@.subrange(start as int, start + n);
    assert(text@.len() == text.len());
    let mut i: usize = 0;
    while i < n
        invariant
            i <= n,
            n == folded@.len() == literal.len(),
            folded@ == upper_seq(literal),
            start + n <= text@.len() <= usize::MAX,
            window == text@.subrange(start as int, start + n),
            forall|j: int| 0 <= j < i ==> #[trigger] same_letter(window[j], literal[j]),
        decreases n - i,
    {
        if to_ascii_upper(text[start + i]) != folded[i] {
            assert(!same_letter(window[i as int], literal[i as int]));
            return false;
        }
        assert(same_letter(window[i as int], literal[i as int]));
        i += 1;
    }
    true
}

/// The bytes of `bytes`, each folded to lower case.
fn folded_lower(bytes: &[u8]) -> (r: Vec<u8>)
    ensures
        r@ == lower_seq(bytes@),
{
    let n: usize = bytes.len();
    let mut r: Vec<u8> = Vec::with_capacity(n);
    let mut i: usize = 0;
    while i < n
        invariant
            i <= n,
            n == bytes@.len(),
            r@.len() == i,
            forall|j: int| 0 <= j < i ==> r@[j] == fold_lower(bytes@[j]),
        decreases n - i,
    {
        r.push(to_ascii_lower(bytes[i]));
        i += 1;
    }
    assert(r@ =~= lower_seq(bytes@));
    r
}

/// The bytes of `bytes`, each folded to upper case.
fn folded_upper(bytes: &[u8]) -> (r: Vec<u8>)
    ensures
        r@ == upper_seq(bytes@),
{
    let n: usize = bytes.len();
    let mut r: Vec<u8> = Vec::with_capacity(n);
    let mut i: usize = 0;
    while i < n
        invariant
            i <= n,
            n == bytes@.len(),
            r@.len() == i,
            forall|j: int| 0 <= j < i ==> r@[j] == fold_upper(bytes@[j]),
        decreases n - i,
    {
        r.push(to_ascii_upper(bytes[i]));
        i += 1;
    }
    assert(r@ =~= upper_seq(bytes@));
    r
}

impl OptimizedPattern {
    #[verifier::type_invariant]
    spec fn well_formed(&self) -> bool {
        &&& self.pattern_len == self.exact@.len()
        &&& self.upper@ == upper_seq(self.exact@)
        &&& self.lower@ == lower_seq(self.exact@)
    }

    /// Compiles `pattern` for the policy that `case_mode` names.
    pub fn new(pattern: &str, case_mode: &str) -> (compiled: Self)
        ensures
            compiled@ == spec_compile(pattern.spec_bytes(), case_mode@),
    {
        let bytes = pattern.as_bytes();
        let upper = folded_upper(bytes);
        let lower = folded_lower(bytes);
        let pattern_len: usize = bytes.len();
        OptimizedPattern {
            exact: slice_to_vec(bytes),
            upper,
            lower,
            case_mode: CaseMode::parse(case_mode),
            pattern_len,
        }
    }

    /// Applies the policy to the `pattern_len` bytes of `text` from `start`.
    fn window_matches(&self, text: &[u8], start: usize) -> (r: bool)
        requires
            start + self@.literal.len() <= text@.len(),
        ensures
            r == self@.slice_matches(
                text@.subrange(start as int, start + self@.literal.len()),
            ),
    {
        proof {
            use_type_invariant(self);
        }
        match self.case_mode {
            CaseMode::Exact => identical_at(self.exact.as_slice(), text, start),
            CaseMode::UpperInsensitive => upper_matches_at(
                self.upper.as_slice(),
                text,
                start,
                Ghost(self.exact@),
            ),
            CaseMode::LowerInsensitive => lower_matches_at(
                self.lower.as_slice(),
                text,
                start,
                Ghost(self.exact@),
            ),
            CaseMode::Mixed => shape_matches_at(self.exact.as_slice(), text, start),
        }
    }

    /// Tests the leading bytes of `text` against the pattern. A text shorter
    /// than the pattern never matches.
    pub fn matches(&self, text: &str) -> (r: bool)
        ensures
            r == self@.matches_prefix(text.spec_bytes()),
            text.spec_bytes().len() < self@.literal.len() ==> !r,
    {
        proof {
            use_type_invariant(self);
        }
        let bytes = text.as_bytes();
        if bytes.len() < self.pattern_len {
            return false;
        }
        self.window_matches(bytes, 0)
    }

    /// Tests the trailing bytes of `text` against the pattern. A text shorter
    /// than the pattern never matches.
    pub fn matches_suffix(&self, text: &str) -> (r: bool)
        ensures
            r == self@.matches_suffix(text.spec_bytes()),
            text.spec_bytes().len() < self@.literal.len() ==> !r,
    {
        proof {
            use_type_invariant(self);
        }
        let bytes = text.as_bytes();
        if bytes.len() < self.pattern_len {
            return false;
        }
        self.window_matches(bytes, bytes.len() - self.pattern_len)
    }

    /// Tests whether `text` begins with the pattern's bytes, whatever the
    /// pattern's own policy is.
    pub fn is_prefix_of(&self, text: &str) -> (r: bool)
        ensures
            r == self@.literal.is_prefix_of(text.spec_bytes()),
    {
        identical_at(self.exact.as_slice(), text.as_bytes(), 0)
    }

    /// Tests whether `text` ends with the pattern's bytes, whatever the
    /// pattern's own policy is.
    pub fn is_suffix_of(&self, text: &str) -> (r: bool)
        ensures
            r == self@.literal.is_suffix_of(text.spec_bytes()),
    {
        proof {
            use_type_invariant(self);
        }
        let bytes = text.as_bytes();
        if bytes.len() < self.pattern_len {
            return false;
        }
        identical_at(self.exact.as_slice(), bytes, bytes.len() - self.pattern_len)
    }

    /// Tests whether `text_slice` is as long as the pattern and has the
    /// pattern's case shape, whatever the pattern's own policy is.
    pub fn matches_mixed_case(&self, text_slice: &str) -> (r: bool)
        ensures
            r == same_shape(self@.literal, text_slice.spec_bytes()),
    {
        proof {
            use_type_invariant(self);
        }
        let bytes = text_slice.as_bytes();
        if bytes.len() != self.pattern_len {
            return false;
        }
        assert(bytes@.subrange(0, bytes@.len() as int) =~= bytes@);
        shape_matches_at(self.exact.as_slice(), bytes, 0)
    }
}

impl OptimizedPattern {
    /// The pattern's length in bytes.
    pub fn len(&self) -> (n: usize)
        ensures
            n == self@.literal.len(),
    {
        proof {
            use_type_invariant(self);
        }
        self.pattern_len
    }

    /// The comparison policy.
    pub fn mode(&self) -> (mode: CaseMode)
        ensures
            mode == self@.mode,
    {
        self.case_mode
    }

    /// The pattern's bytes as they were given.
    pub fn literal(&self) -> (bytes: &[u8])
        ensures
            bytes@ == self@.literal,
    {
        self.exact.as_slice()
    }

    /// The pattern's bytes folded to upper case.
    pub fn upper(&self) -> (bytes: &[u8])
        ensures
            bytes@ == upper_seq(self@.literal),
    {
        proof {
            use_type_invariant(self);
        }
        self.upper.as_slice()
    }

    /// The pattern's bytes folded to lower case.
    pub fn lower(&self) -> (bytes: &[u8])
        ensures
            bytes@ == lower_seq(self@.literal),
    {
        proof {
            use_type_invariant(self);
        }
        self.lower.as_slice()
    }
}

impl Clone for OptimizedPattern {
    fn clone(&self) -> (copy: Self)
        ensures
            copy@ == self@,
    {
        proof {
            use_type_invariant(self);
        }
        OptimizedPattern {
            exact: self.exact.clone(),
            upper: self.upper.clone(),
            lower: self.lower.clone(),
            case_mode: self.case_mode,
            pattern_len: self.pattern_len,
        }
    }
}

/// Reports whether `pattern` holds a capital letter, whether it holds a small
/// letter, and whether it holds both.
pub fn analyze_case_pattern(pattern: &str) -> (r: (bool, bool, bool))
    ensures
        r.0 == has_upper(pattern.spec_bytes()),
        r.1 == has_lower(pattern.spec_bytes()),
        r.2 == (r.0 && r.1),
{
    let bytes = pattern.as_bytes();
    let n: usize = bytes.len();
    let mut found_upper = false;
    let mut found_lower = false;
    let mut i: usize = 0;
    while i < n
        invariant
            i <= n,
            n == bytes@.len(),
            found_upper == has_upper(bytes@.subrange(0, i as int)),
            found_lower == has_lower(bytes@.subrange(0, i as int)),
        decreases n - i,
    {
        let ghost before = bytes@.subrange(0, i as int);
        let ghost after = bytes@.subrange(0, i + 1);
        let byte: u8 = bytes[i];
        assert(after[i as int] == byte);
        assert(forall|j: int| 0 <= j < i ==> before[j] == after[j]);
        if is_ascii_upper(byte) {
            found_upper = true;
        } else if is_ascii_lower(byte) {
            found_lower = true;
        }
        i += 1;
    }
    assert(bytes@.subrange(0, n as int) =~= bytes@);
    (found_upper, found_lower, found_upper && found_lower)
}

} // verus!
