//! The parameters of one search run, checked once and then only read.

use crate::pattern::{spec_compile, CaseMode, OptimizedPattern, PatternView};
use crate::pool::{detect_workers, spec_choose_workers, MAX_AUTO_WORKERS};
use vstd::prelude::*;
use vstd::string::StringSliceAdditionalSpecFns;

verus! {

/// Why a set of parameters cannot start a run.
#[derive(Clone, Copy, Debug, PartialEq, Eq, Structural)]
pub enum ConfigError {
    /// Neither a prefix nor a suffix of at least one byte was given.
    NoPattern,
}

/// What a configuration stands for.
pub struct ConfigView {
    pub prefix: Option<PatternView>,
    pub suffix: Option<PatternView>,
    pub case_sensitive: bool,
    pub workers: usize,
    pub chunk_size: usize,
    pub max_attempts: u64,
}

impl ConfigView {
    /// The prefix constraint: none, plain equality of bytes when the run is
    /// case-sensitive, and the pattern's own policy otherwise.
    pub open spec fn prefix_accepts(self, candidate: Seq<u8>) -> bool {
        match self.prefix {
            None => true,
            Some(p) => if self.case_sensitive {
                p.literal.is_prefix_of(candidate)
            } else {
                p.matches_prefix(candidate)
            },
        }
    }

    /// The suffix constraint, read as the prefix constraint is.
    pub open spec fn suffix_accepts(self, candidate: Seq<u8>) -> bool {
        match self.suffix {
            None => true,
            Some(p) => if self.case_sensitive {
                p.literal.is_suffix_of(candidate)
            } else {
                p.matches_suffix(candidate)
            },
        }
    }

    /// The candidate satisfies the whole query.
    pub open spec fn accepts(self, candidate: Seq<u8>) -> bool {
        self.prefix_accepts(candidate) && self.suffix_accepts(candidate)
    }

    /// The combined length of the patterns, at most `usize::MAX`, and 1 where
    /// there is no pattern.
    pub open spec fn complexity(self) -> nat {
        spec_complexity(pattern_len(self.prefix), pattern_len(self.suffix))
    }

    /// The candidates that a worker tests before it hands control back: the
    /// chunk size, and 1 where that is 0.
    pub open spec fn budget(self) -> usize {
        if self.chunk_size == 0 {
            1
        } else {
            self.chunk_size
        }
    }

    /// The workers among which candidates are dealt out: the number of
    /// workers, and 1 where that is 0.
    pub open spec fn lanes(self) -> usize {
        if self.workers == 0 {
            1
        } else {
            self.workers
        }
    }

    /// Every pattern of the configuration compares byte for byte.
    pub open spec fn all_exact(self) -> bool {
        &&& self.prefix matches Some(p) ==> p.mode == CaseMode::Exact
        &&& self.suffix matches Some(p) ==> p.mode == CaseMode::Exact
    }
}

/// The length of a pattern that may be absent.
pub open spec fn pattern_len(p: Option<PatternView>) -> Option<nat> {
    match p {
        None => None,
        Some(p) => Some(p.literal.len()),
    }
}

/// The measure by which the number of workers is chosen: the sum of the
/// lengths that are there, capped at `usize::MAX`, and 1 where neither is.
pub open spec fn spec_complexity(prefix: Option<nat>, suffix: Option<nat>) -> nat {
    match (prefix, suffix) {
        (Some(p), Some(s)) => if p + s > usize::MAX {
            usize::MAX as nat
        } else {
            p + s
        },
        (Some(p), None) => p,
        (None, Some(s)) => s,
        (None, None) => 1,
    }
}

/// The pattern that a text asks for: none where the text is absent or empty.
pub open spec fn spec_wanted(text: Option<Seq<u8>>, selector: Seq<char>) -> Option<PatternView> {
    match text {
        Some(bytes) if bytes.len() > 0 => Some(spec_compile(bytes, selector)),
        _ => None,
    }
}

/// The bytes of a text that may be absent.
pub open spec fn text_bytes(text: Option<&str>) -> Option<Seq<u8>> {
    match text {
        Some(t) => Some(t.spec_bytes()),
        None => None,
    }
}

/// With every pattern under `Exact`, a case-sensitive run and a run that goes
/// through the patterns' policy accept the same candidates.
pub proof fn lemma_case_sensitive_agrees_with_exact(c: ConfigView, candidate: Seq<u8>)
    requires
        c.all_exact(),
    ensures
        (ConfigView { case_sensitive: true, ..c }).accepts(candidate) == (ConfigView {
            case_sensitive: false,
            ..c
        }).accepts(candidate),
{
}

/// The parameters of one run. A value of this type always holds at least
/// one pattern, and every pattern it holds has at least one byte.
pub struct SearchConfig {
    prefix: Option<OptimizedPattern>,
    suffix: Option<OptimizedPattern>,
    case_sensitive: bool,
    workers: usize,
    chunk_size: usize,
    max_attempts: u64,
}

/// What a pattern that may be absent stands for.
pub open spec fn pattern_view(p: Option<OptimizedPattern>) -> Option<PatternView> {
    match p {
        Some(p) => Some(p@),
        None => None,
    }
}

impl View for SearchConfig {
    type V = ConfigView;

    closed spec fn view(&self) -> ConfigView {
        ConfigView {
            prefix: pattern_view(self.prefix),
            suffix: pattern_view(self.suffix),
            case_sensitive: self.case_sensitive,
            workers: self.workers,
            chunk_size: self.chunk_size,
            max_attempts: self.max_attempts,
        }
    }
}

/// Compiles `text` where it has at least one byte.
fn compile_wanted(text: Option<&str>, case_mode: &str) -> (r: Option<OptimizedPattern>)
    ensures
        pattern_view(r) == spec_wanted(text_bytes(text), case_mode@),
{
    match text {
        Some(t) => {
            if t.as_bytes().len() > 0 {
                Some(OptimizedPattern::new(t, case_mode))
            } else {
                None
            }
        },
        None => None,
    }
}

impl SearchConfig {
    #[verifier::type_invariant]
    spec fn well_formed(&self) -> bool {
        &&& self.prefix is Some || self.suffix is Some
        &&& self.prefix matches Some(p) ==> p@.literal.len() > 0
        &&& self.suffix matches Some(p) ==> p@.literal.len() > 0
    }

    /// What every configuration holds: a pattern, and no empty one.
    pub open spec fn valid(c: ConfigView) -> bool {
        &&& c.prefix is Some || c.suffix is Some
        &&& c.prefix matches Some(p) ==> p.literal.len() > 0
        &&& c.suffix matches Some(p) ==> p.literal.len() > 0
    }

    /// Checks and resolves the parameters of a run.
    ///
    /// An absent or empty `prefix` asks for no prefix, an empty `suffix` for
    /// no suffix; with neither the parameters are refused. `threads` is the
    /// number of workers, and 0 asks for a number chosen from the machine's
    /// processors and the patterns' combined length.
    pub fn new(
        prefix: Option<&str>,
        suffix: &str,
        case_sensitive: bool,
        case_mode: &str,
        threads: usize,
        chunk_size: usize,
        max_attempts: u64,
    ) -> (r: Result<SearchConfig, ConfigError>)
        ensures
            r is Err <==> spec_wanted(text_bytes(prefix), case_mode@) is None && spec_wanted(
                Some(suffix.spec_bytes()),
                case_mode@,
            ) is None,
            r matches Err(e) ==> e == ConfigError::NoPattern,
            r matches Ok(c) ==> ({
                &&& c@.prefix == spec_wanted(text_bytes(prefix), case_mode@)
                &&& c@.suffix == spec_wanted(Some(suffix.spec_bytes()), case_mode@)
                &&& c@.case_sensitive == case_sensitive
                &&& c@.chunk_size == chunk_size
                &&& c@.max_attempts == max_attempts
                &&& exists|cores: usize|
                    cores >= 1 && c@.workers == spec_choose_workers(
                        threads,
                        cores,
                        c@.complexity(),
                    )
                &&& threads > 0 ==> c@.workers == threads
                &&& threads == 0 ==> 1 <= c@.workers <= MAX_AUTO_WORKERS
                &&& Self::valid(c@)
            }),
    {
        let prefix = compile_wanted(prefix, case_mode);
        let suffix = compile_wanted(Some(suffix), case_mode);
        if prefix.is_none() && suffix.is_none() {
            return Err(ConfigError::NoPattern);
        }
        let complexity: usize = complexity_of(&prefix, &suffix);
        let workers: usize = detect_workers(threads, complexity);
        let config = SearchConfig {
            prefix,
            suffix,
            case_sensitive,
            workers,
            chunk_size,
            max_attempts,
        };
        proof {
            let cores = choose|cores: usize|
                cores >= 1 && workers == spec_choose_workers(threads, cores, complexity as nat);
            assert(config@.complexity() == complexity);
            assert(cores >= 1 && config@.workers == spec_choose_workers(
                threads,
                cores,
                config@.complexity(),
            ));
        }
        Ok(config)
    }

    /// Tests a candidate address against the whole query.
    pub fn is_match(&self, address: &str) -> (r: bool)
        ensures
            r == self@.accepts(address.spec_bytes()),
    {
        let prefix_ok = match &self.prefix {
            None => true,
            Some(p) => if self.case_sensitive {
                p.is_prefix_of(address)
            } else {
                p.matches(address)
            },
        };
        if !prefix_ok {
            return false;
        }
        match &self.suffix {
            None => true,
            Some(p) => if self.case_sensitive {
                p.is_suffix_of(address)
            } else {
                p.matches_suffix(address)
            },
        }
    }
}

impl SearchConfig {
    /// The prefix pattern, if the run has one.
    pub fn prefix(&self) -> (p: Option<&OptimizedPattern>)
        ensures
            p is Some == self@.prefix is Some,
            p matches Some(q) ==> self@.prefix == Some(q@),
    {
        self.prefix.as_ref()
    }

    /// The suffix pattern, if the run has one.
    pub fn suffix(&self) -> (p: Option<&OptimizedPattern>)
        ensures
            p is Some == self@.suffix is Some,
            p matches Some(q) ==> self@.suffix == Some(q@),
    {
        self.suffix.as_ref()
    }

    /// Whether candidates are compared byte for byte, past the patterns'
    /// own policy.
    pub fn case_sensitive(&self) -> (flag: bool)
        ensures
            flag == self@.case_sensitive,
    {
        self.case_sensitive
    }

    /// The number of workers.
    pub fn workers(&self) -> (n: usize)
        ensures
            n == self@.workers,
    {
        self.workers
    }

    /// The chunk size as it was given.
    pub fn chunk_size(&self) -> (n: usize)
        ensures
            n == self@.chunk_size,
    {
        self.chunk_size
    }

    /// The attempt limit; 0 is no limit.
    pub fn max_attempts(&self) -> (n: u64)
        ensures
            n == self@.max_attempts,
    {
        self.max_attempts
    }

    /// The candidates that a worker tests before it hands control back.
    pub fn chunk_budget(&self) -> (n: usize)
        ensures
            n == self@.budget(),
            n >= 1,
    {
        if self.chunk_size == 0 {
            1
        } else {
            self.chunk_size
        }
    }

    /// The workers among which candidates are dealt out.
    pub fn lanes(&self) -> (n: usize)
        ensures
            n == self@.lanes(),
            n >= 1,
    {
        if self.workers == 0 {
            1
        } else {
            self.workers
        }
    }

    /// The combined length of the patterns.
    pub fn complexity(&self) -> (n: usize)
        ensures
            n == self@.complexity(),
    {
        complexity_of(&self.prefix, &self.suffix)
    }
}

/// The combined length of the patterns that are there.
fn complexity_of(prefix: &Option<OptimizedPattern>, suffix: &Option<OptimizedPattern>) -> (r: usize)
    ensures
        r == spec_complexity(pattern_len(pattern_view(*prefix)), pattern_len(pattern_view(*suffix))),
{
    match (prefix, suffix) {
        (Some(p), Some(s)) => p.len().saturating_add(s.len()),
        (Some(p), None) => p.len(),
        (None, Some(s)) => s.len(),
        (None, None) => 1,
    }
}

} // verus!
