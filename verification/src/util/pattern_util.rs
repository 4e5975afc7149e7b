use vstd::prelude::*;

verus! {

/// `regex::Regex`, a compiled regular expression. Nothing of its inside is
/// visible to proofs; they speak of it through [`regex_found`].
#[verifier::external_type_specification]
#[verifier::external_body]
pub struct ExRegex(regex::Regex);

/// `regex::Error`, the reason for which a pattern did not compile.
#[verifier::external_type_specification]
#[verifier::external_body]
pub struct ExRegexError(regex::Error);

/// Whether `Regex::new` accepts `pattern`, that is whether the text is a
/// well-formed regular expression within the default size limit.
pub uninterp spec fn pattern_compiles(pattern: Seq<char>) -> bool;

/// Whether the regular expression that `Regex::new` compiles from `pattern`
/// finds a match anywhere in `haystack`.
pub uninterp spec fn pattern_matches(pattern: Seq<char>, haystack: Seq<char>) -> bool;

/// Whether this compiled expression finds a match anywhere in `haystack`:
/// what `Regex::is_match` returns for the two. The answer belongs to the
/// compiled value, which carries the options it was built with besides its
/// pattern text.
pub uninterp spec fn regex_found(re: regex::Regex, haystack: Seq<char>) -> bool;

/// `Regex::new` compiles a pattern with the default options. It succeeds on
/// exactly the texts that [`pattern_compiles`] names. Compiling is
/// repeatable: what an expression that it returns finds in a haystack
/// depends on the pattern text and the haystack alone, and that is what
/// [`pattern_matches`] names.
pub assume_specification[ regex::Regex::new ](re: &str) -> (r: Result<regex::Regex, regex::Error>)
    ensures
        r is Ok <==> pattern_compiles(re@),
        r matches Ok(compiled) ==> forall|haystack: Seq<char>| #[trigger]
            regex_found(compiled, haystack) == pattern_matches(re@, haystack),
;

/// `Regex::is_match` says whether the expression matches somewhere in the
/// haystack.
pub assume_specification[ regex::Regex::is_match ](re: &regex::Regex, haystack: &str) -> (r: bool)
    ensures
        r == regex_found(*re, haystack@),
;

/// A pattern text together with the expression compiled from it.
struct CachedPattern {
    source: String,
    compiled: regex::Regex,
}

/// The pattern texts of a sequence of cached patterns.
spec fn sources_of(entries: Seq<CachedPattern>) -> Seq<Seq<char>> {
    Seq::new(entries.len(), |i: int| entries[i].source@)
}

/// Compiled patterns kept for reuse, found again by their pattern text. It
/// only saves work: what [`PatternCache::is_match`] answers never depends on
/// what the cache holds.
pub struct PatternCache {
    entries: Vec<CachedPattern>,
}

impl PatternCache {
    /// The pattern texts of the compiled expressions, in the order in which
    /// they were compiled.
    pub closed spec fn sources(&self) -> Seq<Seq<char>> {
        sources_of(self.entries@)
    }

    /// Every cached text is a pattern that compiles, none is held twice, and
    /// each compiled expression finds what its text stands for.
    #[verifier::type_invariant]
    pub closed spec fn wf(&self) -> bool {
        &&& forall|i: int|
            0 <= i < self.entries@.len() ==> pattern_compiles((#[trigger] self.entries@[i]).source@)
        &&& sources_of(self.entries@).no_duplicates()
        &&& forall|i: int, haystack: Seq<char>|
            0 <= i < self.entries@.len() ==> #[trigger] regex_found(
                self.entries@[i].compiled,
                haystack,
            ) == pattern_matches(self.entries@[i].source@, haystack)
    }

    /// The set of pattern texts whose compiled form the cache holds.
    pub open spec fn view(&self) -> Set<Seq<char>> {
        self.sources().to_set()
    }

    /// A cache that holds nothing.
    pub fn new() -> (cache: Self)
        ensures
            cache@ == Set::<Seq<char>>::empty(),
            cache.sources().len() == 0,
    {
        let cache = PatternCache { entries: Vec::new() };
        assert(cache.sources() =~= Seq::<Seq<char>>::empty());
        assert(cache.sources().to_set() =~= Set::<Seq<char>>::empty());
        cache
    }

    /// How many compiled patterns the cache holds: one for each distinct
    /// pattern text.
    pub fn len(&self) -> (n: usize)
        ensures
            n == self.sources().len(),
            n == self@.len(),
    {
        proof {
            use_type_invariant(self);
            self.sources().unique_seq_to_set();
        }
        self.entries.len()
    }

    /// Where the compiled form of `pattern` stands in the cache, if it is
    /// there.
    fn position(&self, pattern: &String) -> (found: Option<usize>)
        ensures
            match found {
                Some(i) => i < self.entries@.len() && self.entries@[i as int].source@ == pattern@,
                None => !self.sources().contains(pattern@),
            },
    {
        let mut i: usize = 0;
        while i < self.entries.len()
            invariant
                i <= self.entries.len(),
                forall|j: int| 0 <= j < i ==> self.sources()[j] != pattern@,
            decreases self.entries.len() - i,
        {
            if self.entries[i].source == *pattern {
                return Some(i);
            }
            assert(self.sources()[i as int] == self.entries@[i as int].source@);
            i += 1;
        }
        None
    }

    /// Tests `path` against `pattern`, compiling the pattern only if the
    /// cache does not hold it yet. A pattern that does not compile gives
    /// `None` and leaves the cache as it was.
    pub fn is_match(&mut self, pattern: &str, path: &str) -> (answer: Option<bool>)
        ensures
            answer == (if pattern_compiles(pattern@) {
                Some(pattern_matches(pattern@, path@))
            } else {
                None
            }),
            final(self)@ == (if pattern_compiles(pattern@) {
                old(self)@.insert(pattern@)
            } else {
                old(self)@
            }),
            old(self)@.contains(pattern@) ==> final(self).sources() == old(self).sources(),
    {
        proof {
            use_type_invariant(&*self);
        }
        let wanted = pattern.to_owned();
        match self.position(&wanted) {
            Some(i) => {
                proof {
                    assert(self.sources()[i as int] == pattern@);
                    assert(self.sources().to_set().contains(self.sources()[i as int]));
                    assert(self@.insert(pattern@) =~= self@);
                }
                Some(self.entries[i].compiled.is_match(path))
            },
            None => {
                match regex::Regex::new(pattern) {
                    Ok(compiled) => {
                        let answer = compiled.is_match(path);
                        let ghost before = self.sources();
                        let mut grown: Vec<CachedPattern> = Vec::new();
                        std::mem::swap(&mut self.entries, &mut grown);
                        grown.push(CachedPattern { source: wanted, compiled });
                        proof {
                            assert(sources_of(grown@) =~= before.push(pattern@));
                            before.lemma_push_to_set_commute(pattern@);
                        }
                        self.entries = grown;
                        Some(answer)
                    },
                    Err(_) => None,
                }
            },
        }
    }
}

} // verus!
