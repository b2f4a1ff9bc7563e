use vstd::prelude::*;

verus! {

/// Largest number of matches that a default policy returns.
pub const DEFAULT_MAX_MATCHES: u32 = 1000;

/// What a set of substructure-match parameters asks of the matcher.
pub struct MatchPolicy {
    /// Whether stereo descriptors of atoms and bonds must agree.
    pub use_chirality: bool,
    /// Whether enhanced stereo groups are honoured.
    pub use_enhanced_stereo: bool,
    /// Whether aromatic bonds may match conjugated non-aromatic bonds.
    pub aromatic_matches_conjugated: bool,
    /// Whether a query may be matched against another query.
    pub use_query_query_matches: bool,
    /// Whether generic query atoms are evaluated.
    pub use_generic_matchers: bool,
    /// Whether recursive sub-queries are evaluated.
    pub recursion_possible: bool,
    /// Whether matches that cover the same atom set are reported once.
    pub uniquify: bool,
    /// Largest number of matches returned.
    pub max_matches: nat,
}

/// The policy of freshly made parameters: no stereo, enhanced-stereo,
/// conjugation, query-query or generic matching; recursive sub-queries
/// evaluated; duplicate atom sets dropped; at most `DEFAULT_MAX_MATCHES`
/// matches.
pub open spec fn default_policy() -> MatchPolicy {
    MatchPolicy {
        use_chirality: false,
        use_enhanced_stereo: false,
        aromatic_matches_conjugated: false,
        use_query_query_matches: false,
        use_generic_matchers: false,
        recursion_possible: true,
        uniquify: true,
        max_matches: DEFAULT_MAX_MATCHES as nat,
    }
}

/// How many of `n` matches found are returned under `policy`.
pub open spec fn capped_len(n: nat, policy: MatchPolicy) -> nat {
    if n <= policy.max_matches {
        n
    } else {
        policy.max_matches
    }
}

/// Parameters of a substructure search, built from the defaults by a chain of
/// `with`-style calls, each of which sets one knob and hands the record back.
pub struct SubstructMatchParameters {
    use_chirality: bool,
    use_enhanced_stereo: bool,
    aromatic_matches_conjugated: bool,
    use_query_query_matches: bool,
    use_generic_matchers: bool,
    recursion_possible: bool,
    uniquify: bool,
    max_matches: u32,
}

impl View for SubstructMatchParameters {
    type V = MatchPolicy;

    closed spec fn view(&self) -> MatchPolicy {
        MatchPolicy {
            use_chirality: self.use_chirality,
            use_enhanced_stereo: self.use_enhanced_stereo,
            aromatic_matches_conjugated: self.aromatic_matches_conjugated,
            use_query_query_matches: self.use_query_query_matches,
            use_generic_matchers: self.use_generic_matchers,
            recursion_possible: self.recursion_possible,
            uniquify: self.uniquify,
            max_matches: self.max_matches as nat,
        }
    }
}

impl Default for SubstructMatchParameters {
    fn default() -> (r: Self)
        ensures
            r@ == default_policy(),
    {
        SubstructMatchParameters::new()
    }
}

impl SubstructMatchParameters {
    /// Parameters with the default policy.
    pub fn new() -> (r: Self)
        ensures
            r@ == default_policy(),
    {
        SubstructMatchParameters {
            use_chirality: false,
            use_enhanced_stereo: false,
            aromatic_matches_conjugated: false,
            use_query_query_matches: false,
            use_generic_matchers: false,
            recursion_possible: true,
            uniquify: true,
            max_matches: DEFAULT_MAX_MATCHES,
        }
    }

    /// Whether stereo descriptors of atoms and bonds must agree.
    pub fn get_use_chirality(&self) -> (r: bool)
        ensures
            r == self@.use_chirality,
    {
        self.use_chirality
    }

    /// Whether enhanced stereo groups are honoured.
    pub fn get_use_enhanced_stereo(&self) -> (r: bool)
        ensures
            r == self@.use_enhanced_stereo,
    {
        self.use_enhanced_stereo
    }

    /// Whether aromatic bonds may match conjugated non-aromatic bonds.
    pub fn get_aromatic_matches_conjugated(&self) -> (r: bool)
        ensures
            r == self@.aromatic_matches_conjugated,
    {
        self.aromatic_matches_conjugated
    }

    /// Whether a query may be matched against another query.
    pub fn get_use_query_query_matches(&self) -> (r: bool)
        ensures
            r == self@.use_query_query_matches,
    {
        self.use_query_query_matches
    }

    /// Whether generic query atoms are evaluated.
    pub fn get_use_generic_matchers(&self) -> (r: bool)
        ensures
            r == self@.use_generic_matchers,
    {
        self.use_generic_matchers
    }

    /// Whether recursive sub-queries are evaluated.
    pub fn get_recursion_possible(&self) -> (r: bool)
        ensures
            r == self@.recursion_possible,
    {
        self.recursion_possible
    }

    /// Whether matches that cover the same atom set are reported once.
    pub fn get_uniquify(&self) -> (r: bool)
        ensures
            r == self@.uniquify,
    {
        self.uniquify
    }

    /// Sets whether stereo descriptors of atoms and bonds must agree; the other knobs stay.
    pub fn use_chirality(self, what: bool) -> (r: Self)
        ensures
            r@ == (MatchPolicy { use_chirality: what, ..self@ }),
    {
        SubstructMatchParameters { use_chirality: what, ..self }
    }

    /// Sets whether enhanced stereo groups are honoured; the other knobs stay.
    pub fn use_enhanced_stereo(self, what: bool) -> (r: Self)
        ensures
            r@ == (MatchPolicy { use_enhanced_stereo: what, ..self@ }),
    {
        SubstructMatchParameters { use_enhanced_stereo: what, ..self }
    }

    /// Sets whether aromatic bonds may match conjugated non-aromatic bonds; the other knobs stay.
    pub fn aromatic_matches_conjugated(self, what: bool) -> (r: Self)
        ensures
            r@ == (MatchPolicy { aromatic_matches_conjugated: what, ..self@ }),
    {
        SubstructMatchParameters { aromatic_matches_conjugated: what, ..self }
    }

    /// Sets whether a query may be matched against another query; the other knobs stay.
    pub fn use_query_query_matches(self, what: bool) -> (r: Self)
        ensures
            r@ == (MatchPolicy { use_query_query_matches: what, ..self@ }),
    {
        SubstructMatchParameters { use_query_query_matches: what, ..self }
    }

    /// Sets whether generic query atoms are evaluated; the other knobs stay.
    pub fn use_generic_matchers(self, what: bool) -> (r: Self)
        ensures
            r@ == (MatchPolicy { use_generic_matchers: what, ..self@ }),
    {
        SubstructMatchParameters { use_generic_matchers: what, ..self }
    }

    /// Sets whether recursive sub-queries are evaluated; the other knobs stay.
    pub fn recursion_possible(self, what: bool) -> (r: Self)
        ensures
            r@ == (MatchPolicy { recursion_possible: what, ..self@ }),
    {
        SubstructMatchParameters { recursion_possible: what, ..self }
    }

    /// Sets whether matches that cover the same atom set are reported once; the other knobs stay.
    pub fn uniquify(self, what: bool) -> (r: Self)
        ensures
            r@ == (MatchPolicy { uniquify: what, ..self@ }),
    {
        SubstructMatchParameters { uniquify: what, ..self }
    }

    /// Sets the largest number of matches returned; the other knobs stay.
    pub fn max_matches(self, value: u32) -> (r: Self)
        ensures
            r@ == (MatchPolicy { max_matches: value as nat, ..self@ }),
    {
        SubstructMatchParameters { max_matches: value, ..self }
    }

    /// Keeps the first `max_matches` of the matches found, in their order.
    pub fn limit_matches<T>(&self, matches: Vec<T>) -> (r: Vec<T>)
        ensures
            r@.len() == capped_len(matches@.len(), self@),
            r@ == matches@.take(capped_len(matches@.len(), self@) as int),
    {
        let ghost found = matches@;
        let mut matches = matches;
        let cap = self.max_matches as usize;
        if cap < matches.len() {
            matches.truncate(cap);
        }
        proof {
            assert(matches@ =~= found.take(capped_len(found.len(), self@) as int));
        }
        matches
    }
}

/// Switching stereo checks on or off leaves the cap alone: where the matcher
/// finds no more embeddings with stereo checks than without, the counts
/// returned keep that order.
pub proof fn lemma_chirality_keeps_count_order(policy: MatchPolicy, with_stereo: nat, without_stereo: nat)
    requires
        with_stereo <= without_stereo,
    ensures
        capped_len(with_stereo, MatchPolicy { use_chirality: true, ..policy }) <= capped_len(
            without_stereo,
            MatchPolicy { use_chirality: false, ..policy },
        ),
{
}

} // verus!
