use vstd::prelude::*;
use vstd::string::*;

verus! {

/// What the cache holds: `None` before the environment was read, then the
/// qualifier that reading gave (`Some(None)` when there was none).
pub type CacheState = Option<Option<Seq<char>>>;

/// A qualifier read from the environment: an unset or empty variable gives none.
pub open spec fn normalized(read: Option<Seq<char>>) -> Option<Seq<char>> {
    if read is Some && read->Some_0.len() > 0 {
        read
    } else {
        None
    }
}

/// One lookup through the cache, offered what the environment holds at
/// that moment: an empty cache takes the offer, a filled one keeps its value.
pub open spec fn lookup_step(s: CacheState, offer: Option<Seq<char>>) -> CacheState {
    match s {
        Some(v) => Some(v),
        None => Some(normalized(offer)),
    }
}

/// The state after a run of lookups, each offered the next element of `offers`.
pub open spec fn after_lookups(s: CacheState, offers: Seq<Option<Seq<char>>>) -> CacheState
    decreases offers.len(),
{
    if offers.len() == 0 {
        s
    } else {
        after_lookups(lookup_step(s, offers[0]), offers.drop_first())
    }
}

/// How many lookups of such a run read the environment.
pub open spec fn env_reads(s: CacheState, offers: Seq<Option<Seq<char>>>) -> nat
    decreases offers.len(),
{
    if offers.len() == 0 {
        0
    } else {
        (if s is None { 1nat } else { 0nat }) + env_reads(lookup_step(s, offers[0]), offers.drop_first())
    }
}

/// The fallback qualifier of one build process, read from the environment
/// at most once and stable afterwards.
pub struct EnvironmentCache {
    state: Option<Option<String>>,
}

impl View for EnvironmentCache {
    type V = CacheState;

    closed spec fn view(&self) -> CacheState {
        self.state.deep_view()
    }
}

impl EnvironmentCache {
    /// A cache that has not read the environment yet.
    pub fn new() -> (r: Self)
        ensures
            r@ is None,
    {
        EnvironmentCache { state: None }
    }

    /// Whether the next lookup has to read the environment.
    pub fn needs_read(&self) -> (r: bool)
        ensures
            r == (self@ is None),
    {
        self.state.is_none()
    }

    /// The cached qualifier, once the environment has been read.
    pub fn cached(&self) -> (r: Option<Option<String>>)
        ensures
            r.deep_view() == self@,
    {
        match &self.state {
            Some(v) => Some(v.clone()),
            None => None,
        }
    }

    /// Records what reading the environment gave, unless a value is already
    /// cached, and returns the cached qualifier.
    pub fn populate(&mut self, read: Option<String>) -> (r: Option<String>)
        ensures
            final(self)@ == lookup_step(old(self)@, read.deep_view()),
            final(self)@ == Some(r.deep_view()),
    {
        match &self.state {
            Some(v) => v.clone(),
            None => {
                let v = match read {
                    Some(s) => if s.as_str().unicode_len() > 0 {
                        Some(s)
                    } else {
                        None
                    },
                    None => None,
                };
                self.state = Some(v.clone());
                v
            },
        }
    }
}

impl EnvironmentCache {
    /// The fallback qualifier: the cached one, or else what `read` gives
    /// (an empty value counting as none), which is then cached. `read` is
    /// called only while nothing is cached, so within one process the
    /// environment is read at most once.
    pub fn get_or_init<F: FnOnce() -> Option<String>>(&mut self, read: F) -> (r: Option<String>)
        requires
            read.requires(()),
        ensures
            final(self)@ == Some(r.deep_view()),
            old(self)@ matches Some(v) ==> final(self)@ == old(self)@ && r.deep_view() == v,
            old(self)@ is None ==> exists|got: Option<String>|
                read.ensures((), got) && final(self)@ == lookup_step(
                    old(self)@,
                    got.deep_view(),
                ),
    {
        match &self.state {
            Some(v) => v.clone(),
            None => {
                let got = read();
                self.populate(got)
            },
        }
    }
}

proof fn lemma_filled_cache_stays(v: Option<Seq<char>>, offers: Seq<Option<Seq<char>>>)
    ensures
        after_lookups(Some(v), offers) == Some(v),
        env_reads(Some(v), offers) == 0,
    decreases offers.len(),
{
    if offers.len() > 0 {
        lemma_filled_cache_stays(v, offers.drop_first());
    }
}

/// However many lookups a process makes, and whatever the environment holds
/// at each of them, the environment is read exactly once (by the first) and
/// every lookup ends with the value that first read gave.
pub proof fn lemma_single_env_read(offers: Seq<Option<Seq<char>>>)
    requires
        offers.len() > 0,
    ensures
        env_reads(None, offers) == 1,
        forall|i: int|
            1 <= i <= offers.len() ==> #[trigger] after_lookups(None, offers.take(i)) == Some(
                normalized(offers[0]),
            ),
{
    lemma_filled_cache_stays(normalized(offers[0]), offers.drop_first());
    assert forall|i: int| 1 <= i <= offers.len() implies #[trigger] after_lookups(
        None,
        offers.take(i),
    ) == Some(normalized(offers[0])) by {
        let t = offers.take(i);
        assert(t[0] == offers[0]);
        lemma_filled_cache_stays(normalized(offers[0]), t.drop_first());
    }
}

/// The qualifier one rewrite uses: a non-empty explicit one, else the fallback.
pub open spec fn resolved(explicit: Option<Seq<char>>, fallback: Option<Seq<char>>) -> Option<
    Seq<char>,
> {
    if explicit is Some && explicit->Some_0.len() > 0 {
        explicit
    } else {
        fallback
    }
}

/// Picks the qualifier of one rewrite: the explicit argument when it is
/// present and non-empty, else the process fallback.
pub fn resolve_prefix(explicit: Option<String>, fallback: Option<String>) -> (r: Option<String>)
    ensures
        r.deep_view() == resolved(explicit.deep_view(), fallback.deep_view()),
{
    match explicit {
        Some(q) => if q.as_str().unicode_len() > 0 {
            Some(q)
        } else {
            fallback
        },
        None => fallback,
    }
}

} // verus!
