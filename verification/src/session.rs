//! Session cookies and one-time PKCE verifiers.
use vstd::prelude::*;
use crate::text::{chars_of, split_ranges, split_on, trim, trim_bounds, starts_with, range_starts_with, strip_all_prefix, strip_all_prefix_bounds, string_from_range};

verus! {

/// The cookie name and `=` that introduce the session id.
pub open spec fn sid_prefix() -> Seq<char> {
    seq!['s', 'i', 'd', '=']
}

/// The session id carried by the first cookie piece, from index `i` on, that starts with `sid=`
/// once trimmed; every leading `sid=` is then stripped from it.
pub open spec fn first_sid_from(segs: Seq<Seq<char>>, i: int) -> Option<Seq<char>>
    decreases segs.len() - i,
{
    if i < 0 || i >= segs.len() {
        None
    } else if starts_with(trim(segs[i]), sid_prefix()) {
        Some(strip_all_prefix(trim(segs[i]), sid_prefix()))
    } else {
        first_sid_from(segs, i + 1)
    }
}

/// The session id that a `Cookie` header carries, if any.
pub open spec fn session_id_spec(header: Seq<char>) -> Option<Seq<char>> {
    first_sid_from(split_on(header, ';'), 0)
}

fn sid_prefix_chars() -> (v: Vec<char>)
    ensures
        v@ == sid_prefix(),
{
    let mut v: Vec<char> = Vec::new();
    v.push('s');
    v.push('i');
    v.push('d');
    v.push('=');
    assert(v@ == sid_prefix());
    v
}

/// Finds the session id in a `Cookie` header: the first `;`-separated piece that, trimmed,
/// starts with `sid=`, with its leading `sid=` removed.
pub fn session_id_from_cookie_header(header: &str) -> (r: Option<String>)
    ensures
        r matches Some(s) ==> session_id_spec(header@) == Some(s@),
        r is None ==> session_id_spec(header@) is None,
{
    let cs = chars_of(header);
    let ranges = split_ranges(&cs, ';');
    let p = sid_prefix_chars();
    let ghost segs = split_on(cs@, ';');
    let mut i: usize = 0;
    while i < ranges.len()
        invariant
            i <= ranges.len(),
            cs@ == header@,
            p@ == sid_prefix(),
            segs == split_on(cs@, ';'),
            ranges.len() == segs.len(),
            forall|k: int|
                0 <= k < ranges.len() ==> {
                    &&& (#[trigger] ranges@[k]).0 <= ranges@[k].1 <= cs.len()
                    &&& cs@.subrange(ranges@[k].0 as int, ranges@[k].1 as int) == segs[k]
                },
            first_sid_from(segs, i as int) == session_id_spec(header@),
        decreases ranges.len() - i,
    {
        let (lo, hi) = ranges[i];
        let (a, b) = trim_bounds(&cs, lo, hi);
        if range_starts_with(&cs, a, b, &p) {
            let c = strip_all_prefix_bounds(&cs, a, b, &p);
            return Some(string_from_range(&cs, c, b));
        }
        i = i + 1;
    }
    None
}

} // verus!

verus! {

use vstd::hash_map::StringHashMap;

/// PKCE verifiers waiting for the OAuth callback, keyed by the `state` sent to Spotify.
pub struct VerifierStore {
    m: StringHashMap<String>,
}

/// The store after `put(state, verifier)`.
pub open spec fn put_spec(m: Map<Seq<char>, String>, state: Seq<char>, verifier: String) -> Map<Seq<char>, String> {
    m.insert(state, verifier)
}

/// What `take(state)` hands back from the store `m`.
pub open spec fn taken_spec(m: Map<Seq<char>, String>, state: Seq<char>) -> Option<String> {
    if m.contains_key(state) {
        Some(m[state])
    } else {
        None
    }
}

/// The store after `take(state)`.
pub open spec fn take_rest_spec(m: Map<Seq<char>, String>, state: Seq<char>) -> Map<Seq<char>, String> {
    m.remove(state)
}

impl View for VerifierStore {
    type V = Map<Seq<char>, String>;

    closed spec fn view(&self) -> Map<Seq<char>, String> {
        self.m@
    }
}

impl VerifierStore {
    /// An empty store.
    pub fn new() -> (s: Self)
        ensures
            s@ == Map::<Seq<char>, String>::empty(),
    {
        VerifierStore { m: StringHashMap::new() }
    }

    /// Remembers `verifier` for `state`, replacing any verifier stored for it before.
    pub fn put(&mut self, state: String, verifier: String)
        ensures
            final(self)@ == put_spec(old(self)@, state@, verifier),
    {
        self.m.insert(state, verifier);
    }

    /// Hands back the verifier stored for `state` and forgets it, so that a `state` is good for
    /// one callback only.
    pub fn take(&mut self, state: &str) -> (r: Option<String>)
        ensures
            r == taken_spec(old(self)@, state@),
            final(self)@ == take_rest_spec(old(self)@, state@),
    {
        let r = match self.m.get(state) {
            Some(v) => Some(v.clone()),
            None => None,
        };
        self.m.remove(state);
        r
    }
}

/// A verifier put for a state is what the next take of that state hands back.
pub proof fn law_take_returns_put(m: Map<Seq<char>, String>, state: Seq<char>, verifier: String)
    ensures
        taken_spec(put_spec(m, state, verifier), state) == Some(verifier),
{
}

/// A state can be redeemed once: after a take, a second take of it finds nothing.
pub proof fn law_take_is_one_time(m: Map<Seq<char>, String>, state: Seq<char>)
    ensures
        taken_spec(take_rest_spec(m, state), state) is None,
{
}

/// Taking or putting one state leaves every other state's verifier as it was.
pub proof fn law_other_states_untouched(
    m: Map<Seq<char>, String>,
    state: Seq<char>,
    other: Seq<char>,
    verifier: String,
)
    requires
        state != other,
    ensures
        taken_spec(put_spec(m, state, verifier), other) == taken_spec(m, other),
        taken_spec(take_rest_spec(m, state), other) == taken_spec(m, other),
{
}

} // verus!
