//! Playlists generated from the music graph: the query that selects the songs from the chosen
//! filters, and the steps that turn its answer into a Spotify playlist.
use vstd::prelude::*;
use vstd::string::StringExecFns;
use crate::models::{PlaylistFilter, PlaylistGenerationRequest, GeneratedPlaylistResult};
use crate::text::{append, push_decimal, decimal, join, join_spec, views, contains_seq};

verus! {

/// How a kind of node is reached from a song: relationship type, the node property matched,
/// the label shown to the user, and whether the relationship carries a confidence.
pub open spec fn node_kind_spec(t: Seq<char>) -> Option<(Seq<char>, Seq<char>, Seq<char>, bool)> {
    if t == "Genre"@ {
        Some(("HAS_GENRE"@, "name"@, "Genre: "@, true))
    } else if t == "Language"@ {
        Some(("SUNG_IN"@, "name"@, "Language: "@, false))
    } else if t == "EnergyLevel"@ {
        Some(("HAS_ENERGY_LEVEL"@, "level"@, "Energy: "@, false))
    } else if t == "Valence"@ {
        Some(("HAS_VALENCE"@, "level"@, "Valence: "@, false))
    } else if t == "Culture"@ {
        Some(("ORIGINATED_FROM"@, "name"@, "Culture: "@, true))
    } else if t == "Instrument"@ {
        Some(("FEATURES_INSTRUMENT"@, "name"@, "Instrument: "@, false))
    } else if t == "ProductionStyle"@ {
        Some(("HAS_PRODUCTION_STYLE"@, "name"@, "Production: "@, false))
    } else if t == "VocalStyle"@ {
        Some(("HAS_VOCAL_STYLE"@, "name"@, "Vocals: "@, false))
    } else if t == "UserTag"@ {
        Some(("HAS_USER_TAG"@, "name"@, "Tag: "@, true))
    } else {
        None
    }
}

fn is(t: &String, lit: &str) -> (b: bool)
    ensures
        b == (t@ == lit@),
{
    *t == String::from_str(lit)
}

fn node_kind(t: &String) -> (r: Option<(&'static str, &'static str, &'static str, bool)>)
    ensures
        node_kind_spec(t@) == (match r {
            Some(k) => Some((k.0@, k.1@, k.2@, k.3)),
            None => None::<(Seq<char>, Seq<char>, Seq<char>, bool)>,
        }),
{
    if is(t, "Genre") {
        Some(("HAS_GENRE", "name", "Genre: ", true))
    } else if is(t, "Language") {
        Some(("SUNG_IN", "name", "Language: ", false))
    } else if is(t, "EnergyLevel") {
        Some(("HAS_ENERGY_LEVEL", "level", "Energy: ", false))
    } else if is(t, "Valence") {
        Some(("HAS_VALENCE", "level", "Valence: ", false))
    } else if is(t, "Culture") {
        Some(("ORIGINATED_FROM", "name", "Culture: ", true))
    } else if is(t, "Instrument") {
        Some(("FEATURES_INSTRUMENT", "name", "Instrument: ", false))
    } else if is(t, "ProductionStyle") {
        Some(("HAS_PRODUCTION_STYLE", "name", "Production: ", false))
    } else if is(t, "VocalStyle") {
        Some(("HAS_VOCAL_STYLE", "name", "Vocals: ", false))
    } else if is(t, "UserTag") {
        Some(("HAS_USER_TAG", "name", "Tag: ", true))
    } else {
        None
    }
}

/// The `MATCH` clause for the `i`-th filter, of node type `t`.
pub open spec fn match_clause_spec(i: nat, t: Seq<char>, rel: Seq<char>, key: Seq<char>, ranked: bool) -> Seq<char> {
    "MATCH (s)-["@ + (if ranked { "r"@ + decimal(i) } else { Seq::empty() }) + ":"@ + rel + "]->(n"@
        + decimal(i) + ":"@ + t + " {"@ + key + ": $filter_"@ + decimal(i) + "_value})"@
}

/// The confidence condition of the `i`-th filter.
pub open spec fn where_clause_spec(i: nat) -> Seq<char> {
    "r"@ + decimal(i) + ".confidence >= $filter_"@ + decimal(i) + "_confidence"@
}

/// The clauses and descriptions for the filters `fs`, the first being filter number `start`;
/// `None` at the first filter of an unsupported node type, with that type.
pub open spec fn clauses_spec(fs: Seq<PlaylistFilter>) -> Result<(Seq<Seq<char>>, Seq<Seq<char>>, Seq<Seq<char>>), Seq<char>>
    decreases fs.len(),
{
    if fs.len() == 0 {
        Ok((Seq::empty(), Seq::empty(), Seq::empty()))
    } else {
        match clauses_spec(fs.drop_last()) {
            Err(t) => Err(t),
            Ok((ms, ws, ds)) => {
                let i = (fs.len() - 1) as nat;
                let f = fs.last();
                match node_kind_spec(f.node_type@) {
                    None => Err(f.node_type@),
                    Some((rel, key, desc, ranked)) => Ok((
                        ms.push(match_clause_spec(i, f.node_type@, rel, key, ranked)),
                        if ranked && f.min_confidence_bits is Some { ws.push(where_clause_spec(i)) } else { ws },
                        ds.push(desc + f.value@),
                    )),
                }
            },
        }
    }
}

/// A parameter of the generated query.
#[derive(Debug, Clone, PartialEq)]
pub enum QueryParam {
    Text(String),
    Int(i64),
    /// A floating-point value's bit pattern.
    FloatBits(u64),
}

pub enum QueryParamView {
    Text(Seq<char>),
    Int(i64),
    FloatBits(u64),
}

impl View for QueryParam {
    type V = QueryParamView;

    open spec fn view(&self) -> QueryParamView {
        match self {
            QueryParam::Text(s) => QueryParamView::Text(s@),
            QueryParam::Int(n) => QueryParamView::Int(*n),
            QueryParam::FloatBits(b) => QueryParamView::FloatBits(*b),
        }
    }
}

/// The parameters for the filters `fs`: each value, and each threshold that is given.
pub open spec fn filter_params_spec(fs: Seq<PlaylistFilter>) -> Seq<(Seq<char>, QueryParamView)>
    decreases fs.len(),
{
    if fs.len() == 0 {
        Seq::empty()
    } else {
        let i = (fs.len() - 1) as nat;
        let f = fs.last();
        let p = filter_params_spec(fs.drop_last()).push(
            ("filter_"@ + decimal(i) + "_value"@, QueryParamView::Text(f.value@)),
        );
        match f.min_confidence_bits {
            Some(b) => p.push(("filter_"@ + decimal(i) + "_confidence"@, QueryParamView::FloatBits(b))),
            None => p,
        }
    }
}

/// The query that selects the songs for a generated playlist.
#[derive(Debug, Clone, PartialEq)]
pub struct PlaylistQuery {
    pub cypher: String,
    pub params: Vec<(String, QueryParam)>,
    /// One description per filter, in order.
    pub descriptions: Vec<String>,
}

pub open spec fn param_views(p: Seq<(String, QueryParam)>) -> Seq<(Seq<char>, QueryParamView)> {
    p.map_values(|x: (String, QueryParam)| (x.0@, x.1@))
}

/// The text of the query for the given clauses.
pub open spec fn cypher_spec(ms: Seq<Seq<char>>, ws: Seq<Seq<char>>, shuffle: bool) -> Seq<char> {
    "MATCH (u:User {spotify_id: $user_id})-[:OWNS]->(p:Playlist)-[:CONTAINS]->(s:Song)"@ + "\n"@
        + join_spec(ms, "\n"@) + (if ws.len() > 0 { "\nWHERE "@ + join_spec(ws, " AND "@) } else {
        Seq::empty()
    }) + "\nRETURN DISTINCT s.id as song_id, s.title as title, s.uri as uri\n"@ + (if shuffle {
        "ORDER BY rand()"@
    } else {
        "ORDER BY s.title"@
    }) + "\nLIMIT $max_songs"@
}

/// Why no playlist query could be made.
#[derive(Debug, Clone, PartialEq)]
pub enum QueryError {
    NoFilters,
    UnsupportedNodeType(String),
}

impl QueryError {
    /// The message for this error.
    pub fn message(&self) -> (m: String)
        ensures
            m@ == (match self {
                QueryError::NoFilters => "At least one filter is required"@,
                QueryError::UnsupportedNodeType(t) => "Unsupported node type: "@ + t@,
            }),
    {
        match self {
            QueryError::NoFilters => String::from_str("At least one filter is required"),
            QueryError::UnsupportedNodeType(t) => {
                let mut m = String::from_str("Unsupported node type: ");
                append(&mut m, t.as_str());
                m
            },
        }
    }
}

fn push_num(s: &mut String, n: usize)
    ensures
        final(s)@ == old(s)@ + decimal(n as nat),
{
    push_decimal(s, n as u64);
}

/// Builds the query for a playlist request: one `MATCH` per filter, a confidence condition for
/// each genre, culture or tag filter with a threshold, the user's songs only, shuffled or by
/// title, at most `max_songs`.
pub fn build_playlist_query(user_id: &String, request: &PlaylistGenerationRequest) -> (r: Result<PlaylistQuery, QueryError>)
    ensures
        request.filters@.len() == 0 ==> r == Err::<PlaylistQuery, QueryError>(QueryError::NoFilters),
        request.filters@.len() > 0 ==> match clauses_spec(request.filters@) {
            Err(t) => r matches Err(QueryError::UnsupportedNodeType(tt)) && tt@ == t,
            Ok((ms, ws, ds)) => r matches Ok(q) && q.cypher@ == cypher_spec(ms, ws, request.shuffle)
                && views(q.descriptions@) == ds && param_views(q.params@) == seq![
                ("user_id"@, QueryParamView::Text(user_id@)),
                ("max_songs"@, QueryParamView::Int(request.max_songs as i64)),
            ] + filter_params_spec(request.filters@),
        },
{
    if request.filters.len() == 0 {
        return Err(QueryError::NoFilters);
    }
    let fs = &request.filters;
    let mut ms: Vec<String> = Vec::new();
    let mut ws: Vec<String> = Vec::new();
    let mut ds: Vec<String> = Vec::new();
    let mut params: Vec<(String, QueryParam)> = Vec::new();
    params.push((String::from_str("user_id"), QueryParam::Text(user_id.clone())));
    params.push((String::from_str("max_songs"), QueryParam::Int(request.max_songs as i64)));
    let ghost head = param_views(params@);
    let mut i: usize = 0;
    assert(fs@.take(0) =~= Seq::<PlaylistFilter>::empty());
    assert(views(ms@) =~= Seq::<Seq<char>>::empty());
    assert(views(ws@) =~= Seq::<Seq<char>>::empty());
    assert(views(ds@) =~= Seq::<Seq<char>>::empty());
    assert(head + filter_params_spec(fs@.take(0)) =~= head);
    while i < fs.len()
        invariant
            i <= fs.len(),
            fs@ == request.filters@,
            fs@.len() > 0,
            clauses_spec(fs@.take(i as int)) == Ok::<(Seq<Seq<char>>, Seq<Seq<char>>, Seq<Seq<char>>), Seq<char>>((views(ms@), views(ws@), views(ds@))),
            param_views(params@) == head + filter_params_spec(fs@.take(i as int)),
        decreases fs.len() - i,
    {
        let ghost pre = fs@.take(i as int);
        let ghost next = fs@.take(i + 1);
        assert(next.drop_last() == pre);
        assert(next.last() == fs@[i as int]);
        let f = &fs[i];
        let ghost ws_old = views(ws@);
        let ghost ds_old = views(ds@);
        let ghost ms_old = views(ms@);
        let ghost p_old = param_views(params@);
        match node_kind(&f.node_type) {
            None => {
                assert(clauses_spec(fs@.take(i + 1)) == Err::<(Seq<Seq<char>>, Seq<Seq<char>>, Seq<Seq<char>>), Seq<char>>(f.node_type@));
                proof {
                    lemma_clauses_err_extends(fs@, i as int + 1);
                }
                return Err(QueryError::UnsupportedNodeType(f.node_type.clone()));
            },
            Some((rel, key, desc, ranked)) => {
                let mut m = String::from_str("MATCH (s)-[");
                if ranked {
                    append(&mut m, "r");
                    push_num(&mut m, i);
                }
                append(&mut m, ":");
                append(&mut m, rel);
                append(&mut m, "]->(n");
                push_num(&mut m, i);
                append(&mut m, ":");
                append(&mut m, f.node_type.as_str());
                append(&mut m, " {");
                append(&mut m, key);
                append(&mut m, ": $filter_");
                push_num(&mut m, i);
                append(&mut m, "_value})");
                assert(m@ =~= match_clause_spec(i as nat, f.node_type@, rel@, key@, ranked));
                ms.push(m);
                if ranked && f.min_confidence_bits.is_some() {
                    let mut w = String::from_str("r");
                    push_num(&mut w, i);
                    append(&mut w, ".confidence >= $filter_");
                    push_num(&mut w, i);
                    append(&mut w, "_confidence");
                    assert(w@ =~= where_clause_spec(i as nat));
                    ws.push(w);
                    assert(views(ws@) =~= ws_old.push(where_clause_spec(i as nat)));
                } else {
                    assert(views(ws@) =~= ws_old);
                }
                let mut d = String::from_str(desc);
                append(&mut d, f.value.as_str());
                ds.push(d);
                assert(views(ds@) =~= ds_old.push(desc@ + f.value@));
                assert(views(ms@) =~= ms_old.push(match_clause_spec(i as nat, f.node_type@, rel@, key@, ranked)));
                let mut pv = String::from_str("filter_");
                push_num(&mut pv, i);
                append(&mut pv, "_value");
                assert(pv@ =~= "filter_"@ + decimal(i as nat) + "_value"@);
                params.push((pv, QueryParam::Text(f.value.clone())));
                let ghost p_mid = param_views(params@);
                assert(p_mid =~= p_old.push(("filter_"@ + decimal(i as nat) + "_value"@, QueryParamView::Text(f.value@))));
                match f.min_confidence_bits {
                    Some(b) => {
                        let mut pc = String::from_str("filter_");
                        push_num(&mut pc, i);
                        append(&mut pc, "_confidence");
                        assert(pc@ =~= "filter_"@ + decimal(i as nat) + "_confidence"@);
                        params.push((pc, QueryParam::FloatBits(b)));
                        assert(param_views(params@) =~= p_mid.push(("filter_"@ + decimal(i as nat) + "_confidence"@, QueryParamView::FloatBits(b))));
                    },
                    None => {},
                }
                assert(param_views(params@) =~= head + filter_params_spec(next));
            },
        }
        i = i + 1;
    }
    assert(fs@.take(fs.len() as int) == fs@);
    let mut cypher = String::from_str("MATCH (u:User {spotify_id: $user_id})-[:OWNS]->(p:Playlist)-[:CONTAINS]->(s:Song)");
    append(&mut cypher, "\n");
    let jm = join(&ms, "\n");
    append(&mut cypher, jm.as_str());
    if ws.len() > 0 {
        append(&mut cypher, "\nWHERE ");
        let jw = join(&ws, " AND ");
        append(&mut cypher, jw.as_str());
    }
    append(&mut cypher, "\nRETURN DISTINCT s.id as song_id, s.title as title, s.uri as uri\n");
    if request.shuffle {
        append(&mut cypher, "ORDER BY rand()");
    } else {
        append(&mut cypher, "ORDER BY s.title");
    }
    append(&mut cypher, "\nLIMIT $max_songs");
    Ok(PlaylistQuery { cypher, params, descriptions: ds })
}

/// Every filter of an accepted request gives exactly one `MATCH` clause and one description,
/// and at most one confidence condition.
pub proof fn law_one_clause_per_filter(fs: Seq<PlaylistFilter>)
    ensures
        clauses_spec(fs) matches Ok((ms, ws, ds)) ==> ms.len() == fs.len() && ds.len() == fs.len() && ws.len()
            <= fs.len(),
    decreases fs.len(),
{
    if fs.len() > 0 {
        law_one_clause_per_filter(fs.drop_last());
    }
}

/// Whatever the filters, the generated query reads only songs of the user's own playlists: its
/// text begins with that constraint.
pub proof fn law_query_scoped_to_user(ms: Seq<Seq<char>>, ws: Seq<Seq<char>>, shuffle: bool)
    ensures
        ({
            let u = "MATCH (u:User {spotify_id: $user_id})-[:OWNS]->(p:Playlist)-[:CONTAINS]->(s:Song)"@;
            cypher_spec(ms, ws, shuffle).subrange(0, u.len() as int) == u
        }),
{
    let u = "MATCH (u:User {spotify_id: $user_id})-[:OWNS]->(p:Playlist)-[:CONTAINS]->(s:Song)"@;
    let rest = "\n"@ + join_spec(ms, "\n"@) + (if ws.len() > 0 { "\nWHERE "@ + join_spec(ws, " AND "@) } else {
        Seq::empty()
    }) + "\nRETURN DISTINCT s.id as song_id, s.title as title, s.uri as uri\n"@ + (if shuffle {
        "ORDER BY rand()"@
    } else {
        "ORDER BY s.title"@
    }) + "\nLIMIT $max_songs"@;
    assert(cypher_spec(ms, ws, shuffle) =~= u + rest);
    assert((u + rest).subrange(0, u.len() as int) =~= u);
}

/// Every filter on genres, cultures or user tags that carries a threshold puts the condition
/// `r<i>.confidence >= $filter_<i>_confidence` among the query's conditions, and every condition
/// is one of these.
pub proof fn law_every_threshold_is_a_condition(fs: Seq<PlaylistFilter>)
    ensures
        clauses_spec(fs) matches Ok((ms, ws, ds)) ==> {
            &&& forall|i: int|
                0 <= i < fs.len() && ((#[trigger] fs[i]).node_type@ == "Genre"@ || fs[i].node_type@ == "Culture"@
                    || fs[i].node_type@ == "UserTag"@) && fs[i].min_confidence_bits is Some ==> ws.contains(
                    "r"@ + decimal(i as nat) + ".confidence >= $filter_"@ + decimal(i as nat) + "_confidence"@,
                )
            &&& forall|k: int|
                0 <= k < ws.len() ==> exists|i: int|
                    0 <= i < fs.len() && (#[trigger] ws[k]) == "r"@ + decimal(i as nat) + ".confidence >= $filter_"@
                        + decimal(i as nat) + "_confidence"@ && (#[trigger] fs[i]).min_confidence_bits is Some
        },
    decreases fs.len(),
{
    if fs.len() > 0 {
        let p = fs.drop_last();
        law_every_threshold_is_a_condition(p);
        if let Ok((ms, ws, ds)) = clauses_spec(fs) {
            let n = (fs.len() - 1) as nat;
            let f = fs.last();
            if let Ok((ms0, ws0, ds0)) = clauses_spec(p) {
                let c = "r"@ + decimal(n) + ".confidence >= $filter_"@ + decimal(n) + "_confidence"@;
                assert(c == where_clause_spec(n));
                assert forall|i: int|
                    0 <= i < fs.len() && ((#[trigger] fs[i]).node_type@ == "Genre"@ || fs[i].node_type@ == "Culture"@
                        || fs[i].node_type@ == "UserTag"@) && fs[i].min_confidence_bits is Some implies ws.contains(
                    "r"@ + decimal(i as nat) + ".confidence >= $filter_"@ + decimal(i as nat) + "_confidence"@,
                ) by {
                    let ci = "r"@ + decimal(i as nat) + ".confidence >= $filter_"@ + decimal(i as nat) + "_confidence"@;
                    if i < p.len() {
                        assert(p[i] == fs[i]);
                        assert(ws0.contains(ci));
                        let j = choose|j: int| 0 <= j < ws0.len() && ws0[j] == ci;
                        assert(ws[j] == ws0[j]);
                    } else {
                        assert(fs[i] == f);
                        reveal_strlit("Genre");
                        reveal_strlit("Language");
                        reveal_strlit("EnergyLevel");
                        reveal_strlit("Valence");
                        reveal_strlit("Culture");
                        reveal_strlit("Instrument");
                        reveal_strlit("ProductionStyle");
                        reveal_strlit("VocalStyle");
                        reveal_strlit("UserTag");
                        let kind = node_kind_spec(f.node_type@);
                        let t = f.node_type@;
                        if t == "Genre"@ {
                        } else if t == "Culture"@ {
                            assert(t.len() != "Genre"@.len());
                            assert(t.len() != "Language"@.len());
                            assert(t.len() != "EnergyLevel"@.len());
                            assert(t[0] != "Valence"@[0]);
                        } else {
                            assert(t == "UserTag"@);
                            assert(t.len() != "Genre"@.len());
                            assert(t.len() != "Language"@.len());
                            assert(t.len() != "EnergyLevel"@.len());
                            assert(t[0] != "Valence"@[0]);
                            assert(t[0] != "Culture"@[0]);
                            assert(t.len() != "Instrument"@.len());
                            assert(t.len() != "ProductionStyle"@.len());
                            assert(t.len() != "VocalStyle"@.len());
                        }
                        assert(match kind { Some(k) => k.3, None => false });
                        assert(ws == ws0.push(where_clause_spec(n)));
                        assert(ws[ws0.len() as int] == c);
                    }
                }
                assert forall|k: int| 0 <= k < ws.len() implies exists|i: int|
                    0 <= i < fs.len() && (#[trigger] ws[k]) == "r"@ + decimal(i as nat) + ".confidence >= $filter_"@
                        + decimal(i as nat) + "_confidence"@ && (#[trigger] fs[i]).min_confidence_bits is Some by {
                    if k < ws0.len() {
                        assert(ws[k] == ws0[k]);
                        let i = choose|i: int|
                            0 <= i < p.len() && (#[trigger] ws0[k]) == "r"@ + decimal(i as nat) + ".confidence >= $filter_"@
                                + decimal(i as nat) + "_confidence"@ && (#[trigger] p[i]).min_confidence_bits is Some;
                        assert(fs[i] == p[i]);
                    } else {
                        assert(ws[k] == c);
                        assert(fs[n as int] == f);
                    }
                }
            }
        }
    }
}

/// The query's conditions must all hold: when there are any, its text carries `WHERE` with
/// the conditions joined by `AND`, right before what it returns.
pub proof fn law_conditions_are_joined_by_and(ms: Seq<Seq<char>>, ws: Seq<Seq<char>>, shuffle: bool)
    requires
        ws.len() > 0,
    ensures
        contains_seq(
            cypher_spec(ms, ws, shuffle),
            "\nWHERE "@ + join_spec(ws, " AND "@) + "\nRETURN DISTINCT"@,
        ),
{
    let u = "MATCH (u:User {spotify_id: $user_id})-[:OWNS]->(p:Playlist)-[:CONTAINS]->(s:Song)"@;
    let pre = u + "\n"@ + join_spec(ms, "\n"@);
    let w = "\nWHERE "@ + join_spec(ws, " AND "@);
    let ret = "\nRETURN DISTINCT s.id as song_id, s.title as title, s.uri as uri\n"@;
    let tail = (if shuffle { "ORDER BY rand()"@ } else { "ORDER BY s.title"@ }) + "\nLIMIT $max_songs"@;
    let target = w + "\nRETURN DISTINCT"@;
    reveal_strlit("\nRETURN DISTINCT s.id as song_id, s.title as title, s.uri as uri\n");
    reveal_strlit("\nRETURN DISTINCT");
    let c = cypher_spec(ms, ws, shuffle);
    assert(c =~= pre + w + ret + tail);
    assert(ret.subrange(0, 16) =~= "\nRETURN DISTINCT"@);
    let i = pre.len() as int;
    assert(c.subrange(i, i + target.len()) =~= target) by {
        assert forall|k: int| 0 <= k < target.len() implies c.subrange(i, i + target.len())[k] == target[k] by {
            if k < w.len() {
                assert(c[i + k] == (pre + w + ret + tail)[i + k]);
            } else {
                assert(c[i + k] == (pre + w + ret + tail)[i + k]);
                assert(target[k] == "\nRETURN DISTINCT"@[k - w.len()]);
                assert(ret[k - w.len()] == "\nRETURN DISTINCT"@[k - w.len()]);
            }
        }
    }
}

proof fn lemma_clauses_err_extends(fs: Seq<PlaylistFilter>, k: int)
    requires
        0 <= k <= fs.len(),
        clauses_spec(fs.take(k)) is Err,
    ensures
        clauses_spec(fs) == clauses_spec(fs.take(k)),
    decreases fs.len() - k,
{
    if k < fs.len() {
        assert(fs.take(k + 1).drop_last() == fs.take(k));
        lemma_clauses_err_extends(fs, k + 1);
    } else {
        assert(fs.take(k) == fs);
    }
}

} // verus!

verus! {

use crate::models::NodeValue;

/// Whether a value found in the graph is offered: it has a name and at least one song.
pub open spec fn offered(v: NodeValue) -> bool {
    v.value@.len() > 0 && v.song_count > 0
}

pub open spec fn offered_pred() -> spec_fn(NodeValue) -> bool {
    |v: NodeValue| offered(v)
}

/// The values with exactly `c` songs.
pub open spec fn with_count(c: i64) -> spec_fn(NodeValue) -> bool {
    |v: NodeValue| v.song_count == c
}

/// Whether `s` runs from the most songs to the fewest.
pub open spec fn by_count_desc(s: Seq<NodeValue>) -> bool {
    forall|i: int, j: int| 0 <= i < j < s.len() ==> s[i].song_count >= s[j].song_count
}

proof fn lemma_insert_keeps_groups(s: Seq<NodeValue>, pos: int, x: NodeValue, c: i64)
    requires
        0 <= pos <= s.len(),
        forall|k: int| pos <= k < s.len() ==> s[k].song_count < x.song_count,
    ensures
        s.insert(pos, x).filter(with_count(c)) == (if x.song_count == c {
            s.filter(with_count(c)).push(x)
        } else {
            s.filter(with_count(c))
        }),
{
    let a = s.subrange(0, pos);
    let b = s.subrange(pos, s.len() as int);
    assert(s == a + b);
    assert(s.insert(pos, x) == a.push(x) + b);
    Seq::filter_distributes_over_add(a.push(x), b, with_count(c));
    Seq::filter_distributes_over_add(a, b, with_count(c));
    a.lemma_filter_push(x, with_count(c));
    if x.song_count == c {
        assert forall|k: int| 0 <= k < b.len() implies !with_count(c)(#[trigger] b[k]) by {
            assert(b[k] == s[pos + k]);
        }
        b.lemma_all_neg_filter_empty(with_count(c));
        assert(b.filter(with_count(c)) =~= Seq::<NodeValue>::empty());
        assert(a.filter(with_count(c)).push(x) + b.filter(with_count(c)) =~= a.filter(with_count(c)).push(x));
        assert(a.filter(with_count(c)) + b.filter(with_count(c)) =~= a.filter(with_count(c)));
    } else {
        assert(a.push(x).filter(with_count(c)) == a.filter(with_count(c)));
    }
}

/// The values offered for a node type: unnamed and songless values dropped, then ordered from
/// the most songs to the fewest; values with equally many songs keep the order they came in.
pub fn collect_node_values(rows: Vec<NodeValue>) -> (r: Vec<NodeValue>)
    ensures
        by_count_desc(r@),
        forall|c: i64| #[trigger] r@.filter(with_count(c)) == rows@.filter(offered_pred()).filter(with_count(c)),
{
    let ghost kept_spec = rows@.filter(offered_pred());
    let ghost all = rows@;
    let n = rows.len();
    let mut r: Vec<NodeValue> = Vec::new();
    let mut k: usize = 0;
    for x in it: rows.into_iter()
        invariant
            it.seq() == all,
            n == all.len(),
            k == it.index(),
            by_count_desc(r@),
            forall|c: i64| #[trigger] r@.filter(with_count(c)) == all.take(k as int).filter(offered_pred()).filter(with_count(c)),
    {
        let ghost pre = all.take(k as int);
        let ghost next = all.take(k + 1);
        assert(next.drop_last() == pre);
        assert(next.last() == x);
        assert(next =~= pre.push(x));
        proof {
            pre.lemma_filter_push(x, offered_pred());
        }
        assert(next.filter(offered_pred()) == if offered(x) {
            pre.filter(offered_pred()).push(x)
        } else {
            pre.filter(offered_pred())
        });
        if !x.value.as_str().is_empty() && x.song_count > 0 {
            let mut pos: usize = 0;
            while pos < r.len() && r[pos].song_count >= x.song_count
                invariant
                    pos <= r.len(),
                    forall|q: int| 0 <= q < pos ==> (#[trigger] r@[q]).song_count >= x.song_count,
                decreases r.len() - pos,
            {
                pos = pos + 1;
            }
            let ghost old_r = r@;
            proof {
                assert forall|q: int| pos <= q < old_r.len() implies (#[trigger] old_r[q]).song_count < x.song_count by {
                    if q > pos {
                        assert(old_r[pos as int].song_count < x.song_count);
                        assert(old_r[pos as int].song_count >= old_r[q].song_count);
                    }
                }
                assert forall|c: i64| #[trigger] old_r.insert(pos as int, x).filter(with_count(c)) == (if x.song_count == c {
                    old_r.filter(with_count(c)).push(x)
                } else {
                    old_r.filter(with_count(c))
                }) by {
                    lemma_insert_keeps_groups(old_r, pos as int, x, c);
                }
            }
            r.insert(pos, x);
            assert forall|c: i64| #[trigger] r@.filter(with_count(c)) == next.filter(offered_pred()).filter(with_count(c)) by {
                pre.filter(offered_pred()).lemma_filter_push(x, with_count(c));
            }
        }
        k = k + 1;
    }
    assert(all.take(n as int) == all);
    r
}

} // verus!

verus! {

use crate::shuffle::{playlist_web_url, playlist_web_url_spec};

/// The non-empty strings of `s`, in order.
pub open spec fn non_empty(s: Seq<String>) -> Seq<String>
    decreases s.len(),
{
    if s.len() == 0 {
        Seq::empty()
    } else if s.last()@.len() > 0 {
        non_empty(s.drop_last()).push(s.last())
    } else {
        non_empty(s.drop_last())
    }
}

/// The song URIs the query answered, without the empty ones (rows that had none).
pub fn song_uris_from_rows(rows: Vec<String>) -> (r: Vec<String>)
    ensures
        r@ == non_empty(rows@),
{
    let ghost all = rows@;
    let n = rows.len();
    let mut r: Vec<String> = Vec::new();
    let mut k: usize = 0;
    for u in it: rows.into_iter()
        invariant
            it.seq() == all,
            n == all.len(),
            k == it.index(),
            r@ == non_empty(all.take(k as int)),
    {
        assert(all.take(k + 1).drop_last() == all.take(k as int));
        if !u.as_str().is_empty() {
            r.push(u);
        }
        k = k + 1;
    }
    assert(all.take(n as int) == all);
    r
}

/// The message when no song matches the filters.
pub fn no_songs_message() -> (m: String)
    ensures
        m@ == "No songs found matching the specified filters"@,
{
    String::from_str("No songs found matching the specified filters")
}

/// The description of a generated playlist: the one asked for, else one listing the filters.
pub fn generated_description(asked: Option<String>, descriptions: &Vec<String>) -> (r: String)
    ensures
        r@ == (match asked {
            Some(d) => d@,
            None => "Generated by Betterd Spotify with filters: "@ + join_spec(views(descriptions@), ", "@),
        }),
{
    match asked {
        Some(d) => d,
        None => {
            let mut r = String::from_str("Generated by Betterd Spotify with filters: ");
            let j = join(descriptions, ", ");
            append(&mut r, j.as_str());
            r
        },
    }
}

/// What a generated playlist reports: its id, name, number of songs, filters and web page.
pub fn generated_result(playlist_id: String, name: String, song_count: usize, descriptions: Vec<String>) -> (r: GeneratedPlaylistResult)
    requires
        song_count <= i64::MAX,
    ensures
        r.spotify_playlist_id == playlist_id,
        r.name == name,
        r.song_count == song_count as i64,
        r.applied_filters == descriptions,
        r.external_url@ == playlist_web_url_spec(playlist_id@),
{
    let external_url = playlist_web_url(playlist_id.as_str());
    GeneratedPlaylistResult {
        spotify_playlist_id: playlist_id,
        name,
        song_count: song_count as i64,
        applied_filters: descriptions,
        external_url,
    }
}

} // verus!

verus! {

use crate::models::SpotifyPlaylistItem;
use crate::shuffle::{
    batches_of, batch_count, batch_views, is_batch, pause_after, pause_after_spec, playlist_tracks_url,
    playlist_tracks_url_spec, user_playlists_url, user_playlists_url_spec,
};

/// The next thing the generation of a playlist needs done outside the library.
pub enum GenerateAction {
    /// Run this query against the graph and hand back each row's `uri` (empty where a row has
    /// none).
    RunQuery { cypher: String, params: Vec<(String, QueryParam)> },
    /// Look up the current user's Spotify id.
    GetUserId,
    /// Create a private playlist with this name and description at `url`.
    CreatePlaylist { url: String, name: String, description: String },
    /// Add these URIs at `url`; pause briefly afterwards when `pause_after`.
    AddTracks { url: String, uris: Vec<String>, pause_after: bool },
    Finished(GeneratedPlaylistResult),
    Failed(String),
}

/// The state of one playlist generation.
pub struct GenerateJob {
    pub name: String,
    pub asked_description: Option<String>,
    /// One description per filter.
    pub descriptions: Vec<String>,
    /// The found URIs in batches of 100, in the order they are sent.
    pub batches: Vec<Vec<String>>,
    /// How many batches have been handed out.
    pub sent: usize,
    /// How many URIs were found.
    pub total: usize,
    pub playlist_id: String,
}

/// Whether a job's number of songs fits the reported count.
pub open spec fn generate_wf(job: GenerateJob) -> bool {
    job.total <= i64::MAX
}

/// The action after `sent` batches of `job` went out: the next batch, or, once every batch is
/// out, the result.
pub open spec fn generate_after_batches(job: GenerateJob, a: GenerateAction, next: GenerateJob) -> bool {
    &&& next.batches == job.batches
    &&& next.name == job.name
    &&& next.asked_description == job.asked_description
    &&& next.descriptions == job.descriptions
    &&& next.total == job.total
    &&& next.playlist_id == job.playlist_id
    &&& if job.sent < job.batches.len() {
        &&& next.sent == job.sent + 1
        &&& a matches GenerateAction::AddTracks { url, uris, pause_after } && url@ == playlist_tracks_url_spec(
            job.playlist_id@,
        ) && uris@ == job.batches@[job.sent as int]@ && pause_after == pause_after_spec(
            job.total as nat,
            uris@.len(),
        )
    } else {
        &&& next.sent == job.sent
        &&& a matches GenerateAction::Finished(r) && r.spotify_playlist_id == job.playlist_id && r.name
            == job.name && r.song_count == job.total as i64 && r.applied_filters@ == job.descriptions@
            && r.external_url@ == playlist_web_url_spec(job.playlist_id@)
    }
}

fn copy_strings(v: &Vec<String>) -> (r: Vec<String>)
    ensures
        r@ == v@,
{
    let mut r: Vec<String> = Vec::new();
    let mut i: usize = 0;
    while i < v.len()
        invariant
            i <= v.len(),
            r@ == v@.take(i as int),
        decreases v.len() - i,
    {
        r.push(v[i].clone());
        assert(r@ =~= v@.take(i + 1));
        i = i + 1;
    }
    assert(v@.take(v.len() as int) == v@);
    r
}

fn copy_opt(o: &Option<String>) -> (r: Option<String>)
    ensures
        r == *o,
{
    match o {
        Some(s) => Some(s.clone()),
        None => None,
    }
}

impl GenerateJob {
    /// Starts generating a playlist: its query is to be run, or the request is refused.
    pub fn new(user_id: &String, request: PlaylistGenerationRequest) -> (r: (GenerateJob, GenerateAction))
        ensures
            r.0.name == request.name,
            r.0.asked_description == request.description,
            r.0.sent == 0,
            r.0.batches@.len() == 0,
            r.0.total == 0,
            request.filters@.len() == 0 ==> (r.1 matches GenerateAction::Failed(m) && m@
                == "At least one filter is required"@),
            request.filters@.len() > 0 ==> match clauses_spec(request.filters@) {
                Err(t) => r.1 matches GenerateAction::Failed(m) && m@ == "Unsupported node type: "@ + t,
                Ok((ms, ws, ds)) => r.1 matches GenerateAction::RunQuery { cypher, params } && cypher@
                    == cypher_spec(ms, ws, request.shuffle) && param_views(params@) == seq![
                    ("user_id"@, QueryParamView::Text(user_id@)),
                    ("max_songs"@, QueryParamView::Int(request.max_songs as i64)),
                ] + filter_params_spec(request.filters@) && views(r.0.descriptions@) == ds,
            },
    {
        let q = build_playlist_query(user_id, &request);
        let (descriptions, a) = match q {
            Ok(PlaylistQuery { cypher, params, descriptions }) => (
                descriptions,
                GenerateAction::RunQuery { cypher, params },
            ),
            Err(e) => (Vec::new(), GenerateAction::Failed(e.message())),
        };
        (
            GenerateJob {
                name: request.name,
                asked_description: request.description,
                descriptions,
                batches: Vec::new(),
                sent: 0,
                total: 0,
                playlist_id: String::new(),
            },
            a,
        )
    }

    /// The query answered: the songs found are cut into batches of 100 and the user's id is
    /// needed next; no song at all, or a failed query, ends the generation.
    pub fn on_rows(&mut self, r: Result<Vec<String>, String>) -> (a: GenerateAction)
        requires
            r matches Ok(rows) ==> rows@.len() <= i64::MAX,
        ensures
            final(self).name == old(self).name,
            final(self).asked_description == old(self).asked_description,
            final(self).descriptions == old(self).descriptions,
            final(self).playlist_id == old(self).playlist_id,
            match r {
                Err(e) => a matches GenerateAction::Failed(m) && m@ == "Failed to execute playlist query: "@ + e@,
                Ok(rows) => if non_empty(rows@).len() == 0 {
                    a matches GenerateAction::Failed(m) && m@ == "No songs found matching the specified filters"@
                } else {
                    &&& a is GetUserId
                    &&& final(self).sent == 0
                    &&& final(self).total == non_empty(rows@).len()
                    &&& generate_wf(*final(self))
                    &&& batch_views(final(self).batches@).flatten() == non_empty(rows@)
                    &&& final(self).batches@.len() == batch_count(non_empty(rows@).len())
                    &&& forall|k: int|
                        0 <= k < final(self).batches@.len() ==> is_batch(
                            non_empty(rows@),
                            k,
                            (#[trigger] final(self).batches@[k])@,
                        )
                },
            },
    {
        match r {
            Err(e) => {
                let mut m = String::from_str("Failed to execute playlist query: ");
                append(&mut m, e.as_str());
                GenerateAction::Failed(m)
            },
            Ok(rows) => {
                let ghost n = rows@.len();
                proof {
                    lemma_non_empty_len(rows@);
                }
                let uris = song_uris_from_rows(rows);
                if uris.len() == 0 {
                    return GenerateAction::Failed(no_songs_message());
                }
                self.batches = batches_of(&uris);
                self.total = uris.len();
                self.sent = 0;
                GenerateAction::GetUserId
            },
        }
    }

    /// The user's id arrived: the playlist is created, with the description asked for or one
    /// listing the filters.
    pub fn on_user_id(&self, r: Result<String, String>) -> (a: GenerateAction)
        ensures
            match r {
                Err(e) => a matches GenerateAction::Failed(m) && m == e,
                Ok(id) => a matches GenerateAction::CreatePlaylist { url, name, description } && url@
                    == user_playlists_url_spec(id@) && name == self.name && description@ == (match self.asked_description {
                    Some(d) => d@,
                    None => "Generated by Betterd Spotify with filters: "@ + join_spec(views(self.descriptions@), ", "@),
                }),
            },
    {
        match r {
            Err(e) => GenerateAction::Failed(e),
            Ok(id) => GenerateAction::CreatePlaylist {
                url: user_playlists_url(id.as_str()),
                name: self.name.clone(),
                description: generated_description(copy_opt(&self.asked_description), &self.descriptions),
            },
        }
    }

    fn next_batch(&mut self) -> (a: GenerateAction)
        requires
            generate_wf(*old(self)),
        ensures
            generate_after_batches(*old(self), a, *final(self)),
    {
        if self.sent < self.batches.len() {
            let uris = self.batches[self.sent].clone();
            assert(uris@ == self.batches@[self.sent as int]@);
            self.sent = self.sent + 1;
            let pause_after = pause_after(self.total, uris.len());
            GenerateAction::AddTracks { url: playlist_tracks_url(self.playlist_id.as_str()), uris, pause_after }
        } else {
            GenerateAction::Finished(
                generated_result(
                    self.playlist_id.clone(),
                    self.name.clone(),
                    self.total,
                    copy_strings(&self.descriptions),
                ),
            )
        }
    }

    /// The playlist was created: its first batch of URIs goes out next.
    pub fn on_created(&mut self, r: Result<SpotifyPlaylistItem, String>) -> (a: GenerateAction)
        requires
            generate_wf(*old(self)),
        ensures
            match r {
                Err(e) => a matches GenerateAction::Failed(m) && m == e,
                Ok(p) => generate_after_batches(GenerateJob { playlist_id: p.id, sent: 0, ..*old(self) }, a, *final(self)),
            },
    {
        match r {
            Err(e) => GenerateAction::Failed(e),
            Ok(p) => {
                self.playlist_id = p.id;
                self.sent = 0;
                self.next_batch()
            },
        }
    }

    /// A batch was added: the next goes out, or, after the last, the result is reported.
    pub fn on_tracks_added(&mut self, r: Result<(), String>) -> (a: GenerateAction)
        requires
            generate_wf(*old(self)),
        ensures
            match r {
                Err(e) => a matches GenerateAction::Failed(m) && m == e,
                Ok(_) => generate_after_batches(*old(self), a, *final(self)),
            },
    {
        match r {
            Err(e) => GenerateAction::Failed(e),
            Ok(_) => self.next_batch(),
        }
    }
}

proof fn lemma_non_empty_len(s: Seq<String>)
    ensures
        non_empty(s).len() <= s.len(),
    decreases s.len(),
{
    if s.len() > 0 {
        lemma_non_empty_len(s.drop_last());
    }
}

} // verus!
