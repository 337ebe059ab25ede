//! Song analysis by a language model: the JSON text cut out of its reply, the features read
//! from each analysis, and the graph writes that record them.
use vstd::prelude::*;
use vstd::string::StringExecFns;
use crate::models::{LLMSongFeatures, MetadataConfidence, GenreFeature, CulturalFeature, UserTag, SpotifyTrackItem};
use crate::text::{chars_of, trim, trim_bounds, range_starts_with, starts_with, string_from_range};

verus! {

/// Whether `s` ends with `p`.
pub open spec fn ends_with(s: Seq<char>, p: Seq<char>) -> bool {
    p.len() <= s.len() && s.subrange(s.len() - p.len(), s.len() as int) == p
}

pub open spec fn fence() -> Seq<char> {
    seq!['`', '`', '`']
}

pub open spec fn json_fence() -> Seq<char> {
    seq!['`', '`', '`', 'j', 's', 'o', 'n']
}

/// What lies between an opening `open` and a closing fence of `t`, when `t` ends with one.
pub open spec fn fenced_inner(t: Seq<char>, open: Seq<char>) -> Option<Seq<char>> {
    let rest = t.subrange(open.len() as int, t.len() as int);
    if ends_with(rest, fence()) {
        Some(rest.subrange(0, rest.len() - 3))
    } else {
        None
    }
}

/// The JSON text of a model reply: the reply trimmed, or, when it is wrapped in a code fence
/// (opened by three backquotes, optionally followed by `json`), the trimmed text inside. A fence
/// that is opened but not closed leaves the whole reply, trimmed.
pub open spec fn json_content_spec(c: Seq<char>) -> Seq<char> {
    let t = trim(c);
    if starts_with(t, json_fence()) {
        match fenced_inner(t, json_fence()) {
            Some(i) => trim(i),
            None => trim(c),
        }
    } else if starts_with(t, fence()) {
        match fenced_inner(t, fence()) {
            Some(i) => trim(i),
            None => trim(c),
        }
    } else {
        t
    }
}

fn fence_chars(with_json: bool) -> (v: Vec<char>)
    ensures
        with_json ==> v@ == json_fence(),
        !with_json ==> v@ == fence(),
{
    let mut v: Vec<char> = Vec::new();
    v.push('`');
    v.push('`');
    v.push('`');
    if with_json {
        v.push('j');
        v.push('s');
        v.push('o');
        v.push('n');
    }
    v
}

fn inner_bounds(cs: &Vec<char>, a: usize, b: usize, open: &Vec<char>) -> (r: Option<(usize, usize)>)
    requires
        a <= b <= cs.len(),
        starts_with(cs@.subrange(a as int, b as int), open@),
    ensures
        match fenced_inner(cs@.subrange(a as int, b as int), open@) {
            Some(i) => r matches Some(p) && p.0 <= p.1 <= cs.len() && cs@.subrange(p.0 as int, p.1 as int) == i,
            None => r is None,
        },
{
    let lo = a + open.len();
    let ghost t = cs@.subrange(a as int, b as int);
    let ghost rest = t.subrange(open.len() as int, t.len() as int);
    assert(rest == cs@.subrange(lo as int, b as int));
    if b - lo < 3 {
        return None;
    }
    let f = fence_chars(false);
    if range_starts_with(cs, b - 3, b, &f) {
        assert(cs@.subrange(b - 3, b as int).subrange(0, 3) == cs@.subrange(b - 3, b as int));
        assert(rest.subrange(rest.len() - 3, rest.len() as int) == cs@.subrange(b - 3, b as int));
        assert(rest.subrange(0, rest.len() - 3) == cs@.subrange(lo as int, b - 3));
        Some((lo, b - 3))
    } else {
        assert(cs@.subrange(b - 3, b as int).subrange(0, 3) == cs@.subrange(b - 3, b as int));
        assert(rest.subrange(rest.len() - 3, rest.len() as int) == cs@.subrange(b - 3, b as int));
        None
    }
}

/// Cuts the JSON text out of a model reply.
pub fn extract_json_content(content: &str) -> (r: String)
    ensures
        r@ == json_content_spec(content@),
{
    let cs = chars_of(content);
    let n = cs.len();
    let (a, b) = trim_bounds(&cs, 0, n);
    assert(cs@.subrange(0, n as int) == cs@);
    let jf = fence_chars(true);
    let f = fence_chars(false);
    let open = if range_starts_with(&cs, a, b, &jf) {
        Some(jf)
    } else if range_starts_with(&cs, a, b, &f) {
        Some(f)
    } else {
        None
    };
    match open {
        None => string_from_range(&cs, a, b),
        Some(o) => match inner_bounds(&cs, a, b, &o) {
            Some((lo, hi)) => {
                let (x, y) = trim_bounds(&cs, lo, hi);
                string_from_range(&cs, x, y)
            },
            None => string_from_range(&cs, a, b),
        },
    }
}

} // verus!

verus! {

/// A tag of an analysis: its name and its confidence's `f64` bit pattern, each where the reply
/// gave one of the right kind.
#[derive(Debug, Clone, PartialEq)]
pub struct RawTag {
    pub tag: Option<String>,
    pub confidence_bits: Option<u64>,
}

/// The fields of one song's analysis, as the model's JSON gave them; a field is absent when the
/// reply lacks it or gives it with another kind of value. A tag list is absent unless it is an
/// array; an instrument entry is absent unless it is a string.
#[derive(Debug, Clone, PartialEq)]
pub struct RawSongAnalysis {
    pub confidence_level: Option<String>,
    pub confidence_explanation: Option<String>,
    pub primary_genre: Option<String>,
    pub genre_tags: Option<Vec<RawTag>>,
    pub cultural_origin_tags: Option<Vec<RawTag>>,
    pub primary_language: Option<String>,
    pub instruments: Option<Vec<Option<String>>>,
    pub energy_level: Option<String>,
    pub valence: Option<String>,
    pub production_style: Option<String>,
    pub vocal_presence: Option<String>,
    pub user_facing_tags: Option<Vec<RawTag>>,
    pub rhythmic_feel: Option<String>,
    pub density: Option<String>,
}

/// The tags that have both a name and a confidence, as `(name, confidence bits)`.
pub open spec fn complete_tags(tags: Seq<RawTag>) -> Seq<(Seq<char>, u64)>
    decreases tags.len(),
{
    if tags.len() == 0 {
        Seq::empty()
    } else {
        let r = complete_tags(tags.drop_last());
        match (tags.last().tag, tags.last().confidence_bits) {
            (Some(n), Some(c)) => r.push((n@, c)),
            _ => r,
        }
    }
}

pub open spec fn opt_tags(tags: Option<Vec<RawTag>>) -> Seq<(Seq<char>, u64)> {
    match tags {
        Some(v) => complete_tags(v@),
        None => Seq::empty(),
    }
}

/// The instrument names that are strings.
pub open spec fn present_names(s: Seq<Option<String>>) -> Seq<Seq<char>>
    decreases s.len(),
{
    if s.len() == 0 {
        Seq::empty()
    } else {
        let r = present_names(s.drop_last());
        match s.last() {
            Some(n) => r.push(n@),
            None => r,
        }
    }
}

pub open spec fn or_default(o: Option<String>, d: Seq<char>) -> Seq<char> {
    match o {
        Some(s) => s@,
        None => d,
    }
}

pub open spec fn opt_seq(o: Option<String>) -> Option<Seq<char>> {
    match o {
        Some(s) => Some(s@),
        None => None,
    }
}

pub open spec fn genre_views(g: Seq<GenreFeature>) -> Seq<(Seq<char>, u64, bool)> {
    g.map_values(|x: GenreFeature| (x.name@, x.confidence_bits, x.is_primary))
}

pub open spec fn culture_views(g: Seq<CulturalFeature>) -> Seq<(Seq<char>, u64)> {
    g.map_values(|x: CulturalFeature| (x.name@, x.confidence_bits))
}

pub open spec fn tag_views(g: Seq<UserTag>) -> Seq<(Seq<char>, u64)> {
    g.map_values(|x: UserTag| (x.tag@, x.confidence_bits))
}

pub open spec fn string_views(g: Seq<String>) -> Seq<Seq<char>> {
    g.map_values(|x: String| x@)
}

/// Whether `f` holds what `raw` says of the song `track`: confidence level and explanation
/// default to `Medium` and `No explanation provided`, density to `Medium`; genres, cultures
/// and tags are those with a name and a confidence, a genre being primary when its name is the
/// primary genre; instruments are the string entries.
pub open spec fn features_match(f: LLMSongFeatures, raw: RawSongAnalysis, track: SpotifyTrackItem) -> bool {
    &&& f.song_id == track.id
    &&& f.metadata_confidence.level@ == or_default(raw.confidence_level, "Medium"@)
    &&& f.metadata_confidence.explanation@ == or_default(
        raw.confidence_explanation,
        "No explanation provided"@,
    )
    &&& genre_views(f.genres@) == opt_tags(raw.genre_tags).map_values(
        |t: (Seq<char>, u64)| (t.0, t.1, Some(t.0) == opt_seq(raw.primary_genre)),
    )
    &&& culture_views(f.cultural_origins@) == opt_tags(raw.cultural_origin_tags)
    &&& tag_views(f.user_facing_tags@) == opt_tags(raw.user_facing_tags)
    &&& string_views(f.instruments@) == (match raw.instruments {
        Some(v) => present_names(v@),
        None => Seq::empty(),
    })
    &&& f.primary_language == raw.primary_language
    &&& f.energy_level == raw.energy_level
    &&& f.valence == raw.valence
    &&& f.production_style == raw.production_style
    &&& f.vocal_presence == raw.vocal_presence
    &&& f.rhythmic_feel == raw.rhythmic_feel
    &&& f.density@ == or_default(raw.density, "Medium"@)
}

/// Whether `raw` holds, in its list `tags`, a tag named `name` with confidence `bits`.
pub open spec fn raw_tag_present(tags: Option<Vec<RawTag>>, name: Seq<char>, bits: u64) -> bool {
    match tags {
        Some(v) => exists|j: int|
            0 <= j < v@.len() && opt_seq((#[trigger] v@[j]).tag) == Some(name) && v@[j].confidence_bits
                == Some(bits),
        None => false,
    }
}

/// Whether the analysis lists the instrument `name`.
pub open spec fn instrument_listed(instruments: Option<Vec<Option<String>>>, name: Seq<char>) -> bool {
    match instruments {
        Some(v) => exists|j: int| 0 <= j < v@.len() && opt_seq(#[trigger] v@[j]) == Some(name),
        None => false,
    }
}

proof fn lemma_complete_tags_from_raw(tags: Seq<RawTag>, k: int)
    requires
        0 <= k < complete_tags(tags).len(),
    ensures
        exists|j: int|
            0 <= j < tags.len() && opt_seq((#[trigger] tags[j]).tag) == Some(complete_tags(tags)[k].0)
                && tags[j].confidence_bits == Some(complete_tags(tags)[k].1),
    decreases tags.len(),
{
    let r = complete_tags(tags.drop_last());
    if k < r.len() {
        lemma_complete_tags_from_raw(tags.drop_last(), k);
        let j = choose|j: int|
            0 <= j < tags.drop_last().len() && opt_seq((#[trigger] tags.drop_last()[j]).tag) == Some(r[k].0)
                && tags.drop_last()[j].confidence_bits == Some(r[k].1);
        assert(tags[j] == tags.drop_last()[j]);
    } else {
        assert(tags[tags.len() - 1] == tags.last());
    }
}

proof fn lemma_present_names_from_raw(s: Seq<Option<String>>, k: int)
    requires
        0 <= k < present_names(s).len(),
    ensures
        exists|j: int| 0 <= j < s.len() && opt_seq(#[trigger] s[j]) == Some(present_names(s)[k]),
    decreases s.len(),
{
    let r = present_names(s.drop_last());
    if k < r.len() {
        lemma_present_names_from_raw(s.drop_last(), k);
        let j = choose|j: int| 0 <= j < s.drop_last().len() && opt_seq(#[trigger] s.drop_last()[j]) == Some(r[k]);
        assert(s[j] == s.drop_last()[j]);
    } else {
        assert(s[s.len() - 1] == s.last());
    }
}

/// What the features read from an analysis hold, field by field: the song is the track's;
/// language, energy, valence, production, vocals and rhythm are the analysis's own, unchanged;
/// confidence level, explanation and density are the analysis's or else `Medium`, `No
/// explanation provided` and `Medium`; every genre, culture and tag is one the analysis named
/// with a confidence, and a genre is primary exactly when it is the analysis's primary genre;
/// every instrument is one the analysis listed.
pub proof fn law_features_carry_the_analysis(f: LLMSongFeatures, raw: RawSongAnalysis, track: SpotifyTrackItem)
    requires
        features_match(f, raw, track),
    ensures
        f.song_id == track.id,
        f.primary_language == raw.primary_language,
        f.energy_level == raw.energy_level,
        f.valence == raw.valence,
        f.production_style == raw.production_style,
        f.vocal_presence == raw.vocal_presence,
        f.rhythmic_feel == raw.rhythmic_feel,
        raw.confidence_level matches Some(l) ==> f.metadata_confidence.level@ == l@,
        raw.confidence_level is None ==> f.metadata_confidence.level@ == "Medium"@,
        raw.confidence_explanation matches Some(e) ==> f.metadata_confidence.explanation@ == e@,
        raw.confidence_explanation is None ==> f.metadata_confidence.explanation@ == "No explanation provided"@,
        raw.density matches Some(d) ==> f.density@ == d@,
        raw.density is None ==> f.density@ == "Medium"@,
        forall|i: int|
            0 <= i < f.genres@.len() ==> raw_tag_present(raw.genre_tags, (#[trigger] f.genres@[i]).name@, f.genres@[i].confidence_bits)
                && f.genres@[i].is_primary == (opt_seq(raw.primary_genre) == Some(f.genres@[i].name@)),
        forall|i: int|
            0 <= i < f.cultural_origins@.len() ==> raw_tag_present(
                raw.cultural_origin_tags,
                (#[trigger] f.cultural_origins@[i]).name@,
                f.cultural_origins@[i].confidence_bits,
            ),
        forall|i: int|
            0 <= i < f.user_facing_tags@.len() ==> raw_tag_present(
                raw.user_facing_tags,
                (#[trigger] f.user_facing_tags@[i]).tag@,
                f.user_facing_tags@[i].confidence_bits,
            ),
        forall|i: int|
            0 <= i < f.instruments@.len() ==> instrument_listed(raw.instruments, (#[trigger] f.instruments@[i])@),
{
    assert forall|i: int| 0 <= i < f.genres@.len() implies raw_tag_present(raw.genre_tags, (#[trigger] f.genres@[i]).name@, f.genres@[i].confidence_bits)
        && f.genres@[i].is_primary == (opt_seq(raw.primary_genre) == Some(f.genres@[i].name@)) by {
        let g = opt_tags(raw.genre_tags);
        assert(genre_views(f.genres@)[i] == (f.genres@[i].name@, f.genres@[i].confidence_bits, f.genres@[i].is_primary));
        assert(genre_views(f.genres@).len() == f.genres@.len());
        assert(g.len() == f.genres@.len());
        assert(genre_views(f.genres@)[i] == (g[i].0, g[i].1, Some(g[i].0) == opt_seq(raw.primary_genre)));
        match raw.genre_tags {
            Some(v) => lemma_complete_tags_from_raw(v@, i),
            None => {},
        }
    }
    assert forall|i: int| 0 <= i < f.cultural_origins@.len() implies raw_tag_present(
        raw.cultural_origin_tags,
        (#[trigger] f.cultural_origins@[i]).name@,
        f.cultural_origins@[i].confidence_bits,
    ) by {
        assert(culture_views(f.cultural_origins@)[i] == (f.cultural_origins@[i].name@, f.cultural_origins@[i].confidence_bits));
        assert(culture_views(f.cultural_origins@).len() == f.cultural_origins@.len());
        match raw.cultural_origin_tags {
            Some(v) => lemma_complete_tags_from_raw(v@, i),
            None => {},
        }
    }
    assert forall|i: int| 0 <= i < f.user_facing_tags@.len() implies raw_tag_present(
        raw.user_facing_tags,
        (#[trigger] f.user_facing_tags@[i]).tag@,
        f.user_facing_tags@[i].confidence_bits,
    ) by {
        assert(tag_views(f.user_facing_tags@)[i] == (f.user_facing_tags@[i].tag@, f.user_facing_tags@[i].confidence_bits));
        assert(tag_views(f.user_facing_tags@).len() == f.user_facing_tags@.len());
        match raw.user_facing_tags {
            Some(v) => lemma_complete_tags_from_raw(v@, i),
            None => {},
        }
    }
    assert forall|i: int| 0 <= i < f.instruments@.len() implies instrument_listed(
        raw.instruments,
        (#[trigger] f.instruments@[i])@,
    ) by {
        assert(string_views(f.instruments@)[i] == f.instruments@[i]@);
        assert(string_views(f.instruments@).len() == f.instruments@.len());
        match raw.instruments {
            Some(v) => {
                assert(string_views(f.instruments@) == present_names(v@));
                assert(present_names(v@)[i] == f.instruments@[i]@);
                lemma_present_names_from_raw(v@, i);
                let j = choose|j: int| 0 <= j < v@.len() && opt_seq(#[trigger] v@[j]) == Some(present_names(v@)[i]);
                assert(0 <= j < v@.len() && opt_seq(v@[j]) == Some(f.instruments@[i]@));
            },
            None => {},
        }
    }
}

fn string_or(o: Option<String>, d: &str) -> (r: String)
    ensures
        r@ == or_default(o, d@),
{
    match o {
        Some(s) => s,
        None => String::from_str(d),
    }
}

fn complete_tag_list(tags: Option<Vec<RawTag>>) -> (r: Vec<(String, u64)>)
    ensures
        r@.map_values(|p: (String, u64)| (p.0@, p.1)) == opt_tags(tags),
{
    let mut r: Vec<(String, u64)> = Vec::new();
    match tags {
        None => {
            assert(r@.map_values(|p: (String, u64)| (p.0@, p.1)) =~= Seq::<(Seq<char>, u64)>::empty());
            r
        },
        Some(v) => {
            let ghost all = v@;
            let n = v.len();
            let mut k: usize = 0;
            assert(r@.map_values(|p: (String, u64)| (p.0@, p.1)) =~= complete_tags(all.take(0)));
            for t in it: v.into_iter()
                invariant
                    it.seq() == all,
                    n == all.len(),
                    k == it.index(),
                    r@.map_values(|p: (String, u64)| (p.0@, p.1)) == complete_tags(all.take(k as int)),
            {
                assert(all.take(k + 1).drop_last() == all.take(k as int));
                assert(all.take(k + 1).last() == t);
                let ghost old_r = r@;
                match (t.tag, t.confidence_bits) {
                    (Some(name), Some(c)) => {
                        r.push((name, c));
                        assert(r@.map_values(|p: (String, u64)| (p.0@, p.1)) =~= old_r.map_values(
                            |p: (String, u64)| (p.0@, p.1),
                        ).push((r@.last().0@, c)));
                    },
                    _ => {},
                }
                k = k + 1;
            }
            assert(all.take(n as int) == all);
            r
        },
    }
}

fn instrument_names(s: Option<Vec<Option<String>>>) -> (r: Vec<String>)
    ensures
        string_views(r@) == (match s {
            Some(v) => present_names(v@),
            None => Seq::empty(),
        }),
{
    let mut r: Vec<String> = Vec::new();
    match s {
        None => {
            assert(string_views(r@) =~= Seq::<Seq<char>>::empty());
            r
        },
        Some(v) => {
            let ghost all = v@;
            let n = v.len();
            let mut k: usize = 0;
            assert(string_views(r@) =~= present_names(all.take(0)));
            for x in it: v.into_iter()
                invariant
                    it.seq() == all,
                    n == all.len(),
                    k == it.index(),
                    string_views(r@) == present_names(all.take(k as int)),
            {
                assert(all.take(k + 1).drop_last() == all.take(k as int));
                assert(all.take(k + 1).last() == x);
                let ghost old_r = r@;
                match x {
                    Some(name) => {
                        r.push(name);
                        assert(string_views(r@) =~= string_views(old_r).push(r@.last()@));
                    },
                    None => {},
                }
                k = k + 1;
            }
            assert(all.take(n as int) == all);
            r
        },
    }
}

fn same_opt(a: &Option<String>, b: &String) -> (r: bool)
    ensures
        r == (Some(b@) == opt_seq(*a)),
{
    match a {
        Some(x) => *x == *b,
        None => false,
    }
}

/// Reads the features of the song `track` from one analysis.
pub fn features_from_analysis(raw: RawSongAnalysis, track: &SpotifyTrackItem) -> (f: LLMSongFeatures)
    ensures
        features_match(f, raw, *track),
{
    let ghost r0 = raw;
    let gl = complete_tag_list(raw.genre_tags);
    let mut genres: Vec<GenreFeature> = Vec::new();
    let mut i: usize = 0;
    while i < gl.len()
        invariant
            i <= gl.len(),
            genres.len() == i,
            raw.primary_genre == r0.primary_genre,
            forall|k: int|
                0 <= k < i ==> (#[trigger] genres@[k]).name@ == gl@[k].0@ && genres@[k].confidence_bits
                    == gl@[k].1 && genres@[k].is_primary == (Some(gl@[k].0@) == opt_seq(r0.primary_genre)),
        decreases gl.len() - i,
    {
        let is_primary = same_opt(&raw.primary_genre, &gl[i].0);
        genres.push(GenreFeature { name: gl[i].0.clone(), confidence_bits: gl[i].1, is_primary });
        i = i + 1;
    }
    assert(genre_views(genres@) =~= opt_tags(r0.genre_tags).map_values(
        |t: (Seq<char>, u64)| (t.0, t.1, Some(t.0) == opt_seq(r0.primary_genre)),
    ));
    let cl = complete_tag_list(raw.cultural_origin_tags);
    let mut cultural_origins: Vec<CulturalFeature> = Vec::new();
    let mut i: usize = 0;
    while i < cl.len()
        invariant
            i <= cl.len(),
            cultural_origins.len() == i,
            forall|k: int|
                0 <= k < i ==> (#[trigger] cultural_origins@[k]).name@ == cl@[k].0@
                    && cultural_origins@[k].confidence_bits == cl@[k].1,
        decreases cl.len() - i,
    {
        cultural_origins.push(CulturalFeature { name: cl[i].0.clone(), confidence_bits: cl[i].1 });
        i = i + 1;
    }
    assert(culture_views(cultural_origins@) =~= opt_tags(r0.cultural_origin_tags));
    let tl = complete_tag_list(raw.user_facing_tags);
    let mut user_facing_tags: Vec<UserTag> = Vec::new();
    let mut i: usize = 0;
    while i < tl.len()
        invariant
            i <= tl.len(),
            user_facing_tags.len() == i,
            forall|k: int|
                0 <= k < i ==> (#[trigger] user_facing_tags@[k]).tag@ == tl@[k].0@
                    && user_facing_tags@[k].confidence_bits == tl@[k].1,
        decreases tl.len() - i,
    {
        user_facing_tags.push(UserTag { tag: tl[i].0.clone(), confidence_bits: tl[i].1 });
        i = i + 1;
    }
    assert(tag_views(user_facing_tags@) =~= opt_tags(r0.user_facing_tags));
    LLMSongFeatures {
        song_id: track.id.clone(),
        metadata_confidence: MetadataConfidence {
            level: string_or(raw.confidence_level, "Medium"),
            explanation: string_or(raw.confidence_explanation, "No explanation provided"),
        },
        genres,
        cultural_origins,
        primary_language: raw.primary_language,
        instruments: instrument_names(raw.instruments),
        energy_level: raw.energy_level,
        valence: raw.valence,
        production_style: raw.production_style,
        vocal_presence: raw.vocal_presence,
        user_facing_tags,
        rhythmic_feel: raw.rhythmic_feel,
        density: string_or(raw.density, "Medium"),
    }
}

/// The features recorded for a song whose analysis could not be read: very low confidence, one
/// primary genre `Unknown` with confidence 0.0, medium density, nothing else.
pub fn create_fallback_features(track: &SpotifyTrackItem) -> (f: LLMSongFeatures)
    ensures
        f.song_id == track.id,
        f.metadata_confidence.level@ == "Very Low"@,
        f.metadata_confidence.explanation@ == "LLM parsing failed, using fallback data"@,
        f.genres@.len() == 1,
        f.genres@[0].name@ == "Unknown"@,
        f.genres@[0].confidence_bits == 0,
        f.genres@[0].is_primary,
        f.cultural_origins@.len() == 0,
        f.primary_language is None,
        f.instruments@.len() == 0,
        f.energy_level is None,
        f.valence is None,
        f.production_style is None,
        f.vocal_presence is None,
        f.user_facing_tags@.len() == 0,
        f.rhythmic_feel is None,
        f.density@ == "Medium"@,
{
    let mut genres: Vec<GenreFeature> = Vec::new();
    genres.push(GenreFeature { name: String::from_str("Unknown"), confidence_bits: 0, is_primary: true });
    LLMSongFeatures {
        song_id: track.id.clone(),
        metadata_confidence: MetadataConfidence {
            level: String::from_str("Very Low"),
            explanation: String::from_str("LLM parsing failed, using fallback data"),
        },
        genres,
        cultural_origins: Vec::new(),
        primary_language: None,
        instruments: Vec::new(),
        energy_level: None,
        valence: None,
        production_style: None,
        vocal_presence: None,
        user_facing_tags: Vec::new(),
        rhythmic_feel: None,
        density: String::from_str("Medium"),
    }
}

/// The features of each analysed track: the `i`-th analysis belongs to the `i`-th track, and
/// analyses beyond the last track are dropped.
pub fn features_for_tracks(analyses: Vec<RawSongAnalysis>, tracks: &Vec<SpotifyTrackItem>) -> (r: Vec<LLMSongFeatures>)
    ensures
        r@.len() == (if analyses@.len() < tracks@.len() { analyses@.len() } else { tracks@.len() }),
        forall|i: int| 0 <= i < r@.len() ==> features_match(#[trigger] r@[i], analyses@[i], tracks@[i]),
{
    let ghost all = analyses@;
    let n = analyses.len();
    let mut r: Vec<LLMSongFeatures> = Vec::new();
    let mut k: usize = 0;
    for a in it: analyses.into_iter()
        invariant
            it.seq() == all,
            n == all.len(),
            k == it.index(),
            r@.len() == (if k < tracks@.len() { k as int } else { tracks@.len() as int }),
            forall|i: int| 0 <= i < r@.len() ==> features_match(#[trigger] r@[i], all[i], tracks@[i]),
    {
        if k < tracks.len() {
            let f = features_from_analysis(a, &tracks[k]);
            r.push(f);
        }
        k = k + 1;
    }
    r
}

} // verus!
