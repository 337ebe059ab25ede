//! The reports shown after songs were analysed. Confidences are handed in already written out
//! (one text per genre, culture and tag), since they are floating-point numbers.
use vstd::prelude::*;
use vstd::string::StringExecFns;
use crate::models::{LLMSongFeatures, SpotifyTrackItem, GenreFeature, CulturalFeature, UserTag, primary_artist_spec};
use crate::text::{append, push_decimal, decimal, join, join_spec, views};

verus! {

/// How one confidence is written next to its name.
pub open spec fn with_conf(name: Seq<char>, conf: Seq<char>) -> Seq<char> {
    name + " ("@ + conf + ")"@
}

pub open spec fn genre_items(gs: Seq<GenreFeature>, cs: Seq<String>) -> Seq<Seq<char>> {
    Seq::new(gs.len(), |k: int| with_conf(gs[k].name@ + (if gs[k].is_primary { "*"@ } else { Seq::empty() }), cs[k]@))
}

pub open spec fn culture_items(gs: Seq<CulturalFeature>, cs: Seq<String>) -> Seq<Seq<char>> {
    Seq::new(gs.len(), |k: int| with_conf(gs[k].name@, cs[k]@))
}

pub open spec fn tag_items(gs: Seq<UserTag>, cs: Seq<String>) -> Seq<Seq<char>> {
    Seq::new(gs.len(), |k: int| with_conf(gs[k].tag@, cs[k]@))
}

/// A line listing `items` after `label`, or nothing when there are none.
pub open spec fn list_line(label: Seq<char>, items: Seq<Seq<char>>) -> Seq<char> {
    if items.len() > 0 {
        label + join_spec(items, ", "@) + "\n"@
    } else {
        Seq::empty()
    }
}

pub open spec fn opt_line(label: Seq<char>, o: Option<String>) -> Seq<char> {
    match o {
        Some(s) => label + s@ + "\n"@,
        None => Seq::empty(),
    }
}

pub open spec fn energy_line(f: LLMSongFeatures) -> Seq<char> {
    match f.energy_level {
        Some(e) => "   \u{26a1} Energy: "@ + e@ + (match f.valence {
            Some(v) => ", Valence: "@ + v@,
            None => Seq::empty(),
        }) + "\n"@,
        None => Seq::empty(),
    }
}

pub open spec fn style_line(f: LLMSongFeatures) -> Seq<char> {
    (match f.production_style {
        Some(p) => "   \u{1f39b}\u{fe0f}  Production: "@ + p@,
        None => Seq::empty(),
    }) + (match f.vocal_presence {
        Some(v) => " | \u{1f3a4} Vocals: "@ + v@,
        None => Seq::empty(),
    }) + (if f.production_style is Some || f.vocal_presence is Some { "\n"@ } else { Seq::empty() })
}

/// The written-out confidences of one song's genres, cultures and tags.
pub struct ConfidenceTexts {
    pub genres: Vec<String>,
    pub cultures: Vec<String>,
    pub tags: Vec<String>,
}

/// Whether `c` has one text per genre, culture and tag of `f`.
pub open spec fn fits(c: ConfidenceTexts, f: LLMSongFeatures) -> bool {
    c.genres@.len() == f.genres@.len() && c.cultures@.len() == f.cultural_origins@.len()
        && c.tags@.len() == f.user_facing_tags@.len()
}

/// The report block for the `i`-th song (counted from 0); the detailed block also shows the
/// production style, vocals and tags.
pub open spec fn song_block(i: nat, t: SpotifyTrackItem, f: LLMSongFeatures, c: ConfidenceTexts, detailed: bool) -> Seq<char> {
    block_head(i, t, f) + block_lists(f, c) + block_details(f, c, detailed) + "\n"@
}

/// The first two lines of a song's block: its number, name and artist, and the confidence.
pub open spec fn block_head(i: nat, t: SpotifyTrackItem, f: LLMSongFeatures) -> Seq<char> {
    decimal(i + 1) + ". "@ + t.name@ + " - "@ + primary_artist_spec(t.artists@) + "\n"@
        + "   \u{1f4c8} Confidence: "@ + f.metadata_confidence.level@ + " ("@ + f.metadata_confidence.explanation@ + ")\n"@
}

/// The genre, culture, language, energy and instrument lines of a song's block.
pub open spec fn block_lists(f: LLMSongFeatures, c: ConfidenceTexts) -> Seq<char> {
    list_line("   \u{1f3bc} Genres: "@, genre_items(f.genres@, c.genres@))
        + list_line("   \u{1f30d} Cultural Origins: "@, culture_items(f.cultural_origins@, c.cultures@))
        + opt_line("   \u{1f5e3}\u{fe0f}  Language: "@, f.primary_language)
        + energy_line(f)
        + list_line("   \u{1f3b8} Instruments: "@, views(f.instruments@))
}

/// The style and tag lines of a detailed block.
pub open spec fn block_details(f: LLMSongFeatures, c: ConfidenceTexts, detailed: bool) -> Seq<char> {
    if detailed {
        style_line(f) + list_line("   \u{1f3f7}\u{fe0f}  Tags: "@, tag_items(f.user_facing_tags@, c.tags@))
    } else {
        Seq::empty()
    }
}

fn push_list_line(s: &mut String, label: &str, items: &Vec<String>)
    ensures
        final(s)@ == old(s)@ + list_line(label@, views(items@)),
{
    if items.len() > 0 {
        append(s, label);
        let j = join(items, ", ");
        append(s, j.as_str());
        append(s, "\n");
    } else {
        assert(old(s)@ + Seq::<char>::empty() == old(s)@);
    }
}

fn push_opt_line(s: &mut String, label: &str, o: &Option<String>)
    ensures
        final(s)@ == old(s)@ + opt_line(label@, *o),
{
    match o {
        Some(v) => {
            append(s, label);
            append(s, v.as_str());
            append(s, "\n");
        },
        None => {
            assert(old(s)@ + Seq::<char>::empty() == old(s)@);
        },
    }
}

fn genre_texts(gs: &Vec<GenreFeature>, cs: &Vec<String>) -> (r: Vec<String>)
    requires
        cs@.len() == gs@.len(),
    ensures
        views(r@) == genre_items(gs@, cs@),
{
    let mut r: Vec<String> = Vec::new();
    let mut i: usize = 0;
    while i < gs.len()
        invariant
            i <= gs.len(),
            cs@.len() == gs@.len(),
            views(r@) == genre_items(gs@, cs@).take(i as int),
        decreases gs.len() - i,
    {
        let mut x = gs[i].name.clone();
        if gs[i].is_primary {
            append(&mut x, "*");
        } else {
            assert(x@ + Seq::<char>::empty() == x@);
        }
        append(&mut x, " (");
        append(&mut x, cs[i].as_str());
        append(&mut x, ")");
        let ghost old_v = views(r@);
        assert(x@ == genre_items(gs@, cs@)[i as int]);
        r.push(x);
        assert(views(r@) =~= old_v.push(x@));
        assert(views(r@) =~= genre_items(gs@, cs@).take(i + 1));
        i = i + 1;
    }
    assert(genre_items(gs@, cs@).take(gs.len() as int) =~= genre_items(gs@, cs@));
    r
}

fn culture_texts(gs: &Vec<CulturalFeature>, cs: &Vec<String>) -> (r: Vec<String>)
    requires
        cs@.len() == gs@.len(),
    ensures
        views(r@) == culture_items(gs@, cs@),
{
    let mut r: Vec<String> = Vec::new();
    let mut i: usize = 0;
    while i < gs.len()
        invariant
            i <= gs.len(),
            cs@.len() == gs@.len(),
            views(r@) == culture_items(gs@, cs@).take(i as int),
        decreases gs.len() - i,
    {
        let mut x = gs[i].name.clone();
        append(&mut x, " (");
        append(&mut x, cs[i].as_str());
        append(&mut x, ")");
        let ghost old_v = views(r@);
        assert(x@ == culture_items(gs@, cs@)[i as int]);
        r.push(x);
        assert(views(r@) =~= old_v.push(x@));
        assert(views(r@) =~= culture_items(gs@, cs@).take(i + 1));
        i = i + 1;
    }
    assert(culture_items(gs@, cs@).take(gs.len() as int) =~= culture_items(gs@, cs@));
    r
}

fn tag_texts(gs: &Vec<UserTag>, cs: &Vec<String>) -> (r: Vec<String>)
    requires
        cs@.len() == gs@.len(),
    ensures
        views(r@) == tag_items(gs@, cs@),
{
    let mut r: Vec<String> = Vec::new();
    let mut i: usize = 0;
    while i < gs.len()
        invariant
            i <= gs.len(),
            cs@.len() == gs@.len(),
            views(r@) == tag_items(gs@, cs@).take(i as int),
        decreases gs.len() - i,
    {
        let mut x = gs[i].tag.clone();
        append(&mut x, " (");
        append(&mut x, cs[i].as_str());
        append(&mut x, ")");
        let ghost old_v = views(r@);
        assert(x@ == tag_items(gs@, cs@)[i as int]);
        r.push(x);
        assert(views(r@) =~= old_v.push(x@));
        assert(views(r@) =~= tag_items(gs@, cs@).take(i + 1));
        i = i + 1;
    }
    assert(tag_items(gs@, cs@).take(gs.len() as int) =~= tag_items(gs@, cs@));
    r
}

fn push_energy_line(s: &mut String, f: &LLMSongFeatures)
    ensures
        final(s)@ == old(s)@ + energy_line(*f),
{
    match &f.energy_level {
        Some(e) => {
            append(s, "   \u{26a1} Energy: ");
            append(s, e.as_str());
            match &f.valence {
                Some(v) => {
                    append(s, ", Valence: ");
                    append(s, v.as_str());
                },
                None => {},
            }
            append(s, "\n");
        },
        None => {},
    }
}

fn push_style_line(s: &mut String, f: &LLMSongFeatures)
    ensures
        final(s)@ == old(s)@ + style_line(*f),
{
    match &f.production_style {
        Some(p) => {
            append(s, "   \u{1f39b}\u{fe0f}  Production: ");
            append(s, p.as_str());
        },
        None => {},
    }
    match &f.vocal_presence {
        Some(v) => {
            append(s, " | \u{1f3a4} Vocals: ");
            append(s, v.as_str());
        },
        None => {},
    }
    if f.production_style.is_some() || f.vocal_presence.is_some() {
        append(s, "\n");
    }
}

fn push_block_head(s: &mut String, i: usize, t: &SpotifyTrackItem, f: &LLMSongFeatures)
    requires
        i < usize::MAX,
    ensures
        final(s)@ == old(s)@ + block_head(i as nat, *t, *f),
{
    push_decimal(s, (i + 1) as u64);
    append(s, ". ");
    append(s, t.name.as_str());
    append(s, " - ");
    let a = t.primary_artist();
    append(s, a.as_str());
    append(s, "\n");
    append(s, "   \u{1f4c8} Confidence: ");
    append(s, f.metadata_confidence.level.as_str());
    append(s, " (");
    append(s, f.metadata_confidence.explanation.as_str());
    append(s, ")\n");
    assert(s@ =~= old(s)@ + block_head(i as nat, *t, *f));
}

fn push_block_lists(s: &mut String, f: &LLMSongFeatures, c: &ConfidenceTexts)
    requires
        fits(*c, *f),
    ensures
        final(s)@ == old(s)@ + block_lists(*f, *c),
{
    let g = genre_texts(&f.genres, &c.genres);
    push_list_line(s, "   \u{1f3bc} Genres: ", &g);
    let cu = culture_texts(&f.cultural_origins, &c.cultures);
    push_list_line(s, "   \u{1f30d} Cultural Origins: ", &cu);
    push_opt_line(s, "   \u{1f5e3}\u{fe0f}  Language: ", &f.primary_language);
    push_energy_line(s, f);
    push_list_line(s, "   \u{1f3b8} Instruments: ", &f.instruments);
    assert(s@ =~= old(s)@ + block_lists(*f, *c));
}

fn push_block_details(s: &mut String, f: &LLMSongFeatures, c: &ConfidenceTexts, detailed: bool)
    requires
        fits(*c, *f),
    ensures
        final(s)@ == old(s)@ + block_details(*f, *c, detailed),
{
    if detailed {
        push_style_line(s, f);
        let tg = tag_texts(&f.user_facing_tags, &c.tags);
        push_list_line(s, "   \u{1f3f7}\u{fe0f}  Tags: ", &tg);
        assert(s@ =~= old(s)@ + block_details(*f, *c, detailed));
    } else {
        assert(s@ =~= old(s)@ + block_details(*f, *c, detailed));
    }
}

/// Appends the report block for the `i`-th song.
pub fn push_song_block(s: &mut String, i: usize, t: &SpotifyTrackItem, f: &LLMSongFeatures, c: &ConfidenceTexts, detailed: bool)
    requires
        fits(*c, *f),
        i < usize::MAX,
    ensures
        final(s)@ == old(s)@ + song_block(i as nat, *t, *f, *c, detailed),
{
    push_block_head(s, i, t, f);
    push_block_lists(s, f, c);
    push_block_details(s, f, c, detailed);
    append(s, "\n");
    assert(s@ =~= old(s)@ + song_block(i as nat, *t, *f, *c, detailed));
}

/// The blocks of the first `n` songs, where `n` is the shorter of the two lists.
pub open spec fn blocks(ts: Seq<SpotifyTrackItem>, fs: Seq<LLMSongFeatures>, cs: Seq<ConfidenceTexts>, detailed: bool, n: nat) -> Seq<char>
    decreases n,
{
    if n == 0 {
        Seq::empty()
    } else {
        blocks(ts, fs, cs, detailed, (n - 1) as nat) + song_block((n - 1) as nat, ts[n - 1], fs[n - 1], cs[n - 1], detailed)
    }
}

pub open spec fn min_len(a: nat, b: nat) -> nat {
    if a < b { a } else { b }
}

fn push_blocks(s: &mut String, ts: &Vec<SpotifyTrackItem>, fs: &Vec<LLMSongFeatures>, cs: &Vec<ConfidenceTexts>, detailed: bool)
    requires
        cs@.len() == fs@.len(),
        forall|k: int| 0 <= k < fs@.len() ==> fits(#[trigger] cs@[k], fs@[k]),
    ensures
        final(s)@ == old(s)@ + blocks(ts@, fs@, cs@, detailed, min_len(ts@.len(), fs@.len())),
{
    let n = if ts.len() < fs.len() { ts.len() } else { fs.len() };
    let mut i: usize = 0;
    assert(old(s)@ + blocks(ts@, fs@, cs@, detailed, 0) == old(s)@);
    while i < n
        invariant
            i <= n,
            n == min_len(ts@.len(), fs@.len()),
            cs@.len() == fs@.len(),
            forall|k: int| 0 <= k < fs@.len() ==> fits(#[trigger] cs@[k], fs@[k]),
            s@ == old(s)@ + blocks(ts@, fs@, cs@, detailed, i as nat),
        decreases n - i,
    {
        push_song_block(s, i, &ts[i], &fs[i], &cs[i], detailed);
        assert(blocks(ts@, fs@, cs@, detailed, (i + 1) as nat) == blocks(ts@, fs@, cs@, detailed, i as nat)
            + song_block(i as nat, ts@[i as int], fs@[i as int], cs@[i as int], detailed));
        i = i + 1;
    }
}

/// The report after enriching songs of an imported playlist.
pub open spec fn enrichment_report_spec(name: Seq<char>, enriched: nat, ts: Seq<SpotifyTrackItem>, fs: Seq<LLMSongFeatures>, cs: Seq<ConfidenceTexts>) -> Seq<char> {
    "\u{1f3b5} Music Library Enrichment for '"@ + name + "'\n"@ + "\u{1f916} OpenRouter API + Neo4j Graph Database\n"@
        + "\u{1f4ca} Successfully enriched "@ + decimal(enriched) + "/"@ + decimal(fs.len()) + " songs\n\n"@
        + blocks(ts, fs, cs, false, min_len(ts.len(), fs.len()))
        + "\u{2705} Enrichment complete! Songs now have semantic graph relationships."@
}

/// The number of `true` entries of `s`.
pub open spec fn count_true(s: Seq<bool>) -> nat
    decreases s.len(),
{
    if s.len() == 0 {
        0
    } else {
        count_true(s.drop_last()) + if s.last() { 1nat } else { 0nat }
    }
}

proof fn lemma_count_true_len(s: Seq<bool>)
    ensures
        count_true(s) <= s.len(),
    decreases s.len(),
{
    if s.len() > 0 {
        lemma_count_true_len(s.drop_last());
    }
}

/// How many songs were enriched: those whose features were stored and that were then marked
/// as enriched (one entry per analysed song).
pub fn count_enriched(enriched: &Vec<bool>) -> (n: usize)
    ensures
        n == count_true(enriched@),
{
    let mut n: usize = 0;
    let mut i: usize = 0;
    while i < enriched.len()
        invariant
            i <= enriched.len(),
            n == count_true(enriched@.take(i as int)),
        decreases enriched.len() - i,
    {
        assert(enriched@.take(i + 1).drop_last() == enriched@.take(i as int));
        proof {
            lemma_count_true_len(enriched@.take(i as int));
        }
        if enriched[i] {
            n = n + 1;
        }
        i = i + 1;
    }
    assert(enriched@.take(enriched.len() as int) == enriched@);
    n
}

/// The report after enriching songs of an imported playlist: how many of the analysed songs
/// were enriched (`enriched` has one entry per song), then a block per analysed song.
pub fn enrichment_report(name: &str, enriched: &Vec<bool>, tracks: &Vec<SpotifyTrackItem>, features: &Vec<LLMSongFeatures>, confidences: &Vec<ConfidenceTexts>) -> (r: String)
    requires
        confidences@.len() == features@.len(),
        forall|k: int| 0 <= k < features@.len() ==> fits(#[trigger] confidences@[k], features@[k]),
    ensures
        r@ == enrichment_report_spec(name@, count_true(enriched@), tracks@, features@, confidences@),
{
    let enriched = count_enriched(enriched);
    let mut r = String::from_str("\u{1f3b5} Music Library Enrichment for '");
    append(&mut r, name);
    append(&mut r, "'\n");
    append(&mut r, "\u{1f916} OpenRouter API + Neo4j Graph Database\n");
    append(&mut r, "\u{1f4ca} Successfully enriched ");
    push_decimal(&mut r, enriched as u64);
    append(&mut r, "/");
    push_decimal(&mut r, features.len() as u64);
    append(&mut r, " songs\n\n");
    push_blocks(&mut r, tracks, features, confidences, false);
    append(&mut r, "\u{2705} Enrichment complete! Songs now have semantic graph relationships.");
    r
}

/// The closing lines of the analysis report.
pub open spec fn analysis_footer() -> Seq<char> {
    "\u{1f50d} Example Graph Queries Available:\n"@
        + "   \u{2022} Find songs by language: /api/find_songs_by_language\n"@
        + "   \u{2022} Find songs by genre: /api/find_songs_by_genre\n"@
        + "   \u{2022} Find similar songs: /api/find_similar_songs\n"@
        + "   \u{2022} Available genres: /api/get_available_genres\n"@
        + "   \u{2022} Available languages: /api/get_available_languages\n\n"@
        + "\u{1f4be} All features stored as Neo4j graph relationships for fast querying!\n"@
}

/// The report after analysing the first songs of a Spotify playlist.
pub open spec fn analysis_report_spec(name: Seq<char>, ts: Seq<SpotifyTrackItem>, fs: Seq<LLMSongFeatures>, cs: Seq<ConfidenceTexts>) -> Seq<char> {
    "\u{1f3b5} LLM Audio Features Analysis for '"@ + name + "'\n"@ + "\u{1f916} OpenRouter API\n"@
        + "\u{1f4ca} Analyzed "@ + decimal(fs.len()) + " tracks and stored in Neo4j graph\n\n"@
        + blocks(ts, fs, cs, true, min_len(ts.len(), fs.len())) + analysis_footer()
}

/// The report after analysing songs of a Spotify playlist: a detailed block per song, then
/// the queries available on the graph.
pub fn analysis_report(name: &str, tracks: &Vec<SpotifyTrackItem>, features: &Vec<LLMSongFeatures>, confidences: &Vec<ConfidenceTexts>) -> (r: String)
    requires
        confidences@.len() == features@.len(),
        forall|k: int| 0 <= k < features@.len() ==> fits(#[trigger] confidences@[k], features@[k]),
    ensures
        r@ == analysis_report_spec(name@, tracks@, features@, confidences@),
{
    let mut r = String::from_str("\u{1f3b5} LLM Audio Features Analysis for '");
    append(&mut r, name);
    append(&mut r, "'\n");
    append(&mut r, "\u{1f916} OpenRouter API\n");
    append(&mut r, "\u{1f4ca} Analyzed ");
    push_decimal(&mut r, features.len() as u64);
    append(&mut r, " tracks and stored in Neo4j graph\n\n");
    push_blocks(&mut r, tracks, features, confidences, true);
    let ghost before = r@;
    append(&mut r, "\u{1f50d} Example Graph Queries Available:\n");
    append(&mut r, "   \u{2022} Find songs by language: /api/find_songs_by_language\n");
    append(&mut r, "   \u{2022} Find songs by genre: /api/find_songs_by_genre\n");
    append(&mut r, "   \u{2022} Find similar songs: /api/find_similar_songs\n");
    append(&mut r, "   \u{2022} Available genres: /api/get_available_genres\n");
    append(&mut r, "   \u{2022} Available languages: /api/get_available_languages\n\n");
    append(&mut r, "\u{1f4be} All features stored as Neo4j graph relationships for fast querying!\n");
    assert(r@ =~= before + analysis_footer());
    r
}

/// The answer when an imported playlist has no song left to enrich.
pub fn nothing_to_enrich_message(name: &str) -> (m: String)
    ensures
        m@ == "\u{1f3b5} Playlist '"@ + name@ + "' has no songs that need enrichment.\nAll songs may already be enriched!"@,
{
    let mut m = String::from_str("\u{1f3b5} Playlist '");
    append(&mut m, name);
    append(&mut m, "' has no songs that need enrichment.\nAll songs may already be enriched!");
    m
}

/// The answer when the language model could not be used.
pub fn analysis_failed_message(error: &str) -> (m: String)
    ensures
        m@ == "\u{274c} LLM feature extraction failed: "@ + error@
            + "\n\nThis could be due to:\n- Missing OPENROUTER_API_KEY\n- API rate limits\n- Network issues\n\nCheck the server logs for more details."@,
{
    let mut m = String::from_str("\u{274c} LLM feature extraction failed: ");
    append(&mut m, error);
    append(&mut m, "\n\nThis could be due to:\n- Missing OPENROUTER_API_KEY\n- API rate limits\n- Network issues\n\nCheck the server logs for more details.");
    m
}

/// The answer when a playlist to analyse has no tracks.
pub fn empty_playlist_message(name: &str) -> (m: String)
    ensures
        m@ == "Playlist '"@ + name@ + "' is empty"@,
{
    let mut m = String::from_str("Playlist '");
    append(&mut m, name);
    append(&mut m, "' is empty");
    m
}

} // verus!
