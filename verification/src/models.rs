//! The records exchanged with Spotify, the language model and the graph database, and what
//! the pages read from them.
//!
//! Confidences and averages, which arrive as floating-point numbers, are carried here as their
//! IEEE-754 bit patterns (`f64::to_bits`): the library passes them on unchanged and never reads
//! them as numbers.
use vstd::prelude::*;
use vstd::string::StringExecFns;
use crate::text::{append, join, join_spec, views, push_signed_decimal, signed_decimal};

verus! {

/// The token endpoint's answer.
#[derive(Debug, Clone, PartialEq)]
pub struct SpotifyTokenResponse {
    pub access_token: String,
    pub token_type: String,
    pub scope: String,
    pub expires_in: u64,
    pub refresh_token: Option<String>,
}

#[derive(Debug, Clone, PartialEq)]
pub struct SpotifyUserProfile {
    pub display_name: String,
    pub id: String,
    pub images: Option<Vec<SpotifyImageObject>>,
}

#[derive(Debug, Clone, PartialEq)]
pub struct SpotifyImageObject {
    pub url: String,
    pub height: Option<u32>,
    pub width: Option<u32>,
}

#[derive(Debug, Clone, PartialEq)]
pub struct SpotifyPlaylistItem {
    pub id: String,
    pub name: String,
    pub images: Option<Vec<SpotifyImageObject>>,
    pub description: Option<String>,
    pub uri: String,
}

/// One page of the user's playlists.
#[derive(Debug, Clone, PartialEq)]
pub struct SpotifyPlaylistsResponse {
    pub items: Vec<SpotifyPlaylistItem>,
    pub href: String,
    pub limit: u32,
    pub next: Option<String>,
    pub offset: u32,
    pub previous: Option<String>,
    pub total: u32,
}

/// One page of a playlist's tracks.
#[derive(Debug, Clone, PartialEq)]
pub struct SpotifyPlaylistTrackResponse {
    pub items: Vec<PlaylistItemTrackWrapper>,
    pub limit: u32,
    pub next: Option<String>,
    pub offset: u32,
    pub previous: Option<String>,
    pub total: u32,
}

#[derive(Debug, Clone, PartialEq)]
pub struct PlaylistItemTrackWrapper {
    pub track: Option<SpotifyTrackItem>,
}

#[derive(Debug, Clone, PartialEq)]
pub struct SpotifyTrackItem {
    pub id: String,
    pub uri: String,
    pub name: String,
    pub artists: Vec<SpotifyArtistSimple>,
    pub album: Option<SpotifyTrackAlbumSimple>,
    pub duration_ms: Option<u32>,
    pub explicit: Option<bool>,
    pub audio_features: Option<LLMSongFeatures>,
}

#[derive(Debug, Clone, PartialEq)]
pub struct SpotifyTrackAlbumSimple {
    pub id: Option<String>,
    pub name: String,
    pub images: Option<Vec<SpotifyImageObject>>,
}

#[derive(Debug, Clone, PartialEq)]
pub struct SpotifyArtistSimple {
    pub id: Option<String>,
    pub name: String,
}

#[derive(Debug, Clone, PartialEq)]
pub struct NewPlaylistDetails {
    pub id: String,
    pub name: String,
    pub external_url: String,
}

/// The semantic features the language model gives one song.
#[derive(Debug, Clone, PartialEq)]
pub struct LLMSongFeatures {
    pub song_id: String,
    pub metadata_confidence: MetadataConfidence,
    pub genres: Vec<GenreFeature>,
    pub cultural_origins: Vec<CulturalFeature>,
    pub primary_language: Option<String>,
    pub instruments: Vec<String>,
    pub energy_level: Option<String>,
    pub valence: Option<String>,
    pub production_style: Option<String>,
    pub vocal_presence: Option<String>,
    pub user_facing_tags: Vec<UserTag>,
    pub rhythmic_feel: Option<String>,
    pub density: String,
}

/// The features of a song under their older name.
pub type SpotifyAudioFeatures = LLMSongFeatures;

#[derive(Debug, Clone, PartialEq)]
pub struct MetadataConfidence {
    pub level: String,
    pub explanation: String,
}

#[derive(Debug, Clone, PartialEq)]
pub struct GenreFeature {
    pub name: String,
    /// The confidence's `f64` bit pattern.
    pub confidence_bits: u64,
    pub is_primary: bool,
}

#[derive(Debug, Clone, PartialEq)]
pub struct CulturalFeature {
    pub name: String,
    /// The confidence's `f64` bit pattern.
    pub confidence_bits: u64,
}

#[derive(Debug, Clone, PartialEq)]
pub struct UserTag {
    pub tag: String,
    /// The confidence's `f64` bit pattern.
    pub confidence_bits: u64,
}

#[derive(Debug, Clone, PartialEq)]
pub struct AudioFeaturesResponse {
    pub audio_features: Vec<Option<SpotifyAudioFeatures>>,
}

/// A playlist imported into the graph database, with how many of its songs are enriched.
#[derive(Debug, Clone, PartialEq)]
pub struct ImportedPlaylist {
    pub id: String,
    pub name: String,
    pub description: String,
    pub song_count: i64,
    pub enriched_count: i64,
    pub has_enrichment: bool,
    pub fully_enriched: bool,
}

/// A kind of feature node and the values songs have for it.
#[derive(Debug, Clone, PartialEq)]
pub struct NodeTypeInfo {
    pub node_type: String,
    pub available_values: Vec<NodeValue>,
}

/// One feature value, with the number of songs that have it.
#[derive(Debug, Clone, PartialEq)]
pub struct NodeValue {
    pub value: String,
    pub song_count: i64,
    /// The average confidence's `f64` bit pattern, where there is one.
    pub confidence_avg_bits: Option<u64>,
}

#[derive(Debug, Clone, PartialEq)]
pub struct PlaylistGenerationRequest {
    pub name: String,
    pub description: Option<String>,
    pub filters: Vec<PlaylistFilter>,
    pub max_songs: u32,
    pub shuffle: bool,
}

/// One condition on the songs of a generated playlist.
#[derive(Debug, Clone, PartialEq)]
pub struct PlaylistFilter {
    pub node_type: String,
    pub value: String,
    /// The threshold's `f64` bit pattern, where there is one.
    pub min_confidence_bits: Option<u64>,
}

#[derive(Debug, Clone, PartialEq)]
pub struct GeneratedPlaylistResult {
    pub spotify_playlist_id: String,
    pub name: String,
    pub song_count: i64,
    pub applied_filters: Vec<String>,
    pub external_url: String,
}

/// The index of the first genre marked primary, if any.
pub open spec fn first_primary(genres: Seq<GenreFeature>) -> Option<int>
    decreases genres.len(),
{
    if genres.len() == 0 {
        None
    } else if genres[0].is_primary {
        Some(0)
    } else {
        match first_primary(genres.drop_first()) {
            Some(i) => Some(i + 1),
            None => None,
        }
    }
}

proof fn lemma_first_primary_bounds(genres: Seq<GenreFeature>)
    ensures
        first_primary(genres) matches Some(i) ==> 0 <= i < genres.len() && genres[i].is_primary,
    decreases genres.len(),
{
    if genres.len() > 0 && !genres[0].is_primary {
        lemma_first_primary_bounds(genres.drop_first());
    }
}

/// The name of the first primary genre.
pub open spec fn primary_genre_spec(genres: Seq<GenreFeature>) -> Option<Seq<char>> {
    match first_primary(genres) {
        Some(i) => Some(genres[i].name@),
        None => None,
    }
}

/// The text shown where a value is unknown.
pub open spec fn or_unknown(o: Option<Seq<char>>) -> Seq<char> {
    match o {
        Some(s) => s,
        None => "Unknown"@,
    }
}

pub open spec fn opt_view(o: Option<String>) -> Option<Seq<char>> {
    match o {
        Some(s) => Some(s@),
        None => None,
    }
}

/// The one-line summary of a song's features.
pub open spec fn summary_spec(f: LLMSongFeatures) -> Seq<char> {
    "Genre: "@ + or_unknown(primary_genre_spec(f.genres@)) + ", Energy: "@ + or_unknown(
        opt_view(f.energy_level),
    ) + ", Valence: "@ + or_unknown(opt_view(f.valence)) + ", Language: "@ + or_unknown(
        opt_view(f.primary_language),
    ) + ", Confidence: "@ + f.metadata_confidence.level@
}

fn or_unknown_str(o: &Option<String>) -> (r: &str)
    ensures
        r@ == or_unknown(opt_view(*o)),
{
    match o {
        Some(s) => s.as_str(),
        None => "Unknown",
    }
}

impl LLMSongFeatures {
    /// The first genre marked primary, if any.
    pub fn primary_genre(&self) -> (r: Option<&str>)
        ensures
            r matches Some(s) ==> primary_genre_spec(self.genres@) == Some(s@),
            r is None ==> primary_genre_spec(self.genres@) is None,
    {
        let mut i: usize = 0;
        assert(self.genres@.subrange(0, self.genres.len() as int) == self.genres@);
        while i < self.genres.len()
            invariant
                i <= self.genres.len(),
                forall|k: int| 0 <= k < i ==> !(#[trigger] self.genres@[k]).is_primary,
                first_primary(self.genres@) == (match first_primary(self.genres@.subrange(i as int, self.genres.len() as int)) {
                    Some(j) => Some(j + i),
                    None => None,
                }),
            decreases self.genres.len() - i,
        {
            let ghost rest = self.genres@.subrange(i as int, self.genres.len() as int);
            assert(rest.drop_first() == self.genres@.subrange(i + 1, self.genres.len() as int));
            if self.genres[i].is_primary {
                return Some(self.genres[i].name.as_str());
            }
            i = i + 1;
        }
        None
    }

    /// The names of all genres, in order.
    pub fn all_genres(&self) -> (r: Vec<&str>)
        ensures
            r.len() == self.genres.len(),
            forall|k: int| 0 <= k < r.len() ==> (#[trigger] r@[k])@ == self.genres@[k].name@,
    {
        let mut r: Vec<&str> = Vec::new();
        let mut i: usize = 0;
        while i < self.genres.len()
            invariant
                i <= self.genres.len(),
                r.len() == i,
                forall|k: int| 0 <= k < i ==> (#[trigger] r@[k])@ == self.genres@[k].name@,
            decreases self.genres.len() - i,
        {
            r.push(self.genres[i].name.as_str());
            i = i + 1;
        }
        r
    }

    /// Whether the metadata confidence level is `Very High` or `High`.
    pub fn has_high_confidence(&self) -> (b: bool)
        ensures
            b == (self.metadata_confidence.level@ == "Very High"@ || self.metadata_confidence.level@
                == "High"@),
    {
        let very_high = String::from_str("Very High");
        let high = String::from_str("High");
        self.metadata_confidence.level == very_high || self.metadata_confidence.level == high
    }

    /// A one-line summary: primary genre, energy, valence, language and confidence level.
    pub fn summary(&self) -> (s: String)
        ensures
            s@ == summary_spec(*self),
    {
        let mut s = String::new();
        append(&mut s, "Genre: ");
        match self.primary_genre() {
            Some(g) => append(&mut s, g),
            None => append(&mut s, "Unknown"),
        }
        append(&mut s, ", Energy: ");
        append(&mut s, or_unknown_str(&self.energy_level));
        append(&mut s, ", Valence: ");
        append(&mut s, or_unknown_str(&self.valence));
        append(&mut s, ", Language: ");
        append(&mut s, or_unknown_str(&self.primary_language));
        append(&mut s, ", Confidence: ");
        append(&mut s, self.metadata_confidence.level.as_str());
        assert(s@ == summary_spec(*self));
        s
    }
}

/// The name of the first artist, or `Unknown Artist`.
pub open spec fn primary_artist_spec(artists: Seq<SpotifyArtistSimple>) -> Seq<char> {
    if artists.len() > 0 {
        artists[0].name@
    } else {
        "Unknown Artist"@
    }
}

/// The names of the artists.
pub open spec fn artist_names(artists: Seq<SpotifyArtistSimple>) -> Seq<Seq<char>> {
    artists.map_values(|a: SpotifyArtistSimple| a.name@)
}

impl SpotifyTrackItem {
    /// The first artist's name, or `Unknown Artist` when the track lists none.
    pub fn primary_artist(&self) -> (s: String)
        ensures
            s@ == primary_artist_spec(self.artists@),
    {
        if self.artists.len() > 0 {
            self.artists[0].name.clone()
        } else {
            String::from_str("Unknown Artist")
        }
    }

    /// All artist names, joined with `, `.
    pub fn all_artists(&self) -> (s: String)
        ensures
            s@ == join_spec(artist_names(self.artists@), ", "@),
    {
        let mut names: Vec<String> = Vec::new();
        let mut i: usize = 0;
        while i < self.artists.len()
            invariant
                i <= self.artists.len(),
                names.len() == i,
                forall|k: int| 0 <= k < i ==> (#[trigger] names@[k])@ == self.artists@[k].name@,
            decreases self.artists.len() - i,
        {
            names.push(self.artists[i].name.clone());
            i = i + 1;
        }
        let s = join(&names, ", ");
        assert(views(names@) == artist_names(self.artists@));
        s
    }

    /// `<track name> - <primary artist>`.
    pub fn display_name(&self) -> (s: String)
        ensures
            s@ == self.name@ + " - "@ + primary_artist_spec(self.artists@),
    {
        let mut s = self.name.clone();
        append(&mut s, " - ");
        let a = self.primary_artist();
        append(&mut s, a.as_str());
        s
    }

    /// Whether features are attached to the track.
    pub fn has_audio_features(&self) -> (b: bool)
        ensures
            b == self.audio_features is Some,
    {
        self.audio_features.is_some()
    }
}

/// The enrichment state shown for an imported playlist.
pub open spec fn enrichment_status_spec(p: ImportedPlaylist) -> Seq<char> {
    if p.song_count == 0 {
        "Empty"@
    } else if p.fully_enriched {
        "Fully Enriched"@
    } else if p.has_enrichment {
        "Partial ("@ + signed_decimal(p.enriched_count as int) + "/"@ + signed_decimal(
            p.song_count as int,
        ) + ")"@
    } else {
        "Not Enriched"@
    }
}

impl ImportedPlaylist {
    /// `Empty`, `Fully Enriched`, `Partial (<enriched>/<songs>)` or `Not Enriched`.
    pub fn enrichment_status(&self) -> (s: String)
        ensures
            s@ == enrichment_status_spec(*self),
    {
        if self.song_count == 0 {
            String::from_str("Empty")
        } else if self.fully_enriched {
            String::from_str("Fully Enriched")
        } else if self.has_enrichment {
            let mut s = String::from_str("Partial (");
            push_signed_decimal(&mut s, self.enriched_count);
            append(&mut s, "/");
            push_signed_decimal(&mut s, self.song_count);
            append(&mut s, ")");
            s
        } else {
            String::from_str("Not Enriched")
        }
    }

    /// Whether the playlist has songs and is not yet fully enriched.
    pub fn can_be_enriched(&self) -> (b: bool)
        ensures
            b == (self.song_count > 0 && !self.fully_enriched),
    {
        self.song_count > 0 && !self.fully_enriched
    }
}

} // verus!
