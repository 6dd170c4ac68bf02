//! The shapes of AniList GraphQL responses, as the bot reads them, and
//! the small renderings they carry: preferred titles and names, partial
//! dates and airing countdowns.

use vstd::prelude::*;
use crate::store::TitleLanguage;
use crate::text::{dec, dec2, owned, u64_to_string, u64_to_string2};

verus! {

#[derive(Clone, Debug)]
pub struct GraphQlResponse<T> {
    pub data: T,
}

#[derive(Clone, Debug)]
pub struct MediaTitle {
    pub romaji: Option<String>,
    pub english: Option<String>,
    pub native: Option<String>,
}

#[derive(Clone, Debug)]
pub struct CoverImage {
    pub large: Option<String>,
}

#[derive(Clone, Debug)]
pub struct FuzzyDate {
    pub year: Option<u32>,
    pub month: Option<u32>,
    pub day: Option<u32>,
}

#[derive(Clone, Debug)]
pub struct Media {
    pub id: u64,
    pub title: MediaTitle,
    pub episodes: Option<u32>,
    pub season: Option<String>,
    pub season_year: Option<u32>,
    pub chapters: Option<u32>,
    pub volumes: Option<u32>,
    pub format: Option<String>,
    pub status: Option<String>,
    pub average_score: Option<u32>,
    pub genres: Vec<String>,
    pub description: Option<String>,
    pub cover_image: Option<CoverImage>,
    pub site_url: String,
    pub start_date: Option<FuzzyDate>,
    pub next_airing_episode: Option<NextAiringEpisode>,
    pub relations: Option<MediaRelations>,
    pub characters: Option<MediaCharacterConnection>,
    pub recommendations: Option<MediaRecommendationConnection>,
}

#[derive(Clone, Debug)]
pub struct MediaCharacterConnection {
    pub edges: Vec<MediaCharacterEdge>,
}

#[derive(Clone, Debug)]
pub struct MediaCharacterEdge {
    pub role: Option<String>,
    pub node: MediaCharacterNode,
}

#[derive(Clone, Debug)]
pub struct MediaCharacterNode {
    pub id: u64,
    pub name: CharacterName,
    pub site_url: String,
}

#[derive(Clone, Debug)]
pub struct MediaRecommendationConnection {
    pub nodes: Vec<MediaRecommendationNode>,
}

#[derive(Clone, Debug)]
pub struct MediaRecommendationNode {
    pub media_recommendation: Option<MediaRecommendation>,
}

#[derive(Clone, Debug)]
pub struct MediaRecommendation {
    pub title: MediaTitle,
    pub site_url: String,
}

#[derive(Clone, Debug)]
pub struct MediaRelations {
    pub edges: Vec<MediaRelationEdge>,
}

#[derive(Clone, Debug)]
pub struct MediaRelationEdge {
    pub relation_type: String,
    pub node: MediaRelationNode,
}

#[derive(Clone, Debug)]
pub struct MediaRelationNode {
    pub id: u64,
    pub title: MediaTitle,
    pub format: Option<String>,
    pub status: Option<String>,
    pub site_url: String,
}

#[derive(Clone, Debug)]
pub struct NextAiringEpisode {
    pub airing_at: i64,
    pub episode: u32,
    pub time_until_airing: i64,
}

#[derive(Clone, Debug)]
pub struct MediaData {
    pub media: Media,
}

#[derive(Clone, Debug)]
pub struct MediaSearchData {
    pub page: MediaPage,
}

#[derive(Clone, Debug)]
pub struct MediaPage {
    pub page_info: Option<PageInfo>,
    pub media: Vec<Media>,
}

#[derive(Clone, Debug)]
pub struct PageInfo {
    pub total: Option<u32>,
    pub current_page: Option<u32>,
    pub last_page: Option<u32>,
    pub has_next_page: Option<bool>,
}

#[derive(Clone, Debug)]
pub struct CharacterData {
    pub character: Character,
}

#[derive(Clone, Debug)]
pub struct Character {
    pub id: u64,
    pub name: CharacterName,
    pub description: Option<String>,
    pub image: CharacterImage,
    pub site_url: String,
    pub media: CharacterMediaConnection,
}

#[derive(Clone, Debug)]
pub struct CharacterName {
    pub full: Option<String>,
    pub native: Option<String>,
}

#[derive(Clone, Debug)]
pub struct CharacterImage {
    pub large: Option<String>,
}

#[derive(Clone, Debug)]
pub struct CharacterMediaConnection {
    pub nodes: Vec<CharacterMediaNode>,
    pub edges: Vec<CharacterMediaEdge>,
}

#[derive(Clone, Debug)]
pub struct CharacterMediaEdge {
    pub node: CharacterMediaNode,
    pub voice_actors: Vec<StaffShort>,
}

#[derive(Clone, Debug)]
pub struct StaffShort {
    pub name: StaffShortName,
    pub site_url: String,
}

#[derive(Clone, Debug)]
pub struct StaffShortName {
    pub full: Option<String>,
}

#[derive(Clone, Debug)]
pub struct CharacterMediaNode {
    pub title: MediaTitle,
    pub media_type: Option<String>,
    pub site_url: String,
    pub cover_image: Option<CoverImage>,
}

#[derive(Clone, Debug)]
pub struct StudioData {
    pub studio: Studio,
}

#[derive(Clone, Debug)]
pub struct Studio {
    pub id: u64,
    pub name: String,
    pub site_url: String,
    pub is_animation_studio: bool,
    pub media: StudioMediaConnection,
}

#[derive(Clone, Debug)]
pub struct StudioMediaConnection {
    pub nodes: Vec<StudioMediaNode>,
}

#[derive(Clone, Debug)]
pub struct StudioMediaNode {
    pub title: MediaTitle,
    pub season_year: Option<u32>,
    pub average_score: Option<u32>,
    pub format: Option<String>,
    pub site_url: String,
}

#[derive(Clone, Debug)]
pub struct StaffData {
    pub staff: Staff,
}

#[derive(Clone, Debug)]
pub struct Staff {
    pub id: u64,
    pub name: StaffNameFull,
    pub description: Option<String>,
    pub image: StaffImage,
    pub site_url: String,
    pub is_birthday: bool,
    pub staff_media: StaffMediaConnection,
}

#[derive(Clone, Debug)]
pub struct StaffNameFull {
    pub full: Option<String>,
    pub native: Option<String>,
}

#[derive(Clone, Debug)]
pub struct StaffImage {
    pub large: Option<String>,
}

#[derive(Clone, Debug)]
pub struct StaffMediaConnection {
    pub nodes: Vec<StaffMediaNode>,
}

#[derive(Clone, Debug)]
pub struct StaffMediaNode {
    pub title: MediaTitle,
    pub media_type: Option<String>,
    pub site_url: String,
}

#[derive(Clone, Debug)]
pub struct RecommendationData {
    pub media: MediaRecommendationInfo,
}

#[derive(Clone, Debug)]
pub struct MediaRecommendationInfo {
    pub id: u64,
    pub title: MediaTitle,
    pub recommendations: RecommendationConnection,
}

#[derive(Clone, Debug)]
pub struct RecommendationConnection {
    pub nodes: Vec<RecommendationNode>,
}

#[derive(Clone, Debug)]
pub struct RecommendationNode {
    pub media_recommendation: Option<MediaRecommendationNodeInner>,
}

#[derive(Clone, Debug)]
pub struct MediaRecommendationNodeInner {
    pub title: MediaTitle,
    pub site_url: String,
}

#[derive(Clone, Debug)]
pub struct FavouritesData {
    pub user: UserFavourites,
}

#[derive(Clone, Debug)]
pub struct UserFavourites {
    pub name: String,
    pub site_url: String,
    pub favourites: Favourites,
}

#[derive(Clone, Debug)]
pub struct Favourites {
    pub anime: FavouriteMediaConnection,
    pub manga: FavouriteMediaConnection,
    pub characters: FavouriteCharacterConnection,
    pub studios: FavouriteStudioConnection,
}

#[derive(Clone, Debug)]
pub struct FavouriteMediaConnection {
    pub nodes: Vec<FavouriteMediaNode>,
}

#[derive(Clone, Debug)]
pub struct FavouriteMediaNode {
    pub title: MediaTitle,
    pub site_url: String,
}

#[derive(Clone, Debug)]
pub struct FavouriteCharacterConnection {
    pub nodes: Vec<FavouriteCharacterNode>,
}

#[derive(Clone, Debug)]
pub struct FavouriteCharacterNode {
    pub name: CharacterName,
    pub site_url: String,
}

#[derive(Clone, Debug)]
pub struct FavouriteStudioConnection {
    pub nodes: Vec<FavouriteStudioNode>,
}

#[derive(Clone, Debug)]
pub struct FavouriteStudioNode {
    pub name: String,
    pub site_url: String,
}

#[derive(Clone, Debug)]
pub struct UserData {
    pub user: AniListUser,
}

#[derive(Clone, Debug)]
pub struct AniListUser {
    pub id: u64,
    pub name: String,
    pub about: Option<String>,
    pub avatar: UserAvatar,
    pub site_url: String,
    pub statistics: UserStatistics,
}

#[derive(Clone, Debug)]
pub struct UserAvatar {
    pub large: Option<String>,
}

#[derive(Clone, Debug)]
pub struct UserStatistics {
    pub anime: AnimeStats,
    pub manga: MangaStats,
}

#[derive(Clone, Debug)]
pub struct AnimeStats {
    pub count: u32,
    pub episodes_watched: u32,
    pub minutes_watched: u32,
    /// The mean score rendered with one decimal place.
    pub mean_score_text: String,
    pub genres: Vec<UserGenreStatistic>,
}

#[derive(Clone, Debug)]
pub struct UserGenreStatistic {
    pub genre: String,
    pub count: u32,
}

#[derive(Clone, Debug)]
pub struct MangaStats {
    pub count: u32,
    pub chapters_read: u32,
    /// The mean score rendered with one decimal place.
    pub mean_score_text: String,
}

#[derive(Clone, Debug)]
pub struct MediaListCollectionData {
    pub collection: MediaListCollection,
}

#[derive(Clone, Debug)]
pub struct MediaListCollection {
    pub lists: Vec<MediaList>,
}

#[derive(Clone, Debug)]
pub struct MediaList {
    pub name: String,
    pub entries: Vec<MediaListEntry>,
}

#[derive(Clone, Debug)]
pub struct MediaListEntry {
    pub status: String,
    /// Whether the list score is positive (the entry has been scored).
    pub scored: bool,
    /// The list score as AniList renders it (the number's shortest text).
    pub score_text: String,
    pub progress: u32,
    pub media: MediaListNode,
}

#[derive(Clone, Debug)]
pub struct MediaListNode {
    pub id: u64,
    pub title: MediaTitle,
    pub site_url: String,
}

#[derive(Clone, Debug)]
pub struct GenreCollectionData {
    pub genres: Vec<String>,
}

#[derive(Clone, Debug)]
pub struct StaffBirthdayData {
    pub page: StaffBirthdayPage,
}

#[derive(Clone, Debug)]
pub struct StaffBirthdayPage {
    pub staff: Vec<StaffBirthday>,
}

#[derive(Clone, Debug)]
pub struct StaffBirthday {
    pub id: u64,
    pub name: StaffNameFull,
    pub image: StaffImage,
    pub site_url: String,
}

#[derive(Clone, Debug)]
pub struct AutocompleteMediaItem {
    pub id: u64,
    pub title: MediaTitle,
    pub format: Option<String>,
}

#[derive(Clone, Debug)]
pub struct AutocompleteMediaPage {
    pub media: Vec<AutocompleteMediaItem>,
}

#[derive(Clone, Debug)]
pub struct AutocompleteMediaData {
    pub page: AutocompleteMediaPage,
}

#[derive(Clone, Debug)]
pub struct AutocompleteNameItem {
    pub id: u64,
    pub name: AutocompleteName,
}

#[derive(Clone, Debug)]
pub struct AutocompleteName {
    pub full: Option<String>,
}

#[derive(Clone, Debug)]
pub struct AutocompleteNamePage {
    pub characters: Option<Vec<AutocompleteNameItem>>,
    pub staff: Option<Vec<AutocompleteNameItem>>,
}

#[derive(Clone, Debug)]
pub struct AutocompleteNameData {
    pub page: AutocompleteNamePage,
}

#[derive(Clone, Debug)]
pub struct AutocompleteStudioItem {
    pub id: u64,
    pub name: String,
}

#[derive(Clone, Debug)]
pub struct AutocompleteStudioPage {
    pub studios: Vec<AutocompleteStudioItem>,
}

#[derive(Clone, Debug)]
pub struct AutocompleteStudioData {
    pub page: AutocompleteStudioPage,
}

#[derive(Clone, Debug)]
pub struct AniListErrorResponse {
    pub errors: Vec<AniListApiError>,
}

#[derive(Clone, Debug)]
pub struct AniListApiError {
    pub message: String,
    pub status: Option<u16>,
}

// ─── Titles and names ────────────────────────────────────────────────────────

/// A name, or the given fallback when it is absent.
pub open spec fn or_default(o: Option<String>, fallback: Seq<char>) -> Seq<char> {
    match o {
        Some(s) => s@,
        None => fallback,
    }
}

/// The English title, else the Romaji one, else the native one, else
/// "Unknown Title".
pub open spec fn preferred_title(t: MediaTitle) -> Seq<char> {
    match t.english {
        Some(s) => s@,
        None => match t.romaji {
            Some(s) => s@,
            None => or_default(t.native, "Unknown Title"@),
        },
    }
}

/// The title in the requested language ("Unknown Title" when AniList has
/// none in it), or the preferred title when no language is requested.
pub open spec fn title_in(t: MediaTitle, lang: Option<TitleLanguage>) -> Seq<char> {
    match lang {
        Some(TitleLanguage::Romaji) => or_default(t.romaji, "Unknown Title"@),
        Some(TitleLanguage::English) => or_default(t.english, "Unknown Title"@),
        Some(TitleLanguage::Native) => or_default(t.native, "Unknown Title"@),
        None => preferred_title(t),
    }
}

fn name_or<'a>(o: &'a Option<String>, fallback: &'a str) -> (r: &'a str)
    ensures
        r@ == or_default(*o, fallback@),
{
    match o {
        Some(s) => s.as_str(),
        None => fallback,
    }
}

impl MediaTitle {
    /// English, else Romaji, else native title, else "Unknown Title".
    pub fn preferred(&self) -> (r: &str)
        ensures
            r@ == preferred_title(*self),
    {
        match &self.english {
            Some(s) => s.as_str(),
            None => match &self.romaji {
                Some(s) => s.as_str(),
                None => name_or(&self.native, "Unknown Title"),
            },
        }
    }

    /// The title in `lang`, or the preferred title when `lang` is `None`.
    pub fn get_title(&self, lang: Option<TitleLanguage>) -> (r: &str)
        ensures
            r@ == title_in(*self, lang),
    {
        match lang {
            Some(TitleLanguage::Romaji) => self.romaji(),
            Some(TitleLanguage::English) => self.english(),
            Some(TitleLanguage::Native) => self.native(),
            None => self.preferred(),
        }
    }

    /// The Romaji title, or "Unknown Title".
    pub fn romaji(&self) -> (r: &str)
        ensures
            r@ == or_default(self.romaji, "Unknown Title"@),
    {
        name_or(&self.romaji, "Unknown Title")
    }

    /// The English title, or "Unknown Title".
    pub fn english(&self) -> (r: &str)
        ensures
            r@ == or_default(self.english, "Unknown Title"@),
    {
        name_or(&self.english, "Unknown Title")
    }

    /// The native title, or "Unknown Title".
    pub fn native(&self) -> (r: &str)
        ensures
            r@ == or_default(self.native, "Unknown Title"@),
    {
        name_or(&self.native, "Unknown Title")
    }
}

impl CharacterName {
    /// The full name, or "Unknown".
    pub fn preferred(&self) -> (r: &str)
        ensures
            r@ == or_default(self.full, "Unknown"@),
    {
        name_or(&self.full, "Unknown")
    }
}

impl StaffNameFull {
    /// The full name, or "Unknown".
    pub fn preferred(&self) -> (r: &str)
        ensures
            r@ == or_default(self.full, "Unknown"@),
    {
        name_or(&self.full, "Unknown")
    }
}

// ─── Dates and countdowns ────────────────────────────────────────────────────

/// "Y-MM-DD", "Y-MM" or "Y" for as much of the date as is known from the
/// year on, "Unknown" otherwise.
pub open spec fn fuzzy_date_text(d: FuzzyDate) -> Seq<char> {
    match (d.year, d.month, d.day) {
        (Some(y), Some(m), Some(dd)) =>
            dec(y as nat) + "-"@ + dec2(m as nat) + "-"@ + dec2(dd as nat),
        (Some(y), Some(m), None) => dec(y as nat) + "-"@ + dec2(m as nat),
        (Some(y), None, None) => dec(y as nat),
        _ => "Unknown"@,
    }
}

impl FuzzyDate {
    /// The known part of the date, zero-padding month and day.
    pub fn display(&self) -> (s: String)
        ensures
            s@ == fuzzy_date_text(*self),
    {
        match (self.year, self.month, self.day) {
            (Some(y), Some(m), Some(d)) => {
                let mut s = u64_to_string(y as u64);
                s.append("-");
                let ms = u64_to_string2(m as u64);
                s.append(ms.as_str());
                s.append("-");
                let ds = u64_to_string2(d as u64);
                s.append(ds.as_str());
                s
            },
            (Some(y), Some(m), None) => {
                let mut s = u64_to_string(y as u64);
                s.append("-");
                let ms = u64_to_string2(m as u64);
                s.append(ms.as_str());
                s
            },
            (Some(y), None, None) => u64_to_string(y as u64),
            _ => owned("Unknown"),
        }
    }
}

/// Seconds until airing, negative values counted as zero.
pub open spec fn seconds_left(e: NextAiringEpisode) -> nat {
    if e.time_until_airing < 0 { 0 } else { e.time_until_airing as nat }
}

/// "Mm" under an hour, "Hh Mm" under a day, "Dd Hh Mm" from a day on.
pub open spec fn countdown_text(total: nat) -> Seq<char> {
    let days = total / 86400;
    let hours = (total % 86400) / 3600;
    let minutes = (total % 3600) / 60;
    if days == 0 && hours == 0 {
        dec(minutes) + "m"@
    } else if days == 0 {
        dec(hours) + "h "@ + dec(minutes) + "m"@
    } else {
        dec(days) + "d "@ + dec(hours) + "h "@ + dec(minutes) + "m"@
    }
}

impl NextAiringEpisode {
    /// Time until the episode airs, as days, hours and minutes.
    pub fn countdown(&self) -> (s: String)
        ensures
            s@ == countdown_text(seconds_left(*self)),
    {
        let total: u64 = if self.time_until_airing < 0 { 0 } else { self.time_until_airing as u64 };
        let days = total / 86400;
        let hours = (total % 86400) / 3600;
        let minutes = (total % 3600) / 60;
        if days == 0 && hours == 0 {
            let mut s = u64_to_string(minutes);
            s.append("m");
            s
        } else if days == 0 {
            let mut s = u64_to_string(hours);
            s.append("h ");
            let m = u64_to_string(minutes);
            s.append(m.as_str());
            s.append("m");
            s
        } else {
            let mut s = u64_to_string(days);
            s.append("d ");
            let h = u64_to_string(hours);
            s.append(h.as_str());
            s.append("h ");
            let m = u64_to_string(minutes);
            s.append(m.as_str());
            s.append("m");
            s
        }
    }
}

// ─── Copies ──────────────────────────────────────────────────────────────────

/// A copy of an optional text.
pub fn copy_opt_string(o: &Option<String>) -> (r: Option<String>)
    ensures
        r == *o,
{
    match o {
        Some(s) => Some(s.clone()),
        None => None,
    }
}

/// A copy of a title.
pub fn copy_title(t: &MediaTitle) -> (r: MediaTitle)
    ensures
        r == *t,
{
    MediaTitle {
        romaji: copy_opt_string(&t.romaji),
        english: copy_opt_string(&t.english),
        native: copy_opt_string(&t.native),
    }
}

/// A copy of a list entry's title record.
pub fn copy_list_node(n: &MediaListNode) -> (r: MediaListNode)
    ensures
        r == *n,
{
    MediaListNode { id: n.id, title: copy_title(&n.title), site_url: n.site_url.clone() }
}

} // verus!
