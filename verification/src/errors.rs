//! Errors from the AniList API and the embeds that explain them to users.

use vstd::prelude::*;
use crate::embed::{blank, Embed, EmbedView};
use crate::models::AniListApiError;
use crate::text::{owned, u64_to_string, dec};

verus! {

/// What went wrong talking to AniList.
#[derive(Clone, Debug)]
pub enum AniListError {
    /// AniList answered with an error.
    Api { message: String, status: Option<u16> },
    /// The thing asked for does not exist.
    NotFound { message: String },
    /// Too many requests.
    RateLimit,
    /// AniList could not be reached.
    Network(String),
    /// AniList's answer could not be read.
    Decode(String),
}

/// The error an entry of AniList's error list stands for: status 404 is
/// "not found", 429 is "rate limited", anything else an API error.
pub open spec fn api_error_spec(e: AniListApiError) -> AniListError {
    match e.status {
        Some(404) => AniListError::NotFound { message: e.message },
        Some(429) => AniListError::RateLimit,
        _ => AniListError::Api { message: e.message, status: e.status },
    }
}

impl From<AniListApiError> for AniListError {
    fn from(e: AniListApiError) -> (r: AniListError) {
        match e.status {
            Some(404) => AniListError::NotFound { message: e.message },
            Some(429) => AniListError::RateLimit,
            _ => AniListError::Api { message: e.message, status: e.status },
        }
    }
}

impl vstd::std_specs::convert::FromSpecImpl<AniListApiError> for AniListError {
    open spec fn obeys_from_spec() -> bool {
        true
    }

    open spec fn from_spec(e: AniListApiError) -> AniListError {
        api_error_spec(e)
    }
}

/// The error for the first entry of AniList's error list, if there is one.
pub fn first_api_error(errors: Vec<AniListApiError>) -> (r: Option<AniListError>)
    ensures
        r == (if errors@.len() == 0 { None } else { Some(api_error_spec(errors@[0])) }),
{
    let mut errors = errors;
    if errors.len() == 0 {
        None
    } else {
        let first = errors.remove(0);
        Some(AniListError::from(first))
    }
}

/// The error for an HTTP error status: 429 means rate limited, any other
/// status is an API error carrying the status and the client's message.
pub open spec fn http_error_spec(status_code: u16, message: String) -> AniListError {
    if status_code == 429 {
        AniListError::RateLimit
    } else {
        AniListError::Api { message, status: Some(status_code) }
    }
}

/// The error for an HTTP error status.
pub fn http_status_error(status_code: u16, message: String) -> (r: AniListError)
    ensures
        r == http_error_spec(status_code, message),
{
    if status_code == 429 {
        AniListError::RateLimit
    } else {
        AniListError::Api { message, status: Some(status_code) }
    }
}

// ─── Error embeds ────────────────────────────────────────────────────────────

pub const RED: u32 = 0xe74c3c;
pub const ORANGE: u32 = 0xe67e22;
pub const YELLOW: u32 = 0xf1c40f;
pub const GREY: u32 = 0x95a5a6;

/// The text an error carries: its message, or "Rate Limit Exceeded".
pub open spec fn error_message(e: AniListError) -> Seq<char> {
    match e {
        AniListError::Api { message, .. } => message@,
        AniListError::NotFound { message } => message@,
        AniListError::RateLimit => "Rate Limit Exceeded"@,
        AniListError::Network(m) => m@,
        AniListError::Decode(m) => m@,
    }
}

/// The HTTP status an error carries, if any.
pub open spec fn error_status(e: AniListError) -> Option<u16> {
    match e {
        AniListError::Api { status, .. } => status,
        _ => None,
    }
}

/// Colour, heading and advice for each kind of error.
pub open spec fn error_presentation(e: AniListError) -> (u32, Seq<char>, Seq<char>) {
    match e {
        AniListError::NotFound { .. } => (
            GREY,
            "Not Found"@,
            "Double-check the spelling. AniList search is exact — try the Romaji or English title."@,
        ),
        AniListError::RateLimit => (
            YELLOW,
            "Rate Limited"@,
            "The bot has sent too many requests to AniList. Wait a few seconds and try again."@,
        ),
        AniListError::Network(_) => (
            ORANGE,
            "Network Error"@,
            "Could not reach the AniList API. This is usually temporary — try again shortly."@,
        ),
        AniListError::Decode(_) => (
            ORANGE,
            "Unexpected Response"@,
            "AniList returned data in an unexpected format. The API may have changed."@,
        ),
        AniListError::Api { .. } => (
            RED,
            "AniList API Error"@,
            "AniList returned an error. See the detail below."@,
        ),
    }
}

/// The embed explaining an AniList error.
pub open spec fn anilist_error_embed_spec(e: AniListError) -> EmbedView {
    let (colour, title, advice) = error_presentation(e);
    let base = blank().title("❌  "@ + title).colour(colour).field(
        "Detail"@,
        "```\n"@ + error_message(e) + "\n```"@,
        false,
    ).field("Advice"@, advice, false);
    match error_status(e) {
        Some(code) => base.footer("HTTP status "@ + dec(code as nat)),
        None => base,
    }
}

fn message_of(e: &AniListError) -> (m: String)
    ensures
        m@ == error_message(*e),
{
    match e {
        AniListError::Api { message, .. } => message.clone(),
        AniListError::NotFound { message } => message.clone(),
        AniListError::RateLimit => owned("Rate Limit Exceeded"),
        AniListError::Network(m) => m.clone(),
        AniListError::Decode(m) => m.clone(),
    }
}

/// The embed explaining an AniList error: its kind, detail and advice.
pub fn anilist_error_embed(err: &AniListError) -> (e: Embed)
    ensures
        e@ == anilist_error_embed_spec(*err),
{
    let (colour, title, advice): (u32, &str, &str) = match err {
        AniListError::NotFound { .. } => (
            GREY,
            "Not Found",
            "Double-check the spelling. AniList search is exact — try the Romaji or English title.",
        ),
        AniListError::RateLimit => (
            YELLOW,
            "Rate Limited",
            "The bot has sent too many requests to AniList. Wait a few seconds and try again.",
        ),
        AniListError::Network(_) => (
            ORANGE,
            "Network Error",
            "Could not reach the AniList API. This is usually temporary — try again shortly.",
        ),
        AniListError::Decode(_) => (
            ORANGE,
            "Unexpected Response",
            "AniList returned data in an unexpected format. The API may have changed.",
        ),
        AniListError::Api { .. } => (
            RED,
            "AniList API Error",
            "AniList returned an error. See the detail below.",
        ),
    };
    let mut e = Embed::new();
    let mut t = owned("❌  ");
    t.append(title);
    e.title = Some(t);
    e.colour = Some(colour);
    let mut detail = owned("```\n");
    let m = message_of(err);
    detail.append(m.as_str());
    detail.append("\n```");
    e.add_field(owned("Detail"), detail, false);
    e.add_field(owned("Advice"), owned(advice), false);
    match err {
        AniListError::Api { status: Some(code), .. } => {
            let mut f = owned("HTTP status ");
            let c = u64_to_string(*code as u64);
            f.append(c.as_str());
            e.footer = Some(f);
        },
        _ => {},
    }
    e
}

/// The embed for an error that is not one of AniList's: its text in a
/// code block.
pub open spec fn generic_error_embed_spec(text: Seq<char>) -> EmbedView {
    blank().title("Something went wrong"@).description("```\n"@ + text + "\n```"@).colour(
        RED,
    ).footer("If this keeps happening, the bot may be misconfigured."@)
}

/// The embed for any error: the AniList explanation when the error is an
/// AniList one, otherwise the error's text.
pub fn error_embed_from(anilist: Option<&AniListError>, text: &str) -> (e: Embed)
    ensures
        e@ == match anilist {
            Some(a) => anilist_error_embed_spec(*a),
            None => generic_error_embed_spec(text@),
        },
{
    match anilist {
        Some(a) => anilist_error_embed(a),
        None => {
            let mut e = Embed::new();
            e.title = Some(owned("Something went wrong"));
            let mut d = owned("```\n");
            d.append(text);
            d.append("\n```");
            e.description = Some(d);
            e.colour = Some(RED);
            e.footer = Some(owned("If this keeps happening, the bot may be misconfigured."));
            e
        },
    }
}

/// The embed for a search that matched nothing.
pub open spec fn not_found_embed_spec(entity: Seq<char>, query: Seq<char>) -> EmbedView {
    blank().title("❌  "@ + entity + " Not Found"@).description(
        "No results for **"@ + query + "**.\nTry a different spelling or use the Romaji title."@,
    ).colour(GREY)
}

/// The embed for a search that matched nothing.
pub fn not_found_embed(entity: &str, query: &str) -> (e: Embed)
    ensures
        e@ == not_found_embed_spec(entity@, query@),
{
    let mut e = Embed::new();
    let mut t = owned("❌  ");
    t.append(entity);
    t.append(" Not Found");
    e.title = Some(t);
    let mut d = owned("No results for **");
    d.append(query);
    d.append("**.\nTry a different spelling or use the Romaji title.");
    e.description = Some(d);
    e.colour = Some(GREY);
    e
}

} // verus!
