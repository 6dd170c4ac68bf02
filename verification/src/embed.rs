//! A plain description of a Discord embed: what the bot shows, independent
//! of the client library that sends it.

use vstd::prelude::*;

verus! {

/// One titled field of an embed.
#[derive(Clone, Debug)]
pub struct EmbedField {
    pub name: String,
    pub value: String,
    pub inline: bool,
}

/// An embed: title, link, text, colour, footer, fields and pictures.
#[derive(Clone, Debug)]
pub struct Embed {
    pub title: Option<String>,
    pub url: Option<String>,
    pub description: Option<String>,
    pub colour: Option<u32>,
    pub footer: Option<String>,
    pub fields: Vec<EmbedField>,
    pub thumbnail: Option<String>,
    pub image: Option<String>,
    /// Whether the embed is stamped with the time it is sent.
    pub timestamp_now: bool,
}

/// The content of an embed, as text.
pub struct EmbedView {
    pub title: Option<Seq<char>>,
    pub url: Option<Seq<char>>,
    pub description: Option<Seq<char>>,
    pub colour: Option<u32>,
    pub footer: Option<Seq<char>>,
    pub fields: Seq<(Seq<char>, Seq<char>, bool)>,
    pub thumbnail: Option<Seq<char>>,
    pub image: Option<Seq<char>>,
    pub timestamp_now: bool,
}

/// The text of an optional string.
pub open spec fn opt_view(o: Option<String>) -> Option<Seq<char>> {
    match o {
        Some(s) => Some(s@),
        None => None,
    }
}

/// A field as (name, value, inline).
pub open spec fn field_view(f: EmbedField) -> (Seq<char>, Seq<char>, bool) {
    (f.name@, f.value@, f.inline)
}

impl View for Embed {
    type V = EmbedView;

    open spec fn view(&self) -> EmbedView {
        EmbedView {
            title: opt_view(self.title),
            url: opt_view(self.url),
            description: opt_view(self.description),
            colour: self.colour,
            footer: opt_view(self.footer),
            fields: self.fields@.map_values(|f: EmbedField| field_view(f)),
            thumbnail: opt_view(self.thumbnail),
            image: opt_view(self.image),
            timestamp_now: self.timestamp_now,
        }
    }
}

/// An embed with nothing set.
pub open spec fn blank() -> EmbedView {
    EmbedView {
        title: None,
        url: None,
        description: None,
        colour: None,
        footer: None,
        fields: seq![],
        thumbnail: None,
        image: None,
        timestamp_now: false,
    }
}

impl EmbedView {
    pub open spec fn title(self, t: Seq<char>) -> EmbedView {
        EmbedView { title: Some(t), ..self }
    }

    pub open spec fn url(self, u: Seq<char>) -> EmbedView {
        EmbedView { url: Some(u), ..self }
    }

    pub open spec fn description(self, d: Seq<char>) -> EmbedView {
        EmbedView { description: Some(d), ..self }
    }

    pub open spec fn colour(self, c: u32) -> EmbedView {
        EmbedView { colour: Some(c), ..self }
    }

    pub open spec fn footer(self, f: Seq<char>) -> EmbedView {
        EmbedView { footer: Some(f), ..self }
    }

    pub open spec fn field(self, name: Seq<char>, value: Seq<char>, inline: bool) -> EmbedView {
        EmbedView { fields: self.fields.push((name, value, inline)), ..self }
    }

    pub open spec fn thumbnail(self, u: Seq<char>) -> EmbedView {
        EmbedView { thumbnail: Some(u), ..self }
    }

    pub open spec fn image(self, u: Seq<char>) -> EmbedView {
        EmbedView { image: Some(u), ..self }
    }

    pub open spec fn with_fields(self, extra: Seq<(Seq<char>, Seq<char>, bool)>) -> EmbedView {
        EmbedView { fields: self.fields + extra, ..self }
    }

    pub open spec fn stamped(self) -> EmbedView {
        EmbedView { timestamp_now: true, ..self }
    }
}

impl Embed {
    /// An embed with nothing set.
    pub fn new() -> (e: Embed)
        ensures
            e@ == blank(),
    {
        let e = Embed {
            title: None,
            url: None,
            description: None,
            colour: None,
            footer: None,
            fields: Vec::new(),
            thumbnail: None,
            image: None,
            timestamp_now: false,
        };
        assert(e@.fields =~= seq![]);
        e
    }

    /// Appends a field.
    pub fn add_field(&mut self, name: String, value: String, inline: bool)
        ensures
            final(self)@ == old(self)@.field(name@, value@, inline),
    {
        let ghost before = self.fields@;
        self.fields.push(EmbedField { name, value, inline });
        proof {
            assert(self.fields@.map_values(|f: EmbedField| field_view(f)) =~= before.map_values(
                |f: EmbedField| field_view(f),
            ).push((name@, value@, inline)));
        }
    }
}

/// The embed colour: the guild's accent colour when set, else `default`.
pub open spec fn colour_for(guild_color: Option<u32>, default: u32) -> u32 {
    match guild_color {
        Some(c) => c,
        None => default,
    }
}

/// The embed colour: the guild's accent colour when set, else `default`.
pub fn get_color(guild_color: Option<u32>, default: u32) -> (c: u32)
    ensures
        c == colour_for(guild_color, default),
{
    match guild_color {
        Some(c) => c,
        None => default,
    }
}

} // verus!
