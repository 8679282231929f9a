//! The structured response payload ("embed") sent back for an interaction.
use vstd::prelude::*;

verus! {

/// Colour of an embed that reports an error.
pub const ERROR_COLOR: u32 = 0xff5036;

/// Footer text on every embed the bot writes itself.
pub const FOOTER_TEXT: &'static str = "Republic of Discord";

/// Footer icon on every embed the bot writes itself.
pub const FOOTER_ICON_URL: &'static str = "https://i.imgur.com/mwRuYOs.png";

/// Title of an error embed.
pub const ERROR_TITLE: &'static str = "An error has occurred,";

/// Value of one embed field: text or a number.
#[derive(Debug, Clone, PartialEq, Eq)]
pub enum FieldValue {
    Text(String),
    Number(u64),
}

/// One named field of an embed.
#[derive(Debug, Clone, PartialEq, Eq)]
pub struct Field {
    pub name: String,
    pub value: FieldValue,
    pub inline: bool,
}

/// Footer of an embed: a line of text and an icon.
#[derive(Debug, Clone, PartialEq, Eq)]
pub struct Footer {
    pub text: String,
    pub icon_url: String,
}

/// A rich structured message.
#[derive(Debug, Clone, PartialEq, Eq)]
pub struct Embed {
    pub title: Option<String>,
    pub description: Option<String>,
    pub color: Option<u32>,
    pub footer: Option<Footer>,
    /// ISO-8601 time stamp.
    pub timestamp: Option<String>,
    pub fields: Vec<Field>,
}

/// The payload of an interaction response: one embed.
#[derive(Debug, Clone, PartialEq, Eq)]
pub struct ResponseData {
    pub embed: Embed,
}

/// `t` occurs in `s` as a contiguous run.
pub open spec fn contains(s: Seq<char>, t: Seq<char>) -> bool {
    exists|i: int| 0 <= i && i + t.len() <= s.len() && #[trigger] s.subrange(i, i + t.len()) == t
}

/// `s` wrapped in backticks, the inline-code style of the platform.
pub open spec fn in_backticks(s: Seq<char>) -> Seq<char> {
    seq!['`'] + s + seq!['`']
}

/// `f` is the footer the bot writes on its own embeds.
pub open spec fn is_bot_footer(f: Option<Footer>) -> bool {
    &&& f is Some
    &&& f->Some_0.text@ == FOOTER_TEXT@
    &&& f->Some_0.icon_url@ == FOOTER_ICON_URL@
}

/// `d` is an error response whose description is `description` and whose time
/// stamp is `timestamp`.
pub open spec fn is_error_response(d: ResponseData, description: Seq<char>, timestamp: Seq<char>) -> bool {
    let e = d.embed;
    &&& e.title is Some && e.title->Some_0@ == ERROR_TITLE@
    &&& e.description is Some && e.description->Some_0@ == description
    &&& e.color == Some(ERROR_COLOR)
    &&& is_bot_footer(e.footer)
    &&& e.timestamp is Some && e.timestamp->Some_0@ == timestamp
    &&& e.fields@.len() == 0
}

/// The text of an optional string.
pub open spec fn text_of(s: Option<String>) -> Option<Seq<char>> {
    match s {
        Some(t) => Some(t@),
        None => None,
    }
}

/// `a` and `b` show the same thing to a user.
pub open spec fn shows_same(a: ResponseData, b: ResponseData) -> bool {
    &&& text_of(a.embed.title) == text_of(b.embed.title)
    &&& text_of(a.embed.description) == text_of(b.embed.description)
    &&& a.embed.color == b.embed.color
    &&& a.embed.footer is Some <==> b.embed.footer is Some
    &&& a.embed.footer is Some ==> {
        &&& a.embed.footer->Some_0.text@ == b.embed.footer->Some_0.text@
        &&& a.embed.footer->Some_0.icon_url@ == b.embed.footer->Some_0.icon_url@
    }
    &&& text_of(a.embed.timestamp) == text_of(b.embed.timestamp)
    &&& a.embed.fields@ == b.embed.fields@
}

/// `message` wrapped in backticks.
pub fn backticked(message: &str) -> (r: String)
    ensures
        r@ == in_backticks(message@),
{
    let mut r = "`".to_owned();
    r.append(message);
    r.append("`");
    proof {
        reveal_strlit("`");
    }
    assert(r@ =~= in_backticks(message@));
    r
}

impl Footer {
    /// The footer the bot writes on its own embeds.
    pub fn bot() -> (r: Footer)
        ensures
            is_bot_footer(Some(r)),
    {
        Footer { text: FOOTER_TEXT.to_owned(), icon_url: FOOTER_ICON_URL.to_owned() }
    }
}

impl Embed {
    /// An embed that holds only `fields`.
    pub fn with_fields(fields: Vec<Field>) -> (r: Embed)
        ensures
            r.title is None,
            r.description is None,
            r.color is None,
            r.footer is None,
            r.timestamp is None,
            r.fields == fields,
    {
        Embed {
            title: None,
            description: None,
            color: None,
            footer: None,
            timestamp: None,
            fields,
        }
    }
}

impl ResponseData {
    /// An error response with `description`, stamped with `timestamp`.
    pub fn error(description: String, timestamp: String) -> (r: ResponseData)
        ensures
            is_error_response(r, description@, timestamp@),
    {
        ResponseData {
            embed: Embed {
                title: Some(ERROR_TITLE.to_owned()),
                description: Some(description),
                color: Some(ERROR_COLOR),
                footer: Some(Footer::bot()),
                timestamp: Some(timestamp),
                fields: Vec::new(),
            },
        }
    }
}

} // verus!
