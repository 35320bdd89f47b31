//! Builds the notification payload for one newly discovered record. The
//! delivery itself (the webhook POST) happens outside the library; this
//! module fixes exactly what the message says.

use vstd::prelude::*;
use vstd::string::StringExecFns;

use crate::models::{DiscordEmbed, DiscordField, DiscordImage, DiscordMessage, DiscordThumbnail, Jacket};

verus! {

/// The embed accent color.
pub const EMBED_COLOR: u32 = 0x005865F2;

/// The first millisecond timestamp the calendar rendering is promised
/// for: the start of year 1.
pub const MIN_RENDERABLE_MILLIS: i64 = -62135596800000;

/// The last millisecond timestamp the calendar rendering is promised
/// for: the end of year 9999.
pub const MAX_RENDERABLE_MILLIS: i64 = 253402300799999;

/// Names the RFC 3339 rendering of a UTC timestamp in milliseconds.
pub uninterp spec fn rfc3339_of(ms: int) -> Seq<char>;

/// Relies on `chrono::DateTime::from_timestamp_millis` and
/// `DateTime::to_rfc3339`: the rendering depends on the millisecond
/// value alone; out-of-range values give `None`, and every value from
/// year 1 through year 9999 is in chrono's documented range.
#[verifier::external_body]
fn render_rfc3339(ms: i64) -> (r: Option<String>)
    ensures
        r matches Some(s) ==> s@ == rfc3339_of(ms as int),
        MIN_RENDERABLE_MILLIS <= ms <= MAX_RENDERABLE_MILLIS ==> r is Some,
{
    chrono::DateTime::<chrono::Utc>::from_timestamp_millis(ms).map(|dt| dt.to_rfc3339())
}

/// The timestamp string carried by the message for a record: the RFC
/// 3339 rendering, or empty where the timestamp lies outside the
/// renderable years.
pub open spec fn stamp_of(ms: int) -> Seq<char> {
    if MIN_RENDERABLE_MILLIS as int <= ms <= MAX_RENDERABLE_MILLIS as int {
        rfc3339_of(ms)
    } else {
        Seq::empty()
    }
}

fn stamp_for(ms: i64) -> (r: String)
    ensures
        r@ == stamp_of(ms as int),
{
    if MIN_RENDERABLE_MILLIS <= ms && ms <= MAX_RENDERABLE_MILLIS {
        match render_rfc3339(ms) {
            Some(s) => s,
            None => {
                proof {
                    assert(false);
                }
                String::new()
            },
        }
    } else {
        String::new()
    }
}

/// Builds the notification message for one record: one embed whose
/// description is the record's title, whose link is the record's URL,
/// whose images are the record's image, and whose fields carry the
/// price and a markdown link.
pub fn build_notification_message(jacket: &Jacket) -> (r: DiscordMessage)
    ensures
        r.embeds@.len() == 1,
        r.embeds@[0].title@ == "🧥 New N-1 Deck Jacket Found!"@,
        r.embeds@[0].description@ == jacket.title@,
        r.embeds@[0].url@ == jacket.url@,
        r.embeds@[0].color == EMBED_COLOR,
        r.embeds@[0].timestamp@ == stamp_of(jacket.discovered_at as int),
        (r.embeds@[0].thumbnail matches Some(t) && jacket.image_url matches Some(u) && t.url@ == u@)
            || (r.embeds@[0].thumbnail is None && jacket.image_url is None),
        (r.embeds@[0].image matches Some(m) && jacket.image_url matches Some(u) && m.url@ == u@)
            || (r.embeds@[0].image is None && jacket.image_url is None),
        r.embeds@[0].fields@.len() == 2,
        r.embeds@[0].fields@[0].name@ == "Price"@,
        r.embeds@[0].fields@[0].value@ == jacket.price@,
        r.embeds@[0].fields@[0].inline == true,
        r.embeds@[0].fields@[1].name@ == "Link"@,
        r.embeds@[0].fields@[1].value@ == "[View on Marrkt]("@ + jacket.url@ + ")"@,
        r.embeds@[0].fields@[1].inline == true,
{
    let timestamp = stamp_for(jacket.discovered_at);
    let thumbnail: Option<DiscordThumbnail> = match &jacket.image_url {
        Some(u) => Some(DiscordThumbnail { url: u.clone() }),
        None => None,
    };
    let image: Option<DiscordImage> = match &jacket.image_url {
        Some(u) => Some(DiscordImage { url: u.clone() }),
        None => None,
    };
    let link_value = "[View on Marrkt](".to_owned().concat(jacket.url.as_str()).concat(")");
    let mut fields: Vec<DiscordField> = Vec::new();
    fields.push(DiscordField { name: "Price".to_owned(), value: jacket.price.clone(), inline: true });
    fields.push(DiscordField { name: "Link".to_owned(), value: link_value, inline: true });
    let embed = DiscordEmbed {
        title: "🧥 New N-1 Deck Jacket Found!".to_owned(),
        description: jacket.title.clone(),
        url: jacket.url.clone(),
        color: EMBED_COLOR,
        timestamp,
        thumbnail,
        image,
        fields,
    };
    let mut embeds: Vec<DiscordEmbed> = Vec::new();
    embeds.push(embed);
    DiscordMessage { embeds }
}

} // verus!
