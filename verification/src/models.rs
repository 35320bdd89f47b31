//! Data models: the extracted listing record and the notification
//! message shapes consumed by the delivery side.

use vstd::prelude::*;

verus! {

/// One extracted product listing.
///
/// `id` is derived deterministically from the site name and the canonical
/// URL; two records with the same `id` describe the same real-world item,
/// whatever their other fields say. `discovered_at` is the extraction
/// time in milliseconds since the Unix epoch.
#[derive(Debug, Clone)]
pub struct Jacket {
    pub id: String,
    pub title: String,
    pub price: String,
    pub url: String,
    pub image_url: Option<String>,
    pub discovered_at: i64,
}

/// Spec-level image of a [`Jacket`].
#[verifier::ext_equal]
pub struct JacketView {
    pub id: Seq<char>,
    pub title: Seq<char>,
    pub price: Seq<char>,
    pub url: Seq<char>,
    pub image_url: Option<Seq<char>>,
    pub discovered_at: int,
}

impl View for Jacket {
    type V = JacketView;

    open spec fn view(&self) -> JacketView {
        JacketView {
            id: self.id@,
            title: self.title@,
            price: self.price@,
            url: self.url@,
            image_url: match self.image_url {
                Some(u) => Some(u@),
                None => None,
            },
            discovered_at: self.discovered_at as int,
        }
    }
}

/// Rich embed content of one notification message.
#[derive(Debug)]
pub struct DiscordEmbed {
    pub title: String,
    pub description: String,
    pub url: String,
    pub color: u32,
    pub timestamp: String,
    pub thumbnail: Option<DiscordThumbnail>,
    pub image: Option<DiscordImage>,
    pub fields: Vec<DiscordField>,
}

/// Small preview image of an embed.
#[derive(Debug)]
pub struct DiscordThumbnail {
    pub url: String,
}

/// Full-size image of an embed.
#[derive(Debug)]
pub struct DiscordImage {
    pub url: String,
}

/// One key-value field of an embed.
#[derive(Debug)]
pub struct DiscordField {
    pub name: String,
    pub value: String,
    pub inline: bool,
}

/// Root payload of one notification message.
#[derive(Debug)]
pub struct DiscordMessage {
    pub embeds: Vec<DiscordEmbed>,
}

} // verus!
