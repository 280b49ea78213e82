//! Raw API types and the rules that decode them.
use vstd::prelude::*;

verus! {

/// Whether the string `s` is exactly the tag `lit`.
fn tag_is(s: &str, lit: &str) -> (r: bool)
    ensures
        r == (s@ == lit@),
{
    let a = s.to_owned();
    let b = lit.to_owned();
    a == b
}

/// Service status
#[derive(Debug, Clone, Copy, PartialEq, Eq, Structural)]
pub enum ServiceStatus {
    /// Everything is alright
    Okay,
    /// Service is experiencing partial disconnects / issues
    Partial,
    /// Sent on server startup
    Rebooting,
    /// Sent on error that requires human interaction
    Fatal,
}

/// The status that a wire tag names, if it is one of the four known tags.
pub open spec fn status_for_tag(s: Seq<char>) -> Option<ServiceStatus> {
    if s == "ok"@ {
        Some(ServiceStatus::Okay)
    } else if s == "partial"@ {
        Some(ServiceStatus::Partial)
    } else if s == "rebooting"@ {
        Some(ServiceStatus::Rebooting)
    } else if s == "fatal"@ {
        Some(ServiceStatus::Fatal)
    } else {
        None
    }
}

impl ServiceStatus {
    /// Decode a status tag; the set of tags is closed, so any other string is
    /// rejected.
    pub fn from_tag(s: &str) -> (r: Option<ServiceStatus>)
        ensures
            r == status_for_tag(s@),
    {
        if tag_is(s, "ok") {
            Some(ServiceStatus::Okay)
        } else if tag_is(s, "partial") {
            Some(ServiceStatus::Partial)
        } else if tag_is(s, "rebooting") {
            Some(ServiceStatus::Rebooting)
        } else if tag_is(s, "fatal") {
            Some(ServiceStatus::Fatal)
        } else {
            None
        }
    }
}

/// Game store
#[derive(Debug, Clone, PartialEq, Eq)]
pub enum Store {
    /// Steam
    Steam,
    /// Epic Games store
    Epic,
    /// Humble Bundle
    Humble,
    /// Good Old Games
    Gog,
    /// EA Origin
    Origin,
    /// Ubisoft UPlay
    Uplay,
    /// Twitch store
    Twitch,
    /// itch.io
    Itch,
    /// Discord Store
    Discord,
    /// Apple App Store
    Apple,
    /// Google Play Store
    Google,
    /// Nintendo Switch
    Switch,
    /// Playstation
    Ps,
    /// Microsoft Xbox
    Xbox,
    /// Other store, with the identifier as the API sent it
    Other(String),
}

/// The known store that a wire tag names, if any.
pub open spec fn store_for_tag(s: Seq<char>) -> Option<Store> {
    if s == "steam"@ {
        Some(Store::Steam)
    } else if s == "epic"@ {
        Some(Store::Epic)
    } else if s == "humble"@ {
        Some(Store::Humble)
    } else if s == "gog"@ {
        Some(Store::Gog)
    } else if s == "origin"@ {
        Some(Store::Origin)
    } else if s == "uplay"@ {
        Some(Store::Uplay)
    } else if s == "twitch"@ {
        Some(Store::Twitch)
    } else if s == "itch"@ {
        Some(Store::Itch)
    } else if s == "discord"@ {
        Some(Store::Discord)
    } else if s == "apple"@ {
        Some(Store::Apple)
    } else if s == "google"@ {
        Some(Store::Google)
    } else if s == "switch"@ {
        Some(Store::Switch)
    } else if s == "ps"@ {
        Some(Store::Ps)
    } else if s == "xbox"@ {
        Some(Store::Xbox)
    } else {
        None
    }
}

impl Store {
    /// Decode a store tag. Decoding never fails: a tag outside the known set
    /// is kept verbatim in `Store::Other`.
    pub fn from_tag(s: &str) -> (r: Store)
        ensures
            store_for_tag(s@) matches Some(k) ==> r == k,
            store_for_tag(s@) is None ==> (r matches Store::Other(o) && o@ == s@),
    {
        if tag_is(s, "steam") {
            Store::Steam
        } else if tag_is(s, "epic") {
            Store::Epic
        } else if tag_is(s, "humble") {
            Store::Humble
        } else if tag_is(s, "gog") {
            Store::Gog
        } else if tag_is(s, "origin") {
            Store::Origin
        } else if tag_is(s, "uplay") {
            Store::Uplay
        } else if tag_is(s, "twitch") {
            Store::Twitch
        } else if tag_is(s, "itch") {
            Store::Itch
        } else if tag_is(s, "discord") {
            Store::Discord
        } else if tag_is(s, "apple") {
            Store::Apple
        } else if tag_is(s, "google") {
            Store::Google
        } else if tag_is(s, "switch") {
            Store::Switch
        } else if tag_is(s, "ps") {
            Store::Ps
        } else if tag_is(s, "xbox") {
            Store::Xbox
        } else {
            Store::Other(s.to_owned())
        }
    }
}

/// Type of announcement
#[derive(Debug, Clone, PartialEq, Eq)]
pub enum AnnouncementType {
    /// Free to keep
    Free,
    /// Playable during weekend
    Weekend,
    /// Discount on game
    Discount,
    /// Advertisement
    Ad,
    /// Unknown announcement type, with the tag as the API sent it
    Unknown(String),
}

/// The known announcement type that a wire tag names, if any.
pub open spec fn announcement_for_tag(s: Seq<char>) -> Option<AnnouncementType> {
    if s == "free"@ {
        Some(AnnouncementType::Free)
    } else if s == "weekend"@ {
        Some(AnnouncementType::Weekend)
    } else if s == "discount"@ {
        Some(AnnouncementType::Discount)
    } else if s == "ad"@ {
        Some(AnnouncementType::Ad)
    } else {
        None
    }
}

impl AnnouncementType {
    /// Decode an announcement tag. Decoding never fails: a tag outside the
    /// known set is kept verbatim in `AnnouncementType::Unknown`.
    pub fn from_tag(s: &str) -> (r: AnnouncementType)
        ensures
            announcement_for_tag(s@) matches Some(k) ==> r == k,
            announcement_for_tag(s@) is None ==> (r matches AnnouncementType::Unknown(o) && o@
                == s@),
    {
        if tag_is(s, "free") {
            AnnouncementType::Free
        } else if tag_is(s, "weekend") {
            AnnouncementType::Weekend
        } else if tag_is(s, "discount") {
            AnnouncementType::Discount
        } else if tag_is(s, "ad") {
            AnnouncementType::Ad
        } else {
            AnnouncementType::Unknown(s.to_owned())
        }
    }
}


/// Type of product
#[derive(Debug, Clone, PartialEq, Eq)]
pub enum ProductKind {
    /// Game
    Game,
    /// Downloadable Content
    DLC,
    /// Software
    Software,
    /// Art
    Art,
    /// Original soundtrack
    OST,
    /// Book
    Book,
    /// Other products, with the tag as the API sent it
    Other(String),
}

/// The known product kind that a wire tag names, if any.
pub open spec fn product_for_tag(s: Seq<char>) -> Option<ProductKind> {
    if s == "game"@ {
        Some(ProductKind::Game)
    } else if s == "dlc"@ {
        Some(ProductKind::DLC)
    } else if s == "software"@ {
        Some(ProductKind::Software)
    } else if s == "art"@ {
        Some(ProductKind::Art)
    } else if s == "ost"@ {
        Some(ProductKind::OST)
    } else if s == "book"@ {
        Some(ProductKind::Book)
    } else {
        None
    }
}

impl ProductKind {
    /// Decode a product tag. Decoding never fails: a tag outside the known
    /// set is kept verbatim in `ProductKind::Other`.
    pub fn from_tag(s: &str) -> (r: ProductKind)
        ensures
            product_for_tag(s@) matches Some(k) ==> r == k,
            product_for_tag(s@) is None ==> (r matches ProductKind::Other(o) && o@ == s@),
    {
        if tag_is(s, "game") {
            ProductKind::Game
        } else if tag_is(s, "dlc") {
            ProductKind::DLC
        } else if tag_is(s, "software") {
            ProductKind::Software
        } else if tag_is(s, "art") {
            ProductKind::Art
        } else if tag_is(s, "ost") {
            ProductKind::OST
        } else if tag_is(s, "book") {
            ProductKind::Book
        } else {
            ProductKind::Other(s.to_owned())
        }
    }
}

/// Game URLs
#[derive(Debug, Clone, PartialEq, Eq)]
pub struct Urls {
    /// Recommended URL
    pub default: String,
    /// Opens in browser
    pub browser: String,
    /// Opens in related desktop client (i.e. steam://)
    pub client: Option<String>,
    /// Original URL
    pub org: String,
}

/// Thumbnail URLs
#[derive(Debug, Clone, PartialEq, Eq)]
pub struct Thumbnail {
    /// Original thumbnail image
    pub org: String,
    /// Proxied and properly cropped thumbnail image
    pub blank: String,
    /// Proxied image with all available extra info
    pub full: String,
    /// Proxied image with game tags above thumbnail
    pub tags: String,
}

/// Localized game info: display strings prepared for one locale.
#[derive(Debug, Clone, PartialEq, Eq)]
pub struct LocalizedGameInfo {
    /// Localized language name
    pub lang_name: String,
    /// Language name in English
    pub lang_name_en: String,
    /// Language flag emoji
    pub lang_flag_emoji: String,
    /// Platform name
    pub platform: String,
    /// Long claim phrase
    pub claim_long: String,
    /// Short claim phrase
    pub claim_short: String,
    /// Phrase for "free"
    pub free: String,
    /// Header line
    pub header: String,
    /// Footer line
    pub footer: String,
    /// Original price in euro, formatted
    pub org_price_eur: String,
    /// Original price in dollars, formatted
    pub org_price_usd: String,
    /// Expiry phrase
    pub until: String,
    /// Alternative expiry phrase
    pub until_alt: String,
    /// Descriptions of the product's flags
    pub flags: Vec<String>,
}

/// What a JSON value that stands for an optional object looks like.
#[derive(Debug, Clone, Copy, PartialEq, Eq, Structural)]
pub enum JsonShape {
    /// `null`
    Null,
    /// An object with the given number of keys
    Object(usize),
    /// Any other JSON value
    Other,
}

/// A response value did not have the shape that its record requires.
#[derive(Debug, Clone, Copy, PartialEq, Eq, Structural)]
pub struct DecodeError;

/// Whether a value of this shape stands for an absent object: `null` or `{}`.
pub open spec fn is_absent_shape(shape: JsonShape) -> bool {
    shape == JsonShape::Null || shape == JsonShape::Object(0)
}

/// Coalesce an optional object field. `shape` is what the field's JSON value
/// looks like, and `full` is that value decoded as the whole record, if it
/// decodes. `null` and the empty object both mean that the record is absent;
/// any other value must decode as the whole record.
pub fn object_empty_as_none<T>(shape: JsonShape, full: Option<T>) -> (r: Result<Option<T>, DecodeError>)
    ensures
        is_absent_shape(shape) ==> r == Ok::<Option<T>, DecodeError>(None),
        !is_absent_shape(shape) ==> r == (match full {
            Some(t) => Ok::<Option<T>, DecodeError>(Some(t)),
            None => Err(DecodeError),
        }),
{
    match shape {
        JsonShape::Null => Ok(None),
        JsonShape::Object(0) => Ok(None),
        _ => match full {
            Some(t) => Ok(Some(t)),
            None => Err(DecodeError),
        },
    }
}

/// Game flags: bit 0 marks a low-quality product, bit 1 a third-party key
/// provider; the other bits are kept but not interpreted.
#[derive(Debug, Clone, Copy, PartialEq, Eq, Structural)]
pub struct GameFlags(pub u8);

impl GameFlags {
    /// Wrap a raw flag byte; every byte value is accepted.
    pub fn new(bits: u8) -> (r: GameFlags)
        ensures
            r.0 == bits,
    {
        GameFlags(bits)
    }

    /// Get raw bitflag number
    pub fn inner(&self) -> (r: u8)
        ensures
            r == self.0,
    {
        self.0
    }

    fn bit(&self, bit: usize) -> (r: bool)
        requires
            bit < 8,
        ensures
            r == ((self.0 >> bit as u8) & 1u8 == 1u8),
    {
        let b: u8 = bit as u8;
        (self.0 >> b) & 1 == 1
    }

    /// Low quality game
    pub fn trash(&self) -> (r: bool)
        ensures
            r == (self.0 % 2 == 1),
    {
        let x = self.0;
        assert(((x >> 0u8) & 1u8 == 1u8) == (x % 2 == 1)) by (bit_vector);
        self.bit(0)
    }

    /// Third party key provider
    pub fn thirdparty(&self) -> (r: bool)
        ensures
            r == ((self.0 / 2) % 2 == 1),
    {
        let x = self.0;
        assert(((x >> 1u8) & 1u8 == 1u8) == ((x / 2) % 2 == 1)) by (bit_vector);
        self.bit(1)
    }
}

} // verus!
