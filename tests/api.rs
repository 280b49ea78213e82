use freestuffapi::api::{
    object_empty_as_none, AnnouncementType, DecodeError, GameFlags, JsonShape, ProductKind,
    ServiceStatus, Store, Thumbnail,
};

fn thumbnail() -> Thumbnail {
    Thumbnail {
        org: "https://example.com/org.png".to_string(),
        blank: "https://example.com/blank.png".to_string(),
        full: "https://example.com/full.png".to_string(),
        tags: "https://example.com/tags.png".to_string(),
    }
}

#[test]
fn flags_trash_only() {
    let f = GameFlags::new(0b01);
    assert!(f.trash());
    assert!(!f.thirdparty());
}

#[test]
fn flags_thirdparty_only() {
    let f = GameFlags::new(0b10);
    assert!(!f.trash());
    assert!(f.thirdparty());
}

#[test]
fn flags_both() {
    let f = GameFlags::new(0b11);
    assert!(f.trash());
    assert!(f.thirdparty());
}

#[test]
fn flags_none() {
    let f = GameFlags::new(0);
    assert!(!f.trash());
    assert!(!f.thirdparty());
}

#[test]
fn flags_keep_reserved_bits() {
    let f = GameFlags::new(0b1111_0110);
    assert_eq!(f.inner(), 0b1111_0110);
    assert!(!f.trash());
    assert!(f.thirdparty());
    assert_eq!(GameFlags::new(255).inner(), 255);
}

#[test]
fn status_known_tags() {
    assert_eq!(ServiceStatus::from_tag("ok"), Some(ServiceStatus::Okay));
    assert_eq!(ServiceStatus::from_tag("partial"), Some(ServiceStatus::Partial));
    assert_eq!(ServiceStatus::from_tag("rebooting"), Some(ServiceStatus::Rebooting));
    assert_eq!(ServiceStatus::from_tag("fatal"), Some(ServiceStatus::Fatal));
}

#[test]
fn status_other_tags_fail() {
    assert_eq!(ServiceStatus::from_tag("OK"), None);
    assert_eq!(ServiceStatus::from_tag(""), None);
    assert_eq!(ServiceStatus::from_tag("down"), None);
    assert_eq!(ServiceStatus::from_tag("ok "), None);
}

#[test]
fn store_known_tags() {
    assert_eq!(Store::from_tag("steam"), Store::Steam);
    assert_eq!(Store::from_tag("epic"), Store::Epic);
    assert_eq!(Store::from_tag("gog"), Store::Gog);
    assert_eq!(Store::from_tag("ps"), Store::Ps);
    assert_eq!(Store::from_tag("xbox"), Store::Xbox);
}

#[test]
fn store_unknown_tag_kept_verbatim() {
    assert_eq!(Store::from_tag("Steam"), Store::Other("Steam".to_string()));
    assert_eq!(Store::from_tag("newstore"), Store::Other("newstore".to_string()));
    assert_eq!(Store::from_tag(""), Store::Other(String::new()));
}

#[test]
fn product_kind_tags() {
    assert_eq!(ProductKind::from_tag("game"), ProductKind::Game);
    assert_eq!(ProductKind::from_tag("dlc"), ProductKind::DLC);
    assert_eq!(ProductKind::from_tag("ost"), ProductKind::OST);
    assert_eq!(ProductKind::from_tag("DLC"), ProductKind::Other("DLC".to_string()));
    assert_eq!(ProductKind::from_tag("mod"), ProductKind::Other("mod".to_string()));
}

#[test]
fn announcement_tags() {
    assert_eq!(AnnouncementType::from_tag("free"), AnnouncementType::Free);
    assert_eq!(AnnouncementType::from_tag("weekend"), AnnouncementType::Weekend);
    assert_eq!(AnnouncementType::from_tag("discount"), AnnouncementType::Discount);
    assert_eq!(AnnouncementType::from_tag("ad"), AnnouncementType::Ad);
    assert_eq!(
        AnnouncementType::from_tag("Giveaway"),
        AnnouncementType::Unknown("Giveaway".to_string())
    );
}

#[test]
fn null_and_empty_object_are_absent() {
    assert_eq!(object_empty_as_none(JsonShape::Null, Some(thumbnail())), Ok(None));
    assert_eq!(object_empty_as_none::<Thumbnail>(JsonShape::Null, None), Ok(None));
    assert_eq!(object_empty_as_none(JsonShape::Object(0), Some(thumbnail())), Ok(None));
    assert_eq!(object_empty_as_none::<Thumbnail>(JsonShape::Object(0), None), Ok(None));
}

#[test]
fn non_empty_object_decodes_or_fails() {
    assert_eq!(object_empty_as_none(JsonShape::Object(4), Some(thumbnail())), Ok(Some(thumbnail())));
    assert_eq!(object_empty_as_none::<Thumbnail>(JsonShape::Object(1), None), Err(DecodeError));
    assert_eq!(object_empty_as_none::<Thumbnail>(JsonShape::Other, None), Err(DecodeError));
}
