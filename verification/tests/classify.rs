use skin_cases::{ItemContainerType, ItemSkinType, SkinRarity, SkinWear, contains_str, str_eq};

#[test]
fn rarity_known_labels() {
    assert_eq!(SkinRarity::from_str("Rare Special Items"), SkinRarity::Covert);
    assert_eq!(SkinRarity::from_str("Covert Skins"), SkinRarity::Covert);
    assert_eq!(SkinRarity::from_str("Classified Skins"), SkinRarity::Classified);
    assert_eq!(SkinRarity::from_str("Restricted Skins"), SkinRarity::Restricted);
    assert_eq!(SkinRarity::from_str("Mil-Spec Skins"), SkinRarity::MilSpec);
    assert_eq!(
        SkinRarity::from_str("Industrial Grade Skins"),
        SkinRarity::IndustrialGrade
    );
    assert_eq!(
        SkinRarity::from_str("Consumer Grade Skins"),
        SkinRarity::ConsumerGrade
    );
}

#[test]
fn rarity_unknown_label_keeps_text() {
    assert_eq!(
        SkinRarity::from_str("Mythical Skins"),
        SkinRarity::Other("Mythical Skins".to_string())
    );
    // Exact match is case-sensitive: a near miss is not recognised.
    assert_eq!(
        SkinRarity::from_str("covert skins"),
        SkinRarity::Other("covert skins".to_string())
    );
}

#[test]
fn item_type_priority_order_wins() {
    // A name holding both a knife marker and "Gloves": the priority list,
    // not the position in the string, decides.
    assert_eq!(ItemSkinType::from_str("Knife Gloves"), ItemSkinType::Knife);
    assert_eq!(ItemSkinType::from_str("Gloves Knife"), ItemSkinType::Knife);
    assert_eq!(
        ItemSkinType::from_str("Sport Gloves | Bayonet Motif"),
        ItemSkinType::Knife
    );
}

#[test]
fn item_type_markers() {
    assert_eq!(ItemSkinType::from_str("M9 Bayonet | Doppler"), ItemSkinType::Knife);
    assert_eq!(ItemSkinType::from_str("Karambit | Fade"), ItemSkinType::Knife);
    assert_eq!(ItemSkinType::from_str("Shadow Daggers"), ItemSkinType::Knife);
    assert_eq!(ItemSkinType::from_str("Flip Knife"), ItemSkinType::Knife);
    assert_eq!(ItemSkinType::from_str("Sport Gloves | Vice"), ItemSkinType::Glove);
    assert_eq!(ItemSkinType::from_str("P250 | X-Ray"), ItemSkinType::Weapon);
    assert_eq!(ItemSkinType::from_str(""), ItemSkinType::Weapon);
}

#[test]
fn wear_factory_new_and_fallback() {
    assert_eq!(
        SkinWear::new("Factory New".to_string(), "u".to_string()),
        SkinWear::FactoryNew("u".to_string())
    );
    assert_eq!(
        SkinWear::new("Anything else".to_string(), "u".to_string()),
        SkinWear::Vanilla("u".to_string())
    );
}

#[test]
fn wear_known_labels() {
    assert_eq!(
        SkinWear::new("Minimal Wear".to_string(), "a".to_string()),
        SkinWear::MinimalWear("a".to_string())
    );
    assert_eq!(
        SkinWear::new("Field-Tested".to_string(), "b".to_string()),
        SkinWear::FieldTested("b".to_string())
    );
    assert_eq!(
        SkinWear::new("Well-Worn".to_string(), "c".to_string()),
        SkinWear::WellWorn("c".to_string())
    );
    assert_eq!(
        SkinWear::new("Battle-Scarred".to_string(), "d".to_string()),
        SkinWear::BattleScarred("d".to_string())
    );
    // The unpainted marker is not one of the five finish states.
    assert_eq!(
        SkinWear::new("no finish".to_string(), "e".to_string()),
        SkinWear::Vanilla("e".to_string())
    );
}

#[test]
fn container_type_priority() {
    assert_eq!(
        ItemContainerType::from_str("The Mirage Collection"),
        ItemContainerType::Collection
    );
    assert_eq!(
        ItemContainerType::from_str("Glove Case"),
        ItemContainerType::SkinCase
    );
    assert_eq!(
        ItemContainerType::from_str("X-Ray P250 Package"),
        ItemContainerType::Package
    );
    assert_eq!(
        ItemContainerType::from_str("Mystery Box"),
        ItemContainerType::Other("Mystery Box".to_string())
    );
}

#[test]
fn container_type_souvenir_lands_in_other() {
    // A name whose first match is "Souvenir Package" lands in the
    // unrecognized bucket, never in SouvenirPackage (see the note on
    // container-type classification).
    assert_eq!(
        ItemContainerType::from_str("Cologne Souvenir Package"),
        ItemContainerType::Other("Cologne Souvenir Package".to_string())
    );
}

#[test]
fn display_names() {
    assert_eq!(SkinRarity::Covert.display_name(), "Covert");
    assert_eq!(SkinRarity::MilSpec.display_name(), "Mil-Spec");
    assert_eq!(
        SkinRarity::Other("Mythic".to_string()).display_name(),
        "Unimplemented rarity: Mythic"
    );
    assert_eq!(SkinWear::Vanilla("u".to_string()).display_name(), "Not Painted");
    assert_eq!(SkinWear::FieldTested("u".to_string()).display_name(), "Field-Tested");
    assert_eq!(ItemSkinType::Glove.display_name(), "Gloves");
}

#[test]
fn text_helpers() {
    assert!(str_eq("abc", "abc"));
    assert!(!str_eq("abc", "abd"));
    assert!(!str_eq("abc", "ab"));
    assert!(contains_str("Flip Knife", "Knife"));
    assert!(contains_str("Knife", ""));
    assert!(!contains_str("Knif", "Knife"));
    assert!(!contains_str("", "Knife"));
}
