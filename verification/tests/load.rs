use skin_cases::{
    ItemContainer, ItemContainerType, ItemSkinType, JsonNode, LoadError, ShapeIssue, SkinRarity,
    SkinWear,
};

fn str_node(s: &str) -> JsonNode {
    JsonNode::Str(s.to_string())
}

fn item_node(
    name: &str,
    desc: &str,
    lore: &str,
    souvenir: bool,
    stattrak: bool,
    wears: Vec<(&str, &str)>,
) -> JsonNode {
    let wear_entries: Vec<(String, JsonNode)> = wears
        .into_iter()
        .map(|(k, v)| (k.to_string(), str_node(v)))
        .collect();
    JsonNode::Obj(vec![
        ("name".to_string(), str_node(name)),
        ("desc".to_string(), str_node(desc)),
        ("lore".to_string(), str_node(lore)),
        ("can_be_souvenir".to_string(), JsonNode::Bool(souvenir)),
        ("can_be_stattrak".to_string(), JsonNode::Bool(stattrak)),
        ("wears".to_string(), JsonNode::Obj(wear_entries)),
    ])
}

fn doc_node(name: &str, icon: &str, groups: Vec<(&str, Vec<JsonNode>)>) -> JsonNode {
    JsonNode::Obj(vec![
        ("name".to_string(), str_node(name)),
        ("image_url".to_string(), str_node(icon)),
        (
            "content".to_string(),
            JsonNode::Obj(
                groups
                    .into_iter()
                    .map(|(k, v)| (k.to_string(), JsonNode::Arr(v)))
                    .collect(),
            ),
        ),
    ])
}

#[test]
fn x_ray_package_scenario() {
    let doc = doc_node(
        "X-Ray P250 Package",
        "https://example/x.png",
        vec![(
            "Rare Special Items",
            vec![item_node(
                "P250 | X-Ray",
                "d",
                "l",
                false,
                true,
                vec![("Factory New", "url1"), ("Battle-Scarred", "url2")],
            )],
        )],
    );
    let c = ItemContainer::from_json_value(&doc).unwrap();
    assert_eq!(c.name(), "X-Ray P250 Package");
    assert_eq!(*c.item_type(), ItemContainerType::Package);
    assert_eq!(c.icon(), "https://example/x.png");
    assert_eq!(c.content().len(), 1);
    let it = &c.content()[0];
    assert_eq!(it.name(), "P250 | X-Ray");
    assert_eq!(*it.item_type(), ItemSkinType::Weapon);
    assert_eq!(*it.rarity(), SkinRarity::Covert);
    assert_eq!(it.description(), "d");
    assert_eq!(it.lore(), "l");
    assert_eq!(*it.can_be_souvenir(), false);
    assert_eq!(*it.can_be_stattrak(), true);
    assert_eq!(
        *it.wears(),
        vec![
            SkinWear::FactoryNew("url1".to_string()),
            SkinWear::BattleScarred("url2".to_string()),
        ]
    );
}

#[test]
fn x_ray_package_from_bytes() {
    let text = "{\"name\":\"X-Ray P250 Package\",\"image_url\":\"https://example/x.png\",\"content\":{\"Rare Special Items\":[{\"name\":\"P250 | X-Ray\",\"desc\":\"d\",\"lore\":\"l\",\"can_be_souvenir\":false,\"can_be_stattrak\":true,\"wears\":{\"Factory New\":\"url1\",\"Battle-Scarred\":\"url2\"}}]}}";
    let c = ItemContainer::from_slice(text.as_bytes()).unwrap();
    assert_eq!(c.name(), "X-Ray P250 Package");
    assert_eq!(*c.item_type(), ItemContainerType::Package);
    assert_eq!(c.icon(), "https://example/x.png");
    assert_eq!(c.content().len(), 1);
    let it = &c.content()[0];
    assert_eq!(*it.item_type(), ItemSkinType::Weapon);
    assert_eq!(*it.rarity(), SkinRarity::Covert);
    assert_eq!(*it.can_be_souvenir(), false);
    assert_eq!(*it.can_be_stattrak(), true);
    // The parser's object entries iterate in sorted key order.
    assert_eq!(
        *it.wears(),
        vec![
            SkinWear::BattleScarred("url2".to_string()),
            SkinWear::FactoryNew("url1".to_string()),
        ]
    );
}

#[test]
fn missing_desc_fails_whole_load() {
    let bad_item = JsonNode::Obj(vec![
        ("name".to_string(), str_node("P250 | X-Ray")),
        ("lore".to_string(), str_node("l")),
        ("can_be_souvenir".to_string(), JsonNode::Bool(false)),
        ("can_be_stattrak".to_string(), JsonNode::Bool(true)),
        ("wears".to_string(), JsonNode::Obj(vec![])),
    ]);
    let doc = doc_node("Glove Case", "i", vec![("Rare Special Items", vec![bad_item])]);
    let r = ItemContainer::from_json_value(&doc);
    assert!(r.is_err());
    let e = r.unwrap_err();
    assert_eq!(
        e,
        LoadError::Shape(ShapeIssue {
            field: "desc".to_string(),
            group: Some("Rare Special Items".to_string()),
            index: Some(0),
        })
    );
}

#[test]
fn malformed_json_is_parse_error() {
    let r = ItemContainer::from_slice(b"{ this is not json");
    let e = r.unwrap_err();
    assert!(matches!(e, LoadError::Parse(_)));
    assert!(!matches!(e, LoadError::Shape(_)));
}

#[test]
fn shape_error_is_not_parse_error() {
    // Well-formed JSON of the wrong shape: the two failure kinds stay apart.
    let r = ItemContainer::from_slice(b"{\"name\":\"Glove Case\"}");
    let e = r.unwrap_err();
    assert!(matches!(e, LoadError::Shape(_)));
    assert!(!matches!(e, LoadError::Parse(_)));
}

#[test]
fn structure_and_order_preserved() {
    let doc = doc_node(
        "The Mirage Collection",
        "icon",
        vec![
            (
                "Covert Skins",
                vec![
                    item_node("AK-47 | One", "d1", "l1", true, false, vec![("Factory New", "a")]),
                    item_node(
                        "M4A4 | Two",
                        "d2",
                        "l2",
                        false,
                        false,
                        vec![("Minimal Wear", "b"), ("Well-Worn", "c")],
                    ),
                ],
            ),
            (
                "Restricted Skins",
                vec![item_node("P90 | Three", "d3", "l3", false, true, vec![])],
            ),
        ],
    );
    let c = ItemContainer::from_json_value(&doc).unwrap();
    assert_eq!(*c.item_type(), ItemContainerType::Collection);
    // Two groups of two and one item: three items, in document order.
    assert_eq!(c.content().len(), 3);
    assert_eq!(c.content()[0].name(), "AK-47 | One");
    assert_eq!(c.content()[1].name(), "M4A4 | Two");
    assert_eq!(c.content()[2].name(), "P90 | Three");
    // Rarity comes from the group label, not from the item.
    assert_eq!(*c.content()[0].rarity(), SkinRarity::Covert);
    assert_eq!(*c.content()[1].rarity(), SkinRarity::Covert);
    assert_eq!(*c.content()[2].rarity(), SkinRarity::Restricted);
    // Wear counts and order are kept per item.
    assert_eq!(c.content()[0].wears().len(), 1);
    assert_eq!(
        *c.content()[1].wears(),
        vec![
            SkinWear::MinimalWear("b".to_string()),
            SkinWear::WellWorn("c".to_string()),
        ]
    );
    assert_eq!(c.content()[2].wears().len(), 0);
}

#[test]
fn same_fields_different_group_differ_in_rarity() {
    let doc = doc_node(
        "Glove Case",
        "i",
        vec![
            ("Covert Skins", vec![item_node("AWP | Same", "d", "l", false, false, vec![])]),
            (
                "Consumer Grade Skins",
                vec![item_node("AWP | Same", "d", "l", false, false, vec![])],
            ),
        ],
    );
    let c = ItemContainer::from_json_value(&doc).unwrap();
    assert_eq!(c.content().len(), 2);
    assert_eq!(c.content()[0].name(), c.content()[1].name());
    assert_eq!(*c.content()[0].rarity(), SkinRarity::Covert);
    assert_eq!(*c.content()[1].rarity(), SkinRarity::ConsumerGrade);
}

#[test]
fn missing_root_fields() {
    let no_name = JsonNode::Obj(vec![("image_url".to_string(), str_node("i"))]);
    assert_eq!(
        ItemContainer::from_json_value(&no_name).unwrap_err(),
        LoadError::Shape(ShapeIssue { field: "name".to_string(), group: None, index: None })
    );
    let no_icon = JsonNode::Obj(vec![("name".to_string(), str_node("Glove Case"))]);
    assert_eq!(
        ItemContainer::from_json_value(&no_icon).unwrap_err(),
        LoadError::Shape(ShapeIssue { field: "image_url".to_string(), group: None, index: None })
    );
    let no_content = JsonNode::Obj(vec![
        ("name".to_string(), str_node("Glove Case")),
        ("image_url".to_string(), str_node("i")),
    ]);
    assert_eq!(
        ItemContainer::from_json_value(&no_content).unwrap_err(),
        LoadError::Shape(ShapeIssue { field: "content".to_string(), group: None, index: None })
    );
    let content_not_object = JsonNode::Obj(vec![
        ("name".to_string(), str_node("Glove Case")),
        ("image_url".to_string(), str_node("i")),
        ("content".to_string(), str_node("oops")),
    ]);
    assert_eq!(
        ItemContainer::from_json_value(&content_not_object).unwrap_err(),
        LoadError::Shape(ShapeIssue { field: "content".to_string(), group: None, index: None })
    );
}

#[test]
fn group_value_must_be_array() {
    let doc = JsonNode::Obj(vec![
        ("name".to_string(), str_node("Glove Case")),
        ("image_url".to_string(), str_node("i")),
        (
            "content".to_string(),
            JsonNode::Obj(vec![("Covert Skins".to_string(), str_node("oops"))]),
        ),
    ]);
    assert_eq!(
        ItemContainer::from_json_value(&doc).unwrap_err(),
        LoadError::Shape(ShapeIssue {
            field: "Covert Skins".to_string(),
            group: Some("Covert Skins".to_string()),
            index: None,
        })
    );
}

#[test]
fn wear_image_must_be_text() {
    let bad_item = JsonNode::Obj(vec![
        ("name".to_string(), str_node("P250 | X-Ray")),
        ("desc".to_string(), str_node("d")),
        ("lore".to_string(), str_node("l")),
        ("can_be_souvenir".to_string(), JsonNode::Bool(false)),
        ("can_be_stattrak".to_string(), JsonNode::Bool(true)),
        (
            "wears".to_string(),
            JsonNode::Obj(vec![("Factory New".to_string(), JsonNode::Num)]),
        ),
    ]);
    let doc = doc_node("Glove Case", "i", vec![("Covert Skins", vec![bad_item])]);
    assert_eq!(
        ItemContainer::from_json_value(&doc).unwrap_err(),
        LoadError::Shape(ShapeIssue {
            field: "Factory New".to_string(),
            group: Some("Covert Skins".to_string()),
            index: Some(0),
        })
    );
}

#[test]
fn first_failure_in_order_wins() {
    let missing_lore = JsonNode::Obj(vec![
        ("name".to_string(), str_node("A")),
        ("desc".to_string(), str_node("d")),
        ("can_be_souvenir".to_string(), JsonNode::Bool(false)),
        ("can_be_stattrak".to_string(), JsonNode::Bool(false)),
        ("wears".to_string(), JsonNode::Obj(vec![])),
    ]);
    let missing_desc = JsonNode::Obj(vec![
        ("name".to_string(), str_node("B")),
        ("lore".to_string(), str_node("l")),
        ("can_be_souvenir".to_string(), JsonNode::Bool(false)),
        ("can_be_stattrak".to_string(), JsonNode::Bool(false)),
        ("wears".to_string(), JsonNode::Obj(vec![])),
    ]);
    let doc = doc_node(
        "Glove Case",
        "i",
        vec![("Covert Skins", vec![missing_lore, missing_desc])],
    );
    assert_eq!(
        ItemContainer::from_json_value(&doc).unwrap_err(),
        LoadError::Shape(ShapeIssue {
            field: "lore".to_string(),
            group: Some("Covert Skins".to_string()),
            index: Some(0),
        })
    );
}

#[test]
fn empty_content_loads_empty_container() {
    let doc = doc_node("Glove Case", "i", vec![]);
    let c = ItemContainer::from_json_value(&doc).unwrap();
    assert_eq!(*c.item_type(), ItemContainerType::SkinCase);
    assert_eq!(c.content().len(), 0);
}

#[test]
fn bool_fields_must_be_bool() {
    let bad_item = JsonNode::Obj(vec![
        ("name".to_string(), str_node("A")),
        ("desc".to_string(), str_node("d")),
        ("lore".to_string(), str_node("l")),
        ("can_be_souvenir".to_string(), str_node("yes")),
        ("can_be_stattrak".to_string(), JsonNode::Bool(false)),
        ("wears".to_string(), JsonNode::Obj(vec![])),
    ]);
    let doc = doc_node("Glove Case", "i", vec![("Covert Skins", vec![bad_item])]);
    assert_eq!(
        ItemContainer::from_json_value(&doc).unwrap_err(),
        LoadError::Shape(ShapeIssue {
            field: "can_be_souvenir".to_string(),
            group: Some("Covert Skins".to_string()),
            index: Some(0),
        })
    );
}
