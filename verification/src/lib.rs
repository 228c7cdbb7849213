mod classify;
mod json;
mod laws;
mod load;
mod model;
mod text;

pub use classify::{
    ContainerTypeV, ItemContainerType, ItemSkinType, RarityV, SkinRarity, SkinWear, WearV,
    spec_container_type, spec_item_type, spec_item_type_display, spec_rarity, spec_rarity_display,
    spec_wear, spec_wear_display,
};
pub use json::{
    Json, JsonNode, json_view, nodes_view, obj_lookup, pairs_view, parsed_json, spec_get,
    spec_get_bool, spec_get_str,
};
pub use laws::{
    lemma_classify_rarity_total, lemma_container_structure, lemma_group_item_order,
    lemma_group_items_count, lemma_group_wear_total, lemma_item_type_priority,
    lemma_item_wear_count, lemma_load_group_order, lemma_load_item_count, lemma_load_wear_total,
    lemma_wear_order, lemma_wears_count, spec_arr_wear_count, spec_item_wear_count,
    spec_total_items, spec_total_wears, spec_wear_total,
};
pub use load::{
    LoadError, LoadErrorV, ShapeIssue, ShapeV, spec_container_of, spec_group_entry,
    spec_group_items, spec_groups, spec_item_of, spec_wear_entry, spec_wears_of,
};
pub use model::{ContainerV, ItemContainer, ItemSkin, ItemV, items_view, wears_view};
pub use text::{contains_str, match_at, spec_contains, str_eq};
