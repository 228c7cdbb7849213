use vstd::prelude::*;
use crate::classify::{ItemSkinType, RarityV, spec_item_type, spec_rarity};
use crate::json::{Json, spec_get};
use crate::load::spec_container_of;
use crate::load::{
    ShapeV, spec_group_entry, spec_group_items, spec_groups, spec_item_of, spec_wear_entry,
    spec_wears_of,
};
use crate::model::ItemV;
use crate::classify::WearV;
use crate::text::spec_contains;

verus! {

/// Classification of rarity labels is total: every label lands in one of the
/// six known tiers, or in `Other` carrying the label itself, so the original
/// text is always recoverable from the fallback.
pub proof fn lemma_classify_rarity_total(label: Seq<char>)
    ensures
        spec_rarity(label) == RarityV::Covert || spec_rarity(label) == RarityV::Classified
            || spec_rarity(label) == RarityV::Restricted || spec_rarity(label) == RarityV::MilSpec
            || spec_rarity(label) == RarityV::IndustrialGrade || spec_rarity(label)
            == RarityV::ConsumerGrade || spec_rarity(label) == RarityV::Other(label),
{
}

/// Item-type classification is priority-ordered, not position-ordered: a name
/// containing any knife marker is a Knife, whatever else it also contains
/// (such as "Gloves"), wherever the markers stand in the name.
pub proof fn lemma_item_type_priority(name: Seq<char>)
    requires
        spec_contains(name, "Bayonet"@) || spec_contains(name, "Karambit"@) || spec_contains(
            name,
            "Daggers"@,
        ) || spec_contains(name, "Knife"@),
    ensures
        spec_item_type(name) == ItemSkinType::Knife,
{
}

/// A successfully loaded wear list holds exactly one wear per entry of the
/// item's `wears` object.
pub proof fn lemma_wears_count(entries: Seq<(Seq<char>, Json)>)
    ensures
        spec_wears_of(entries) matches Ok(ws) ==> ws.len() == entries.len(),
    decreases entries.len(),
{
    if entries.len() > 0 {
        lemma_wears_count(entries.drop_last());
    }
}

/// A successfully loaded rarity group holds exactly one item per element of
/// its array.
pub proof fn lemma_group_items_count(label: Seq<char>, items: Seq<Json>)
    ensures
        spec_group_items(label, items) matches Ok(its) ==> its.len() == items.len(),
    decreases items.len(),
{
    if items.len() > 0 {
        lemma_group_items_count(label, items.drop_last());
    }
}

/// How many items a well-formed `content` object promises: the sum of the
/// lengths of its groups' arrays.
pub open spec fn spec_total_items(groups: Seq<(Seq<char>, Json)>) -> int
    decreases groups.len(),
{
    if groups.len() == 0 {
        0
    } else {
        spec_total_items(groups.drop_last()) + (match groups.last().1 {
            Json::Arr(items) => items.len() as int,
            _ => 0,
        })
    }
}

/// A successful load keeps the document's size: the loaded items number the
/// sum, over all rarity groups, of each group's array length.
pub proof fn lemma_load_item_count(groups: Seq<(Seq<char>, Json)>)
    ensures
        spec_groups(groups) matches Ok(items) ==> items.len() == spec_total_items(groups),
    decreases groups.len(),
{
    if groups.len() > 0 {
        lemma_load_item_count(groups.drop_last());
        if spec_groups(groups) is Ok {
            match groups.last().1 {
                Json::Arr(items) => lemma_group_items_count(groups.last().0, items),
                _ => {},
            }
        }
    }
}

/// Sum of the wear counts over a sequence of loaded items.
pub open spec fn spec_wear_total(items: Seq<ItemV>) -> int
    decreases items.len(),
{
    if items.len() == 0 {
        0
    } else {
        spec_wear_total(items.drop_last()) + items.last().wears.len()
    }
}

/// How many wear entries a well-formed item object promises.
pub open spec fn spec_item_wear_count(j: Json) -> int {
    match spec_get(j, "wears"@) {
        Some(Json::Obj(w)) => w.len() as int,
        _ => 0,
    }
}

/// How many wear entries a group's array promises, over all its items.
pub open spec fn spec_arr_wear_count(items: Seq<Json>) -> int
    decreases items.len(),
{
    if items.len() == 0 {
        0
    } else {
        spec_arr_wear_count(items.drop_last()) + spec_item_wear_count(items.last())
    }
}

/// How many wear entries a well-formed `content` object promises in all.
pub open spec fn spec_total_wears(groups: Seq<(Seq<char>, Json)>) -> int
    decreases groups.len(),
{
    if groups.len() == 0 {
        0
    } else {
        spec_total_wears(groups.drop_last()) + (match groups.last().1 {
            Json::Arr(items) => spec_arr_wear_count(items),
            _ => 0,
        })
    }
}

/// A successfully loaded item holds exactly one wear per entry of its
/// `wears` object.
pub proof fn lemma_item_wear_count(rarity: RarityV, j: Json)
    ensures
        spec_item_of(rarity, j) matches Ok(iv) ==> iv.wears.len() == spec_item_wear_count(j),
{
    if spec_item_of(rarity, j) is Ok {
        match spec_get(j, "wears"@) {
            Some(Json::Obj(w)) => lemma_wears_count(w),
            _ => {},
        }
    }
}

proof fn lemma_wear_total_concat(a: Seq<ItemV>, b: Seq<ItemV>)
    ensures
        spec_wear_total(a + b) == spec_wear_total(a) + spec_wear_total(b),
    decreases b.len(),
{
    if b.len() == 0 {
        assert(a + b =~= a);
    } else {
        lemma_wear_total_concat(a, b.drop_last());
        assert((a + b).drop_last() =~= a + b.drop_last());
    }
}

/// A successfully loaded group keeps the total wear count of its items.
pub proof fn lemma_group_wear_total(label: Seq<char>, items: Seq<Json>)
    ensures
        spec_group_items(label, items) matches Ok(its) ==> spec_wear_total(its)
            == spec_arr_wear_count(items),
    decreases items.len(),
{
    if items.len() > 0 {
        lemma_group_wear_total(label, items.drop_last());
        if spec_group_items(label, items) is Ok {
            lemma_item_wear_count(spec_rarity(label), items.last());
            let prefix = spec_group_items(label, items.drop_last())->Ok_0;
            let it = spec_item_of(spec_rarity(label), items.last())->Ok_0;
            assert(prefix.push(it).drop_last() =~= prefix);
        }
    }
}

/// A successful load keeps the document's total wear count: the wears of all
/// loaded items number the entries of all items' `wears` objects together.
pub proof fn lemma_load_wear_total(groups: Seq<(Seq<char>, Json)>)
    ensures
        spec_groups(groups) matches Ok(items) ==> spec_wear_total(items) == spec_total_wears(
            groups,
        ),
    decreases groups.len(),
{
    if groups.len() > 0 {
        lemma_load_wear_total(groups.drop_last());
        if spec_groups(groups) is Ok {
            let its = spec_groups(groups.drop_last())->Ok_0;
            let more = spec_group_entry(groups.last())->Ok_0;
            match groups.last().1 {
                Json::Arr(items) => lemma_group_wear_total(groups.last().0, items),
                _ => {},
            }
            lemma_wear_total_concat(its, more);
        }
    }
}

/// A successful load keeps the document's structure: the container holds as
/// many items as all rarity groups' arrays together, and as many wears as
/// all items' `wears` objects together.
pub proof fn lemma_container_structure(j: Json)
    ensures
        spec_container_of(j) matches Ok(c) ==> (match spec_get(j, "content"@) {
            Some(Json::Obj(groups)) => c.content.len() == spec_total_items(groups)
                && spec_wear_total(c.content) == spec_total_wears(groups),
            _ => false,
        }),
{
    if spec_container_of(j) is Ok {
        match spec_get(j, "content"@) {
            Some(Json::Obj(groups)) => {
                lemma_load_item_count(groups);
                lemma_load_wear_total(groups);
            },
            _ => {},
        }
    }
}

/// A successful load keeps group order: one further group in the `content`
/// object appends exactly that group's items after all earlier ones.
pub proof fn lemma_load_group_order(groups: Seq<(Seq<char>, Json)>, entry: (Seq<char>, Json))
    ensures
        spec_groups(groups.push(entry)) == (match spec_groups(groups) {
            Err(e) => Err::<Seq<ItemV>, ShapeV>(e),
            Ok(its) => match spec_group_entry(entry) {
                Err(e) => Err(e),
                Ok(more) => Ok(its + more),
            },
        }),
{
    assert(groups.push(entry).drop_last() =~= groups);
}

/// A successful load keeps item order within a group: one further element of
/// the group's array appends exactly that item after all earlier ones.
pub proof fn lemma_group_item_order(label: Seq<char>, items: Seq<Json>, j: Json)
    ensures
        spec_group_items(label, items.push(j)) == (match spec_group_items(label, items) {
            Err(e) => Err::<Seq<ItemV>, ShapeV>(e),
            Ok(its) => match spec_item_of(spec_rarity(label), j) {
                Err(f) => Err(
                    ShapeV { field: f, group: Some(label), index: Some(items.len() as int) },
                ),
                Ok(it) => Ok(its.push(it)),
            },
        }),
{
    assert(items.push(j).drop_last() =~= items);
}

/// A successful load keeps wear order within an item: one further entry of
/// the `wears` object appends exactly that wear after all earlier ones.
pub proof fn lemma_wear_order(entries: Seq<(Seq<char>, Json)>, entry: (Seq<char>, Json))
    ensures
        spec_wears_of(entries.push(entry)) == (match spec_wears_of(entries) {
            Err(f) => Err::<Seq<WearV>, Seq<char>>(f),
            Ok(ws) => match spec_wear_entry(entry) {
                Err(f) => Err(f),
                Ok(w) => Ok(ws.push(w)),
            },
        }),
{
    assert(entries.push(entry).drop_last() =~= entries);
}

} // verus!
