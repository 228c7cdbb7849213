use vstd::prelude::*;
use crate::classify::{
    ContainerTypeV, ItemContainerType, ItemSkinType, RarityV, SkinRarity, SkinWear, WearV,
};

verus! {

/// Mathematical image of an `ItemSkin`.
pub struct ItemV {
    pub name: Seq<char>,
    pub item_type: ItemSkinType,
    pub rarity: RarityV,
    pub description: Seq<char>,
    pub lore: Seq<char>,
    pub can_be_souvenir: bool,
    pub can_be_stattrak: bool,
    pub wears: Seq<WearV>,
}

/// The images of the elements of a sequence of wears.
pub open spec fn wears_view(v: Seq<SkinWear>) -> Seq<WearV> {
    Seq::new(v.len(), |i: int| v[i]@)
}

/// Represents an Item Skin.
#[derive(Clone, Eq, PartialEq, Debug)]
pub struct ItemSkin {
    pub(crate) name: String,
    pub(crate) item_type: ItemSkinType,
    pub(crate) rarity: SkinRarity,
    pub(crate) description: String,
    pub(crate) lore: String,
    pub(crate) can_be_souvenir: bool,
    pub(crate) can_be_stattrak: bool,
    pub(crate) wears: Vec<SkinWear>,
}

impl View for ItemSkin {
    type V = ItemV;

    closed spec fn view(&self) -> ItemV {
        ItemV {
            name: self.name@,
            item_type: self.item_type,
            rarity: self.rarity@,
            description: self.description@,
            lore: self.lore@,
            can_be_souvenir: self.can_be_souvenir,
            can_be_stattrak: self.can_be_stattrak,
            wears: wears_view(self.wears@),
        }
    }
}

pub(crate) proof fn lemma_item_skin_view(it: &ItemSkin)
    ensures
        it@ == (ItemV {
            name: it.name@,
            item_type: it.item_type,
            rarity: it.rarity@,
            description: it.description@,
            lore: it.lore@,
            can_be_souvenir: it.can_be_souvenir,
            can_be_stattrak: it.can_be_stattrak,
            wears: wears_view(it.wears@),
        }),
{
}

impl ItemSkin {
    pub fn name(&self) -> (r: &str)
        ensures
            r@ == self@.name,
    {
        self.name.as_str()
    }

    pub fn item_type(&self) -> (r: &ItemSkinType)
        ensures
            *r == self@.item_type,
    {
        &self.item_type
    }

    pub fn rarity(&self) -> (r: &SkinRarity)
        ensures
            r@ == self@.rarity,
    {
        &self.rarity
    }

    pub fn description(&self) -> (r: &str)
        ensures
            r@ == self@.description,
    {
        self.description.as_str()
    }

    pub fn lore(&self) -> (r: &str)
        ensures
            r@ == self@.lore,
    {
        self.lore.as_str()
    }

    pub fn can_be_souvenir(&self) -> (r: &bool)
        ensures
            *r == self@.can_be_souvenir,
    {
        &self.can_be_souvenir
    }

    pub fn can_be_stattrak(&self) -> (r: &bool)
        ensures
            *r == self@.can_be_stattrak,
    {
        &self.can_be_stattrak
    }

    pub fn wears(&self) -> (r: &Vec<SkinWear>)
        ensures
            wears_view(r@) == self@.wears,
            r@.len() == self@.wears.len(),
            forall|i: int| 0 <= i < r@.len() ==> r@[i]@ == self@.wears[i],
    {
        &self.wears
    }
}

/// Mathematical image of an `ItemContainer`.
pub struct ContainerV {
    pub name: Seq<char>,
    pub item_type: ContainerTypeV,
    pub icon: Seq<char>,
    pub content: Seq<ItemV>,
}

/// The images of the elements of a sequence of item skins.
pub open spec fn items_view(v: Seq<ItemSkin>) -> Seq<ItemV> {
    Seq::new(v.len(), |i: int| v[i]@)
}

/// Represents an Item Container.
#[derive(Eq, PartialEq, Debug)]
pub struct ItemContainer {
    pub(crate) name: String,
    pub(crate) item_type: ItemContainerType,
    pub(crate) icon: String,
    pub(crate) content: Vec<ItemSkin>,
}

impl View for ItemContainer {
    type V = ContainerV;

    closed spec fn view(&self) -> ContainerV {
        ContainerV {
            name: self.name@,
            item_type: self.item_type@,
            icon: self.icon@,
            content: items_view(self.content@),
        }
    }
}

pub(crate) proof fn lemma_item_container_view(c: &ItemContainer)
    ensures
        c@ == (ContainerV {
            name: c.name@,
            item_type: c.item_type@,
            icon: c.icon@,
            content: items_view(c.content@),
        }),
{
}

impl ItemContainer {
    pub fn name(&self) -> (r: &str)
        ensures
            r@ == self@.name,
    {
        self.name.as_str()
    }

    pub fn item_type(&self) -> (r: &ItemContainerType)
        ensures
            r@ == self@.item_type,
    {
        &self.item_type
    }

    pub fn icon(&self) -> (r: &str)
        ensures
            r@ == self@.icon,
    {
        self.icon.as_str()
    }

    pub fn content(&self) -> (r: &Vec<ItemSkin>)
        ensures
            items_view(r@) == self@.content,
            r@.len() == self@.content.len(),
            forall|i: int| 0 <= i < r@.len() ==> r@[i]@ == self@.content[i],
    {
        &self.content
    }
}

} // verus!
