use vstd::prelude::*;
use vstd::string::{StringExecFns, StrSliceExecFns};
use crate::text::{spec_contains, str_eq, contains_str};

verus! {

/// Describes an `ItemSkin` rarity.
#[derive(Clone, Eq, PartialEq, Debug)]
pub enum SkinRarity {
    Covert,
    Classified,
    Restricted,
    MilSpec,
    IndustrialGrade,
    ConsumerGrade,
    Other(String),
}

/// Mathematical image of `SkinRarity`: the unrecognized bucket keeps the
/// original label as a sequence of characters.
pub enum RarityV {
    Covert,
    Classified,
    Restricted,
    MilSpec,
    IndustrialGrade,
    ConsumerGrade,
    Other(Seq<char>),
}

impl View for SkinRarity {
    type V = RarityV;

    open spec fn view(&self) -> RarityV {
        match self {
            SkinRarity::Covert => RarityV::Covert,
            SkinRarity::Classified => RarityV::Classified,
            SkinRarity::Restricted => RarityV::Restricted,
            SkinRarity::MilSpec => RarityV::MilSpec,
            SkinRarity::IndustrialGrade => RarityV::IndustrialGrade,
            SkinRarity::ConsumerGrade => RarityV::ConsumerGrade,
            SkinRarity::Other(s) => RarityV::Other(s@),
        }
    }
}

/// Exact-match classification of a rarity-group label: seven known labels
/// (two of them name the highest tier), anything else keeps its text.
pub open spec fn spec_rarity(label: Seq<char>) -> RarityV {
    if label == "Rare Special Items"@ || label == "Covert Skins"@ {
        RarityV::Covert
    } else if label == "Classified Skins"@ {
        RarityV::Classified
    } else if label == "Restricted Skins"@ {
        RarityV::Restricted
    } else if label == "Mil-Spec Skins"@ {
        RarityV::MilSpec
    } else if label == "Industrial Grade Skins"@ {
        RarityV::IndustrialGrade
    } else if label == "Consumer Grade Skins"@ {
        RarityV::ConsumerGrade
    } else {
        RarityV::Other(label)
    }
}

pub open spec fn spec_rarity_display(r: RarityV) -> Seq<char> {
    match r {
        RarityV::Covert => "Covert"@,
        RarityV::Classified => "Classified"@,
        RarityV::Restricted => "Restricted"@,
        RarityV::MilSpec => "Mil-Spec"@,
        RarityV::IndustrialGrade => "Industrial Grade"@,
        RarityV::ConsumerGrade => "Consumer Grade"@,
        RarityV::Other(s) => "Unimplemented rarity: "@ + s,
    }
}

impl SkinRarity {
    /// Classify a rarity-group label. Case-sensitive exact match: callers
    /// supply labels exactly as they stand in the source grouping keys.
    pub fn from_str(label: &str) -> (r: Self)
        ensures
            r@ == spec_rarity(label@),
    {
        if str_eq(label, "Rare Special Items") || str_eq(label, "Covert Skins") {
            SkinRarity::Covert
        } else if str_eq(label, "Classified Skins") {
            SkinRarity::Classified
        } else if str_eq(label, "Restricted Skins") {
            SkinRarity::Restricted
        } else if str_eq(label, "Mil-Spec Skins") {
            SkinRarity::MilSpec
        } else if str_eq(label, "Industrial Grade Skins") {
            SkinRarity::IndustrialGrade
        } else if str_eq(label, "Consumer Grade Skins") {
            SkinRarity::ConsumerGrade
        } else {
            SkinRarity::Other(label.to_owned())
        }
    }

    /// Human-readable name of the rarity tier.
    pub fn display_name(&self) -> (r: String)
        ensures
            r@ == spec_rarity_display(self@),
    {
        match self {
            SkinRarity::Covert => String::from_str("Covert"),
            SkinRarity::Classified => String::from_str("Classified"),
            SkinRarity::Restricted => String::from_str("Restricted"),
            SkinRarity::MilSpec => String::from_str("Mil-Spec"),
            SkinRarity::IndustrialGrade => String::from_str("Industrial Grade"),
            SkinRarity::ConsumerGrade => String::from_str("Consumer Grade"),
            SkinRarity::Other(s) => String::from_str("Unimplemented rarity: ").concat(s.as_str()),
        }
    }
}

/// Describes a possible `ItemSkin` wear.
/// Also holds a link to the associated wear `ItemSkin` image.
#[derive(Clone, Eq, PartialEq, Debug)]
pub enum SkinWear {
    FactoryNew(String),
    MinimalWear(String),
    FieldTested(String),
    WellWorn(String),
    BattleScarred(String),
    Vanilla(String),
}

/// Mathematical image of `SkinWear`: each variant carries its image location.
pub enum WearV {
    FactoryNew(Seq<char>),
    MinimalWear(Seq<char>),
    FieldTested(Seq<char>),
    WellWorn(Seq<char>),
    BattleScarred(Seq<char>),
    Vanilla(Seq<char>),
}

impl View for SkinWear {
    type V = WearV;

    open spec fn view(&self) -> WearV {
        match self {
            SkinWear::FactoryNew(s) => WearV::FactoryNew(s@),
            SkinWear::MinimalWear(s) => WearV::MinimalWear(s@),
            SkinWear::FieldTested(s) => WearV::FieldTested(s@),
            SkinWear::WellWorn(s) => WearV::WellWorn(s@),
            SkinWear::BattleScarred(s) => WearV::BattleScarred(s@),
            SkinWear::Vanilla(s) => WearV::Vanilla(s@),
        }
    }
}

/// Exact-match classification of a wear label; anything besides the five
/// known finish states (including the marker for unpainted items) is Vanilla.
pub open spec fn spec_wear(name: Seq<char>, img: Seq<char>) -> WearV {
    if name == "Factory New"@ {
        WearV::FactoryNew(img)
    } else if name == "Minimal Wear"@ {
        WearV::MinimalWear(img)
    } else if name == "Field-Tested"@ {
        WearV::FieldTested(img)
    } else if name == "Well-Worn"@ {
        WearV::WellWorn(img)
    } else if name == "Battle-Scarred"@ {
        WearV::BattleScarred(img)
    } else {
        WearV::Vanilla(img)
    }
}

pub open spec fn spec_wear_display(w: WearV) -> Seq<char> {
    match w {
        WearV::FactoryNew(_) => "Factory New"@,
        WearV::MinimalWear(_) => "Minimal Wear"@,
        WearV::FieldTested(_) => "Field-Tested"@,
        WearV::WellWorn(_) => "Well-Worn"@,
        WearV::BattleScarred(_) => "Battle-Scarred"@,
        WearV::Vanilla(_) => "Not Painted"@,
    }
}

impl SkinWear {
    /// Classify a wear label and pair it with its image location.
    pub fn new(wear_name: String, wear_img: String) -> (r: Self)
        ensures
            r@ == spec_wear(wear_name@, wear_img@),
    {
        if str_eq(wear_name.as_str(), "Factory New") {
            SkinWear::FactoryNew(wear_img)
        } else if str_eq(wear_name.as_str(), "Minimal Wear") {
            SkinWear::MinimalWear(wear_img)
        } else if str_eq(wear_name.as_str(), "Field-Tested") {
            SkinWear::FieldTested(wear_img)
        } else if str_eq(wear_name.as_str(), "Well-Worn") {
            SkinWear::WellWorn(wear_img)
        } else if str_eq(wear_name.as_str(), "Battle-Scarred") {
            SkinWear::BattleScarred(wear_img)
        } else {
            SkinWear::Vanilla(wear_img)
        }
    }

    /// Human-readable name of the wear condition.
    pub fn display_name(&self) -> (r: String)
        ensures
            r@ == spec_wear_display(self@),
    {
        match self {
            SkinWear::FactoryNew(_) => String::from_str("Factory New"),
            SkinWear::MinimalWear(_) => String::from_str("Minimal Wear"),
            SkinWear::FieldTested(_) => String::from_str("Field-Tested"),
            SkinWear::WellWorn(_) => String::from_str("Well-Worn"),
            SkinWear::BattleScarred(_) => String::from_str("Battle-Scarred"),
            SkinWear::Vanilla(_) => String::from_str("Not Painted"),
        }
    }
}

/// Describes an `ItemSkin` type.
#[derive(Clone, Eq, PartialEq, Debug)]
pub enum ItemSkinType {
    Knife,
    Glove,
    Weapon,
}

/// Substring classification of an item name over the priority list
/// `["Bayonet", "Karambit", "Daggers", "Knife", "Gloves"]`: the first entry
/// found as a substring decides; a name matching none of them is a Weapon.
pub open spec fn spec_item_type(name: Seq<char>) -> ItemSkinType {
    if spec_contains(name, "Bayonet"@) || spec_contains(name, "Karambit"@) || spec_contains(
        name,
        "Daggers"@,
    ) || spec_contains(name, "Knife"@) {
        ItemSkinType::Knife
    } else if spec_contains(name, "Gloves"@) {
        ItemSkinType::Glove
    } else {
        ItemSkinType::Weapon
    }
}

pub open spec fn spec_item_type_display(t: ItemSkinType) -> Seq<char> {
    match t {
        ItemSkinType::Knife => "Knife"@,
        ItemSkinType::Glove => "Gloves"@,
        ItemSkinType::Weapon => "Weapon"@,
    }
}

impl ItemSkinType {
    /// Classify an item name by priority-ordered substring search.
    pub fn from_str(name: &str) -> (r: Self)
        ensures
            r == spec_item_type(name@),
    {
        if contains_str(name, "Bayonet") || contains_str(name, "Karambit") || contains_str(
            name,
            "Daggers",
        ) || contains_str(name, "Knife") {
            ItemSkinType::Knife
        } else if contains_str(name, "Gloves") {
            ItemSkinType::Glove
        } else {
            ItemSkinType::Weapon
        }
    }

    /// Human-readable name of the item type.
    pub fn display_name(&self) -> (r: String)
        ensures
            r@ == spec_item_type_display(*self),
    {
        match self {
            ItemSkinType::Knife => String::from_str("Knife"),
            ItemSkinType::Glove => String::from_str("Gloves"),
            ItemSkinType::Weapon => String::from_str("Weapon"),
        }
    }
}

/// Describes an `ItemContainer` type.
#[derive(Eq, PartialEq, Debug)]
pub enum ItemContainerType {
    Collection,
    SkinCase,
    SouvenirPackage,
    Package,
    Other(String),
}

/// Mathematical image of `ItemContainerType`.
pub enum ContainerTypeV {
    Collection,
    SkinCase,
    SouvenirPackage,
    Package,
    Other(Seq<char>),
}

impl View for ItemContainerType {
    type V = ContainerTypeV;

    open spec fn view(&self) -> ContainerTypeV {
        match self {
            ItemContainerType::Collection => ContainerTypeV::Collection,
            ItemContainerType::SkinCase => ContainerTypeV::SkinCase,
            ItemContainerType::SouvenirPackage => ContainerTypeV::SouvenirPackage,
            ItemContainerType::Package => ContainerTypeV::Package,
            ItemContainerType::Other(s) => ContainerTypeV::Other(s@),
        }
    }
}

/// Substring classification of a container name over the priority list
/// `["Collection", "Case", "Souvenir Package", "Package"]`, first match wins.
///
/// Note: a name whose first match is "Souvenir Package" lands in `Other`, not
/// in `SouvenirPackage`. The dispatch on the matched label compares it against
/// the literal "Souvenir", which the search never yields; consumers rely on
/// that behaviour, so it is kept rather than corrected.
pub open spec fn spec_container_type(name: Seq<char>) -> ContainerTypeV {
    if spec_contains(name, "Collection"@) {
        ContainerTypeV::Collection
    } else if spec_contains(name, "Case"@) {
        ContainerTypeV::SkinCase
    } else if spec_contains(name, "Souvenir Package"@) {
        ContainerTypeV::Other(name)
    } else if spec_contains(name, "Package"@) {
        ContainerTypeV::Package
    } else {
        ContainerTypeV::Other(name)
    }
}

impl ItemContainerType {
    /// Classify a container name by priority-ordered substring search.
    pub fn from_str(name: &str) -> (r: Self)
        ensures
            r@ == spec_container_type(name@),
    {
        if contains_str(name, "Collection") {
            ItemContainerType::Collection
        } else if contains_str(name, "Case") {
            ItemContainerType::SkinCase
        } else if contains_str(name, "Souvenir Package") {
            ItemContainerType::Other(name.to_owned())
        } else if contains_str(name, "Package") {
            ItemContainerType::Package
        } else {
            ItemContainerType::Other(name.to_owned())
        }
    }
}

} // verus!
