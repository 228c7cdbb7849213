use vstd::prelude::*;
use vstd::string::StringExecFns;
use crate::classify::{
    ItemContainerType, ItemSkinType, RarityV, SkinRarity, SkinWear, WearV, spec_container_type,
    spec_item_type, spec_rarity, spec_wear,
};
use crate::json::{
    Json, JsonNode, lemma_nodes_view, lemma_pairs_view, nodes_view, pairs_view, parse_json_bytes,
    parsed_json, spec_get, spec_get_bool, spec_get_str,
};
use crate::model::{
    ContainerV, ItemContainer, ItemSkin, ItemV, items_view, lemma_item_container_view,
    lemma_item_skin_view, wears_view,
};

verus! {

/// Where a shape violation was found: the offending field, the rarity-group
/// label if the violation lies inside a group, and the item's position within
/// its group if it lies inside an item.
#[derive(Clone, Eq, PartialEq, Debug)]
pub struct ShapeIssue {
    pub field: String,
    pub group: Option<String>,
    pub index: Option<usize>,
}

/// Mathematical image of a `ShapeIssue`.
pub struct ShapeV {
    pub field: Seq<char>,
    pub group: Option<Seq<char>>,
    pub index: Option<int>,
}

impl View for ShapeIssue {
    type V = ShapeV;

    open spec fn view(&self) -> ShapeV {
        ShapeV {
            field: self.field@,
            group: match self.group {
                Some(g) => Some(g@),
                None => None,
            },
            index: match self.index {
                Some(i) => Some(i as int),
                None => None,
            },
        }
    }
}

/// Why a load failed: the input was not valid JSON, it was valid JSON of the
/// wrong shape, or the underlying source could not be read at all.
#[derive(Clone, Eq, PartialEq, Debug)]
pub enum LoadError {
    Parse(String),
    Shape(ShapeIssue),
    Io(String),
}

/// Mathematical image of a `LoadError`.
pub enum LoadErrorV {
    Parse(Seq<char>),
    Shape(ShapeV),
    Io(Seq<char>),
}

impl View for LoadError {
    type V = LoadErrorV;

    open spec fn view(&self) -> LoadErrorV {
        match self {
            LoadError::Parse(s) => LoadErrorV::Parse(s@),
            LoadError::Shape(i) => LoadErrorV::Shape(i@),
            LoadError::Io(s) => LoadErrorV::Io(s@),
        }
    }
}

/// One entry of a `wears` object: its value must be the image location, a
/// string; on success the classified wear, on failure the entry's key.
pub open spec fn spec_wear_entry(entry: (Seq<char>, Json)) -> Result<WearV, Seq<char>> {
    match entry.1 {
        Json::Str(img) => Ok(spec_wear(entry.0, img)),
        _ => Err(entry.0),
    }
}

/// All entries of a `wears` object, in order; the first failing entry's key
/// on failure.
pub open spec fn spec_wears_of(entries: Seq<(Seq<char>, Json)>) -> Result<Seq<WearV>, Seq<char>>
    decreases entries.len(),
{
    if entries.len() == 0 {
        Ok(Seq::empty())
    } else {
        match spec_wears_of(entries.drop_last()) {
            Err(f) => Err(f),
            Ok(ws) => match spec_wear_entry(entries.last()) {
                Err(f) => Err(f),
                Ok(w) => Ok(ws.push(w)),
            },
        }
    }
}

/// One item built from its JSON object, under an already-classified rarity;
/// on failure the name of the first missing or mistyped field, in the order
/// name, desc, lore, can_be_souvenir, can_be_stattrak, wears.
pub open spec fn spec_item_of(rarity: RarityV, j: Json) -> Result<ItemV, Seq<char>> {
    match spec_get_str(j, "name"@) {
        None => Err("name"@),
        Some(name) => match spec_get_str(j, "desc"@) {
            None => Err("desc"@),
            Some(desc) => match spec_get_str(j, "lore"@) {
                None => Err("lore"@),
                Some(lore) => match spec_get_bool(j, "can_be_souvenir"@) {
                    None => Err("can_be_souvenir"@),
                    Some(souvenir) => match spec_get_bool(j, "can_be_stattrak"@) {
                        None => Err("can_be_stattrak"@),
                        Some(stattrak) => match spec_get(j, "wears"@) {
                            Some(Json::Obj(wentries)) => match spec_wears_of(wentries) {
                                Err(f) => Err(f),
                                Ok(ws) => Ok(
                                    ItemV {
                                        name: name,
                                        item_type: spec_item_type(name),
                                        rarity: rarity,
                                        description: desc,
                                        lore: lore,
                                        can_be_souvenir: souvenir,
                                        can_be_stattrak: stattrak,
                                        wears: ws,
                                    },
                                ),
                            },
                            _ => Err("wears"@),
                        },
                    },
                },
            },
        },
    }
}

/// All items of one rarity group, in order; on failure the offending field
/// together with the group's label and the failing item's position in it.
pub open spec fn spec_group_items(label: Seq<char>, items: Seq<Json>) -> Result<
    Seq<ItemV>,
    ShapeV,
>
    decreases items.len(),
{
    if items.len() == 0 {
        Ok(Seq::empty())
    } else {
        match spec_group_items(label, items.drop_last()) {
            Err(e) => Err(e),
            Ok(its) => match spec_item_of(spec_rarity(label), items.last()) {
                Err(f) => Err(
                    ShapeV {
                        field: f,
                        group: Some(label),
                        index: Some(items.len() - 1),
                    },
                ),
                Ok(it) => Ok(its.push(it)),
            },
        }
    }
}

/// One entry of the `content` object: its value must be an array of item
/// objects; a group whose value is no array is reported under its own label.
pub open spec fn spec_group_entry(entry: (Seq<char>, Json)) -> Result<Seq<ItemV>, ShapeV> {
    match entry.1 {
        Json::Arr(items) => spec_group_items(entry.0, items),
        _ => Err(ShapeV { field: entry.0, group: Some(entry.0), index: None }),
    }
}

/// All items of all rarity groups, concatenated in group order; the first
/// failure in traversal order on failure.
pub open spec fn spec_groups(groups: Seq<(Seq<char>, Json)>) -> Result<Seq<ItemV>, ShapeV>
    decreases groups.len(),
{
    if groups.len() == 0 {
        Ok(Seq::empty())
    } else {
        match spec_groups(groups.drop_last()) {
            Err(e) => Err(e),
            Ok(its) => match spec_group_entry(groups.last()) {
                Err(e) => Err(e),
                Ok(more) => Ok(its + more),
            },
        }
    }
}

/// The whole document: `name` and `image_url` at the root, then a `content`
/// object of rarity groups.
pub open spec fn spec_container_of(j: Json) -> Result<ContainerV, ShapeV> {
    match spec_get_str(j, "name"@) {
        None => Err(ShapeV { field: "name"@, group: None, index: None }),
        Some(name) => match spec_get_str(j, "image_url"@) {
            None => Err(ShapeV { field: "image_url"@, group: None, index: None }),
            Some(icon) => match spec_get(j, "content"@) {
                Some(Json::Obj(groups)) => match spec_groups(groups) {
                    Err(e) => Err(e),
                    Ok(items) => Ok(
                        ContainerV {
                            name: name,
                            item_type: spec_container_type(name),
                            icon: icon,
                            content: items,
                        },
                    ),
                },
                _ => Err(ShapeV { field: "content"@, group: None, index: None }),
            },
        },
    }
}

proof fn lemma_wears_first_error(entries: Seq<(Seq<char>, Json)>, k: int)
    requires
        0 <= k < entries.len(),
        spec_wears_of(entries.take(k)) is Ok,
        spec_wear_entry(entries[k]) is Err,
    ensures
        spec_wears_of(entries) == Err::<Seq<WearV>, Seq<char>>(spec_wear_entry(entries[k])->Err_0),
    decreases entries.len(),
{
    if entries.len() == k + 1 {
        assert(entries.drop_last() =~= entries.take(k));
    } else {
        assert(entries.drop_last().take(k) =~= entries.take(k));
        lemma_wears_first_error(entries.drop_last(), k);
    }
}

proof fn lemma_items_first_error(label: Seq<char>, items: Seq<Json>, k: int)
    requires
        0 <= k < items.len(),
        spec_group_items(label, items.take(k)) is Ok,
        spec_item_of(spec_rarity(label), items[k]) is Err,
    ensures
        spec_group_items(label, items) == Err::<Seq<ItemV>, ShapeV>(
            ShapeV {
                field: spec_item_of(spec_rarity(label), items[k])->Err_0,
                group: Some(label),
                index: Some(k),
            },
        ),
    decreases items.len(),
{
    if items.len() == k + 1 {
        assert(items.drop_last() =~= items.take(k));
    } else {
        assert(items.drop_last().take(k) =~= items.take(k));
        lemma_items_first_error(label, items.drop_last(), k);
    }
}

proof fn lemma_groups_first_error(groups: Seq<(Seq<char>, Json)>, k: int)
    requires
        0 <= k < groups.len(),
        spec_groups(groups.take(k)) is Ok,
        spec_group_entry(groups[k]) is Err,
    ensures
        spec_groups(groups) == Err::<Seq<ItemV>, ShapeV>(spec_group_entry(groups[k])->Err_0),
    decreases groups.len(),
{
    if groups.len() == k + 1 {
        assert(groups.drop_last() =~= groups.take(k));
    } else {
        assert(groups.drop_last().take(k) =~= groups.take(k));
        lemma_groups_first_error(groups.drop_last(), k);
    }
}

/// The string under `key` in `node`, in the sense of `spec_get_str`.
fn field_str<'a>(node: &'a JsonNode, key: &str) -> (r: Option<&'a String>)
    ensures
        match r {
            Some(s) => spec_get_str(node@, key@) == Some(s@),
            None => spec_get_str(node@, key@) is None,
        },
{
    match node.lookup(key) {
        Some(n) => n.get_str(),
        None => None,
    }
}

/// The boolean under `key` in `node`, in the sense of `spec_get_bool`.
fn field_bool(node: &JsonNode, key: &str) -> (r: Option<bool>)
    ensures
        r == spec_get_bool(node@, key@),
{
    match node.lookup(key) {
        Some(n) => n.get_bool(),
        None => None,
    }
}

/// Build the wear list of one item from its `wears` object.
fn build_wears(wv: &Vec<(String, JsonNode)>) -> (r: Result<Vec<SkinWear>, String>)
    ensures
        match r {
            Ok(ws) => spec_wears_of(pairs_view(wv@)) == Ok::<Seq<WearV>, Seq<char>>(
                wears_view(ws@),
            ),
            Err(f) => spec_wears_of(pairs_view(wv@)) == Err::<Seq<WearV>, Seq<char>>(f@),
        },
{
    let ghost pw = pairs_view(wv@);
    proof {
        lemma_pairs_view(wv@);
        assert(pw.take(0) =~= Seq::<(Seq<char>, Json)>::empty());
        assert(wears_view(Seq::<SkinWear>::empty()) =~= Seq::<WearV>::empty());
    }
    let mut ws: Vec<SkinWear> = Vec::new();
    let mut k: usize = 0;
    while k < wv.len()
        invariant
            k <= wv.len(),
            pw == pairs_view(wv@),
            pw.len() == wv@.len(),
            forall|i: int| 0 <= i < wv@.len() ==> pw[i] == (wv@[i].0@, wv@[i].1@),
            spec_wears_of(pw.take(k as int)) == Ok::<Seq<WearV>, Seq<char>>(wears_view(ws@)),
        decreases wv.len() - k,
    {
        let img = match wv[k].1.get_str() {
            Some(s) => s,
            None => {
                proof {
                    lemma_wears_first_error(pw, k as int);
                }
                return Err(wv[k].0.clone());
            },
        };
        let w = SkinWear::new(wv[k].0.clone(), img.clone());
        let ghost prev = ws@;
        ws.push(w);
        proof {
            assert(pw.take(k + 1).drop_last() =~= pw.take(k as int));
            assert(pw.take(k + 1).last() == pw[k as int]);
            assert(wears_view(ws@) =~= wears_view(prev).push(w@));
        }
        k += 1;
    }
    proof {
        assert(pw.take(wv@.len() as int) =~= pw);
    }
    Ok(ws)
}

impl ItemSkin {
    /// Build one item from its JSON object; `rarity` comes from the group the
    /// item stood under in the document, not from the item itself. On a
    /// missing or mistyped field, the field's name.
    pub fn from_json_value(rarity: SkinRarity, value: &JsonNode) -> (r: Result<ItemSkin, String>)
        ensures
            match r {
                Ok(it) => spec_item_of(rarity@, value@) == Ok::<ItemV, Seq<char>>(it@),
                Err(f) => spec_item_of(rarity@, value@) == Err::<ItemV, Seq<char>>(f@),
            },
    {
        let name = match field_str(value, "name") {
            Some(s) => s.clone(),
            None => {
                return Err(String::from_str("name"));
            },
        };
        let item_type = ItemSkinType::from_str(name.as_str());
        let description = match field_str(value, "desc") {
            Some(s) => s.clone(),
            None => {
                return Err(String::from_str("desc"));
            },
        };
        let lore = match field_str(value, "lore") {
            Some(s) => s.clone(),
            None => {
                return Err(String::from_str("lore"));
            },
        };
        let can_be_souvenir = match field_bool(value, "can_be_souvenir") {
            Some(b) => b,
            None => {
                return Err(String::from_str("can_be_souvenir"));
            },
        };
        let can_be_stattrak = match field_bool(value, "can_be_stattrak") {
            Some(b) => b,
            None => {
                return Err(String::from_str("can_be_stattrak"));
            },
        };
        let wears_node = match value.lookup("wears") {
            Some(n) => n,
            None => {
                return Err(String::from_str("wears"));
            },
        };
        let wv = match wears_node.get_obj() {
            Some(v) => v,
            None => {
                return Err(String::from_str("wears"));
            },
        };
        let wears = match build_wears(wv) {
            Ok(ws) => ws,
            Err(f) => {
                return Err(f);
            },
        };
        let it = ItemSkin {
            name,
            item_type,
            rarity,
            description,
            lore,
            can_be_souvenir,
            can_be_stattrak,
            wears,
        };
        proof {
            lemma_item_skin_view(&it);
        }
        Ok(it)
    }
}

/// Build all items of one rarity group from its array of item objects.
fn build_group_items(label: &String, items: &Vec<JsonNode>) -> (r: Result<
    Vec<ItemSkin>,
    ShapeIssue,
>)
    ensures
        match r {
            Ok(v) => spec_group_items(label@, nodes_view(items@)) == Ok::<Seq<ItemV>, ShapeV>(
                items_view(v@),
            ),
            Err(e) => spec_group_items(label@, nodes_view(items@)) == Err::<Seq<ItemV>, ShapeV>(
                e@,
            ),
        },
{
    let ghost nv = nodes_view(items@);
    proof {
        lemma_nodes_view(items@);
        assert(nv.take(0) =~= Seq::<Json>::empty());
        assert(items_view(Seq::<ItemSkin>::empty()) =~= Seq::<ItemV>::empty());
    }
    let mut out: Vec<ItemSkin> = Vec::new();
    let mut k: usize = 0;
    while k < items.len()
        invariant
            k <= items.len(),
            nv == nodes_view(items@),
            nv.len() == items@.len(),
            forall|i: int| 0 <= i < items@.len() ==> nv[i] == items@[i]@,
            spec_group_items(label@, nv.take(k as int)) == Ok::<Seq<ItemV>, ShapeV>(
                items_view(out@),
            ),
        decreases items.len() - k,
    {
        let rarity = SkinRarity::from_str(label.as_str());
        match ItemSkin::from_json_value(rarity, &items[k]) {
            Err(f) => {
                proof {
                    lemma_items_first_error(label@, nv, k as int);
                }
                return Err(
                    ShapeIssue { field: f, group: Some(label.clone()), index: Some(k) },
                );
            },
            Ok(it) => {
                let ghost prev = out@;
                out.push(it);
                proof {
                    assert(nv.take(k + 1).drop_last() =~= nv.take(k as int));
                    assert(nv.take(k + 1).last() == nv[k as int]);
                    assert(items_view(out@) =~= items_view(prev).push(out@.last()@));
                }
            },
        }
        k += 1;
    }
    proof {
        assert(nv.take(items@.len() as int) =~= nv);
    }
    Ok(out)
}

impl ItemContainer {
    /// Build the typed graph from an already-parsed JSON document, exactly as
    /// `spec_container_of` describes it; every shape violation becomes a
    /// `LoadError::Shape` naming the first offending field.
    pub fn from_json_value(root: &JsonNode) -> (r: Result<ItemContainer, LoadError>)
        ensures
            match spec_container_of(root@) {
                Ok(c) => r matches Ok(ic) && ic@ == c,
                Err(s) => r matches Err(e) && e@ == LoadErrorV::Shape(s),
            },
    {
        let name = match field_str(root, "name") {
            Some(s) => s.clone(),
            None => {
                return Err(
                    LoadError::Shape(
                        ShapeIssue { field: String::from_str("name"), group: None, index: None },
                    ),
                );
            },
        };
        let item_type = ItemContainerType::from_str(name.as_str());
        let icon = match field_str(root, "image_url") {
            Some(s) => s.clone(),
            None => {
                return Err(
                    LoadError::Shape(
                        ShapeIssue {
                            field: String::from_str("image_url"),
                            group: None,
                            index: None,
                        },
                    ),
                );
            },
        };
        let content_node = match root.lookup("content") {
            Some(n) => n,
            None => {
                return Err(
                    LoadError::Shape(
                        ShapeIssue { field: String::from_str("content"), group: None, index: None },
                    ),
                );
            },
        };
        let gv = match content_node.get_obj() {
            Some(v) => v,
            None => {
                return Err(
                    LoadError::Shape(
                        ShapeIssue { field: String::from_str("content"), group: None, index: None },
                    ),
                );
            },
        };
        let ghost pg = pairs_view(gv@);
        proof {
            lemma_pairs_view(gv@);
            assert(pg.take(0) =~= Seq::<(Seq<char>, Json)>::empty());
            assert(items_view(Seq::<ItemSkin>::empty()) =~= Seq::<ItemV>::empty());
        }
        let mut content: Vec<ItemSkin> = Vec::new();
        let mut i: usize = 0;
        while i < gv.len()
            invariant
                i <= gv.len(),
                pg == pairs_view(gv@),
                pg.len() == gv@.len(),
                forall|j: int| 0 <= j < gv@.len() ==> pg[j] == (gv@[j].0@, gv@[j].1@),
                spec_get_str(root@, "name"@) == Some(name@),
                spec_get_str(root@, "image_url"@) == Some(icon@),
                spec_get(root@, "content"@) == Some(Json::Obj(pg)),
                spec_groups(pg.take(i as int)) == Ok::<Seq<ItemV>, ShapeV>(items_view(content@)),
            decreases gv.len() - i,
        {
            let arr = match gv[i].1.get_arr() {
                Some(a) => a,
                None => {
                    proof {
                        lemma_groups_first_error(pg, i as int);
                    }
                    return Err(
                        LoadError::Shape(
                            ShapeIssue {
                                field: gv[i].0.clone(),
                                group: Some(gv[i].0.clone()),
                                index: None,
                            },
                        ),
                    );
                },
            };
            match build_group_items(&gv[i].0, arr) {
                Err(e) => {
                    proof {
                        lemma_groups_first_error(pg, i as int);
                    }
                    return Err(LoadError::Shape(e));
                },
                Ok(mut its) => {
                    let ghost prev = content@;
                    let ghost more = its@;
                    content.append(&mut its);
                    proof {
                        assert(pg.take(i + 1).drop_last() =~= pg.take(i as int));
                        assert(pg.take(i + 1).last() == pg[i as int]);
                        assert(items_view(content@) =~= items_view(prev) + items_view(more));
                    }
                },
            }
            i += 1;
        }
        proof {
            assert(pg.take(gv@.len() as int) =~= pg);
        }
        let c = ItemContainer { name, item_type, icon, content };
        proof {
            lemma_item_container_view(&c);
        }
        Ok(c)
    }

    /// Parse one JSON document from its bytes and build the typed graph.
    /// Bytes that are not well-formed JSON yield a `LoadError::Parse` carrying
    /// the syntax diagnostic; a well-formed document of the wrong shape yields
    /// the `LoadError::Shape` that `spec_container_of` describes.
    pub fn from_slice(bytes: &[u8]) -> (r: Result<ItemContainer, LoadError>)
        ensures
            match parsed_json(bytes@) {
                None => r matches Err(e) && e@ is Parse,
                Some(j) => match spec_container_of(j) {
                    Ok(c) => r matches Ok(ic) && ic@ == c,
                    Err(s) => r matches Err(e) && e@ == LoadErrorV::Shape(s),
                },
            },
    {
        let root = match parse_json_bytes(bytes) {
            Ok(n) => n,
            Err(msg) => {
                return Err(LoadError::Parse(msg));
            },
        };
        Self::from_json_value(&root)
    }
}

} // verus!
