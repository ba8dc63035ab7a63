//! Gathering the MonoBehaviours of the asset files into tables keyed by the
//! guid of the asset each came from.

use crate::importer::mono_behaviour::{
    BuildingMonoBehaviour, FactoryMonoBehaviour, GameDataManifestMonoBehaviour,
    GathererHubMonoBehaviour, HarvesterMonoBehaviour, KnownMonoBehaviour,
    ProductCategoryModifierInfoMonoBehaviour, ProductCategoryMonoBehaviour,
    ProductDefinitionDataCategoryProviderMonoBehaviour, ProductDefinitionMonoBehaviour,
    RecipeMonoBehaviour, TechTreeRecipeUnlockMonoBehaviour,
};
use crate::strings::str_equal;
use crate::calculator::load::{has_guid, unique_guids};
use vstd::prelude::*;

verus! {

/// What makes a building a gatherer hub, a factory or a module.
pub enum BuildingDetail {
    GathererHub(GathererHubMonoBehaviour),
    Factory(FactoryMonoBehaviour),
    Harvester(HarvesterMonoBehaviour),
}

/// The main MonoBehaviour of an asset file.
pub enum Base<F> {
    Building(BuildingMonoBehaviour),
    Recipe(RecipeMonoBehaviour),
    Product(ProductDefinitionMonoBehaviour),
    ProductCategory(ProductCategoryMonoBehaviour),
    ProductCategoryModifierInfo(ProductCategoryModifierInfoMonoBehaviour<F>),
    TechTreeRecipeUnlock(TechTreeRecipeUnlockMonoBehaviour),
    ProductDefinitionDataCategoryProvider(ProductDefinitionDataCategoryProviderMonoBehaviour),
    GameDataManifest(GameDataManifestMonoBehaviour),
}

/// Why the documents of an asset file, or an asset, could not be taken in.
#[derive(Debug, Clone, Copy, PartialEq, Eq)]
pub enum AssetError {
    /// A file holds two main MonoBehaviours.
    DuplicateBase,
    /// A file holds two building details.
    DuplicateDetail,
    /// A file holds a building detail but no main MonoBehaviour.
    DetailWithoutBase,
    /// Two assets of one table share a guid.
    DuplicateGuid,
    /// A game data manifest was met twice.
    DuplicateManifest,
    /// A game data manifest has a guid that is none of the three known ones.
    UnknownManifest,
}

/// The MonoBehaviour is a main one.
pub open spec fn is_base<F>(doc: KnownMonoBehaviour<F>) -> bool {
    !is_detail(doc)
}

/// The MonoBehaviour is a building detail.
pub open spec fn is_detail<F>(doc: KnownMonoBehaviour<F>) -> bool {
    doc is GathererHub || doc is Factory || doc is Harvester
}

/// How many of the first `n` documents are building details (`details`) or
/// main MonoBehaviours.
pub open spec fn count_kind<F>(docs: Seq<KnownMonoBehaviour<F>>, n: int, details: bool) -> nat
    decreases n,
{
    if n <= 0 {
        0
    } else {
        count_kind(docs, n - 1, details) + if is_detail(docs[n - 1]) == details {
            1nat
        } else {
            0nat
        }
    }
}

/// Document `i` is the second of its kind, and no kind had a second before.
pub open spec fn first_repeat_at<F>(docs: Seq<KnownMonoBehaviour<F>>, i: int) -> bool {
    &&& 0 <= i < docs.len()
    &&& count_kind(docs, i, is_detail(docs[i])) == 1
    &&& count_kind(docs, i, true) <= 1
    &&& count_kind(docs, i, false) <= 1
}

/// The first document that is the second of its kind is a building detail
/// (`details`) or a main MonoBehaviour.
pub open spec fn repeats_first<F>(docs: Seq<KnownMonoBehaviour<F>>, details: bool) -> bool {
    exists|i: int| #[trigger] first_repeat_at(docs, i) && is_detail(docs[i]) == details
}

/// The main MonoBehaviour that document `doc` is.
pub open spec fn base_of<F>(doc: KnownMonoBehaviour<F>) -> Base<F> {
    match doc {
        KnownMonoBehaviour::Building(x) => Base::Building(x),
        KnownMonoBehaviour::Recipe(x) => Base::Recipe(x),
        KnownMonoBehaviour::ProductDefinition(x) => Base::Product(x),
        KnownMonoBehaviour::ProductCategory(x) => Base::ProductCategory(x),
        KnownMonoBehaviour::ProductCategoryModifierInfo(x) => Base::ProductCategoryModifierInfo(x),
        KnownMonoBehaviour::TechTreeRecipeUnlock(x) => Base::TechTreeRecipeUnlock(x),
        KnownMonoBehaviour::ProductDefinitionDataCategoryProvider(x) => Base::ProductDefinitionDataCategoryProvider(x),
        KnownMonoBehaviour::GameDataManifest(x) => Base::GameDataManifest(x),
        KnownMonoBehaviour::GathererHub(_) => arbitrary(),
        KnownMonoBehaviour::Factory(_) => arbitrary(),
        KnownMonoBehaviour::Harvester(_) => arbitrary(),
    }
}

/// The building detail that document `doc` is.
pub open spec fn detail_of<F>(doc: KnownMonoBehaviour<F>) -> BuildingDetail {
    match doc {
        KnownMonoBehaviour::GathererHub(x) => BuildingDetail::GathererHub(x),
        KnownMonoBehaviour::Factory(x) => BuildingDetail::Factory(x),
        KnownMonoBehaviour::Harvester(x) => BuildingDetail::Harvester(x),
        _ => arbitrary(),
    }
}

/// The main MonoBehaviour and the building detail of a file: each the one
/// document of its kind, if there is one.
pub open spec fn collected<F>(
    docs: Seq<KnownMonoBehaviour<F>>,
    base: Option<Base<F>>,
    detail: Option<BuildingDetail>,
) -> bool {
    &&& (base is None <==> count_kind(docs, docs.len() as int, false) == 0)
    &&& (base matches Some(b) ==> exists|i: int| 0 <= i < docs.len() && is_base(docs[i]) && #[trigger] base_of(docs[i]) == b)
    &&& (detail is None <==> count_kind(docs, docs.len() as int, true) == 0)
    &&& (detail matches Some(d) ==> exists|i: int| 0 <= i < docs.len() && is_detail(docs[i]) && #[trigger] detail_of(docs[i]) == d)
}

fn is_detail_document<F>(doc: &KnownMonoBehaviour<F>) -> (r: bool)
    ensures
        r == is_detail(*doc),
{
    match doc {
        KnownMonoBehaviour::GathererHub(_) => true,
        KnownMonoBehaviour::Factory(_) => true,
        KnownMonoBehaviour::Harvester(_) => true,
        _ => false,
    }
}

/// Sorts the documents of one asset file into its main MonoBehaviour and
/// its building detail. A file may hold at most one of each, in the order
/// the documents come, and a detail only next to a main MonoBehaviour.
pub fn collect_documents<F>(documents: Vec<KnownMonoBehaviour<F>>) -> (r: Result<
    (Option<Base<F>>, Option<BuildingDetail>),
    AssetError,
>)
    ensures
        r matches Ok((base, detail)) ==> {
            &&& count_kind(documents@, documents@.len() as int, false) <= 1
            &&& count_kind(documents@, documents@.len() as int, true) <= 1
            &&& !(count_kind(documents@, documents@.len() as int, false) == 0 && count_kind(
                documents@,
                documents@.len() as int,
                true,
            ) == 1)
            &&& collected(documents@, base, detail)
        },
        r matches Err(e) ==> match e {
            AssetError::DuplicateBase => repeats_first(documents@, false),
            AssetError::DuplicateDetail => repeats_first(documents@, true),
            AssetError::DetailWithoutBase => {
                &&& count_kind(documents@, documents@.len() as int, false) == 0
                &&& count_kind(documents@, documents@.len() as int, true) == 1
            },
            _ => false,
        },
{
    let ghost docs = documents@;
    let mut queue = crate::iter::into_queue(documents);
    let mut base: Option<Base<F>> = None;
    let mut detail: Option<BuildingDetail> = None;
    let mut i: usize = 0;
    let n = queue.len();
    while queue.len() > 0
        invariant
            docs == documents@,
            n == docs.len(),
            i + queue@.len() == n,
            queue@ == docs.subrange(i as int, n as int),
            count_kind(docs, i as int, false) <= 1,
            count_kind(docs, i as int, true) <= 1,
            collected(docs.subrange(0, i as int), base, detail),
            forall|j: int| 0 <= j <= i ==> #[trigger] count_kind(docs.subrange(0, i as int), j, false) == count_kind(docs, j, false),
            forall|j: int| 0 <= j <= i ==> #[trigger] count_kind(docs.subrange(0, i as int), j, true) == count_kind(docs, j, true),
            forall|j: int| 0 <= j < i ==> !#[trigger] first_repeat_at(docs, j),
        decreases queue@.len(),
    {
        let doc = queue.pop_front().unwrap();
        assert(doc == docs[i as int]);
        let ghost prefix = docs.subrange(0, i as int);
        let ghost next = docs.subrange(0, i + 1);
        proof {
            assert forall|j: int| 0 <= j <= i + 1 implies #[trigger] count_kind(next, j, false)
                == count_kind(docs, j, false) by {
                lemma_count_prefix(docs, next, j, false);
            }
            assert forall|j: int| 0 <= j <= i + 1 implies #[trigger] count_kind(next, j, true)
                == count_kind(docs, j, true) by {
                lemma_count_prefix(docs, next, j, true);
            }
        }
        let doc_is_detail = is_detail_document(&doc);
        if doc_is_detail && detail.is_some() {
            assert(first_repeat_at(docs, i as int) && is_detail(docs[i as int]));
            assert(repeats_first(docs, true));
            return Err(AssetError::DuplicateDetail);
        }
        if !doc_is_detail && base.is_some() {
            assert(first_repeat_at(docs, i as int) && !is_detail(docs[i as int]));
            assert(repeats_first(docs, false));
            return Err(AssetError::DuplicateBase);
        }
        match doc {
            KnownMonoBehaviour::GathererHub(value) => {
                detail = Some(BuildingDetail::GathererHub(value));
            },
            KnownMonoBehaviour::Factory(value) => {
                detail = Some(BuildingDetail::Factory(value));
            },
            KnownMonoBehaviour::Harvester(value) => {
                detail = Some(BuildingDetail::Harvester(value));
            },
            KnownMonoBehaviour::Building(value) => {
                base = Some(Base::Building(value));
            },
            KnownMonoBehaviour::Recipe(value) => {
                base = Some(Base::Recipe(value));
            },
            KnownMonoBehaviour::ProductDefinition(value) => {
                base = Some(Base::Product(value));
            },
            KnownMonoBehaviour::ProductCategory(value) => {
                base = Some(Base::ProductCategory(value));
            },
            KnownMonoBehaviour::ProductCategoryModifierInfo(value) => {
                base = Some(Base::ProductCategoryModifierInfo(value));
            },
            KnownMonoBehaviour::TechTreeRecipeUnlock(value) => {
                base = Some(Base::TechTreeRecipeUnlock(value));
            },
            KnownMonoBehaviour::ProductDefinitionDataCategoryProvider(value) => {
                base = Some(Base::ProductDefinitionDataCategoryProvider(value));
            },
            KnownMonoBehaviour::GameDataManifest(value) => {
                base = Some(Base::GameDataManifest(value));
            },
        }
        proof {
            assert(!first_repeat_at(docs, i as int));
            assert(collected(next, base, detail)) by {
                if base is Some && !(docs[i as int] is GathererHub || docs[i as int] is Factory
                    || docs[i as int] is Harvester) {
                    assert(is_base(next[i as int]) && base_of(next[i as int]) == base->0);
                } else if base is Some {
                    let j = choose|j: int|
                        0 <= j < prefix.len() && is_base(prefix[j]) && #[trigger] base_of(prefix[j])
                            == base->0;
                    assert(next[j] == prefix[j]);
                }
                if detail is Some && (docs[i as int] is GathererHub || docs[i as int] is Factory
                    || docs[i as int] is Harvester) {
                    assert(is_detail(next[i as int]) && detail_of(next[i as int]) == detail->0);
                } else if detail is Some {
                    let j = choose|j: int|
                        0 <= j < prefix.len() && is_detail(prefix[j]) && #[trigger] detail_of(
                            prefix[j],
                        ) == detail->0;
                    assert(next[j] == prefix[j]);
                }
            }
        }
        i = i + 1;
    }
    proof {
        assert(docs.subrange(0, n as int) =~= docs);
    }
    if base.is_none() && detail.is_some() {
        return Err(AssetError::DetailWithoutBase);
    }
    Ok((base, detail))
}

/// Counting in a prefix of a sequence counts as in the sequence.
proof fn lemma_count_prefix<F>(
    docs: Seq<KnownMonoBehaviour<F>>,
    prefix: Seq<KnownMonoBehaviour<F>>,
    j: int,
    details: bool,
)
    requires
        prefix.len() <= docs.len(),
        forall|k: int| 0 <= k < prefix.len() ==> prefix[k] == docs[k],
        j <= prefix.len(),
    ensures
        count_kind(prefix, j, details) == count_kind(docs, j, details),
    decreases j,
{
    if j > 0 {
        lemma_count_prefix(docs, prefix, j - 1, details);
    }
}

/// The assets read so far, one table per kind, each keyed by asset guid.
pub struct Assets<F> {
    pub common_manifest: Option<GameDataManifestMonoBehaviour>,
    pub roi_2130_manifest: Option<GameDataManifestMonoBehaviour>,
    pub roi_standard_manifest: Option<GameDataManifestMonoBehaviour>,
    pub recipes: Vec<(String, RecipeMonoBehaviour)>,
    pub products: Vec<(String, ProductDefinitionMonoBehaviour)>,
    pub buildings: Vec<(String, (BuildingMonoBehaviour, Option<BuildingDetail>))>,
    pub product_categories: Vec<(String, ProductCategoryMonoBehaviour)>,
    pub product_category_modifier_info: Vec<(String, ProductCategoryModifierInfoMonoBehaviour<F>)>,
    pub tech_tree_recipe_unlocks: Vec<(String, TechTreeRecipeUnlockMonoBehaviour)>,
    pub product_definition_data_category_providers: Vec<
        (String, ProductDefinitionDataCategoryProviderMonoBehaviour),
    >,
}

/// Every table of the assets has each guid at most once.
pub open spec fn assets_wf<F>(a: Assets<F>) -> bool {
    &&& unique_guids(a.recipes@)
    &&& unique_guids(a.products@)
    &&& unique_guids(a.buildings@)
    &&& unique_guids(a.product_categories@)
    &&& unique_guids(a.product_category_modifier_info@)
    &&& unique_guids(a.tech_tree_recipe_unlocks@)
    &&& unique_guids(a.product_definition_data_category_providers@)
}

pub const COMMON_MANIFEST_GUID: &'static str = "ba662a6bd9ec3b449b2375daa750a6dd";

pub const ROI_2130_MANIFEST_GUID: &'static str = "9eb8f422ddeb0ac46812be5544560f25";

pub const ROI_STANDARD_MANIFEST_GUID: &'static str = "34ed83f2d30990442ad2274840669bc9";

/// Adds `value` under `guid` unless the table has that guid already.
fn insert_new<T>(table: &mut Vec<(String, T)>, guid: String, value: T) -> (r: bool)
    ensures
        r == !has_guid(old(table)@, guid@),
        r ==> final(table)@ == old(table)@.push((guid, value)),
        !r ==> *final(table) == *old(table),
        unique_guids(old(table)@) ==> unique_guids(final(table)@),
{
    let mut p: usize = 0;
    while p < table.len()
        invariant
            p <= table@.len(),
            forall|q: int| 0 <= q < p ==> (#[trigger] table@[q]).0@ != guid@,
        decreases table@.len() - p,
    {
        if table[p].0 == guid {
            assert(crate::calculator::load::guid_at(table@, guid@, p as int));
            return false;
        }
        p = p + 1;
    }
    proof {
        if has_guid(table@, guid@) {
            let q = choose|q: int| crate::calculator::load::guid_at(table@, guid@, q);
            assert(table@[q].0@ != guid@);
        }
    }
    let ghost before = table@;
    table.push((guid, value));
    assert forall|i: int, j: int| 0 <= i < j < table@.len() && unique_guids(before) implies (
    #[trigger] table@[i]).0@ != (#[trigger] table@[j]).0@ by {
        if j < before.len() {
            assert(before[i] == table@[i] && before[j] == table@[j]);
        }
    }
    true
}

/// `old` and `new` are the same assets but for the table `which`, which
/// gained the entry `(guid, value)` in `new`.
pub open spec fn only_pushed<F>(old: Assets<F>, new: Assets<F>, which: int) -> bool {
    &&& old.common_manifest == new.common_manifest
    &&& old.roi_2130_manifest == new.roi_2130_manifest
    &&& old.roi_standard_manifest == new.roi_standard_manifest
    &&& which != 0 ==> old.recipes == new.recipes
    &&& which != 1 ==> old.products == new.products
    &&& which != 2 ==> old.buildings == new.buildings
    &&& which != 3 ==> old.product_categories == new.product_categories
    &&& which != 4 ==> old.product_category_modifier_info == new.product_category_modifier_info
    &&& which != 5 ==> old.tech_tree_recipe_unlocks == new.tech_tree_recipe_unlocks
    &&& which != 6 ==> old.product_definition_data_category_providers
        == new.product_definition_data_category_providers
}

impl<F> Assets<F> {
    /// No assets yet.
    pub fn new() -> (r: Self)
        ensures
            r.common_manifest is None,
            r.roi_2130_manifest is None,
            r.roi_standard_manifest is None,
            r.recipes@.len() == 0,
            r.products@.len() == 0,
            r.buildings@.len() == 0,
            r.product_categories@.len() == 0,
            r.product_category_modifier_info@.len() == 0,
            r.tech_tree_recipe_unlocks@.len() == 0,
            r.product_definition_data_category_providers@.len() == 0,
            assets_wf(r),
    {
        Assets {
            common_manifest: None,
            roi_2130_manifest: None,
            roi_standard_manifest: None,
            recipes: Vec::new(),
            products: Vec::new(),
            buildings: Vec::new(),
            product_categories: Vec::new(),
            product_category_modifier_info: Vec::new(),
            tech_tree_recipe_unlocks: Vec::new(),
            product_definition_data_category_providers: Vec::new(),
        }
    }

    /// Takes in the asset with guid `guid` whose file held `base` and
    /// `detail`. A building goes with its detail; any other main
    /// MonoBehaviour next to a detail is left out (`Ok(false)`). Manifests
    /// go to the slot their guid names. A table may not get a guid twice,
    /// nor a manifest slot a second manifest.
    pub fn insert_file(&mut self, guid: String, base: Base<F>, detail: Option<BuildingDetail>) -> (r:
        Result<bool, AssetError>)
        ensures
            r is Err ==> *final(self) == *old(self),
            assets_wf(*old(self)) ==> assets_wf(*final(self)),
            match (base, detail) {
                (Base::Building(b), d) => if has_guid(old(self).buildings@, guid@) {
                    r == Err::<bool, AssetError>(AssetError::DuplicateGuid)
                } else {
                    r == Ok::<bool, AssetError>(true) && only_pushed(*old(self), *final(self), 2)
                        && final(self).buildings@ == old(self).buildings@.push((guid, (b, d)))
                },
                (_, Some(_)) => r == Ok::<bool, AssetError>(false) && *final(self) == *old(self),
                (Base::Recipe(v), None) => if has_guid(old(self).recipes@, guid@) {
                    r == Err::<bool, AssetError>(AssetError::DuplicateGuid)
                } else {
                    r == Ok::<bool, AssetError>(true) && only_pushed(*old(self), *final(self), 0)
                        && final(self).recipes@ == old(self).recipes@.push((guid, v))
                },
                (Base::Product(v), None) => if has_guid(old(self).products@, guid@) {
                    r == Err::<bool, AssetError>(AssetError::DuplicateGuid)
                } else {
                    r == Ok::<bool, AssetError>(true) && only_pushed(*old(self), *final(self), 1)
                        && final(self).products@ == old(self).products@.push((guid, v))
                },
                (Base::ProductCategory(v), None) => if has_guid(old(self).product_categories@, guid@) {
                    r == Err::<bool, AssetError>(AssetError::DuplicateGuid)
                } else {
                    r == Ok::<bool, AssetError>(true) && only_pushed(*old(self), *final(self), 3)
                        && final(self).product_categories@ == old(self).product_categories@.push(
                        (guid, v),
                    )
                },
                (Base::ProductCategoryModifierInfo(v), None) => if has_guid(
                    old(self).product_category_modifier_info@,
                    guid@,
                ) {
                    r == Err::<bool, AssetError>(AssetError::DuplicateGuid)
                } else {
                    r == Ok::<bool, AssetError>(true) && only_pushed(*old(self), *final(self), 4)
                        && final(self).product_category_modifier_info@
                        == old(self).product_category_modifier_info@.push((guid, v))
                },
                (Base::TechTreeRecipeUnlock(v), None) => if has_guid(
                    old(self).tech_tree_recipe_unlocks@,
                    guid@,
                ) {
                    r == Err::<bool, AssetError>(AssetError::DuplicateGuid)
                } else {
                    r == Ok::<bool, AssetError>(true) && only_pushed(*old(self), *final(self), 5)
                        && final(self).tech_tree_recipe_unlocks@
                        == old(self).tech_tree_recipe_unlocks@.push((guid, v))
                },
                (Base::ProductDefinitionDataCategoryProvider(v), None) => if has_guid(
                    old(self).product_definition_data_category_providers@,
                    guid@,
                ) {
                    r == Err::<bool, AssetError>(AssetError::DuplicateGuid)
                } else {
                    r == Ok::<bool, AssetError>(true) && only_pushed(*old(self), *final(self), 6)
                        && final(self).product_definition_data_category_providers@
                        == old(self).product_definition_data_category_providers@.push((guid, v))
                },
                (Base::GameDataManifest(v), None) => if guid@ == COMMON_MANIFEST_GUID@ {
                    if old(self).common_manifest is Some {
                        r == Err::<bool, AssetError>(AssetError::DuplicateManifest)
                    } else {
                        r == Ok::<bool, AssetError>(true) && *final(self) == Assets {
                            common_manifest: Some(v),
                            ..*old(self)
                        }
                    }
                } else if guid@ == ROI_2130_MANIFEST_GUID@ {
                    if old(self).roi_2130_manifest is Some {
                        r == Err::<bool, AssetError>(AssetError::DuplicateManifest)
                    } else {
                        r == Ok::<bool, AssetError>(true) && *final(self) == Assets {
                            roi_2130_manifest: Some(v),
                            ..*old(self)
                        }
                    }
                } else if guid@ == ROI_STANDARD_MANIFEST_GUID@ {
                    if old(self).roi_standard_manifest is Some {
                        r == Err::<bool, AssetError>(AssetError::DuplicateManifest)
                    } else {
                        r == Ok::<bool, AssetError>(true) && *final(self) == Assets {
                            roi_standard_manifest: Some(v),
                            ..*old(self)
                        }
                    }
                } else {
                    r == Err::<bool, AssetError>(AssetError::UnknownManifest)
                },
            },
    {
        match (base, detail) {
            (Base::Building(b), d) => {
                if insert_new(&mut self.buildings, guid, (b, d)) {
                    Ok(true)
                } else {
                    Err(AssetError::DuplicateGuid)
                }
            },
            (_, Some(_)) => Ok(false),
            (Base::Recipe(v), None) => {
                if insert_new(&mut self.recipes, guid, v) {
                    Ok(true)
                } else {
                    Err(AssetError::DuplicateGuid)
                }
            },
            (Base::Product(v), None) => {
                if insert_new(&mut self.products, guid, v) {
                    Ok(true)
                } else {
                    Err(AssetError::DuplicateGuid)
                }
            },
            (Base::ProductCategory(v), None) => {
                if insert_new(&mut self.product_categories, guid, v) {
                    Ok(true)
                } else {
                    Err(AssetError::DuplicateGuid)
                }
            },
            (Base::ProductCategoryModifierInfo(v), None) => {
                if insert_new(&mut self.product_category_modifier_info, guid, v) {
                    Ok(true)
                } else {
                    Err(AssetError::DuplicateGuid)
                }
            },
            (Base::TechTreeRecipeUnlock(v), None) => {
                if insert_new(&mut self.tech_tree_recipe_unlocks, guid, v) {
                    Ok(true)
                } else {
                    Err(AssetError::DuplicateGuid)
                }
            },
            (Base::ProductDefinitionDataCategoryProvider(v), None) => {
                if insert_new(&mut self.product_definition_data_category_providers, guid, v) {
                    Ok(true)
                } else {
                    Err(AssetError::DuplicateGuid)
                }
            },
            (Base::GameDataManifest(v), None) => {
                if str_equal(guid.as_str(), COMMON_MANIFEST_GUID) {
                    if self.common_manifest.is_some() {
                        return Err(AssetError::DuplicateManifest);
                    }
                    self.common_manifest = Some(v);
                    Ok(true)
                } else if str_equal(guid.as_str(), ROI_2130_MANIFEST_GUID) {
                    if self.roi_2130_manifest.is_some() {
                        return Err(AssetError::DuplicateManifest);
                    }
                    self.roi_2130_manifest = Some(v);
                    Ok(true)
                } else if str_equal(guid.as_str(), ROI_STANDARD_MANIFEST_GUID) {
                    if self.roi_standard_manifest.is_some() {
                        return Err(AssetError::DuplicateManifest);
                    }
                    self.roi_standard_manifest = Some(v);
                    Ok(true)
                } else {
                    Err(AssetError::UnknownManifest)
                }
            },
        }
    }
}

} // verus!
