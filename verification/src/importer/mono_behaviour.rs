//! The MonoBehaviours of the game's assets that the importer reads, and how
//! the guid of a MonoBehaviour's script tells which one a document is.

use crate::importer::unity::Reference;
use crate::strings::str_equal;
use vstd::prelude::*;

verus! {

/// A recipe.
pub struct RecipeMonoBehaviour {
    pub name: String,
    pub ingredients: RecipeEntries,
    pub result: RecipeEntries,
    /// Time for the recipe to complete, in days.
    pub days: i64,
    pub required_modules: Vec<Reference>,
}

pub struct RecipeEntries {
    pub entries: Vec<RecipeEntry>,
}

/// A product definition and how many of it a recipe takes or gives.
pub struct RecipeEntry {
    pub definition: Reference,
    pub amount: i64,
}

/// A product; its category is given directly or through a provider.
pub struct ProductDefinitionMonoBehaviour {
    pub name: String,
    pub category: Reference,
    pub category_provider: Reference,
}

/// A building that gathers (farms and gatherer hubs).
pub struct GathererHubMonoBehaviour {
    pub available_recipes: Vec<Reference>,
}

/// A building module (fields and harvesters).
pub struct HarvesterMonoBehaviour {
    pub consumption: i64,
}

pub struct BuildingMonoBehaviour {
    pub name: String,
    pub base_cost: i64,
}

pub struct FactoryMonoBehaviour {
    pub available_recipes: Vec<Reference>,
}

pub struct ProductCategoryMonoBehaviour {
    pub name: String,
}

/// Which product category goes with which tier.
pub struct ProductDefinitionDataCategoryProviderMonoBehaviour {
    pub tier_to_category: Vec<Reference>,
}

/// The price and growth modifiers of product categories. The modifiers
/// themselves are carried as `F`, whose type the caller chooses.
pub struct ProductCategoryModifierInfoMonoBehaviour<F> {
    pub default_modifiers: F,
    pub modifiers: Vec<ProductCategoryModifierInfoEntry<F>>,
}

pub struct ProductCategoryModifierInfoEntry<F> {
    pub modifiers: F,
    pub category: Reference,
}

/// Unlocks recipes at a tier of the tech tree.
pub struct TechTreeRecipeUnlockMonoBehaviour {
    pub tier: i64,
    pub recipes: Vec<Reference>,
}

/// A list of the assets that belong to a game mode.
pub struct GameDataManifestMonoBehaviour {
    pub assets: Vec<Reference>,
}

/// A MonoBehaviour the importer understands.
pub enum KnownMonoBehaviour<F> {
    Recipe(RecipeMonoBehaviour),
    ProductDefinition(ProductDefinitionMonoBehaviour),
    ProductCategory(ProductCategoryMonoBehaviour),
    ProductCategoryModifierInfo(ProductCategoryModifierInfoMonoBehaviour<F>),
    GathererHub(GathererHubMonoBehaviour),
    Factory(FactoryMonoBehaviour),
    Harvester(HarvesterMonoBehaviour),
    Building(BuildingMonoBehaviour),
    TechTreeRecipeUnlock(TechTreeRecipeUnlockMonoBehaviour),
    ProductDefinitionDataCategoryProvider(ProductDefinitionDataCategoryProviderMonoBehaviour),
    GameDataManifest(GameDataManifestMonoBehaviour),
}

/// The MonoBehaviour of a document: one the importer understands, or one
/// whose script reference is null or names a script it does not know (what
/// such a MonoBehaviour holds is not kept).
pub enum MonoBehaviour<F> {
    Known(KnownMonoBehaviour<F>),
    Unknown,
}

/// A document of a kind the importer reads.
pub enum KnownDocument<F> {
    MonoBehaviour(MonoBehaviour<F>),
}

/// A YAML document of an asset file: one that holds a MonoBehaviour and
/// nothing else, or another (what another holds is not kept).
pub enum Document<F> {
    Known(KnownDocument<F>),
    Unknown,
}

/// Which kind of known MonoBehaviour a script makes.
#[derive(Debug, Clone, Copy, PartialEq, Eq)]
pub enum MonoBehaviourKind {
    Recipe,
    ProductDefinition,
    ProductCategory,
    ProductCategoryModifierInfo,
    GathererHub,
    Factory,
    Harvester,
    Building,
    TechTreeRecipeUnlock,
    ProductDefinitionDataCategoryProvider,
    GameDataManifest,
}

pub const RECIPE_GUID: &'static str = "86eee4258519014ad55f04d4a92d2556";

pub const PRODUCT_DEFINITION_GUID: &'static str = "23940808cf3b3e11ddbcefa65cb07256";

/// Farm: GathererHub.
pub const FARM_GUID: &'static str = "48f60db05a30e6f6a2c4f58e376db169";

/// GathererHub: RecipeUser.
pub const GATHERER_HUB_GUID: &'static str = "2cafc42823a354fcf7c0170bea0bcb7d";

/// Field: DisconnectedHarvester.
pub const FIELD_GUID: &'static str = "37877dc8090b6c86ab7ebdd152757ce2";

/// DisconnectedHarvester: Harvester.
pub const DISCONNECTED_HARVESTER_GUID: &'static str = "729682943bcacee6c3bfcfa694f8d28f";

/// Harvester: Module.
pub const HARVESTER_GUID: &'static str = "9e91acce255b80b153adaea3a62e14f1";

pub const BUILDING_GUID: &'static str = "6219336138908849fca2c4c8fb8c7e83";

/// Factory: RecipeUser.
pub const FACTORY_GUID: &'static str = "38614187f7f363776435354b6ad3dd66";

pub const PRODUCT_CATEGORY_GUID: &'static str = "d6fc0e4aff0acdc78b884c7ca29c6687";

pub const PRODUCT_DEFINITION_DATA_CATEGORY_PROVIDER_GUID: &'static str = "de5bbb24ddada981b140c3919e5585d1";

pub const PRODUCT_CATEGORY_MODIFIER_INFO_GUID: &'static str = "558262efc8fda9116a369bbbd4ee5aa7";

pub const TECH_TREE_RECIPE_UNLOCK_GUID: &'static str = "a6a9c74a16da41b8da0c11bafb544c69";

pub const GAME_DATA_MANIFEST_GUID: &'static str = "40dc454a91d591f3af0f535c9bb857cb";

/// The kind of MonoBehaviour whose script has guid `guid`, if the importer
/// knows it.
pub open spec fn script_kind(guid: Seq<char>) -> Option<MonoBehaviourKind> {
    if guid == RECIPE_GUID@ {
        Some(MonoBehaviourKind::Recipe)
    } else if guid == PRODUCT_DEFINITION_GUID@ {
        Some(MonoBehaviourKind::ProductDefinition)
    } else if guid == PRODUCT_CATEGORY_GUID@ {
        Some(MonoBehaviourKind::ProductCategory)
    } else if guid == PRODUCT_CATEGORY_MODIFIER_INFO_GUID@ {
        Some(MonoBehaviourKind::ProductCategoryModifierInfo)
    } else if guid == FARM_GUID@ || guid == GATHERER_HUB_GUID@ {
        Some(MonoBehaviourKind::GathererHub)
    } else if guid == FACTORY_GUID@ {
        Some(MonoBehaviourKind::Factory)
    } else if guid == FIELD_GUID@ || guid == DISCONNECTED_HARVESTER_GUID@ || guid
        == HARVESTER_GUID@ {
        Some(MonoBehaviourKind::Harvester)
    } else if guid == BUILDING_GUID@ {
        Some(MonoBehaviourKind::Building)
    } else if guid == TECH_TREE_RECIPE_UNLOCK_GUID@ {
        Some(MonoBehaviourKind::TechTreeRecipeUnlock)
    } else if guid == PRODUCT_DEFINITION_DATA_CATEGORY_PROVIDER_GUID@ {
        Some(MonoBehaviourKind::ProductDefinitionDataCategoryProvider)
    } else if guid == GAME_DATA_MANIFEST_GUID@ {
        Some(MonoBehaviourKind::GameDataManifest)
    } else {
        None
    }
}

/// The kind of MonoBehaviour whose script has guid `guid`; `None` for a
/// script the importer does not know.
pub fn classify_script(guid: &str) -> (r: Option<MonoBehaviourKind>)
    ensures
        r == script_kind(guid@),
{
    if str_equal(guid, RECIPE_GUID) {
        Some(MonoBehaviourKind::Recipe)
    } else if str_equal(guid, PRODUCT_DEFINITION_GUID) {
        Some(MonoBehaviourKind::ProductDefinition)
    } else if str_equal(guid, PRODUCT_CATEGORY_GUID) {
        Some(MonoBehaviourKind::ProductCategory)
    } else if str_equal(guid, PRODUCT_CATEGORY_MODIFIER_INFO_GUID) {
        Some(MonoBehaviourKind::ProductCategoryModifierInfo)
    } else if str_equal(guid, FARM_GUID) || str_equal(guid, GATHERER_HUB_GUID) {
        Some(MonoBehaviourKind::GathererHub)
    } else if str_equal(guid, FACTORY_GUID) {
        Some(MonoBehaviourKind::Factory)
    } else if str_equal(guid, FIELD_GUID) || str_equal(guid, DISCONNECTED_HARVESTER_GUID)
        || str_equal(guid, HARVESTER_GUID) {
        Some(MonoBehaviourKind::Harvester)
    } else if str_equal(guid, BUILDING_GUID) {
        Some(MonoBehaviourKind::Building)
    } else if str_equal(guid, TECH_TREE_RECIPE_UNLOCK_GUID) {
        Some(MonoBehaviourKind::TechTreeRecipeUnlock)
    } else if str_equal(guid, PRODUCT_DEFINITION_DATA_CATEGORY_PROVIDER_GUID) {
        Some(MonoBehaviourKind::ProductDefinitionDataCategoryProvider)
    } else if str_equal(guid, GAME_DATA_MANIFEST_GUID) {
        Some(MonoBehaviourKind::GameDataManifest)
    } else {
        None
    }
}

/// The kind of MonoBehaviour a document is, from the reference to its
/// script: `None` for a null reference or a script the importer does not
/// know.
pub fn classify_meta(script: &Reference) -> (r: Option<MonoBehaviourKind>)
    ensures
        match script.0 {
            Some(inner) => r == script_kind(inner.guid@),
            None => r is None,
        },
{
    match script.guid() {
        Some(guid) => classify_script(guid.as_str()),
        None => None,
    }
}

} // verus!
