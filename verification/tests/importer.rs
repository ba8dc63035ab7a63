use rise_of_industry::importer::asset_paths::{
    is_field_path, is_gatherer_path, is_prefab_path, AssetPath,
};
use rise_of_industry::importer::assets::{
    collect_documents, AssetError, Assets, Base, BuildingDetail, COMMON_MANIFEST_GUID,
    ROI_2130_MANIFEST_GUID, ROI_STANDARD_MANIFEST_GUID,
};
use rise_of_industry::importer::export::{ExportError, ImportedGameData};
use rise_of_industry::importer::mono_behaviour::{
    classify_meta, classify_script, BuildingMonoBehaviour, FactoryMonoBehaviour,
    GameDataManifestMonoBehaviour, GathererHubMonoBehaviour, HarvesterMonoBehaviour,
    KnownMonoBehaviour, MonoBehaviourKind, ProductCategoryModifierInfoEntry,
    ProductCategoryModifierInfoMonoBehaviour, ProductCategoryMonoBehaviour,
    ProductDefinitionDataCategoryProviderMonoBehaviour, ProductDefinitionMonoBehaviour,
    RecipeEntries, RecipeEntry, RecipeMonoBehaviour, TechTreeRecipeUnlockMonoBehaviour,
    BUILDING_GUID, DISCONNECTED_HARVESTER_GUID, FACTORY_GUID, FARM_GUID, FIELD_GUID,
    GAME_DATA_MANIFEST_GUID, GATHERER_HUB_GUID, HARVESTER_GUID, PRODUCT_CATEGORY_GUID,
    PRODUCT_CATEGORY_MODIFIER_INFO_GUID, PRODUCT_DEFINITION_DATA_CATEGORY_PROVIDER_GUID,
    PRODUCT_DEFINITION_GUID, RECIPE_GUID, TECH_TREE_RECIPE_UNLOCK_GUID,
};
use rise_of_industry::importer::mono_behaviour::{Document, KnownDocument, MonoBehaviour};
use rise_of_industry::importer::unity::{
    FileId, Reference, ReferenceError, ReferenceInner, ReferenceType,
};
use rise_of_industry::importer::yaml::rewrite_yaml_tags;

fn reference(guid: &str) -> Reference {
    Reference(Some(ReferenceInner {
        file_id: 11400000,
        guid: guid.to_string(),
        reference_type: ReferenceType::Asset,
    }))
}

fn null() -> Reference {
    Reference(None)
}

fn entry(guid: &str, amount: i64) -> RecipeEntry {
    RecipeEntry {
        definition: reference(guid),
        amount,
    }
}

fn recipe_mb(name: &str, ingredients: Vec<RecipeEntry>, results: Vec<RecipeEntry>) -> RecipeMonoBehaviour {
    RecipeMonoBehaviour {
        name: name.to_string(),
        ingredients: RecipeEntries {
            entries: ingredients,
        },
        result: RecipeEntries { entries: results },
        days: 30,
        required_modules: vec![],
    }
}

fn building_mb(name: &str, base_cost: i64) -> BuildingMonoBehaviour {
    BuildingMonoBehaviour {
        name: name.to_string(),
        base_cost,
    }
}

fn manifest(guids: Vec<&str>) -> GameDataManifestMonoBehaviour {
    GameDataManifestMonoBehaviour {
        assets: guids.into_iter().map(reference).collect(),
    }
}

fn unlock(tier: i64, recipes: Vec<Reference>) -> TechTreeRecipeUnlockMonoBehaviour {
    TechTreeRecipeUnlockMonoBehaviour { tier, recipes }
}

fn insert(assets: &mut Assets<u8>, guid: &str, base: Base<u8>, detail: Option<BuildingDetail>) {
    assert_eq!(assets.insert_file(guid.to_string(), base, detail), Ok(true));
}

#[test]
fn yaml_tags_are_cut_to_separators() {
    assert_eq!(
        rewrite_yaml_tags("%YAML 1.1\n--- !u!114 &11400000\nMonoBehaviour:\n  x: 1\n"),
        "%YAML 1.1\n---\nMonoBehaviour:\n  x: 1\n"
    );
    assert_eq!(rewrite_yaml_tags("--- !u!1 &1\na: b\n---tag"), "---\na: b\n---");
    assert_eq!(rewrite_yaml_tags("--- a\r\nb"), "---\nb");
    assert_eq!(rewrite_yaml_tags(" --- a\nb --- c"), " --- a\nb --- c");
    assert_eq!(rewrite_yaml_tags("----"), "---");
    assert_eq!(rewrite_yaml_tags(""), "");
}

#[test]
fn yaml_rewrite_is_idempotent() {
    let once = rewrite_yaml_tags("--- !u!114 &1\nx: 1\n--- !u!1 &2\n");
    assert_eq!(rewrite_yaml_tags(&once), once);
}

#[test]
fn scripts_are_classified_by_guid() {
    assert_eq!(classify_script(RECIPE_GUID), Some(MonoBehaviourKind::Recipe));
    assert_eq!(
        classify_script(PRODUCT_DEFINITION_GUID),
        Some(MonoBehaviourKind::ProductDefinition)
    );
    assert_eq!(
        classify_script(PRODUCT_CATEGORY_GUID),
        Some(MonoBehaviourKind::ProductCategory)
    );
    assert_eq!(
        classify_script(PRODUCT_CATEGORY_MODIFIER_INFO_GUID),
        Some(MonoBehaviourKind::ProductCategoryModifierInfo)
    );
    assert_eq!(classify_script(FARM_GUID), Some(MonoBehaviourKind::GathererHub));
    assert_eq!(classify_script(GATHERER_HUB_GUID), Some(MonoBehaviourKind::GathererHub));
    assert_eq!(classify_script(FACTORY_GUID), Some(MonoBehaviourKind::Factory));
    assert_eq!(classify_script(FIELD_GUID), Some(MonoBehaviourKind::Harvester));
    assert_eq!(
        classify_script(DISCONNECTED_HARVESTER_GUID),
        Some(MonoBehaviourKind::Harvester)
    );
    assert_eq!(classify_script(HARVESTER_GUID), Some(MonoBehaviourKind::Harvester));
    assert_eq!(classify_script(BUILDING_GUID), Some(MonoBehaviourKind::Building));
    assert_eq!(
        classify_script(TECH_TREE_RECIPE_UNLOCK_GUID),
        Some(MonoBehaviourKind::TechTreeRecipeUnlock)
    );
    assert_eq!(
        classify_script(PRODUCT_DEFINITION_DATA_CATEGORY_PROVIDER_GUID),
        Some(MonoBehaviourKind::ProductDefinitionDataCategoryProvider)
    );
    assert_eq!(
        classify_script(GAME_DATA_MANIFEST_GUID),
        Some(MonoBehaviourKind::GameDataManifest)
    );
    assert_eq!(classify_script("86eee4258519014ad55f04d4a92d2557"), None);
    assert_eq!(classify_script(""), None);

    assert_eq!(classify_meta(&reference(FACTORY_GUID)), Some(MonoBehaviourKind::Factory));
    assert_eq!(classify_meta(&reference("0000")), None);
    assert_eq!(classify_meta(&null()), None);
}

#[test]
fn reference_type_numbers() {
    assert_eq!(ReferenceType::from_number(2), Some(ReferenceType::Asset));
    assert_eq!(ReferenceType::from_number(3), Some(ReferenceType::Library));
    assert_eq!(ReferenceType::from_number(0), None);
    assert_eq!(ReferenceType::from_number(4), None);
}

#[test]
fn file_id_zero_is_null() {
    assert_eq!(FileId::from_raw(0).0, None);
    assert_eq!(FileId::from_raw(11400000).0, Some(11400000));
    assert_eq!(FileId::from_raw(-3).0, Some(-3));
}

#[test]
fn references_from_fields() {
    let full = Reference::from_fields(
        FileId::from_raw(11400000),
        Some("a32e46a2e1865bc4c906a19d47e6b100".to_string()),
        Some(ReferenceType::Asset),
    );
    match full {
        Ok(Reference(Some(inner))) => {
            assert_eq!(inner.file_id, 11400000);
            assert_eq!(inner.guid, "a32e46a2e1865bc4c906a19d47e6b100");
            assert_eq!(inner.reference_type, ReferenceType::Asset);
        }
        _ => panic!("expected a reference"),
    }
    assert!(matches!(
        Reference::from_fields(FileId::from_raw(0), None, None),
        Ok(Reference(None))
    ));
    assert!(matches!(
        Reference::from_fields(FileId::from_raw(1), None, Some(ReferenceType::Asset)),
        Err(ReferenceError::MissingGuid)
    ));
    assert!(matches!(
        Reference::from_fields(FileId::from_raw(1), Some("g".to_string()), None),
        Err(ReferenceError::MissingType)
    ));
    assert!(matches!(
        Reference::from_fields(FileId::from_raw(0), Some("g".to_string()), None),
        Err(ReferenceError::UnexpectedGuid)
    ));
    assert!(matches!(
        Reference::from_fields(FileId::from_raw(0), None, Some(ReferenceType::Library)),
        Err(ReferenceError::UnexpectedType)
    ));
}

#[test]
fn reference_guid() {
    assert_eq!(reference("abc").guid(), Some(&"abc".to_string()));
    assert_eq!(null().guid(), None);
}

#[test]
fn documents_of_a_building_file() {
    let documents: Vec<KnownMonoBehaviour<u8>> = vec![
        KnownMonoBehaviour::Building(building_mb("COAL MINE", 225000)),
        KnownMonoBehaviour::GathererHub(GathererHubMonoBehaviour {
            available_recipes: vec![reference("a32e46a2e1865bc4c906a19d47e6b100")],
        }),
    ];
    match collect_documents(documents) {
        Ok((Some(Base::Building(building)), Some(BuildingDetail::GathererHub(hub)))) => {
            assert_eq!(building.name, "COAL MINE");
            assert_eq!(building.base_cost, 225000);
            assert_eq!(hub.available_recipes.len(), 1);
            assert_eq!(
                hub.available_recipes[0].guid().map(String::as_str),
                Some("a32e46a2e1865bc4c906a19d47e6b100")
            );
        }
        _ => panic!("expected a building with a gatherer hub"),
    }
}

#[test]
fn documents_that_do_not_make_an_asset() {
    let empty: Vec<KnownMonoBehaviour<u8>> = vec![];
    assert!(matches!(collect_documents(empty), Ok((None, None))));

    let two_bases: Vec<KnownMonoBehaviour<u8>> = vec![
        KnownMonoBehaviour::Recipe(recipe_mb("A", vec![], vec![])),
        KnownMonoBehaviour::Building(building_mb("B", 1)),
    ];
    assert!(matches!(collect_documents(two_bases), Err(AssetError::DuplicateBase)));

    let two_details: Vec<KnownMonoBehaviour<u8>> = vec![
        KnownMonoBehaviour::Building(building_mb("B", 1)),
        KnownMonoBehaviour::Factory(FactoryMonoBehaviour {
            available_recipes: vec![],
        }),
        KnownMonoBehaviour::Harvester(HarvesterMonoBehaviour { consumption: 1 }),
    ];
    assert!(matches!(collect_documents(two_details), Err(AssetError::DuplicateDetail)));

    let detail_alone: Vec<KnownMonoBehaviour<u8>> =
        vec![KnownMonoBehaviour::Harvester(HarvesterMonoBehaviour { consumption: 1 })];
    assert!(matches!(
        collect_documents(detail_alone),
        Err(AssetError::DetailWithoutBase)
    ));
}

#[test]
fn insert_file_keeps_guids_apart() {
    let mut assets: Assets<u8> = Assets::new();
    insert(&mut assets, "r1", Base::Recipe(recipe_mb("A", vec![], vec![])), None);
    assert_eq!(
        assets.insert_file(
            "r1".to_string(),
            Base::Recipe(recipe_mb("B", vec![], vec![])),
            None
        ),
        Err(AssetError::DuplicateGuid)
    );
    assert_eq!(assets.recipes.len(), 1);
    assert_eq!(assets.recipes[0].1.name, "A");

    // The same guid in another table is no repetition.
    insert(
        &mut assets,
        "r1",
        Base::ProductCategory(ProductCategoryMonoBehaviour {
            name: "Raw".to_string(),
        }),
        None,
    );
    assert_eq!(assets.product_categories.len(), 1);

    // A main MonoBehaviour that is no building, next to a detail, is left out.
    assert_eq!(
        assets.insert_file(
            "p1".to_string(),
            Base::Product(ProductDefinitionMonoBehaviour {
                name: "Water".to_string(),
                category: null(),
                category_provider: null(),
            }),
            Some(BuildingDetail::Harvester(HarvesterMonoBehaviour { consumption: 1 }))
        ),
        Ok(false)
    );
    assert!(assets.products.is_empty());

    insert(
        &mut assets,
        "b1",
        Base::Building(building_mb("FARM", 10)),
        Some(BuildingDetail::Harvester(HarvesterMonoBehaviour { consumption: 2 })),
    );
    assert_eq!(assets.buildings.len(), 1);
    assert!(matches!(
        assets.buildings[0].1 .1,
        Some(BuildingDetail::Harvester(HarvesterMonoBehaviour { consumption: 2 }))
    ));
}

#[test]
fn manifests_go_to_their_slots() {
    let mut assets: Assets<u8> = Assets::new();
    insert(
        &mut assets,
        COMMON_MANIFEST_GUID,
        Base::GameDataManifest(manifest(vec!["a"])),
        None,
    );
    assert!(assets.common_manifest.is_some());
    assert!(assets.roi_2130_manifest.is_none());
    assert_eq!(
        assets.insert_file(
            COMMON_MANIFEST_GUID.to_string(),
            Base::GameDataManifest(manifest(vec![])),
            None
        ),
        Err(AssetError::DuplicateManifest)
    );
    assert_eq!(assets.common_manifest.as_ref().unwrap().assets.len(), 1);
    insert(
        &mut assets,
        ROI_2130_MANIFEST_GUID,
        Base::GameDataManifest(manifest(vec![])),
        None,
    );
    insert(
        &mut assets,
        ROI_STANDARD_MANIFEST_GUID,
        Base::GameDataManifest(manifest(vec![])),
        None,
    );
    assert!(assets.roi_2130_manifest.is_some() && assets.roi_standard_manifest.is_some());
    assert_eq!(
        assets.insert_file(
            "ffffffffffffffffffffffffffffffff".to_string(),
            Base::GameDataManifest(manifest(vec![])),
            None
        ),
        Err(AssetError::UnknownManifest)
    );
}

#[test]
fn asset_paths() {
    let path = |parent: Option<Vec<&str>>, name: Option<&str>| AssetPath {
        parent: parent.map(|p| p.into_iter().map(str::to_string).collect()),
        file_name: name.map(str::to_string),
    };
    let gatherers = vec!["export", "Assets", "Resources", "gamedata", "buildings", "gatherers"];
    let fields = vec!["Assets", "Resources", "gamedata", "modules", "fields"];

    assert!(is_gatherer_path(&path(Some(gatherers.clone()), Some("CoalGatherer.prefab"))));
    assert!(!is_field_path(&path(Some(gatherers.clone()), Some("CoalGatherer.prefab"))));
    assert!(!is_gatherer_path(&path(Some(gatherers.clone()), Some("CoalGatherer.asset"))));
    assert!(is_field_path(&path(Some(fields.clone()), Some("CottonField.prefab"))));
    assert!(!is_field_path(&path(Some(fields[1..].to_vec()), Some("CottonField.prefab"))));
    assert!(!is_gatherer_path(&path(None, Some("CoalGatherer.prefab"))));

    assert!(is_prefab_path(&path(None, Some("a.prefab"))));
    assert!(is_prefab_path(&path(None, Some("a..prefab"))));
    assert!(!is_prefab_path(&path(None, Some(".prefab"))));
    assert!(!is_prefab_path(&path(None, Some("a.prefabs"))));
    assert!(!is_prefab_path(&path(None, Some("prefab"))));
    assert!(!is_prefab_path(&path(None, None)));
}

/// The assets of a small standard game: cotton, made by a recipe that a
/// tier 1 unlock unlocks, whose category comes from a provider by tier; a
/// farm that offers the recipe and a field module; two categories, one with
/// its own modifiers. A recipe and an unlock listed by the 2130 manifest
/// only are left out.
fn game_assets(with_info: bool) -> Assets<u8> {
    let mut assets: Assets<u8> = Assets::new();
    insert(
        &mut assets,
        COMMON_MANIFEST_GUID,
        Base::GameDataManifest(manifest(vec![
            "p1", "r1", "u1", "c0", "c1", "i1", "b1", "m1", "prov",
        ])),
        None,
    );
    insert(
        &mut assets,
        ROI_2130_MANIFEST_GUID,
        Base::GameDataManifest(manifest(vec!["r2", "u2"])),
        None,
    );
    insert(
        &mut assets,
        ROI_STANDARD_MANIFEST_GUID,
        Base::GameDataManifest(manifest(vec![])),
        None,
    );
    insert(
        &mut assets,
        "p1",
        Base::Product(ProductDefinitionMonoBehaviour {
            name: "Cotton".to_string(),
            category: null(),
            category_provider: reference("prov"),
        }),
        None,
    );
    insert(
        &mut assets,
        "prov",
        Base::ProductDefinitionDataCategoryProvider(
            ProductDefinitionDataCategoryProviderMonoBehaviour {
                tier_to_category: vec![reference("c0"), reference("c1")],
            },
        ),
        None,
    );
    insert(
        &mut assets,
        "r1",
        Base::Recipe(recipe_mb("Cotton", vec![entry("p1", 1)], vec![entry("p1", 2)])),
        None,
    );
    insert(
        &mut assets,
        "r2",
        Base::Recipe(recipe_mb("Old Cotton", vec![], vec![entry("p1", 1)])),
        None,
    );
    insert(
        &mut assets,
        "u1",
        Base::TechTreeRecipeUnlock(unlock(1, vec![reference("r1")])),
        None,
    );
    insert(
        &mut assets,
        "u2",
        Base::TechTreeRecipeUnlock(unlock(0, vec![reference("r1"), reference("r2")])),
        None,
    );
    insert(
        &mut assets,
        "c0",
        Base::ProductCategory(ProductCategoryMonoBehaviour {
            name: "Raw".to_string(),
        }),
        None,
    );
    insert(
        &mut assets,
        "c1",
        Base::ProductCategory(ProductCategoryMonoBehaviour {
            name: "Farm Produce".to_string(),
        }),
        None,
    );
    if with_info {
        insert(
            &mut assets,
            "i1",
            Base::ProductCategoryModifierInfo(ProductCategoryModifierInfoMonoBehaviour {
                default_modifiers: 10,
                modifiers: vec![ProductCategoryModifierInfoEntry {
                    modifiers: 20,
                    category: reference("c1"),
                }],
            }),
            None,
        );
    }
    insert(
        &mut assets,
        "b1",
        Base::Building(building_mb("CROP FARM", 1000)),
        Some(BuildingDetail::GathererHub(GathererHubMonoBehaviour {
            available_recipes: vec![reference("r1")],
        })),
    );
    insert(
        &mut assets,
        "m1",
        Base::Building(building_mb("Cotton Field", 100)),
        Some(BuildingDetail::Harvester(HarvesterMonoBehaviour { consumption: 1 })),
    );
    assets
}

#[test]
fn export_of_a_standard_game() {
    let assets = game_assets(true);
    let data: ImportedGameData<u8> = match ImportedGameData::from_assets(&assets) {
        Ok(data) => data,
        Err(error) => panic!("{error:?}"),
    };

    assert_eq!(data.products.len(), 1);
    assert_eq!(data.products[0].0, "p1");
    assert_eq!(data.products[0].1.name, "Cotton");
    // Tier 1 through the provider: the 2130 unlock at tier 0 does not count.
    assert_eq!(data.products[0].1.category_id.as_deref(), Some("c1"));

    assert_eq!(data.recipes.len(), 1);
    let (guid, recipe) = &data.recipes[0];
    assert_eq!(guid, "r1");
    assert_eq!(recipe.name, "Cotton");
    assert_eq!(recipe.tier, 1);
    assert_eq!(recipe.days, 30);
    assert_eq!(recipe.entries.len(), 2);
    assert_eq!(recipe.entries[0].product_id, "p1");
    assert_eq!(recipe.entries[0].amount, -1);
    assert_eq!(recipe.entries[1].product_id, "p1");
    assert_eq!(recipe.entries[1].amount, 2);
    assert!(recipe.required_modules.is_empty());

    assert_eq!(data.modules.len(), 1);
    assert_eq!(data.modules[0].0, "m1");
    assert_eq!(data.modules[0].1.name, "Cotton Field");
    assert_eq!(data.modules[0].1.base_cost, 100);

    assert_eq!(data.buildings.len(), 1);
    assert_eq!(data.buildings[0].0, "b1");
    assert_eq!(data.buildings[0].1.name, "CROP FARM");
    assert_eq!(data.buildings[0].1.base_cost, 1000);
    assert_eq!(data.buildings[0].1.available_recipes, vec!["r1".to_string()]);

    assert_eq!(data.product_categories.len(), 2);
    assert_eq!(data.product_categories[0].0, "c0");
    assert_eq!(data.product_categories[0].1.name, "Raw");
    assert_eq!(data.product_categories[0].1.modifiers, 10);
    assert_eq!(data.product_categories[1].0, "c1");
    assert_eq!(data.product_categories[1].1.name, "Farm Produce");
    assert_eq!(data.product_categories[1].1.modifiers, 20);
}

fn export_error(assets: &Assets<u8>) -> ExportError {
    match ImportedGameData::from_assets(assets) {
        Ok(_) => panic!("expected the export to fail"),
        Err(error) => error,
    }
}

#[test]
fn export_without_manifests() {
    let assets: Assets<u8> = Assets::new();
    assert_eq!(export_error(&assets), ExportError::MissingManifest);
}

#[test]
fn export_without_modifier_info() {
    assert_eq!(export_error(&game_assets(false)), ExportError::ModifierInfoCount);
}

#[test]
fn export_with_a_null_unlocked_recipe() {
    let mut assets = game_assets(true);
    assets.common_manifest.as_mut().unwrap().assets.push(reference("u9"));
    insert(&mut assets, "u9", Base::TechTreeRecipeUnlock(unlock(2, vec![null()])), None);
    assert_eq!(export_error(&assets), ExportError::UnlockWithNullRecipe);
}

#[test]
fn export_with_an_unlocked_recipe_missing() {
    let mut assets = game_assets(true);
    let common = &mut assets.common_manifest.as_mut().unwrap().assets;
    common.push(reference("u9"));
    common.push(reference("r9"));
    insert(
        &mut assets,
        "u9",
        Base::TechTreeRecipeUnlock(unlock(2, vec![reference("r9")])),
        None,
    );
    assert_eq!(export_error(&assets), ExportError::TieredRecipeUnresolved);
}

#[test]
fn export_with_a_building_null_recipe() {
    let mut assets = game_assets(true);
    assets.common_manifest.as_mut().unwrap().assets.push(reference("b9"));
    insert(
        &mut assets,
        "b9",
        Base::Building(building_mb("FACTORY", 1)),
        Some(BuildingDetail::Factory(FactoryMonoBehaviour {
            available_recipes: vec![null()],
        })),
    );
    assert_eq!(export_error(&assets), ExportError::BuildingWithNullRecipe);
}

#[test]
fn export_with_an_untiered_product() {
    let mut assets = game_assets(true);
    assets.common_manifest.as_mut().unwrap().assets.push(reference("p9"));
    insert(
        &mut assets,
        "p9",
        Base::Product(ProductDefinitionMonoBehaviour {
            name: "Steel".to_string(),
            category: reference("c0"),
            category_provider: null(),
        }),
        None,
    );
    assert_eq!(export_error(&assets), ExportError::ProductUnresolved);
}

#[test]
fn export_with_an_untiered_recipe() {
    let mut assets = game_assets(true);
    assets.common_manifest.as_mut().unwrap().assets.push(reference("r9"));
    insert(
        &mut assets,
        "r9",
        Base::Recipe(recipe_mb("Steel", vec![], vec![])),
        None,
    );
    assert_eq!(export_error(&assets), ExportError::RecipeUnresolved);
}

#[test]
fn documents_wrap_mono_behaviours() {
    let document: Document<u8> = Document::Known(KnownDocument::MonoBehaviour(MonoBehaviour::Known(
        KnownMonoBehaviour::Harvester(HarvesterMonoBehaviour { consumption: 3 }),
    )));
    assert!(matches!(
        document,
        Document::Known(KnownDocument::MonoBehaviour(MonoBehaviour::Known(
            KnownMonoBehaviour::Harvester(HarvesterMonoBehaviour { consumption: 3 })
        )))
    ));
    let unknown: Document<u8> = Document::Unknown;
    assert!(matches!(unknown, Document::Unknown));
}
