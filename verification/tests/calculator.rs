use rise_of_industry::calculator::game_data::{
    find_named, BuildingIndex, LookupError, ModuleIndex, Product, ProductCategoryIndex,
    ProductCategoryVec, ProductData, ProductIndex, RecipeEntry, RecipeIndex,
};
use rise_of_industry::calculator::iter_ext::ExactlyOne;
use rise_of_industry::calculator::load::{load_tables, LoadError};
use rise_of_industry::calculator::planning::{buildings_offering, module_groups, MAX_MODULES};
use rise_of_industry::calculator::query::GameData;
use rise_of_industry::calculator::serialization::{
    Building, BuildingModule, Product as SerializedProduct, ProductCategory, ProductPriceFormula,
    Recipe, RecipeEntry as SerializedEntry,
};
use rise_of_industry::calculator::sort::sort_by_name;
use rise_of_industry::collection::TypedIndexVec;
use rise_of_industry::typed_index::TypedIndex;

fn product(guid: &str, name: &str, category: &str) -> (String, SerializedProduct) {
    (
        guid.to_string(),
        SerializedProduct {
            name: name.to_string(),
            category: category.to_string(),
            price_formula: ProductPriceFormula::Farms,
        },
    )
}

fn recipe(
    guid: &str,
    name: &str,
    entries: Vec<(&str, i64)>,
    days: i64,
    modules: Vec<&str>,
) -> (String, Recipe) {
    (
        guid.to_string(),
        Recipe {
            name: name.to_string(),
            entries: entries
                .into_iter()
                .map(|(product_id, amount)| SerializedEntry {
                    product_id: product_id.to_string(),
                    amount,
                })
                .collect(),
            days,
            required_modules: modules.into_iter().map(str::to_string).collect(),
            tier: 0,
        },
    )
}

fn building(guid: &str, name: &str, base_cost: i64, recipes: Vec<&str>) -> (String, Building) {
    (
        guid.to_string(),
        Building {
            name: name.to_string(),
            base_cost,
            available_recipes: recipes.into_iter().map(str::to_string).collect(),
        },
    )
}

fn category(guid: &str, name: &str, modifiers: u8) -> (String, ProductCategory<u8>) {
    (
        guid.to_string(),
        ProductCategory {
            name: name.to_string(),
            modifiers,
        },
    )
}

/// A small chain: water and cotton make cotton, cotton makes fibers.
/// By name, products are Cotton, Fibers, Water; recipes Cotton, Fibers,
/// Water; buildings CROP FARM, TEXTILE FACTORY, WATER WELL; categories
/// Farm Produce, Raw.
fn sample() -> (GameData, ProductCategoryVec<u8>) {
    let products = vec![
        product("p-water", "Water", "c-raw"),
        product("p-cotton", "Cotton", "c-farm"),
        product("p-fibers", "Fibers", "c-raw"),
    ];
    let recipes = vec![
        recipe("r-water", "Water", vec![("p-water", 1)], 10, vec![]),
        recipe(
            "r-cotton",
            "Cotton",
            vec![("p-water", -1), ("p-cotton", 2)],
            30,
            vec!["m-field"],
        ),
        recipe(
            "r-fibers",
            "Fibers",
            vec![("p-cotton", -2), ("p-fibers", 2)],
            15,
            vec![],
        ),
    ];
    let modules = vec![(
        "m-field".to_string(),
        BuildingModule {
            name: "Cotton Field".to_string(),
            base_cost: 100,
        },
    )];
    let buildings = vec![
        building("b-farm", "CROP FARM", 1000, vec!["r-cotton"]),
        building("b-well", "WATER WELL", 500, vec!["r-water"]),
        building("b-textile", "TEXTILE FACTORY", 2000, vec!["r-fibers"]),
    ];
    let categories = vec![category("c-raw", "Raw", 1), category("c-farm", "Farm Produce", 2)];
    match load_tables(products, recipes, modules, buildings, categories) {
        Ok(loaded) => loaded,
        Err(error) => panic!("the sample did not load: {error:?}"),
    }
}

fn p(i: usize) -> ProductIndex {
    ProductIndex::from_usize(i)
}

fn r(i: usize) -> RecipeIndex {
    RecipeIndex::from_usize(i)
}

#[test]
fn load_orders_tables_by_name() {
    let (data, _) = sample();
    let names: Vec<&str> = data.products_query().iter().map(|q| q.name()).collect();
    assert_eq!(names, vec!["Cotton", "Fibers", "Water"]);
    let names: Vec<&str> = data.recipes_query().iter().map(|q| q.name()).collect();
    assert_eq!(names, vec!["Cotton", "Fibers", "Water"]);
    let names: Vec<&str> = data.buildings_query().iter().map(|q| q.name()).collect();
    assert_eq!(names, vec!["CROP FARM", "TEXTILE FACTORY", "WATER WELL"]);
    let names: Vec<&str> = data.modules_query().iter().map(|q| q.name()).collect();
    assert_eq!(names, vec!["Cotton Field"]);
}

#[test]
fn load_resolves_guids_to_indices() {
    let (data, modifiers) = sample();
    let cotton = data.query(r(0));
    let entries = cotton.entries();
    assert_eq!(entries.len(), 2);
    assert_eq!(entries[0].product_index, p(2));
    assert_eq!(entries[0].amount, -1);
    assert_eq!(entries[1].product_index, p(0));
    assert_eq!(entries[1].amount, 2);
    assert_eq!(cotton.days(), 30);
    assert_eq!(cotton.required_modules(), &vec![ModuleIndex::from_usize(0)]);

    let farm = data.query(BuildingIndex::from_usize(0));
    assert_eq!(farm.base_cost(), 1000);
    assert_eq!(farm.available_recipes(), &vec![r(0)]);

    let category = data.query(p(0)).product_category();
    assert_eq!(category.target, ProductCategoryIndex::from_usize(0));
    assert_eq!(category.name(), "Farm Produce");
    assert_eq!(data.query(p(2)).product_category().name(), "Raw");
    assert_eq!(data.query(p(0)).price_formula(), ProductPriceFormula::Farms);

    assert_eq!(modifiers.len(), 2);
    assert_eq!(*modifiers.get(ProductCategoryIndex::from_usize(0)), 2);
    assert_eq!(*modifiers.get(ProductCategoryIndex::from_usize(1)), 1);
}

#[test]
fn load_refuses_unknown_reference() {
    let products = vec![product("p-water", "Water", "c-missing")];
    let categories = vec![category("c-raw", "Raw", 1)];
    let loaded = load_tables(products, vec![], vec![], vec![], categories);
    assert!(matches!(loaded, Err(LoadError::UnknownReference)));

    let recipes = vec![recipe("r", "R", vec![("p-nothing", 1)], 15, vec![])];
    let loaded = load_tables::<u8>(vec![], recipes, vec![], vec![], vec![]);
    assert!(matches!(loaded, Err(LoadError::UnknownReference)));

    let buildings = vec![building("b", "B", 1, vec!["r-nothing"])];
    let loaded = load_tables::<u8>(vec![], vec![], vec![], buildings, vec![]);
    assert!(matches!(loaded, Err(LoadError::UnknownReference)));
}

#[test]
fn load_of_nothing_is_empty() {
    let loaded = load_tables::<u8>(vec![], vec![], vec![], vec![], vec![]);
    match loaded {
        Ok((data, modifiers)) => {
            assert!(data.products_query().is_empty());
            assert!(data.recipes_query().is_empty());
            assert!(modifiers.is_empty());
        }
        Err(error) => panic!("{error:?}"),
    }
}

#[test]
fn lookups_by_name() {
    let (data, _) = sample();
    assert_eq!(data.product.find_by_name("Water"), Ok(p(2)));
    assert_eq!(data.product.find_by_name("Steel"), Err(LookupError::NotFound));
    assert_eq!(data.recipe.find_by_name("Fibers"), Ok(r(1)));
    assert_eq!(
        data.building.find_by_name("TEXTILE FACTORY"),
        Ok(BuildingIndex::from_usize(1))
    );
    assert_eq!(data.module.find_by_name("Cotton Field"), Ok(ModuleIndex::from_usize(0)));
    assert_eq!(
        data.product_category.find_by_name("Raw"),
        Ok(ProductCategoryIndex::from_usize(1))
    );

    assert_eq!(data.product_by_name("Cotton").target, p(0));
    assert_eq!(data.recipe_by_name("Water").target, r(2));
    assert_eq!(data.building_by_name("WATER WELL").target, BuildingIndex::from_usize(2));
    assert_eq!(data.module_by_name("Cotton Field").target, ModuleIndex::from_usize(0));
}

#[test]
fn lookup_of_a_repeated_name() {
    let empty = ProductData::default();
    assert!(empty.indices().is_empty());
    let mut products = ProductData::with_capacity(2);
    let first = products.push(Product {
        name: "Water".to_string(),
        product_category: ProductCategoryIndex::from_usize(0),
        price_formula: ProductPriceFormula::RawResources,
    });
    assert_eq!(first, p(0));
    assert_eq!(products.find_by_name("Water"), Ok(p(0)));
    let second = products.push(Product {
        name: "Water".to_string(),
        product_category: ProductCategoryIndex::from_usize(0),
        price_formula: ProductPriceFormula::RawResources,
    });
    assert_eq!(second, p(1));
    assert_eq!(products.indices(), vec![p(0), p(1)]);
    assert_eq!(products.name_of(p(1)), "Water");
    assert_eq!(products.find_by_name("Water"), Err(LookupError::Multiple));

    let names: TypedIndexVec<RecipeIndex, String> =
        TypedIndexVec::new(vec!["a".to_string(), "b".to_string(), "a".to_string()]);
    assert_eq!(find_named(&names, "b"), Ok(r(1)));
    assert_eq!(find_named(&names, "a"), Err(LookupError::Multiple));
    assert_eq!(find_named(&names, "c"), Err(LookupError::NotFound));
}

#[test]
fn recipe_entries_split_into_inputs_and_outputs() {
    let (data, _) = sample();
    let cotton = data.query(r(0));
    let inputs = cotton.inputs();
    assert_eq!(inputs.len(), 1);
    assert_eq!(inputs[0].product_index, p(2));
    assert_eq!(inputs[0].amount, -1);
    let outputs = cotton.outputs();
    assert_eq!(outputs.len(), 1);
    assert_eq!(outputs[0].product_index, p(0));
    assert_eq!(outputs[0].amount, 2);

    let nothing = RecipeEntry {
        product_index: p(0),
        amount: 0,
    };
    assert!(!nothing.is_input());
    assert!(!nothing.is_output());
    assert!(inputs[0].is_input() && !inputs[0].is_output());
    assert!(outputs[0].is_output() && !outputs[0].is_input());
    assert_eq!(data.query(outputs[0]).product().target, p(0));
}

#[test]
fn required_modules_of_recipes() {
    let (data, _) = sample();
    let cotton = data.query(r(0));
    let module = cotton.required_module().unwrap();
    assert_eq!(module.target, ModuleIndex::from_usize(0));
    assert_eq!(module.name(), "Cotton Field");
    assert_eq!(module.base_cost(), 100);
    assert!(data.query(r(2)).required_module().is_none());
    assert_eq!(data.recipe_module(r(0)).target, ModuleIndex::from_usize(0));
    assert_eq!(data.recipe_module(r(0)).target, cotton.required_module().unwrap().target);
}

#[test]
fn recipes_producing_a_product() {
    let (data, _) = sample();
    let producing: Vec<RecipeIndex> =
        data.query(p(0)).producing_recipes().iter().map(|q| q.target).collect();
    assert_eq!(producing, vec![r(0)]);
    let with_output: Vec<RecipeIndex> =
        data.recipes_with_output(p(2)).iter().map(|q| q.target).collect();
    assert_eq!(with_output, vec![r(2)]);
    for product in [p(0), p(1), p(2)] {
        let by_data: Vec<RecipeIndex> =
            data.recipes_with_output(product).iter().map(|q| q.target).collect();
        let by_query: Vec<RecipeIndex> =
            data.query(product).producing_recipes().iter().map(|q| q.target).collect();
        assert_eq!(by_data, by_query);
    }
    // Cotton consumes water but does not produce it.
    assert!(!with_output.contains(&r(0)));
}

#[test]
fn buildings_that_offer_a_recipe() {
    let (data, _) = sample();
    let offering = buildings_offering(&data, r(1));
    assert_eq!(offering.len(), 1);
    assert_eq!(offering[0].target, BuildingIndex::from_usize(1));
    assert_eq!(
        offering.exactly_one().map(|q| q.target),
        Some(BuildingIndex::from_usize(1))
    );
}

#[test]
fn available_recipe_by_name() {
    let (data, _) = sample();
    let farm = data.query(BuildingIndex::from_usize(0));
    assert_eq!(farm.find_recipe_by_name("Cotton").map(|q| q.target), Ok(r(0)));
    assert_eq!(
        farm.find_recipe_by_name("Water").map(|q| q.target),
        Err(LookupError::NotFound)
    );
    assert_eq!(farm.recipe_by_name("Cotton").target, r(0));
}

#[test]
fn module_groups_fill_buildings() {
    assert_eq!(MAX_MODULES, 5);
    assert_eq!(module_groups(12), vec![(2, 5), (1, 2)]);
    assert_eq!(module_groups(10), vec![(2, 5)]);
    assert_eq!(module_groups(5), vec![(1, 5)]);
    assert_eq!(module_groups(3), vec![(1, 3)]);
    assert_eq!(module_groups(0), Vec::<(i64, i64)>::new());
    // Integer division rounds toward zero, so a negative count leaves a
    // negative rest.
    assert_eq!(module_groups(-7), vec![(1, -2)]);
}

#[test]
fn module_groups_hold_one_module_per_run() {
    for count in 0..40 {
        let groups = module_groups(count);
        let total: i64 = groups.iter().map(|&(n, m)| n * m).sum();
        assert_eq!(total, count);
        assert!(groups.iter().all(|&(_, m)| 0 < m && m <= MAX_MODULES));
    }
}

#[test]
fn exactly_one_item() {
    assert_eq!(Vec::<u8>::new().exactly_one(), None);
    assert_eq!(vec![7].exactly_one(), Some(7));
    assert_eq!(vec![1, 2].exactly_one(), None);
}

#[test]
fn sort_by_name_orders_by_name() {
    let modules = vec![
        (
            "g1".to_string(),
            BuildingModule {
                name: "b".to_string(),
                base_cost: 1,
            },
        ),
        (
            "g2".to_string(),
            BuildingModule {
                name: "a".to_string(),
                base_cost: 2,
            },
        ),
        (
            "g3".to_string(),
            BuildingModule {
                name: "B".to_string(),
                base_cost: 3,
            },
        ),
    ];
    let sorted = sort_by_name(modules);
    let order: Vec<&str> = sorted.iter().map(|(guid, _)| guid.as_str()).collect();
    assert_eq!(order, vec!["g3", "g2", "g1"]);
}
