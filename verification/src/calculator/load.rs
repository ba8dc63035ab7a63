//! Turning the serialized game data, where entries refer to each other by
//! guid, into the calculator's tables, where they refer to each other by
//! typed index. Each table is ordered by name.

use crate::calculator::game_data::{
    fits, BuildingIndex, ModuleIndex, ProductCategoryIndex, ProductCategoryVec, ProductIndex,
    RecipeIndex,
};
use crate::calculator::game_data;
use crate::calculator::query::GameData;
use crate::calculator::serialization::{Building, BuildingModule, Product, ProductCategory, Recipe};
use crate::calculator::sort::{sort_by_name, sorted_by_name, Named};
use crate::collection::TypedIndexVec;
use crate::iter::into_queue;
use crate::typed_index::TypedIndex;
use std::collections::VecDeque;
use vstd::prelude::*;

verus! {

broadcast use vstd::seq_lib::group_to_multiset_ensures;

/// Why serialized game data could not be turned into tables.
#[derive(Debug, Clone, Copy, PartialEq, Eq)]
pub enum LoadError {
    /// A table has more entries than its index type can number.
    TooManyEntries,
    /// An entry refers to a guid that no entry of the table it points into has.
    UnknownReference,
}

/// No two entries of `s` share a guid.
pub open spec fn unique_guids<T>(s: Seq<(String, T)>) -> bool {
    forall|i: int, j: int| 0 <= i < j < s.len() ==> (#[trigger] s[i]).0@ != (#[trigger] s[j]).0@
}

/// Entry `p` of `s` has guid `g`.
pub open spec fn guid_at<T>(s: Seq<(String, T)>, g: Seq<char>, p: int) -> bool {
    0 <= p < s.len() && s[p].0@ == g
}

/// Some entry of `s` has guid `g`.
pub open spec fn has_guid<T>(s: Seq<(String, T)>, g: Seq<char>) -> bool {
    exists|p: int| #[trigger] guid_at(s, g, p)
}

/// Every reference between the serialized tables names an entry.
pub open spec fn references_resolve<M>(
    products: Seq<(String, Product)>,
    recipes: Seq<(String, Recipe)>,
    modules: Seq<(String, BuildingModule)>,
    buildings: Seq<(String, Building)>,
    categories: Seq<(String, ProductCategory<M>)>,
) -> bool {
    &&& forall|i: int| 0 <= i < products.len() ==> has_guid(categories, (#[trigger] products[i]).1.category@)
    &&& forall|i: int| 0 <= i < recipes.len() ==> recipe_resolves(#[trigger] recipes[i], products, modules)
    &&& forall|i: int| 0 <= i < buildings.len() ==> building_resolves(#[trigger] buildings[i], recipes)
}

pub open spec fn recipe_resolves(
    recipe: (String, Recipe),
    products: Seq<(String, Product)>,
    modules: Seq<(String, BuildingModule)>,
) -> bool {
    &&& forall|k: int|
        0 <= k < recipe.1.entries@.len() ==> has_guid(products, (#[trigger] recipe.1.entries@[k]).product_id@)
    &&& forall|k: int|
        0 <= k < recipe.1.required_modules@.len() ==> has_guid(modules, (#[trigger] recipe.1.required_modules@[k])@)
}

pub open spec fn building_resolves(building: (String, Building), recipes: Seq<(String, Recipe)>) -> bool {
    forall|k: int|
        0 <= k < building.1.available_recipes@.len() ==> has_guid(recipes, (#[trigger] building.1.available_recipes@[k])@)
}

/// Every table can be numbered by its index type.
pub open spec fn all_fit(
    products: nat,
    recipes: nat,
    modules: nat,
    buildings: nat,
    categories: nat,
) -> bool {
    &&& fits::<ProductIndex>(products)
    &&& fits::<RecipeIndex>(recipes)
    &&& fits::<ModuleIndex>(modules)
    &&& fits::<BuildingIndex>(buildings)
    &&& fits::<ProductCategoryIndex>(categories)
}

/// `sorted` holds the entries of `s`, ordered by name.
pub open spec fn sorted_permutation<T: Named>(sorted: Seq<(String, T)>, s: Seq<(String, T)>) -> bool {
    sorted.to_multiset() == s.to_multiset() && sorted_by_name(sorted)
}

/// `row` is serialized product `src`, its category found among `categories`.
pub open spec fn product_loaded<M>(
    row: game_data::Product,
    src: (String, Product),
    categories: Seq<(String, ProductCategory<M>)>,
) -> bool {
    &&& row.name == src.1.name
    &&& row.price_formula == src.1.price_formula
    &&& guid_at(categories, src.1.category@, row.product_category.position() as int)
}

/// `row` is serialized recipe `src`, its products and modules found among
/// `products` and `modules`.
pub open spec fn recipe_loaded(
    row: game_data::Recipe,
    src: (String, Recipe),
    products: Seq<(String, Product)>,
    modules: Seq<(String, BuildingModule)>,
) -> bool {
    &&& row.name == src.1.name
    &&& row.days == src.1.days
    &&& row.entries@.len() == src.1.entries@.len()
    &&& forall|k: int|
        0 <= k < row.entries@.len() ==> {
            &&& (#[trigger] row.entries@[k]).amount == src.1.entries@[k].amount
            &&& guid_at(products, src.1.entries@[k].product_id@, row.entries@[k].product_index.position() as int)
        }
    &&& row.required_modules@.len() == src.1.required_modules@.len()
    &&& forall|k: int|
        0 <= k < row.required_modules@.len() ==> guid_at(
            modules,
            src.1.required_modules@[k]@,
            (#[trigger] row.required_modules@[k]).position() as int,
        )
}

/// `row` is serialized building `src`, its recipes found among `recipes`.
pub open spec fn building_loaded(
    row: game_data::Building,
    src: (String, Building),
    recipes: Seq<(String, Recipe)>,
) -> bool {
    &&& row.name == src.1.name
    &&& row.base_cost == src.1.base_cost
    &&& row.available_recipes@.len() == src.1.available_recipes@.len()
    &&& forall|k: int|
        0 <= k < row.available_recipes@.len() ==> guid_at(
            recipes,
            src.1.available_recipes@[k]@,
            (#[trigger] row.available_recipes@[k]).position() as int,
        )
}

/// The tables of `data` are the serialized tables `ps`, `rs`, `ms`, `bs`
/// and `cs`, row for row, with every guid replaced by the position of the
/// entry it names.
pub open spec fn loaded_from<M>(
    data: GameData,
    ps: Seq<(String, Product)>,
    rs: Seq<(String, Recipe)>,
    ms: Seq<(String, BuildingModule)>,
    bs: Seq<(String, Building)>,
    cs: Seq<(String, ProductCategory<M>)>,
) -> bool {
    &&& data.products().len() == ps.len()
    &&& forall|i: int| 0 <= i < ps.len() ==> #[trigger] product_loaded(data.products()[i], ps[i], cs)
    &&& data.recipes().len() == rs.len()
    &&& forall|i: int| 0 <= i < rs.len() ==> #[trigger] recipe_loaded(data.recipes()[i], rs[i], ps, ms)
    &&& data.modules().len() == ms.len()
    &&& forall|i: int|
        0 <= i < ms.len() ==> #[trigger] data.modules()[i].name == ms[i].1.name
            && data.modules()[i].base_cost == ms[i].1.base_cost
    &&& data.buildings().len() == bs.len()
    &&& forall|i: int| 0 <= i < bs.len() ==> #[trigger] building_loaded(data.buildings()[i], bs[i], rs)
    &&& data.categories().len() == cs.len()
    &&& forall|i: int| 0 <= i < cs.len() ==> #[trigger] data.categories()[i].name == cs[i].1.name
}

/// `data` holds the serialized tables, each ordered by name, with every guid
/// replaced by the position of the entry it names; `modifiers` holds the
/// category modifiers in the order of the category table.
pub open spec fn loaded_sorted<M>(
    data: GameData,
    modifiers: Seq<M>,
    products: Seq<(String, Product)>,
    recipes: Seq<(String, Recipe)>,
    modules: Seq<(String, BuildingModule)>,
    buildings: Seq<(String, Building)>,
    categories: Seq<(String, ProductCategory<M>)>,
) -> bool {
    exists|
        ps: Seq<(String, Product)>,
        rs: Seq<(String, Recipe)>,
        ms: Seq<(String, BuildingModule)>,
        bs: Seq<(String, Building)>,
        cs: Seq<(String, ProductCategory<M>)>,
    |
        {
            &&& sorted_permutation(ps, products)
            &&& sorted_permutation(rs, recipes)
            &&& sorted_permutation(ms, modules)
            &&& sorted_permutation(bs, buildings)
            &&& sorted_permutation(cs, categories)
            &&& #[trigger] loaded_from(data, ps, rs, ms, bs, cs)
            &&& modifiers == modifiers_of(cs)
        }
}

/// The modifiers of the categories `cs`, in order.
pub open spec fn modifiers_of<M>(cs: Seq<(String, ProductCategory<M>)>) -> Seq<M> {
    cs.map_values(|c: (String, ProductCategory<M>)| c.1.modifiers)
}

/// Entries with the same multiset agree on which guids they have.
proof fn lemma_permutation_has_guid<T>(s1: Seq<(String, T)>, s2: Seq<(String, T)>, g: Seq<char>)
    requires
        s1.to_multiset() == s2.to_multiset(),
    ensures
        has_guid(s1, g) <==> has_guid(s2, g),
{
    if has_guid(s1, g) {
        let p = choose|p: int| guid_at(s1, g, p);
        assert(s1.contains(s1[p]));
        assert(s2.to_multiset().count(s1[p]) > 0);
        let q = choose|q: int| 0 <= q < s2.len() && s2[q] == s1[p];
        assert(guid_at(s2, g, q));
    }
    if has_guid(s2, g) {
        let p = choose|p: int| guid_at(s2, g, p);
        assert(s2.contains(s2[p]));
        assert(s1.to_multiset().count(s2[p]) > 0);
        let q = choose|q: int| 0 <= q < s1.len() && s1[q] == s2[p];
        assert(guid_at(s1, g, q));
    }
}

/// An entry of one of two permutations is an entry of the other.
proof fn lemma_permutation_member<T>(s1: Seq<(String, T)>, s2: Seq<(String, T)>, i: int) -> (j: int)
    requires
        s1.to_multiset() == s2.to_multiset(),
        0 <= i < s1.len(),
    ensures
        0 <= j < s2.len(),
        s2[j] == s1[i],
{
    assert(s1.contains(s1[i]));
    assert(s2.to_multiset().count(s1[i]) > 0);
    choose|j: int| 0 <= j < s2.len() && s2[j] == s1[i]
}

/// Whether the references resolve does not depend on the order of entries.
pub proof fn lemma_permutation_resolves<M>(
    products: Seq<(String, Product)>,
    recipes: Seq<(String, Recipe)>,
    modules: Seq<(String, BuildingModule)>,
    buildings: Seq<(String, Building)>,
    categories: Seq<(String, ProductCategory<M>)>,
    ps: Seq<(String, Product)>,
    rs: Seq<(String, Recipe)>,
    ms: Seq<(String, BuildingModule)>,
    bs: Seq<(String, Building)>,
    cs: Seq<(String, ProductCategory<M>)>,
)
    requires
        ps.to_multiset() == products.to_multiset(),
        rs.to_multiset() == recipes.to_multiset(),
        ms.to_multiset() == modules.to_multiset(),
        bs.to_multiset() == buildings.to_multiset(),
        cs.to_multiset() == categories.to_multiset(),
    ensures
        references_resolve(products, recipes, modules, buildings, categories)
            <==> references_resolve(ps, rs, ms, bs, cs),
{
    assert forall|g: Seq<char>| has_guid(categories, g) <==> has_guid(cs, g) by {
        lemma_permutation_has_guid(cs, categories, g);
    }
    assert forall|g: Seq<char>| has_guid(products, g) <==> has_guid(ps, g) by {
        lemma_permutation_has_guid(ps, products, g);
    }
    assert forall|g: Seq<char>| has_guid(modules, g) <==> has_guid(ms, g) by {
        lemma_permutation_has_guid(ms, modules, g);
    }
    assert forall|g: Seq<char>| has_guid(recipes, g) <==> has_guid(rs, g) by {
        lemma_permutation_has_guid(rs, recipes, g);
    }
    if references_resolve(products, recipes, modules, buildings, categories) {
        assert forall|i: int| 0 <= i < ps.len() implies has_guid(cs, (#[trigger] ps[i]).1.category@) by {
            let j = lemma_permutation_member(ps, products, i);
            assert(has_guid(categories, products[j].1.category@));
        }
        assert forall|i: int| 0 <= i < rs.len() implies recipe_resolves(#[trigger] rs[i], ps, ms) by {
            let j = lemma_permutation_member(rs, recipes, i);
            assert(recipe_resolves(recipes[j], products, modules));
        }
        assert forall|i: int| 0 <= i < bs.len() implies building_resolves(#[trigger] bs[i], rs) by {
            let j = lemma_permutation_member(bs, buildings, i);
            assert(building_resolves(buildings[j], recipes));
        }
    }
    if references_resolve(ps, rs, ms, bs, cs) {
        assert forall|i: int| 0 <= i < products.len() implies has_guid(
            categories,
            (#[trigger] products[i]).1.category@,
        ) by {
            let j = lemma_permutation_member(products, ps, i);
            assert(has_guid(cs, ps[j].1.category@));
        }
        assert forall|i: int| 0 <= i < recipes.len() implies recipe_resolves(
            #[trigger] recipes[i],
            products,
            modules,
        ) by {
            let j = lemma_permutation_member(recipes, rs, i);
            assert(recipe_resolves(rs[j], ps, ms));
        }
        assert forall|i: int| 0 <= i < buildings.len() implies building_resolves(
            #[trigger] buildings[i],
            recipes,
        ) by {
            let j = lemma_permutation_member(buildings, bs, i);
            assert(building_resolves(bs[j], rs));
        }
    }
}

/// The position of the entry of `guids` equal to `guid`, the first one if
/// several are.
fn position_of_guid(guids: &Vec<String>, guid: &String) -> (r: Option<usize>)
    ensures
        match r {
            Some(p) => p < guids@.len() && guids@[p as int]@ == guid@,
            None => forall|p: int| 0 <= p < guids@.len() ==> (#[trigger] guids@[p])@ != guid@,
        },
{
    let mut p: usize = 0;
    while p < guids.len()
        invariant
            p <= guids@.len(),
            forall|q: int| 0 <= q < p ==> (#[trigger] guids@[q])@ != guid@,
        decreases guids@.len() - p,
    {
        if guids[p] == *guid {
            return Some(p);
        }
        p = p + 1;
    }
    None
}

/// Splits `entries` into their guids and their values, both in order.
fn split_guids<T>(entries: Vec<(String, T)>) -> (r: (Vec<String>, VecDeque<T>))
    ensures
        r.0@.len() == entries@.len(),
        r.1@.len() == entries@.len(),
        forall|i: int| 0 <= i < entries@.len() ==> (#[trigger] r.0@[i]) == entries@[i].0,
        forall|i: int| 0 <= i < entries@.len() ==> (#[trigger] r.1@[i]) == entries@[i].1,
{
    let ghost original = entries@;
    let mut queue = into_queue(entries);
    let mut guids: Vec<String> = Vec::new();
    let mut values: VecDeque<T> = VecDeque::new();
    while queue.len() > 0
        invariant
            guids@.len() == values@.len(),
            guids@.len() + queue@.len() == original.len(),
            queue@ == original.subrange(guids@.len() as int, original.len() as int),
            forall|i: int| 0 <= i < guids@.len() ==> (#[trigger] guids@[i]) == original[i].0,
            forall|i: int| 0 <= i < values@.len() ==> (#[trigger] values@[i]) == original[i].1,
        decreases queue@.len(),
    {
        let (guid, value) = queue.pop_front().unwrap();
        guids.push(guid);
        values.push_back(value);
    }
    (guids, values)
}

/// A guid table's positions, read as typed indices.
proof fn lemma_guid_table<T>(guids: Seq<String>, s: Seq<(String, T)>, g: Seq<char>)
    requires
        guids.len() == s.len(),
        forall|i: int| 0 <= i < s.len() ==> (#[trigger] guids[i]) == s[i].0,
        forall|p: int| 0 <= p < guids.len() ==> (#[trigger] guids[p])@ != g,
    ensures
        !has_guid(s, g),
{
    if has_guid(s, g) {
        let p = choose|p: int| guid_at(s, g, p);
        assert(guids[p]@ != g);
    }
}

/// Turns the serialized game data into tables ordered by name. The
/// category modifiers, whatever their type, come back in the order of the
/// category table.
pub fn load_tables<M>(
    products: Vec<(String, Product)>,
    recipes: Vec<(String, Recipe)>,
    modules: Vec<(String, BuildingModule)>,
    buildings: Vec<(String, Building)>,
    categories: Vec<(String, ProductCategory<M>)>,
) -> (r: Result<(GameData, ProductCategoryVec<M>), LoadError>)
    ensures
        match r {
            Err(LoadError::TooManyEntries) => !all_fit(
                products@.len(),
                recipes@.len(),
                modules@.len(),
                buildings@.len(),
                categories@.len(),
            ),
            Err(LoadError::UnknownReference) => all_fit(
                products@.len(),
                recipes@.len(),
                modules@.len(),
                buildings@.len(),
                categories@.len(),
            ) && !references_resolve(products@, recipes@, modules@, buildings@, categories@),
            Ok((data, modifiers)) => {
                &&& all_fit(
                    products@.len(),
                    recipes@.len(),
                    modules@.len(),
                    buildings@.len(),
                    categories@.len(),
                )
                &&& references_resolve(products@, recipes@, modules@, buildings@, categories@)
                &&& data.wf()
                &&& loaded_sorted(
                    data,
                    modifiers@,
                    products@,
                    recipes@,
                    modules@,
                    buildings@,
                    categories@,
                )
            },
        },
{
    if !(fits_usize::<ProductIndex>(products.len()) && fits_usize::<RecipeIndex>(recipes.len())
        && fits_usize::<ModuleIndex>(modules.len()) && fits_usize::<BuildingIndex>(buildings.len())
        && fits_usize::<ProductCategoryIndex>(categories.len())) {
        return Err(LoadError::TooManyEntries);
    }
    let ghost (products0, recipes0, modules0, buildings0, categories0) = (
        products@,
        recipes@,
        modules@,
        buildings@,
        categories@,
    );
    let products = sort_by_name(products);
    let recipes = sort_by_name(recipes);
    let modules = sort_by_name(modules);
    let buildings = sort_by_name(buildings);
    let categories = sort_by_name(categories);
    let ghost (ps, rs, ms, bs, cs) = (products@, recipes@, modules@, buildings@, categories@);
    proof {
        assert(ps.to_multiset().len() == ps.len() && products0.to_multiset().len() == products0.len());
        assert(rs.to_multiset().len() == rs.len() && recipes0.to_multiset().len() == recipes0.len());
        assert(ms.to_multiset().len() == ms.len() && modules0.to_multiset().len() == modules0.len());
        assert(bs.to_multiset().len() == bs.len() && buildings0.to_multiset().len()
            == buildings0.len());
        assert(cs.to_multiset().len() == cs.len() && categories0.to_multiset().len()
            == categories0.len());
        lemma_permutation_resolves(
            products0,
            recipes0,
            modules0,
            buildings0,
            categories0,
            ps,
            rs,
            ms,
            bs,
            cs,
        );
    }
    let (category_guids, category_values) = split_guids(categories);
    let (product_guids, product_values) = split_guids(products);
    let (module_guids, module_values) = split_guids(modules);
    let (recipe_guids, recipe_values) = split_guids(recipes);
    let (_building_guids, building_values) = split_guids(buildings);

    let category_table = load_categories(category_values, Ghost(cs));
    let (category_data, modifiers) = category_table;
    let product_data = match load_products::<M>(product_values, &category_guids, Ghost(ps), Ghost(cs)) {
        Some(data) => data,
        None => return Err(LoadError::UnknownReference),
    };
    let module_data = load_modules(module_values, Ghost(ms));
    let recipe_data = match load_recipes(recipe_values, &product_guids, &module_guids, Ghost(rs), Ghost(ps), Ghost(ms)) {
        Some(data) => data,
        None => return Err(LoadError::UnknownReference),
    };
    let building_data = match load_buildings(building_values, &recipe_guids, Ghost(bs), Ghost(rs)) {
        Some(data) => data,
        None => return Err(LoadError::UnknownReference),
    };
    let data = GameData {
        product: product_data,
        recipe: recipe_data,
        module: module_data,
        building: building_data,
        product_category: category_data,
    };
    proof {
        assert(loaded_from(data, ps, rs, ms, bs, cs));
        lemma_loaded_references_valid(data, ps, rs, ms, bs, cs);
        lemma_loaded_resolves(data, ps, rs, ms, bs, cs);
        assert(references_resolve(products0, recipes0, modules0, buildings0, categories0));
        assert(data.wf());
        assert(sorted_permutation(ps, products0));
        assert(sorted_permutation(cs, categories0));
        assert(modifiers@ == modifiers_of(cs));
        assert(all_fit(
            products0.len(),
            recipes0.len(),
            modules0.len(),
            buildings0.len(),
            categories0.len(),
        ));
        assert(loaded_sorted(data, modifiers@, products0, recipes0, modules0, buildings0, categories0));
    }
    Ok((data, modifiers))
}

/// Serialized tables that could be loaded have no dangling guid.
proof fn lemma_loaded_resolves<M>(
    data: GameData,
    ps: Seq<(String, Product)>,
    rs: Seq<(String, Recipe)>,
    ms: Seq<(String, BuildingModule)>,
    bs: Seq<(String, Building)>,
    cs: Seq<(String, ProductCategory<M>)>,
)
    requires
        loaded_from(data, ps, rs, ms, bs, cs),
    ensures
        references_resolve(ps, rs, ms, bs, cs),
{
    assert forall|i: int| 0 <= i < ps.len() implies has_guid(cs, (#[trigger] ps[i]).1.category@) by {
        assert(product_loaded(data.products()[i], ps[i], cs));
        let p = data.products()[i].product_category.position() as int;
        assert(guid_at(cs, ps[i].1.category@, p));
    }
    assert forall|i: int| 0 <= i < rs.len() implies recipe_resolves(#[trigger] rs[i], ps, ms) by {
        let row = data.recipes()[i];
        assert(recipe_loaded(row, rs[i], ps, ms));
        assert forall|k: int| 0 <= k < rs[i].1.entries@.len() implies has_guid(
            ps,
            (#[trigger] rs[i].1.entries@[k]).product_id@,
        ) by {
            let e = row.entries@[k];
            assert(guid_at(ps, rs[i].1.entries@[k].product_id@, e.product_index.position() as int));
        }
        assert forall|k: int| 0 <= k < rs[i].1.required_modules@.len() implies has_guid(
            ms,
            (#[trigger] rs[i].1.required_modules@[k])@,
        ) by {
            let m = row.required_modules@[k];
            assert(guid_at(ms, rs[i].1.required_modules@[k]@, m.position() as int));
        }
    }
    assert forall|i: int| 0 <= i < bs.len() implies building_resolves(#[trigger] bs[i], rs) by {
        let row = data.buildings()[i];
        assert(building_loaded(row, bs[i], rs));
        assert forall|k: int| 0 <= k < bs[i].1.available_recipes@.len() implies has_guid(
            rs,
            (#[trigger] bs[i].1.available_recipes@[k])@,
        ) by {
            let x = row.available_recipes@[k];
            assert(guid_at(rs, bs[i].1.available_recipes@[k]@, x.position() as int));
        }
    }
}

/// Tables loaded from serialized tables only refer to rows that exist.
proof fn lemma_loaded_references_valid<M>(
    data: GameData,
    ps: Seq<(String, Product)>,
    rs: Seq<(String, Recipe)>,
    ms: Seq<(String, BuildingModule)>,
    bs: Seq<(String, Building)>,
    cs: Seq<(String, ProductCategory<M>)>,
)
    requires
        loaded_from(data, ps, rs, ms, bs, cs),
    ensures
        data.references_valid(),
{
    assert forall|i: int| 0 <= i < data.products().len() implies (
    #[trigger] data.products()[i]).product_category.position() < data.categories().len() by {
        assert(product_loaded(data.products()[i], ps[i], cs));
    }
    assert forall|i: int, k: int|
        0 <= i < data.recipes().len() && 0 <= k < data.recipes()[i].entries@.len() implies (
    #[trigger] data.recipes()[i].entries@[k]).product_index.position() < data.products().len() by {
        assert(recipe_loaded(data.recipes()[i], rs[i], ps, ms));
        assert(guid_at(ps, rs[i].1.entries@[k].product_id@, data.recipes()[i].entries@[k].product_index.position() as int));
    }
    assert forall|i: int, k: int|
        0 <= i < data.recipes().len() && 0 <= k < data.recipes()[i].required_modules@.len() implies (
    #[trigger] data.recipes()[i].required_modules@[k]).position() < data.modules().len() by {
        assert(recipe_loaded(data.recipes()[i], rs[i], ps, ms));
        assert(guid_at(ms, rs[i].1.required_modules@[k]@, data.recipes()[i].required_modules@[k].position() as int));
    }
    assert forall|i: int, k: int|
        0 <= i < data.buildings().len() && 0 <= k < data.buildings()[i].available_recipes@.len() implies (
    #[trigger] data.buildings()[i].available_recipes@[k]).position() < data.recipes().len() by {
        assert(building_loaded(data.buildings()[i], bs[i], rs));
        assert(guid_at(rs, bs[i].1.available_recipes@[k]@, data.buildings()[i].available_recipes@[k].position() as int));
    }
}

/// Whether a table of `len` rows fits its index type, decided at run time.
fn fits_usize<X: TypedIndex>(len: usize) -> (r: bool)
    ensures
        r == fits::<X>(len as nat),
{
    len == 0 || X::holds_usize(len - 1)
}

fn load_categories<M>(
    values: VecDeque<ProductCategory<M>>,
    cs: Ghost<Seq<(String, ProductCategory<M>)>>,
) -> (r: (game_data::ProductCategoryData, ProductCategoryVec<M>))
    requires
        values@.len() == cs@.len(),
        forall|i: int| 0 <= i < cs@.len() ==> (#[trigger] values@[i]) == cs@[i].1,
        fits::<ProductCategoryIndex>(cs@.len()),
    ensures
        r.0.wf(),
        r.0.rows().len() == cs@.len(),
        forall|i: int| 0 <= i < cs@.len() ==> #[trigger] r.0.rows()[i].name == cs@[i].1.name,
        r.1@ == modifiers_of(cs@),
{
    let mut values = values;
    let n = values.len();
    let mut data = game_data::ProductCategoryData::default();
    let mut modifiers: ProductCategoryVec<M> = TypedIndexVec::default();
    let mut i: usize = 0;
    while i < n
        invariant
            n == cs@.len(),
            i <= n,
            values@.len() == n - i,
            forall|k: int| 0 <= k < values@.len() ==> (#[trigger] values@[k]) == cs@[i + k].1,
            fits::<ProductCategoryIndex>(n as nat),
            data.wf(),
            data.rows().len() == i,
            modifiers@.len() == i,
            forall|k: int| 0 <= k < i ==> #[trigger] data.rows()[k].name == cs@[k].1.name,
            forall|k: int| 0 <= k < i ==> #[trigger] modifiers@[k] == cs@[k].1.modifiers,
        decreases n - i,
    {
        assert(values@[0] == cs@[i as int].1);
        let ProductCategory { name, modifiers: m } = values.pop_front().unwrap();
        proof {
            ProductCategoryIndex::lemma_holds_below((n - 1) as nat, i as nat);
        }
        data.push(game_data::ProductCategory { name });
        modifiers.push(m);
        i = i + 1;
    }
    assert(modifiers@ =~= modifiers_of(cs@));
    (data, modifiers)
}

fn load_products<M>(
    values: VecDeque<Product>,
    category_guids: &Vec<String>,
    ps: Ghost<Seq<(String, Product)>>,
    cs: Ghost<Seq<(String, ProductCategory<M>)>>,
) -> (r: Option<game_data::ProductData>)
    requires
        values@.len() == ps@.len(),
        forall|i: int| 0 <= i < ps@.len() ==> (#[trigger] values@[i]) == ps@[i].1,
        category_guids@.len() == cs@.len(),
        forall|i: int| 0 <= i < cs@.len() ==> (#[trigger] category_guids@[i]) == cs@[i].0,
        fits::<ProductIndex>(ps@.len()),
        fits::<ProductCategoryIndex>(cs@.len()),
    ensures
        match r {
            Some(data) => {
                &&& data.wf()
                &&& data.rows().len() == ps@.len()
                &&& forall|i: int| 0 <= i < ps@.len() ==> #[trigger] product_loaded(data.rows()[i], ps@[i], cs@)
            },
            None => exists|i: int| 0 <= i < ps@.len() && !has_guid(cs@, (#[trigger] ps@[i]).1.category@),
        },
{
    let mut values = values;
    let n = values.len();
    let mut data = game_data::ProductData::default();
    let mut i: usize = 0;
    while i < n
        invariant
            n == ps@.len(),
            i <= n,
            values@.len() == n - i,
            forall|k: int| 0 <= k < values@.len() ==> (#[trigger] values@[k]) == ps@[i + k].1,
            category_guids@.len() == cs@.len(),
            forall|k: int| 0 <= k < cs@.len() ==> (#[trigger] category_guids@[k]) == cs@[k].0,
            fits::<ProductIndex>(n as nat),
            fits::<ProductCategoryIndex>(cs@.len()),
            data.wf(),
            data.rows().len() == i,
            forall|k: int| 0 <= k < i ==> #[trigger] product_loaded(data.rows()[k], ps@[k], cs@),
        decreases n - i,
    {
        assert(values@[0] == ps@[i as int].1);
        let Product { name, category, price_formula } = values.pop_front().unwrap();
        let position = match position_of_guid(category_guids, &category) {
            Some(p) => p,
            None => {
                proof {
                    lemma_guid_table(category_guids@, cs@, category@);
                    assert(!has_guid(cs@, ps@[i as int].1.category@));
                }
                return None;
            },
        };
        proof {
            ProductIndex::lemma_holds_below((n - 1) as nat, i as nat);
            ProductCategoryIndex::lemma_holds_below((cs@.len() - 1) as nat, position as nat);
        }
        let product_category = ProductCategoryIndex::from_usize(position);
        let ghost before = data.rows();
        data.push(game_data::Product { name, product_category, price_formula });
        proof {
            assert(guid_at(cs@, ps@[i as int].1.category@, position as int));
            assert(product_loaded(data.rows()[i as int], ps@[i as int], cs@));
            assert forall|k: int| 0 <= k < i + 1 implies #[trigger] product_loaded(
                data.rows()[k],
                ps@[k],
                cs@,
            ) by {
                if k < i {
                    assert(data.rows()[k] == before[k]);
                }
            }
        }
        i = i + 1;
    }
    Some(data)
}

fn load_modules(values: VecDeque<BuildingModule>, ms: Ghost<Seq<(String, BuildingModule)>>) -> (r:
    game_data::ModuleData)
    requires
        values@.len() == ms@.len(),
        forall|i: int| 0 <= i < ms@.len() ==> (#[trigger] values@[i]) == ms@[i].1,
        fits::<ModuleIndex>(ms@.len()),
    ensures
        r.wf(),
        r.rows().len() == ms@.len(),
        forall|i: int|
            0 <= i < ms@.len() ==> #[trigger] r.rows()[i].name == ms@[i].1.name && r.rows()[i].base_cost
                == ms@[i].1.base_cost,
{
    let mut values = values;
    let n = values.len();
    let mut data = game_data::ModuleData::default();
    let mut i: usize = 0;
    while i < n
        invariant
            n == ms@.len(),
            i <= n,
            values@.len() == n - i,
            forall|k: int| 0 <= k < values@.len() ==> (#[trigger] values@[k]) == ms@[i + k].1,
            fits::<ModuleIndex>(n as nat),
            data.wf(),
            data.rows().len() == i,
            forall|k: int|
                0 <= k < i ==> #[trigger] data.rows()[k].name == ms@[k].1.name && data.rows()[k].base_cost
                    == ms@[k].1.base_cost,
        decreases n - i,
    {
        assert(values@[0] == ms@[i as int].1);
        let BuildingModule { name, base_cost } = values.pop_front().unwrap();
        proof {
            ModuleIndex::lemma_holds_below((n - 1) as nat, i as nat);
        }
        data.push(game_data::Module { name, base_cost });
        i = i + 1;
    }
    data
}

/// The positions of `guids` in `table_guids`, read as typed indices, or
/// `None` when one of them is not there.
fn resolve_guids<X: TypedIndex, T>(
    guids: &Vec<String>,
    table_guids: &Vec<String>,
    table: Ghost<Seq<(String, T)>>,
) -> (r: Option<Vec<X>>)
    requires
        table_guids@.len() == table@.len(),
        forall|i: int| 0 <= i < table@.len() ==> (#[trigger] table_guids@[i]) == table@[i].0,
        fits::<X>(table@.len()),
    ensures
        match r {
            Some(indices) => {
                &&& indices@.len() == guids@.len()
                &&& forall|k: int|
                    0 <= k < guids@.len() ==> guid_at(table@, guids@[k]@, (#[trigger] indices@[k]).position() as int)
            },
            None => exists|k: int| 0 <= k < guids@.len() && !has_guid(table@, (#[trigger] guids@[k])@),
        },
{
    let mut indices: Vec<X> = Vec::new();
    let mut k: usize = 0;
    while k < guids.len()
        invariant
            k <= guids@.len(),
            table_guids@.len() == table@.len(),
            forall|i: int| 0 <= i < table@.len() ==> (#[trigger] table_guids@[i]) == table@[i].0,
            fits::<X>(table@.len()),
            indices@.len() == k,
            forall|j: int|
                0 <= j < k ==> guid_at(table@, guids@[j]@, (#[trigger] indices@[j]).position() as int),
        decreases guids@.len() - k,
    {
        match position_of_guid(table_guids, &guids[k]) {
            Some(p) => {
                proof {
                    X::lemma_holds_below((table@.len() - 1) as nat, p as nat);
                }
                indices.push(X::from_usize(p));
            },
            None => {
                proof {
                    lemma_guid_table(table_guids@, table@, guids@[k as int]@);
                }
                return None;
            },
        }
        k = k + 1;
    }
    Some(indices)
}

fn load_recipes(
    values: VecDeque<Recipe>,
    product_guids: &Vec<String>,
    module_guids: &Vec<String>,
    rs: Ghost<Seq<(String, Recipe)>>,
    ps: Ghost<Seq<(String, Product)>>,
    ms: Ghost<Seq<(String, BuildingModule)>>,
) -> (r: Option<game_data::RecipeData>)
    requires
        values@.len() == rs@.len(),
        forall|i: int| 0 <= i < rs@.len() ==> (#[trigger] values@[i]) == rs@[i].1,
        product_guids@.len() == ps@.len(),
        forall|i: int| 0 <= i < ps@.len() ==> (#[trigger] product_guids@[i]) == ps@[i].0,
        module_guids@.len() == ms@.len(),
        forall|i: int| 0 <= i < ms@.len() ==> (#[trigger] module_guids@[i]) == ms@[i].0,
        fits::<RecipeIndex>(rs@.len()),
        fits::<ProductIndex>(ps@.len()),
        fits::<ModuleIndex>(ms@.len()),
    ensures
        match r {
            Some(data) => {
                &&& data.wf()
                &&& data.rows().len() == rs@.len()
                &&& forall|i: int| 0 <= i < rs@.len() ==> #[trigger] recipe_loaded(data.rows()[i], rs@[i], ps@, ms@)
            },
            None => exists|i: int| 0 <= i < rs@.len() && !recipe_resolves(#[trigger] rs@[i], ps@, ms@),
        },
{
    let mut values = values;
    let n = values.len();
    let mut data = game_data::RecipeData::default();
    let mut i: usize = 0;
    while i < n
        invariant
            n == rs@.len(),
            i <= n,
            values@.len() == n - i,
            forall|k: int| 0 <= k < values@.len() ==> (#[trigger] values@[k]) == rs@[i + k].1,
            product_guids@.len() == ps@.len(),
            forall|k: int| 0 <= k < ps@.len() ==> (#[trigger] product_guids@[k]) == ps@[k].0,
            module_guids@.len() == ms@.len(),
            forall|k: int| 0 <= k < ms@.len() ==> (#[trigger] module_guids@[k]) == ms@[k].0,
            fits::<RecipeIndex>(n as nat),
            fits::<ProductIndex>(ps@.len()),
            fits::<ModuleIndex>(ms@.len()),
            data.wf(),
            data.rows().len() == i,
            forall|k: int| 0 <= k < i ==> #[trigger] recipe_loaded(data.rows()[k], rs@[k], ps@, ms@),
        decreases n - i,
    {
        assert(values@[0] == rs@[i as int].1);
        let Recipe { name, entries: source_entries, days, required_modules: module_refs, tier: _ } =
            values.pop_front().unwrap();
        let ghost src = rs@[i as int];
        let mut entries: Vec<game_data::RecipeEntry> = Vec::new();
        let mut k: usize = 0;
        while k < source_entries.len()
            invariant
                i < n,
                n == rs@.len(),
                src == rs@[i as int],
                source_entries@ == src.1.entries@,
                k <= source_entries@.len(),
                product_guids@.len() == ps@.len(),
                forall|j: int| 0 <= j < ps@.len() ==> (#[trigger] product_guids@[j]) == ps@[j].0,
                fits::<ProductIndex>(ps@.len()),
                entries@.len() == k,
                forall|j: int|
                    0 <= j < k ==> {
                        &&& (#[trigger] entries@[j]).amount == src.1.entries@[j].amount
                        &&& guid_at(ps@, src.1.entries@[j].product_id@, entries@[j].product_index.position() as int)
                    },
            decreases source_entries@.len() - k,
        {
            let entry = &source_entries[k];
            match position_of_guid(product_guids, &entry.product_id) {
                Some(p) => {
                    proof {
                        ProductIndex::lemma_holds_below((ps@.len() - 1) as nat, p as nat);
                    }
                    entries.push(
                        game_data::RecipeEntry {
                            product_index: ProductIndex::from_usize(p),
                            amount: entry.amount,
                        },
                    );
                },
                None => {
                    proof {
                        lemma_guid_table(product_guids@, ps@, entry.product_id@);
                        assert(!has_guid(ps@, src.1.entries@[k as int].product_id@));
                        assert(!recipe_resolves(src, ps@, ms@));
                    }
                    return None;
                },
            }
            k = k + 1;
        }
        let required_modules = match resolve_guids::<ModuleIndex, BuildingModule>(
            &module_refs,
            module_guids,
            ms,
        ) {
            Some(indices) => indices,
            None => {
                proof {
                    let k = choose|k: int|
                        0 <= k < module_refs@.len() && !has_guid(ms@, (#[trigger] module_refs@[k])@);
                    assert(!has_guid(ms@, src.1.required_modules@[k]@));
                    assert(!recipe_resolves(src, ps@, ms@));
                }
                return None;
            },
        };
        proof {
            RecipeIndex::lemma_holds_below((n - 1) as nat, i as nat);
        }
        let ghost before = data.rows();
        data.push(game_data::Recipe { name, entries, days, required_modules });
        proof {
            assert(recipe_loaded(data.rows()[i as int], rs@[i as int], ps@, ms@));
            assert forall|k: int| 0 <= k < i + 1 implies #[trigger] recipe_loaded(
                data.rows()[k],
                rs@[k],
                ps@,
                ms@,
            ) by {
                if k < i {
                    assert(data.rows()[k] == before[k]);
                }
            }
        }
        i = i + 1;
    }
    Some(data)
}

fn load_buildings(
    values: VecDeque<Building>,
    recipe_guids: &Vec<String>,
    bs: Ghost<Seq<(String, Building)>>,
    rs: Ghost<Seq<(String, Recipe)>>,
) -> (r: Option<game_data::BuildingData>)
    requires
        values@.len() == bs@.len(),
        forall|i: int| 0 <= i < bs@.len() ==> (#[trigger] values@[i]) == bs@[i].1,
        recipe_guids@.len() == rs@.len(),
        forall|i: int| 0 <= i < rs@.len() ==> (#[trigger] recipe_guids@[i]) == rs@[i].0,
        fits::<BuildingIndex>(bs@.len()),
        fits::<RecipeIndex>(rs@.len()),
    ensures
        match r {
            Some(data) => {
                &&& data.wf()
                &&& data.rows().len() == bs@.len()
                &&& forall|i: int| 0 <= i < bs@.len() ==> #[trigger] building_loaded(data.rows()[i], bs@[i], rs@)
            },
            None => exists|i: int| 0 <= i < bs@.len() && !building_resolves(#[trigger] bs@[i], rs@),
        },
{
    let mut values = values;
    let n = values.len();
    let mut data = game_data::BuildingData::default();
    let mut i: usize = 0;
    while i < n
        invariant
            n == bs@.len(),
            i <= n,
            values@.len() == n - i,
            forall|k: int| 0 <= k < values@.len() ==> (#[trigger] values@[k]) == bs@[i + k].1,
            recipe_guids@.len() == rs@.len(),
            forall|k: int| 0 <= k < rs@.len() ==> (#[trigger] recipe_guids@[k]) == rs@[k].0,
            fits::<BuildingIndex>(n as nat),
            fits::<RecipeIndex>(rs@.len()),
            data.wf(),
            data.rows().len() == i,
            forall|k: int| 0 <= k < i ==> #[trigger] building_loaded(data.rows()[k], bs@[k], rs@),
        decreases n - i,
    {
        assert(values@[0] == bs@[i as int].1);
        let Building { name, base_cost, available_recipes: recipe_refs } = values.pop_front().unwrap();
        let ghost src = bs@[i as int];
        let available_recipes = match resolve_guids::<RecipeIndex, Recipe>(&recipe_refs, recipe_guids, rs) {
            Some(indices) => indices,
            None => {
                proof {
                    let k = choose|k: int|
                        0 <= k < recipe_refs@.len() && !has_guid(rs@, (#[trigger] recipe_refs@[k])@);
                    assert(!has_guid(rs@, src.1.available_recipes@[k]@));
                    assert(!building_resolves(src, rs@));
                }
                return None;
            },
        };
        proof {
            BuildingIndex::lemma_holds_below((n - 1) as nat, i as nat);
        }
        let ghost before = data.rows();
        data.push(game_data::Building { name, base_cost, available_recipes });
        proof {
            assert(building_loaded(data.rows()[i as int], bs@[i as int], rs@));
            assert forall|k: int| 0 <= k < i + 1 implies #[trigger] building_loaded(
                data.rows()[k],
                bs@[k],
                rs@,
            ) by {
                if k < i {
                    assert(data.rows()[k] == before[k]);
                }
            }
        }
        i = i + 1;
    }
    Some(data)
}

} // verus!
