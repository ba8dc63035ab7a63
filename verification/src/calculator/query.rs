//! The whole game data, and queries that follow the references between its
//! tables.

use crate::calculator::game_data::{
    entries_where, named_never, named_once, named_twice, produces, Building, BuildingIndex,
    LookupError, Module, ModuleIndex, Product, ProductCategory, ProductCategoryData,
    ProductCategoryIndex, ProductData, ProductIndex, Recipe, RecipeData, RecipeEntry, RecipeIndex,
    BuildingData, ModuleData,
};
use crate::calculator::serialization::ProductPriceFormula;
use crate::typed_index::TypedIndex;
use vstd::prelude::*;

verus! {

/// All tables of the game data.
pub struct GameData {
    pub product: ProductData,
    pub recipe: RecipeData,
    pub module: ModuleData,
    pub building: BuildingData,
    pub product_category: ProductCategoryData,
}

impl GameData {
    pub open spec fn products(&self) -> Seq<Product> {
        self.product.rows()
    }

    pub open spec fn recipes(&self) -> Seq<Recipe> {
        self.recipe.rows()
    }

    pub open spec fn modules(&self) -> Seq<Module> {
        self.module.rows()
    }

    pub open spec fn buildings(&self) -> Seq<Building> {
        self.building.rows()
    }

    pub open spec fn categories(&self) -> Seq<ProductCategory> {
        self.product_category.rows()
    }

    pub open spec fn product_names(&self) -> Seq<Seq<char>> {
        self.products().map_values(|p: Product| p.name@)
    }

    pub open spec fn recipe_names(&self) -> Seq<Seq<char>> {
        self.recipes().map_values(|p: Recipe| p.name@)
    }

    pub open spec fn building_names(&self) -> Seq<Seq<char>> {
        self.buildings().map_values(|p: Building| p.name@)
    }

    pub open spec fn module_names(&self) -> Seq<Seq<char>> {
        self.modules().map_values(|p: Module| p.name@)
    }

    /// Every reference from one table into another points at a row.
    pub open spec fn references_valid(&self) -> bool {
        &&& forall|i: int|
            0 <= i < self.products().len() ==> (#[trigger] self.products()[i]).product_category.position()
                < self.categories().len()
        &&& forall|i: int, k: int|
            0 <= i < self.recipes().len() && 0 <= k < self.recipes()[i].entries@.len()
                ==> (#[trigger] self.recipes()[i].entries@[k]).product_index.position()
                < self.products().len()
        &&& forall|i: int, k: int|
            0 <= i < self.recipes().len() && 0 <= k < self.recipes()[i].required_modules@.len()
                ==> (#[trigger] self.recipes()[i].required_modules@[k]).position()
                < self.modules().len()
        &&& forall|i: int, k: int|
            0 <= i < self.buildings().len() && 0 <= k
                < self.buildings()[i].available_recipes@.len()
                ==> (#[trigger] self.buildings()[i].available_recipes@[k]).position()
                < self.recipes().len()
    }

    pub open spec fn wf(&self) -> bool {
        &&& self.product.wf()
        &&& self.recipe.wf()
        &&& self.module.wf()
        &&& self.building.wf()
        &&& self.product_category.wf()
        &&& self.references_valid()
    }

    /// A query on `target` against this data.
    pub fn query<T>(&self, target: T) -> (r: Query<'_, T>)
        ensures
            r.data == self,
            r.target == target,
    {
        Query::new(self, target)
    }

    /// Queries on all products, in index order.
    pub fn products_query(&self) -> (r: Vec<Query<'_, ProductIndex>>)
        requires
            self.wf(),
        ensures
            r@.len() == self.products().len(),
            forall|i: int|
                0 <= i < r@.len() ==> (#[trigger] r@[i]).data == self && r@[i].target.position() == i,
    {
        let indices = self.product.indices();
        let mut r: Vec<Query<'_, ProductIndex>> = Vec::new();
        let mut i: usize = 0;
        while i < indices.len()
            invariant
                i <= indices@.len(),
                indices@.len() == self.products().len(),
                forall|k: int| 0 <= k < indices@.len() ==> (#[trigger] indices@[k]).position() == k,
                r@.len() == i,
                forall|k: int|
                    0 <= k < i ==> (#[trigger] r@[k]).data == self && r@[k].target.position() == k,
            decreases indices@.len() - i,
        {
            r.push(Query::new(self, indices[i]));
            i = i + 1;
        }
        r
    }

    /// Queries on all recipes, in index order.
    pub fn recipes_query(&self) -> (r: Vec<Query<'_, RecipeIndex>>)
        requires
            self.wf(),
        ensures
            r@.len() == self.recipes().len(),
            forall|i: int|
                0 <= i < r@.len() ==> (#[trigger] r@[i]).data == self && r@[i].target.position() == i,
    {
        let indices = self.recipe.indices();
        let mut r: Vec<Query<'_, RecipeIndex>> = Vec::new();
        let mut i: usize = 0;
        while i < indices.len()
            invariant
                i <= indices@.len(),
                indices@.len() == self.recipes().len(),
                forall|k: int| 0 <= k < indices@.len() ==> (#[trigger] indices@[k]).position() == k,
                r@.len() == i,
                forall|k: int|
                    0 <= k < i ==> (#[trigger] r@[k]).data == self && r@[k].target.position() == k,
            decreases indices@.len() - i,
        {
            r.push(Query::new(self, indices[i]));
            i = i + 1;
        }
        r
    }

    /// Queries on all building modules, in index order.
    pub fn modules_query(&self) -> (r: Vec<Query<'_, ModuleIndex>>)
        requires
            self.wf(),
        ensures
            r@.len() == self.modules().len(),
            forall|i: int|
                0 <= i < r@.len() ==> (#[trigger] r@[i]).data == self && r@[i].target.position() == i,
    {
        let indices = self.module.indices();
        let mut r: Vec<Query<'_, ModuleIndex>> = Vec::new();
        let mut i: usize = 0;
        while i < indices.len()
            invariant
                i <= indices@.len(),
                indices@.len() == self.modules().len(),
                forall|k: int| 0 <= k < indices@.len() ==> (#[trigger] indices@[k]).position() == k,
                r@.len() == i,
                forall|k: int|
                    0 <= k < i ==> (#[trigger] r@[k]).data == self && r@[k].target.position() == k,
            decreases indices@.len() - i,
        {
            r.push(Query::new(self, indices[i]));
            i = i + 1;
        }
        r
    }

    /// Queries on all buildings, in index order.
    pub fn buildings_query(&self) -> (r: Vec<Query<'_, BuildingIndex>>)
        requires
            self.wf(),
        ensures
            r@.len() == self.buildings().len(),
            forall|i: int|
                0 <= i < r@.len() ==> (#[trigger] r@[i]).data == self && r@[i].target.position() == i,
    {
        let indices = self.building.indices();
        let mut r: Vec<Query<'_, BuildingIndex>> = Vec::new();
        let mut i: usize = 0;
        while i < indices.len()
            invariant
                i <= indices@.len(),
                indices@.len() == self.buildings().len(),
                forall|k: int| 0 <= k < indices@.len() ==> (#[trigger] indices@[k]).position() == k,
                r@.len() == i,
                forall|k: int|
                    0 <= k < i ==> (#[trigger] r@[k]).data == self && r@[k].target.position() == k,
            decreases indices@.len() - i,
        {
            r.push(Query::new(self, indices[i]));
            i = i + 1;
        }
        r
    }

    /// The product named `name`, which exactly one product must have.
    pub fn product_by_name(&self, name: &str) -> (r: Query<'_, ProductIndex>)
        requires
            self.wf(),
            exists|i: int| #[trigger] named_once(self.product_names(), name@, i),
        ensures
            r.data == self,
            named_once(
                self.product_names(),
                name@,
                r.target.position() as int,
            ),
    {
        let found = self.product.find_by_name(name);
        let names = Ghost(self.product_names());
        match found {
            Ok(index) => Query::new(self, index),
            Err(_) => {
                proof {
                    let i = choose|i: int| named_once(names@, name@, i);
                    assert(names@[i] == name@);
                }
                Query::new(self, found.unwrap())
            },
        }
    }

    /// The recipe named `name`, which exactly one recipe must have.
    pub fn recipe_by_name(&self, name: &str) -> (r: Query<'_, RecipeIndex>)
        requires
            self.wf(),
            exists|i: int| #[trigger] named_once(self.recipe_names(), name@, i),
        ensures
            r.data == self,
            named_once(
                self.recipe_names(),
                name@,
                r.target.position() as int,
            ),
    {
        let found = self.recipe.find_by_name(name);
        let names = Ghost(self.recipe_names());
        match found {
            Ok(index) => Query::new(self, index),
            Err(_) => {
                proof {
                    let i = choose|i: int| named_once(names@, name@, i);
                    assert(names@[i] == name@);
                }
                Query::new(self, found.unwrap())
            },
        }
    }

    /// The building named `name`, which exactly one building must have.
    pub fn building_by_name(&self, name: &str) -> (r: Query<'_, BuildingIndex>)
        requires
            self.wf(),
            exists|i: int| #[trigger] named_once(self.building_names(), name@, i),
        ensures
            r.data == self,
            named_once(
                self.building_names(),
                name@,
                r.target.position() as int,
            ),
    {
        let found = self.building.find_by_name(name);
        let names = Ghost(self.building_names());
        match found {
            Ok(index) => Query::new(self, index),
            Err(_) => {
                proof {
                    let i = choose|i: int| named_once(names@, name@, i);
                    assert(names@[i] == name@);
                }
                Query::new(self, found.unwrap())
            },
        }
    }

    /// The building module named `name`, which exactly one module must have.
    pub fn module_by_name(&self, name: &str) -> (r: Query<'_, ModuleIndex>)
        requires
            self.wf(),
            exists|i: int| #[trigger] named_once(self.module_names(), name@, i),
        ensures
            r.data == self,
            named_once(
                self.module_names(),
                name@,
                r.target.position() as int,
            ),
    {
        let found = self.module.find_by_name(name);
        let names = Ghost(self.module_names());
        match found {
            Ok(index) => Query::new(self, index),
            Err(_) => {
                proof {
                    let i = choose|i: int| named_once(names@, name@, i);
                    assert(names@[i] == name@);
                }
                Query::new(self, found.unwrap())
            },
        }
    }

    /// The recipes that produce `product_id`, in index order.
    pub fn recipes_with_output(&self, product_id: ProductIndex) -> (r: Vec<Query<'_, RecipeIndex>>)
        requires
            self.wf(),
        ensures
            forall|i: int| 0 <= i < r@.len() ==> (#[trigger] r@[i]).data == self,
            queried_positions(r@, self) == producing_upto(
                self.recipes(),
                product_id.position(),
                self.recipes().len(),
            ),
    {
        recipes_producing(self, product_id)
    }

    /// The one building module that `recipe` requires; the recipe must
    /// require exactly one.
    pub fn recipe_module(&self, recipe: RecipeIndex) -> (r: Query<'_, ModuleIndex>)
        requires
            self.wf(),
            recipe.position() < self.recipes().len(),
            self.recipes()[recipe.position() as int].required_modules@.len() == 1,
        ensures
            r.data == self,
            r.target == self.recipes()[recipe.position() as int].required_modules@[0],
    {
        let modules = self.recipe.required_modules_of(recipe);
        Query::new(self, modules[0])
    }
}

/// For a recipe that requires exactly one building module,
/// `GameData::recipe_module` and the recipe query's `required_module` name
/// the same module: the recipe's only required module, which is a row of
/// the module table.
pub proof fn lemma_recipe_module_is_required_module(data: &GameData, recipe: RecipeIndex)
    requires
        data.wf(),
        recipe.position() < data.recipes().len(),
        data.recipes()[recipe.position() as int].required_modules@.len() == 1,
    ensures
        (Query { data, target: recipe }).valid(),
        (Query { data, target: recipe }).row().required_modules@ == data.recipes()[recipe.position() as int].required_modules@,
        data.recipes()[recipe.position() as int].required_modules@[0].position() < data.modules().len(),
        (Query { data, target: data.recipes()[recipe.position() as int].required_modules@[0] }).valid(),
{
    let row = data.recipes()[recipe.position() as int];
    assert(row.required_modules@[0] == data.recipes()[recipe.position() as int].required_modules@[0]);
}

/// The recipes among the first `n` of `recipes` that produce `product`,
/// as positions in index order.
pub open spec fn producing_upto(recipes: Seq<Recipe>, product: nat, n: nat) -> Seq<nat>
    decreases n,
{
    if n == 0 {
        Seq::empty()
    } else {
        let before = producing_upto(recipes, product, (n - 1) as nat);
        if produces(recipes[n - 1].entries@, product) {
            before.push((n - 1) as nat)
        } else {
            before
        }
    }
}

/// The positions that the queries in `qs` target, each query being on `data`.
pub open spec fn queried_positions<X: TypedIndex>(qs: Seq<Query<'_, X>>, data: &GameData) -> Seq<nat>
    recommends
        forall|i: int| 0 <= i < qs.len() ==> (#[trigger] qs[i]).data == data,
{
    qs.map_values(|q: Query<'_, X>| q.target.position())
}

/// Queries on `data` are told apart by the positions of their targets:
/// two sequences of them with the same positions are the same sequence.
/// So `recipes_with_output(p)` and `query(p).producing_recipes()`, whose
/// positions both are `producing_upto(data.recipes(), p.position(), ..)`,
/// give the same recipes in the same order.
pub proof fn lemma_same_positions_same_queries<'a, X: TypedIndex>(
    data: &'a GameData,
    a: Seq<Query<'a, X>>,
    b: Seq<Query<'a, X>>,
)
    requires
        forall|i: int| 0 <= i < a.len() ==> (#[trigger] a[i]).data == data,
        forall|i: int| 0 <= i < b.len() ==> (#[trigger] b[i]).data == data,
        queried_positions(a, data) == queried_positions(b, data),
    ensures
        a == b,
{
    assert(a.len() == queried_positions(a, data).len());
    assert(b.len() == queried_positions(b, data).len());
    assert forall|i: int| 0 <= i < a.len() implies a[i] == b[i] by {
        assert(queried_positions(a, data)[i] == a[i].target.position());
        assert(queried_positions(b, data)[i] == b[i].target.position());
        X::lemma_position_injective(a[i].target, b[i].target);
    }
    assert(a =~= b);
}

/// Recipe `i` is among the recipes (of the first `n`) that produce
/// `product` exactly when some entry of it, at any position, has a positive
/// amount of `product`. So `recipes_with_output` and `producing_recipes`
/// give exactly the recipes with such an output entry.
pub proof fn lemma_producing_members(recipes: Seq<Recipe>, product: nat, n: nat, i: int)
    requires
        n <= recipes.len(),
        0 <= i,
    ensures
        producing_upto(recipes, product, n).contains(i as nat) <==> (0 <= i < n && exists|k: int|
            0 <= k < recipes[i].entries@.len() && (#[trigger] recipes[i].entries@[k]).amount > 0
                && recipes[i].entries@[k].product_index.position() == product),
    decreases n,
{
    if n > 0 {
        lemma_producing_members(recipes, product, (n - 1) as nat, i);
        let before = producing_upto(recipes, product, (n - 1) as nat);
        if produces(recipes[n - 1].entries@, product) {
            let after = before.push((n - 1) as nat);
            assert(producing_upto(recipes, product, n) == after);
            assert(after.contains(i as nat) <==> (before.contains(i as nat) || i == n - 1)) by {
                if i == n - 1 {
                    assert(after[before.len() as int] == (n - 1) as nat);
                }
                if after.contains(i as nat) {
                    let w = choose|w: int| 0 <= w < after.len() && after[w] == i as nat;
                    if w < before.len() {
                        assert(before[w] == i as nat);
                    }
                }
                if before.contains(i as nat) {
                    let w = choose|w: int| 0 <= w < before.len() && before[w] == i as nat;
                    assert(after[w] == i as nat);
                }
            }
        }
    }
}

/// Whether some output entry of `entries` is `product`, decided at run time.
fn has_output(entries: &Vec<RecipeEntry>, product: ProductIndex) -> (r: bool)
    ensures
        r == produces(entries@, product.position()),
{
    let wanted = product.into_usize();
    let mut k: usize = 0;
    while k < entries.len()
        invariant
            k <= entries@.len(),
            wanted == product.position(),
            forall|j: int|
                0 <= j < k ==> !((#[trigger] entries@[j]).amount > 0
                    && entries@[j].product_index.position() == product.position()),
        decreases entries@.len() - k,
    {
        let entry = entries[k];
        if entry.is_output() && entry.product_index.into_usize() == wanted {
            return true;
        }
        k = k + 1;
    }
    false
}

fn recipes_producing<'a>(data: &'a GameData, product: ProductIndex) -> (r: Vec<Query<'a, RecipeIndex>>)
    requires
        data.wf(),
    ensures
        forall|i: int| 0 <= i < r@.len() ==> (#[trigger] r@[i]).data == data,
        queried_positions(r@, data) == producing_upto(
            data.recipes(),
            product.position(),
            data.recipes().len(),
        ),
{
    let all = data.recipe.indices();
    let mut r: Vec<Query<'a, RecipeIndex>> = Vec::new();
    let mut i: usize = 0;
    while i < all.len()
        invariant
            data.wf(),
            i <= all@.len(),
            all@.len() == data.recipes().len(),
            forall|k: int| 0 <= k < all@.len() ==> (#[trigger] all@[k]).position() == k,
            forall|k: int| 0 <= k < r@.len() ==> (#[trigger] r@[k]).data == data,
            queried_positions(r@, data) == producing_upto(data.recipes(), product.position(), i as nat),
        decreases all@.len() - i,
    {
        let recipe = all[i];
        let entries = data.recipe.entries_of(recipe);
        if has_output(entries, product) {
            r.push(Query::new(data, recipe));
        }
        assert(queried_positions(r@, data) =~= producing_upto(
            data.recipes(),
            product.position(),
            (i + 1) as nat,
        ));
        i = i + 1;
    }
    r
}

/// A question about one entity of the game data.
#[derive(Clone, Copy)]
pub struct Query<'data, T> {
    pub data: &'data GameData,
    pub target: T,
}

impl<'data, T> Query<'data, T> {
    pub fn new(data: &'data GameData, target: T) -> (r: Self)
        ensures
            r.data == data,
            r.target == target,
    {
        Query { data, target }
    }

    pub fn data(&self) -> (r: &'data GameData)
        ensures
            r == self.data,
    {
        self.data
    }

    /// The entity asked about.
    pub fn target(&self) -> (r: &T)
        ensures
            *r == self.target,
    {
        &self.target
    }
}

impl<'data> Query<'data, ProductIndex> {
    pub open spec fn valid(&self) -> bool {
        self.data.wf() && self.target.position() < self.data.products().len()
    }

    pub open spec fn row(&self) -> Product {
        self.data.products()[self.target.position() as int]
    }

    pub fn name(&self) -> (r: &'data str)
        requires
            self.valid(),
        ensures
            r@ == self.row().name@,
    {
        self.data.product.name_of(self.target).as_str()
    }

    pub fn product_category(&self) -> (r: Query<'data, ProductCategoryIndex>)
        requires
            self.valid(),
        ensures
            r.data == self.data,
            r.target == self.row().product_category,
            r.valid(),
    {
        Query::new(self.data, self.data.product.product_category_of(self.target))
    }

    pub fn price_formula(&self) -> (r: ProductPriceFormula)
        requires
            self.valid(),
        ensures
            r == self.row().price_formula,
    {
        self.data.product.price_formula_of(self.target)
    }

    /// The recipes that produce this product, in index order.
    pub fn producing_recipes(&self) -> (r: Vec<Query<'data, RecipeIndex>>)
        requires
            self.valid(),
        ensures
            forall|i: int| 0 <= i < r@.len() ==> (#[trigger] r@[i]).data == self.data,
            queried_positions(r@, self.data) == producing_upto(
                self.data.recipes(),
                self.target.position(),
                self.data.recipes().len(),
            ),
    {
        recipes_producing(self.data, self.target)
    }
}

impl<'data> Query<'data, RecipeIndex> {
    pub open spec fn valid(&self) -> bool {
        self.data.wf() && self.target.position() < self.data.recipes().len()
    }

    pub open spec fn row(&self) -> Recipe {
        self.data.recipes()[self.target.position() as int]
    }

    pub fn name(&self) -> (r: &'data str)
        requires
            self.valid(),
        ensures
            r@ == self.row().name@,
    {
        self.data.recipe.name_of(self.target).as_str()
    }

    pub fn entries(&self) -> (r: &'data Vec<RecipeEntry>)
        requires
            self.valid(),
        ensures
            r@ == self.row().entries@,
    {
        self.data.recipe.entries_of(self.target)
    }

    pub fn days(&self) -> (r: i64)
        requires
            self.valid(),
        ensures
            r == self.row().days,
    {
        self.data.recipe.days_of(self.target)
    }

    pub fn required_modules(&self) -> (r: &'data Vec<ModuleIndex>)
        requires
            self.valid(),
        ensures
            r@ == self.row().required_modules@,
    {
        self.data.recipe.required_modules_of(self.target)
    }

    /// The entries this recipe consumes, in order.
    pub fn inputs(&self) -> (r: Vec<RecipeEntry>)
        requires
            self.valid(),
        ensures
            r@ == entries_where(self.row().entries@, false),
    {
        select_entries(self.entries(), false)
    }

    /// The entries this recipe produces, in order.
    pub fn outputs(&self) -> (r: Vec<RecipeEntry>)
        requires
            self.valid(),
        ensures
            r@ == entries_where(self.row().entries@, true),
    {
        select_entries(self.entries(), true)
    }

    /// The building module this recipe requires, if any; a recipe must not
    /// require more than one.
    pub fn required_module(&self) -> (r: Option<Query<'data, ModuleIndex>>)
        requires
            self.valid(),
            self.row().required_modules@.len() <= 1,
        ensures
            self.row().required_modules@.len() == 0 ==> r is None,
            self.row().required_modules@.len() == 1 ==> (r matches Some(q) && q.data == self.data
                && q.target == self.row().required_modules@[0]),
    {
        let modules = self.required_modules();
        if modules.len() == 0 {
            None
        } else {
            Some(Query::new(self.data, modules[0]))
        }
    }
}

/// The output entries (`outputs`) or input entries of `entries`, in order.
fn select_entries(entries: &Vec<RecipeEntry>, outputs: bool) -> (r: Vec<RecipeEntry>)
    ensures
        r@ == entries_where(entries@, outputs),
{
    let mut r: Vec<RecipeEntry> = Vec::new();
    let mut k: usize = 0;
    while k < entries.len()
        invariant
            k <= entries@.len(),
            r@ == entries_where(entries@.subrange(0, k as int), outputs),
        decreases entries@.len() - k,
    {
        let entry = entries[k];
        let kept = if outputs {
            entry.is_output()
        } else {
            entry.is_input()
        };
        if kept {
            r.push(entry);
        }
        assert(entries@.subrange(0, k + 1).drop_last() =~= entries@.subrange(0, k as int));
        k = k + 1;
    }
    assert(entries@.subrange(0, entries@.len() as int) =~= entries@);
    r
}

impl<'data> Query<'data, RecipeEntry> {
    /// The product of this entry.
    pub fn product(&self) -> (r: Query<'data, ProductIndex>)
        ensures
            r.data == self.data,
            r.target == self.target.product_index,
    {
        Query::new(self.data, self.target.product_index)
    }
}

impl<'data> Query<'data, BuildingIndex> {
    pub open spec fn valid(&self) -> bool {
        self.data.wf() && self.target.position() < self.data.buildings().len()
    }

    pub open spec fn row(&self) -> Building {
        self.data.buildings()[self.target.position() as int]
    }

    /// The names of the recipes available in this building, in order.
    pub open spec fn available_names(&self) -> Seq<Seq<char>> {
        self.row().available_recipes@.map_values(
            |x: RecipeIndex| self.data.recipes()[x.position() as int].name@,
        )
    }

    pub fn name(&self) -> (r: &'data str)
        requires
            self.valid(),
        ensures
            r@ == self.row().name@,
    {
        self.data.building.name_of(self.target).as_str()
    }

    pub fn base_cost(&self) -> (r: i64)
        requires
            self.valid(),
        ensures
            r == self.row().base_cost,
    {
        self.data.building.base_cost_of(self.target)
    }

    pub fn available_recipes(&self) -> (r: &'data Vec<RecipeIndex>)
        requires
            self.valid(),
        ensures
            r@ == self.row().available_recipes@,
    {
        self.data.building.available_recipes_of(self.target)
    }

    /// The available recipe named `name`, found among the available recipes
    /// by position; or why there is no single one.
    pub fn find_recipe_by_name(&self, name: &str) -> (r: Result<Query<'data, RecipeIndex>, LookupError>)
        requires
            self.valid(),
        ensures
            match r {
                Ok(q) => q.data == self.data && exists|k: int|
                    named_once(self.available_names(), name@, k)
                        && q.target == self.row().available_recipes@[k],
                Err(LookupError::NotFound) => named_never(self.available_names(), name@),
                Err(LookupError::Multiple) => named_twice(self.available_names(), name@),
            },
    {
        let available = self.available_recipes();
        let ghost view = self.available_names();
        let wanted = name.to_owned();
        let mut found: Option<usize> = None;
        let mut k: usize = 0;
        while k < available.len()
            invariant
                self.valid(),
                available@ == self.row().available_recipes@,
                view == self.available_names(),
                wanted@ == name@,
                k <= available@.len(),
                match found {
                    Some(f) => f < k && view[f as int] == name@ && forall|j: int|
                        0 <= j < k && #[trigger] view[j] == name@ ==> j == f,
                    None => forall|j: int| 0 <= j < k ==> #[trigger] view[j] != name@,
                },
            decreases available@.len() - k,
        {
            let recipe = available[k];
            assert(recipe.position() < self.data.recipes().len());
            if *self.data.recipe.name_of(recipe) == wanted {
                assert(view[k as int] == name@);
                match found {
                    Some(f) => {
                        assert(view[f as int] == name@);
                        return Err(LookupError::Multiple);
                    },
                    None => {
                        found = Some(k);
                    },
                }
            }
            k = k + 1;
        }
        match found {
            Some(f) => Ok(Query::new(self.data, available[f])),
            None => Err(LookupError::NotFound),
        }
    }

    /// The available recipe named `name`; exactly one available recipe
    /// must have that name.
    pub fn recipe_by_name(&self, name: &str) -> (r: Query<'data, RecipeIndex>)
        requires
            self.valid(),
            exists|k: int| #[trigger] named_once(self.available_names(), name@, k),
        ensures
            r.data == self.data,
            exists|k: int|
                named_once(self.available_names(), name@, k) && r.target
                    == self.row().available_recipes@[k],
    {
        let found = self.find_recipe_by_name(name);
        proof {
            if found is Err {
                let k = choose|k: int| named_once(self.available_names(), name@, k);
                assert(self.available_names()[k] == name@);
            }
        }
        found.unwrap()
    }
}

impl<'data> Query<'data, ModuleIndex> {
    pub open spec fn valid(&self) -> bool {
        self.data.wf() && self.target.position() < self.data.modules().len()
    }

    pub open spec fn row(&self) -> Module {
        self.data.modules()[self.target.position() as int]
    }

    pub fn name(&self) -> (r: &'data str)
        requires
            self.valid(),
        ensures
            r@ == self.row().name@,
    {
        self.data.module.name_of(self.target).as_str()
    }

    pub fn base_cost(&self) -> (r: i64)
        requires
            self.valid(),
        ensures
            r == self.row().base_cost,
    {
        self.data.module.base_cost_of(self.target)
    }
}

impl<'data> Query<'data, ProductCategoryIndex> {
    pub open spec fn valid(&self) -> bool {
        self.data.wf() && self.target.position() < self.data.categories().len()
    }

    pub fn name(&self) -> (r: &'data str)
        requires
            self.valid(),
        ensures
            r@ == self.data.categories()[self.target.position() as int].name@,
    {
        self.data.product_category.name_of(self.target).as_str()
    }
}

} // verus!
