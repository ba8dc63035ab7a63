//! The game data as the calculator holds it: one table per kind of entity,
//! stored column by column, where entries refer to each other by typed index.

use crate::calculator::serialization::ProductPriceFormula;
use crate::collection::{room_for, TypedIndexVec};
use crate::index_types::IndexU32;
use crate::typed_index::TypedIndex;
use vstd::prelude::*;

verus! {

/// The index of a product.
#[derive(Debug, Eq, PartialEq, Ord, PartialOrd, Copy, Clone, Hash)]
pub struct ProductIndex(IndexU32);

/// The index of a recipe.
#[derive(Debug, Eq, PartialEq, Ord, PartialOrd, Copy, Clone, Hash)]
pub struct RecipeIndex(IndexU32);

/// The index of a building module.
#[derive(Debug, Eq, PartialEq, Ord, PartialOrd, Copy, Clone, Hash)]
pub struct ModuleIndex(IndexU32);

/// The index of a building.
#[derive(Debug, Eq, PartialEq, Ord, PartialOrd, Copy, Clone, Hash)]
pub struct BuildingIndex(IndexU32);

/// The index of a product category.
#[derive(Debug, Eq, PartialEq, Ord, PartialOrd, Copy, Clone, Hash)]
pub struct ProductCategoryIndex(IndexU32);

impl TypedIndex for ProductIndex {
    closed spec fn position(self) -> nat {
        self.0.spec_get()
    }

    open spec fn holds(n: nat) -> bool {
        IndexU32::holds(n)
    }

    proof fn lemma_holds_below(n: nat, m: nat) {
    }

    proof fn lemma_holds_fits(n: nat) {
    }

    proof fn lemma_holds_zero() {
    }

    proof fn lemma_position_injective(a: Self, b: Self) {
        a.0.lemma_spec_get_injective(b.0);
    }

    fn from_usize(value: usize) -> (r: Self) {
        ProductIndex(IndexU32::from_usize(value))
    }

    fn into_usize(self) -> (r: usize) {
        let _ = self.0.get();
        self.0.into_usize()
    }

    fn holds_usize(value: usize) -> (r: bool) {
        <IndexU32 as TypedIndex>::holds_usize(value)
    }
}

impl TypedIndex for RecipeIndex {
    closed spec fn position(self) -> nat {
        self.0.spec_get()
    }

    open spec fn holds(n: nat) -> bool {
        IndexU32::holds(n)
    }

    proof fn lemma_holds_below(n: nat, m: nat) {
    }

    proof fn lemma_holds_fits(n: nat) {
    }

    proof fn lemma_holds_zero() {
    }

    proof fn lemma_position_injective(a: Self, b: Self) {
        a.0.lemma_spec_get_injective(b.0);
    }

    fn from_usize(value: usize) -> (r: Self) {
        RecipeIndex(IndexU32::from_usize(value))
    }

    fn into_usize(self) -> (r: usize) {
        let _ = self.0.get();
        self.0.into_usize()
    }

    fn holds_usize(value: usize) -> (r: bool) {
        <IndexU32 as TypedIndex>::holds_usize(value)
    }
}

impl TypedIndex for ModuleIndex {
    closed spec fn position(self) -> nat {
        self.0.spec_get()
    }

    open spec fn holds(n: nat) -> bool {
        IndexU32::holds(n)
    }

    proof fn lemma_holds_below(n: nat, m: nat) {
    }

    proof fn lemma_holds_fits(n: nat) {
    }

    proof fn lemma_holds_zero() {
    }

    proof fn lemma_position_injective(a: Self, b: Self) {
        a.0.lemma_spec_get_injective(b.0);
    }

    fn from_usize(value: usize) -> (r: Self) {
        ModuleIndex(IndexU32::from_usize(value))
    }

    fn into_usize(self) -> (r: usize) {
        let _ = self.0.get();
        self.0.into_usize()
    }

    fn holds_usize(value: usize) -> (r: bool) {
        <IndexU32 as TypedIndex>::holds_usize(value)
    }
}

impl TypedIndex for BuildingIndex {
    closed spec fn position(self) -> nat {
        self.0.spec_get()
    }

    open spec fn holds(n: nat) -> bool {
        IndexU32::holds(n)
    }

    proof fn lemma_holds_below(n: nat, m: nat) {
    }

    proof fn lemma_holds_fits(n: nat) {
    }

    proof fn lemma_holds_zero() {
    }

    proof fn lemma_position_injective(a: Self, b: Self) {
        a.0.lemma_spec_get_injective(b.0);
    }

    fn from_usize(value: usize) -> (r: Self) {
        BuildingIndex(IndexU32::from_usize(value))
    }

    fn into_usize(self) -> (r: usize) {
        let _ = self.0.get();
        self.0.into_usize()
    }

    fn holds_usize(value: usize) -> (r: bool) {
        <IndexU32 as TypedIndex>::holds_usize(value)
    }
}

impl TypedIndex for ProductCategoryIndex {
    closed spec fn position(self) -> nat {
        self.0.spec_get()
    }

    open spec fn holds(n: nat) -> bool {
        IndexU32::holds(n)
    }

    proof fn lemma_holds_below(n: nat, m: nat) {
    }

    proof fn lemma_holds_fits(n: nat) {
    }

    proof fn lemma_holds_zero() {
    }

    proof fn lemma_position_injective(a: Self, b: Self) {
        a.0.lemma_spec_get_injective(b.0);
    }

    fn from_usize(value: usize) -> (r: Self) {
        ProductCategoryIndex(IndexU32::from_usize(value))
    }

    fn into_usize(self) -> (r: usize) {
        let _ = self.0.get();
        self.0.into_usize()
    }

    fn holds_usize(value: usize) -> (r: bool) {
        <IndexU32 as TypedIndex>::holds_usize(value)
    }
}

pub type ProductVec<T> = TypedIndexVec<ProductIndex, T>;

pub type RecipeVec<T> = TypedIndexVec<RecipeIndex, T>;

pub type ModuleVec<T> = TypedIndexVec<ModuleIndex, T>;

pub type BuildingVec<T> = TypedIndexVec<BuildingIndex, T>;

pub type ProductCategoryVec<T> = TypedIndexVec<ProductCategoryIndex, T>;

/// A table of `len` rows fits its index type `X` when the index of every
/// row is held by `X`.
pub open spec fn fits<X: TypedIndex>(len: nat) -> bool {
    len == 0 || X::holds((len - 1) as nat)
}

/// The typed indices `0..len`, in order.
pub fn indices_upto<X: TypedIndex>(len: usize) -> (r: Vec<X>)
    requires
        fits::<X>(len as nat),
    ensures
        r@.len() == len,
        forall|i: int| 0 <= i < len ==> (#[trigger] r@[i]).position() == i,
{
    let mut r: Vec<X> = Vec::new();
    let mut i: usize = 0;
    while i < len
        invariant
            i <= len,
            fits::<X>(len as nat),
            r@.len() == i,
            forall|k: int| 0 <= k < i ==> (#[trigger] r@[k]).position() == k,
        decreases len - i,
    {
        proof {
            X::lemma_holds_below((len - 1) as nat, i as nat);
        }
        r.push(X::from_usize(i));
        i = i + 1;
    }
    r
}

/// A product that a recipe consumes (negative amount) or produces
/// (positive amount), per run of the recipe.
#[derive(Debug, Clone, Copy)]
pub struct RecipeEntry {
    pub product_index: ProductIndex,
    pub amount: i64,
}

impl RecipeEntry {
    /// The recipe consumes this product.
    pub fn is_input(&self) -> (r: bool)
        ensures
            r == (self.amount < 0),
    {
        self.amount < 0
    }

    /// The recipe produces this product.
    pub fn is_output(&self) -> (r: bool)
        ensures
            r == (self.amount > 0),
    {
        self.amount > 0
    }
}

/// The entries of `entries` that are outputs (`outputs`) or inputs, in order.
pub open spec fn entries_where(entries: Seq<RecipeEntry>, outputs: bool) -> Seq<RecipeEntry>
    decreases entries.len(),
{
    if entries.len() == 0 {
        Seq::empty()
    } else {
        let last = entries.last();
        let kept = if outputs {
            last.amount > 0
        } else {
            last.amount < 0
        };
        entries_where(entries.drop_last(), outputs) + if kept {
            seq![last]
        } else {
            Seq::empty()
        }
    }
}

/// How many entries of `entries` have amount zero.
pub open spec fn zero_entries(entries: Seq<RecipeEntry>) -> nat
    decreases entries.len(),
{
    if entries.len() == 0 {
        0
    } else {
        zero_entries(entries.drop_last()) + if entries.last().amount == 0 {
            1nat
        } else {
            0nat
        }
    }
}

/// The inputs and the outputs of a recipe split its entries: every entry
/// with a non-zero amount is one or the other, inputs have negative and
/// outputs positive amounts, and each keeps the order of the entries.
pub proof fn lemma_inputs_outputs_partition(entries: Seq<RecipeEntry>)
    ensures
        entries_where(entries, false).len() + entries_where(entries, true).len() + zero_entries(entries)
            == entries.len(),
        forall|k: int|
            0 <= k < entries_where(entries, false).len() ==> (#[trigger] entries_where(entries, false)[k]).amount
                < 0,
        forall|k: int|
            0 <= k < entries_where(entries, true).len() ==> (#[trigger] entries_where(entries, true)[k]).amount
                > 0,
    decreases entries.len(),
{
    if entries.len() > 0 {
        lemma_inputs_outputs_partition(entries.drop_last());
        let before_in = entries_where(entries.drop_last(), false);
        let before_out = entries_where(entries.drop_last(), true);
        assert forall|k: int|
            0 <= k < entries_where(entries, false).len() implies (#[trigger] entries_where(
            entries,
            false,
        )[k]).amount < 0 by {
            if k < before_in.len() {
                assert(entries_where(entries, false)[k] == before_in[k]);
            }
        }
        assert forall|k: int|
            0 <= k < entries_where(entries, true).len() implies (#[trigger] entries_where(
            entries,
            true,
        )[k]).amount > 0 by {
            if k < before_out.len() {
                assert(entries_where(entries, true)[k] == before_out[k]);
            }
        }
    }
}

/// Some output entry of `entries` is product `product`.
pub open spec fn produces(entries: Seq<RecipeEntry>, product: nat) -> bool {
    exists|k: int|
        0 <= k < entries.len() && (#[trigger] entries[k]).amount > 0
            && entries[k].product_index.position() == product
}

pub struct Product {
    pub name: String,
    pub product_category: ProductCategoryIndex,
    pub price_formula: ProductPriceFormula,
}

pub struct Recipe {
    pub name: String,
    pub entries: Vec<RecipeEntry>,
    pub days: i64,
    pub required_modules: Vec<ModuleIndex>,
}

pub struct Building {
    pub name: String,
    pub base_cost: i64,
    pub available_recipes: Vec<RecipeIndex>,
}

pub struct Module {
    pub name: String,
    pub base_cost: i64,
}

/// A product category. The price and growth modifiers of a category are
/// not held here: they are floating point numbers.
pub struct ProductCategory {
    pub name: String,
}

/// The products, column by column.
pub struct ProductData {
    name: ProductVec<String>,
    product_category: ProductVec<ProductCategoryIndex>,
    price_formula: ProductVec<ProductPriceFormula>,
}

/// The recipes, column by column.
pub struct RecipeData {
    name: RecipeVec<String>,
    entries: RecipeVec<Vec<RecipeEntry>>,
    days: RecipeVec<i64>,
    required_modules: RecipeVec<Vec<ModuleIndex>>,
}

/// The buildings, column by column.
pub struct BuildingData {
    name: BuildingVec<String>,
    base_cost: BuildingVec<i64>,
    available_recipes: BuildingVec<Vec<RecipeIndex>>,
}

/// The building modules, column by column.
pub struct ModuleData {
    name: ModuleVec<String>,
    base_cost: ModuleVec<i64>,
}

/// The product categories, column by column.
pub struct ProductCategoryData {
    name: ProductCategoryVec<String>,
}

impl ProductData {
    pub closed spec fn len(&self) -> nat {
        self.name@.len()
    }

    /// All columns have one value per row, and the table fits its index.
    pub closed spec fn wf(&self) -> bool {
        &&& self.product_category@.len() == self.len()
        &&& self.price_formula@.len() == self.len()
        &&& fits::<ProductIndex>(self.len())
    }

    pub closed spec fn row(&self, i: int) -> Product {
        Product {
            name: self.name@[i],
            product_category: self.product_category@[i],
            price_formula: self.price_formula@[i],
        }
    }

    /// The table, row by row.
    pub open spec fn rows(&self) -> Seq<Product> {
        Seq::new(self.len(), |i: int| self.row(i))
    }

    pub fn with_capacity(capacity: usize) -> (r: Self)
        requires
            room_for::<String>(capacity as nat),
            room_for::<ProductCategoryIndex>(capacity as nat),
            room_for::<ProductPriceFormula>(capacity as nat),
        ensures
            r.wf(),
            r.rows() == Seq::<Product>::empty(),
    {
        let r = ProductData {
            name: TypedIndexVec::with_capacity(capacity),
            product_category: TypedIndexVec::with_capacity(capacity),
            price_formula: TypedIndexVec::with_capacity(capacity),
        };
        assert(r.rows() =~= Seq::<Product>::empty());
        r
    }

    /// The indices of all rows, in order.
    pub fn indices(&self) -> (r: Vec<ProductIndex>)
        requires
            self.wf(),
        ensures
            r@.len() == self.rows().len(),
            forall|i: int| 0 <= i < r@.len() ==> (#[trigger] r@[i]).position() == i,
    {
        indices_upto(self.name.len())
    }

    /// Appends a row and returns its index; the index must be held.
    pub fn push(&mut self, value: Product) -> (r: ProductIndex)
        requires
            old(self).wf(),
            ProductIndex::holds(old(self).rows().len()),
        ensures
            final(self).wf(),
            final(self).rows() == old(self).rows().push(value),
            r.position() == old(self).rows().len(),
    {
        let Product { name, product_category, price_formula } = value;
        let index = self.name.push(name);
        self.product_category.push(product_category);
        self.price_formula.push(price_formula);
        assert(self.rows() =~= old(self).rows().push(value));
        index
    }
}

impl RecipeData {
    pub closed spec fn len(&self) -> nat {
        self.name@.len()
    }

    /// All columns have one value per row, and the table fits its index.
    pub closed spec fn wf(&self) -> bool {
        &&& self.entries@.len() == self.len()
        &&& self.days@.len() == self.len()
        &&& self.required_modules@.len() == self.len()
        &&& fits::<RecipeIndex>(self.len())
    }

    pub closed spec fn row(&self, i: int) -> Recipe {
        Recipe {
            name: self.name@[i],
            entries: self.entries@[i],
            days: self.days@[i],
            required_modules: self.required_modules@[i],
        }
    }

    /// The table, row by row.
    pub open spec fn rows(&self) -> Seq<Recipe> {
        Seq::new(self.len(), |i: int| self.row(i))
    }

    pub fn with_capacity(capacity: usize) -> (r: Self)
        requires
            room_for::<String>(capacity as nat),
            room_for::<Vec<RecipeEntry>>(capacity as nat),
            room_for::<i64>(capacity as nat),
            room_for::<Vec<ModuleIndex>>(capacity as nat),
        ensures
            r.wf(),
            r.rows() == Seq::<Recipe>::empty(),
    {
        let r = RecipeData {
            name: TypedIndexVec::with_capacity(capacity),
            entries: TypedIndexVec::with_capacity(capacity),
            days: TypedIndexVec::with_capacity(capacity),
            required_modules: TypedIndexVec::with_capacity(capacity),
        };
        assert(r.rows() =~= Seq::<Recipe>::empty());
        r
    }

    /// The indices of all rows, in order.
    pub fn indices(&self) -> (r: Vec<RecipeIndex>)
        requires
            self.wf(),
        ensures
            r@.len() == self.rows().len(),
            forall|i: int| 0 <= i < r@.len() ==> (#[trigger] r@[i]).position() == i,
    {
        indices_upto(self.name.len())
    }

    /// Appends a row and returns its index; the index must be held.
    pub fn push(&mut self, value: Recipe) -> (r: RecipeIndex)
        requires
            old(self).wf(),
            RecipeIndex::holds(old(self).rows().len()),
        ensures
            final(self).wf(),
            final(self).rows() == old(self).rows().push(value),
            r.position() == old(self).rows().len(),
    {
        let Recipe { name, entries, days, required_modules } = value;
        let index = self.name.push(name);
        self.entries.push(entries);
        self.days.push(days);
        self.required_modules.push(required_modules);
        assert(self.rows() =~= old(self).rows().push(value));
        index
    }
}

impl BuildingData {
    pub closed spec fn len(&self) -> nat {
        self.name@.len()
    }

    /// All columns have one value per row, and the table fits its index.
    pub closed spec fn wf(&self) -> bool {
        &&& self.base_cost@.len() == self.len()
        &&& self.available_recipes@.len() == self.len()
        &&& fits::<BuildingIndex>(self.len())
    }

    pub closed spec fn row(&self, i: int) -> Building {
        Building {
            name: self.name@[i],
            base_cost: self.base_cost@[i],
            available_recipes: self.available_recipes@[i],
        }
    }

    /// The table, row by row.
    pub open spec fn rows(&self) -> Seq<Building> {
        Seq::new(self.len(), |i: int| self.row(i))
    }

    pub fn with_capacity(capacity: usize) -> (r: Self)
        requires
            room_for::<String>(capacity as nat),
            room_for::<i64>(capacity as nat),
            room_for::<Vec<RecipeIndex>>(capacity as nat),
        ensures
            r.wf(),
            r.rows() == Seq::<Building>::empty(),
    {
        let r = BuildingData {
            name: TypedIndexVec::with_capacity(capacity),
            base_cost: TypedIndexVec::with_capacity(capacity),
            available_recipes: TypedIndexVec::with_capacity(capacity),
        };
        assert(r.rows() =~= Seq::<Building>::empty());
        r
    }

    /// The indices of all rows, in order.
    pub fn indices(&self) -> (r: Vec<BuildingIndex>)
        requires
            self.wf(),
        ensures
            r@.len() == self.rows().len(),
            forall|i: int| 0 <= i < r@.len() ==> (#[trigger] r@[i]).position() == i,
    {
        indices_upto(self.name.len())
    }

    /// Appends a row and returns its index; the index must be held.
    pub fn push(&mut self, value: Building) -> (r: BuildingIndex)
        requires
            old(self).wf(),
            BuildingIndex::holds(old(self).rows().len()),
        ensures
            final(self).wf(),
            final(self).rows() == old(self).rows().push(value),
            r.position() == old(self).rows().len(),
    {
        let Building { name, base_cost, available_recipes } = value;
        let index = self.name.push(name);
        self.base_cost.push(base_cost);
        self.available_recipes.push(available_recipes);
        assert(self.rows() =~= old(self).rows().push(value));
        index
    }
}

impl ModuleData {
    pub closed spec fn len(&self) -> nat {
        self.name@.len()
    }

    /// All columns have one value per row, and the table fits its index.
    pub closed spec fn wf(&self) -> bool {
        &&& self.base_cost@.len() == self.len()
        &&& fits::<ModuleIndex>(self.len())
    }

    pub closed spec fn row(&self, i: int) -> Module {
        Module { name: self.name@[i], base_cost: self.base_cost@[i] }
    }

    /// The table, row by row.
    pub open spec fn rows(&self) -> Seq<Module> {
        Seq::new(self.len(), |i: int| self.row(i))
    }

    pub fn with_capacity(capacity: usize) -> (r: Self)
        requires
            room_for::<String>(capacity as nat),
            room_for::<i64>(capacity as nat),
        ensures
            r.wf(),
            r.rows() == Seq::<Module>::empty(),
    {
        let r = ModuleData {
            name: TypedIndexVec::with_capacity(capacity),
            base_cost: TypedIndexVec::with_capacity(capacity),
        };
        assert(r.rows() =~= Seq::<Module>::empty());
        r
    }

    /// The indices of all rows, in order.
    pub fn indices(&self) -> (r: Vec<ModuleIndex>)
        requires
            self.wf(),
        ensures
            r@.len() == self.rows().len(),
            forall|i: int| 0 <= i < r@.len() ==> (#[trigger] r@[i]).position() == i,
    {
        indices_upto(self.name.len())
    }

    /// Appends a row and returns its index; the index must be held.
    pub fn push(&mut self, value: Module) -> (r: ModuleIndex)
        requires
            old(self).wf(),
            ModuleIndex::holds(old(self).rows().len()),
        ensures
            final(self).wf(),
            final(self).rows() == old(self).rows().push(value),
            r.position() == old(self).rows().len(),
    {
        let Module { name, base_cost } = value;
        let index = self.name.push(name);
        self.base_cost.push(base_cost);
        assert(self.rows() =~= old(self).rows().push(value));
        index
    }
}

impl ProductCategoryData {
    pub closed spec fn len(&self) -> nat {
        self.name@.len()
    }

    /// The table fits its index.
    pub closed spec fn wf(&self) -> bool {
        fits::<ProductCategoryIndex>(self.len())
    }

    pub closed spec fn row(&self, i: int) -> ProductCategory {
        ProductCategory { name: self.name@[i] }
    }

    /// The table, row by row.
    pub open spec fn rows(&self) -> Seq<ProductCategory> {
        Seq::new(self.len(), |i: int| self.row(i))
    }

    pub fn with_capacity(capacity: usize) -> (r: Self)
        requires
            room_for::<String>(capacity as nat),
        ensures
            r.wf(),
            r.rows() == Seq::<ProductCategory>::empty(),
    {
        let r = ProductCategoryData { name: TypedIndexVec::with_capacity(capacity) };
        assert(r.rows() =~= Seq::<ProductCategory>::empty());
        r
    }

    /// The indices of all rows, in order.
    pub fn indices(&self) -> (r: Vec<ProductCategoryIndex>)
        requires
            self.wf(),
        ensures
            r@.len() == self.rows().len(),
            forall|i: int| 0 <= i < r@.len() ==> (#[trigger] r@[i]).position() == i,
    {
        indices_upto(self.name.len())
    }

    /// Appends a row and returns its index; the index must be held.
    pub fn push(&mut self, value: ProductCategory) -> (r: ProductCategoryIndex)
        requires
            old(self).wf(),
            ProductCategoryIndex::holds(old(self).rows().len()),
        ensures
            final(self).wf(),
            final(self).rows() == old(self).rows().push(value),
            r.position() == old(self).rows().len(),
    {
        let ProductCategory { name } = value;
        let index = self.name.push(name);
        assert(self.rows() =~= old(self).rows().push(value));
        index
    }
}

impl ProductData {
    /// The `name` of row `index`.
    pub fn name_of(&self, index: ProductIndex) -> (r: &String)
        requires
            self.wf(),
            index.position() < self.rows().len(),
        ensures
            *r == self.rows()[index.position() as int].name,
    {
        self.name.get(index)
    }

    /// The `product_category` of row `index`.
    pub fn product_category_of(&self, index: ProductIndex) -> (r: ProductCategoryIndex)
        requires
            self.wf(),
            index.position() < self.rows().len(),
        ensures
            r == self.rows()[index.position() as int].product_category,
    {
        *self.product_category.get(index)
    }

    /// The `price_formula` of row `index`.
    pub fn price_formula_of(&self, index: ProductIndex) -> (r: ProductPriceFormula)
        requires
            self.wf(),
            index.position() < self.rows().len(),
        ensures
            r == self.rows()[index.position() as int].price_formula,
    {
        *self.price_formula.get(index)
    }

    /// The row named `name`, if exactly one row has that name.
    pub fn find_by_name(&self, name: &str) -> (r: Result<ProductIndex, LookupError>)
        requires
            self.wf(),
        ensures
            lookup_outcome(r, self.rows().map_values(|row: Product| row.name@), name@),
    {
        proof {
            assert(self.rows().map_values(|row: Product| row.name@) =~= self.name@.map_values(
                |s: String| s@,
            ));
        }
        find_named(&self.name, name)
    }

}

impl RecipeData {
    /// The `name` of row `index`.
    pub fn name_of(&self, index: RecipeIndex) -> (r: &String)
        requires
            self.wf(),
            index.position() < self.rows().len(),
        ensures
            *r == self.rows()[index.position() as int].name,
    {
        self.name.get(index)
    }

    /// The `entries` of row `index`.
    pub fn entries_of(&self, index: RecipeIndex) -> (r: &Vec<RecipeEntry>)
        requires
            self.wf(),
            index.position() < self.rows().len(),
        ensures
            *r == self.rows()[index.position() as int].entries,
    {
        self.entries.get(index)
    }

    /// The `days` of row `index`.
    pub fn days_of(&self, index: RecipeIndex) -> (r: i64)
        requires
            self.wf(),
            index.position() < self.rows().len(),
        ensures
            r == self.rows()[index.position() as int].days,
    {
        *self.days.get(index)
    }

    /// The `required_modules` of row `index`.
    pub fn required_modules_of(&self, index: RecipeIndex) -> (r: &Vec<ModuleIndex>)
        requires
            self.wf(),
            index.position() < self.rows().len(),
        ensures
            *r == self.rows()[index.position() as int].required_modules,
    {
        self.required_modules.get(index)
    }

    /// The row named `name`, if exactly one row has that name.
    pub fn find_by_name(&self, name: &str) -> (r: Result<RecipeIndex, LookupError>)
        requires
            self.wf(),
        ensures
            lookup_outcome(r, self.rows().map_values(|row: Recipe| row.name@), name@),
    {
        proof {
            assert(self.rows().map_values(|row: Recipe| row.name@) =~= self.name@.map_values(
                |s: String| s@,
            ));
        }
        find_named(&self.name, name)
    }

}

impl BuildingData {
    /// The `name` of row `index`.
    pub fn name_of(&self, index: BuildingIndex) -> (r: &String)
        requires
            self.wf(),
            index.position() < self.rows().len(),
        ensures
            *r == self.rows()[index.position() as int].name,
    {
        self.name.get(index)
    }

    /// The `base_cost` of row `index`.
    pub fn base_cost_of(&self, index: BuildingIndex) -> (r: i64)
        requires
            self.wf(),
            index.position() < self.rows().len(),
        ensures
            r == self.rows()[index.position() as int].base_cost,
    {
        *self.base_cost.get(index)
    }

    /// The `available_recipes` of row `index`.
    pub fn available_recipes_of(&self, index: BuildingIndex) -> (r: &Vec<RecipeIndex>)
        requires
            self.wf(),
            index.position() < self.rows().len(),
        ensures
            *r == self.rows()[index.position() as int].available_recipes,
    {
        self.available_recipes.get(index)
    }

    /// The row named `name`, if exactly one row has that name.
    pub fn find_by_name(&self, name: &str) -> (r: Result<BuildingIndex, LookupError>)
        requires
            self.wf(),
        ensures
            lookup_outcome(r, self.rows().map_values(|row: Building| row.name@), name@),
    {
        proof {
            assert(self.rows().map_values(|row: Building| row.name@) =~= self.name@.map_values(
                |s: String| s@,
            ));
        }
        find_named(&self.name, name)
    }

}

impl ModuleData {
    /// The `name` of row `index`.
    pub fn name_of(&self, index: ModuleIndex) -> (r: &String)
        requires
            self.wf(),
            index.position() < self.rows().len(),
        ensures
            *r == self.rows()[index.position() as int].name,
    {
        self.name.get(index)
    }

    /// The `base_cost` of row `index`.
    pub fn base_cost_of(&self, index: ModuleIndex) -> (r: i64)
        requires
            self.wf(),
            index.position() < self.rows().len(),
        ensures
            r == self.rows()[index.position() as int].base_cost,
    {
        *self.base_cost.get(index)
    }

    /// The row named `name`, if exactly one row has that name.
    pub fn find_by_name(&self, name: &str) -> (r: Result<ModuleIndex, LookupError>)
        requires
            self.wf(),
        ensures
            lookup_outcome(r, self.rows().map_values(|row: Module| row.name@), name@),
    {
        proof {
            assert(self.rows().map_values(|row: Module| row.name@) =~= self.name@.map_values(
                |s: String| s@,
            ));
        }
        find_named(&self.name, name)
    }

}

impl ProductCategoryData {
    /// The `name` of row `index`.
    pub fn name_of(&self, index: ProductCategoryIndex) -> (r: &String)
        requires
            self.wf(),
            index.position() < self.rows().len(),
        ensures
            *r == self.rows()[index.position() as int].name,
    {
        self.name.get(index)
    }

    /// The row named `name`, if exactly one row has that name.
    pub fn find_by_name(&self, name: &str) -> (r: Result<ProductCategoryIndex, LookupError>)
        requires
            self.wf(),
        ensures
            lookup_outcome(r, self.rows().map_values(|row: ProductCategory| row.name@), name@),
    {
        proof {
            assert(self.rows().map_values(|row: ProductCategory| row.name@) =~= self.name@.map_values(
                |s: String| s@,
            ));
        }
        find_named(&self.name, name)
    }

}

impl Default for ProductData {
    /// An empty table.
    fn default() -> (r: Self)
        ensures
            r.wf(),
            r.rows() == Seq::<Product>::empty(),
    {
        let r = ProductData { name: TypedIndexVec::default(), product_category: TypedIndexVec::default(), price_formula: TypedIndexVec::default() };
        assert(r.rows() =~= Seq::<Product>::empty());
        r
    }
}

impl Default for RecipeData {
    /// An empty table.
    fn default() -> (r: Self)
        ensures
            r.wf(),
            r.rows() == Seq::<Recipe>::empty(),
    {
        let r = RecipeData { name: TypedIndexVec::default(), entries: TypedIndexVec::default(), days: TypedIndexVec::default(), required_modules: TypedIndexVec::default() };
        assert(r.rows() =~= Seq::<Recipe>::empty());
        r
    }
}

impl Default for BuildingData {
    /// An empty table.
    fn default() -> (r: Self)
        ensures
            r.wf(),
            r.rows() == Seq::<Building>::empty(),
    {
        let r = BuildingData { name: TypedIndexVec::default(), base_cost: TypedIndexVec::default(), available_recipes: TypedIndexVec::default() };
        assert(r.rows() =~= Seq::<Building>::empty());
        r
    }
}

impl Default for ModuleData {
    /// An empty table.
    fn default() -> (r: Self)
        ensures
            r.wf(),
            r.rows() == Seq::<Module>::empty(),
    {
        let r = ModuleData { name: TypedIndexVec::default(), base_cost: TypedIndexVec::default() };
        assert(r.rows() =~= Seq::<Module>::empty());
        r
    }
}

impl Default for ProductCategoryData {
    /// An empty table.
    fn default() -> (r: Self)
        ensures
            r.wf(),
            r.rows() == Seq::<ProductCategory>::empty(),
    {
        let r = ProductCategoryData { name: TypedIndexVec::default() };
        assert(r.rows() =~= Seq::<ProductCategory>::empty());
        r
    }
}

/// Why a lookup by name found no single entry.
#[derive(Debug, Clone, Copy, PartialEq, Eq)]
pub enum LookupError {
    /// No entry has the name.
    NotFound,
    /// More than one entry has the name.
    Multiple,
}

/// Position `i` holds `name`, and no other position does.
pub open spec fn named_once(names: Seq<Seq<char>>, name: Seq<char>, i: int) -> bool {
    &&& 0 <= i < names.len()
    &&& names[i] == name
    &&& forall|j: int| 0 <= j < names.len() && #[trigger] names[j] == name ==> j == i
}

/// No position holds `name`.
pub open spec fn named_never(names: Seq<Seq<char>>, name: Seq<char>) -> bool {
    forall|j: int| 0 <= j < names.len() ==> #[trigger] names[j] != name
}

/// Two positions hold `name`.
pub open spec fn named_twice(names: Seq<Seq<char>>, name: Seq<char>) -> bool {
    exists|i: int, j: int| 0 <= i < j < names.len() && #[trigger] names[i] == name && #[trigger] names[j] == name
}

/// What a lookup of `name` among `names` returns: the one position that
/// holds it, or why there is none.
pub open spec fn lookup_outcome<X: TypedIndex>(
    r: Result<X, LookupError>,
    names: Seq<Seq<char>>,
    name: Seq<char>,
) -> bool {
    match r {
        Ok(x) => named_once(names, name, x.position() as int),
        Err(LookupError::NotFound) => named_never(names, name),
        Err(LookupError::Multiple) => named_twice(names, name),
    }
}

/// The position of the one name in `names` equal to `name`.
pub fn find_named<X: TypedIndex>(names: &TypedIndexVec<X, String>, name: &str) -> (r: Result<X, LookupError>)
    requires
        fits::<X>(names@.len()),
    ensures
        lookup_outcome(r, names@.map_values(|s: String| s@), name@),
{
    let ghost view = names@.map_values(|s: String| s@);
    let wanted = name.to_owned();
    let n = names.len();
    let mut found: Option<usize> = None;
    let mut i: usize = 0;
    while i < n
        invariant
            n == names@.len(),
            view == names@.map_values(|s: String| s@),
            wanted@ == name@,
            i <= n,
            fits::<X>(n as nat),
            match found {
                Some(f) => f < i && view[f as int] == name@ && forall|j: int|
                    0 <= j < i && #[trigger] view[j] == name@ ==> j == f,
                None => forall|j: int| 0 <= j < i ==> #[trigger] view[j] != name@,
            },
        decreases n - i,
    {
        proof {
            X::lemma_holds_below((n - 1) as nat, i as nat);
        }
        let here = X::from_usize(i);
        if *names.get(here) == wanted {
            assert(view[i as int] == name@);
            match found {
                Some(f) => {
                    assert(view[f as int] == name@);
                    return Err(LookupError::Multiple);
                },
                None => {
                    found = Some(i);
                },
            }
        }
        i = i + 1;
    }
    match found {
        Some(f) => {
            proof {
                X::lemma_holds_below((n - 1) as nat, f as nat);
            }
            Ok(X::from_usize(f))
        },
        None => Err(LookupError::NotFound),
    }
}

} // verus!
