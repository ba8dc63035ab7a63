//! The game data as it is written to and read from disk: tables keyed by the
//! asset guid of each entry, where entries refer to each other by guid.

use vstd::prelude::*;

verus! {

/// How the game prices a product.
#[derive(Debug, Clone, Copy, PartialEq, Eq)]
pub enum ProductPriceFormula {
    /// (ingredientsValue + ((upkeep / 30) * recipeDays)) / recipeOutput
    Factories,
    /// ingredientsValue * 2.8
    FarmProduce,
    /// ((ingredientsValue * 3) + ((upkeep / 30) * recipeDays)) / (recipeOutput * 3)
    Farms,
    /// upkeep / ((3 * recipeOutput) * (30 / recipeDays))
    Gatherers,
    /// ((((ingredientsValue * 3) + ((upkeep / 30) * recipeDays)) / (recipeOutput * 3)) * (recipeOutput - productOutput)) / recipeOutput
    Livestock,
    /// 75 * recipeDays * 3.25
    RawResources,
}

/// A product; `category` is the guid of its product category.
pub struct Product {
    pub name: String,
    pub category: String,
    pub price_formula: ProductPriceFormula,
}

/// A recipe; its entries and required modules refer to products and
/// building modules by guid.
pub struct Recipe {
    pub name: String,
    pub entries: Vec<RecipeEntry>,
    pub days: i64,
    pub required_modules: Vec<String>,
    pub tier: i64,
}

/// A product that a recipe consumes (negative amount) or produces
/// (positive amount).
pub struct RecipeEntry {
    pub product_id: String,
    pub amount: i64,
}

pub struct BuildingModule {
    pub name: String,
    pub base_cost: i64,
}

/// A building; `available_recipes` are recipe guids.
pub struct Building {
    pub name: String,
    pub base_cost: i64,
    pub available_recipes: Vec<String>,
}

/// A product category. What the game multiplies prices and growth with is
/// carried as `modifiers`, whose type the caller chooses.
pub struct ProductCategory<M> {
    pub name: String,
    pub modifiers: M,
}

} // verus!
