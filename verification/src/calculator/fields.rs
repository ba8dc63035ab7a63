//! Table columns named by type: a field names the index and the value type
//! of a column, and a group of columns hands out the column of each field.

use crate::calculator::game_data::{ProductIndex, RecipeIndex};
use crate::collection::TypedIndexVec;
use vstd::prelude::*;

verus! {

/// A column: values of `Type`, indexed by `Index`.
pub trait Field {
    type Index;
    type Type;
}

/// The column of field `F`.
pub type FieldVec<F> = TypedIndexVec<<F as Field>::Index, <F as Field>::Type>;

/// A group of columns that holds the column of field `F`.
pub trait FieldIndex<F: Field> {
    fn column(&self, field: F) -> &FieldVec<F>;
}

/// The name of a product.
pub struct ProductName;

impl Field for ProductName {
    type Index = ProductIndex;
    type Type = String;
}

/// The name of a recipe.
pub struct RecipeName;

impl Field for RecipeName {
    type Index = RecipeIndex;
    type Type = String;
}

/// The entries of a recipe.
pub struct RecipeEntries;

impl Field for RecipeEntries {
    type Index = RecipeIndex;
    type Type = Vec<RecipeEntry>;
}

/// A product a recipe takes (negative amount) or gives.
#[derive(Debug, Clone, Copy)]
pub struct RecipeEntry {
    pub product: ProductIndex,
    pub amount: i64,
}

/// The product names, recipe names and recipe entries.
pub struct Data(pub FieldVec<ProductName>, pub FieldVec<RecipeName>, pub FieldVec<RecipeEntries>);

impl FieldIndex<ProductName> for Data {
    fn column(&self, field: ProductName) -> (r: &FieldVec<ProductName>)
        ensures
            r == &self.0,
    {
        &self.0
    }
}

impl FieldIndex<RecipeName> for Data {
    fn column(&self, field: RecipeName) -> (r: &FieldVec<RecipeName>)
        ensures
            r == &self.1,
    {
        &self.1
    }
}

impl FieldIndex<RecipeEntries> for Data {
    fn column(&self, field: RecipeEntries) -> (r: &FieldVec<RecipeEntries>)
        ensures
            r == &self.2,
    {
        &self.2
    }
}

} // verus!
