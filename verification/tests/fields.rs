use rise_of_industry::calculator::fields::{
    Data, Field, FieldIndex, FieldVec, ProductName, RecipeEntries, RecipeEntry,
};
use rise_of_industry::calculator::game_data::{ProductIndex, RecipeIndex};
use rise_of_industry::collection::TypedIndexVec;
use rise_of_industry::typed_index::TypedIndex;

struct RecipePrice;

impl Field for RecipePrice {
    type Index = RecipeIndex;
    type Type = f64;
}

fn recipe_prices(
    data: &(impl FieldIndex<RecipeEntries> + FieldIndex<ProductName>),
) -> FieldVec<RecipePrice> {
    let entries_column = data.column(RecipeEntries);
    let names = data.column(ProductName);
    let mut prices = Vec::new();
    let mut iter = entries_column.iter();
    while let Some(entries) = iter.next() {
        let name_lengths: usize = entries
            .iter()
            .map(|entry| names.get(entry.product).len())
            .sum();
        prices.push(entries.len() as f64 + name_lengths as f64);
    }
    TypedIndexVec::new(prices)
}

#[test]
fn lib_test() {
    let data = Data(
        TypedIndexVec::new(vec!["Product 1".to_string(), "Product 2".to_string()]),
        TypedIndexVec::new(vec!["Recipe 1".to_string(), "Recipe 2".to_string()]),
        TypedIndexVec::new(vec![
            vec![RecipeEntry {
                product: ProductIndex::from_usize(0),
                amount: 1,
            }],
            vec![],
        ]),
    );

    assert_eq!(
        data.column(ProductName).get(ProductIndex::from_usize(0)),
        "Product 1"
    );

    struct PriceInputData(FieldVec<ProductName>, FieldVec<RecipeEntries>);

    impl FieldIndex<ProductName> for PriceInputData {
        fn column(&self, _: ProductName) -> &FieldVec<ProductName> {
            &self.0
        }
    }

    impl FieldIndex<RecipeEntries> for PriceInputData {
        fn column(&self, _: RecipeEntries) -> &FieldVec<RecipeEntries> {
            &self.1
        }
    }

    let prices = recipe_prices(&data);
    assert_eq!(*prices.get(RecipeIndex::from_usize(0)), 1.0 + 9.0);
    assert_eq!(*prices.get(RecipeIndex::from_usize(1)), 0.0);

    let data = PriceInputData(data.0, data.2);
    let prices = recipe_prices(&data);
    assert_eq!(prices.len(), 2);
}
