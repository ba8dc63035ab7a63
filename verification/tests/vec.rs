use rise_of_industry::collection::TypedIndexVec;
use rise_of_industry::index_types::IndexU16;
use rise_of_industry::typed_index::TypedIndex;

type ProductIndex = IndexU16;

type ProductVec<T> = TypedIndexVec<ProductIndex, T>;

#[test]
fn into_iter_late_index() {
    let mut iter = ProductVec::new(vec![(), ()]).into_iter();
    assert_eq!(iter.next(), Some(()));
    let mut iter = iter.index();
    assert_eq!(iter.next(), Some((ProductIndex::from_usize(1), ())));
    assert_eq!(iter.next(), None);
}

#[test]
fn into_iter_next_back() {
    let mut iter = ProductVec::new(vec!["a", "b", "c"]).into_iter().index();
    assert_eq!(iter.next(), Some((ProductIndex::from_usize(0), "a")));
    assert_eq!(iter.next_back(), Some((ProductIndex::from_usize(2), "c")));
    assert_eq!(iter.next(), Some((ProductIndex::from_usize(1), "b")));
}

#[test]
fn iter_map_and_everything() {
    struct Product {
        name: String,
        price: f64,
    }

    struct ProductData {
        name: ProductVec<String>,
        price: ProductVec<f64>,
    }

    struct ProductIndexIter(std::ops::Range<usize>);

    impl Iterator for ProductIndexIter {
        type Item = ProductIndex;

        fn next(&mut self) -> Option<Self::Item> {
            self.0.next().map(ProductIndex::from_usize)
        }
    }

    impl<'data> IntoIterator for &'data ProductData {
        type Item = ProductIndex;

        type IntoIter = ProductIndexIter;

        fn into_iter(self) -> Self::IntoIter {
            ProductIndexIter(0..self.name.len())
        }
    }

    let products = ProductVec::new(vec![
        Product {
            name: "Orange".to_string(),
            price: 2.3,
        },
        Product {
            name: "Apple".to_string(),
            price: 5.1,
        },
    ]);

    let mut products = {
        let (mut names, mut prices) = <(ProductVec<String>, ProductVec<f64>)>::default();
        let mut iter = products.into_iter();
        while let Some(product) = iter.next() {
            names.push(product.name);
            prices.push(product.price);
        }
        ProductData {
            name: names,
            price: prices,
        }
    };

    for index in &products {
        let (original_price, name_len) = (*products.price.get(index), products.name.get(index).len());
        products.price.set(index, original_price * 2.0 + name_len as f64);
    }

    assert_eq!(*products.price.get(ProductIndex::from_usize(0)), 2.3 * 2.0 + 6.0);
    assert_eq!(*products.price.get(ProductIndex::from_usize(1)), 5.1 * 2.0 + 5.0);
}
