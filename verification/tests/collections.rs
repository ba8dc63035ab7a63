use rise_of_industry::collection::{TypedIndexBoxedSlice, TypedIndexVec};
use rise_of_industry::index_types::{IndexU16, IndexU32, IndexU64, IndexU8, IndexUsize};
use rise_of_industry::iter::{
    IndexableDoubleEndedIterator, IndexableIterator, Indexed2, IntoIter, IterMut,
};
use rise_of_industry::typed_index::{TypedIndex, UntypedOffset};

type Index = IndexU8;

#[test]
fn index_types_round_trip() {
    assert_eq!(IndexU8::new(5).get(), 5);
    assert_eq!(IndexU16::new(300).get(), 300);
    assert_eq!(IndexU32::new(70000).get(), 70000);
    assert_eq!(IndexU64::new(1 << 40).get(), 1 << 40);
    assert_eq!(IndexUsize::new(9).get(), 9);
    assert_eq!(IndexU8::from_usize(254).into_usize(), 254);
    assert_eq!(IndexU16::from_usize(7).into_usize(), 7);
    assert_eq!(IndexU32::from_usize(7).into_usize(), 7);
    assert_eq!(IndexU64::from_usize(7).into_usize(), 7);
    assert_eq!(IndexUsize::from_usize(7).into_usize(), 7);
}

#[test]
fn index_arithmetic() {
    assert_eq!(IndexU8::new(200).add(IndexU8::new(54)).get(), 254);
    assert_eq!(IndexU8::new(200).sub(IndexU8::new(54)).get(), 146);
    assert_eq!(IndexU32::new(3).add(IndexU32::new(4)), IndexU32::new(7));
    assert_eq!(IndexU16::new(9).sub(IndexU16::new(9)), IndexU16::new(0));
    assert!(IndexU8::new(1) < IndexU8::new(2));
}

#[test]
fn index_limits() {
    assert!(<IndexU8 as TypedIndex>::holds_usize(254));
    assert!(!<IndexU8 as TypedIndex>::holds_usize(255));
    assert!(<IndexU16 as TypedIndex>::holds_usize(65534));
    assert!(!<IndexU16 as TypedIndex>::holds_usize(65535));
    assert!(!<IndexUsize as TypedIndex>::holds_usize(usize::MAX));
}

#[test]
fn typed_index_offsets() {
    let index = Index::from_usize(3);
    assert_eq!(index.add_offset(UntypedOffset(4)), Index::from_usize(7));
    assert_eq!(index.add_offset(UntypedOffset(0)), index);
}

#[test]
fn push_then_get() {
    let mut vec: TypedIndexVec<Index, &str> = TypedIndexVec::default();
    assert!(vec.is_empty());
    assert_eq!(vec.next_index(), Index::from_usize(0));
    let a = vec.push("a");
    let b = vec.push("b");
    assert_eq!(a, Index::from_usize(0));
    assert_eq!(b, Index::from_usize(1));
    assert_eq!(*vec.get(a), "a");
    assert_eq!(*vec.get(b), "b");
    assert_eq!(vec.len(), 2);
    vec.set(a, "c");
    assert_eq!(*vec.get(a), "c");
    assert_eq!(*vec.get(b), "b");
    vec.reserve(10);
    assert_eq!(vec.len(), 2);
}

#[test]
fn boxed_slices_keep_values() {
    let vec: TypedIndexVec<Index, u32> = TypedIndexVec::new(vec![10, 20, 30]);
    let boxed: TypedIndexBoxedSlice<Index, u32> = vec.into_boxed_slice();
    assert_eq!(boxed.len(), 3);
    assert!(!boxed.is_empty());
    assert_eq!(*boxed.get(Index::from_usize(2)), 30);
    assert_eq!(*boxed.as_slice().get(Index::from_usize(1)), 20);
    let vec = boxed.into_vec();
    assert_eq!(*vec.get(Index::from_usize(0)), 10);
}

#[test]
fn slices_read_and_write() {
    let mut vec: TypedIndexVec<Index, u32> = TypedIndexVec::with_capacity(3);
    vec.push(1);
    vec.push(2);
    vec.push(3);
    assert_eq!(*vec.as_slice().get(Index::from_usize(2)), 3);
    {
        let mut slice = vec.as_mut_slice();
        slice.set(Index::from_usize(0), 100);
        assert_eq!(*slice.get(Index::from_usize(0)), 100);
    }
    assert_eq!(*vec.get(Index::from_usize(0)), 100);
}

#[test]
fn iterators_pair_values_with_indices() {
    let vec: TypedIndexVec<Index, char> = TypedIndexVec::new(vec!['x', 'y', 'z']);
    let mut iter = vec.iter().index();
    assert_eq!(iter.len(), 3);
    assert_eq!(iter.next(), Some((Index::from_usize(0), &'x')));
    assert_eq!(iter.next_back(), Some((Index::from_usize(2), &'z')));
    assert_eq!(iter.next(), Some((Index::from_usize(1), &'y')));
    assert_eq!(iter.next(), None);
    assert_eq!(iter.next_back(), None);

    let mut plain = vec.iter();
    assert_eq!(plain.next(), Some(&'x'));
    assert_eq!(plain.len(), 2);
    let mut rest = plain.index();
    assert_eq!(rest.next_back(), Some((Index::from_usize(2), &'z')));
    assert_eq!(rest.next(), Some((Index::from_usize(1), &'y')));
}

#[test]
fn mutable_iteration_writes_through() {
    let mut vec: TypedIndexVec<Index, u32> = TypedIndexVec::new(vec![1, 2, 3]);
    {
        let mut iter = vec.iter_mut().index();
        while let Some((index, value)) = iter.next() {
            *value += 10 * index.into_usize() as u32;
        }
    }
    assert_eq!(*vec.get(Index::from_usize(0)), 1);
    assert_eq!(*vec.get(Index::from_usize(1)), 12);
    assert_eq!(*vec.get(Index::from_usize(2)), 23);
}

#[test]
fn owning_iterator_from_both_ends() {
    let vec: TypedIndexVec<Index, String> =
        TypedIndexVec::new(vec!["a".to_string(), "b".to_string(), "c".to_string(), "d".to_string()]);
    let mut iter = IntoIter::new(vec);
    assert_eq!(iter.indexed_next(), Some((Index::from_usize(0), "a".to_string())));
    assert_eq!(iter.nth_back(1), Some("c".to_string()));
    assert_eq!(iter.indexed_next_back(), Some((Index::from_usize(1), "b".to_string())));
    assert_eq!(iter.indexed_next(), None);

    let vec: TypedIndexVec<Index, u8> = TypedIndexVec::new(vec![1, 2]);
    let mut iter = IntoIter::new(vec);
    assert_eq!(iter.nth_back(5), None);
}

#[test]
fn indexed_from_a_given_index() {
    let vec: TypedIndexVec<Index, char> = TypedIndexVec::new(vec!['p', 'q', 'r']);
    let mut iter: Indexed2<Index, IntoIter<Index, char>> =
        Indexed2::new(IntoIter::new(vec), Index::from_usize(10));
    // Front items are counted from the given index ...
    assert_eq!(iter.next(), Some((Index::from_usize(10), 'p')));
    // ... back items get the position the owning iterator gives them.
    assert_eq!(iter.next_back(), Some((Index::from_usize(2), 'r')));
    assert_eq!(iter.len(), 1);
    assert_eq!(iter.next(), Some((Index::from_usize(11), 'q')));
    assert_eq!(iter.next(), None);
    assert_eq!(iter.next_back(), None);

    let vec: TypedIndexVec<Index, char> = TypedIndexVec::new(vec!['p', 'q', 'r']);
    let mut from_zero: Indexed2<Index, IntoIter<Index, char>> =
        Indexed2::new_from_zero(IntoIter::new(vec));
    assert_eq!(from_zero.next_back(), Some((Index::from_usize(2), 'r')));
    assert_eq!(from_zero.next(), Some((Index::from_usize(0), 'p')));
}

#[test]
fn writes_through_a_mutable_iterator_reach_the_vector() {
    let mut vec: TypedIndexVec<Index, u32> = TypedIndexVec::new(vec![1, 2, 3]);
    {
        let slice = vec.as_mut_slice();
        let mut iter = IterMut::new(slice.inner);
        *iter.next().unwrap() = 10;
        *iter.next_back().unwrap() = 30;
        *iter.next().unwrap() = 20;
        assert!(iter.next().is_none());
    }
    assert_eq!(*vec.get(Index::from_usize(0)), 10);
    assert_eq!(*vec.get(Index::from_usize(1)), 20);
    assert_eq!(*vec.get(Index::from_usize(2)), 30);
}

#[test]
fn room_for_values_keeps_them() {
    let mut vec: TypedIndexVec<Index, u32> = TypedIndexVec::new(vec![4, 5]);
    assert!(vec.capacity() >= 2);
    vec.reserve_exact(10);
    assert!(vec.capacity() >= 12);
    assert!(vec.try_reserve(3).is_ok());
    vec.shrink_to(4);
    assert!(vec.capacity() >= 4);
    vec.shrink_to_fit();
    assert!(vec.capacity() >= 2);
    assert_eq!(vec.len(), 2);
    assert_eq!(*vec.get(Index::from_usize(0)), 4);
    assert_eq!(*vec.get(Index::from_usize(1)), 5);
}

#[test]
fn numbering_continues_after_taking() {
    let vec: TypedIndexVec<Index, char> = TypedIndexVec::new(vec!['a', 'b', 'c', 'd']);
    let mut iter = vec.iter();
    assert_eq!(iter.next(), Some(&'a'));
    assert_eq!(iter.next_back(), Some(&'d'));
    assert_eq!(iter.next(), Some(&'b'));
    let mut indexed = iter.index();
    assert_eq!(indexed.next(), Some((Index::from_usize(2), &'c')));
    assert_eq!(indexed.next(), None);
}
