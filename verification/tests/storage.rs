use phala_registry::primitives::H256;
use phala_registry::storage::{list_contains, list_remove, StorageMap};

#[test]
fn a_map_gives_back_what_was_put_in() {
    let mut map: StorageMap<Vec<u8>, u32> = StorageMap::new();
    assert_eq!(map.get(&vec![1]), None);
    map.insert(vec![1], 10);
    map.insert(vec![2], 20);
    map.insert(vec![1, 2], 30);
    assert_eq!(map.get(&vec![1]), Some(&10));
    assert_eq!(map.get(&vec![2]), Some(&20));
    assert_eq!(map.get(&vec![1, 2]), Some(&30));
    map.insert(vec![1], 11);
    assert_eq!(map.get(&vec![1]), Some(&11));
    assert_eq!(map.take(&vec![1]), Some(11));
    assert_eq!(map.take(&vec![1]), None);
    assert!(!map.contains_key(&vec![1]));
    assert!(map.contains_key(&vec![2]));
    map.remove(&vec![2]);
    assert!(!map.contains_key(&vec![2]));
    assert_eq!(map.get(&vec![1, 2]), Some(&30));
}

#[test]
fn a_list_loses_every_occurrence_and_keeps_the_order() {
    let h = H256::repeat_byte;
    let mut list = vec![h(1), h(2), h(1), h(3), h(1)];
    assert!(list_contains(&list, &h(1)));
    list_remove(&mut list, &h(1));
    assert_eq!(list, vec![h(2), h(3)]);
    assert!(!list_contains(&list, &h(1)));
    list_remove(&mut list, &h(9));
    assert_eq!(list, vec![h(2), h(3)]);
}
