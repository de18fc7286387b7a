use gecko_random_minter::pool::{has_no_duplicates, new_pool, POOL_SIZE};

#[test]
fn new_pool_holds_one_to_ten_thousand_in_order() {
    let pool = new_pool();
    assert_eq!(POOL_SIZE, 10000);
    assert_eq!(pool.len(), 10000);
    assert_eq!(pool[0], 1);
    assert_eq!(pool[1], 2);
    assert_eq!(pool[9999], 10000);
    for (i, id) in pool.iter().enumerate() {
        assert_eq!(*id as usize, i + 1);
    }
}

#[test]
fn has_no_duplicates_tells_repetitions() {
    assert!(has_no_duplicates(&vec![]));
    assert!(has_no_duplicates(&vec![7]));
    assert!(has_no_duplicates(&vec![3, 1, 2]));
    assert!(!has_no_duplicates(&vec![3, 1, 3]));
    assert!(!has_no_duplicates(&vec![5, 5]));
    assert!(has_no_duplicates(&new_pool()));
}
