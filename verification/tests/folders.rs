use adachi_cube::folders::bucket_of_draw;
use adachi_cube::folders::FolderError;
use adachi_cube::folders::Folders;

fn pool_set() -> Folders {
    Folders::new(
        &String::from("pools/yes"),
        &String::from("pools/maybe"),
        &String::from("pools/no"),
        true,
        true,
        true,
    )
    .unwrap()
}

#[test]
fn pool_set_requires_three_directories() {
    let set = pool_set();
    assert_eq!(set.true_path, "pools/yes");
    assert_eq!(set.maybe_path, "pools/maybe");
    assert_eq!(set.false_path, "pools/no");
}

#[test]
fn first_missing_directory_is_the_error() {
    let a = String::from("a");
    let b = String::from("b");
    let c = String::from("c");
    match Folders::new(&a, &b, &c, false, false, true) {
        Err(FolderError::NotADirectory(p)) => assert_eq!(p, "a"),
        _ => panic!("expected the first path to be rejected"),
    }
    match Folders::new(&a, &b, &c, true, false, false) {
        Err(FolderError::NotADirectory(p)) => assert_eq!(p, "b"),
        _ => panic!("expected the second path to be rejected"),
    }
    match Folders::new(&a, &b, &c, true, true, false) {
        Err(FolderError::NotADirectory(p)) => assert_eq!(p, "c"),
        _ => panic!("expected the third path to be rejected"),
    }
}

#[test]
fn folder_error_messages() {
    assert_eq!(
        FolderError::NotADirectory(String::from("pools/yes")).message(),
        "`pools/yes` is not a directory"
    );
    assert_eq!(
        FolderError::EmptyPool(String::from("pools/no")).message(),
        "`pools/no` has no children"
    );
}

#[test]
fn buckets_cycle_evenly_over_the_three_pools() {
    let mut counts = [0usize; 3];
    for draw in 0..30u32 {
        counts[bucket_of_draw(draw) as usize] += 1;
    }
    assert_eq!(counts, [10, 10, 10]);
}

#[test]
fn buckets_map_to_the_three_verdicts_in_order() {
    let set = pool_set();
    assert_eq!(set.pool_for_bucket(0), "pools/yes");
    assert_eq!(set.pool_for_bucket(1), "pools/maybe");
    assert_eq!(set.pool_for_bucket(2), "pools/no");
}

#[test]
fn chosen_pool_is_one_of_the_three() {
    let set = pool_set();
    for _ in 0..50 {
        let pool = set.choose_pool();
        assert!(pool == &set.true_path || pool == &set.maybe_path || pool == &set.false_path);
    }
}

#[test]
fn picked_entry_is_a_member_of_the_listing() {
    let set = pool_set();
    let children = vec![
        String::from("pools/yes/a.mp4"),
        String::from("pools/yes/b.mp4"),
        String::from("pools/yes/c.webm"),
    ];
    for _ in 0..50 {
        let picked = set.pick_random(&set.true_path, &children).unwrap();
        assert!(children.contains(&picked));
    }
}

#[test]
fn empty_listing_fails_with_the_pool_name() {
    let set = pool_set();
    let pool = String::from("pools/maybe");
    match set.pick_random(&pool, &Vec::new()) {
        Err(FolderError::EmptyPool(p)) => assert_eq!(p, "pools/maybe"),
        _ => panic!("an empty pool must be reported"),
    }
}

#[test]
fn single_entry_listing_always_picks_it() {
    let set = pool_set();
    let children = vec![String::from("pools/yes/a.mp4")];
    for _ in 0..10 {
        let picked = set.pick_random(&set.true_path, &children).unwrap();
        assert_eq!(picked, "pools/yes/a.mp4");
    }
}
