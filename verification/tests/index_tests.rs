use rand::Rng;
use void_gpu::CommandListIndex;

#[test]
fn test_cmd_list() {
    let node_id = rand::thread_rng().gen::<[u8; 6]>();
    let v1 = CommandListIndex::new(&node_id);
    let v2 = CommandListIndex::new(&node_id);

    assert!(v1 < v2);
}

#[test]
fn test_cmd_list_after_delay() {
    let node_id = rand::thread_rng().gen::<[u8; 6]>();

    let v1 = CommandListIndex::new(&node_id);
    let start = std::time::Instant::now();
    while start.elapsed() < std::time::Duration::from_millis(2) {}
    let v2 = CommandListIndex::new(&node_id);

    assert!(v1 < v2);
}

#[test]
fn index_value_carries_node_identity_and_version() {
    let node_id = [0xABu8, 0xCD, 0xEF, 0x01, 0x02, 0x03];
    let v = CommandListIndex::new(&node_id).as_u128();

    let expected_node = (0xABu128 << 40)
        | (0xCDu128 << 32)
        | (0xEFu128 << 24)
        | (0x01u128 << 16)
        | (0x02u128 << 8)
        | 0x03u128;
    assert_eq!(v & 0xffff_ffff_ffff, expected_node);
    assert_eq!((v >> 76) & 0xf, 6);
    assert_eq!((v >> 62) & 0x3, 2);
}

#[test]
fn index_comparison_goes_by_value() {
    let node_id = [1u8, 1, 1, 1, 1, 1];
    let v1 = CommandListIndex::new(&node_id);
    let v2 = CommandListIndex::new(&node_id);

    assert_eq!(v1 < v2, v1.as_u128() < v2.as_u128());
    assert_ne!(v1, v2);
    assert_eq!(v1, v1);
}
