use void_gpu::gpu::{check_texture_desc, Gpu, GpuError, RenderError, SurfaceErrorKind, TextureError};
use void_gpu::CommandListIndex;

#[test]
fn ledger_drains_ascending_regardless_of_insertion_order() {
    let node_id = [9u8, 8, 7, 6, 5, 4];
    let i1 = CommandListIndex::new(&node_id);
    let i2 = CommandListIndex::new(&node_id);
    let i3 = CommandListIndex::new(&node_id);
    assert!(i1 < i2 && i2 < i3);

    let mut gpu: Gpu<&'static str> = Gpu::new(node_id);
    gpu.insert_command(i3, "third");
    gpu.insert_command(i1, "first");
    gpu.insert_command(i2, "second");

    let batch = gpu.present(Ok(())).unwrap();
    assert_eq!(batch, vec!["first", "second", "third"]);
    assert_eq!(gpu.len(), 0);
}

#[test]
fn insert_with_equal_key_replaces() {
    let node_id = [3u8; 6];
    let idx = CommandListIndex::new(&node_id);

    let mut gpu: Gpu<u32> = Gpu::new(node_id);
    gpu.insert_command(idx, 1);
    gpu.insert_command(idx, 2);
    assert_eq!(gpu.len(), 1);

    let batch = gpu.present(Ok(())).unwrap();
    assert_eq!(batch, vec![2]);
}

#[test]
fn present_on_empty_ledger_succeeds_and_stays_empty() {
    let mut gpu: Gpu<u32> = Gpu::new([0u8; 6]);

    let batch = gpu.present(Ok(())).unwrap();
    assert!(batch.is_empty());
    assert_eq!(gpu.len(), 0);

    let batch2 = gpu.present(Ok(())).unwrap();
    assert!(batch2.is_empty());
    assert_eq!(gpu.len(), 0);
}

#[test]
fn failed_acquisition_keeps_ledger_for_retry() {
    let mut gpu: Gpu<u32> = Gpu::new([1u8; 6]);
    gpu.submit_cmd(5);
    gpu.submit_cmds(vec![6, 7]);
    assert_eq!(gpu.len(), 3);

    let r = gpu.present(Err(SurfaceErrorKind::Outdated));
    assert_eq!(r, Err(RenderError::SurfaceError(SurfaceErrorKind::Outdated)));
    assert_eq!(gpu.len(), 3);

    let r2 = gpu.present(Err(SurfaceErrorKind::Timeout));
    assert_eq!(r2, Err(RenderError::SurfaceError(SurfaceErrorKind::Timeout)));
    assert_eq!(gpu.len(), 3);

    let batch = gpu.present(Ok(())).unwrap();
    assert_eq!(batch, vec![5, 6, 7]);
    assert_eq!(gpu.len(), 0);
}

#[test]
fn submission_order_is_drain_order_on_one_node() {
    let mut gpu: Gpu<u32> = Gpu::new([2u8; 6]);
    for n in 0..16u32 {
        gpu.submit_cmd(n);
    }
    assert_eq!(gpu.len(), 16);

    let batch = gpu.present(Ok(())).unwrap();
    assert_eq!(batch, (0..16u32).collect::<Vec<u32>>());
}

#[test]
fn every_surface_error_kind_is_reported_as_is() {
    let kinds = vec![
        SurfaceErrorKind::Lost,
        SurfaceErrorKind::Outdated,
        SurfaceErrorKind::Timeout,
        SurfaceErrorKind::OutOfMemory,
    ];
    for kind in kinds {
        let mut gpu: Gpu<u32> = Gpu::new([4u8; 6]);
        gpu.submit_cmd(1);
        assert_eq!(gpu.present(Err(kind)), Err(RenderError::SurfaceError(kind)));
        assert_eq!(gpu.len(), 1);
    }
}

#[test]
fn texture_bytes_are_validated_exactly() {
    let good = vec![0u8; 4 * 2 * 3];
    assert_eq!(check_texture_desc(2, 3, &good), Ok(()));

    let short = vec![0u8; 4 * 2 * 3 - 1];
    assert_eq!(
        check_texture_desc(2, 3, &short),
        Err(GpuError::TextureError(TextureError::MalformedData))
    );
    assert_eq!(
        check_texture_desc(0, 3, &vec![]),
        Err(GpuError::TextureError(TextureError::MalformedData))
    );
    assert_eq!(
        check_texture_desc(2, 0, &vec![]),
        Err(GpuError::TextureError(TextureError::MalformedData))
    );
}
