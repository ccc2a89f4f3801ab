use lunar_engine::batching::{build_batches, BatchCache, CachePath, MeshInstance};

fn mesh(mesh_id: u128, material_id: u128) -> MeshInstance {
    MeshInstance {
        mesh_id,
        material_id,
        visible: true,
        in_view: true,
    }
}

#[test]
fn groups_by_mesh_then_material() {
    let ks: Vec<(u128, u128)> = vec![(2, 5), (1, 7), (2, 3), (1, 7), (2, 5)];
    let bs = build_batches(&ks);
    let keys: Vec<(u128, u128)> = bs.iter().map(|b| (b.mesh_id, b.material_id)).collect();
    assert_eq!(keys, vec![(1, 7), (2, 3), (2, 5)]);
    assert_eq!(bs[0].instances, vec![1, 3]);
    assert_eq!(bs[1].instances, vec![2]);
    assert_eq!(bs[2].instances, vec![0, 4]);
}

#[test]
fn culled_and_invisible_meshes_are_not_drawn() {
    let mut hidden = mesh(1, 1);
    hidden.visible = false;
    let mut culled = mesh(1, 1);
    culled.in_view = false;
    let ms = vec![hidden, mesh(1, 1), culled, mesh(0, 0)];
    let mut cache = BatchCache::new();
    let plan = cache.prepare_frame(&ms);
    assert_eq!(plan.survivors, vec![1, 3]);
    assert_eq!(cache.signature(), &vec![(1, 1), (0, 0)]);
    let bs = cache.batches();
    assert_eq!(bs.len(), 2);
    assert_eq!((bs[0].mesh_id, bs[0].material_id), (0, 0));
    assert_eq!(bs[0].instances, vec![1]);
    assert_eq!(bs[1].instances, vec![0]);
    let total: usize = bs.iter().map(|b| b.instances.len()).sum();
    assert_eq!(total, 2);
}

#[test]
fn empty_frame_has_no_batches() {
    let mut cache = BatchCache::new();
    let plan = cache.prepare_frame(&Vec::new());
    assert_eq!(plan.path, CachePath::Reuse);
    assert!(cache.batches().is_empty());
    assert!(plan.material_ids().is_empty());
}

#[test]
fn repeated_frame_takes_reuse_path() {
    let ms = vec![mesh(3, 1), mesh(4, 2), mesh(3, 1)];
    let mut cache = BatchCache::new();
    let first = cache.prepare_frame(&ms);
    assert_eq!(first.path, CachePath::Rebuild);
    let batches_before = cache.batches().as_ptr();
    let second = cache.prepare_frame(&ms);
    assert_eq!(second.path, CachePath::Reuse);
    assert_eq!(cache.batches().as_ptr(), batches_before);
    assert_eq!(cache.signature(), &vec![(3, 1), (4, 2), (3, 1)]);
}

#[test]
fn changed_mesh_or_material_forces_rebuild() {
    let ms = vec![mesh(3, 1), mesh(4, 2), mesh(3, 1)];
    let mut cache = BatchCache::new();
    cache.prepare_frame(&ms);

    let mut changed_material = ms.clone();
    changed_material[1].material_id = 9;
    assert_eq!(cache.prepare_frame(&changed_material).path, CachePath::Rebuild);

    let mut changed_mesh = changed_material.clone();
    changed_mesh[0].mesh_id = 8;
    assert_eq!(cache.prepare_frame(&changed_mesh).path, CachePath::Rebuild);

    let total: usize = cache.batches().iter().map(|b| b.instances.len()).sum();
    assert_eq!(total, 3);
}

#[test]
fn reordered_frame_forces_rebuild() {
    let mut cache = BatchCache::new();
    cache.prepare_frame(&vec![mesh(1, 1), mesh(2, 2)]);
    let plan = cache.prepare_frame(&vec![mesh(2, 2), mesh(1, 1)]);
    assert_eq!(plan.path, CachePath::Rebuild);
}

#[test]
fn materials_listed_once_in_first_use_order() {
    let mut culled = mesh(1, 4);
    culled.in_view = false;
    let ms = vec![mesh(1, 9), culled, mesh(2, 3), mesh(3, 9), mesh(1, 3)];
    let mut cache = BatchCache::new();
    let plan = cache.prepare_frame(&ms);
    assert_eq!(plan.material_ids(), vec![9, 3]);
}

#[test]
fn reuse_reads_current_survivors() {
    let mut cache = BatchCache::new();
    let mut hidden = mesh(5, 5);
    hidden.visible = false;
    cache.prepare_frame(&vec![hidden, mesh(5, 5)]);
    let plan = cache.prepare_frame(&vec![mesh(5, 5)]);
    assert_eq!(plan.path, CachePath::Reuse);
    assert_eq!(plan.survivors, vec![0]);
    assert_eq!(cache.batches()[0].instances, vec![0]);
}

#[test]
fn empty_signature_has_no_batches() {
    let ks: Vec<(u128, u128)> = Vec::new();
    assert!(build_batches(&ks).is_empty());
}
