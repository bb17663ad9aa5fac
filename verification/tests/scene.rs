use birdylook::draw::MeshHandle;
use birdylook::ground::{Aabb, GroundSurface, Point3};
use birdylook::instancing::generate;
use birdylook::placement::{decode, DecodeError, TAG_REGIONS};
use birdylook::placement::PlacementRecord;
use birdylook::scene::{create_grass, is_ground, GrassBatch, GroundOutcome, SceneNode};

fn node(name: &str, child_mesh: Option<MeshHandle>, half: u32) -> SceneNode {
    SceneNode {
        name: name.to_string(),
        child_mesh,
        surface: GroundSurface {
            translation: Point3 { x: 1000, y: 2000, z: 3000 },
            bounding_box: Aabb {
                center: Point3 { x: 0, y: 0, z: 0 },
                half_x: half,
                half_y: 0,
                half_z: 2 * half,
            },
            mesh_vertex_positions: Some(vec![Point3 { x: 0, y: 40, z: 0 }]),
        },
    }
}

fn map() -> Vec<u8> {
    vec![TAG_REGIONS, 1, 0, 2, 0, 3, 0, 4, 0, 4, 0, 0, 0, 9, 0, 9, 0, 9, 0, 9, 0]
}

#[test]
fn is_ground_looks_for_the_word_anywhere_in_the_name() {
    assert!(is_ground("Ground"));
    assert!(is_ground("Ground.001"));
    assert!(is_ground("NorthGround"));
    assert!(is_ground("xGroundx"));
    assert!(!is_ground("ground"));
    assert!(!is_ground("Groun"));
    assert!(!is_ground("Gro und"));
    assert!(!is_ground("Water"));
    assert!(!is_ground(""));
}

#[test]
fn create_grass_grows_on_the_ground_whose_mesh_loaded() {
    let nodes = vec![
        node("Water", Some(MeshHandle(7)), 256_000),
        node("Ground", Some(MeshHandle(7)), 256_000),
        node("Ground.001", None, 256_000),
        node("Ground.002", Some(MeshHandle(8)), 256_000),
        node("Bridge", None, 256_000),
    ];
    let outcomes = create_grass(MeshHandle(7), &nodes, &map(), MeshHandle(1), 42).unwrap();
    assert_eq!(outcomes.len(), 5);
    assert!(matches!(outcomes[0], GroundOutcome::NotGround));
    assert!(matches!(outcomes[2], GroundOutcome::MissingGroundMesh));
    assert!(matches!(outcomes[3], GroundOutcome::Waiting));
    assert!(matches!(outcomes[4], GroundOutcome::NotGround));
    match &outcomes[1] {
        GroundOutcome::Grown(batch) => {
            assert_eq!(batch.ground(), 1);
            assert_eq!(batch.mesh(), MeshHandle(1));
            assert_eq!(batch.instances().len(), 4);
            let records = decode(&map()).unwrap();
            let expected = generate(&records, &nodes[1].surface, 1000, 2000, 42);
            assert_eq!(batch.instances().0, expected);
            for blade in &batch.instances().0 {
                assert!(1000 + 2000 <= blade.position.x && blade.position.x < 1000 + 2000 + 4000);
                assert!(3000 + 6000 <= blade.position.z && blade.position.z < 3000 + 6000 + 8000);
                assert_eq!(blade.position.y, 2040);
            }
        }
        _ => panic!("the ground whose mesh loaded got no grass"),
    }
}

#[test]
fn create_grass_grows_on_every_ground_that_shares_the_mesh() {
    let nodes = vec![node("Ground A", Some(MeshHandle(2)), 512), node("Ground B", Some(MeshHandle(2)), 1024)];
    let outcomes = create_grass(MeshHandle(2), &nodes, &map(), MeshHandle(0), 1).unwrap();
    assert!(matches!(&outcomes[0], GroundOutcome::Grown(b) if b.ground() == 0));
    assert!(matches!(&outcomes[1], GroundOutcome::Grown(b) if b.ground() == 1));
}

#[test]
fn create_grass_abandons_the_load_when_the_map_is_malformed() {
    let nodes = vec![node("Ground", Some(MeshHandle(7)), 256_000)];
    let mut bytes = map();
    bytes.pop();
    assert!(matches!(
        create_grass(MeshHandle(7), &nodes, &bytes, MeshHandle(1), 42),
        Err(DecodeError::TruncatedRecord)
    ));
    assert!(matches!(
        create_grass(MeshHandle(7), &nodes, &[], MeshHandle(1), 42),
        Err(DecodeError::UnsupportedFormat)
    ));
    assert!(matches!(
        create_grass(MeshHandle(7), &Vec::new(), &[9, 9], MeshHandle(1), 42),
        Err(DecodeError::UnsupportedFormat)
    ));
}

#[test]
fn create_grass_on_a_scene_without_nodes_gives_no_outcome() {
    assert!(create_grass(MeshHandle(7), &Vec::new(), &map(), MeshHandle(1), 42).unwrap().is_empty());
}

#[test]
fn batch_grows_the_map_scaled_to_the_bounding_box() {
    let ground = node("Ground", Some(MeshHandle(7)), 128_000);
    let records = decode(&map()).unwrap();
    let batch = GrassBatch::grow(3, MeshHandle(5), &records, &ground.surface, 9);
    assert_eq!(batch.ground(), 3);
    assert_eq!(batch.mesh(), MeshHandle(5));
    assert_eq!(batch.instances().0, generate(&records, &ground.surface, 500, 1000, 9));
    assert_eq!(batch.into_instances().len(), 4);
}

#[test]
fn regenerate_replaces_every_instance() {
    let ground = node("Ground", Some(MeshHandle(7)), 256_000);
    let records = decode(&map()).unwrap();
    let mut batch = GrassBatch::grow(3, MeshHandle(5), &records, &ground.surface, 9);
    let first = batch.instances().0.clone();

    let reloaded = vec![
        PlacementRecord::Region { id: 2, x: 100, z: 100, w: 6, h: 6 },
        PlacementRecord::Region { id: 0, x: 0, z: 0, w: 6, h: 6 },
    ];
    batch.regenerate(&reloaded, &ground.surface, 9);
    assert_eq!(batch.ground(), 3);
    assert_eq!(batch.mesh(), MeshHandle(5));
    assert_eq!(batch.instances().len(), 9);
    assert_eq!(batch.instances().0, generate(&reloaded, &ground.surface, 1000, 2000, 9));
    for blade in &batch.instances().0 {
        assert!(!first.contains(blade));
    }

    batch.regenerate(&Vec::new(), &ground.surface, 9);
    assert_eq!(batch.instances().len(), 0);
    batch.regenerate(&records, &ground.surface, 9);
    assert_eq!(batch.instances().0, first);
}
