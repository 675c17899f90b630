use std::collections::HashSet;
use voxel_automata::chunk::{linear_index, ChunkBundle, ChunkCells, ChunkCellsNext, CHUNK_EDGE, CHUNK_VOLUME};
use voxel_automata::coord::Coord;
use voxel_automata::morton::{morton_encode, part1by2, ChunkKey};
use voxel_automata::rule::AutomataRule;
use voxel_automata::snapshot::{ChunkIndex, ChunkSnapshots};
use voxel_automata::state::{AutomataState, AUTOMATA_FLAG};
use voxel_automata::step::{apply_next_cells, count_active_neighbors, sample_cell, snapshot_chunks, step_chunks};

fn alive() -> AutomataState {
    AutomataState::from_components(1, AUTOMATA_FLAG)
}

#[test]
fn morton_keys_are_unique_for_local_region() {
    let mut seen = HashSet::new();
    for x in -2..=2 {
        for y in -2..=2 {
            for z in -2..=2 {
                let key = morton_encode(Coord::new(x, y, z));
                assert!(seen.insert(key));
            }
        }
    }
}

#[test]
fn neighbor_lookup_crosses_chunk_boundary() {
    let mut snapshots = ChunkSnapshots::default();

    let mut center = vec![AutomataState::default(); CHUNK_VOLUME];
    center[linear_index(Coord::new(CHUNK_EDGE - 1, CHUNK_EDGE - 1, CHUNK_EDGE - 1))] =
        AutomataState::from_components(1, AUTOMATA_FLAG);

    let mut neighbor = vec![AutomataState::default(); CHUNK_VOLUME];
    neighbor[linear_index(Coord::new(0, 0, 0))] = AutomataState::from_components(1, AUTOMATA_FLAG);

    snapshots.rebuild(vec![(Coord::zero(), center), (Coord::new(1, 1, 1), neighbor)]);

    let count = count_active_neighbors(
        &snapshots,
        Coord::zero(),
        Coord::new(CHUNK_EDGE - 1, CHUNK_EDGE - 1, CHUNK_EDGE - 1),
    );
    assert_eq!(count, 1);
}

#[test]
fn codec_round_trips() {
    for material in [0u8, 1, 7, 200, 255] {
        for flags in [0u8, 1, 0x80, 0xff] {
            let s = AutomataState::from_components(material, flags);
            assert_eq!(s.to_components(), (material, flags));
            assert_eq!(s.material(), material);
            assert_eq!(s.flags(), flags);
        }
    }
    for v in [0u16, 1, 0x0100, 0x1234, 0xffff] {
        assert_eq!(AutomataState::from_packed(v).to_packed(), v);
        assert_eq!(u16::from(AutomataState::from(v)), v);
    }
    assert_eq!(AutomataState::from_components(0x34, 0x12).to_packed(), 0x1234);
    assert_eq!(AutomataState::from((0x34u8, 0x12u8)).to_packed(), 0x1234);
}

#[test]
fn state_predicates() {
    let empty = AutomataState::default();
    assert!(empty.is_empty() && !empty.is_solid() && !empty.is_alive() && !empty.is_static());
    let rock = AutomataState::from_components(3, 0);
    assert!(!rock.is_empty() && rock.is_solid() && !rock.is_alive() && rock.is_static());
    let live = alive();
    assert!(live.is_solid() && live.is_alive() && !live.is_static());
    let flagged_air = AutomataState::from_components(0, AUTOMATA_FLAG);
    assert!(!flagged_air.is_empty() && !flagged_air.is_alive() && !flagged_air.is_static());
    assert_eq!(rock.with_material(9).to_components(), (9, 0));
    assert_eq!(rock.with_flags(0x40).to_components(), (3, 0x40));
}

#[test]
fn static_voxels_never_change() {
    let rule = AutomataRule::default();
    let rock = AutomataState::from_components(4, 0x80);
    for n in 0u8..=26 {
        assert_eq!(rule.next_state(rock, n), rock);
    }
}

#[test]
fn rule_birth_survival_and_death() {
    let mut rule = AutomataRule::default();
    let empty = AutomataState::default();
    assert_eq!(rule.next_state(empty, 5), AutomataState::from_components(1, AUTOMATA_FLAG));
    assert_eq!(rule.next_state(empty, 4), empty);
    assert_eq!(rule.next_state(alive(), 4), alive());
    assert_eq!(rule.next_state(alive(), 5), alive());
    assert_eq!(rule.next_state(alive(), 6), empty);
    assert_eq!(rule.next_state(alive(), 26), empty);

    rule.birth_flags = AUTOMATA_FLAG | 0x10;
    rule.birth_material = 7;
    rule.inactive_state = AutomataState::from_components(0, 0x20);
    let survivor = AutomataState::from_components(2, AUTOMATA_FLAG | 0x04);
    assert_eq!(rule.next_state(survivor, 4), AutomataState::from_components(2, AUTOMATA_FLAG | 0x14));
    assert_eq!(rule.next_state(empty, 5), AutomataState::from_components(7, AUTOMATA_FLAG | 0x10));
    assert_eq!(rule.next_state(survivor, 3), AutomataState::from_components(0, 0x20));
    assert_eq!(rule.alive_template(), AutomataState::from_components(7, AUTOMATA_FLAG | 0x10));
}

#[test]
fn rule_is_total_over_neighbor_counts() {
    let rule = AutomataRule::default();
    for v in [0u16, 1, 0x0100, 0x0101, 0x0201, 0xffff] {
        for n in 0u8..=26 {
            let _ = rule.next_state(AutomataState::from_packed(v), n);
        }
    }
}

#[test]
fn morton_key_values() {
    assert_eq!(part1by2(0b11), 0b1001);
    assert_eq!(part1by2(0x1f_ffff), 0x1249_2492_4924_9249);
    assert_eq!(part1by2(1 << 21), 0);
    let origin = (1u64 << 60) | (1u64 << 61) | (1u64 << 62);
    assert_eq!(morton_encode(Coord::zero()), origin);
    assert_eq!(morton_encode(Coord::new(1, 0, 0)), origin | 1);
    assert_eq!(morton_encode(Coord::new(0, 1, 0)), origin | 2);
    assert_eq!(morton_encode(Coord::new(0, 0, 1)), origin | 4);
    assert_eq!(morton_encode(Coord::new(-(1 << 20), -(1 << 20), -(1 << 20))), 0);
    let key = ChunkKey::new(Coord::new(3, -4, 5));
    assert_eq!(key.coords, Coord::new(3, -4, 5));
    assert_eq!(key.morton, morton_encode(Coord::new(3, -4, 5)));
}

#[test]
fn generator_fills_in_traversal_order() {
    let cells = ChunkCells::from_generator(|c: Coord| {
        AutomataState::from_components((c.x + c.y + c.z) as u8, (c.x as u8) & 0x0f)
    });
    assert_eq!(cells.as_slice().len(), CHUNK_VOLUME);
    assert_eq!(cells.as_slice()[linear_index(Coord::new(1, 2, 3))], AutomataState::from_components(6, 1));
    assert_eq!(cells.as_slice()[1], AutomataState::from_components(1, 0));
    assert_eq!(cells.as_slice()[32], AutomataState::from_components(1, 0));
    assert_eq!(cells.as_slice()[1024], AutomataState::from_components(1, 1));
    assert_eq!(linear_index(Coord::new(31, 31, 31)), CHUNK_VOLUME - 1);
}

#[test]
fn packed_import_and_export() {
    let mut cells = ChunkCells::filled(alive());
    assert!(cells.to_packed_vec().iter().all(|&v| v == 0x0101));
    let packed: Vec<u16> = (0..CHUNK_VOLUME).map(|i| i as u16).collect();
    cells.write_from_packed(&packed);
    assert_eq!(cells.to_packed_vec(), packed);
    assert_eq!(cells.clone_box()[5], AutomataState::from_packed(5));
    let uniform = vec![AutomataState::from_packed(9); CHUNK_VOLUME];
    cells.write_from_slice(&uniform);
    assert_eq!(cells.as_slice(), uniform.as_slice());
    let next = ChunkCellsNext::zeros();
    assert!(next.as_slice().iter().all(|s| s.is_empty()));
}

#[test]
fn snapshot_and_index_lookup() {
    let mut snapshots = ChunkSnapshots::default();
    assert!(snapshots.get(Coord::zero()).is_none());
    snapshots.rebuild(vec![
        (Coord::zero(), vec![AutomataState::from_packed(1); CHUNK_VOLUME]),
        (Coord::new(0, 0, 1), vec![AutomataState::from_packed(2); CHUNK_VOLUME]),
    ]);
    assert_eq!(snapshots.get(Coord::new(0, 0, 1)).unwrap()[0], AutomataState::from_packed(2));
    assert!(snapshots.get(Coord::new(0, 1, 0)).is_none());
    assert_eq!(sample_cell(&snapshots, Coord::zero(), Coord::new(0, 0, 32)), Some(AutomataState::from_packed(2)));
    assert_eq!(sample_cell(&snapshots, Coord::zero(), Coord::new(0, 0, -1)), None);
    assert_eq!(sample_cell(&snapshots, Coord::new(0, 0, 1), Coord::new(5, 5, -1)), Some(AutomataState::from_packed(1)));

    snapshots.rebuild(vec![
        (Coord::new(2, 2, 2), vec![AutomataState::from_packed(3); CHUNK_VOLUME]),
        (Coord::new(2, 2, 2), vec![AutomataState::from_packed(4); CHUNK_VOLUME]),
    ]);
    assert_eq!(snapshots.get(Coord::new(2, 2, 2)).unwrap()[7], AutomataState::from_packed(4));
    assert!(snapshots.get(Coord::zero()).is_none());

    let mut index = ChunkIndex::default();
    assert_eq!(index.entity(Coord::zero()), None);
    index.rebuild(vec![(Coord::zero(), 10), (Coord::new(1, 0, 0), 11), (Coord::zero(), 12)]);
    assert_eq!(index.entity(Coord::new(1, 0, 0)), Some(11));
    assert_eq!(index.entity(Coord::zero()), Some(12));
    assert_eq!(index.entity(Coord::new(2, 0, 0)), None);
    index.rebuild(vec![(Coord::new(2, 0, 0), 13)]);
    assert_eq!(index.entity(Coord::new(1, 0, 0)), None);
    assert_eq!(index.entity(Coord::new(2, 0, 0)), Some(13));
}

fn cube_chunk() -> ChunkBundle {
    ChunkBundle::from_generator(Coord::zero(), |c: Coord| {
        if (15..=17).contains(&c.x) && (15..=17).contains(&c.y) && (15..=17).contains(&c.z) {
            AutomataState::from_components(1, AUTOMATA_FLAG)
        } else {
            AutomataState::default()
        }
    })
}

#[test]
fn step_is_gated_on_requested_steps() {
    let mut chunks = vec![cube_chunk(), ChunkBundle::new(Coord::new(1, 0, 0))];
    let before: Vec<Vec<u16>> = chunks.iter().map(|c| c.cells.to_packed_vec()).collect();
    let mut snapshots = ChunkSnapshots::default();
    let rule = AutomataRule::default();
    snapshot_chunks(&mut snapshots, &chunks, 0);
    assert!(snapshots.get(Coord::zero()).is_none());
    let ran = step_chunks(&mut chunks, &snapshots, &rule, 0);
    assert!(!ran);
    let executed = apply_next_cells(&mut chunks, ran);
    assert!(!executed);
    let after: Vec<Vec<u16>> = chunks.iter().map(|c| c.cells.to_packed_vec()).collect();
    assert_eq!(before, after);
}

#[test]
fn commit_copies_next_into_current() {
    let mut chunks = vec![ChunkBundle::new(Coord::zero())];
    let marked: Vec<AutomataState> = (0..CHUNK_VOLUME).map(|i| AutomataState::from_packed((i % 7) as u16)).collect();
    chunks[0].next.as_mut_slice().copy_from_slice(&marked);
    let executed = apply_next_cells(&mut chunks, true);
    assert!(!executed);
    assert_eq!(chunks[0].cells.as_slice(), marked.as_slice());
    assert_eq!(chunks[0].next.as_slice(), marked.as_slice());
}

#[test]
fn cube_of_live_voxels_after_one_step() {
    let mut chunks = vec![cube_chunk()];
    let mut snapshots = ChunkSnapshots::default();
    let rule = AutomataRule::default();
    snapshot_chunks(&mut snapshots, &chunks, 1);
    let before = chunks[0].cells.clone_box();
    let ran = step_chunks(&mut chunks, &snapshots, &rule, 1);
    assert!(ran);
    apply_next_cells(&mut chunks, ran);
    let after = chunks[0].cells.as_slice();

    let at = |x: i32, y: i32, z: i32| after[linear_index(Coord::new(x, y, z))];
    assert_eq!(count_active_neighbors(&snapshots, Coord::zero(), Coord::new(16, 16, 16)), 26);
    assert_eq!(at(16, 16, 16), rule.inactive_state);
    assert_eq!(count_active_neighbors(&snapshots, Coord::zero(), Coord::new(15, 15, 15)), 7);
    assert_eq!(at(15, 15, 15), rule.inactive_state);
    assert_eq!(at(17, 17, 17), rule.inactive_state);
    assert_eq!(count_active_neighbors(&snapshots, Coord::zero(), Coord::new(16, 16, 14)), 9);
    assert_eq!(at(16, 16, 14), rule.inactive_state);

    for x in 0..CHUNK_EDGE {
        for y in 0..CHUNK_EDGE {
            for z in 0..CHUNK_EDGE {
                let idx = linear_index(Coord::new(x, y, z));
                let n = count_active_neighbors(&snapshots, Coord::zero(), Coord::new(x, y, z));
                if before[idx].is_empty() {
                    let born = n == 5;
                    assert_eq!(after[idx].is_alive(), born);
                } else {
                    assert!(before[idx].is_alive());
                    assert_eq!(after[idx].is_alive(), n == 4 || n == 5);
                }
            }
        }
    }
}
