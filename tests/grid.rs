use nca_playground::grid::{hash, Grid, GridError};
use nca_playground::{NCAPlaygroundPlugin, SIM_HEIGHT, SIM_WIDTH, WORKGROUP_SIZE};

#[test]
fn grid_accepts_tile_multiples() {
    let g = Grid::new(16, 16).unwrap();
    assert_eq!(g.width, 16);
    assert_eq!(g.height, 16);
    assert_eq!(g.workgroups(), (2, 2));
}

#[test]
fn grid_rejects_empty_dimensions() {
    assert_eq!(Grid::new(0, 16), Err(GridError::Empty));
    assert_eq!(Grid::new(16, 0), Err(GridError::Empty));
}

#[test]
fn grid_rejects_misaligned_dimensions() {
    assert_eq!(Grid::new(12, 16), Err(GridError::NotTileAligned));
    assert_eq!(Grid::new(16, 1081), Err(GridError::NotTileAligned));
}

#[test]
fn configured_grid_splits_into_tiles() {
    let g = NCAPlaygroundPlugin.grid();
    assert_eq!((g.width, g.height), (SIM_WIDTH, SIM_HEIGHT));
    assert_eq!(g.workgroups(), (1920 / 8, 1080 / 8));
    assert_eq!(WORKGROUP_SIZE, 8);
    assert_eq!(Grid::new(1920, 1080), Ok(g));
}

#[test]
fn left_neighbor_of_column_zero_is_last_column() {
    let g = Grid::new(16, 16).unwrap();
    for y in 0..16 {
        assert_eq!(g.neighbor(0, y, -1, 0), (15, y));
        assert_eq!(g.neighbor(15, y, 1, 0), (0, y));
    }
}

#[test]
fn neighbors_wrap_at_every_edge() {
    let g = Grid::new(16, 8).unwrap();
    assert_eq!(g.neighbor(0, 0, -1, -1), (15, 7));
    assert_eq!(g.neighbor(15, 7, 1, 1), (0, 0));
    assert_eq!(g.neighbor(5, 3, 1, -1), (6, 2));
    assert_eq!(g.neighbor(5, 3, 0, 0), (5, 3));
}

#[test]
fn hash_matches_known_values() {
    assert_eq!(hash(0), 1739749167);
    assert_eq!(hash(1), 150776505);
    assert_eq!(hash(256), 2288774475);
}

#[test]
fn init_seed_offsets_each_channel_by_one_grid() {
    let g = Grid::new(16, 16).unwrap();
    assert_eq!(g.init_seed(0, 0), [1739749167, 2288774475, 590209461]);
    assert_eq!(g.init_seed(5, 3), [2651527919, 2057214828, 1618383832]);
}

#[test]
fn init_is_deterministic() {
    let a = Grid::new(16, 16).unwrap();
    let b = Grid::new(16, 16).unwrap();
    for y in 0..16 {
        for x in 0..16 {
            assert_eq!(a.init_seed(x, y), b.init_seed(x, y));
            assert_eq!(a.init_seed(x, y), a.init_seed(x, y));
        }
    }
    assert_ne!(a.init_seed(1, 0), a.init_seed(0, 1));
}

#[test]
fn every_channel_of_every_cell_gets_its_own_seed() {
    let g = Grid::new(16, 16).unwrap();
    let mut seeds = Vec::new();
    for y in 0..16 {
        for x in 0..16 {
            seeds.extend_from_slice(&g.init_seed(x, y));
        }
    }
    let total = seeds.len();
    seeds.sort_unstable();
    seeds.dedup();
    assert_eq!(total, 16 * 16 * 3);
    assert_eq!(seeds.len(), total);
}
