use std::cell::Cell;
use std::collections::HashMap;

use worldgen::fixed::ONE;
use worldgen::noise::perlin::PerlinNoise;
use worldgen::noise::NoiseProvider;
use worldgen::noisemap::{
    Combine, IdSource, NoiseMap, NoiseMapGenerator, NoiseMapGeneratorBase, Seed, Size, Step,
};
use worldgen::world::tile::{Constraint, ConstraintType};
use worldgen::world::{Tile, Unclassified, World};

fn fixed(value: f64) -> i64 {
    (value * ONE as f64).round() as i64
}

/// A source whose value tells the grid point and the seed it was asked for.
#[derive(Default, Clone, Copy)]
struct Plane;

impl NoiseProvider for Plane {
    fn generate(&self, x: i64, y: i64, seed: u64) -> i64 {
        (x / ONE) * 1000 + (y / ONE) * 10 + seed as i64
    }
}

/// A source with one value everywhere.
#[derive(Default, Clone, Copy)]
struct Level(i64);

impl NoiseProvider for Level {
    fn generate(&self, _x: i64, _y: i64, _seed: u64) -> i64 {
        self.0
    }
}

/// A source that counts how often it is asked.
#[derive(Clone, Copy)]
struct Counting {
    calls: &'static Cell<usize>,
}

impl Counting {
    fn new() -> Counting {
        Counting { calls: Box::leak(Box::new(Cell::new(0))) }
    }
}

impl Default for Counting {
    fn default() -> Counting {
        Counting::new()
    }
}

impl NoiseProvider for Counting {
    fn generate(&self, _x: i64, _y: i64, _seed: u64) -> i64 {
        self.calls.set(self.calls.get() + 1);
        0
    }
}

fn plane(seed: u64, ids: &mut IdSource) -> NoiseMap<Plane> {
    NoiseMap::new(Plane, ids).set(Seed::of_value(seed)).set(Step::of(ONE, ONE))
}

fn lt<G: NoiseMapGeneratorBase + 'static>(nm: Box<G>, threshold: i64) -> Constraint {
    Constraint::new(nm, ConstraintType::LT(threshold))
}

fn gt<G: NoiseMapGeneratorBase + 'static>(nm: Box<G>, threshold: i64) -> Constraint {
    Constraint::new(nm, ConstraintType::GT(threshold))
}

fn landscape(level: f64) -> World<char> {
    let mut ids = IdSource::new();
    let nm = Box::new(NoiseMap::new(Level(fixed(level)), &mut ids));
    World::new()
        .set(Size::of(4, 3))
        .add(Tile::new('~').when(lt(nm.clone(), fixed(-0.1))))
        .add(Tile::new(',').when(lt(nm.clone(), fixed(0.45))))
        .add(Tile::new('^').when(gt(nm, fixed(0.8))))
        .add(Tile::new('n'))
}

fn all(tile: char) -> Option<Vec<Vec<char>>> {
    Some(vec![vec![tile; 4]; 3])
}

#[test]
fn it_works() {
    let mut ids = IdSource::new();
    let noise = PerlinNoise::new();

    let nm1 = NoiseMap::new(noise, &mut ids)
        .set(Seed::of("Hello?"))
        .set(Step::of(fixed(0.005), fixed(0.005)));

    let nm2 = NoiseMap::new(noise, &mut ids)
        .set(Seed::of("Hello!"))
        .set(Step::of(fixed(0.05), fixed(0.05)));

    let nm = Box::new(nm1.add(nm2.mul(3, &mut ids), &mut ids));

    let world = World::new()
        .set(Size::of(80, 50))
        // Water
        .add(Tile::new('~').when(Constraint::new(nm.clone(), ConstraintType::LT(fixed(-0.1)))))
        // Grass
        .add(Tile::new(',').when(Constraint::new(nm.clone(), ConstraintType::LT(fixed(0.45)))))
        // Mountains
        .add(Tile::new('^').when(Constraint::new(nm, ConstraintType::GT(fixed(0.8)))))
        // Hills
        .add(Tile::new('n'));

    if let Some(chunk) = world.generate(0, 0) {
        for row in chunk {
            let mut line = String::new();
            for tile in row {
                line.push(tile);
            }

            println!("{}", line);
        }

        println!();
    }
}

#[test]
fn a_world_with_a_last_tile_for_everything_is_generated() {
    let mut ids = IdSource::new();
    let noise = PerlinNoise::new();
    let nm1 = NoiseMap::new(noise, &mut ids)
        .set(Seed::of("Hello?"))
        .set(Step::of(fixed(0.005), fixed(0.005)));
    let nm2 = NoiseMap::new(noise, &mut ids)
        .set(Seed::of("Hello!"))
        .set(Step::of(fixed(0.05), fixed(0.05)));
    let sum = nm1.add(nm2.mul(3, &mut ids), &mut ids);
    let nm = Box::new(sum);
    let world = World::new()
        .set(Size::of(80, 50))
        .add(Tile::new('~').when(lt(nm.clone(), fixed(-0.1))))
        .add(Tile::new(',').when(lt(nm.clone(), fixed(0.45))))
        .add(Tile::new('^').when(gt(nm, fixed(0.8))))
        .add(Tile::new('n'));

    let chunk = world.generate(0, 0).unwrap();
    let values = sum.generate_sized_chunk(Size::of(80, 50), 0, 0);
    assert_eq!(chunk.len(), 50);
    for r in 0..50 {
        assert_eq!(chunk[r].len(), 80);
        for c in 0..80 {
            let value = values[r][c];
            let expected = if value < fixed(-0.1) {
                '~'
            } else if value < fixed(0.45) {
                ','
            } else if value > fixed(0.8) {
                '^'
            } else {
                'n'
            };
            assert_eq!(chunk[r][c], expected);
        }
    }
    assert_eq!(world.generate(0, 0), world.generate(0, 0));
    assert_eq!(world.classify(3, -2), world.classify(3, -2));
    assert!(world.classify(3, -2).is_ok());
}

#[test]
fn the_first_tile_that_applies_is_chosen() {
    // below both of the first two thresholds: the first tile wins
    assert_eq!(landscape(-0.5).generate(0, 0), all('~'));
    // 0.4 is not below -0.1, and is below 0.45
    assert_eq!(landscape(0.4).generate(0, 0), all(','));
    assert_eq!(landscape(0.0).generate(0, 0), all(','));
    // 0.5 is not below 0.45, and not above 0.8: the last tile is left
    assert_eq!(landscape(0.5).generate(0, 0), all('n'));
    assert_eq!(landscape(0.9).generate(0, 0), all('^'));
    assert_eq!(landscape(0.9).generate(-7, 12), all('^'));
}

#[test]
fn thresholds_are_exclusive() {
    assert_eq!(landscape(-0.1).generate(0, 0), all(','));
    assert_eq!(landscape(0.45).generate(0, 0), all('n'));
    assert_eq!(landscape(0.8).generate(0, 0), all('n'));

    let mut ids = IdSource::new();
    let half = fixed(0.5);
    let nm = Box::new(NoiseMap::new(Level(half), &mut ids));
    let size = Size::of(2, 2);
    let mut nms = HashMap::new();
    assert!(!lt(nm.clone(), half).satisfied_by(0, 0, size, 0, 0, &mut nms));
    assert!(!gt(nm.clone(), half).satisfied_by(0, 0, size, 0, 0, &mut nms));
    assert!(lt(nm.clone(), half + 1).satisfied_by(0, 0, size, 0, 0, &mut nms));
    assert!(gt(nm.clone(), half - 1).satisfied_by(0, 0, size, 0, 0, &mut nms));
    assert!(!lt(nm.clone(), half - 1).satisfied_by(1, 1, size, 0, 0, &mut nms));
    assert!(!gt(nm, half + 1).satisfied_by(1, 1, size, 0, 0, &mut nms));
}

#[test]
fn a_cell_without_a_tile_fails_the_chunk() {
    let mut ids = IdSource::new();
    let nm = Box::new(NoiseMap::new(Level(0), &mut ids));
    let world = World::new()
        .set(Size::of(4, 3))
        .add(Tile::new('~').when(lt(nm.clone(), -ONE)))
        .add(Tile::new('^').when(gt(nm, ONE)));
    assert_eq!(world.generate(0, 0), None);
    assert_eq!(world.classify(0, 0), Err(Unclassified { chunk_x: 0, chunk_y: 0, x: 0, y: 0 }));
    assert_eq!(world.classify(2, -3), Err(Unclassified { chunk_x: 2, chunk_y: -3, x: 0, y: 0 }));
}

#[test]
fn the_first_cell_without_a_tile_is_reported() {
    let mut ids = IdSource::new();
    // chunk (0, 0) holds 0, 1000, 2000 in its first row and 10, 1010, 2010 in
    // its second
    let nm = Box::new(plane(0, &mut ids));
    let world = World::new().set(Size::of(3, 2)).add(Tile::new('a').when(lt(nm.clone(), 1500)));
    assert_eq!(world.classify(0, 0), Err(Unclassified { chunk_x: 0, chunk_y: 0, x: 2, y: 0 }));
    assert_eq!(world.generate(0, 0), None);

    let world = World::new().set(Size::of(3, 2)).add(Tile::new('a').when(lt(nm.clone(), 2005)));
    assert_eq!(world.classify(0, 0), Err(Unclassified { chunk_x: 0, chunk_y: 0, x: 2, y: 1 }));

    let world = World::new().set(Size::of(3, 2)).add(Tile::new('a').when(lt(nm.clone(), 1005)));
    assert_eq!(world.classify(0, 0), Err(Unclassified { chunk_x: 0, chunk_y: 0, x: 2, y: 0 }));
    // further to the left every cell is lower
    assert_eq!(world.classify(-1, 0), Ok(vec![vec!['a'; 3]; 2]));
    assert_eq!(world.classify(1, 0), Err(Unclassified { chunk_x: 1, chunk_y: 0, x: 0, y: 0 }));

    let world = World::new().set(Size::of(3, 2)).add(Tile::new('a').when(lt(nm, 2011)));
    assert_eq!(world.classify(0, 0), Ok(vec![vec!['a'; 3]; 2]));
}

#[test]
fn tiles_by_cell() {
    let mut ids = IdSource::new();
    // chunk (1, 0) holds 3000, 4000, 5000 and 3010, 4010, 5010
    let nm = Box::new(plane(0, &mut ids));
    let world = World::new()
        .set(Size::of(3, 2))
        .add(Tile::new("low").when(lt(nm.clone(), 4005)))
        .add(Tile::new("high").when(gt(nm.clone(), 5005)))
        .add(Tile::new("middle"));
    assert_eq!(
        world.classify(1, 0),
        Ok(vec![vec!["low", "low", "middle"], vec!["low", "middle", "high"]])
    );
    assert_eq!(world.generate(1, 0), world.classify(1, 0).ok());
}

#[test]
fn a_tile_needs_all_of_its_constraints() {
    let mut ids = IdSource::new();
    let nm = Box::new(plane(0, &mut ids));
    let other = Box::new(plane(5, &mut ids).set(Step::of(0, ONE)));
    // columns 1 and 2 of the first map, row 0 of the second
    let world = World::new()
        .set(Size::of(3, 2))
        .add(Tile::new(1).when(gt(nm.clone(), 500)).when(lt(other.clone(), 10)))
        .add(Tile::new(0));
    assert_eq!(world.classify(0, 0), Ok(vec![vec![0, 1, 1], vec![0, 0, 0]]));
}

#[test]
fn a_chunk_is_generated_once_for_each_noise_map() {
    let mut ids = IdSource::new();
    let source = Counting::new();
    let nm = Box::new(NoiseMap::new(source, &mut ids));
    let world = World::new()
        .set(Size::of(4, 3))
        .add(Tile::new('~').when(lt(nm.clone(), -5)))
        .add(Tile::new(',').when(lt(nm.clone(), -1)).when(gt(nm.clone(), -3)))
        .add(Tile::new('^').when(gt(nm, 5)))
        .add(Tile::new('n'));
    assert_eq!(world.generate(0, 0), all('n'));
    assert_eq!(source.calls.get(), 12);
    // the chunks are kept for one call only
    assert_eq!(world.generate(0, 0), all('n'));
    assert_eq!(source.calls.get(), 24);
}

#[test]
fn maps_with_identities_of_their_own_are_generated_each() {
    let mut ids = IdSource::new();
    let source = Counting::new();
    let first = NoiseMap::new(source, &mut ids);
    let second = NoiseMap::new(source, &mut ids);
    let scaled = first.mul(1, &mut ids);
    let world = World::new()
        .set(Size::of(4, 3))
        .add(Tile::new('a').when(gt(Box::new(first), 0)))
        .add(Tile::new('b').when(gt(Box::new(second), 0)))
        .add(Tile::new('c').when(gt(Box::new(scaled), 0)))
        .add(Tile::new('d').when(gt(Box::new(first), 1)))
        .add(Tile::new('n'));
    assert_eq!(world.generate(0, 0), all('n'));
    assert_eq!(source.calls.get(), 36);
}

#[test]
fn a_map_that_is_never_tested_is_not_generated() {
    let mut ids = IdSource::new();
    let tested = Counting::new();
    let skipped = Counting::new();
    let first = Box::new(NoiseMap::new(tested, &mut ids));
    let second = Box::new(NoiseMap::new(skipped, &mut ids));
    let world = World::new()
        .set(Size::of(2, 2))
        .add(Tile::new('a').when(gt(first, 0)).when(gt(second.clone(), 0)))
        .add(Tile::new('n'));
    assert_eq!(world.generate(0, 0), Some(vec![vec!['n'; 2]; 2]));
    assert_eq!(tested.calls.get(), 4);
    assert_eq!(skipped.calls.get(), 0);

    let world = World::new()
        .set(Size::of(2, 2))
        .add(Tile::new('n'))
        .add(Tile::new('a').when(gt(second, 0)));
    assert_eq!(world.generate(0, 0), Some(vec![vec!['n'; 2]; 2]));
    assert_eq!(skipped.calls.get(), 0);
}

#[test]
fn worlds_without_cells_or_without_tiles() {
    let empty: World<char> = World::new();
    assert_eq!(empty.generate(0, 0), Some(vec![]));
    assert_eq!(empty.classify(5, 5), Ok(vec![]));
    let empty: World<char> = World::default();
    assert_eq!(empty.generate(0, 0), Some(vec![]));
    let rows: World<char> = World::new().set(Size::of(0, 2));
    assert_eq!(rows.generate(0, 0), Some(vec![vec![], vec![]]));
    let rows: World<char> = World::new().set_size(Size::of(-1, 2));
    assert_eq!(rows.generate(0, 0), Some(vec![vec![], vec![]]));
    let none: World<char> = World::new().set(Size::of(2, -2)).add(Tile::new('n'));
    assert_eq!(none.generate(0, 0), Some(vec![]));
    let bare: World<char> = World::new().set(Size::of(2, 2));
    assert_eq!(bare.generate(0, 0), None);
    assert_eq!(bare.classify(1, 1), Err(Unclassified { chunk_x: 1, chunk_y: 1, x: 0, y: 0 }));
}

#[test]
fn tiles_are_tried_in_the_order_they_were_added() {
    let first: World<u8> = World::new().set(Size::of(1, 1)).add(Tile::new(1)).add(Tile::new(2));
    assert_eq!(first.generate(0, 0), Some(vec![vec![1]]));
    let second: World<u8> = World::new().add(Tile::new(2)).add(Tile::new(1)).set(Size::of(1, 1));
    assert_eq!(second.generate(0, 0), Some(vec![vec![2]]));
}

#[test]
fn a_tile_and_its_value() {
    let tile = Tile::new(String::from("grass"));
    assert_eq!(tile.value(), "grass");
    let mut nms = HashMap::new();
    assert!(tile.satisfied_by(0, 0, Size::of(1, 1), 0, 0, &mut nms));
    assert!(nms.is_empty());
}

#[test]
fn a_constraint_fills_the_chunks_at_hand() {
    let mut ids = IdSource::new();
    ids = {
        let mut later = ids;
        for _ in 0..5 {
            worldgen::noisemap::next_id(&mut later);
        }
        later
    };
    let nm = plane(0, &mut ids);
    assert_eq!(nm.id(), 5);
    let size = Size::of(3, 2);
    let constraint = lt(Box::new(nm), 4005);
    let mut nms = HashMap::new();
    // chunk (1, 0) holds 3000, 4000, 5000 and 3010, 4010, 5010
    assert!(constraint.satisfied_by(4, 0, size, 1, 0, &mut nms));
    assert_eq!(nms.len(), 1);
    assert_eq!(nms.get(&5), Some(&vec![vec![3000, 4000, 5000], vec![3010, 4010, 5010]]));
    assert!(!constraint.satisfied_by(5, 0, size, 1, 0, &mut nms));
    assert!(constraint.satisfied_by(3, 1, size, 1, 0, &mut nms));
    assert!(!constraint.satisfied_by(4, 1, size, 1, 0, &mut nms));
    assert_eq!(nms.len(), 1);
}

#[test]
fn a_constraint_uses_the_chunk_at_hand() {
    let mut ids = IdSource::new();
    let source = Counting::new();
    let nm = NoiseMap::new(source, &mut ids);
    let constraint = gt(Box::new(nm), 5);
    let size = Size::of(2, 1);
    let mut nms = HashMap::new();
    nms.insert(nm.id(), vec![vec![3, 7]]);
    assert!(!constraint.satisfied_by(0, 0, size, 0, 0, &mut nms));
    assert!(constraint.satisfied_by(1, 0, size, 0, 0, &mut nms));
    assert_eq!(source.calls.get(), 0);
    assert_eq!(nms.get(&nm.id()), Some(&vec![vec![3, 7]]));
}

#[test]
fn grid_points_wrap_around_the_chunk() {
    let mut ids = IdSource::new();
    let nm = plane(0, &mut ids);
    let size = Size::of(3, 2);
    let constraint = gt(Box::new(nm), 1500);
    let mut nms = HashMap::new();
    // chunk (0, 0) holds 0, 1000, 2000 and 10, 1010, 2010
    assert!(constraint.satisfied_by(2, 0, size, 0, 0, &mut nms));
    assert!(constraint.satisfied_by(5, 0, size, 0, 0, &mut nms));
    assert!(constraint.satisfied_by(-1, 0, size, 0, 0, &mut nms));
    assert!(constraint.satisfied_by(-1, -1, size, 0, 0, &mut nms));
    assert!(!constraint.satisfied_by(3, 2, size, 0, 0, &mut nms));
    assert!(!constraint.satisfied_by(-2, 7, size, 0, 0, &mut nms));
    assert_eq!(
        constraint.satisfied_by(i64::MAX, i64::MIN, size, 0, 0, &mut nms),
        i64::MAX % 3 == 2
    );
}

#[test]
fn a_tile_stops_at_the_first_constraint_that_fails() {
    let mut ids = IdSource::new();
    let first = plane(0, &mut ids);
    let second = plane(1, &mut ids);
    let size = Size::of(2, 2);
    let tile = Tile::new('x').when(lt(Box::new(first), 500)).when(gt(Box::new(second), 5));
    let mut nms = HashMap::new();
    // column 1 fails the first constraint: the second map is not touched
    assert!(!tile.satisfied_by(1, 0, size, 0, 0, &mut nms));
    assert_eq!(nms.len(), 1);
    assert!(nms.contains_key(&first.id()));
    // column 0 passes the first and fails the second in row 0
    assert!(!tile.satisfied_by(0, 0, size, 0, 0, &mut nms));
    assert_eq!(nms.len(), 2);
    assert!(tile.satisfied_by(0, 1, size, 0, 0, &mut nms));
    assert_eq!(nms.len(), 2);
}

#[test]
fn noise_maps_of_other_sizes_are_cut_at_the_size_of_the_world() {
    let mut ids = IdSource::new();
    let small = plane(0, &mut ids).set(Size::of(1, 1));
    let large = plane(0, &mut ids).set(Size::of(9, 9));
    let world = World::new()
        .set(Size::of(3, 2))
        .add(Tile::new('a').when(gt(Box::new(small), 1500)))
        .add(Tile::new('b').when(gt(Box::new(large), 500)))
        .add(Tile::new('c'));
    assert_eq!(world.classify(0, 0), Ok(vec![vec!['c', 'b', 'a'], vec!['c', 'b', 'a']]));
}
