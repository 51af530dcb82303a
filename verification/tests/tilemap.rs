use lazr::direction::{Angle, Direction};
use lazr::tilemap::{Placement, Tile, Tilemap};
use lazr::vector::Vector;

#[test]
fn a_new_map_is_empty() {
    let map = Tilemap::new(3, 2);
    assert_eq!(map.size(), (3, 2));
    assert_eq!(map.len(), 6);
    for index in 0..6u32 {
        assert_eq!(map[index], Tile::Empty);
    }
}

#[test]
fn a_map_without_rows_has_no_tiles() {
    let map = Tilemap::new(4, 0);
    assert_eq!(map.size(), (4, 0));
    assert_eq!(map.len(), 0);
    assert_eq!(map.layout(100), vec![]);
}

#[test]
fn writing_a_tile_leaves_the_others() {
    let mut map = Tilemap::new(3, 2);
    map[4u32] = Tile::Mirror { normal: Direction::West };
    for index in 0..6u32 {
        let expected =
            if index == 4 { Tile::Mirror { normal: Direction::West } } else { Tile::Empty };
        assert_eq!(map[index], expected);
    }
    assert_eq!(map.size(), (3, 2));
}

#[test]
fn a_vector_names_column_then_row() {
    let mut map = Tilemap::new(3, 2);
    map[5u32] = Tile::Mirror { normal: Direction::North };
    map[1u32] = Tile::Mirror { normal: Direction::South };
    assert_eq!(map[Vector::new([2u32, 1])], Tile::Mirror { normal: Direction::North });
    assert_eq!(map[Vector::new([1u32, 0])], Tile::Mirror { normal: Direction::South });
    assert_eq!(map[Vector::new([0u32, 1])], Tile::Empty);
}

#[test]
fn a_copy_holds_the_same_tiles() {
    let mut map = Tilemap::new(2, 2);
    map[3u32] = Tile::Mirror { normal: Direction::Northeast };
    let copy = map.clone();
    assert_eq!(copy, map);
    assert_eq!(copy[3u32], Tile::Mirror { normal: Direction::Northeast });
}

#[test]
fn layout_places_squares_row_by_row() {
    let mut map = Tilemap::new(3, 2);
    map[4u32] = Tile::Mirror { normal: Direction::East };
    let placements = map.layout(100);
    let mirror = Tile::Mirror { normal: Direction::East };
    assert_eq!(
        placements,
        vec![
            Placement { tile: Tile::Empty, x: 0, y: 0, size: 33 },
            Placement { tile: Tile::Empty, x: 33, y: 0, size: 33 },
            Placement { tile: Tile::Empty, x: 66, y: 0, size: 33 },
            Placement { tile: Tile::Empty, x: 0, y: 33, size: 33 },
            Placement { tile: mirror, x: 33, y: 33, size: 33 },
            Placement { tile: Tile::Empty, x: 66, y: 33, size: 33 },
        ]
    );
}

#[test]
fn layout_on_a_surface_narrower_than_the_map() {
    let map = Tilemap::new(4, 1);
    for placement in map.layout(3) {
        assert_eq!(placement, Placement { tile: Tile::Empty, x: 0, y: 0, size: 0 });
    }
}

#[test]
fn a_mirror_is_drawn_a_quarter_turn_from_its_normal() {
    let angle = |normal| Tile::Mirror { normal }.stroke_angle();
    assert_eq!(angle(Direction::East), Some(Angle::from_octants(2)));
    assert_eq!(angle(Direction::Northeast), Some(Angle::from_octants(1)));
    assert_eq!(angle(Direction::North), Some(Angle::from_octants(0)));
    assert_eq!(angle(Direction::Northwest), Some(Angle::from_octants(7)));
    assert_eq!(angle(Direction::Southeast), Some(Angle::from_octants(3)));
}

#[test]
fn an_empty_tile_is_not_drawn() {
    assert_eq!(Tile::Empty.stroke_angle(), None);
}
