use raycaster::tilemap::MapFormatError;
use raycaster::tilemap::TileMap;

/// A 16x16 map: all-wall border, empty interior.
fn bordered_map_symbols() -> Vec<u8> {
    let mut symbols = Vec::new();
    for y in 0..16 {
        for x in 0..16 {
            let wall = x == 0 || x == 15 || y == 0 || y == 15;
            symbols.push(if wall { b'1' } else { b'0' });
        }
    }
    symbols
}

#[test]
fn builds_from_exact_length_source() {
    let symbols = bordered_map_symbols();
    let map = TileMap::from_symbols(16, 16, &symbols).unwrap();
    assert_eq!(map.width(), 16);
    assert_eq!(map.height(), 16);
}

#[test]
fn is_wall_matches_source_symbols() {
    let symbols = bordered_map_symbols();
    let map = TileMap::from_symbols(16, 16, &symbols).unwrap();
    for y in 0..16usize {
        for x in 0..16usize {
            let expected = symbols[y * 16 + x] == b'1';
            assert_eq!(map.is_wall(x, y), expected);
        }
    }
}

#[test]
fn is_wall_is_deterministic() {
    let symbols = bordered_map_symbols();
    let map = TileMap::from_symbols(16, 16, &symbols).unwrap();
    for y in 0..16usize {
        for x in 0..16usize {
            assert_eq!(map.is_wall(x, y), map.is_wall(x, y));
        }
    }
}

#[test]
fn short_source_is_rejected() {
    let symbols = vec![b'0'; 255];
    let err = TileMap::from_symbols(16, 16, &symbols).unwrap_err();
    assert_eq!(err, MapFormatError { expected: 256, found: 255 });
}

#[test]
fn long_source_is_rejected() {
    let symbols = vec![b'1'; 300];
    let err = TileMap::from_symbols(16, 16, &symbols).unwrap_err();
    assert_eq!(err, MapFormatError { expected: 256, found: 300 });
}

#[test]
fn contains_accepts_exactly_the_grid() {
    let symbols = bordered_map_symbols();
    let map = TileMap::from_symbols(16, 16, &symbols).unwrap();
    assert!(map.contains(0, 0));
    assert!(map.contains(15, 15));
    assert!(!map.contains(-1, 4));
    assert!(!map.contains(4, -1));
    assert!(!map.contains(16, 4));
    assert!(!map.contains(4, 16));
}

#[test]
fn non_wall_symbols_are_empty_cells() {
    let symbols = vec![b'0', b'1', b'x', b'1'];
    let map = TileMap::from_symbols(2, 2, &symbols).unwrap();
    assert!(!map.is_wall(0, 0));
    assert!(map.is_wall(1, 0));
    assert!(!map.is_wall(0, 1));
    assert!(map.is_wall(1, 1));
}
