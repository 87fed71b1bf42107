use raycaster::grid::GridMap;
use raycaster::params::{MAP_HEIGHT, MAP_WIDTH};
use raycaster::space::{FormatError, Space};

#[test]
fn wall_and_empty_are_read_from_their_characters() {
    assert_eq!(Space::from_char('#'), Ok(Space::Wall));
    assert_eq!(Space::from_char('.'), Ok(Space::Empty));
}

#[test]
fn other_characters_are_no_cells() {
    for c in [' ', 'x', '0', '\n', '\u{2588}', 'W'] {
        assert_eq!(Space::from_char(c), Err(FormatError::UnknownCell));
    }
}

#[test]
fn cells_are_written_as_their_characters() {
    assert_eq!(Space::Wall.to_char(), '#');
    assert_eq!(Space::Empty.to_char(), '.');
}

#[test]
fn writing_and_reading_a_cell_gives_it_back() {
    for cell in [Space::Wall, Space::Empty] {
        assert_eq!(Space::from_char(cell.to_char()), Ok(cell));
    }
}

#[test]
fn a_cell_is_empty_by_default() {
    assert_eq!(Space::default(), Space::Empty);
}

#[test]
fn an_empty_map_has_no_walls() {
    let map = GridMap::empty();
    for y in 0..MAP_HEIGHT {
        for x in 0..MAP_WIDTH {
            assert_eq!(map.cell_at(x, y), Space::Empty);
        }
    }
    let map = GridMap::default();
    for y in 0..MAP_HEIGHT {
        for x in 0..MAP_WIDTH {
            assert_eq!(map.cell_at(x, y), Space::Empty);
        }
    }
}

#[test]
fn the_standard_map_is_a_walled_room() {
    let map = GridMap::standard();
    for y in 0..MAP_HEIGHT {
        for x in 0..MAP_WIDTH {
            let edge = x == 0 || x == 15 || y == 0 || y == 15;
            let expected = if edge { Space::Wall } else { Space::Empty };
            assert_eq!(map.cell_at(x, y), expected, "cell ({}, {})", x, y);
        }
    }
}

#[test]
fn set_line_replaces_one_line() {
    let mut map = GridMap::standard();
    let row = "#.#.....#...##.#";
    assert_eq!(map.set_line(4, row), Ok(()));
    for (x, c) in row.chars().enumerate() {
        assert_eq!(map.cell_at(x, 4) == Space::Wall, c == '#', "column {}", x);
        assert_eq!(map.cell_at(x, 4).to_char(), c);
    }
    let untouched = GridMap::standard();
    for y in 0..MAP_HEIGHT {
        if y != 4 {
            for x in 0..MAP_WIDTH {
                assert_eq!(map.cell_at(x, y), untouched.cell_at(x, y));
            }
        }
    }
}

#[test]
fn set_line_can_empty_a_wall() {
    let mut map = GridMap::standard();
    assert_eq!(map.set_line(0, "................"), Ok(()));
    for x in 0..MAP_WIDTH {
        assert_eq!(map.cell_at(x, 0), Space::Empty);
    }
    assert_eq!(map.cell_at(0, 1), Space::Wall);
}

#[test]
fn set_line_rejects_a_short_row() {
    let mut map = GridMap::standard();
    assert_eq!(map.set_line(3, "###############"), Err(FormatError::RowLength));
    assert_eq!(map.set_line(3, ""), Err(FormatError::RowLength));
    assert_eq!(map.cell_at(1, 3), Space::Empty);
    assert_eq!(map.cell_at(0, 3), Space::Wall);
}

#[test]
fn set_line_rejects_a_long_row() {
    let mut map = GridMap::empty();
    assert_eq!(map.set_line(3, "#################"), Err(FormatError::RowLength));
    for x in 0..MAP_WIDTH {
        assert_eq!(map.cell_at(x, 3), Space::Empty);
    }
}

#[test]
fn set_line_rejects_a_line_beyond_the_map() {
    let mut map = GridMap::empty();
    assert_eq!(map.set_line(16, "################"), Err(FormatError::RowIndex));
    assert_eq!(map.set_line(usize::MAX, "################"), Err(FormatError::RowIndex));
    assert_eq!(map.set_line(15, "################"), Ok(()));
}

#[test]
fn set_line_rejects_an_unknown_character_and_changes_nothing() {
    let mut map = GridMap::empty();
    assert_eq!(map.set_line(2, "#######x########"), Err(FormatError::UnknownCell));
    assert_eq!(map.set_line(2, "###############\u{e9}"), Err(FormatError::UnknownCell));
    for x in 0..MAP_WIDTH {
        assert_eq!(map.cell_at(x, 2), Space::Empty);
    }
}

#[test]
fn the_length_of_a_row_is_judged_before_its_line_and_its_characters() {
    let mut map = GridMap::empty();
    assert_eq!(map.set_line(40, "xyz"), Err(FormatError::RowLength));
    assert_eq!(map.set_line(40, "xxxxxxxxxxxxxxxx"), Err(FormatError::RowIndex));
    assert_eq!(map.set_line(4, "xxxxxxxxxxxxxxxx"), Err(FormatError::UnknownCell));
}

#[test]
fn build_from_rows_reads_the_given_lines_and_leaves_the_rest_empty() {
    let rows = ["################", "#..............#", "#.#.....#...##.#"];
    let map = GridMap::build_from_rows(&rows).unwrap();
    for (y, row) in rows.iter().enumerate() {
        for (x, c) in row.chars().enumerate() {
            assert_eq!(map.cell_at(x, y) == Space::Wall, c == '#');
        }
    }
    for y in 3..MAP_HEIGHT {
        for x in 0..MAP_WIDTH {
            assert_eq!(map.cell_at(x, y), Space::Empty);
        }
    }
}

#[test]
fn build_from_rows_of_nothing_is_the_empty_map() {
    let map = GridMap::build_from_rows(&[]).unwrap();
    for y in 0..MAP_HEIGHT {
        for x in 0..MAP_WIDTH {
            assert_eq!(map.cell_at(x, y), Space::Empty);
        }
    }
}

#[test]
fn build_from_rows_reports_the_first_bad_row() {
    let short = ["################", "#....#", "#######x########"];
    assert_eq!(GridMap::build_from_rows(&short).err(), Some(FormatError::RowLength));
    let unknown = ["################", "#######x########", "#....#"];
    assert_eq!(GridMap::build_from_rows(&unknown).err(), Some(FormatError::UnknownCell));
}

#[test]
fn build_from_rows_rejects_a_seventeenth_row() {
    let rows = ["................"; 17];
    assert_eq!(GridMap::build_from_rows(&rows).err(), Some(FormatError::RowIndex));
    let rows = ["................"; 16];
    assert!(GridMap::build_from_rows(&rows).is_ok());
}

#[test]
fn build_from_rows_agrees_with_the_standard_map() {
    let mut rows = vec!["#..............#"; 16];
    rows[0] = "################";
    rows[15] = "################";
    let built = GridMap::build_from_rows(&rows).unwrap();
    let standard = GridMap::standard();
    for y in 0..MAP_HEIGHT {
        for x in 0..MAP_WIDTH {
            assert_eq!(built.cell_at(x, y), standard.cell_at(x, y));
        }
    }
}
