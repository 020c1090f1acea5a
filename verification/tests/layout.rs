use sktablelayout::{CellProperties, Placement, Size, TableLayout};

#[test]
fn expanding_layout() {
    let mut engine = TableLayout::new();
    engine.with_cell(
        CellProperties::new()
            .anchor_right()
            .anchor_bottom()
            .preferred_size(Size { width: 64, height: 64 }),
    );
    engine.with_cell(
        CellProperties::new()
            .anchor_top()
            .anchor_left()
            .expand_horizontal()
            .preferred_size(Size { width: 64, height: 64 }),
    );
    engine.with_cell(
        CellProperties::new()
            .anchor_right()
            .expand_horizontal()
            .fill_horizontal()
            .preferred_size(Size { width: 64, height: 64 }),
    );
    engine.with_row();
    engine.with_cell(
        CellProperties::new()
            .colspan(3)
            .expand_vertical()
            .anchor_bottom()
            .fill_horizontal()
            .preferred_size(Size { width: 64, height: 64 }),
    );
    let placed = engine.impose(320, 240);
    assert_eq!(placed.len(), 4);
    for p in placed.iter() {
        println!("{} {} {} {}", p.x, p.y, p.width, p.height);
    }

    assert_eq!(placed[0].x, 0);
    assert_eq!(placed[0].y, 0);
    // these are expand, not fill, so the cell takes up extra space but the
    // child item actually doesn't use it
    assert_eq!(placed[0].width, 64);
    assert_eq!(placed[0].height, 64);

    // first column is neither expand nor fill horizontal, so should be
    // packed as preferred width
    assert_eq!(placed[1].x, 64);
    assert_eq!(placed[1].y, 0);
    assert_eq!(placed[1].width, 64);
    assert_eq!(placed[1].height, 64);

    assert_eq!(placed[2].y, 0);
    assert_eq!(placed[2].height, 64);

    assert_eq!(placed[3].x, 0);
    assert_eq!(placed[3].y, 240 - 64);
    assert_eq!(placed[3].width, 320);
}

#[test]
fn shrinking_layout() {
    let mut engine = TableLayout::new();
    engine.with_cell(CellProperties::new().preferred_size(Size { width: 64, height: 64 }));
    engine.with_cell(CellProperties::new().preferred_size(Size { width: 64, height: 64 }));
    engine.with_row();
    engine.with_cell(
        CellProperties::new().colspan(2).preferred_size(Size { width: 64, height: 64 }),
    );
    let placed = engine.impose(32, 32);
    assert_eq!(placed.len(), 3);
    for p in placed.iter() {
        println!("{} {} {} {}", p.x, p.y, p.width, p.height);
    }

    assert_eq!(placed[0].x, 0);
    assert_eq!(placed[0].y, 0);
    assert_eq!(placed[0].width, 16);
    assert_eq!(placed[0].height, 16);

    assert_eq!(placed[1].x, 16);
    assert_eq!(placed[1].y, 0);
    assert_eq!(placed[1].width, 16);
    assert_eq!(placed[1].height, 16);

    assert_eq!(placed[2].x, 0);
    assert_eq!(placed[2].y, 16);
    assert_eq!(placed[2].width, 32);
    assert_eq!(placed[2].height, 16);
}

#[test]
fn centered_layout() {
    let mut engine = TableLayout::new();
    engine.with_cell(
        CellProperties::new()
            .anchor_horizontal_center()
            .anchor_vertical_center()
            .expand()
            .preferred_size(Size { width: 32, height: 32 }),
    );
    let placed = engine.impose(64, 64);
    assert_eq!(placed.len(), 1);
    println!("{} {} {} {}", placed[0].x, placed[0].y, placed[0].width, placed[0].height);
    assert_eq!(placed[0].x, 16);
    assert_eq!(placed[0].y, 16);
    assert_eq!(placed[0].width, 32);
    assert_eq!(placed[0].height, 32);
}

#[test]
fn padded_big_cell() {
    let mut engine = TableLayout::new();
    engine.with_cell(CellProperties::new().expand().fill().padding_all(16));
    let placed = engine.impose(64, 64);
    assert_eq!(placed.len(), 1);
    println!("{} {} {} {}", placed[0].x, placed[0].y, placed[0].width, placed[0].height);
    assert_eq!(placed[0].x, 16);
    assert_eq!(placed[0].y, 16);
    assert_eq!(placed[0].width, 32);
    assert_eq!(placed[0].height, 32);
}

#[test]
fn single_plain_cell_keeps_its_preferred_size() {
    let mut engine = TableLayout::new();
    engine.with_cell(CellProperties::new().preferred_size(Size { width: 64, height: 64 }));
    let placed = engine.impose(320, 240);
    assert_eq!(placed, vec![Placement { cell: 0, x: 0, y: 0, width: 64, height: 64 }]);
}

#[test]
fn empty_program_places_nothing() {
    let engine = TableLayout::new();
    assert_eq!(engine.get_rows_cols(), (0, 0));
    assert!(engine.impose(320, 240).is_empty());
}

#[test]
fn program_without_columns_places_nothing() {
    let mut engine = TableLayout::new();
    engine.with_cell(CellProperties::new().colspan(0).preferred_size(Size { width: 64, height: 64 }));
    engine.with_row();
    engine.with_cell(CellProperties::new().colspan(0).expand());
    engine.with_row();
    assert_eq!(engine.get_rows_cols(), (2, 0));
    assert!(engine.impose(320, 240).is_empty());
    assert!(engine.impose(0, 0).is_empty());
}

#[test]
fn expanding_cell_reserves_the_spare_width_but_keeps_its_box() {
    let mut engine = TableLayout::new();
    engine.with_cell(CellProperties::new().preferred_size(Size { width: 64, height: 64 }));
    engine.with_cell(
        CellProperties::new().expand_horizontal().preferred_size(Size { width: 64, height: 64 }),
    );
    let placed = engine.impose(320, 64);
    assert_eq!(
        placed,
        vec![
            Placement { cell: 0, x: 0, y: 0, width: 64, height: 64 },
            Placement { cell: 1, x: 64, y: 0, width: 64, height: 64 },
        ]
    );

    // The second column is 320 - 64 wide: a box anchored to its right edge
    // ends at 320.
    let mut anchored = TableLayout::new();
    anchored.with_cell(CellProperties::new().preferred_size(Size { width: 64, height: 64 }));
    anchored.with_cell(
        CellProperties::new()
            .expand_horizontal()
            .anchor_right()
            .preferred_size(Size { width: 64, height: 64 }),
    );
    let placed = anchored.impose(320, 64);
    assert_eq!(placed[1], Placement { cell: 1, x: 256, y: 0, width: 64, height: 64 });
}

#[test]
fn cursor_advances_by_the_allotted_width() {
    let mut engine = TableLayout::new();
    engine.with_cell(
        CellProperties::new().expand_horizontal().preferred_size(Size { width: 10, height: 10 }),
    );
    engine.with_cell(CellProperties::new().preferred_size(Size { width: 20, height: 10 }));
    let placed = engine.impose(100, 10);
    // The first column takes the 70 spare units; its box stays 10 wide.
    assert_eq!(placed[0], Placement { cell: 0, x: 0, y: 0, width: 10, height: 10 });
    assert_eq!(placed[1], Placement { cell: 1, x: 80, y: 0, width: 20, height: 10 });
}

#[test]
fn two_cells_share_a_deficit_evenly() {
    let mut engine = TableLayout::new();
    engine.with_cell(CellProperties::new().preferred_size(Size { width: 64, height: 64 }));
    engine.with_cell(CellProperties::new().preferred_size(Size { width: 64, height: 64 }));
    let placed = engine.impose(32, 32);
    assert_eq!(
        placed,
        vec![
            Placement { cell: 0, x: 0, y: 0, width: 16, height: 32 },
            Placement { cell: 1, x: 16, y: 0, width: 16, height: 32 },
        ]
    );
}

#[test]
fn imposing_twice_gives_the_same_placements() {
    let mut engine = TableLayout::new();
    engine.with_cell(
        CellProperties::new().expand().fill().padding_all(3).preferred_size(Size {
            width: 17,
            height: 5,
        }),
    );
    engine.with_cell(CellProperties::new().anchor_center().preferred_size(Size {
        width: 9,
        height: 40,
    }));
    engine.with_row();
    engine.with_cell(CellProperties::new().colspan(2).anchor_bottom().preferred_size(Size {
        width: 100,
        height: 11,
    }));
    let first = engine.impose(211, 97);
    let second = engine.impose(211, 97);
    assert_eq!(first, second);
    assert_eq!(first.len(), 3);
}

#[test]
fn new_dimensions_recompute_the_whole_layout() {
    let mut engine = TableLayout::new();
    engine.with_cell(
        CellProperties::new().expand().fill().preferred_size(Size { width: 10, height: 10 }),
    );
    engine.with_cell(CellProperties::new().preferred_size(Size { width: 10, height: 10 }));
    let wide = engine.impose(100, 50);
    let narrow = engine.impose(40, 20);
    let wide_again = engine.impose(100, 50);
    assert_eq!(
        wide,
        vec![
            Placement { cell: 0, x: 0, y: 0, width: 90, height: 50 },
            Placement { cell: 1, x: 90, y: 0, width: 10, height: 10 },
        ]
    );
    assert_eq!(
        narrow,
        vec![
            Placement { cell: 0, x: 0, y: 0, width: 30, height: 20 },
            Placement { cell: 1, x: 30, y: 0, width: 10, height: 10 },
        ]
    );
    assert_eq!(wide, wide_again);
}

#[test]
fn same_program_with_other_defaults_is_laid_out_alike() {
    let cell = CellProperties::new().expand().preferred_size(Size { width: 12, height: 7 });
    let mut plain = TableLayout::new();
    plain.with_cell(cell);
    plain.with_row();
    plain.with_cell(cell);

    let mut other = TableLayout::new();
    other.cell_defaults = CellProperties::new().fill().padding_all(9);
    other.row_defaults.insert(1, CellProperties::new().colspan(4));
    other.column_defaults.insert(0, CellProperties::new().uniform());
    other.with_cell(cell);
    other.with_row();
    other.with_cell(cell);

    assert_eq!(plain.impose(50, 60), other.impose(50, 60));
}

#[test]
fn ghost_cells_are_skipped() {
    let mut engine = TableLayout::new();
    engine.with_cell(CellProperties::new().colspan(0).preferred_size(Size { width: 500, height: 500 }));
    engine.with_cell(CellProperties::new().preferred_size(Size { width: 10, height: 10 }));
    engine.with_cell(CellProperties::new().colspan(0).expand());
    engine.with_row();
    engine.with_cell(CellProperties::new().colspan(0));
    assert_eq!(engine.get_rows_cols(), (1, 1));
    let placed = engine.impose(10, 10);
    assert_eq!(placed, vec![Placement { cell: 1, x: 0, y: 0, width: 10, height: 10 }]);
}

#[test]
fn every_spanning_cell_is_placed_once_in_program_order() {
    let mut engine = TableLayout::new();
    engine.with_cell(CellProperties::new());
    engine.with_cell(CellProperties::new().colspan(0));
    engine.with_cell(CellProperties::new().colspan(2));
    engine.with_row();
    engine.with_row();
    engine.with_cell(CellProperties::new().colspan(3));
    let placed = engine.impose(30, 30);
    let cells: Vec<usize> = placed.iter().map(|p| p.cell).collect();
    assert_eq!(cells, vec![0, 2, 5]);
}

#[test]
fn rows_stack_by_their_resolved_heights() {
    let mut engine = TableLayout::new();
    engine.with_cell(CellProperties::new().preferred_size(Size { width: 10, height: 10 }));
    engine.with_row();
    engine.with_cell(
        CellProperties::new().expand_vertical().preferred_size(Size { width: 10, height: 20 }),
    );
    engine.with_row();
    engine.with_cell(CellProperties::new().preferred_size(Size { width: 10, height: 30 }));
    let placed = engine.impose(10, 100);
    // 40 spare units go to the second row.
    assert_eq!(placed[0].y, 0);
    assert_eq!(placed[1].y, 10);
    assert_eq!(placed[2].y, 70);
    assert_eq!(placed[2].height, 30);
}

#[test]
fn spanning_cell_spreads_its_padded_width_over_its_columns() {
    let mut engine = TableLayout::new();
    engine.with_cell(
        CellProperties::new().colspan(3).padding_left(6).preferred_size(Size {
            width: 90,
            height: 10,
        }),
    );
    let m = engine.measure();
    let widths: Vec<i64> = m.col_sizes.iter().map(|s| s.preferred.width).collect();
    assert_eq!(widths, vec![32, 32, 32]);
    // The row is asked for the whole height, without padding.
    assert_eq!(m.row_sizes[0].preferred, Size { width: 90, height: 10 });
    let placed = engine.impose(96, 10);
    assert_eq!(placed, vec![Placement { cell: 0, x: 6, y: 0, width: 90, height: 10 }]);
}

#[test]
fn areas_of_cells_do_not_overlap() {
    // Filling cells without padding take up their whole area.
    let filling = CellProperties::new().fill();
    let mut engine = TableLayout::new();
    engine.with_cell(filling.preferred_size(Size { width: 30, height: 10 }).expand_horizontal());
    engine.with_cell(filling.preferred_size(Size { width: 50, height: 25 }));
    engine.with_cell(filling.colspan(2).preferred_size(Size { width: 41, height: 5 }));
    engine.with_row();
    engine.with_cell(filling.colspan(3).preferred_size(Size { width: 10, height: 10 }));
    engine.with_cell(filling.preferred_size(Size { width: 7, height: 70 }).expand_vertical());
    engine.with_row();
    engine.with_row();
    engine.with_cell(filling.colspan(4).preferred_size(Size { width: 10, height: 10 }));
    for (width, height) in [(500, 400), (60, 50), (7, 3), (0, 0), (-20, -20)] {
        let placed = engine.impose(width, height);
        assert_eq!(placed.len(), 6);
        let row_of = [0, 0, 0, 1, 1, 3];
        for i in 0..placed.len() {
            assert!(placed[i].width >= 0 && placed[i].height >= 0);
            for j in i + 1..placed.len() {
                if row_of[i] == row_of[j] {
                    assert!(placed[i].x + placed[i].width <= placed[j].x);
                } else {
                    assert!(placed[i].y + placed[i].height <= placed[j].y);
                }
            }
        }
    }
}

#[test]
fn columns_take_up_the_width_when_one_expands() {
    let mut engine = TableLayout::new();
    engine.with_cell(CellProperties::new().fill().expand_horizontal());
    engine.with_cell(CellProperties::new().fill().preferred_size(Size { width: 11, height: 1 }));
    engine.with_cell(CellProperties::new().fill().expand_horizontal());
    engine.with_cell(CellProperties::new().fill().expand_horizontal());
    let placed = engine.impose(100, 10);
    let widths: Vec<i64> = placed.iter().map(|p| p.width).collect();
    // 89 spare units among three columns: 29 each, 2 left over.
    assert_eq!(widths, vec![29, 11, 29, 29]);
    assert_eq!(placed[3].x + placed[3].width, 100 - 89 % 3);
}

#[test]
fn roomy_table_keeps_preferred_widths() {
    let mut engine = TableLayout::new();
    engine.with_cell(
        CellProperties::new().padding_left(4).padding_right(5).preferred_size(Size {
            width: 31,
            height: 10,
        }),
    );
    engine.with_cell(CellProperties::new().expand().preferred_size(Size { width: 9, height: 2 }));
    engine.with_row();
    engine.with_cell(CellProperties::new().colspan(2).preferred_size(Size { width: 17, height: 3 }));
    for width in [49, 50, 77, 1000] {
        let placed = engine.impose(width, 500);
        assert_eq!(placed[0].width, 31);
        assert_eq!(placed[1].width, 9);
        assert_eq!(placed[2].width, 17);
    }
}

#[test]
fn spanning_cell_may_lose_a_unit_per_extra_column_to_rounding() {
    let mut engine = TableLayout::new();
    engine.with_cell(CellProperties::new().colspan(3).preferred_size(Size { width: 64, height: 8 }));
    let placed = engine.impose(320, 240);
    // 64 / 3 = 21 for each column, 63 together.
    assert_eq!(placed, vec![Placement { cell: 0, x: 0, y: 0, width: 63, height: 8 }]);
}

#[test]
fn rows_do_not_make_room_for_vertical_padding() {
    let mut engine = TableLayout::new();
    engine.with_cell(
        CellProperties::new().padding_top(3).padding_bottom(1).preferred_size(Size {
            width: 10,
            height: 10,
        }),
    );
    let placed = engine.impose(100, 100);
    assert_eq!(placed, vec![Placement { cell: 0, x: 0, y: 3, width: 10, height: 6 }]);
}
