use sktablelayout::{CellProperties, Rectangle, Size, SizeGrouping};

#[test]
fn join_max_takes_each_side_from_the_larger() {
    let a = Size { width: 10, height: 40 };
    let b = Size { width: 30, height: 20 };
    assert_eq!(Size::join_max(&a, &b), Size { width: 30, height: 40 });
    assert_eq!(Size::join_max(&b, &a), Size { width: 30, height: 40 });
}

#[test]
fn join_min_takes_each_side_from_the_smaller() {
    let a = Size { width: 10, height: 40 };
    let b = Size { width: 30, height: 20 };
    assert_eq!(Size::join_min(&a, &b), Size { width: 10, height: 20 });
}

#[test]
fn spread_divides_rounding_toward_zero() {
    assert_eq!(Size { width: 64, height: 10 }.spread(3), Size { width: 21, height: 3 });
    assert_eq!(Size { width: -64, height: -10 }.spread(3), Size { width: -21, height: -3 });
    assert_eq!(Size { width: 7, height: 7 }.spread(1), Size { width: 7, height: 7 });
    assert_eq!(
        Size { width: i64::MAX, height: i64::MIN }.spread(2),
        Size { width: i64::MAX / 2, height: i64::MIN / 2 }
    );
}

#[test]
fn padded_adds_both_sides() {
    let pad = Rectangle { top: 1, left: 2, bottom: 3, right: 4 };
    assert_eq!(Size { width: 10, height: 20 }.padded(pad), Size { width: 16, height: 24 });
}

#[test]
fn padded_stops_at_the_end_of_the_range() {
    let pad = Rectangle { top: 16, left: 16, bottom: 16, right: 16 };
    assert_eq!(
        Size { width: i64::MAX, height: i64::MAX - 20 }.padded(pad),
        Size { width: i64::MAX, height: i64::MAX }
    );
    let back = Rectangle { top: 0, left: 10, bottom: 0, right: -10 };
    // The sum is taken left to right: it is held at the end before the right
    // padding takes ten away again.
    assert_eq!(Size { width: i64::MAX, height: 0 }.padded(back).width, i64::MAX - 10);
}

#[test]
fn within_is_strict_on_both_sides() {
    let small = Size { width: 10, height: 10 };
    assert!(small.within(&Size { width: 11, height: 11 }));
    assert!(!small.within(&Size { width: 10, height: 11 }));
    assert!(!small.within(&Size { width: 11, height: 10 }));
    assert!(!small.within(&small));
}

#[test]
fn default_grouping_is_unconstrained() {
    let g = SizeGrouping::default();
    assert_eq!(g.minimum, Size { width: 0, height: 0 });
    assert_eq!(g.preferred, Size { width: 0, height: 0 });
    assert_eq!(g.maximum, Size { width: i64::MAX, height: i64::MAX });
    assert_eq!(Rectangle::default(), Rectangle { top: 0, left: 0, bottom: 0, right: 0 });
}

#[test]
fn join_widens_minimum_and_preferred_and_narrows_maximum() {
    let a = SizeGrouping {
        minimum: Size { width: 1, height: 8 },
        preferred: Size { width: 10, height: 80 },
        maximum: Size { width: 100, height: 800 },
    };
    let b = SizeGrouping {
        minimum: Size { width: 2, height: 4 },
        preferred: Size { width: 20, height: 40 },
        maximum: Size { width: 200, height: 400 },
    };
    let joined = SizeGrouping {
        minimum: Size { width: 2, height: 8 },
        preferred: Size { width: 20, height: 80 },
        maximum: Size { width: 100, height: 400 },
    };
    assert_eq!(SizeGrouping::join(&a, &b), joined);
    assert_eq!(SizeGrouping::join(&b, &a), joined);
    assert_eq!(SizeGrouping::join(&a, &a), a);
    assert_eq!(SizeGrouping::join(&a, &SizeGrouping::default()), a);
}

#[test]
fn grouping_spread_and_padded_act_on_all_three_sizes() {
    let g = SizeGrouping {
        minimum: Size { width: 10, height: 10 },
        preferred: Size { width: 20, height: 30 },
        maximum: Size { width: 40, height: 50 },
    };
    let pad = Rectangle { top: 1, left: 2, bottom: 3, right: 4 };
    assert_eq!(
        g.padded(pad),
        SizeGrouping {
            minimum: Size { width: 16, height: 14 },
            preferred: Size { width: 26, height: 34 },
            maximum: Size { width: 46, height: 54 },
        }
    );
    assert_eq!(
        g.spread(4),
        SizeGrouping {
            minimum: Size { width: 2, height: 2 },
            preferred: Size { width: 5, height: 7 },
            maximum: Size { width: 10, height: 12 },
        }
    );
}

fn sized(width: i64, height: i64) -> SizeGrouping {
    SizeGrouping {
        minimum: Size { width: 0, height: 0 },
        preferred: Size { width, height },
        maximum: Size { width: 1000, height: 1000 },
    }
}

#[test]
fn box_fit_defaults_to_the_top_left_padding() {
    let prop = CellProperties::new().padding(&Rectangle { top: 1, left: 2, bottom: 3, right: 4 });
    let area = Size { width: 100, height: 50 };
    assert_eq!(sized(10, 20).box_fit(&area, &prop), (2, 1, 10, 20));
    // Anchoring to the left or to the top changes nothing.
    let prop = prop.anchor_left().anchor_top();
    assert_eq!(sized(10, 20).box_fit(&area, &prop), (2, 1, 10, 20));
}

#[test]
fn box_fit_limits_the_box_to_the_padded_area() {
    let prop = CellProperties::new().padding_all(5);
    let area = Size { width: 30, height: 25 };
    assert_eq!(sized(64, 64).box_fit(&area, &prop), (5, 5, 20, 15));
}

#[test]
fn box_fit_fills_up_to_the_maximum() {
    let area = Size { width: 2000, height: 500 };
    let prop = CellProperties::new().fill();
    assert_eq!(sized(10, 20).box_fit(&area, &prop), (0, 0, 1000, 500));
    let prop = CellProperties::new().fill_horizontal();
    assert_eq!(sized(10, 20).box_fit(&area, &prop), (0, 0, 1000, 20));
    let prop = CellProperties::new().fill_vertical();
    assert_eq!(sized(10, 20).box_fit(&area, &prop), (0, 0, 10, 500));
}

#[test]
fn box_fit_anchors_to_the_right_and_bottom_padding() {
    let prop = CellProperties::new()
        .padding(&Rectangle { top: 1, left: 2, bottom: 3, right: 4 })
        .anchor_right()
        .anchor_bottom();
    let area = Size { width: 100, height: 50 };
    assert_eq!(sized(10, 20).box_fit(&area, &prop), (100 - 4 - 10, 50 - 3 - 20, 10, 20));
    // Right and bottom win over centring.
    let prop = prop.anchor_center();
    assert_eq!(sized(10, 20).box_fit(&area, &prop), (86, 27, 10, 20));
}

#[test]
fn box_fit_centres_by_halves_rounded_toward_zero() {
    let prop = CellProperties::new().anchor_horizontal_center();
    let area = Size { width: 65, height: 41 };
    // 65 / 2 - 32 / 2 = 32 - 16, and 41 / 2 - 7 / 2 = 20 - 3.
    assert_eq!(sized(32, 7).box_fit(&area, &prop), (16, 17, 32, 7));
}

#[test]
fn vertical_centre_follows_the_horizontal_centre_flag() {
    let area = Size { width: 100, height: 100 };
    let only_vertical = CellProperties::new().anchor_vertical_center();
    assert_eq!(sized(20, 20).box_fit(&area, &only_vertical), (0, 0, 20, 20));
    let only_horizontal = CellProperties::new().anchor_horizontal_center();
    assert_eq!(sized(20, 20).box_fit(&area, &only_horizontal), (40, 40, 20, 20));
    let both = CellProperties::new().anchor_center();
    assert_eq!(sized(20, 20).box_fit(&area, &both), (40, 40, 20, 20));
}

#[test]
fn box_fit_with_more_padding_than_area_gives_a_negative_size() {
    let prop = CellProperties::new().padding_all(10);
    let area = Size { width: 5, height: 30 };
    assert_eq!(sized(64, 64).box_fit(&area, &prop), (10, 10, -15, 10));
}

#[test]
fn fitted_box_stays_inside_its_area() {
    let area = Size { width: 37, height: 23 };
    let pad = Rectangle { top: 2, left: 3, bottom: 5, right: 7 };
    let props = [
        CellProperties::new(),
        CellProperties::new().fill(),
        CellProperties::new().anchor_right().anchor_bottom(),
        CellProperties::new().anchor_center(),
        CellProperties::new().anchor_center().fill(),
    ];
    for prop in props.iter() {
        let prop = prop.padding(&pad);
        for preferred in [0, 1, 10, 26, 27, 28, 500] {
            let (x, y, w, h) = sized(preferred, preferred).box_fit(&area, &prop);
            assert!(0 <= w && 0 <= h && 0 <= x && 0 <= y);
            assert!(x + w <= area.width);
            assert!(y + h <= area.height);
        }
    }
}
