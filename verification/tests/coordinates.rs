use room_grid::local::room_coordinate::{
    linear_index_to_xy, xy_to_linear_index, OutOfBoundsError, RoomCoordinate, RoomXY, ROOM_AREA,
};
use room_grid::ROOM_SIZE;

#[test]
fn room_size_and_area() {
    assert_eq!(ROOM_SIZE, 50);
    assert_eq!(ROOM_AREA, 2500);
    assert_eq!(ROOM_AREA, usize::from(ROOM_SIZE) * usize::from(ROOM_SIZE));
}

#[test]
fn new_accepts_last_in_range() {
    let c = RoomCoordinate::new(49).unwrap();
    assert_eq!(c.u8(), 49);
}

#[test]
fn new_rejects_first_out_of_range() {
    assert_eq!(RoomCoordinate::new(50), Err(OutOfBoundsError(50)));
}

#[test]
fn new_succeeds_exactly_in_range() {
    let mut value: u8 = 0;
    loop {
        let made = RoomCoordinate::new(value);
        if value < ROOM_SIZE {
            assert_eq!(made.unwrap().u8(), value);
        } else {
            assert_eq!(made, Err(OutOfBoundsError(value)));
        }
        if value == u8::MAX {
            break;
        }
        value += 1;
    }
}

#[test]
fn unchecked_new_keeps_value() {
    assert_eq!(RoomCoordinate::unchecked_new(0).u8(), 0);
    assert_eq!(RoomCoordinate::unchecked_new(49).u8(), 49);
    let xy = RoomXY::unchecked_new(7, 31);
    assert_eq!(xy.x.u8(), 7);
    assert_eq!(xy.y.u8(), 31);
}

#[test]
fn defaults_are_origin() {
    assert_eq!(RoomCoordinate::default().u8(), 0);
    assert_eq!(RoomXY::default(), RoomXY::unchecked_new(0, 0));
}

#[test]
fn index_is_x_major() {
    assert_eq!(xy_to_linear_index(RoomXY::unchecked_new(0, 0)), 0);
    assert_eq!(xy_to_linear_index(RoomXY::unchecked_new(0, 1)), 1);
    assert_eq!(xy_to_linear_index(RoomXY::unchecked_new(1, 0)), 50);
    assert_eq!(xy_to_linear_index(RoomXY::unchecked_new(2, 23)), 123);
    assert_eq!(xy_to_linear_index(RoomXY::unchecked_new(49, 49)), 2499);
}

#[test]
fn index_to_xy_is_quotient_and_remainder() {
    assert_eq!(linear_index_to_xy(0), RoomXY::unchecked_new(0, 0));
    assert_eq!(linear_index_to_xy(49), RoomXY::unchecked_new(0, 49));
    assert_eq!(linear_index_to_xy(50), RoomXY::unchecked_new(1, 0));
    assert_eq!(linear_index_to_xy(123), RoomXY::unchecked_new(2, 23));
    assert_eq!(linear_index_to_xy(2499), RoomXY::unchecked_new(49, 49));
}

#[test]
fn index_round_trip_from_every_cell() {
    for x in 0..ROOM_SIZE {
        for y in 0..ROOM_SIZE {
            let xy = RoomXY::unchecked_new(x, y);
            let idx: usize = xy_to_linear_index(xy);
            assert!(idx < ROOM_AREA);
            assert_eq!(linear_index_to_xy(idx), xy);
        }
    }
}

#[test]
fn index_round_trip_from_every_index() {
    for idx in 0..ROOM_AREA {
        let xy = linear_index_to_xy(idx);
        assert!(xy.x.u8() < ROOM_SIZE);
        assert!(xy.y.u8() < ROOM_SIZE);
        assert_eq!(xy_to_linear_index(xy), idx);
    }
}

#[test]
fn coordinate_to_u8() {
    let c = RoomCoordinate::new(17).unwrap();
    assert_eq!(u8::from(c), 17);
    let back: u8 = c.into();
    assert_eq!(back, 17);
}

#[test]
fn coordinate_try_from_u8() {
    assert_eq!(RoomCoordinate::try_from(12u8).unwrap().u8(), 12);
    assert_eq!(RoomCoordinate::try_from(200u8), Err(OutOfBoundsError(200)));
}

#[test]
fn xy_try_from_pair() {
    let xy = RoomXY::try_from((3u8, 4u8)).unwrap();
    assert_eq!(xy, RoomXY::unchecked_new(3, 4));
    assert_eq!(RoomXY::try_from((50u8, 4u8)), Err(OutOfBoundsError(50)));
    assert_eq!(RoomXY::try_from((3u8, 51u8)), Err(OutOfBoundsError(51)));
}

#[test]
fn xy_try_from_reports_x_before_y() {
    assert_eq!(RoomXY::try_from((60u8, 70u8)), Err(OutOfBoundsError(60)));
}

#[test]
fn xy_to_and_from_pairs() {
    let xy = RoomXY::unchecked_new(9, 41);
    let raw: (u8, u8) = xy.into();
    assert_eq!(raw, (9, 41));
    let parts: (RoomCoordinate, RoomCoordinate) = xy.into();
    assert_eq!(parts.0.u8(), 9);
    assert_eq!(parts.1.u8(), 41);
    assert_eq!(RoomXY::from(parts), xy);
}

#[test]
fn coordinates_order_by_value() {
    let low = RoomCoordinate::new(3).unwrap();
    let high = RoomCoordinate::new(40).unwrap();
    assert!(low < high);
    assert!(high > low);
    assert!(low <= low);
    assert_eq!(low.partial_cmp(&high), Some(std::cmp::Ordering::Less));
    assert_eq!(high.partial_cmp(&low), Some(std::cmp::Ordering::Greater));
    assert_eq!(low.partial_cmp(&low), Some(std::cmp::Ordering::Equal));
    assert_eq!(low.cmp(&high), std::cmp::Ordering::Less);
    assert_eq!(low.max(high), high);
}

#[test]
fn coordinates_sort_and_hash() {
    let mut values: Vec<RoomCoordinate> = vec![
        RoomCoordinate::new(30).unwrap(),
        RoomCoordinate::new(2).unwrap(),
        RoomCoordinate::new(17).unwrap(),
    ];
    values.sort();
    let sorted: Vec<u8> = values.iter().map(|c| c.u8()).collect();
    assert_eq!(sorted, vec![2, 17, 30]);
    let mut seen = std::collections::HashSet::new();
    assert!(seen.insert(RoomXY::unchecked_new(1, 2)));
    assert!(!seen.insert(RoomXY::unchecked_new(1, 2)));
    assert!(seen.insert(RoomXY::unchecked_new(2, 1)));
}
