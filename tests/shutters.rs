use clacks::errors::Error;
use clacks::shutters::{
    ShutterLocation, ShutterLocationSide, ShutterPosition, ShutterPositions,
};

#[test]
fn locations_alternate_sides() {
    let all = ShutterLocation::iter();
    assert_eq!(all.len(), 6);
    assert_eq!(all[0], ShutterLocation::TopLeft);
    assert_eq!(all[5], ShutterLocation::BottomRight);
    for (i, location) in all.iter().enumerate() {
        let expected = if i % 2 == 0 {
            ShutterLocationSide::Left
        } else {
            ShutterLocationSide::Right
        };
        assert_eq!(location.side(), expected);
    }
}

#[test]
fn positions_from_locations() {
    let p = ShutterPositions::new(&[ShutterLocation::BottomRight, ShutterLocation::TopLeft])
        .unwrap();
    assert_eq!(p.get_position(&ShutterLocation::TopLeft), ShutterPosition::Open);
    assert_eq!(p.get_position(&ShutterLocation::BottomRight), ShutterPosition::Open);
    assert_eq!(p.get_position(&ShutterLocation::MiddleLeft), ShutterPosition::Closed);
    assert_eq!(
        p.open_shutters(),
        vec![ShutterLocation::TopLeft, ShutterLocation::BottomRight]
    );
    assert!(!p.all_closed());
}

#[test]
fn positions_are_order_independent() {
    let a = ShutterPositions::new(&[ShutterLocation::TopLeft, ShutterLocation::MiddleRight])
        .unwrap();
    let b = ShutterPositions::new(&[ShutterLocation::MiddleRight, ShutterLocation::TopLeft])
        .unwrap();
    assert_eq!(a, b);
}

#[test]
fn duplicate_location_refused() {
    let r = ShutterPositions::new(&[ShutterLocation::TopLeft, ShutterLocation::TopLeft]);
    assert_eq!(r.unwrap_err(), Error::DuplicateShutterLocation);
}

#[test]
fn all_open_and_all_closed() {
    let open = ShutterPositions::new_with_all_open();
    assert_eq!(open.open_shutters().len(), 6);
    assert!(!open.all_closed());
    let closed = ShutterPositions::new_with_all_closed();
    assert!(closed.all_closed());
    assert!(closed.open_shutters().is_empty());
    assert_eq!(ShutterPositions::new(&[]).unwrap(), closed);
}
