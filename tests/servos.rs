use clacks::errors::Error;
use clacks::servos::{
    MockShuttersController, ServoAngle, ServoController, ServoID, ShuttersController,
};
use clacks::shutters::{ShutterLocation, ShutterPosition, ShutterPositions};
use std::cell::RefCell;
use std::rc::Rc;

struct Recorder {
    calls: Rc<RefCell<Vec<(u8, i32)>>>,
    fail_on: Option<u8>,
}

impl ServoController for Recorder {
    fn rotate(&self, id: &ServoID, angle: &ServoAngle) -> Result<(), Error> {
        if self.fail_on == Some(id.id()) {
            return Err(Error::DeviceError);
        }
        self.calls.borrow_mut().push((id.id(), angle.angle()));
        Ok(())
    }
}

fn recorder(fail_on: Option<u8>) -> (Recorder, Rc<RefCell<Vec<(u8, i32)>>>) {
    let calls = Rc::new(RefCell::new(vec![]));
    (Recorder { calls: calls.clone(), fail_on }, calls)
}

#[test]
fn servo_id_range() {
    assert_eq!(ServoID::new(0).unwrap().id(), 0);
    assert_eq!(ServoID::new(15).unwrap().id(), 15);
    assert_eq!(ServoID::new(16).unwrap_err(), Error::InvalidServoId);
}

#[test]
fn servo_angle_range() {
    assert_eq!(ServoAngle::new(-45).unwrap().angle(), -45);
    assert_eq!(ServoAngle::new(45).unwrap().angle(), 45);
    assert_eq!(ServoAngle::new(0).unwrap().angle(), 0);
    assert_eq!(ServoAngle::new(46).unwrap_err(), Error::InvalidServoAngle);
    assert_eq!(ServoAngle::new(-46).unwrap_err(), Error::InvalidServoAngle);
}

#[test]
fn open_points_outwards_on_both_sides() {
    type Controller = ShuttersController<Recorder>;
    let angle = |l, p| Controller::shutter_angle(&l, &p).unwrap().angle();
    assert_eq!(angle(ShutterLocation::TopLeft, ShutterPosition::Open), 45);
    assert_eq!(angle(ShutterLocation::TopLeft, ShutterPosition::Closed), -45);
    assert_eq!(angle(ShutterLocation::TopRight, ShutterPosition::Open), -45);
    assert_eq!(angle(ShutterLocation::TopRight, ShutterPosition::Closed), 45);
    assert_eq!(
        Controller::shutter_location_to_servo_id(&ShutterLocation::BottomLeft)
            .unwrap()
            .id(),
        4
    );
}

#[test]
fn six_servo_commands_in_order() {
    let (r, calls) = recorder(None);
    let controller = ShuttersController::new(r);
    let snapshot =
        ShutterPositions::new(&[ShutterLocation::TopLeft, ShutterLocation::MiddleRight]).unwrap();
    controller.set_shutter_positions(&snapshot).unwrap();
    assert_eq!(
        *calls.borrow(),
        vec![(0, 45), (1, 45), (2, -45), (3, -45), (4, -45), (5, 45)]
    );
}

#[test]
fn stops_at_first_device_error() {
    let (r, calls) = recorder(Some(2));
    let controller = ShuttersController::new(r);
    let r = controller.set_shutter_positions(&ShutterPositions::new_with_all_open());
    assert_eq!(r.unwrap_err(), Error::DeviceError);
    assert_eq!(*calls.borrow(), vec![(0, 45), (1, -45)]);
}

#[test]
fn mock_accepts_everything() {
    let mock = MockShuttersController::new();
    assert!(mock
        .set_shutter_positions(&ShutterPositions::new_with_all_open())
        .is_ok());
    assert!(mock
        .rotate(&ServoID::new(3).unwrap(), &ServoAngle::new(45).unwrap())
        .is_ok());
}
