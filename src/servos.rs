use crate::errors::Error;
use crate::shutters::{ShutterLocation, ShutterLocationSide, ShutterPosition, ShutterPositions};
use vstd::prelude::*;

verus! {

/// The highest servo identifier the servo board addresses.
pub const MAX_SERVO_ID: u8 = 15;

/// The full travel of a servo, in degrees; angles lie within half of it on
/// either side of the centre.
pub const TRAVEL_RANGE: i32 = 90;

/// The angle, in degrees, that puts a shutter in a position: "open" always
/// points outwards, so the two sides turn opposite ways.
pub open spec fn target_angle(location: ShutterLocation, position: ShutterPosition) -> int {
    match (location.spec_side(), position) {
        (ShutterLocationSide::Left, ShutterPosition::Open) => 45,
        (ShutterLocationSide::Left, ShutterPosition::Closed) => -45,
        (ShutterLocationSide::Right, ShutterPosition::Open) => -45,
        (ShutterLocationSide::Right, ShutterPosition::Closed) => 45,
    }
}

/// The hardware that turns a servo to an angle.
pub trait ServoController {
    fn rotate(&self, id: &ServoID, angle: &ServoAngle) -> Result<(), Error>;
}

/// Drives the six shutters through a servo controller.
pub struct ShuttersController<SC> {
    servo_controller: SC,
}

impl<SC: ServoController> ShuttersController<SC> {
    pub fn new(servo_controller: SC) -> (r: ShuttersController<SC>)
        ensures
            r.controller() == servo_controller,
    {
        ShuttersController { servo_controller }
    }

    pub closed spec fn controller(self) -> SC {
        self.servo_controller
    }

    /// Turns each of the six shutters, in the order of
    /// `ShutterLocation::iter`, to the angle of its position in the
    /// snapshot; stops at the first failure of the controller.
    pub fn set_shutter_positions(&self, shutter_positions: &ShutterPositions) -> (r: Result<
        (),
        Error,
    >) {
        let locations = ShutterLocation::iter();
        let mut i: usize = 0;
        while i < locations.len()
            decreases locations@.len() - i,
        {
            let position = shutter_positions.get_position(&locations[i]);
            self.move_shutter(&locations[i], &position)?;
            i = i + 1;
        }
        Ok(())
    }

    /// Turns the servo of one shutter to the angle of the given position.
    fn move_shutter(&self, shutter: &ShutterLocation, position: &ShutterPosition) -> (r: Result<
        (),
        Error,
    >) {
        let id = Self::shutter_location_to_servo_id(shutter)?;
        let angle = Self::shutter_angle(shutter, position)?;
        self.servo_controller.rotate(&id, &angle)
    }

    /// The servo that drives a shutter: the location's place in
    /// `ShutterLocation::iter`.
    pub fn shutter_location_to_servo_id(location: &ShutterLocation) -> (r: Result<
        ServoID,
        Error,
    >)
        ensures
            r matches Ok(id) && id@ == location.index(),
    {
        ServoID::new(
            match location {
                ShutterLocation::TopLeft => 0,
                ShutterLocation::TopRight => 1,
                ShutterLocation::MiddleLeft => 2,
                ShutterLocation::MiddleRight => 3,
                ShutterLocation::BottomLeft => 4,
                ShutterLocation::BottomRight => 5,
            },
        )
    }

    /// The angle that puts a shutter in a position.
    pub fn shutter_angle(location: &ShutterLocation, position: &ShutterPosition) -> (r: Result<
        ServoAngle,
        Error,
    >)
        ensures
            r matches Ok(a) && a@ == target_angle(*location, *position),
    {
        let half_travel = TRAVEL_RANGE / 2;
        let negative_angle = ServoAngle::new(-half_travel)?;
        let positive_angle = ServoAngle::new(half_travel)?;
        let angle = match location.side() {
            ShutterLocationSide::Left => match position {
                ShutterPosition::Open => positive_angle,
                ShutterPosition::Closed => negative_angle,
            },
            ShutterLocationSide::Right => match position {
                ShutterPosition::Open => negative_angle,
                ShutterPosition::Closed => positive_angle,
            },
        };
        Ok(angle)
    }
}

/// A servo identifier, at most `MAX_SERVO_ID`.
#[derive(Debug, Clone, Copy, PartialEq, Eq, Structural)]
pub struct ServoID {
    id: u8,
}

impl View for ServoID {
    type V = nat;

    closed spec fn view(&self) -> nat {
        self.id as nat
    }
}

impl ServoID {
    #[verifier::type_invariant]
    closed spec fn well_formed(self) -> bool {
        self.id <= MAX_SERVO_ID
    }

    pub fn new(id: u8) -> (r: Result<ServoID, Error>)
        ensures
            match r {
                Ok(s) => id <= MAX_SERVO_ID && s@ == id,
                Err(e) => id > MAX_SERVO_ID && e == Error::InvalidServoId,
            },
    {
        if id > MAX_SERVO_ID {
            return Err(Error::InvalidServoId);
        }
        Ok(ServoID { id })
    }

    pub fn id(&self) -> (r: u8)
        ensures
            r == self@,
            r <= MAX_SERVO_ID,
    {
        proof {
            use_type_invariant(self);
        }
        self.id
    }
}

/// A servo angle in whole degrees, within half the travel range of the
/// centre.
#[derive(Debug, Clone, Copy, PartialEq, Eq, Structural)]
pub struct ServoAngle {
    angle: i32,
}

impl View for ServoAngle {
    type V = int;

    closed spec fn view(&self) -> int {
        self.angle as int
    }
}

impl ServoAngle {
    #[verifier::type_invariant]
    closed spec fn well_formed(self) -> bool {
        -(TRAVEL_RANGE / 2) <= self.angle <= TRAVEL_RANGE / 2
    }

    pub fn new(angle: i32) -> (r: Result<ServoAngle, Error>)
        ensures
            match r {
                Ok(a) => -45 <= angle <= 45 && a@ == angle,
                Err(e) => (angle < -45 || angle > 45) && e == Error::InvalidServoAngle,
            },
    {
        let half_travel_range = TRAVEL_RANGE / 2;
        if angle < -half_travel_range || angle > half_travel_range {
            return Err(Error::InvalidServoAngle);
        }
        Ok(ServoAngle { angle })
    }

    pub fn angle(&self) -> (r: i32)
        ensures
            r == self@,
            -45 <= r <= 45,
    {
        proof {
            use_type_invariant(self);
        }
        self.angle
    }
}

/// A stand-in for the shutters when no servo hardware is attached.
#[derive(Debug)]
pub struct MockShuttersController {}

impl MockShuttersController {
    pub fn new() -> (r: MockShuttersController) {
        MockShuttersController {}
    }

    /// Accepts every snapshot.
    pub fn set_shutter_positions(&self, shutter_positions: &ShutterPositions) -> (r: Result<
        (),
        Error,
    >)
        ensures
            r is Ok,
    {
        Ok(())
    }
}

impl ServoController for MockShuttersController {
    /// Accepts every command.
    fn rotate(&self, id: &ServoID, angle: &ServoAngle) -> (r: Result<(), Error>) {
        Ok(())
    }
}

} // verus!
