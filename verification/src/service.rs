//! The decisions of the system event services: compass headings and their
//! filter, accelerometer taps and sample counts, app focus events, wakeup
//! scheduling results, repeating timers and the heap reservation.
use vstd::prelude::*;

use crate::geometry::{Angle, TRIG_MAX_ANGLE};
use crate::status_code::{parse_status_result, spec_parse_status_result, StatusError};
use crate::time::{Time, TimeT};

verus! {

/// `CompassStatus`: the compass is not available.
pub const COMPASS_STATUS_UNAVAILABLE: i8 = -1;
/// `CompassStatus`: the data is invalid.
pub const COMPASS_STATUS_DATA_INVALID: i8 = 0;
/// `CompassStatus`: calibrating; the heading is usable.
pub const COMPASS_STATUS_CALIBRATING: i8 = 1;
/// `CompassStatus`: calibrated.
pub const COMPASS_STATUS_CALIBRATED: i8 = 2;

/// A compass reading as the C API delivers it.
#[derive(Clone, Copy, PartialEq, Eq, Structural, Debug)]
pub struct CompassHeadingData {
    pub magnetic_heading: i32,
    pub true_heading: i32,
    pub compass_status: i8,
    pub is_declination_valid: bool,
}

/// Possible compass data.
#[derive(Clone, Copy, PartialEq, Eq, Structural, Debug)]
pub enum CompassHeading {
    /// Compass heading is unavailable.
    Unavailable,
    /// Compass heading is invalid.
    Invalid,
    /// Compass heading is being calibrated, but there is a valid angle.
    Calibrating(Angle),
    /// Compass heading is fully calibrated.
    Calibrated(Angle),
}

/// The heading that a reading means: the magnetic heading when calibrated or
/// calibrating, otherwise unavailable or invalid.
pub open spec fn spec_compass_heading(value: CompassHeadingData) -> CompassHeading {
    if value.compass_status == COMPASS_STATUS_CALIBRATED {
        CompassHeading::Calibrated(Angle { value: value.magnetic_heading })
    } else if value.compass_status == COMPASS_STATUS_CALIBRATING {
        CompassHeading::Calibrating(Angle { value: value.magnetic_heading })
    } else if value.compass_status == COMPASS_STATUS_UNAVAILABLE {
        CompassHeading::Unavailable
    } else {
        CompassHeading::Invalid
    }
}

impl From<CompassHeadingData> for CompassHeading {
    fn from(value: CompassHeadingData) -> (r: Self) {
        CompassHeading::from_data(value)
    }
}

impl vstd::std_specs::convert::FromSpecImpl<CompassHeadingData> for CompassHeading {
    open spec fn obeys_from_spec() -> bool {
        true
    }

    open spec fn from_spec(v: CompassHeadingData) -> Self {
        spec_compass_heading(v)
    }
}

impl CompassHeading {
    /// The heading that a reading means.
    pub fn from_data(value: CompassHeadingData) -> (r: Self)
        ensures
            r == spec_compass_heading(value),
    {
        match value.compass_status {
            COMPASS_STATUS_CALIBRATED => CompassHeading::Calibrated(
                Angle { value: value.magnetic_heading },
            ),
            COMPASS_STATUS_CALIBRATING => CompassHeading::Calibrating(
                Angle { value: value.magnetic_heading },
            ),
            COMPASS_STATUS_UNAVAILABLE => CompassHeading::Unavailable,
            _ => CompassHeading::Invalid,
        }
    }
}

/// The heading filter that the compass is given for a requested minimum
/// angle change: the angle normalized to one turn, at most 180 degrees.
pub fn compass_heading_filter(minimum_angle_change: Angle) -> (r: Angle)
    ensures
        r.value == if minimum_angle_change.value as int % (TRIG_MAX_ANGLE as int) > 0x8000 {
            0x8000
        } else {
            minimum_angle_change.value as int % (TRIG_MAX_ANGLE as int)
        },
        0 <= r.value <= 0x8000,
{
    let mut angle = minimum_angle_change;
    angle.normalize();
    let half_turn = Angle::from_degrees(180);
    if angle.value > half_turn.value {
        half_turn
    } else {
        angle
    }
}

/// `AccelAxisType`: the x axis.
pub const ACCEL_AXIS_X: u8 = 0;
/// `AccelAxisType`: the y axis.
pub const ACCEL_AXIS_Y: u8 = 1;
/// `AccelAxisType`: the z axis.
pub const ACCEL_AXIS_Z: u8 = 2;

/// One of the three accelerometer axes, in positive or negative direction.
#[derive(Copy, Clone, PartialEq, Eq, Structural, Hash, Debug)]
pub enum AccelerometerAxis {
    /// Positive X, towards the right of the watch.
    PosX,
    /// Positive Y, towards the top of the watch.
    PosY,
    /// Positive Z, vertically out of the watch screen.
    PosZ,
    /// Negative X, towards the left of the watch.
    NegX,
    /// Negative Y, towards the bottom of the watch.
    NegY,
    /// Negative Z, into the watch screen.
    NegZ,
}

/// The axis of a tap event: a C axis and a direction of 1 or -1.
pub open spec fn spec_tap_axis(axis: u8, direction: i32) -> Option<AccelerometerAxis> {
    if axis == ACCEL_AXIS_X && direction == -1 {
        Some(AccelerometerAxis::NegX)
    } else if axis == ACCEL_AXIS_X && direction == 1 {
        Some(AccelerometerAxis::PosX)
    } else if axis == ACCEL_AXIS_Y && direction == -1 {
        Some(AccelerometerAxis::NegY)
    } else if axis == ACCEL_AXIS_Y && direction == 1 {
        Some(AccelerometerAxis::PosY)
    } else if axis == ACCEL_AXIS_Z && direction == -1 {
        Some(AccelerometerAxis::NegZ)
    } else if axis == ACCEL_AXIS_Z && direction == 1 {
        Some(AccelerometerAxis::PosZ)
    } else {
        None
    }
}

impl AccelerometerAxis {
    /// The axis of a tap event, or `None` for values the C API does not send.
    pub fn from_tap(axis: u8, direction: i32) -> (r: Option<Self>)
        ensures
            r == spec_tap_axis(axis, direction),
    {
        if direction == -1 {
            match axis {
                ACCEL_AXIS_X => Some(AccelerometerAxis::NegX),
                ACCEL_AXIS_Y => Some(AccelerometerAxis::NegY),
                ACCEL_AXIS_Z => Some(AccelerometerAxis::NegZ),
                _ => None,
            }
        } else if direction == 1 {
            match axis {
                ACCEL_AXIS_X => Some(AccelerometerAxis::PosX),
                ACCEL_AXIS_Y => Some(AccelerometerAxis::PosY),
                ACCEL_AXIS_Z => Some(AccelerometerAxis::PosZ),
                _ => None,
            }
        } else {
            None
        }
    }
}

impl AccelerometerAxis {
    /// The C axis (`ACCEL_AXIS_X`, `_Y` or `_Z`) of this tap direction.
    pub open spec fn axis_id(self) -> u8 {
        match self {
            AccelerometerAxis::PosX | AccelerometerAxis::NegX => 0,
            AccelerometerAxis::PosY | AccelerometerAxis::NegY => 1,
            AccelerometerAxis::PosZ | AccelerometerAxis::NegZ => 2,
        }
    }

    /// The C direction of this tap: 1 for the positive side of its axis, -1
    /// for the negative side.
    pub open spec fn direction(self) -> i32 {
        match self {
            AccelerometerAxis::PosX | AccelerometerAxis::PosY | AccelerometerAxis::PosZ => 1i32,
            AccelerometerAxis::NegX | AccelerometerAxis::NegY | AccelerometerAxis::NegZ => -1i32,
        }
    }
}

/// A tap is decoded exactly when its axis is x, y or z (0, 1, 2) and its
/// direction is 1 or -1, into the tap direction on that axis and that side;
/// every tap direction comes from its own axis and side, so the two sides of
/// an axis decode to different directions.
pub proof fn lemma_tap_axis_decodes_axis_and_side(axis: u8, direction: i32, a: AccelerometerAxis)
    ensures
        spec_tap_axis(axis, direction) is Some <==> (axis <= 2 && (direction == 1 || direction == -1)),
        spec_tap_axis(axis, direction) matches Some(t) ==> t.axis_id() == axis && t.direction() == direction,
        spec_tap_axis(a.axis_id(), a.direction()) == Some(a),
{
}

/// The accelerometer sampling rates, in Hz.
#[derive(Clone, Copy, PartialEq, Eq, Structural, Hash, Debug)]
pub enum AccelerometerSamplingRate {
    /// 10 Hz.
    Hz10,
    /// 25 Hz.
    Hz25,
    /// 50 Hz.
    Hz50,
    /// 100 Hz.
    Hz100,
}

impl AccelerometerSamplingRate {
    /// The C `AccelSamplingRate` value, which is the rate in Hz.
    pub open spec fn spec_raw(self) -> u8 {
        match self {
            AccelerometerSamplingRate::Hz10 => 10,
            AccelerometerSamplingRate::Hz25 => 25,
            AccelerometerSamplingRate::Hz50 => 50,
            AccelerometerSamplingRate::Hz100 => 100,
        }
    }

    /// The C `AccelSamplingRate` value, which is the rate in Hz.
    pub fn raw(&self) -> (r: u8)
        ensures
            r == self.spec_raw(),
    {
        match self {
            AccelerometerSamplingRate::Hz10 => 10,
            AccelerometerSamplingRate::Hz25 => 25,
            AccelerometerSamplingRate::Hz50 => 50,
            AccelerometerSamplingRate::Hz100 => 100,
        }
    }
}

/// The older name of the accelerometer axes.
pub type AccelAxis = AccelerometerAxis;

/// The older name of the accelerometer sampling rates.
pub type AccelSamplingRate = AccelerometerSamplingRate;

/// The most samples that the C API buffers per update.
pub const MAX_SAMPLES_PER_UPDATE: u32 = 25;

/// The number of samples per update that is stored and passed to the C API:
/// the requested number, at most 25.
pub fn clamp_samples_per_update(samples_per_update: u32) -> (r: u32)
    ensures
        r == if samples_per_update > MAX_SAMPLES_PER_UPDATE {
            MAX_SAMPLES_PER_UPDATE
        } else {
            samples_per_update
        },
{
    if samples_per_update > MAX_SAMPLES_PER_UPDATE {
        MAX_SAMPLES_PER_UPDATE
    } else {
        samples_per_update
    }
}

/// Focus events: which of the two C focus notifications reach the handler.
pub struct AppFocus;

impl AppFocus {
    /// The "will focus" notification reaches the handler only when gaining focus.
    pub fn will_focus_event(focused: bool) -> (r: Option<bool>)
        ensures
            r == if focused { Some(true) } else { None::<bool> },
    {
        if focused {
            Some(true)
        } else {
            None
        }
    }

    /// The "did focus" notification reaches the handler only when losing focus.
    pub fn did_focus_event(focused: bool) -> (r: Option<bool>)
        ensures
            r == if !focused { Some(false) } else { None::<bool> },
    {
        if !focused {
            Some(false)
        } else {
            None
        }
    }
}

/// A wakeup id.
pub type WakeupId = i32;

/// Possible errors when scheduling a wakeup.
#[derive(Copy, Clone, PartialEq, Eq, Structural, Debug)]
pub enum WakeupSchedulingError {
    /// The wakeup is within one minute of an existing one.
    TooCloseToExisting,
    /// The wakeup lies in the past.
    InThePast,
    /// The app has already scheduled 8 wakeups.
    MaximumWakeupsReached,
    /// An internal unknown error.
    Internal,
}

/// The scheduling error that a status error means.
pub open spec fn spec_wakeup_error(value: StatusError) -> WakeupSchedulingError {
    match value {
        StatusError::InvalidArgument => WakeupSchedulingError::InThePast,
        StatusError::Range => WakeupSchedulingError::TooCloseToExisting,
        StatusError::OutOfResources => WakeupSchedulingError::MaximumWakeupsReached,
        _ => WakeupSchedulingError::Internal,
    }
}

impl WakeupSchedulingError {
    /// The status code of this error.
    pub open spec fn spec_code(self) -> i8 {
        match self {
            WakeupSchedulingError::TooCloseToExisting => StatusError::Range.spec_code(),
            WakeupSchedulingError::InThePast => StatusError::InvalidArgument.spec_code(),
            WakeupSchedulingError::MaximumWakeupsReached => StatusError::OutOfResources.spec_code(),
            WakeupSchedulingError::Internal => StatusError::Internal.spec_code(),
        }
    }

    /// The status code of this error.
    pub fn code(&self) -> (r: i8)
        ensures
            r == self.spec_code(),
    {
        match self {
            WakeupSchedulingError::TooCloseToExisting => StatusError::Range.code(),
            WakeupSchedulingError::InThePast => StatusError::InvalidArgument.code(),
            WakeupSchedulingError::MaximumWakeupsReached => StatusError::OutOfResources.code(),
            WakeupSchedulingError::Internal => StatusError::Internal.code(),
        }
    }

    /// The scheduling error that a status error means.
    pub fn from_status(value: StatusError) -> (r: Self)
        ensures
            r == spec_wakeup_error(value),
    {
        match value {
            StatusError::InvalidArgument => WakeupSchedulingError::InThePast,
            StatusError::Range => WakeupSchedulingError::TooCloseToExisting,
            StatusError::OutOfResources => WakeupSchedulingError::MaximumWakeupsReached,
            _ => WakeupSchedulingError::Internal,
        }
    }
}

impl From<StatusError> for WakeupSchedulingError {
    fn from(value: StatusError) -> (r: Self) {
        WakeupSchedulingError::from_status(value)
    }
}

impl vstd::std_specs::convert::FromSpecImpl<StatusError> for WakeupSchedulingError {
    open spec fn obeys_from_spec() -> bool {
        true
    }

    open spec fn from_spec(v: StatusError) -> Self {
        spec_wakeup_error(v)
    }
}

/// Every scheduling error comes back from the status error of its own code.
pub proof fn lemma_wakeup_error_roundtrip(e: WakeupSchedulingError)
    ensures
        StatusError::spec_from_code(e.spec_code()) matches Some(s) && spec_wakeup_error(s) == e,
{
}

/// A wakeup event.
#[derive(Copy, Clone, PartialEq, Eq, Structural, Debug)]
pub struct WakeupEvent {
    /// The reason given when the wakeup was scheduled.
    pub reason: i32,
    /// Which wakeup triggered this event.
    pub id: WakeupId,
}

/// A scheduled wakeup.
#[derive(Copy, Clone, PartialEq, Eq, Structural, Debug)]
pub struct PendingWakeup {
    /// At which time the wakeup should occur.
    pub time: Time,
    /// The wakeup id.
    pub id: WakeupId,
}

/// The outcome of scheduling a wakeup at `time`, given the C result: a
/// non-negative result is the id of the scheduled wakeup, a negative one a
/// status error.
pub open spec fn spec_schedule_result(time: Time, result: i32) -> Result<PendingWakeup, WakeupSchedulingError> {
    if result >= 0 {
        Ok(PendingWakeup { time, id: result })
    } else {
        match spec_parse_status_result(result) {
            Err(e) => Err(spec_wakeup_error(e)),
            Ok(_) => Err(WakeupSchedulingError::Internal),
        }
    }
}

impl PendingWakeup {
    /// The outcome of scheduling a wakeup at `time`, given the C result.
    pub fn from_schedule_result(time: Time, result: i32) -> (r: Result<PendingWakeup, WakeupSchedulingError>)
        ensures
            r == spec_schedule_result(time, result),
    {
        let clipped = if result < 0 {
            result
        } else {
            0
        };
        match parse_status_result(clipped) {
            Err(e) => Err(WakeupSchedulingError::from_status(e)),
            Ok(_) => Ok(PendingWakeup { time, id: result }),
        }
    }

    /// The id of the wakeup.
    pub fn id(&self) -> (r: WakeupId)
        ensures
            r == self.id,
    {
        self.id
    }
}

/// Negative scheduling results never yield a wakeup, and non-negative ones
/// always do.
pub proof fn lemma_schedule_result_sign(time: Time, result: i32)
    ensures
        (spec_schedule_result(time, result) is Ok) == (result >= 0),
{
}

/// Bytes left to the C heap when the allocator reserves its heap.
pub const HEAP_BUFFER: usize = 2048;

/// The heap that the embedded allocator reserves out of `free_heap` free
/// bytes: all but [`HEAP_BUFFER`] bytes, rounded down to a multiple of it,
/// and at most `max_heap`.
pub fn heap_reservation(free_heap: usize, max_heap: usize) -> (r: usize)
    requires
        free_heap >= HEAP_BUFFER,
    ensures
        r == if (free_heap - HEAP_BUFFER) / (HEAP_BUFFER as int) * (HEAP_BUFFER as int) < max_heap {
            (free_heap - HEAP_BUFFER) / (HEAP_BUFFER as int) * (HEAP_BUFFER as int)
        } else {
            max_heap as int
        },
        r <= max_heap,
        r % HEAP_BUFFER == 0 || r == max_heap,
{
    let allocatable = free_heap - HEAP_BUFFER;
    let rounded = allocatable - (allocatable % HEAP_BUFFER);
    proof {
        assert(allocatable - allocatable % 2048 == allocatable / 2048 * 2048) by (nonlinear_arith);
        assert((allocatable / 2048 * 2048) % 2048 == 0) by (nonlinear_arith);
    }
    if rounded < max_heap {
        rounded
    } else {
        max_heap
    }
}

} // verus!
