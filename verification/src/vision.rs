//! Vision inference: turn one camera frame's marker detections into the
//! arena positions of the vehicle and the target, or a structured failure.

use vstd::prelude::*;
use crate::geometry::{bbox_center, BoundingBox, Coordinate};

verus! {

/// The color tag of a detected marker.
#[derive(Clone, Copy, PartialEq, Eq, Structural, Debug)]
pub enum MarkerColor {
    Red,
    Blue,
    Green,
    White,
    Unknown,
}

/// The fixed color of the vehicle's marker.
pub const CAR: MarkerColor = MarkerColor::Red;

/// The fixed color of the target's marker.
pub const TARGET: MarkerColor = MarkerColor::Green;

/// One marker found in a frame: its color tag and its bounding box.
#[derive(Clone, Copy, PartialEq, Eq, Structural, Debug)]
pub struct DetectedMarker {
    pub color: MarkerColor,
    pub bbox: BoundingBox,
}

/// Why a control step failed.
#[derive(Clone, Copy, PartialEq, Eq, Structural, Debug)]
pub enum StepError {
    /// A required marker was not found in the frame; the flags say which.
    DetectionFailure { car_missing: bool, target_missing: bool },
    /// A camera, actuator, or maneuver collaborator failed.
    CollaboratorFailure,
}

/// The index of the first marker of a color, if any marker has it.
pub open spec fn first_index_with(s: Seq<DetectedMarker>, c: MarkerColor) -> Option<int>
    decreases s.len(),
{
    if s.len() == 0 {
        None
    } else if s[0].color == c {
        Some(0int)
    } else {
        match first_index_with(s.drop_first(), c) {
            None => None,
            Some(i) => Some(i + 1),
        }
    }
}

/// What locating the two tracked markers among a frame's detections yields:
/// the first marker of each tracked color gives its position; a missing
/// marker gives a detection failure that says which marker was absent.
pub open spec fn locate_spec(s: Seq<DetectedMarker>) -> Result<MapState, StepError> {
    match (first_index_with(s, CAR), first_index_with(s, TARGET)) {
        (Some(i), Some(j)) => Ok(MapState {
            car: bbox_center(s[i].bbox),
            target: bbox_center(s[j].bbox),
        }),
        (ci, ti) => Err(StepError::DetectionFailure {
            car_missing: ci is None,
            target_missing: ti is None,
        }),
    }
}

/// Whether any marker in a frame carries a color.
pub open spec fn has_color(s: Seq<DetectedMarker>, c: MarkerColor) -> bool {
    exists|i: int| 0 <= i < s.len() && s[i].color == c
}

/// Law: locating succeeds exactly when both tracked markers are present,
/// and a failure names precisely the markers that were absent.
pub proof fn lemma_locate_success(s: Seq<DetectedMarker>)
    ensures
        (locate_spec(s) is Ok) <==> (has_color(s, CAR) && has_color(s, TARGET)),
        locate_spec(s) matches Err(e) ==> e == (StepError::DetectionFailure {
            car_missing: !has_color(s, CAR),
            target_missing: !has_color(s, TARGET),
        }),
{
    lemma_first_index_with(s, CAR);
    lemma_first_index_with(s, TARGET);
}

/// The arena positions inferred from one camera frame.  Created fresh on
/// every inference; superseded wholesale by the next one.
#[derive(Clone, Copy, PartialEq, Eq, Structural, Debug)]
pub struct MapState {
    pub car: Coordinate,
    pub target: Coordinate,
}

/// A found first index is a match with a clean prefix; `None` means no
/// marker of the color exists at all.
pub proof fn lemma_first_index_with(s: Seq<DetectedMarker>, c: MarkerColor)
    ensures
        match first_index_with(s, c) {
            Some(i) => 0 <= i < s.len() && s[i].color == c
                && (forall|j: int| 0 <= j < i ==> s[j].color != c),
            None => forall|j: int| 0 <= j < s.len() ==> s[j].color != c,
        },
    decreases s.len(),
{
    if s.len() > 0 && s[0].color != c {
        let sub = s.drop_first();
        lemma_first_index_with(sub, c);
        match first_index_with(sub, c) {
            Some(i) => {
                assert(sub[i] == s[i + 1]);
                assert forall|j: int| 0 <= j < i + 1 implies s[j].color != c by {
                    if j > 0 {
                        assert(sub[j - 1] == s[j]);
                    }
                }
            }
            None => {
                assert forall|j: int| 0 <= j < s.len() implies s[j].color != c by {
                    if j > 0 {
                        assert(sub[j - 1] == s[j]);
                    }
                }
            }
        }
    }
}

impl MapState {
    /// Locate the vehicle and the target among a frame's detections: the
    /// first marker of each tracked color, in the order detection reported
    /// them.
    pub fn locate(markers: &Vec<DetectedMarker>) -> (r: Result<MapState, StepError>)
        ensures
            r == locate_spec(markers@),
    {
        let car = find_first(markers, CAR);
        let target = find_first(markers, TARGET);
        proof {
            lemma_first_index_with(markers@, CAR);
            lemma_first_index_with(markers@, TARGET);
        }
        if let (Some(i), Some(j)) = (car, target) {
            Ok(MapState {
                car: Coordinate::from_bbox(&markers[i].bbox),
                target: Coordinate::from_bbox(&markers[j].bbox),
            })
        } else {
            Err(StepError::DetectionFailure {
                car_missing: car.is_none(),
                target_missing: target.is_none(),
            })
        }
    }
}

/// The drone camera's frame type, carried through opaquely: what the
/// logic reads of a frame is only the markers that detection finds in it.
#[verifier::external_type_specification]
#[verifier::external_body]
pub struct ExFrame(hs_hackathon::drone::Frame);

/// A detected LED of the vision collaborator, carried through opaquely
/// until it is repacked as a `DetectedMarker` of plain values.
#[verifier::external_type_specification]
#[verifier::external_body]
pub struct ExLed(hs_hackathon::vision::Led);

/// The error report the vision collaborator fails with.
#[verifier::external_type_specification]
#[verifier::external_body]
pub struct ExReport(eyre::Report);

/// Relies on hs_hackathon::vision::detect: find all LED markers that are
/// visible in a frame, under the default detection configuration.  Which
/// markers it finds is the vision collaborator's own business, so nothing
/// is promised of the outcome; the logic downstream is verified for every
/// list of detections it can hand back.
#[verifier::external_body]
fn detect_leds(frame: &hs_hackathon::drone::Frame) -> (r: Result<
    Vec<hs_hackathon::vision::Led>,
    eyre::Report,
>)
{
    hs_hackathon::vision::detect(&frame.0, &Default::default())
}

/// Relies on the public `color` and `bbox` fields of
/// hs_hackathon::vision::Led and the accessors of its bounding box:
/// repack one detection as plain values, moving each field across.
#[verifier::external_body]
fn marker_of_led(led: &hs_hackathon::vision::Led) -> (m: DetectedMarker)
{
    DetectedMarker {
        color: match led.color {
            hs_hackathon::vision::Color::Red => MarkerColor::Red,
            hs_hackathon::vision::Color::Blue => MarkerColor::Blue,
            hs_hackathon::vision::Color::Green => MarkerColor::Green,
            hs_hackathon::vision::Color::White => MarkerColor::White,
            hs_hackathon::vision::Color::Unknown => MarkerColor::Unknown,
        },
        bbox: BoundingBox {
            x_min: led.bbox.x_min(),
            y_min: led.bbox.y_min(),
            x_max: led.bbox.x_max(),
            y_max: led.bbox.y_max(),
        },
    }
}

impl MapState {
    /// One vision inference: detect the markers in a frame, then locate
    /// the vehicle and the target among them.  Detection is the vision
    /// collaborator's work and may fail; every other outcome is exactly
    /// what locating the tracked markers yields on some list of
    /// detections, and that selection logic is `locate`, verified in full.
    pub fn infer(frame: &hs_hackathon::drone::Frame) -> (r: Result<MapState, StepError>)
        ensures
            !(r matches Err(e) && e == StepError::CollaboratorFailure) ==> exists|
                leds: Seq<DetectedMarker>,
            | r == locate_spec(leds),
    {
        match detect_leds(frame) {
            Err(_) => Err(StepError::CollaboratorFailure),
            Ok(leds) => {
                let mut markers: Vec<DetectedMarker> = Vec::new();
                let mut i: usize = 0;
                while i < leds.len()
                    invariant
                        i <= leds.len(),
                    decreases leds.len() - i,
                {
                    markers.push(marker_of_led(&leds[i]));
                    i += 1;
                }
                Self::locate(&markers)
            }
        }
    }
}

/// Find the index of the first marker that carries a color.
fn find_first(markers: &Vec<DetectedMarker>, c: MarkerColor) -> (r: Option<usize>)
    ensures
        match r {
            Some(i) => first_index_with(markers@, c) == Some(i as int),
            None => first_index_with(markers@, c) is None,
        },
{
    let mut i: usize = 0;
    while i < markers.len()
        invariant
            i <= markers.len(),
            forall|j: int| 0 <= j < i ==> markers@[j].color != c,
        decreases markers.len() - i,
    {
        if markers[i].color == c {
            proof {
                lemma_first_index_characterization(markers@, c, i as int);
            }
            return Some(i);
        }
        i += 1;
    }
    proof {
        lemma_first_index_with(markers@, c);
    }
    None
}

/// A match behind a clean prefix is exactly what `first_index_with` finds.
proof fn lemma_first_index_characterization(s: Seq<DetectedMarker>, c: MarkerColor, i: int)
    requires
        0 <= i < s.len(),
        s[i].color == c,
        forall|j: int| 0 <= j < i ==> s[j].color != c,
    ensures
        first_index_with(s, c) == Some(i),
    decreases s.len(),
{
    if i > 0 {
        assert(forall|j: int| 0 <= j < s.drop_first().len() ==> s.drop_first()[j] == s[j + 1]);
        lemma_first_index_characterization(s.drop_first(), c, i - 1);
    }
}

} // verus!
