//! What a frame shows of a face: from measurements to a capture status.

use crate::dbus::CaptureStatus;
use crate::ir_quality::{dark_frame, is_dark_frame, GrayFrame};
use crate::number::{lemma_magnitude_increases, Single};
use vstd::prelude::*;

verus! {

/// 0.05, as the pattern of a binary32 number: how close to an edge a face may come.
pub const EDGE_MARGIN: u32 = 0x3d4c_cccd;

/// One minus `EDGE_MARGIN` in binary32 arithmetic.
pub const FAR_EDGE: u32 = 0x3f73_3333;

/// 0.2, as the pattern of a binary32 number: how far off the middle a face may be.
pub const CENTER_TOLERANCE: u32 = 0x3e4c_cccd;

/// 0.35, as the pattern of a binary32 number: the least share of the frame of a face.
pub const MIN_FACE_SIZE_RATIO: u32 = 0x3eb3_3333;

/// 0.78, as the pattern of a binary32 number: the largest share of the frame of a face.
pub const MAX_FACE_SIZE_RATIO: u32 = 0x3f47_ae14;

/// Where the first face of a frame stands. The edges are divided by the frame's longer
/// side, as are the distances of the face's middle from one half; the size is the face's
/// longer side by the frame's shorter side.
#[derive(Clone, Copy, Debug, PartialEq, Eq, Structural)]
pub struct FaceMeasures {
    pub left: Single,
    pub top: Single,
    pub right: Single,
    pub bottom: Single,
    pub off_center_x: Single,
    pub off_center_y: Single,
    pub size_ratio: Single,
    pub has_landmarks: bool,
}

/// What to do next with a frame.
#[derive(Clone, Copy, Debug, PartialEq, Eq, Structural)]
pub enum CaptureStep {
    /// Look for faces.
    Detect,
    /// Check the texture of the face's patch.
    CheckTexture,
    /// The frame has a status. `keep` tells whether the frame goes with it.
    Done { status: CaptureStatus, keep: bool },
}

impl FaceMeasures {
    /// The face comes too close to an edge.
    pub open spec fn clipped(self) -> bool {
        ||| self.left.below((Single { bits: EDGE_MARGIN }))
        ||| self.top.below((Single { bits: EDGE_MARGIN }))
        ||| (Single { bits: FAR_EDGE }).below(self.right)
        ||| (Single { bits: FAR_EDGE }).below(self.bottom)
    }

    /// The face is too far off the middle.
    pub open spec fn off_center(self) -> bool {
        ||| (Single { bits: CENTER_TOLERANCE }).at_most(self.off_center_x)
        ||| (Single { bits: CENTER_TOLERANCE }).at_most(self.off_center_y)
    }

    /// The status of a face by its place and size: the first complaint that holds.
    pub open spec fn placement(self) -> CaptureStatus {
        if self.clipped() {
            CaptureStatus::Clipped
        } else if self.off_center() {
            CaptureStatus::NotCentered
        } else if self.size_ratio.below((Single { bits: MIN_FACE_SIZE_RATIO })) {
            CaptureStatus::TooFar
        } else if (Single { bits: MAX_FACE_SIZE_RATIO }).below(self.size_ratio) {
            CaptureStatus::TooClose
        } else if !self.has_landmarks {
            CaptureStatus::NoFace
        } else {
            CaptureStatus::Ready
        }
    }

    /// The status of a face by its place and size.
    pub fn status(&self) -> (r: CaptureStatus)
        ensures
            r == self.placement(),
            r == CaptureStatus::Clipped <==> self.left.below((Single { bits: EDGE_MARGIN }))
                || self.top.below((Single { bits: EDGE_MARGIN })) || (Single {
                bits: FAR_EDGE,
            }).below(self.right) || (Single { bits: FAR_EDGE }).below(self.bottom),
            r == CaptureStatus::Ready ==> self.has_landmarks && !(Single {
                bits: CENTER_TOLERANCE,
            }).at_most(self.off_center_x) && !(Single { bits: CENTER_TOLERANCE }).at_most(
                self.off_center_y,
            ) && !self.size_ratio.below((Single { bits: MIN_FACE_SIZE_RATIO })) && !(Single {
                bits: MAX_FACE_SIZE_RATIO,
            }).below(self.size_ratio),
    {
        let margin: Single = Single { bits: EDGE_MARGIN };
        let far: Single = Single { bits: FAR_EDGE };
        let tolerance: Single = Single { bits: CENTER_TOLERANCE };
        if self.left.lt(margin) || self.top.lt(margin) || far.lt(self.right) || far.lt(
            self.bottom,
        ) {
            CaptureStatus::Clipped
        } else if tolerance.le(self.off_center_x) || tolerance.le(self.off_center_y) {
            CaptureStatus::NotCentered
        } else if self.size_ratio.lt(Single { bits: MIN_FACE_SIZE_RATIO }) {
            CaptureStatus::TooFar
        } else if (Single { bits: MAX_FACE_SIZE_RATIO }).lt(self.size_ratio) {
            CaptureStatus::TooClose
        } else if !self.has_landmarks {
            CaptureStatus::NoFace
        } else {
            CaptureStatus::Ready
        }
    }
}

/// A face is ready only if all of this holds: no edge comes too close to the border, it
/// stands in the middle in both directions, its size is in range, and it has landmarks.
pub proof fn ready_faces_meet_every_bound(face: FaceMeasures)
    requires
        !face.left.is_nan(),
        !face.top.is_nan(),
        !face.right.is_nan(),
        !face.bottom.is_nan(),
        !face.off_center_x.is_nan(),
        !face.off_center_y.is_nan(),
        !face.size_ratio.is_nan(),
    ensures
        ({
            let margin = (Single { bits: EDGE_MARGIN }).scaled();
            let far = (Single { bits: FAR_EDGE }).scaled();
            let tolerance = (Single { bits: CENTER_TOLERANCE }).scaled();
            let smallest = (Single { bits: MIN_FACE_SIZE_RATIO }).scaled();
            let largest = (Single { bits: MAX_FACE_SIZE_RATIO }).scaled();
            face.placement() == CaptureStatus::Ready <==> {
                &&& face.left.scaled() >= margin
                &&& face.top.scaled() >= margin
                &&& face.right.scaled() <= far
                &&& face.bottom.scaled() <= far
                &&& face.off_center_x.scaled() < tolerance
                &&& face.off_center_y.scaled() < tolerance
                &&& smallest <= face.size_ratio.scaled() <= largest
                &&& face.has_landmarks
            }
        }),
{
}

/// A face is clipped exactly if one of its four edges comes too close to the border, and off
/// center exactly if none does and its middle is too far off in one of the two directions.
/// Only then its size counts: a face is too far away if it is too small and too close if it
/// is too large, and only a face that has no complaint at all is missed for its landmarks.
pub proof fn each_complaint_has_its_bound(face: FaceMeasures)
    requires
        !face.left.is_nan(),
        !face.top.is_nan(),
        !face.right.is_nan(),
        !face.bottom.is_nan(),
        !face.off_center_x.is_nan(),
        !face.off_center_y.is_nan(),
        !face.size_ratio.is_nan(),
    ensures
        ({
            let margin = (Single { bits: EDGE_MARGIN }).scaled();
            let far = (Single { bits: FAR_EDGE }).scaled();
            let tolerance = (Single { bits: CENTER_TOLERANCE }).scaled();
            let smallest = (Single { bits: MIN_FACE_SIZE_RATIO }).scaled();
            let largest = (Single { bits: MAX_FACE_SIZE_RATIO }).scaled();
            let at_edge = face.left.scaled() < margin || face.top.scaled() < margin
                || face.right.scaled() > far || face.bottom.scaled() > far;
            let off = face.off_center_x.scaled() >= tolerance || face.off_center_y.scaled()
                >= tolerance;
            let size = face.size_ratio.scaled();
            &&& face.placement() == CaptureStatus::Clipped <==> at_edge
            &&& face.placement() == CaptureStatus::NotCentered <==> !at_edge && off
            &&& face.placement() == CaptureStatus::TooFar <==> !at_edge && !off && size < smallest
            &&& face.placement() == CaptureStatus::TooClose <==> !at_edge && !off && size > largest
            &&& face.placement() == CaptureStatus::NoFace <==> !at_edge && !off && smallest <= size
                <= largest && !face.has_landmarks
        }),
{
    lemma_sizes_are_ordered();
}

proof fn lemma_sizes_are_ordered()
    ensures
        (Single { bits: MIN_FACE_SIZE_RATIO }).scaled() < (Single {
            bits: MAX_FACE_SIZE_RATIO,
        }).scaled(),
{
    lemma_magnitude_increases(
        MIN_FACE_SIZE_RATIO as nat,
        MAX_FACE_SIZE_RATIO as nat,
        0x80_0000,
    );
}

/// Width and height count alike: a face judged on its side gets the same status.
pub proof fn directions_count_alike(face: FaceMeasures)
    ensures
        face.placement() == (FaceMeasures {
            left: face.top,
            top: face.left,
            right: face.bottom,
            bottom: face.right,
            off_center_x: face.off_center_y,
            off_center_y: face.off_center_x,
            ..face
        }).placement(),
{
}

/// A face that is moved further from every border, nearer to the middle and keeps its size
/// and landmarks never gets clipped or off center by it.
pub proof fn better_placed_faces_stay_well_placed(worse: FaceMeasures, better: FaceMeasures)
    requires
        worse.left.at_most(better.left),
        worse.top.at_most(better.top),
        better.right.at_most(worse.right),
        better.bottom.at_most(worse.bottom),
        better.off_center_x.at_most(worse.off_center_x),
        better.off_center_y.at_most(worse.off_center_y),
        better.size_ratio == worse.size_ratio,
        better.has_landmarks == worse.has_landmarks,
        worse.placement() != CaptureStatus::Clipped,
        worse.placement() != CaptureStatus::NotCentered,
    ensures
        better.placement() == worse.placement(),
{
}

/// Takes frames to a capture status; in infrared mode dark frames and faces without
/// texture count as no face.
#[derive(Clone, Copy, Debug, PartialEq, Eq, Structural)]
pub struct FaceChecker {
    pub infrared: bool,
}

/// The status of a frame and whether the frame is kept, from everything there is to know
/// of it: whether it is dark, the first face and whether its patch has texture.
pub open spec fn frame_status(
    infrared: bool,
    dark: bool,
    face: Option<FaceMeasures>,
    textured: bool,
) -> (CaptureStatus, bool) {
    if infrared && dark {
        (CaptureStatus::NoFace, false)
    } else {
        match face {
            None => (CaptureStatus::NoFace, false),
            Some(face) => match face.placement() {
                CaptureStatus::NoFace => (CaptureStatus::NoFace, false),
                CaptureStatus::Ready => if infrared && !textured {
                    (CaptureStatus::NoFace, false)
                } else {
                    (CaptureStatus::Ready, true)
                },
                other => (other, true),
            },
        }
    }
}

impl FaceChecker {
    /// A checker for RGB frames.
    pub fn new() -> (r: FaceChecker)
        ensures
            r == (FaceChecker { infrared: false }),
    {
        FaceChecker { infrared: false }
    }

    /// Switches infrared mode.
    pub fn set_ir_mode(&mut self, on: bool)
        ensures
            *final(self) == (FaceChecker { infrared: on }),
    {
        self.infrared = on;
    }

    /// Whether infrared mode is on.
    pub fn ir_mode(&self) -> (r: bool)
        ensures
            r == self.infrared,
    {
        self.infrared
    }

    /// What follows the arrival of a frame; `gray` is the frame in gray.
    pub open spec fn after_frame(self, gray: GrayFrame) -> CaptureStep {
        if self.infrared && dark_frame(gray.rows, gray.cols, gray.data@) {
            CaptureStep::Done { status: CaptureStatus::NoFace, keep: false }
        } else {
            CaptureStep::Detect
        }
    }

    /// What follows the search for faces.
    pub open spec fn after_detection(self, face: Option<FaceMeasures>) -> CaptureStep {
        match face {
            None => CaptureStep::Done { status: CaptureStatus::NoFace, keep: false },
            Some(face) => match face.placement() {
                CaptureStatus::NoFace => CaptureStep::Done {
                    status: CaptureStatus::NoFace,
                    keep: false,
                },
                CaptureStatus::Ready => if self.infrared {
                    CaptureStep::CheckTexture
                } else {
                    CaptureStep::Done { status: CaptureStatus::Ready, keep: true }
                },
                other => CaptureStep::Done { status: other, keep: true },
            },
        }
    }

    /// What follows the check of the texture.
    pub open spec fn after_texture(self, live: bool) -> CaptureStep {
        if live {
            CaptureStep::Done { status: CaptureStatus::Ready, keep: true }
        } else {
            CaptureStep::Done { status: CaptureStatus::NoFace, keep: false }
        }
    }

    /// A frame arrived: a dark infrared frame is dropped, any other is searched for faces.
    pub fn frame_arrived(&self, gray: &GrayFrame) -> (r: CaptureStep)
        ensures
            r == self.after_frame(*gray),
    {
        if self.infrared && is_dark_frame(gray) {
            CaptureStep::Done { status: CaptureStatus::NoFace, keep: false }
        } else {
            CaptureStep::Detect
        }
    }

    /// The search for faces is over; `face` is the first face, if there was any.
    pub fn faces_detected(&self, face: Option<FaceMeasures>) -> (r: CaptureStep)
        ensures
            r == self.after_detection(face),
    {
        match face {
            None => CaptureStep::Done { status: CaptureStatus::NoFace, keep: false },
            Some(face) => {
                match face.status() {
                    CaptureStatus::NoFace => CaptureStep::Done {
                        status: CaptureStatus::NoFace,
                        keep: false,
                    },
                    CaptureStatus::Ready => {
                        if self.infrared {
                            CaptureStep::CheckTexture
                        } else {
                            CaptureStep::Done { status: CaptureStatus::Ready, keep: true }
                        }
                    },
                    other => CaptureStep::Done { status: other, keep: true },
                }
            },
        }
    }

    /// The texture of the face's patch was checked.
    pub fn texture_checked(&self, live: bool) -> (r: CaptureStep)
        ensures
            r == self.after_texture(live),
    {
        if live {
            CaptureStep::Done { status: CaptureStatus::Ready, keep: true }
        } else {
            CaptureStep::Done { status: CaptureStatus::NoFace, keep: false }
        }
    }
}

/// The steps of a checker together give every frame the status that the frame, its first
/// face and the texture of its patch call for, and ask for nothing that does not matter.
pub proof fn steps_give_the_frame_status(
    checker: FaceChecker,
    gray: GrayFrame,
    face: Option<FaceMeasures>,
    live: bool,
)
    ensures
        ({
            let dark = dark_frame(gray.rows, gray.cols, gray.data@);
            let outcome = frame_status(checker.infrared, dark, face, live);
            let done = CaptureStep::Done { status: outcome.0, keep: outcome.1 };
            match checker.after_frame(gray) {
                CaptureStep::Detect => match checker.after_detection(face) {
                    CaptureStep::CheckTexture => checker.after_texture(live) == done,
                    step => step == done,
                },
                step => step == done,
            }
        }),
{
}

/// Each step of a checker by what it was told: a frame is dropped before the search only if
/// it is an infrared frame and dark; a face is reported and kept with its placement, unless
/// it is ready and infrared, when its texture decides; no face is kept as none.
pub proof fn steps_follow_what_they_are_told(
    checker: FaceChecker,
    gray: GrayFrame,
    face: Option<FaceMeasures>,
    live: bool,
)
    ensures
        checker.after_frame(gray) == CaptureStep::Detect <==> !(checker.infrared && dark_frame(
            gray.rows,
            gray.cols,
            gray.data@,
        )),
        checker.after_frame(gray) != CaptureStep::Detect ==> checker.after_frame(gray) == (
        CaptureStep::Done { status: CaptureStatus::NoFace, keep: false }),
        checker.after_detection(face) == CaptureStep::CheckTexture <==> checker.infrared && (face
            matches Some(face) && face.placement() == CaptureStatus::Ready),
        face is None ==> checker.after_detection(face) == (CaptureStep::Done {
            status: CaptureStatus::NoFace,
            keep: false,
        }),
        face matches Some(found) && (!checker.infrared || found.placement() != CaptureStatus::Ready)
            ==> checker.after_detection(face) == (CaptureStep::Done {
            status: face->0.placement(),
            keep: face->0.placement() != CaptureStatus::NoFace,
        }),
        checker.after_texture(live) == (CaptureStep::Done {
            status: if live {
                CaptureStatus::Ready
            } else {
                CaptureStatus::NoFace
            },
            keep: live,
        }),
{
}

/// Without infrared mode neither darkness nor texture matters.
pub proof fn color_frames_go_by_the_face_alone(
    dark: bool,
    other_dark: bool,
    face: Option<FaceMeasures>,
    textured: bool,
    other_textured: bool,
)
    ensures
        frame_status(false, dark, face, textured) == frame_status(
            false,
            other_dark,
            face,
            other_textured,
        ),
        frame_status(false, dark, face, textured).0 == (match face {
            Some(face) => face.placement(),
            None => CaptureStatus::NoFace,
        }),
{
}

/// A frame is kept exactly if it shows a face, and an infrared frame is only ready if it
/// is neither dark nor without texture.
pub proof fn kept_frames_show_a_face(
    infrared: bool,
    dark: bool,
    face: Option<FaceMeasures>,
    textured: bool,
)
    ensures
        frame_status(infrared, dark, face, textured).1 <==> frame_status(
            infrared,
            dark,
            face,
            textured,
        ).0 != CaptureStatus::NoFace,
        infrared && frame_status(infrared, dark, face, textured).0 == CaptureStatus::Ready ==> !dark
            && textured,
{
}

} // verus!
