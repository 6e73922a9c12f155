//! The decisions of a slider control that a controller can grab.
use vstd::prelude::*;
use crate::moveable::{MoveData, MoveableIntention};

verus! {

/// How a slider is being handled.
#[derive(Debug, PartialEq, Eq, Structural, Copy, Clone)]
pub enum SliderMode {
    /// Nobody holds it.
    Unheld,
    /// It is carried around whole.
    Moving,
    /// Its knob is being slid along it.
    Sliding,
}

/// What a slider does with the pose its manipulation asks for.
#[derive(Debug, PartialEq, Eq, Structural, Copy, Clone)]
pub enum SliderAction {
    /// Nothing changes.
    Keep,
    /// The knob's value follows the grip along the slider.
    SetValue,
    /// The whole slider moves to the asked pose.
    MoveTo,
}

/// The slider's next mode and action from its current mode, the outcome of
/// its manipulation, and whether a new grip lies on the knob.
pub open spec fn slider_step(mode: SliderMode, data: MoveData, on_knob: bool) -> (SliderMode, SliderAction) {
    match data.fixed {
        Some(_) => {
            if data.intent == MoveableIntention::Manipulate {
                match mode {
                    SliderMode::Unheld => if on_knob {
                        (SliderMode::Sliding, SliderAction::Keep)
                    } else {
                        (SliderMode::Moving, SliderAction::Keep)
                    },
                    SliderMode::Sliding => (SliderMode::Sliding, SliderAction::SetValue),
                    SliderMode::Moving => (SliderMode::Moving, SliderAction::MoveTo),
                }
            } else {
                (SliderMode::Moving, SliderAction::MoveTo)
            }
        },
        None => (SliderMode::Unheld, SliderAction::Keep),
    }
}

impl SliderMode {
    /// Decides the slider's next mode and action: a fresh grab on the knob
    /// slides it, elsewhere it carries the slider; a yank always carries it;
    /// letting go leaves it unheld.
    pub fn next(self, data: MoveData, on_knob: bool) -> (r: (SliderMode, SliderAction))
        ensures
            r == slider_step(self, data, on_knob),
    {
        match data.fixed {
            Some(_) => {
                if data.intent == MoveableIntention::Manipulate {
                    match self {
                        SliderMode::Unheld => if on_knob {
                            (SliderMode::Sliding, SliderAction::Keep)
                        } else {
                            (SliderMode::Moving, SliderAction::Keep)
                        },
                        SliderMode::Sliding => (SliderMode::Sliding, SliderAction::SetValue),
                        SliderMode::Moving => (SliderMode::Moving, SliderAction::MoveTo),
                    }
                } else {
                    (SliderMode::Moving, SliderAction::MoveTo)
                }
            },
            None => (SliderMode::Unheld, SliderAction::Keep),
        }
    }
}

} // verus!
