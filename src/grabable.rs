//! The single-controller grab state machine that `Moveable` superseded.
use vstd::prelude::*;
use crate::interact::{
    after_block, after_pointing_laser, point_ordinal, ControllerGuru, GuruView, InteractionReply,
    PointTicket, TouchTicket,
};
use crate::moveable::Probe;

verus! {

/// Represents something being grabbed by one controller. `offset` is where
/// the object sits relative to the controller that holds it.
#[derive(Debug, PartialEq, Eq, Structural, Copy, Clone)]
pub enum GrabableState<O> {
    Held { offset: O },
    Pointed,
    Free,
}

impl<O> Default for GrabableState<O> {
    fn default() -> (r: Self)
        ensures
            r == GrabableState::<O>::Free,
    {
        GrabableState::Free
    }
}

/// Entitles a grabbable object to its next state once the frame is
/// resolved.
#[derive(Debug, PartialEq, Eq, Structural, Copy, Clone)]
pub struct GrabableTicket<O> {
    /// The grip that carries over from the previous frame.
    pub persist: Option<O>,
    /// The touch query that may start a new grip.
    pub touched: Option<TouchTicket>,
    pub pointing: PointTicket,
}

/// The state of the controller's guru before the object's pointing query:
/// an object still held while the trigger is let go blocks the controller.
pub open spec fn grabable_guru_before<O, H>(s: GrabableState<O>, g: GuruView<H>) -> GuruView<H> {
    match s {
        GrabableState::Held { .. } if !g.data.trigger_down() => after_block(g),
        _ => g,
    }
}

/// The next state of an object from its ticket and the frame's answers;
/// `grip` is where the object sits relative to the controller now.
pub open spec fn grabable_next<O, H>(t: GrabableTicket<O>, reply: InteractionReply<H>, grip: O) -> GrabableState<O> {
    match t.persist {
        Some(offset) => GrabableState::Held { offset },
        None => {
            if t.touched is Some && reply.touch_answer(t.touched->Some_0) {
                GrabableState::Held { offset: grip }
            } else if reply.point_answer(t.pointing) is Some {
                GrabableState::Pointed
            } else {
                GrabableState::Free
            }
        },
    }
}

impl<O: Copy> GrabableState<O> {
    /// Registers the object's queries on one controller: a held object
    /// stays held while the trigger is down; a pressed trigger asks whether
    /// the controller touches the object; and the controller's ray is cast
    /// at it, stopping there.
    pub fn update<H>(&self, interact: &mut ControllerGuru<H>, probe: Probe<H>) -> (r:
        GrabableTicket<O>)
        requires
            old(interact).wf(),
        ensures
            final(interact).wf(),
            final(interact)@ == after_pointing_laser(
                grabable_guru_before(*self, old(interact)@),
                probe.hit,
                true,
            ),
            r.pointing.by == old(interact)@.index,
            r.pointing.ordinal == point_ordinal(
                grabable_guru_before(*self, old(interact)@),
                probe.hit,
            ),
            r.persist == match *self {
                GrabableState::Held { offset } if old(interact)@.data.trigger_down() => Some(
                    offset,
                ),
                _ => None::<O>,
            },
            r.touched == match *self {
                GrabableState::Held { .. } => None::<TouchTicket>,
                _ => if old(interact)@.data.trigger_pressed() {
                    Some(
                        TouchTicket {
                            by: old(interact)@.index,
                            touching: probe.contains && !old(interact)@.touch_blocked,
                        },
                    )
                } else {
                    None::<TouchTicket>
                },
            },
    {
        let down = interact.state().down();
        let pressed = interact.state().pressed();
        let mut persist: Option<O> = None;
        let mut touched: Option<TouchTicket> = None;
        match self {
            GrabableState::Held { offset } => {
                if down {
                    persist = Some(*offset);
                } else {
                    interact.block();
                }
            },
            _ => {
                if pressed {
                    touched = Some(interact.touched(probe.contains));
                }
            },
        }
        let pointing = interact.pointing_laser(probe.hit, true);
        GrabableTicket { persist, touched, pointing }
    }
}

impl<O: Copy> GrabableTicket<O> {
    /// The object's next state from the frame's answers; `grip` is where
    /// the object sits relative to the controller now, kept if a new grab
    /// starts.
    pub fn finish<H>(self, reply: &InteractionReply<H>, grip: O) -> (r: GrabableState<O>)
        ensures
            r == grabable_next(self, *reply, grip),
    {
        match self.persist {
            Some(offset) => GrabableState::Held { offset },
            None => {
                let touched = match self.touched {
                    Some(t) => reply.touched(t),
                    None => false,
                };
                if touched {
                    GrabableState::Held { offset: grip }
                } else if reply.pointed(self.pointing).is_some() {
                    GrabableState::Pointed
                } else {
                    GrabableState::Free
                }
            },
        }
    }
}

} // verus!
