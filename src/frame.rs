//! One submit-then-resolve cycle per frame over interaction and physics.
use vstd::prelude::*;
use vstd::pervasive::cloned;
use crate::interact::{InteractGuru, InteractionReply};
use crate::moveable::{move_data, next_moveable, MoveData, MoveTicket, Moveable, Probe};
use crate::physics::{ticket_answer, BodyTicket, PhysicsGuru, PhysicsReply, TicketError};

verus! {

/// The coordinators that every object submits to during a frame.
pub struct Gurus<H, B> {
    pub interact: InteractGuru<H>,
    pub physics: PhysicsGuru<B>,
}

/// The one frozen reply of a frame, which answers every ticket.
pub struct GuruReply<H, B> {
    pub interact: InteractionReply<H>,
    pub physics: PhysicsReply<B>,
}

impl<H, B> Gurus<H, B> {
    /// Resolves both coordinators once, given the bodies' states after the
    /// physics step, one for each submitted body and in the same order.
    pub fn resolve(self, stepped: Vec<B>) -> (r: GuruReply<H, B>)
        requires
            self.interact.wf(),
            stepped.len() == self.physics@.bodies.len(),
        ensures
            r.interact.primary@ == self.interact.primary.reply_view(),
            r.interact.secondary@ == self.interact.secondary.reply_view(),
            r.physics@.frame == self.physics@.frame,
            r.physics@.bodies.len() == stepped@.len(),
            forall|i: int|
                0 <= i < stepped@.len() ==> #[trigger] r.physics@.bodies[i] == Some(stepped@[i]),
    {
        GuruReply { interact: self.interact.resolve(), physics: self.physics.resolve(stepped) }
    }
}

/// A physics body that controllers can grab and yank.
pub struct GrabbablePhysicsState<B> {
    pub mov: Moveable,
    pub body: B,
}

/// Entitles a grabbable object to its body and its next state once the
/// frame is resolved.
#[derive(Debug, PartialEq, Eq, Structural, Copy, Clone)]
pub struct GrabTicket {
    pub body: BodyTicket,
    pub mov: MoveTicket,
}

impl<B: Clone> GrabbablePhysicsState<B> {
    /// A free object with the given body.
    pub fn new_free(body: B) -> (r: Self)
        ensures
            r.mov == Moveable::Free,
            r.body == body,
    {
        GrabbablePhysicsState { mov: Moveable::default(), body }
    }

    /// Submits a copy of the body to the physics step and registers the
    /// object's interaction queries, given what each controller measured
    /// against the body's shape.
    pub fn update<H>(
        &self,
        interact: &mut InteractGuru<H>,
        physics: &mut PhysicsGuru<B>,
        primary: Probe<H>,
        secondary: Probe<H>,
        yank_speed: u64,
    ) -> (r: GrabTicket)
        requires
            old(interact).wf(),
        ensures
            final(physics)@.frame == old(physics)@.frame,
            final(physics)@.bodies.len() == old(physics)@.bodies.len() + 1,
            final(physics)@.bodies.drop_last() == old(physics)@.bodies,
            cloned(self.body, final(physics)@.bodies.last()),
            r.body == (BodyTicket {
                frame: old(physics)@.frame,
                slot: old(physics)@.bodies.len() as usize,
            }),
            self.mov.updated(
                *old(interact),
                *final(interact),
                primary,
                secondary,
                yank_speed,
                r.mov,
            ),
    {
        let copy = self.body.clone();
        let body = physics.body(copy);
        proof {
            assert(final(physics)@.bodies.drop_last() =~= old(physics)@.bodies);
        }
        let mov = self.mov.update(interact, primary, secondary, yank_speed);
        GrabTicket { body, mov }
    }

    /// Takes the stepped body from the frame's reply and moves the object
    /// to its next state. The pose that the result asks for is to be laid
    /// on the body. Where the ticket yields no body, nothing changes.
    pub fn finish<H>(&mut self, t: GrabTicket, reply: &mut GuruReply<H, B>) -> (r: Result<
        MoveData,
        TicketError,
    >)
        ensures
            final(reply).interact == old(reply).interact,
            match ticket_answer(old(reply).physics@, t.body) {
                Ok(b) => {
                    let next = next_moveable(old(self).mov, old(reply).interact, t.mov);
                    &&& r == Ok::<MoveData, TicketError>(move_data(next, t.mov.dt, t.mov.yank_speed))
                    &&& final(self).mov == next
                    &&& final(self).body == b
                    &&& final(reply).physics@.frame == old(reply).physics@.frame
                    &&& final(reply).physics@.bodies == old(reply).physics@.bodies.update(
                        t.body.slot as int,
                        None,
                    )
                },
                Err(e) => {
                    &&& r == Err::<MoveData, TicketError>(e)
                    &&& *final(self) == *old(self)
                    &&& final(reply).physics@ == old(reply).physics@
                },
            },
    {
        match reply.physics.take(t.body) {
            Ok(b) => {
                let data = self.mov.finish(t.mov, &reply.interact);
                self.body = b;
                Ok(data)
            },
            Err(e) => Err(e),
        }
    }
}

} // verus!
