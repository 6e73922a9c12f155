//! Deferred access to physics bodies around the once-per-frame step.
use vstd::prelude::*;

verus! {

/// Entitles its holder to one body's state after the step of the frame it
/// was submitted in.
#[derive(Debug, PartialEq, Eq, Structural, Copy, Clone)]
pub struct BodyTicket {
    pub frame: u64,
    pub slot: usize,
}

/// Why a ticket yields no body.
#[derive(Debug, PartialEq, Eq, Structural, Copy, Clone)]
pub enum TicketError {
    /// The ticket's frame has not been stepped yet.
    NotResolved,
    /// The ticket belongs to an earlier frame.
    Expired,
    /// No body was submitted under this ticket.
    Unknown,
    /// The body was already handed out.
    Taken,
}

/// The bodies submitted for one frame's step, in order.
pub struct PhysicsGuru<B> {
    frame: u64,
    bodies: Vec<B>,
}

/// The state of a `PhysicsGuru` as its contracts see it.
pub struct PhysicsView<B> {
    pub frame: u64,
    pub bodies: Seq<B>,
}

impl<B> View for PhysicsGuru<B> {
    type V = PhysicsView<B>;

    closed spec fn view(&self) -> PhysicsView<B> {
        PhysicsView { frame: self.frame, bodies: self.bodies@ }
    }
}

impl<B> PhysicsGuru<B> {
    /// A guru for the given frame, with no bodies yet.
    pub fn new(frame: u64) -> (r: Self)
        ensures
            r@.frame == frame,
            r@.bodies.len() == 0,
    {
        PhysicsGuru { frame, bodies: Vec::new() }
    }

    /// Submits a body to this frame's step.
    pub fn body(&mut self, body: B) -> (r: BodyTicket)
        ensures
            final(self)@ == (PhysicsView { bodies: old(self)@.bodies.push(body), ..old(self)@ }),
            r == (BodyTicket { frame: old(self)@.frame, slot: old(self)@.bodies.len() as usize }),
    {
        let slot = self.bodies.len();
        self.bodies.push(body);
        BodyTicket { frame: self.frame, slot }
    }

    /// The bodies submitted so far, in the order of their tickets.
    pub fn submitted(&self) -> (r: &Vec<B>)
        ensures
            r@ == self@.bodies,
    {
        &self.bodies
    }

    /// Completes the frame with the bodies' states after the step, one for
    /// each submitted body and in the same order. The guru is used up: a
    /// frame is stepped once.
    pub fn resolve(self, stepped: Vec<B>) -> (r: PhysicsReply<B>)
        requires
            stepped.len() == self@.bodies.len(),
        ensures
            r@.frame == self@.frame,
            r@.bodies.len() == stepped@.len(),
            forall|i: int| 0 <= i < stepped@.len() ==> #[trigger] r@.bodies[i] == Some(stepped@[i]),
    {
        let mut stepped = stepped;
        let ghost all = stepped@;
        let n = stepped.len();
        let mut reversed: Vec<B> = Vec::new();
        while stepped.len() > 0
            invariant
                all.len() == n,
                stepped@.len() + reversed@.len() == n,
                stepped@ == all.subrange(0, stepped@.len() as int),
                forall|i: int|
                    0 <= i < reversed@.len() ==> #[trigger] reversed@[i] == all[n - 1 - i],
            decreases stepped@.len(),
        {
            let b = stepped.pop().unwrap();
            reversed.push(b);
        }
        let mut bodies: Vec<Option<B>> = Vec::new();
        while reversed.len() > 0
            invariant
                all.len() == n,
                reversed@.len() + bodies@.len() == n,
                forall|i: int|
                    0 <= i < reversed@.len() ==> #[trigger] reversed@[i] == all[n - 1 - i],
                forall|i: int| 0 <= i < bodies@.len() ==> #[trigger] bodies@[i] == Some(all[i]),
            decreases reversed@.len(),
        {
            let b = reversed.pop().unwrap();
            bodies.push(Some(b));
        }
        PhysicsReply { frame: self.frame, bodies }
    }
}

/// The state of a `PhysicsReply` as its contracts see it.
pub struct StepView<B> {
    pub frame: u64,
    pub bodies: Seq<Option<B>>,
}

/// What a ticket yields from the reply of a frame.
pub open spec fn ticket_answer<B>(r: StepView<B>, t: BodyTicket) -> Result<B, TicketError> {
    if t.frame > r.frame {
        Err(TicketError::NotResolved)
    } else if t.frame < r.frame {
        Err(TicketError::Expired)
    } else if t.slot >= r.bodies.len() {
        Err(TicketError::Unknown)
    } else {
        match r.bodies[t.slot as int] {
            Some(b) => Ok(b),
            None => Err(TicketError::Taken),
        }
    }
}

/// The bodies of one frame after its step.
pub struct PhysicsReply<B> {
    frame: u64,
    bodies: Vec<Option<B>>,
}

impl<B> View for PhysicsReply<B> {
    type V = StepView<B>;

    closed spec fn view(&self) -> StepView<B> {
        StepView { frame: self.frame, bodies: self.bodies@ }
    }
}

impl<B> PhysicsReply<B> {
    /// Hands out the stepped body of a ticket of this frame, once.
    pub fn take(&mut self, t: BodyTicket) -> (r: Result<B, TicketError>)
        ensures
            r == ticket_answer(old(self)@, t),
            final(self)@ == if r is Ok {
                StepView { bodies: old(self)@.bodies.update(t.slot as int, None), ..old(self)@ }
            } else {
                old(self)@
            },
    {
        if t.frame > self.frame {
            Err(TicketError::NotResolved)
        } else if t.frame < self.frame {
            Err(TicketError::Expired)
        } else if t.slot >= self.bodies.len() {
            Err(TicketError::Unknown)
        } else {
            let mut out: Option<B> = None;
            self.bodies.set_and_swap(t.slot, &mut out);
            match out {
                Some(b) => Ok(b),
                None => {
                    self.bodies.set_and_swap(t.slot, &mut out);
                    proof {
                        assert(self.bodies@ =~= old(self).bodies@);
                    }
                    Err(TicketError::Taken)
                },
            }
        }
    }
}

/// A body submitted in frame `k` yields its state after the step only from
/// the reply of frame `k`: a reply of an earlier frame finds it not yet
/// stepped, a later one finds it expired.
pub proof fn lemma_ticket_needs_its_step<B>(r: StepView<B>, t: BodyTicket)
    ensures
        ticket_answer(r, t) is Ok ==> t.frame == r.frame,
        r.frame < t.frame ==> ticket_answer(r, t) == Err::<B, TicketError>(TicketError::NotResolved),
        r.frame > t.frame ==> ticket_answer(r, t) == Err::<B, TicketError>(TicketError::Expired),
{
}

} // verus!
