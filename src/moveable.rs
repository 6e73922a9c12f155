//! The grab and yank state machine of a manipulable object.
use vstd::prelude::*;
use crate::interact::{
    after_block, after_pointing_laser, point_ordinal, ControllerIndex, ControllerState, Hit,
    InteractGuru, InteractionReply, PointTicket, TouchTicket,
};

verus! {

/// What an object wants of its physics body this frame.
#[derive(Debug, PartialEq, Eq, Structural, Copy, Clone)]
pub enum MoveableIntention {
    /// It is being carried to a controller.
    Move,
    /// It is held in a controller.
    Manipulate,
    /// It is left to physics.
    Free,
}

/// How an object is being manipulated. It persists across frames.
#[derive(Debug, PartialEq, Eq, Structural, Copy, Clone)]
pub enum Moveable {
    /// Held in a controller's grip.
    Grabbed { index: ControllerIndex },
    /// Flying towards a controller. `progress` is the time spent so far, in
    /// the units of the frame time; the flight is over once it reaches the
    /// yank duration.
    Yanked { progress: u64, index: ControllerIndex },
    /// Left to physics.
    Free,
}

impl Default for Moveable {
    fn default() -> (r: Self)
        ensures
            r == Moveable::Free,
    {
        Moveable::Free
    }
}

/// How an object's pose follows the controller that holds it.
#[derive(Debug, PartialEq, Eq, Structural, Copy, Clone)]
pub enum Motion {
    /// The object moves rigidly with the controller's grip.
    Follow,
    /// The object covers the fraction `step / span` of the remaining way
    /// towards the controller this frame.
    Approach { step: u64, span: u128 },
    /// The object sits at its place relative to the controller.
    Locked,
}

/// An object whose pose a controller decides this frame.
#[derive(Debug, PartialEq, Eq, Structural, Copy, Clone)]
pub struct Fixed {
    pub by: ControllerIndex,
    pub motion: Motion,
}

/// The outcome of an object's update.
#[derive(Debug, PartialEq, Eq, Structural, Copy, Clone)]
pub struct MoveData {
    pub intent: MoveableIntention,
    pub fixed: Option<Fixed>,
}

/// What was measured of one controller against an object's shape this
/// frame: where its ray met the shape, and whether the shape contains the
/// controller.
pub struct Probe<H> {
    pub hit: Option<Hit<H>>,
    pub contains: bool,
}

/// The queries that an object registered on one controller.
#[derive(Debug, PartialEq, Eq, Structural, Copy, Clone)]
pub struct ControllerTickets {
    pub point: PointTicket,
    pub touch: TouchTicket,
}

/// Entitles an object to its next state once the frame is resolved.
#[derive(Debug, PartialEq, Eq, Structural, Copy, Clone)]
pub struct MoveTicket {
    pub primary: ControllerTickets,
    pub secondary: ControllerTickets,
    pub dt: u64,
    pub yank_speed: u64,
}

/// What the resolved frame says of one controller, for one object.
pub struct Observation {
    pub index: ControllerIndex,
    pub pointed: bool,
    pub touched: bool,
    pub state: ControllerState,
}

/// Reads the answers to an object's queries on one controller.
pub open spec fn observe<H>(reply: InteractionReply<H>, t: ControllerTickets) -> Observation {
    Observation {
        index: t.point.by,
        pointed: reply.point_answer(t.point) is Some,
        touched: reply.touch_answer(t.touch),
        state: reply.controller(t.point.by).data,
    }
}

/// Whether a controller takes a free object, and how: pointing at it with
/// the menu button held yanks it, touching it with the trigger down grabs it.
pub open spec fn take_by(o: Observation) -> Option<Moveable> {
    if o.pointed && o.state.menu {
        Some(Moveable::Yanked { progress: 0, index: o.index })
    } else if o.state.trigger_down() && o.touched {
        Some(Moveable::Grabbed { index: o.index })
    } else {
        None
    }
}

/// The next state of a free object: the primary controller is asked first.
pub open spec fn step_free(p: Observation, s: Observation) -> Moveable {
    match take_by(p) {
        Some(m) => m,
        None => match take_by(s) {
            Some(m) => m,
            None => Moveable::Free,
        },
    }
}

/// The state of an object after a frame of `dt` whose answers are `reply`.
pub open spec fn next_moveable<H>(m: Moveable, reply: InteractionReply<H>, t: MoveTicket) -> Moveable {
    match m {
        Moveable::Free => step_free(observe(reply, t.primary), observe(reply, t.secondary)),
        Moveable::Yanked { progress, index } => {
            if progress + t.dt > t.yank_speed && !reply.controller(index).data.menu {
                Moveable::Free
            } else {
                Moveable::Yanked {
                    progress: if progress + t.dt < t.yank_speed {
                        (progress + t.dt) as u64
                    } else {
                        t.yank_speed
                    },
                    index,
                }
            }
        },
        Moveable::Grabbed { index } => {
            if reply.controller(index).data.trigger_up() {
                Moveable::Free
            } else {
                m
            }
        },
    }
}

/// What an object in state `m` asks of its physics body, in a frame of
/// `dt` with yank duration `yank_speed`.
pub open spec fn move_data(m: Moveable, dt: u64, yank_speed: u64) -> MoveData {
    match m {
        Moveable::Grabbed { index } => MoveData {
            intent: MoveableIntention::Manipulate,
            fixed: Some(Fixed { by: index, motion: Motion::Follow }),
        },
        Moveable::Yanked { progress, index } => MoveData {
            intent: MoveableIntention::Move,
            fixed: Some(
                Fixed {
                    by: index,
                    motion: if progress < yank_speed {
                        Motion::Approach { step: dt, span: (yank_speed - progress + dt) as u128 }
                    } else {
                        Motion::Locked
                    },
                },
            ),
        },
        Moveable::Free => MoveData { intent: MoveableIntention::Free, fixed: None },
    }
}

impl Moveable {
    /// The controller that holds or yanks the object.
    pub open spec fn holder(self) -> Option<ControllerIndex> {
        match self {
            Moveable::Grabbed { index } => Some(index),
            Moveable::Yanked { index, .. } => Some(index),
            Moveable::Free => None,
        }
    }
}

impl Moveable {
    /// The state of a controller's guru as the object's update leaves it
    /// before its own queries: blocked where that controller holds the
    /// object.
    pub open spec fn guru_before<H>(self, g: crate::interact::GuruView<H>) -> crate::interact::GuruView<H> {
        match self.holder() {
            Some(i) if i.is_primary() == g.index.is_primary() => after_block(g),
            _ => g,
        }
    }

    /// `post` and the ticket `r` are what registering this object's
    /// queries makes of `pre`, for the given probes and yank duration.
    pub open spec fn updated<H>(
        self,
        pre: InteractGuru<H>,
        post: InteractGuru<H>,
        primary: Probe<H>,
        secondary: Probe<H>,
        yank_speed: u64,
        r: MoveTicket,
    ) -> bool {
        let p0 = self.guru_before(pre.primary@);
        let s0 = self.guru_before(pre.secondary@);
        &&& post.wf()
        &&& post.dt == pre.dt
        &&& post.primary@ == after_pointing_laser(p0, primary.hit, self == Moveable::Free)
        &&& post.secondary@ == after_pointing_laser(s0, secondary.hit, self == Moveable::Free)
        &&& r.primary.point.by == pre.primary@.index
        &&& r.primary.point.ordinal == point_ordinal(p0, primary.hit)
        &&& r.primary.touch.by == pre.primary@.index
        &&& r.primary.touch.touching == (primary.contains && !p0.touch_blocked)
        &&& r.secondary.point.by == pre.secondary@.index
        &&& r.secondary.point.ordinal == point_ordinal(s0, secondary.hit)
        &&& r.secondary.touch.by == pre.secondary@.index
        &&& r.secondary.touch.touching == (secondary.contains && !s0.touch_blocked)
        &&& r.dt == pre.dt
        &&& r.yank_speed == yank_speed
    }

    /// Registers this object's queries for the frame: a controller that
    /// holds the object is blocked from everything else, and each
    /// controller asks whether it points at the object and touches it.
    /// A free object stops the rays of both controllers.
    pub fn update<H>(
        &self,
        interact: &mut InteractGuru<H>,
        primary: Probe<H>,
        secondary: Probe<H>,
        yank_speed: u64,
    ) -> (r: MoveTicket)
        requires
            old(interact).wf(),
        ensures
            self.updated(*old(interact), *final(interact), primary, secondary, yank_speed, r),
    {
        let solid = match *self {
            Moveable::Free => true,
            Moveable::Yanked { index, .. } | Moveable::Grabbed { index } => {
                index.guru(interact).block();
                false
            },
        };
        let primary_point = interact.primary.pointing_laser(primary.hit, solid);
        let primary_touch = interact.primary.touched(primary.contains);
        let secondary_point = interact.secondary.pointing_laser(secondary.hit, solid);
        let secondary_touch = interact.secondary.touched(secondary.contains);
        MoveTicket {
            primary: ControllerTickets { point: primary_point, touch: primary_touch },
            secondary: ControllerTickets { point: secondary_point, touch: secondary_touch },
            dt: interact.dt,
            yank_speed,
        }
    }
}

/// Whether a controller takes a free object, reading the answers to the
/// object's queries on it.
fn take_by_exec<H>(reply: &InteractionReply<H>, t: ControllerTickets) -> (r: Option<Moveable>)
    ensures
        r == take_by(observe(*reply, t)),
{
    let state = t.point.by.reply(reply).state();
    if reply.pointed(t.point).is_some() && state.menu {
        Some(Moveable::Yanked { progress: 0, index: t.point.by })
    } else if state.down() && reply.touched(t.touch) {
        Some(Moveable::Grabbed { index: t.point.by })
    } else {
        None
    }
}

impl Moveable {
    /// Moves the object to its next state from the frame's answers, and
    /// says how its physics body is to be posed.
    pub fn finish<H>(&mut self, t: MoveTicket, reply: &InteractionReply<H>) -> (r: MoveData)
        ensures
            *final(self) == next_moveable(*old(self), *reply, t),
            r == move_data(*final(self), t.dt, t.yank_speed),
    {
        match *self {
            Moveable::Free => {
                match take_by_exec(reply, t.primary) {
                    Some(m) => {
                        *self = m;
                    },
                    None => match take_by_exec(reply, t.secondary) {
                        Some(m) => {
                            *self = m;
                        },
                        None => {},
                    },
                }
            },
            Moveable::Yanked { progress, index } => {
                let menu = index.reply(reply).state().menu;
                let over = progress > t.yank_speed || t.dt > t.yank_speed - progress;
                let reaches = progress >= t.yank_speed || t.dt >= t.yank_speed - progress;
                if over && !menu {
                    *self = Moveable::Free;
                } else if reaches {
                    *self = Moveable::Yanked { progress: t.yank_speed, index };
                } else {
                    *self = Moveable::Yanked { progress: progress + t.dt, index };
                }
            },
            Moveable::Grabbed { index } => {
                if index.reply(reply).state().up() {
                    *self = Moveable::Free;
                }
            },
        }
        match *self {
            Moveable::Grabbed { index } => MoveData {
                intent: MoveableIntention::Manipulate,
                fixed: Some(Fixed { by: index, motion: Motion::Follow }),
            },
            Moveable::Yanked { progress, index } => {
                let motion = if progress < t.yank_speed {
                    Motion::Approach {
                        step: t.dt,
                        span: (t.yank_speed as u128) - (progress as u128) + (t.dt as u128),
                    }
                } else {
                    Motion::Locked
                };
                MoveData { intent: MoveableIntention::Move, fixed: Some(Fixed { by: index, motion }) }
            },
            Moveable::Free => MoveData { intent: MoveableIntention::Free, fixed: None },
        }
    }
}

/// The state of an object after a run of frames, each with its answers and
/// ticket.
pub open spec fn run_frames<H>(m: Moveable, replies: Seq<InteractionReply<H>>, tickets: Seq<MoveTicket>) -> Moveable
    decreases replies.len(),
{
    if replies.len() == 0 || tickets.len() == 0 {
        m
    } else {
        run_frames(
            next_moveable(m, replies[0], tickets[0]),
            replies.drop_first(),
            tickets.drop_first(),
        )
    }
}

/// The time that a run of frames covers.
pub open spec fn total_dt(tickets: Seq<MoveTicket>) -> int
    decreases tickets.len(),
{
    if tickets.len() == 0 {
        0
    } else {
        tickets[0].dt + total_dt(tickets.drop_first())
    }
}

/// While the yanking controller holds the menu button, a yank runs on and
/// its progress adds up the frame times, up to the yank duration.
pub proof fn lemma_yank_progress<H>(
    progress: u64,
    index: ControllerIndex,
    replies: Seq<InteractionReply<H>>,
    tickets: Seq<MoveTicket>,
    yank_speed: u64,
)
    requires
        replies.len() == tickets.len(),
        progress <= yank_speed,
        forall|k: int| 0 <= k < replies.len() ==> (#[trigger] replies[k]).controller(index).data.menu,
        forall|k: int| 0 <= k < tickets.len() ==> (#[trigger] tickets[k]).yank_speed == yank_speed,
    ensures
        run_frames(Moveable::Yanked { progress, index }, replies, tickets) == (Moveable::Yanked {
            progress: if progress + total_dt(tickets) < yank_speed {
                (progress + total_dt(tickets)) as u64
            } else {
                yank_speed
            },
            index,
        }),
    decreases replies.len(),
{
    if replies.len() > 0 {
        let t = tickets[0];
        let m = next_moveable(Moveable::Yanked { progress, index }, replies[0], t);
        let next = if progress + t.dt < yank_speed {
            (progress + t.dt) as u64
        } else {
            yank_speed
        };
        assert(m == Moveable::Yanked { progress: next, index });
        assert forall|k: int| 0 <= k < replies.drop_first().len() implies (
        #[trigger] replies.drop_first()[k]).controller(index).data.menu by {
            assert(replies.drop_first()[k] == replies[k + 1]);
        }
        assert forall|k: int| 0 <= k < tickets.drop_first().len() implies (
        #[trigger] tickets.drop_first()[k]).yank_speed == yank_speed by {
            assert(tickets.drop_first()[k] == tickets[k + 1]);
        }
        lemma_yank_progress(next, index, replies.drop_first(), tickets.drop_first(), yank_speed);
        assert(total_dt(tickets) == t.dt + total_dt(tickets.drop_first()));
        lemma_total_dt_nonneg(tickets.drop_first());
    }
}

proof fn lemma_total_dt_nonneg(tickets: Seq<MoveTicket>)
    ensures
        total_dt(tickets) >= 0,
    decreases tickets.len(),
{
    if tickets.len() > 0 {
        lemma_total_dt_nonneg(tickets.drop_first());
    }
}

/// A yank started by a controller whose menu button stays held through
/// frames covering at least the yank duration ends, and frees the object,
/// at the first later frame of non-zero length in which the button is let
/// go.
pub proof fn lemma_yank_ends_on_release<H>(
    index: ControllerIndex,
    replies: Seq<InteractionReply<H>>,
    tickets: Seq<MoveTicket>,
    release: InteractionReply<H>,
    last: MoveTicket,
    yank_speed: u64,
)
    requires
        replies.len() == tickets.len(),
        forall|k: int| 0 <= k < replies.len() ==> (#[trigger] replies[k]).controller(index).data.menu,
        forall|k: int| 0 <= k < tickets.len() ==> (#[trigger] tickets[k]).yank_speed == yank_speed,
        total_dt(tickets) >= yank_speed,
        !release.controller(index).data.menu,
        last.yank_speed == yank_speed,
        last.dt > 0,
    ensures
        next_moveable(
            run_frames(Moveable::Yanked { progress: 0, index }, replies, tickets),
            release,
            last,
        ) == Moveable::Free,
{
    lemma_yank_progress(0, index, replies, tickets, yank_speed);
}

} // verus!
