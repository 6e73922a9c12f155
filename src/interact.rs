//! Queries about what each hand controller points at and touches.
use vstd::prelude::*;

verus! {

/// Names one of the two logical controllers.
#[derive(Debug, PartialEq, Eq, Structural, Copy, Clone)]
pub struct ControllerIndex(u8);

impl ControllerIndex {
    /// Whether this is the primary controller.
    pub closed spec fn is_primary(self) -> bool {
        self.0 == 0
    }

    /// The index that `primary` returns.
    pub closed spec fn spec_primary() -> Self {
        ControllerIndex(0)
    }

    /// The index that `secondary` returns.
    pub closed spec fn spec_secondary() -> Self {
        ControllerIndex(1)
    }

    /// The primary controller.
    pub fn primary() -> (r: Self)
        ensures
            r == Self::spec_primary(),
            r.is_primary(),
    {
        ControllerIndex(0)
    }

    /// The secondary controller.
    pub fn secondary() -> (r: Self)
        ensures
            r == Self::spec_secondary(),
            !r.is_primary(),
    {
        ControllerIndex(1)
    }
}

/// The primary controller's index is the primary role, the secondary
/// controller's is not, and the two differ.
pub proof fn lemma_controller_roles()
    ensures
        ControllerIndex::spec_primary().is_primary(),
        !ControllerIndex::spec_secondary().is_primary(),
        ControllerIndex::spec_primary() != ControllerIndex::spec_secondary(),
{
}

/// The amount of trigger travel that counts as fully pressed: a trigger
/// reading is held in units of `1 / TRIGGER_FULL`.
pub const TRIGGER_FULL: u32 = 0x100_0000;

/// Half of the trigger's travel, the threshold for grabbing and releasing.
pub const TRIGGER_HALF: u32 = 0x80_0000;

/// What the interaction logic reads of one controller in one frame.
#[derive(Debug, PartialEq, Eq, Structural, Copy, Clone)]
pub struct ControllerState {
    /// How far the trigger is pulled, from 0 up to `TRIGGER_FULL`.
    pub trigger: u32,
    /// How far the trigger moved since the previous frame, in the same units.
    pub trigger_delta: i64,
    /// Whether the menu button is held.
    pub menu: bool,
}

impl ControllerState {
    /// The trigger is past half of its travel.
    pub open spec fn trigger_down(self) -> bool {
        self.trigger > TRIGGER_HALF
    }

    /// The trigger is short of half of its travel.
    pub open spec fn trigger_up(self) -> bool {
        self.trigger < TRIGGER_HALF
    }

    /// The trigger crossed half of its travel during this frame.
    pub open spec fn trigger_pressed(self) -> bool {
        self.trigger_down() && self.trigger - self.trigger_delta < TRIGGER_HALF
    }

    /// Whether the trigger is past half of its travel.
    pub fn down(&self) -> (r: bool)
        ensures
            r == self.trigger_down(),
    {
        self.trigger > TRIGGER_HALF
    }

    /// Whether the trigger is short of half of its travel.
    pub fn up(&self) -> (r: bool)
        ensures
            r == self.trigger_up(),
    {
        self.trigger < TRIGGER_HALF
    }

    /// Whether the trigger crossed half of its travel during this frame.
    pub fn pressed(&self) -> (r: bool)
        ensures
            r == self.trigger_pressed(),
    {
        self.trigger > TRIGGER_HALF && (self.trigger as i128) - (self.trigger_delta as i128)
            < TRIGGER_HALF as i128
    }
}

/// A ray that met a surface: the distance along the ray, as an order key in
/// which a larger value lies farther, and what the caller keeps of the hit.
pub struct Hit<H> {
    pub toi: u64,
    pub data: H,
}

/// A pointing query as the accumulator recorded it.
pub struct Record<H> {
    pub toi: u64,
    pub stops: bool,
    pub hit: H,
}

/// Record `j` lies before record `k` along the ray: nearer, or as near and
/// registered earlier.
pub open spec fn precedes<H>(qs: Seq<Record<H>>, j: int, k: int) -> bool {
    qs[j].toi < qs[k].toi || (qs[j].toi == qs[k].toi && j < k)
}

/// Some stopping record lies before record `k`.
pub open spec fn occluded<H>(qs: Seq<Record<H>>, k: int) -> bool {
    exists|j: int| 0 <= j < qs.len() && #[trigger] qs[j].stops && precedes(qs, j, k)
}

/// The answers to the queries `qs`, indexed by ordinal. Ordinal 0 stands for
/// a query that found nothing; record `k` has ordinal `k + 1`.
pub open spec fn answers<H>(qs: Seq<Record<H>>) -> Seq<Option<H>> {
    Seq::new(
        qs.len() + 1,
        |n: int|
            if n == 0 || occluded(qs, n - 1) {
                None
            } else {
                Some(qs[n - 1].hit)
            },
    )
}

/// The answer that a list of answers gives to an ordinal.
pub open spec fn answer_at<H>(results: Seq<Option<H>>, ordinal: usize) -> Option<H> {
    if ordinal < results.len() {
        results[ordinal as int]
    } else {
        None
    }
}

/// The shorter of the laser's current length and a new distance.
pub open spec fn fold_laser(laser: Option<u64>, toi: u64) -> Option<u64> {
    match laser {
        Some(l) => Some(
            if toi < l {
                toi
            } else {
                l
            },
        ),
        None => Some(toi),
    }
}

/// The ordinal that a pointing query gets from a controller in state `v`:
/// the next one where the ray met the shape and the controller may point,
/// else 0.
pub open spec fn point_ordinal<H>(v: GuruView<H>, hit: Option<Hit<H>>) -> int {
    match hit {
        Some(h) if !v.point_blocked => v.queries.len() + 1int,
        _ => 0int,
    }
}

/// A controller in state `v` after a pointing query that also ends its
/// visual laser line on the shape.
pub open spec fn after_pointing_laser<H>(v: GuruView<H>, hit: Option<Hit<H>>, stops: bool) -> GuruView<
    H,
> {
    match hit {
        Some(h) => GuruView {
            laser_toi: fold_laser(v.laser_toi, h.toi),
            queries: if v.point_blocked {
                v.queries
            } else {
                v.queries.push(Record { toi: h.toi, stops, hit: h.data })
            },
            ..v
        },
        None => v,
    }
}

/// A controller in state `v` after a block of pointing and touching.
pub open spec fn after_block<H>(v: GuruView<H>) -> GuruView<H> {
    GuruView { point_blocked: true, touch_blocked: true, queries: Seq::empty(), ..v }
}

/// Entitles its holder to the answer of a pointing query once the frame is
/// resolved.
#[derive(Debug, PartialEq, Eq, Structural, Copy, Clone)]
pub struct PointTicket {
    pub by: ControllerIndex,
    pub ordinal: usize,
}

/// Entitles its holder to the answer of a touch query once the frame is
/// resolved.
#[derive(Debug, PartialEq, Eq, Structural, Copy, Clone)]
pub struct TouchTicket {
    pub by: ControllerIndex,
    pub touching: bool,
}

struct QueryRecord {
    toi: u64,
    ordinal: usize,
    stops: bool,
}

/// The state of a `ControllerGuru` as its contracts see it.
pub struct GuruView<H> {
    pub data: ControllerState,
    pub index: ControllerIndex,
    pub laser_toi: Option<u64>,
    pub queries: Seq<Record<H>>,
    pub point_blocked: bool,
    pub touch_blocked: bool,
}

/// Answers queries about one VR controller during a frame.
pub struct ControllerGuru<H> {
    /// The current state of the controller.
    pub data: ControllerState,
    laser_toi: Option<u64>,
    pointed_queries: Vec<QueryRecord>,
    pointed_data: Vec<Option<H>>,
    point_blocked: bool,
    touch_blocked: bool,
    index: ControllerIndex,
}

/// Record `k` carries ordinal `k + 1` and its hit is stored under that
/// ordinal; ordinal 0 holds nothing. A guru blocked from pointing keeps
/// nothing at all.
spec fn bookkeeping_wf<H>(queries: Seq<QueryRecord>, data: Seq<Option<H>>, blocked: bool) -> bool {
    &&& blocked ==> queries.len() == 0 && data.len() == 0
    &&& !blocked ==> {
        &&& data.len() == queries.len() + 1
        &&& data[0] is None
        &&& forall|k: int|
            0 <= k < queries.len() ==> {
                &&& (#[trigger] queries[k]).ordinal == k + 1
                &&& data[k + 1] is Some
            }
    }
}

impl<H> View for ControllerGuru<H> {
    type V = GuruView<H>;

    closed spec fn view(&self) -> GuruView<H> {
        GuruView {
            data: self.data,
            index: self.index,
            laser_toi: self.laser_toi,
            queries: Seq::new(
                self.pointed_queries@.len(),
                |k: int|
                    Record {
                        toi: self.pointed_queries@[k].toi,
                        stops: self.pointed_queries@[k].stops,
                        hit: self.pointed_data@[k + 1]->Some_0,
                    },
            ),
            point_blocked: self.point_blocked,
            touch_blocked: self.touch_blocked,
        }
    }
}

impl<H> ControllerGuru<H> {
    /// The internal bookkeeping agrees with the view.
    pub closed spec fn wf(&self) -> bool {
        bookkeeping_wf(self.pointed_queries@, self.pointed_data@, self.point_blocked)
    }

    /// The answers that the pointing queries of a controller in state `v`
    /// get when it resolves, indexed by ordinal.
    pub open spec fn resolved(v: GuruView<H>) -> Seq<Option<H>> {
        if v.point_blocked {
            Seq::empty()
        } else {
            answers(v.queries)
        }
    }

    /// A fresh guru for a controller in the given state, with no queries.
    pub fn new(data: ControllerState, index: ControllerIndex) -> (r: Self)
        ensures
            r.wf(),
            r@.data == data,
            r@.index == index,
            r@.laser_toi is None,
            r@.queries.len() == 0,
            !r@.point_blocked,
            !r@.touch_blocked,
    {
        ControllerGuru {
            data,
            laser_toi: None,
            pointed_queries: Vec::new(),
            pointed_data: vec![None],
            point_blocked: false,
            touch_blocked: false,
            index,
        }
    }

    /// The state of the controller in this frame.
    pub fn state(&self) -> (r: ControllerState)
        ensures
            r == self@.data,
    {
        self.data
    }

    /// Use to get the reply object.
    pub fn index(&self) -> (r: ControllerIndex)
        ensures
            r == self@.index,
    {
        self.index
    }

    /// Shortens the controller's visual laser line to end at a surface at
    /// the given distance, if that is nearer than its current end.
    pub fn laser_toi(&mut self, toi: u64)
        requires
            old(self).wf(),
        ensures
            final(self).wf(),
            final(self)@ == (GuruView { laser_toi: fold_laser(old(self)@.laser_toi, toi), ..old(self)@ }),
    {
        let nearer = match self.laser_toi {
            Some(l) => toi < l,
            None => true,
        };
        if nearer {
            self.laser_toi = Some(toi);
        }
    }

    fn pointing_partial(&mut self, hit: Option<Hit<H>>, stops: bool) -> (r: PointTicket)
        requires
            old(self).wf(),
            old(self)@.point_blocked ==> hit is None,
        ensures
            final(self).wf(),
            r.by == old(self)@.index,
            match hit {
                Some(h) => {
                    &&& r.ordinal == old(self)@.queries.len() + 1
                    &&& final(self)@ == (GuruView {
                        queries: old(self)@.queries.push(
                            Record { toi: h.toi, stops, hit: h.data },
                        ),
                        ..old(self)@
                    })
                },
                None => r.ordinal == 0 && final(self)@ == old(self)@,
            },
    {
        let mut ordinal: usize = 0;
        if let Some(h) = hit {
            ordinal = self.pointed_data.len();
            self.pointed_queries.push(QueryRecord { toi: h.toi, ordinal, stops });
            self.pointed_data.push(Some(h.data));
            proof {
                let v = self@;
                let w = old(self)@;
                assert(v.queries =~= w.queries.push(Record { toi: h.toi, stops, hit: h.data }));
            }
        } else {
            proof {
                assert(self@.queries =~= old(self)@.queries);
            }
        }
        PointTicket { by: self.index, ordinal }
    }

    /// Checks whether the controller points at a shape, given what its ray
    /// met there. A stopping shape hides every shape behind it from this
    /// controller. The answer is only known once the guru resolves; a
    /// blocked controller points at nothing.
    pub fn pointing(&mut self, hit: Option<Hit<H>>, stops: bool) -> (r: PointTicket)
        requires
            old(self).wf(),
        ensures
            final(self).wf(),
            r.by == old(self)@.index,
            match hit {
                Some(h) if !old(self)@.point_blocked => {
                    &&& r.ordinal == old(self)@.queries.len() + 1
                    &&& final(self)@ == (GuruView {
                        queries: old(self)@.queries.push(
                            Record { toi: h.toi, stops, hit: h.data },
                        ),
                        ..old(self)@
                    })
                },
                _ => r.ordinal == 0 && final(self)@ == old(self)@,
            },
    {
        let hit = if !self.point_blocked {
            hit
        } else {
            None
        };
        self.pointing_partial(hit, stops)
    }

    /// As `pointing`, and also ends the controller's visual laser line on
    /// the shape, even where the shape will turn out to be hidden or the
    /// controller is blocked.
    pub fn pointing_laser(&mut self, hit: Option<Hit<H>>, stops: bool) -> (r: PointTicket)
        requires
            old(self).wf(),
        ensures
            final(self).wf(),
            r.by == old(self)@.index,
            r.ordinal == point_ordinal(old(self)@, hit),
            final(self)@ == after_pointing_laser(old(self)@, hit, stops),
    {
        if let Some(h) = &hit {
            self.laser_toi(h.toi);
        }
        self.pointing(hit, stops)
    }

    /// Blocks the controller from pointing at anything: every pointing
    /// query of this frame, past and future, finds nothing.
    pub fn block_pointing(&mut self)
        requires
            old(self).wf(),
        ensures
            final(self).wf(),
            final(self)@ == (GuruView { point_blocked: true, queries: Seq::empty(), ..old(self)@ }),
    {
        self.point_blocked = true;
        self.pointed_queries.clear();
        self.pointed_data.clear();
        proof {
            assert(self@.queries =~= Seq::empty());
        }
    }

    /// Blocks the controller from touching anything: every touch query of
    /// this frame, past and future, finds nothing.
    pub fn block_touch(&mut self)
        requires
            old(self).wf(),
        ensures
            final(self).wf(),
            final(self)@ == (GuruView { touch_blocked: true, ..old(self)@ }),
    {
        self.touch_blocked = true;
        proof {
            assert(self@.queries =~= old(self)@.queries);
        }
    }

    /// Blocks the controller from touching or pointing at anything.
    pub fn block(&mut self)
        requires
            old(self).wf(),
        ensures
            final(self).wf(),
            final(self)@ == after_block(old(self)@),
    {
        self.block_pointing();
        self.block_touch();
    }

    /// Checks whether the controller touches a shape, given whether the
    /// shape contains the controller's origin. The answer is only known
    /// once the guru resolves, since the controller may still be blocked.
    pub fn touched(&self, contains: bool) -> (r: TouchTicket)
        ensures
            r.by == self@.index,
            r.touching == (contains && !self@.touch_blocked),
    {
        TouchTicket { by: self.index, touching: contains && !self.touch_blocked }
    }

    /// Completes this guru's calculations, enabling it to answer all
    /// waiting questions: every query that lies behind the first stopping
    /// query along the ray finds nothing. Queries at the same distance lie
    /// in the order they were registered in.
    pub fn resolve(self) -> (r: ControllerReply<H>)
        requires
            self.wf(),
        ensures
            r@ == (ReplyView {
                results: Self::resolved(self@),
                laser_toi: self@.laser_toi,
                data: self@.data,
                can_touch: !self@.touch_blocked,
            }),
    {
        let ghost qs = self@.queries;
        let n = self.pointed_queries.len();
        let mut first: Option<usize> = None;
        let mut k: usize = 0;
        while k < n
            invariant
                n == self.pointed_queries@.len(),
                qs == self@.queries,
                0 <= k <= n,
                match first {
                    None => forall|j: int| 0 <= j < k ==> !(#[trigger] qs[j].stops),
                    Some(b) => {
                        &&& b < k
                        &&& qs[b as int].stops
                        &&& forall|j: int|
                            0 <= j < k && #[trigger] qs[j].stops ==> j == b || precedes(
                                qs,
                                b as int,
                                j,
                            )
                    },
                },
            decreases n - k,
        {
            let q = &self.pointed_queries[k];
            if q.stops {
                match first {
                    None => {
                        first = Some(k);
                    },
                    Some(b) => {
                        if q.toi < self.pointed_queries[b].toi {
                            first = Some(k);
                        }
                    },
                }
            }
            k = k + 1;
        }
        let mut results = self.pointed_data;
        if let Some(b) = first {
            let bt = self.pointed_queries[b].toi;
            let bo = self.pointed_queries[b].ordinal;
            let mut k: usize = 0;
            while k < n
                invariant
                    n == self.pointed_queries@.len(),
                    qs == self@.queries,
                    b < n,
                    bt == qs[b as int].toi,
                    bo == b + 1,
                    0 <= k <= n,
                    self.wf(),
                    results@.len() == n + 1,
                    results@[0] is None,
                    forall|m: int|
                        0 <= m < n ==> #[trigger] results@[m + 1] == if m < k && precedes(
                            qs,
                            b as int,
                            m,
                        ) {
                            None
                        } else {
                            self.pointed_data@[m + 1]
                        },
                decreases n - k,
            {
                let q = &self.pointed_queries[k];
                if bt < q.toi || (bt == q.toi && bo < q.ordinal) {
                    results.set(k + 1, None);
                }
                k = k + 1;
            }
        }
        proof {
            if !self.point_blocked {
                assert forall|m: int| 0 <= m < n implies occluded(qs, m) == match first {
                    Some(b) => precedes(qs, b as int, m),
                    None => false,
                } by {
                    if occluded(qs, m) {
                        let j = choose|j: int|
                            0 <= j < qs.len() && #[trigger] qs[j].stops && precedes(qs, j, m);
                        assert(qs[j].stops);
                    }
                    if let Some(b) = first {
                        assert(qs[b as int].stops);
                    }
                }
                assert forall|m: int| 0 <= m <= n implies #[trigger] results@[m] == answers(
                    qs,
                )[m] by {
                    if m > 0 {
                        assert(self.pointed_queries@[m - 1].ordinal == m);
                        assert(self.pointed_data@[m] is Some);
                    }
                }
                assert(results@ =~= answers(qs));
            } else {
                assert(results@ =~= Seq::<Option<H>>::empty());
            }
        }
        ControllerReply {
            results,
            laser_toi: self.laser_toi,
            data: self.data,
            can_touch: !self.touch_blocked,
        }
    }
}

/// Enables the completion of one controller's interaction questions.
pub struct ControllerReply<H> {
    results: Vec<Option<H>>,
    /// Where the visual laser line ends, if it met a surface.
    pub laser_toi: Option<u64>,
    /// The state of the controller in this frame.
    pub data: ControllerState,
    can_touch: bool,
}

/// The state of a `ControllerReply` as its contracts see it.
pub struct ReplyView<H> {
    /// The answers to the pointing queries, indexed by ordinal.
    pub results: Seq<Option<H>>,
    pub laser_toi: Option<u64>,
    pub data: ControllerState,
    /// Whether touch queries of this controller may succeed.
    pub can_touch: bool,
}

impl<H> View for ControllerReply<H> {
    type V = ReplyView<H>;

    closed spec fn view(&self) -> ReplyView<H> {
        ReplyView {
            results: self.results@,
            laser_toi: self.laser_toi,
            data: self.data,
            can_touch: self.can_touch,
        }
    }
}

impl<H> ControllerReply<H> {
    /// The answer to the pointing query with the given ordinal.
    pub fn pointed(&self, ordinal: usize) -> (r: Option<&H>)
        ensures
            r is Some == answer_at(self@.results, ordinal) is Some,
            r is Some ==> *r->Some_0 == answer_at(self@.results, ordinal)->Some_0,
    {
        if ordinal < self.results.len() {
            match &self.results[ordinal] {
                Some(h) => Some(h),
                None => None,
            }
        } else {
            None
        }
    }

    /// The state of the controller in this frame.
    pub fn state(&self) -> (r: ControllerState)
        ensures
            r == self@.data,
    {
        self.data
    }

    /// Where the visual laser line ends, if it met a surface.
    pub fn laser(&self) -> (r: Option<u64>)
        ensures
            r == self@.laser_toi,
    {
        self.laser_toi
    }

    /// Whether touch queries of this controller may succeed.
    pub fn can_touch(&self) -> (r: bool)
        ensures
            r == self@.can_touch,
    {
        self.can_touch
    }
}

/// Answers queries about user interactions: one guru for each of the two
/// controllers, and the time that this frame covers.
pub struct InteractGuru<H> {
    pub primary: ControllerGuru<H>,
    pub secondary: ControllerGuru<H>,
    pub dt: u64,
}

impl<H> InteractGuru<H> {
    /// Both gurus keep their bookkeeping and sit under their own role.
    pub open spec fn wf(&self) -> bool {
        &&& self.primary.wf()
        &&& self.secondary.wf()
        &&& self.primary@.index == ControllerIndex::spec_primary()
        &&& self.secondary@.index == ControllerIndex::spec_secondary()
        &&& self.primary@.index.is_primary()
        &&& !self.secondary@.index.is_primary()
    }

    /// The guru of the given controller.
    pub open spec fn controller(&self, index: ControllerIndex) -> ControllerGuru<H> {
        if index.is_primary() {
            self.primary
        } else {
            self.secondary
        }
    }

    /// Creates a guru that checks against the given controllers.
    pub fn new(primary: ControllerState, secondary: ControllerState, dt: u64) -> (r: Self)
        ensures
            r.wf(),
            r.dt == dt,
            r.primary@ == (GuruView::<H> {
                data: primary,
                index: ControllerIndex::spec_primary(),
                laser_toi: None,
                queries: Seq::empty(),
                point_blocked: false,
                touch_blocked: false,
            }),
            r.secondary@ == (GuruView::<H> {
                data: secondary,
                index: ControllerIndex::spec_secondary(),
                laser_toi: None,
                queries: Seq::empty(),
                point_blocked: false,
                touch_blocked: false,
            }),
    {
        let r = InteractGuru {
            primary: ControllerGuru::new(primary, ControllerIndex::primary()),
            secondary: ControllerGuru::new(secondary, ControllerIndex::secondary()),
            dt,
        };
        proof {
            assert(r.primary@.queries =~= Seq::empty());
            assert(r.secondary@.queries =~= Seq::empty());
        }
        r
    }

    /// Completes this guru's calculations, enabling it to answer all
    /// waiting questions.
    pub fn resolve(self) -> (r: InteractionReply<H>)
        requires
            self.wf(),
        ensures
            r.primary@ == self.primary.reply_view(),
            r.secondary@ == self.secondary.reply_view(),
    {
        InteractionReply { primary: self.primary.resolve(), secondary: self.secondary.resolve() }
    }
}

impl<H> ControllerGuru<H> {
    /// The reply that this guru resolves to.
    pub open spec fn reply_view(self) -> ReplyView<H> {
        ReplyView {
            results: Self::resolved(self@),
            laser_toi: self@.laser_toi,
            data: self@.data,
            can_touch: !self@.touch_blocked,
        }
    }
}

/// Enables the completion of interaction questions.
pub struct InteractionReply<H> {
    pub primary: ControllerReply<H>,
    pub secondary: ControllerReply<H>,
}

impl<H> InteractionReply<H> {
    /// The reply of the given controller.
    pub open spec fn controller(&self, index: ControllerIndex) -> ReplyView<H> {
        if index.is_primary() {
            self.primary@
        } else {
            self.secondary@
        }
    }

    /// The answer to a pointing query: what the ray met, unless the surface
    /// was hidden or the controller blocked.
    pub open spec fn point_answer(&self, t: PointTicket) -> Option<H> {
        answer_at(self.controller(t.by).results, t.ordinal)
    }

    /// The answer to a touch query.
    pub open spec fn touch_answer(&self, t: TouchTicket) -> bool {
        t.touching && self.controller(t.by).can_touch
    }

    /// Answers a pointing query.
    pub fn pointed(&self, t: PointTicket) -> (r: Option<&H>)
        ensures
            r is Some == self.point_answer(t) is Some,
            r is Some ==> *r->Some_0 == self.point_answer(t)->Some_0,
    {
        t.by.reply(self).pointed(t.ordinal)
    }

    /// Answers a touch query.
    pub fn touched(&self, t: TouchTicket) -> (r: bool)
        ensures
            r == self.touch_answer(t),
    {
        t.touching && t.by.reply(self).can_touch()
    }
}

impl ControllerIndex {
    /// The live guru of this controller.
    pub fn guru<H>(self, guru: &mut InteractGuru<H>) -> (r: &mut ControllerGuru<H>)
        ensures
            *r == old(guru).controller(self),
            *final(guru) == if self.is_primary() {
                InteractGuru { primary: *final(r), ..*old(guru) }
            } else {
                InteractGuru { secondary: *final(r), ..*old(guru) }
            },
    {
        if self.0 == 0 {
            &mut guru.primary
        } else {
            &mut guru.secondary
        }
    }

    /// The finished reply of this controller.
    pub fn reply<H>(self, reply: &InteractionReply<H>) -> (r: &ControllerReply<H>)
        ensures
            r@ == reply.controller(self),
    {
        if self.0 == 0 {
            &reply.primary
        } else {
            &reply.secondary
        }
    }
}

/// Once a controller resolves, a query whose surface lies strictly farther
/// than some stopping query's surface finds nothing, and a query nearer than
/// every stopping query keeps its hit, whatever its own `stops` flag.
pub proof fn lemma_nearest_stop_occludes<H>(v: GuruView<H>, k: int)
    requires
        !v.point_blocked,
        0 <= k < v.queries.len(),
    ensures
        (exists|j: int|
            0 <= j < v.queries.len() && #[trigger] v.queries[j].stops && v.queries[j].toi
                < v.queries[k].toi) ==> ControllerGuru::resolved(v)[k + 1] is None,
        (forall|j: int|
            0 <= j < v.queries.len() && #[trigger] v.queries[j].stops ==> v.queries[k].toi
                < v.queries[j].toi) ==> ControllerGuru::resolved(v)[k + 1] == Some(
            v.queries[k].hit,
        ),
{
    let qs = v.queries;
    if exists|j: int| 0 <= j < qs.len() && #[trigger] qs[j].stops && qs[j].toi < qs[k].toi {
        let j = choose|j: int| 0 <= j < qs.len() && #[trigger] qs[j].stops && qs[j].toi < qs[k].toi;
        assert(precedes(qs, j, k));
    }
    if forall|j: int| 0 <= j < qs.len() && #[trigger] qs[j].stops ==> qs[k].toi < qs[j].toi {
        assert(!occluded(qs, k));
    }
}

/// Where no query of a controller stops, every query keeps its hit,
/// whatever order the queries were registered in.
pub proof fn lemma_no_stop_keeps_all<H>(v: GuruView<H>)
    requires
        !v.point_blocked,
        forall|j: int| 0 <= j < v.queries.len() ==> !(#[trigger] v.queries[j].stops),
    ensures
        forall|k: int|
            0 <= k < v.queries.len() ==> ControllerGuru::resolved(v)[k + 1] == Some(
                #[trigger] v.queries[k].hit,
            ),
{
    assert forall|k: int| 0 <= k < v.queries.len() implies ControllerGuru::resolved(v)[k + 1]
        == Some(#[trigger] v.queries[k].hit) by {
        assert(!occluded(v.queries, k));
    }
}

/// A controller blocked from pointing answers every pointing query with
/// nothing, whether the query came before the block or after it.
pub proof fn lemma_blocked_points_at_nothing<H>(v: GuruView<H>, ordinal: usize)
    requires
        v.point_blocked,
    ensures
        answer_at(ControllerGuru::resolved(v), ordinal) is None,
{
}

} // verus!
