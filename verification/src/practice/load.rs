//! Stage-load counter for the handoff between the loader thread and the main thread.
//!
//! The counter starts even. The stage loader thread increments it to odd at its entry and back
//! to even at its ret. So `generation = counter / 2` counts publishes, and an odd counter means
//! that a load is between entry and publish.

use crate::thread::{MainCell, MainThread};
use vstd::prelude::*;

verus! {

/// The number of distinct generations: the counter is a `u32`, and a generation is half of it.
pub open spec fn generation_period() -> int {
    0x8000_0000
}

/// A sample of the stage-load counter: the number of publishes, modulo [`generation_period`].
#[derive(Debug, Clone, Copy, PartialEq, Eq, Structural)]
pub struct Generation(pub u32);

impl View for Generation {
    type V = u32;

    open spec fn view(&self) -> u32 {
        self.0
    }
}

impl Generation {
    /// The generation before any load has published.
    pub fn pre_load() -> (r: Self)
        ensures
            r@ == 0,
    {
        Generation(0)
    }

    /// Returns the raw value for serialization into observations.
    pub fn to_wire(self) -> (r: u32)
        ensures
            r == self@,
    {
        self.0
    }

    /// Constructs a generation from a raw value (for tests and scripted scenarios).
    pub fn for_test(raw: u32) -> (r: Self)
        ensures
            r@ == raw,
    {
        Generation(raw)
    }
}

/// What the main thread sees of the loader thread.
#[derive(Debug, Clone, Copy, PartialEq, Eq, Structural)]
pub enum LoadStatus {
    /// A load is between loader entry and publish. Arming must not be requested and ECL memory
    /// must not be touched.
    InFlight,
    /// No load is running.
    Settled {
        /// The number of publishes.
        generation: Generation,
        /// Whether the latest publish's load took the arm.
        armed: bool,
    },
}

/// The handoff state shared by the loader thread and the main thread.
pub struct LoadHandoff {
    /// Odd while a load is between loader entry and publish. `generation = counter / 2`.
    counter: u32,
    /// Whether the in-flight (or latest) load took the arm. Written at loader entry.
    armed: bool,
    /// The arm request set by the main thread. Taken at the next loader entry.
    arm_request: bool,
}

/// The status that a handoff with this counter and armed bit reports.
pub open spec fn status_of(counter: u32, armed: bool) -> LoadStatus {
    if counter % 2 == 1 {
        LoadStatus::InFlight
    } else {
        LoadStatus::Settled { generation: Generation((counter / 2) as u32), armed }
    }
}

/// The counter after one loader step: `counter + 1`, wrapping at `2^32`.
pub open spec fn next_counter(counter: u32) -> u32 {
    ((counter + 1) % 0x1_0000_0000) as u32
}

impl LoadHandoff {
    pub closed spec fn counter(&self) -> u32 {
        self.counter
    }

    pub closed spec fn armed(&self) -> bool {
        self.armed
    }

    pub closed spec fn arm_request(&self) -> bool {
        self.arm_request
    }

    /// The status that [`LoadHandoff::status`] reports in this state.
    pub open spec fn spec_status(&self) -> LoadStatus {
        status_of(self.counter(), self.armed())
    }

    /// The generation of the latest published load.
    pub open spec fn spec_generation(&self) -> u32 {
        (self.counter() / 2) as u32
    }

    /// Whether the handoff is in the state `counter`, `armed`, `arm_request`.
    pub open spec fn is(&self, counter: u32, armed: bool, arm_request: bool) -> bool {
        &&& self.counter() == counter
        &&& self.armed() == armed
        &&& self.arm_request() == arm_request
    }

    /// The state after the main thread requests an arm.
    pub open spec fn after_arm(&self, next: LoadHandoff) -> bool {
        next.is(self.counter(), self.armed(), true)
    }

    /// The state after the loader enters: the arm request moves into `armed`, and the counter
    /// steps (wrapping).
    pub open spec fn after_enter(&self, next: LoadHandoff) -> bool {
        next.is(next_counter(self.counter()), self.arm_request(), false)
    }

    /// The state after the loader publishes: the counter steps (wrapping).
    pub open spec fn after_publish(&self, next: LoadHandoff) -> bool {
        next.is(next_counter(self.counter()), self.armed(), self.arm_request())
    }

    /// A handoff where no load has ever run and no arm is requested.
    pub fn new() -> (r: Self)
        ensures
            r.is(0, false, false),
    {
        LoadHandoff { counter: 0, armed: false, arm_request: false }
    }

    /// Requests that the next load apply a warp on its first tick.
    ///
    /// The main thread calls this immediately before it queues the retry, and only while the
    /// handoff is settled with every publish consumed.
    pub fn arm(&mut self)
        ensures
            old(self).after_arm(*final(self)),
    {
        self.arm_request = true;
    }

    /// Marks a load in flight and takes the arm request. The loader thread calls this at entry.
    pub fn enter(&mut self)
        ensures
            old(self).after_enter(*final(self)),
    {
        let armed = self.arm_request;
        self.arm_request = false;
        self.armed = armed;
        self.counter = self.counter.wrapping_add(1);
    }

    /// Publishes the load. The loader thread calls this at its ret.
    pub fn publish(&mut self)
        ensures
            old(self).after_publish(*final(self)),
    {
        self.counter = self.counter.wrapping_add(1);
    }

    /// Samples the counter. The main thread calls this.
    pub fn status(&self) -> (r: LoadStatus)
        ensures
            r == self.spec_status(),
    {
        if self.counter % 2 == 1 {
            LoadStatus::InFlight
        } else {
            LoadStatus::Settled { generation: Generation(self.counter / 2), armed: self.armed }
        }
    }
}

/// Returns the generation of the latest published load (whether or not a load is in flight).
pub fn load_generation(handoff: &LoadHandoff) -> (r: Generation)
    ensures
        r@ == handoff.spec_generation(),
{
    Generation(handoff.counter / 2)
}

/// Loader entry followed by publish moves a settled handoff to the next generation, settled
/// again; in between, the handoff reports a load in flight. The published load is armed exactly
/// when an arm was requested before entry.
pub proof fn lemma_load_window(h0: LoadHandoff, h1: LoadHandoff, h2: LoadHandoff)
    requires
        h0.spec_status() is Settled,
        h0.after_enter(h1),
        h1.after_publish(h2),
    ensures
        h1.spec_status() == LoadStatus::InFlight,
        h2.spec_status() == (LoadStatus::Settled {
            generation: Generation(((h0.spec_generation() + 1) % generation_period()) as u32),
            armed: h0.arm_request(),
        }),
        !h2.arm_request(),
{
    let c = h0.counter();
    assert(c % 2 == 0);
    assert(h1.counter() == c + 1);
    if c == 0xffff_fffe {
        assert(h2.counter() == 0);
    } else {
        assert(h2.counter() == c + 2);
    }
}

/// An arm requested while a load is in flight does not apply to that load: it publishes with the
/// armed bit it took at entry, and the request stays pending for the next load.
pub proof fn lemma_arm_waits_for_next_entry(
    h0: LoadHandoff,
    h1: LoadHandoff,
    h2: LoadHandoff,
    h3: LoadHandoff,
    h4: LoadHandoff,
)
    requires
        h0.spec_status() == LoadStatus::InFlight,
        h0.after_arm(h1),
        h1.after_publish(h2),
        h2.after_enter(h3),
        h3.after_publish(h4),
    ensures
        h2.spec_status() matches LoadStatus::Settled { armed, .. } && armed == h0.armed(),
        h4.spec_status() matches LoadStatus::Settled { armed, .. } && armed,
{
    let c = h0.counter();
    assert(c % 2 == 1);
    if c == 0xffff_ffff {
        assert(h2.counter() == 0);
    } else {
        assert(h2.counter() == c + 1);
    }
    assert(h2.counter() % 2 == 0);
    assert(h3.counter() == h2.counter() + 1);
    let c3 = h3.counter();
    if c3 == 0xffff_ffff {
        assert(h4.counter() == 0);
    } else {
        assert(h4.counter() == c3 + 1);
    }
}

/// An arm is taken by exactly one load: after the armed load publishes, the next load is not
/// armed unless the main thread arms again.
pub proof fn lemma_arm_taken_once(
    h0: LoadHandoff,
    h1: LoadHandoff,
    h2: LoadHandoff,
    h3: LoadHandoff,
    h4: LoadHandoff,
)
    requires
        h0.after_enter(h1),
        h1.after_publish(h2),
        h2.after_enter(h3),
        h3.after_publish(h4),
    ensures
        h0.spec_status() is Settled ==> (h4.spec_status() matches LoadStatus::Settled { armed, .. }
            && !armed),
{
    if h0.spec_status() is Settled {
        lemma_load_window(h0, h1, h2);
        lemma_load_window(h2, h3, h4);
    }
}

/// One step of the handoff, as the main thread and the loader thread take them.
#[derive(Debug, Clone, Copy, PartialEq, Eq, Structural)]
pub enum LoadEvent {
    /// The main thread requests an arm ([`LoadHandoff::arm`]).
    Arm,
    /// The loader thread enters ([`LoadHandoff::enter`]).
    Enter,
    /// The loader thread publishes ([`LoadHandoff::publish`]).
    Publish,
}

/// The state `next` follows `h` by the step `e`.
pub open spec fn load_step(h: LoadHandoff, e: LoadEvent, next: LoadHandoff) -> bool {
    match e {
        LoadEvent::Arm => h.after_arm(next),
        LoadEvent::Enter => h.after_enter(next),
        LoadEvent::Publish => h.after_publish(next),
    }
}

/// `hs` is the sequence of states that the steps `es` pass through.
pub open spec fn is_load_run(hs: Seq<LoadHandoff>, es: Seq<LoadEvent>) -> bool {
    &&& hs.len() == es.len() + 1
    &&& forall|i: int| 0 <= i < es.len() ==> #[trigger] load_step(hs[i], es[i], hs[i + 1])
}

/// The number of loader entries among `es`.
pub open spec fn enters(es: Seq<LoadEvent>) -> nat
    decreases es.len(),
{
    if es.len() == 0 {
        0
    } else {
        enters(es.drop_last()) + (if es.last() == LoadEvent::Enter { 1nat } else { 0nat })
    }
}

/// The number of publishes among `es`.
pub open spec fn publishes(es: Seq<LoadEvent>) -> nat
    decreases es.len(),
{
    if es.len() == 0 {
        0
    } else {
        publishes(es.drop_last()) + (if es.last() == LoadEvent::Publish { 1nat } else { 0nat })
    }
}

/// The loader's entries and publishes alternate, starting with an entry.
pub open spec fn loader_alternates(es: Seq<LoadEvent>) -> bool
    decreases es.len(),
{
    if es.len() == 0 {
        true
    } else {
        let pre = es.drop_last();
        &&& loader_alternates(pre)
        &&& (es.last() == LoadEvent::Enter ==> enters(pre) == publishes(pre))
        &&& (es.last() == LoadEvent::Publish ==> enters(pre) == publishes(pre) + 1)
    }
}

/// Whether an arm was requested after the latest entry among `es`.
pub open spec fn arm_pending(es: Seq<LoadEvent>) -> bool
    decreases es.len(),
{
    if es.len() == 0 {
        false
    } else {
        match es.last() {
            LoadEvent::Arm => true,
            LoadEvent::Enter => false,
            LoadEvent::Publish => arm_pending(es.drop_last()),
        }
    }
}

/// Whether the latest entry among `es` took an arm: some arm was requested after the entry
/// before it (or the start) and before it.
pub open spec fn latest_entry_armed(es: Seq<LoadEvent>) -> bool
    decreases es.len(),
{
    if es.len() == 0 {
        false
    } else {
        match es.last() {
            LoadEvent::Enter => arm_pending(es.drop_last()),
            _ => latest_entry_armed(es.drop_last()),
        }
    }
}

/// The counter after `x` loader steps from zero.
proof fn lemma_counter_step(x: nat)
    ensures
        next_counter((x % 0x1_0000_0000) as u32) == (x + 1) % 0x1_0000_0000,
{
    let d: int = 0x1_0000_0000;
    vstd::arithmetic::div_mod::lemma_fundamental_div_mod(x as int, d);
    let q = x as int / d;
    let r = x as int % d;
    if r + 1 < d {
        vstd::arithmetic::div_mod::lemma_fundamental_div_mod_converse(x + 1int, d, q, r + 1);
    } else {
        vstd::arithmetic::div_mod::lemma_fundamental_div_mod_converse(x + 1int, d, q + 1, 0);
    }
}

/// A counter of `2p + b` steps is odd exactly when `b` is 1, and holds generation `p` modulo the
/// period.
proof fn lemma_counter_halves(p: nat, b: nat)
    requires
        b <= 1,
    ensures
        ((2 * p + b) % 0x1_0000_0000) % 2 == b,
        ((2 * p + b) % 0x1_0000_0000) / 2 == p as int % generation_period(),
{
    let q = p as int / generation_period();
    let r = p as int % generation_period();
    vstd::arithmetic::div_mod::lemma_fundamental_div_mod(p as int, generation_period());
    let x: int = 2 * p as int + b as int;
    assert(x == q * 0x1_0000_0000 + (2 * r + b));
    vstd::arithmetic::div_mod::lemma_fundamental_div_mod_converse(x, 0x1_0000_0000, q, 2 * r + b);
    vstd::arithmetic::div_mod::lemma_fundamental_div_mod_converse(2 * r + b, 2, r, b as int);
}

/// The handoff over any run from a fresh handoff in which the loader's entries and publishes
/// alternate (arms may come anywhere): the counter is the number of loader steps; the handoff
/// reports a load in flight exactly when there is one more entry than publishes; otherwise it is
/// settled at a generation equal to the number of publishes (modulo the period), armed exactly
/// when the latest entry took an arm requested since the entry before it; and the generation
/// that [`load_generation`] reads is the number of publishes, in flight or not.
pub proof fn lemma_load_run(hs: Seq<LoadHandoff>, es: Seq<LoadEvent>)
    requires
        hs[0].is(0, false, false),
        is_load_run(hs, es),
        loader_alternates(es),
    ensures
        enters(es) == publishes(es) || enters(es) == publishes(es) + 1,
        hs.last().counter() == (enters(es) + publishes(es)) % 0x1_0000_0000,
        hs.last().spec_status() == (if enters(es) == publishes(es) + 1 {
            LoadStatus::InFlight
        } else {
            LoadStatus::Settled {
                generation: Generation((publishes(es) as int % generation_period()) as u32),
                armed: latest_entry_armed(es),
            }
        }),
        hs.last().spec_generation() == publishes(es) as int % generation_period(),
        hs.last().armed() == latest_entry_armed(es),
        hs.last().arm_request() == arm_pending(es),
    decreases es.len(),
{
    let n = es.len() as int;
    if n > 0 {
        let pre = es.drop_last();
        let hpre = hs.take(n);
        assert forall|i: int| 0 <= i < pre.len() as int implies #[trigger] load_step(
            hpre[i],
            pre[i],
            hpre[i + 1],
        ) by {
            assert(load_step(hs[i], es[i], hs[i + 1]));
        }
        lemma_load_run(hpre, pre);
        assert(load_step(hs[n - 1], es[n - 1], hs[n]));
        assert(hpre.last() == hs[n - 1]);
        lemma_counter_step(enters(pre) + publishes(pre));
    }
    let e = enters(es);
    let p = publishes(es);
    if e == p {
        lemma_counter_halves(p, 0);
        assert(e + p == 2 * p + 0);
    } else {
        lemma_counter_halves(p, 1);
        assert(e + p == 2 * p + 1);
    }
}

/// A value that belongs to a single stage load. Writes record the value's load generation; reads
/// name the generation asking, and a read for any other generation sees the value of a brand-new
/// load.
pub struct PerLoad<T> {
    /// The state of a brand-new load.
    fresh: T,
    cell: MainCell<Option<(Generation, T)>>,
}

impl<T: Copy> PerLoad<T> {
    /// The value that a brand-new load sees.
    pub closed spec fn fresh(&self) -> T {
        self.fresh
    }

    /// The stored value and the generation it belongs to, if any was stored.
    pub closed spec fn stored(&self) -> Option<(Generation, T)> {
        self.cell.value()
    }

    /// The value that a read for `generation` sees.
    pub open spec fn value_at(&self, generation: Generation) -> T {
        match self.stored() {
            Some((stamp, value)) => if stamp == generation {
                value
            } else {
                self.fresh()
            },
            None => self.fresh(),
        }
    }

    /// Constructs a cell whose every generation reads `fresh`.
    pub fn new(fresh: T) -> (r: Self)
        ensures
            r.fresh() == fresh,
            r.stored() is None,
    {
        PerLoad { fresh, cell: MainCell::new(None) }
    }

    /// Returns the value stored under `generation`, or the fresh value if none is.
    pub fn get(&self, thread: MainThread, generation: Generation) -> (r: T)
        ensures
            r == self.value_at(generation),
    {
        match self.cell.get(thread) {
            Some((stamp, value)) => {
                if stamp == generation {
                    value
                } else {
                    self.fresh
                }
            },
            None => self.fresh,
        }
    }

    /// Stores `value` as belonging to `generation`.
    pub fn set(&mut self, thread: MainThread, generation: Generation, value: T)
        ensures
            final(self).fresh() == old(self).fresh(),
            final(self).stored() == Some((generation, value)),
    {
        self.cell.set(thread, Some((generation, value)));
    }

    /// Runs `f` on the value that `generation` sees. If `f` returns `Some((value, r))`, `value` is
    /// stored under `generation` and `Some(r)` is returned; if it returns `None`, the cell is left
    /// untouched and `None` is returned.
    pub fn update<R, F: FnOnce(T) -> Option<(T, R)>>(
        &mut self,
        thread: MainThread,
        generation: Generation,
        f: F,
    ) -> (r: Option<R>)
        requires
            f.requires((old(self).value_at(generation),)),
        ensures
            final(self).fresh() == old(self).fresh(),
            exists|out: Option<(T, R)>|
                {
                    &&& #[trigger] f.ensures((old(self).value_at(generation),), out)
                    &&& match out {
                        Some((value, x)) => {
                            &&& r == Some(x)
                            &&& final(self).stored() == Some((generation, value))
                        },
                        None => {
                            &&& r is None
                            &&& *final(self) == *old(self)
                        },
                    }
                },
    {
        let value = self.get(thread, generation);
        let out = f(value);
        match out {
            Some((value, x)) => {
                self.set(thread, generation, value);
                Some(x)
            },
            None => None,
        }
    }
}

/// A read for the generation just written sees the written value; a read for any other
/// generation sees the fresh value.
pub proof fn lemma_per_load_scoped<T: Copy>(
    cell: PerLoad<T>,
    written: Generation,
    value: T,
    other: Generation,
)
    requires
        cell.stored() == Some((written, value)),
        other != written,
    ensures
        cell.value_at(written) == value,
        cell.value_at(other) == cell.fresh(),
{
}

} // verus!
