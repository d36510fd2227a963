use vstd::prelude::*;

use crate::dimensions::Dimensions;
use crate::graph::PixelFormat;

verus! {

/// Mathematical model of a [`RenderGraph`]: what the monitor remembers
/// between frames.
pub struct MonitorState {
    /// The extent the current graph was confirmed for, if any.
    pub last_confirmed: Option<Dimensions>,
    /// The extent seen most recently that differs from the confirmed one.
    pub pending: Option<Dimensions>,
    /// Whether `pending` awaits a second, equal observation.
    pub armed: bool,
    /// The surface's native format, once it has been resolved.
    pub cached_format: Option<PixelFormat>,
}

impl MonitorState {
    /// The state before the first observation.
    pub open spec fn initial() -> MonitorState {
        MonitorState { last_confirmed: None, pending: None, armed: false, cached_format: None }
    }

    /// No zero-sized extent is ever confirmed or pending, and an armed
    /// monitor has a pending extent.
    pub open spec fn wf(self) -> bool {
        &&& self.last_confirmed matches Some(d) ==> d.valid()
        &&& self.pending matches Some(d) ==> d.valid()
        &&& self.armed ==> self.pending is Some
    }

    /// Whether observing `d` in this state signals a rebuild: only a valid
    /// extent that repeats the pending one does.
    pub open spec fn signals(self, d: Dimensions) -> bool {
        d.valid() && self.armed && self.pending == Some(d)
    }

    /// The state after observing `d`.
    pub open spec fn observe(self, d: Dimensions) -> MonitorState {
        if !d.valid() {
            self
        } else if self.armed {
            if self.pending == Some(d) {
                MonitorState { last_confirmed: Some(d), armed: false, ..self }
            } else {
                MonitorState { pending: Some(d), ..self }
            }
        } else if self.last_confirmed == Some(d) {
            self
        } else {
            MonitorState { pending: Some(d), armed: true, ..self }
        }
    }

    /// The state after `d` is confirmed without a quiet tick. That happens
    /// only for a valid extent and only while nothing has been confirmed.
    pub open spec fn force_initial(self, d: Dimensions) -> MonitorState {
        if d.valid() && self.last_confirmed is None {
            MonitorState { last_confirmed: Some(d), armed: false, ..self }
        } else {
            self
        }
    }

    /// The state after observing each extent of `ds` in turn.
    pub open spec fn observe_all(self, ds: Seq<Dimensions>) -> MonitorState
        decreases ds.len(),
    {
        if ds.len() == 0 {
            self
        } else {
            self.observe_all(ds.drop_last()).observe(ds.last())
        }
    }

    /// Whether the last observation of the non-empty `ds` signals a rebuild,
    /// when its extents are observed in turn from this state.
    pub open spec fn signals_at_end(self, ds: Seq<Dimensions>) -> bool
        recommends
            ds.len() > 0,
    {
        self.observe_all(ds.drop_last()).signals(ds.last())
    }
}

/// Decides once per frame whether the frame graph has to be rebuilt, and
/// remembers what the builder needs between rebuilds.
#[derive(Clone, Copy, Debug)]
pub struct RenderGraph {
    last_confirmed: Option<Dimensions>,
    pending: Option<Dimensions>,
    armed: bool,
    cached_format: Option<PixelFormat>,
}

impl View for RenderGraph {
    type V = MonitorState;

    closed spec fn view(&self) -> MonitorState {
        MonitorState {
            last_confirmed: self.last_confirmed,
            pending: self.pending,
            armed: self.armed,
            cached_format: self.cached_format,
        }
    }
}

impl Default for RenderGraph {
    fn default() -> (monitor: RenderGraph)
        ensures
            monitor@ == MonitorState::initial(),
    {
        RenderGraph::new()
    }
}

impl RenderGraph {
    /// A monitor that has observed nothing yet.
    pub fn new() -> (monitor: RenderGraph)
        ensures
            monitor@ == MonitorState::initial(),
            monitor@.wf(),
    {
        RenderGraph { last_confirmed: None, pending: None, armed: false, cached_format: None }
    }

    /// Takes this frame's surface extent and says whether to rebuild now.
    ///
    /// A change is signalled only once the new extent has been seen on two
    /// consecutive observations, and then once. A zero-sized extent is
    /// ignored: it signals nothing and leaves the monitor as it was.
    pub fn observe(&mut self, current: Dimensions) -> (rebuild: bool)
        ensures
            rebuild == old(self)@.signals(current),
            final(self)@ == old(self)@.observe(current),
            !current.valid() ==> !rebuild && final(self)@ == old(self)@,
            final(self)@.cached_format == old(self)@.cached_format,
            old(self)@.wf() ==> final(self)@.wf(),
            rebuild ==> final(self)@.last_confirmed == Some(current) && !final(self)@.armed,
    {
        if !current.is_valid() {
            return false;
        }
        if self.armed {
            if same_extent(&self.pending, current) {
                self.last_confirmed = Some(current);
                self.armed = false;
                true
            } else {
                self.pending = Some(current);
                false
            }
        } else if same_extent(&self.last_confirmed, current) {
            false
        } else {
            self.pending = Some(current);
            self.armed = true;
            false
        }
    }

    /// Confirms `current` at once, for a first graph that has to exist before
    /// the second frame. It does so only for a valid extent and only while
    /// nothing has been confirmed; otherwise the monitor stays as it was.
    pub fn force_initial_build(&mut self, current: Dimensions) -> (confirmed: bool)
        ensures
            confirmed == (current.valid() && old(self)@.last_confirmed is None),
            final(self)@ == old(self)@.force_initial(current),
            confirmed ==> final(self)@.last_confirmed == Some(current) && !final(self)@.armed,
            !confirmed ==> final(self)@ == old(self)@,
            old(self)@.wf() ==> final(self)@.wf(),
    {
        if current.is_valid() && self.last_confirmed.is_none() {
            self.last_confirmed = Some(current);
            self.armed = false;
            true
        } else {
            false
        }
    }

    /// The extent the current graph was confirmed for, if any.
    pub fn confirmed(&self) -> (d: Option<Dimensions>)
        ensures
            d == self@.last_confirmed,
    {
        self.last_confirmed
    }

    /// The extent that awaits confirmation, if the debounce is armed.
    pub fn pending(&self) -> (d: Option<Dimensions>)
        ensures
            d == (if self@.armed { self@.pending } else { None }),
    {
        if self.armed {
            self.pending
        } else {
            None
        }
    }

    /// The surface format resolved so far, if any.
    pub fn surface_format(&self) -> (f: Option<PixelFormat>)
        ensures
            f == self@.cached_format,
    {
        self.cached_format
    }

    /// Remembers `format` as the surface's format unless one is remembered
    /// already, and returns the one that is remembered afterwards.
    pub(crate) fn resolve_format(&mut self, format: PixelFormat) -> (resolved: PixelFormat)
        ensures
            old(self)@.cached_format matches Some(f) ==> resolved == f,
            old(self)@.cached_format is None ==> resolved == format,
            final(self)@ == (MonitorState { cached_format: Some(resolved), ..old(self)@ }),
    {
        match self.cached_format {
            Some(f) => f,
            None => {
                self.cached_format = Some(format);
                format
            },
        }
    }
}

/// Whether `slot` holds exactly the extent `d`.
fn same_extent(slot: &Option<Dimensions>, d: Dimensions) -> (same: bool)
    ensures
        same == (*slot == Some(d)),
{
    match slot {
        Some(held) => *held == d,
        None => false,
    }
}

/// Debounce stability: observed from the start, a stream that repeats one
/// valid extent signals a rebuild on its second observation and on no other.
pub proof fn lemma_constant_stream(d: Dimensions, ds: Seq<Dimensions>)
    requires
        d.valid(),
        ds.len() > 0,
        forall|i: int| 0 <= i < ds.len() ==> ds[i] == d,
    ensures
        MonitorState::initial().signals_at_end(ds) == (ds.len() == 2),
        ds.len() >= 2 ==> MonitorState::initial().observe_all(ds).last_confirmed == Some(d)
            && !MonitorState::initial().observe_all(ds).armed,
    decreases ds.len(),
{
    let start = MonitorState::initial();
    let front = ds.drop_last();
    if front.len() == 0 {
        assert(start.observe_all(front) == start);
    } else {
        lemma_constant_stream(d, front);
        assert(front.last() == d);
        let before = front.drop_last();
        if before.len() == 0 {
            assert(start.observe_all(before) == start);
        } else if before.len() == 1 {
            assert(start.observe_all(before.drop_last()) == start);
            assert(before.last() == d);
        }
    }
}

/// A rebuild is signalled at most once per stable extent: after a signal,
/// observing the same extent again, however often, signals nothing.
pub proof fn lemma_signal_once(s: MonitorState, d: Dimensions, n: nat)
    requires
        s.signals(d),
        n > 0,
    ensures
        !s.observe(d).signals_at_end(Seq::new(n, |i: int| d)),
        s.observe(d).observe_all(Seq::new(n, |i: int| d)) == s.observe(d),
    decreases n,
{
    let after = s.observe(d);
    let ds = Seq::new(n, |i: int| d);
    assert(ds.drop_last() =~= Seq::new((n - 1) as nat, |i: int| d));
    if n > 1 {
        lemma_signal_once(s, d, (n - 1) as nat);
    } else {
        assert(after.observe_all(ds.drop_last()) == after);
    }
}

/// No rebuild while the extent keeps changing: whatever the monitor has seen
/// before, an observation that differs from the valid one just before it
/// signals nothing.
pub proof fn lemma_change_defers(s: MonitorState, previous: Dimensions, current: Dimensions)
    requires
        previous.valid(),
        previous != current,
    ensures
        !s.observe(previous).signals(current),
{
}

/// A zero-sized extent never signals a rebuild, whatever came before it.
pub proof fn lemma_zero_extent_rejected(s: MonitorState, d: Dimensions)
    requires
        d.width == 0 || d.height == 0,
    ensures
        !s.signals(d),
        s.observe(d) == s,
{
}

/// Observations keep the monitor well formed and never touch the cached
/// surface format.
pub proof fn lemma_observe_all_preserves(s: MonitorState, ds: Seq<Dimensions>)
    requires
        s.wf(),
    ensures
        s.observe_all(ds).wf(),
        s.observe_all(ds).cached_format == s.cached_format,
    decreases ds.len(),
{
    if ds.len() > 0 {
        lemma_observe_all_preserves(s, ds.drop_last());
    }
}

} // verus!
