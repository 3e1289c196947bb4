//! The automaton node: the loading/initialising/stepping state machine that is
//! advanced once per frame, and the dispatch it asks for in each state.

use vstd::prelude::*;

use crate::grid::Grid;

verus! {

/// One of the two grid images between which the automaton ping-pongs.
#[derive(Debug, Clone, Copy, PartialEq, Eq, Structural)]
pub enum ImageSlot {
    A,
    B,
}

/// The other image of the pair.
pub open spec fn other_slot(s: ImageSlot) -> ImageSlot {
    match s {
        ImageSlot::A => ImageSlot::B,
        ImageSlot::B => ImageSlot::A,
    }
}

/// The images bound by one of the two precomputed bind groups: the automaton
/// reads `read` and writes `write`. The three filter buffers follow them in the
/// order red, green, blue.
#[derive(Debug, Clone, Copy, PartialEq, Eq, Structural)]
pub struct NCABinding {
    pub read: ImageSlot,
    pub write: ImageSlot,
}

/// The image that bind group `selector` reads: group zero goes from A to B,
/// group one from B to A.
pub open spec fn read_slot(selector: int) -> ImageSlot {
    if selector == 0 {
        ImageSlot::A
    } else {
        ImageSlot::B
    }
}

/// The layout of bind group `selector`.
pub fn nca_binding(selector: usize) -> (r: NCABinding)
    requires
        selector < 2,
    ensures
        r.read == read_slot(selector as int),
        r.write == other_slot(read_slot(selector as int)),
{
    if selector == 0 {
        NCABinding { read: ImageSlot::A, write: ImageSlot::B }
    } else {
        NCABinding { read: ImageSlot::B, write: ImageSlot::A }
    }
}

/// The two bind groups, one per direction. They must be rebuilt whenever an
/// image or a filter buffer is replaced, before the next dispatch.
pub fn nca_binding_pair() -> (r: [NCABinding; 2])
    ensures
        r[0].read == ImageSlot::A && r[0].write == ImageSlot::B,
        r[1].read == ImageSlot::B && r[1].write == ImageSlot::A,
{
    [nca_binding(0), nca_binding(1)]
}

/// The shared flag that forces the automaton kernels to be recompiled and the
/// state machine to restart. It is read and cleared once per frame.
#[derive(Debug, Clone, Copy, PartialEq, Eq, Structural)]
pub struct ReinitPipeline {
    pub reinit: bool,
}

impl Default for ReinitPipeline {
    /// A lowered flag.
    fn default() -> (r: ReinitPipeline)
        ensures
            !r.reinit,
    {
        ReinitPipeline { reinit: false }
    }
}

impl ReinitPipeline {
    /// A lowered flag.
    pub fn new() -> (r: ReinitPipeline)
        ensures
            !r.reinit,
    {
        ReinitPipeline { reinit: false }
    }

    /// Raises the flag; any number of producers may do so within a frame.
    pub fn request(&mut self)
        ensures
            final(self).reinit,
    {
        self.reinit = true;
    }
}

/// The state of the automaton node.
#[derive(Debug, Clone, Copy, PartialEq, Eq, Structural)]
pub enum NCAState {
    /// Kernels submitted for compilation, not both ready yet.
    Loading,
    /// Both kernels ready: the seeding kernel runs once.
    Init,
    /// Stepping with the bind group of the given selector (zero or one).
    Update(usize),
}

/// The selector of a stepping state is zero or one.
pub open spec fn state_wf(s: NCAState) -> bool {
    s is Update ==> s->Update_0 < 2
}

/// One tick of the state machine: a raised reinit flag restarts it; otherwise
/// loading ends once both kernels are ready, seeding is followed by stepping
/// with selector one, and the selector then alternates.
pub open spec fn next_state(s: NCAState, reinit: bool, init_ready: bool, update_ready: bool) -> NCAState {
    if reinit {
        NCAState::Loading
    } else {
        match s {
            NCAState::Loading => if init_ready && update_ready {
                NCAState::Init
            } else {
                NCAState::Loading
            },
            NCAState::Init => NCAState::Update(1),
            NCAState::Update(i) => NCAState::Update(if i == 0 {
                1
            } else {
                0
            }),
        }
    }
}

/// The kernel a dispatch runs.
#[derive(Debug, Clone, Copy, PartialEq, Eq, Structural)]
pub enum Kernel {
    /// Seeds the written image with pseudo-random colours.
    Init,
    /// One automaton step from the read image into the written image.
    Update,
}

/// A full-grid dispatch of one kernel with one of the two bind groups.
#[derive(Debug, Clone, Copy, PartialEq, Eq, Structural)]
pub struct Dispatch {
    pub kernel: Kernel,
    pub bind_group: usize,
    /// Number of tiles along the width.
    pub groups_x: u32,
    /// Number of tiles along the height.
    pub groups_y: u32,
}

/// What the node dispatches in state `s`: nothing while loading or while the
/// reinit flag stands, the seeding kernel with bind group zero, or a step with
/// the bind group of the selector.
pub open spec fn planned_dispatch(s: NCAState, reinit: bool, workgroups: (u32, u32)) -> Option<
    Dispatch,
> {
    if reinit {
        None
    } else {
        match s {
            NCAState::Loading => None,
            NCAState::Init => Some(Dispatch { kernel: Kernel::Init, bind_group: 0, groups_x: workgroups.0, groups_y: workgroups.1 }),
            NCAState::Update(i) => Some(Dispatch { kernel: Kernel::Update, bind_group: i, groups_x: workgroups.0, groups_y: workgroups.1 }),
        }
    }
}

/// The image shown in state `s`: the one that this tick's step reads, which
/// the brush overlay paints into, while the step writes the other one.
pub open spec fn displayed_slot(s: NCAState) -> ImageSlot {
    match s {
        NCAState::Update(i) => read_slot(i as int),
        _ => ImageSlot::A,
    }
}

/// The state after `n` ticks in which no reinit is requested and both kernels
/// are ready.
pub open spec fn ticks_ready(s: NCAState, n: nat) -> NCAState
    decreases n,
{
    if n == 0 {
        s
    } else {
        next_state(ticks_ready(s, (n - 1) as nat), false, true, true)
    }
}

/// Start-up order. Loading dispatches nothing and lasts while either kernel is
/// not ready. Once both are, the first tick dispatches the seeding kernel, and
/// only that tick; every later tick dispatches a step, with the selector going
/// 1, 0, 1, 0, ...
pub proof fn lemma_start_sequence(n: nat, workgroups: (u32, u32))
    ensures
        planned_dispatch(NCAState::Loading, false, workgroups) is None,
        forall|a: bool, b: bool|
            !(a && b) ==> #[trigger] next_state(NCAState::Loading, false, a, b) == NCAState::Loading,
        n == 1 ==> ticks_ready(NCAState::Loading, n) == NCAState::Init,
        n >= 2 ==> ticks_ready(NCAState::Loading, n) == NCAState::Update(((n + 1) % 2) as usize),
        n >= 1 ==> planned_dispatch(ticks_ready(NCAState::Loading, n), false, workgroups) is Some,
        n >= 1 ==> (planned_dispatch(ticks_ready(NCAState::Loading, n), false, workgroups)->Some_0.kernel
            == Kernel::Init <==> n == 1),
        n >= 2 ==> planned_dispatch(ticks_ready(NCAState::Loading, n), false, workgroups)->Some_0.bind_group
            == (n + 1) % 2,
    decreases n,
{
    reveal_with_fuel(ticks_ready, 2);
    if n >= 2 {
        lemma_start_sequence((n - 1) as nat, workgroups);
    }
}

/// Restart: a raised reinit flag sends every state back to loading on the next
/// update phase, whatever the kernels report, and nothing is dispatched while
/// the flag stands or while loading.
pub proof fn lemma_reinit_restarts(s: NCAState, init_ready: bool, update_ready: bool, workgroups: (u32, u32))
    ensures
        next_state(s, true, init_ready, update_ready) == NCAState::Loading,
        planned_dispatch(s, true, workgroups) is None,
        planned_dispatch(next_state(s, true, init_ready, update_ready), false, workgroups) is None,
{
}

/// Every tick keeps the selector at zero or one.
pub proof fn lemma_next_state_wf(s: NCAState, reinit: bool, init_ready: bool, update_ready: bool)
    requires
        state_wf(s),
    ensures
        state_wf(next_state(s, reinit, init_ready, update_ready)),
{
}

/// The step of every tick writes the image that the previous step read, and the
/// image shown is never the one being written: the brush and the automaton
/// never target the same image in one tick.
pub proof fn lemma_display_follows_selector(s: NCAState, workgroups: (u32, u32))
    requires
        state_wf(s),
        s is Update,
    ensures
        ({
            let d = planned_dispatch(s, false, workgroups)->Some_0;
            let n = next_state(s, false, true, true);
            &&& displayed_slot(s) == read_slot(d.bind_group as int)
            &&& displayed_slot(s) != other_slot(read_slot(d.bind_group as int))
            &&& displayed_slot(n) == other_slot(displayed_slot(s))
        }),
{
}

/// The automaton node of the frame graph.
#[derive(Debug)]
pub struct NCANode {
    state: NCAState,
    workgroups: (u32, u32),
}

impl NCANode {
    /// The current state.
    pub closed spec fn spec_state(&self) -> NCAState {
        self.state
    }

    /// The size of every dispatch.
    pub closed spec fn spec_workgroups(&self) -> (u32, u32) {
        self.workgroups
    }

    pub closed spec fn wf(&self) -> bool {
        state_wf(self.state)
    }

    /// A node in the loading state for the given grid.
    pub fn new(grid: &Grid) -> (r: NCANode)
        requires
            grid.wf(),
        ensures
            r.wf(),
            r.spec_state() == NCAState::Loading,
            r.spec_workgroups().0 * crate::WORKGROUP_SIZE == grid.width,
            r.spec_workgroups().1 * crate::WORKGROUP_SIZE == grid.height,
    {
        NCANode { state: NCAState::Loading, workgroups: grid.workgroups() }
    }

    /// The current state.
    pub fn state(&self) -> (r: NCAState)
        ensures
            r == self.spec_state(),
    {
        self.state
    }

    /// The update phase of one frame. Reads and clears the reinit flag, then
    /// advances the state machine given whether the two kernels are compiled.
    /// Returns whether the kernels must be recompiled from the current program;
    /// the readiness of the old kernels is then ignored.
    pub fn update(&mut self, signal: &mut ReinitPipeline, init_ready: bool, update_ready: bool) -> (recompile: bool)
        requires
            old(self).wf(),
        ensures
            final(self).wf(),
            recompile == old(signal).reinit,
            !final(signal).reinit,
            final(self).spec_state() == next_state(
                old(self).spec_state(),
                old(signal).reinit,
                init_ready,
                update_ready,
            ),
            final(self).spec_workgroups() == old(self).spec_workgroups(),
    {
        let recompile = signal.reinit;
        signal.reinit = false;
        if recompile {
            self.state = NCAState::Loading;
        } else {
            self.state = match self.state {
                NCAState::Loading => if init_ready && update_ready {
                    NCAState::Init
                } else {
                    NCAState::Loading
                },
                NCAState::Init => NCAState::Update(1),
                NCAState::Update(i) => NCAState::Update(if i == 0 {
                    1
                } else {
                    0
                }),
            };
        }
        recompile
    }

    /// The run phase of one frame: the dispatch to submit, if any.
    pub fn run(&self, reinit: bool) -> (r: Option<Dispatch>)
        requires
            self.wf(),
        ensures
            r == planned_dispatch(self.spec_state(), reinit, self.spec_workgroups()),
            r is Some ==> r->Some_0.bind_group < 2,
    {
        if reinit {
            return None;
        }
        match self.state {
            NCAState::Loading => None,
            NCAState::Init => Some(
                Dispatch { kernel: Kernel::Init, bind_group: 0, groups_x: self.workgroups.0, groups_y: self.workgroups.1 },
            ),
            NCAState::Update(i) => Some(
                Dispatch { kernel: Kernel::Update, bind_group: i, groups_x: self.workgroups.0, groups_y: self.workgroups.1 },
            ),
        }
    }

    /// The image to present this frame, and for the brush to paint into.
    pub fn displayed(&self) -> (r: ImageSlot)
        requires
            self.wf(),
        ensures
            r == displayed_slot(self.spec_state()),
    {
        match self.state {
            NCAState::Update(i) => nca_binding(i).read,
            _ => ImageSlot::A,
        }
    }
}

} // verus!
