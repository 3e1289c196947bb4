//! The brush overlay: its settings, the pointer it follows, the push constants
//! of one stroke, and the node that decides when a stroke is dispatched.
//!
//! Positions, sizes and colours are `f32` values carried as bit patterns.

use vstd::prelude::*;

use crate::bytes::{is_packed_buffer, words_as_bytes};
use crate::filter::ONE_BITS;
use crate::grid::Grid;
use crate::node::ImageSlot;

verus! {

/// Brush type selector of a round brush.
pub const BRUSH_CIRCLE: u32 = 0;

/// Brush type selector of a square brush.
pub const BRUSH_SQUARE: u32 = 1;

/// Bit pattern of the `f32` value 10.0, the default brush size.
pub const TEN_BITS: u32 = 0x4120_0000;

/// Size in bytes of the push constants of one stroke: nine words.
pub const PUSH_CONSTANTS_SIZE: usize = 36;

/// The brush as the user configured it.
#[derive(Debug, Clone, Copy, PartialEq, Eq)]
pub struct NCADrawSettings {
    /// Whether the pointer is free for painting (not over the user interface).
    pub is_drawing: bool,
    pub brush_size: u32,
    /// [`BRUSH_CIRCLE`] or [`BRUSH_SQUARE`].
    pub brush_type: u32,
    pub brush_color: [u32; 3],
}

impl Default for NCADrawSettings {
    /// A white round brush of size ten.
    fn default() -> (r: NCADrawSettings)
        ensures
            r.is_drawing,
            r.brush_size == TEN_BITS,
            r.brush_type == BRUSH_CIRCLE,
            r.brush_color@ == seq![ONE_BITS, ONE_BITS, ONE_BITS],
    {
        let r = NCADrawSettings {
            is_drawing: true,
            brush_size: TEN_BITS,
            brush_type: BRUSH_CIRCLE,
            brush_color: [ONE_BITS, ONE_BITS, ONE_BITS],
        };
        assert(r.brush_color@ =~= seq![ONE_BITS, ONE_BITS, ONE_BITS]);
        r
    }
}

/// The pointer in grid coordinates, and whether a stroke is in progress.
#[derive(Debug, Clone, Copy, PartialEq, Eq)]
pub struct NCAMouseParams {
    pub is_drawing: bool,
    pub mouse_pos: [u32; 2],
    pub prev_mouse_pos: [u32; 2],
}

impl Default for NCAMouseParams {
    /// No stroke, the pointer at the origin.
    fn default() -> (r: NCAMouseParams)
        ensures
            !r.is_drawing,
            r.mouse_pos@ == seq![0u32, 0u32],
            r.prev_mouse_pos@ == seq![0u32, 0u32],
    {
        let r = NCAMouseParams { is_drawing: false, mouse_pos: [0, 0], prev_mouse_pos: [0, 0] };
        assert(r.mouse_pos@ =~= seq![0u32, 0u32]);
        assert(r.prev_mouse_pos@ =~= seq![0u32, 0u32]);
        r
    }
}

/// Takes in one frame of pointer input. Over the user interface the pointer
/// is not free for painting, and the input is left to the interface. Elsewhere
/// the left button's presses (`true`) and releases (`false`), in order, decide
/// by the last of them whether a stroke is in progress, and a new pointer
/// position in grid coordinates becomes current, the old one previous.
pub fn update_input_state(
    input: &mut NCAMouseParams,
    brush: &mut NCADrawSettings,
    over_ui: bool,
    left_button: &Vec<bool>,
    cursor: Option<[u32; 2]>,
)
    ensures
        final(brush).is_drawing == !over_ui,
        final(brush).brush_size == old(brush).brush_size,
        final(brush).brush_type == old(brush).brush_type,
        final(brush).brush_color == old(brush).brush_color,
        over_ui ==> *final(input) == *old(input),
        !over_ui && left_button@.len() == 0 ==> final(input).is_drawing == old(input).is_drawing,
        !over_ui && left_button@.len() > 0 ==> final(input).is_drawing == left_button@.last(),
        !over_ui && cursor is Some ==> final(input).mouse_pos == cursor->Some_0
            && final(input).prev_mouse_pos == old(input).mouse_pos,
        !over_ui && cursor is None ==> final(input).mouse_pos == old(input).mouse_pos
            && final(input).prev_mouse_pos == old(input).prev_mouse_pos,
{
    brush.is_drawing = !over_ui;
    if over_ui {
        return;
    }
    let mut i: usize = 0;
    while i < left_button.len()
        invariant
            i <= left_button@.len(),
            i == 0 ==> input.is_drawing == old(input).is_drawing,
            i > 0 ==> input.is_drawing == left_button@[i - 1],
            input.mouse_pos == old(input).mouse_pos,
            input.prev_mouse_pos == old(input).prev_mouse_pos,
        decreases left_button@.len() - i,
    {
        input.is_drawing = left_button[i];
        i = i + 1;
    }
    if let Some(pos) = cursor {
        input.prev_mouse_pos = input.mouse_pos;
        input.mouse_pos = pos;
    }
}

/// The parameters of one brush stroke, handed to the draw kernel as push
/// constants: the segment from `draw_start` to `draw_end`, and the brush.
#[derive(Debug, Clone, Copy, PartialEq, Eq)]
pub struct NCAPushConstants {
    pub draw_start: [u32; 2],
    pub draw_end: [u32; 2],
    pub brush_size: u32,
    pub brush_type: u32,
    pub brush_color: [u32; 3],
}

/// The nine words of `pc` in the order the draw kernel reads them.
pub open spec fn push_words(pc: NCAPushConstants) -> Seq<u32> {
    seq![
        pc.draw_start@[0], pc.draw_start@[1],
        pc.draw_end@[0], pc.draw_end@[1],
        pc.brush_size, pc.brush_type,
        pc.brush_color@[0], pc.brush_color@[1], pc.brush_color@[2],
    ]
}

impl NCAPushConstants {
    pub fn new(
        draw_start: [u32; 2],
        draw_end: [u32; 2],
        brush_size: u32,
        brush_type: u32,
        brush_color: [u32; 3],
    ) -> (r: NCAPushConstants)
        ensures
            r == (NCAPushConstants { draw_start, draw_end, brush_size, brush_type, brush_color }),
    {
        NCAPushConstants { draw_start, draw_end, brush_size, brush_type, brush_color }
    }

    /// The push constants as bytes, nine words in the order of `push_words`.
    pub fn to_bytes(&self) -> (r: Vec<u8>)
        ensures
            r@.len() == PUSH_CONSTANTS_SIZE,
            is_packed_buffer(r@, push_words(*self)),
    {
        let words: [u32; 9] = [
            self.draw_start[0], self.draw_start[1],
            self.draw_end[0], self.draw_end[1],
            self.brush_size, self.brush_type,
            self.brush_color[0], self.brush_color[1], self.brush_color[2],
        ];
        assert(words@ =~= push_words(*self));
        words_as_bytes(&words)
    }
}

/// A full-grid dispatch of the draw kernel on one image.
#[derive(Debug, Clone, Copy, PartialEq, Eq)]
pub struct DrawDispatch {
    pub target: ImageSlot,
    pub constants: NCAPushConstants,
    pub groups_x: u32,
    pub groups_y: u32,
}

/// The state of the draw node.
#[derive(Debug, Clone, Copy, PartialEq, Eq, Structural)]
pub enum NCADrawState {
    /// The draw kernel is not compiled yet.
    Loading,
    /// The draw kernel is ready.
    Update,
}

/// The stroke the overlay dispatches: none unless a stroke is in progress and
/// the draw kernel is ready; else a segment from the current pointer position to
/// the previous one, painted with the configured brush into `target`.
pub open spec fn planned_stroke(
    state: NCADrawState,
    mouse: NCAMouseParams,
    brush: NCADrawSettings,
    target: ImageSlot,
    groups: (u32, u32),
) -> Option<DrawDispatch> {
    if mouse.is_drawing && state == NCADrawState::Update {
        Some(
            DrawDispatch {
                target,
                constants: NCAPushConstants {
                    draw_start: mouse.mouse_pos,
                    draw_end: mouse.prev_mouse_pos,
                    brush_size: brush.brush_size,
                    brush_type: brush.brush_type,
                    brush_color: brush.brush_color,
                },
                groups_x: groups.0,
                groups_y: groups.1,
            },
        )
    } else {
        None
    }
}

/// The brush overlay node of the frame graph.
#[derive(Debug)]
pub struct NCADrawNode {
    state: NCADrawState,
    workgroups: (u32, u32),
}

impl NCADrawNode {
    pub closed spec fn spec_state(&self) -> NCADrawState {
        self.state
    }

    pub closed spec fn spec_workgroups(&self) -> (u32, u32) {
        self.workgroups
    }

    /// A node waiting for its kernel, for the given grid.
    pub fn new(grid: &Grid) -> (r: NCADrawNode)
        requires
            grid.wf(),
        ensures
            r.spec_state() == NCADrawState::Loading,
            r.spec_workgroups().0 * crate::WORKGROUP_SIZE == grid.width,
            r.spec_workgroups().1 * crate::WORKGROUP_SIZE == grid.height,
    {
        NCADrawNode { state: NCADrawState::Loading, workgroups: grid.workgroups() }
    }

    pub fn state(&self) -> (r: NCADrawState)
        ensures
            r == self.spec_state(),
    {
        self.state
    }

    /// The update phase: the node becomes ready, for good, once its kernel is.
    pub fn update(&mut self, draw_ready: bool)
        ensures
            final(self).spec_state() == if old(self).spec_state() == NCADrawState::Loading && !draw_ready {
                NCADrawState::Loading
            } else {
                NCADrawState::Update
            },
            final(self).spec_workgroups() == old(self).spec_workgroups(),
    {
        if draw_ready {
            self.state = NCADrawState::Update;
        }
    }

    /// The run phase, after the automaton's: the stroke to paint into `target`,
    /// the image shown this frame. Without a stroke in progress nothing is
    /// dispatched at all, so the shown image is left exactly as it is.
    pub fn run(&self, mouse: &NCAMouseParams, brush: &NCADrawSettings, target: ImageSlot) -> (r: Option<
        DrawDispatch,
    >)
        ensures
            r == planned_stroke(self.spec_state(), *mouse, *brush, target, self.spec_workgroups()),
            !mouse.is_drawing ==> r is None,
    {
        if mouse.is_drawing {
            match self.state {
                NCADrawState::Loading => None,
                NCADrawState::Update => Some(
                    DrawDispatch {
                        target,
                        constants: NCAPushConstants::new(
                            mouse.mouse_pos,
                            mouse.prev_mouse_pos,
                            brush.brush_size,
                            brush.brush_type,
                            brush.brush_color,
                        ),
                        groups_x: self.workgroups.0,
                        groups_y: self.workgroups.1,
                    },
                ),
            }
        } else {
            None
        }
    }
}

} // verus!
