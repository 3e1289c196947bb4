use nca_playground::draw::{
    update_input_state, NCADrawNode, NCADrawSettings, NCADrawState, NCAMouseParams,
    NCAPushConstants, BRUSH_CIRCLE, BRUSH_SQUARE, PUSH_CONSTANTS_SIZE, TEN_BITS,
};
use nca_playground::grid::Grid;
use nca_playground::node::ImageSlot;

fn ne_bytes(words: &[u32]) -> Vec<u8> {
    words.iter().flat_map(|w| w.to_ne_bytes()).collect()
}

fn painting_mouse() -> NCAMouseParams {
    NCAMouseParams {
        is_drawing: true,
        mouse_pos: [3.0f32.to_bits(), 4.0f32.to_bits()],
        prev_mouse_pos: [1.0f32.to_bits(), 2.0f32.to_bits()],
    }
}

#[test]
fn draw_defaults() {
    let d = NCADrawSettings::default();
    assert!(d.is_drawing);
    assert_eq!(d.brush_size, 10.0f32.to_bits());
    assert_eq!(TEN_BITS, 10.0f32.to_bits());
    assert_eq!(d.brush_type, BRUSH_CIRCLE);
    assert_eq!(d.brush_color, [1.0f32.to_bits(); 3]);
    assert_eq!((BRUSH_CIRCLE, BRUSH_SQUARE), (0, 1));
    let m = NCAMouseParams::default();
    assert!(!m.is_drawing);
    assert_eq!(m.mouse_pos, [0, 0]);
    assert_eq!(m.prev_mouse_pos, [0, 0]);
}

#[test]
fn no_stroke_no_dispatch() {
    let grid = Grid::new(16, 16).unwrap();
    let mut node = NCADrawNode::new(&grid);
    node.update(true);
    let mut mouse = painting_mouse();
    mouse.is_drawing = false;
    assert_eq!(node.run(&mouse, &NCADrawSettings::default(), ImageSlot::A), None);
}

#[test]
fn loading_draw_node_skips() {
    let grid = Grid::new(16, 16).unwrap();
    let mut node = NCADrawNode::new(&grid);
    assert_eq!(node.state(), NCADrawState::Loading);
    node.update(false);
    assert_eq!(node.state(), NCADrawState::Loading);
    assert_eq!(node.run(&painting_mouse(), &NCADrawSettings::default(), ImageSlot::A), None);
}

#[test]
fn stroke_goes_from_current_to_previous_position() {
    let grid = Grid::new(16, 8).unwrap();
    let mut node = NCADrawNode::new(&grid);
    node.update(true);
    node.update(false);
    assert_eq!(node.state(), NCADrawState::Update);
    let mut brush = NCADrawSettings::default();
    brush.brush_type = BRUSH_SQUARE;
    let d = node.run(&painting_mouse(), &brush, ImageSlot::B).unwrap();
    assert_eq!(d.target, ImageSlot::B);
    assert_eq!((d.groups_x, d.groups_y), (2, 1));
    assert_eq!(d.constants.draw_start, [3.0f32.to_bits(), 4.0f32.to_bits()]);
    assert_eq!(d.constants.draw_end, [1.0f32.to_bits(), 2.0f32.to_bits()]);
    assert_eq!(d.constants.brush_size, TEN_BITS);
    assert_eq!(d.constants.brush_type, BRUSH_SQUARE);
    assert_eq!(d.constants.brush_color, [1.0f32.to_bits(); 3]);
}

#[test]
fn push_constants_bytes() {
    let pc = NCAPushConstants::new([1, 2], [3, 4], 5, 6, [7, 8, 9]);
    let bytes = pc.to_bytes();
    assert_eq!(bytes.len(), PUSH_CONSTANTS_SIZE);
    assert_eq!(bytes, ne_bytes(&[1, 2, 3, 4, 5, 6, 7, 8, 9]));
}

#[test]
fn input_follows_pointer_and_last_button_event() {
    let mut m = NCAMouseParams::default();
    let mut brush = NCADrawSettings::default();
    update_input_state(&mut m, &mut brush, false, &vec![true], Some([10, 20]));
    assert!(m.is_drawing);
    assert!(brush.is_drawing);
    assert_eq!(m.mouse_pos, [10, 20]);
    assert_eq!(m.prev_mouse_pos, [0, 0]);
    update_input_state(&mut m, &mut brush, false, &vec![], Some([11, 21]));
    assert!(m.is_drawing);
    assert_eq!(m.mouse_pos, [11, 21]);
    assert_eq!(m.prev_mouse_pos, [10, 20]);
    update_input_state(&mut m, &mut brush, false, &vec![true, false], None);
    assert!(!m.is_drawing);
    assert_eq!(m.mouse_pos, [11, 21]);
    assert_eq!(m.prev_mouse_pos, [10, 20]);
}

#[test]
fn input_over_interface_is_ignored() {
    let mut m = NCAMouseParams::default();
    let mut brush = NCADrawSettings::default();
    update_input_state(&mut m, &mut brush, true, &vec![true], Some([10, 20]));
    assert!(!brush.is_drawing);
    assert_eq!(brush.brush_size, TEN_BITS);
    assert_eq!(m, NCAMouseParams::default());
    update_input_state(&mut m, &mut brush, false, &vec![], None);
    assert!(brush.is_drawing);
}
