use nca_playground::grid::Grid;
use nca_playground::node::{
    nca_binding, nca_binding_pair, Dispatch, ImageSlot, Kernel, NCANode, NCAState, ReinitPipeline,
};

fn grid16() -> Grid {
    Grid::new(16, 16).unwrap()
}

fn ready_node() -> (NCANode, ReinitPipeline) {
    let mut node = NCANode::new(&grid16());
    let mut signal = ReinitPipeline::new();
    node.update(&mut signal, true, true);
    (node, signal)
}

#[test]
fn node_starts_loading_and_dispatches_nothing() {
    let node = NCANode::new(&grid16());
    assert_eq!(node.state(), NCAState::Loading);
    assert_eq!(node.run(false), None);
    assert_eq!(node.displayed(), ImageSlot::A);
}

#[test]
fn loading_waits_for_both_kernels() {
    let mut node = NCANode::new(&grid16());
    let mut signal = ReinitPipeline::new();
    assert!(!node.update(&mut signal, true, false));
    assert_eq!(node.state(), NCAState::Loading);
    node.update(&mut signal, false, true);
    assert_eq!(node.state(), NCAState::Loading);
    node.update(&mut signal, false, false);
    assert_eq!(node.run(false), None);
    node.update(&mut signal, true, true);
    assert_eq!(node.state(), NCAState::Init);
}

#[test]
fn init_runs_once_before_alternating_steps() {
    let (mut node, mut signal) = ready_node();
    let init = Dispatch { kernel: Kernel::Init, bind_group: 0, groups_x: 2, groups_y: 2 };
    assert_eq!(node.run(false), Some(init));
    let mut selectors = Vec::new();
    for _ in 0..6 {
        node.update(&mut signal, true, true);
        let d = node.run(false).unwrap();
        assert_eq!(d.kernel, Kernel::Update);
        assert_eq!((d.groups_x, d.groups_y), (2, 2));
        selectors.push(d.bind_group);
    }
    assert_eq!(selectors, vec![1, 0, 1, 0, 1, 0]);
}

#[test]
fn init_advances_even_if_readiness_is_not_reported() {
    let (mut node, mut signal) = ready_node();
    node.update(&mut signal, false, false);
    assert_eq!(node.state(), NCAState::Update(1));
}

#[test]
fn reinit_restarts_from_loading_and_clears_flag() {
    let (mut node, mut signal) = ready_node();
    node.update(&mut signal, true, true);
    node.update(&mut signal, true, true);
    assert_eq!(node.state(), NCAState::Update(0));
    signal.request();
    assert!(signal.reinit);
    assert!(node.update(&mut signal, true, true));
    assert!(!signal.reinit);
    assert_eq!(node.state(), NCAState::Loading);
    assert_eq!(node.run(false), None);
    assert!(!node.update(&mut signal, false, false));
    assert_eq!(node.state(), NCAState::Loading);
}

#[test]
fn reinit_from_each_state() {
    for ticks in 0..4 {
        let mut node = NCANode::new(&grid16());
        let mut signal = ReinitPipeline::new();
        for _ in 0..ticks {
            node.update(&mut signal, true, true);
        }
        signal.request();
        signal.request();
        assert!(node.update(&mut signal, true, true));
        assert_eq!(node.state(), NCAState::Loading);
        assert!(!signal.reinit);
    }
}

#[test]
fn raised_flag_pauses_run() {
    let (node, _) = ready_node();
    assert_eq!(node.run(true), None);
}

#[test]
fn bindings_go_both_ways() {
    let pair = nca_binding_pair();
    assert_eq!((pair[0].read, pair[0].write), (ImageSlot::A, ImageSlot::B));
    assert_eq!((pair[1].read, pair[1].write), (ImageSlot::B, ImageSlot::A));
    assert_eq!(nca_binding(1), pair[1]);
}

#[test]
fn displayed_image_is_the_one_the_step_reads() {
    let (mut node, mut signal) = ready_node();
    assert_eq!(node.displayed(), ImageSlot::A);
    let mut shown = Vec::new();
    for _ in 0..4 {
        node.update(&mut signal, true, true);
        let d = node.run(false).unwrap();
        assert_eq!(node.displayed(), nca_binding(d.bind_group).read);
        assert_ne!(node.displayed(), nca_binding(d.bind_group).write);
        shown.push(node.displayed());
    }
    assert_eq!(shown, vec![ImageSlot::B, ImageSlot::A, ImageSlot::B, ImageSlot::A]);
}
