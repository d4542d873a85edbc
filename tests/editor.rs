use bezier_patches::bezier::{
    BezierCurveParameters, BezierModelParameters, BezierPatchParameters, ControlPointId,
};
use bezier_patches::picking::{pick_control_point, DragAction, DragController};
use bezier_patches::render_params::RenderParameters;
use bezier_patches::scenes::{SceneAction, SceneManager};
use bezier_patches::shared::make_rc_cell;
use bezier_patches::viewport::Viewport;

type P = [f32; 3];

fn flat_patch(z: f32) -> BezierPatchParameters<P> {
    let row = |y: f32| {
        BezierCurveParameters::from_points([
            [0.0, y, z],
            [0.25, y, z],
            [0.75, y, z],
            [1.0, y, z],
        ])
    };
    BezierPatchParameters {
        curves: [row(0.0), row(0.25), row(0.75), row(1.0)],
        color: [0.7, 0.7, 0.7],
    }
}

fn model() -> BezierModelParameters<P> {
    let mut m = BezierModelParameters::empty();
    m.symbol = Some('A');
    m.patches.push(flat_patch(0.0));
    m.patches.push(flat_patch(1.0));
    m
}

fn id(patch: usize, curve: usize, point: usize) -> ControlPointId {
    ControlPointId { patch, curve, point }
}

fn all_points(m: &BezierModelParameters<P>) -> Vec<P> {
    m.patches
        .iter()
        .flat_map(|p| p.curves.iter().flat_map(|c| c.control_points.iter().copied()))
        .collect()
}

#[test]
fn pick_takes_first_hit_in_enumeration_order() {
    let mut hits = vec![false; 32];
    hits[21] = true;
    hits[7] = true;
    assert_eq!(pick_control_point(&[true, true], &hits), Some(id(0, 1, 3)));
}

#[test]
fn pick_skips_hidden_patches() {
    let mut hits = vec![false; 32];
    hits[7] = true;
    hits[21] = true;
    assert_eq!(pick_control_point(&[false, true], &hits), Some(id(1, 1, 1)));
    assert_eq!(pick_control_point(&[false, false], &hits), None);
}

#[test]
fn pick_on_empty_model_misses() {
    assert_eq!(pick_control_point(&[], &[]), None);
}

#[test]
fn press_drag_release_moves_the_picked_point() {
    let mut m = model();
    let before = all_points(&m);
    let mut ctrl: DragController<f32> = DragController::new();
    let mut hits = vec![false; 32];
    hits[16 + 4 * 2 + 1] = true;

    let picked = ctrl.press(120, 80, 0.42, &[true, true], &hits);
    assert_eq!(picked, Some(id(1, 2, 1)));
    assert!(ctrl.is_dragging());
    let s = *ctrl.session().unwrap();
    assert_eq!((s.origin_x, s.origin_y, s.depth, s.target), (120, 80, 0.42, id(1, 2, 1)));

    assert!(ctrl.target_valid_for(&m));
    let a = ctrl.drag_to(&mut m, 130, 90, [0.3, 0.8, 1.1]);
    assert_eq!(a, DragAction::RefreshControls(1));
    let a = ctrl.drag_to(&mut m, 140, 95, [0.35, 0.9, 1.2]);
    assert_eq!(a, DragAction::RefreshControls(1));
    let s = *ctrl.session().unwrap();
    assert_eq!((s.origin_x, s.origin_y, s.depth), (140, 95, 0.42));

    assert_eq!(ctrl.release(), DragAction::RebuildPatch(1));
    assert!(!ctrl.is_dragging());
    assert_eq!(m.patches[1].curves[2].control_points[1], [0.35, 0.9, 1.2]);

    let after = all_points(&m);
    for k in 0..32 {
        if k != 16 + 4 * 2 + 1 {
            assert_eq!(after[k], before[k]);
        }
    }
    assert_eq!(m.symbol, Some('A'));
    assert_eq!(ctrl.release(), DragAction::Nothing);
}

#[test]
fn pick_miss_changes_nothing() {
    let mut m = model();
    let before = all_points(&m);
    let mut ctrl: DragController<f32> = DragController::new();
    let mut hits = vec![false; 32];
    hits[3] = true;
    assert_eq!(ctrl.press(5, 5, 0.9, &[false, true], &hits), None);
    assert!(!ctrl.is_dragging());
    assert_eq!(ctrl.drag_to(&mut m, 10, 10, [9.0, 9.0, 9.0]), DragAction::Nothing);
    assert_eq!(all_points(&m), before);
    assert_eq!(ctrl.release(), DragAction::Nothing);
}

#[test]
fn leaving_the_viewport_ends_the_drag_with_one_rebuild() {
    let mut m = model();
    let mut ctrl: DragController<f32> = DragController::new();
    let mut hits = vec![false; 32];
    hits[0] = true;
    assert_eq!(ctrl.press(1, 2, 0.5, &[true, true], &hits), Some(id(0, 0, 0)));
    assert_eq!(ctrl.drag_to(&mut m, 3, 4, [0.1, 0.2, 0.3]), DragAction::RefreshControls(0));
    assert_eq!(ctrl.release(), DragAction::RebuildPatch(0));
    assert_eq!(m.patches[0].curves[0].control_points[0], [0.1, 0.2, 0.3]);
    assert!(ctrl.session().is_none());
}

#[test]
fn set_control_point_changes_one_point() {
    let mut m = model();
    m.set_control_point(id(0, 3, 3), [2.0, 2.0, 2.0]);
    assert_eq!(m.patches[0].curves[3].control_points[3], [2.0, 2.0, 2.0]);
    assert_eq!(m.patches[0].curves[3].control_points[2], [0.75, 1.0, 0.0]);
    assert_eq!(m.patches[1].curves[3].control_points[3], [1.0, 1.0, 1.0]);
}

#[test]
fn viewport_for_window_and_update() {
    let mut v = Viewport::for_window(800, 600);
    assert_eq!(v.rect(), (0, 0, 800, 600));
    v.update(1024, 768);
    assert_eq!(v.rect(), (0, 0, 1024, 768));
}

#[test]
fn scene_stack_follows_actions() {
    let mut m: SceneManager<&str> = SceneManager::new();
    m.process_action(SceneAction::PushScene("lsystem"));
    m.process_action(SceneAction::PushScene("bezier"));
    assert_eq!(*m.current_scene(), "bezier");
    m.process_action(SceneAction::Nothing);
    assert_eq!(m.len(), 2);
    m.process_action(SceneAction::PopScene);
    assert_eq!(*m.current_scene(), "lsystem");
    m.pop_scene();
    assert_eq!(m.len(), 0);
}

#[test]
fn rc_cell_shares_one_value() {
    let a = make_rc_cell(5);
    let b = a.clone();
    *b.borrow_mut() += 1;
    assert_eq!(*a.borrow(), 6);
}

#[test]
fn matrix_stack_restores_saved_model() {
    let mut rp = RenderParameters::new(2u32, 3u32, 1u32);
    rp.push_matrix();
    rp.model = 5;
    rp.push_matrix();
    rp.model = 7;
    rp.pop_matrix();
    assert_eq!(rp.model, 5);
    rp.pop_matrix();
    assert_eq!(rp.model, 1);
    assert!(rp.matrix_stack.is_empty());
    assert_eq!((rp.view, rp.projection), (2, 3));
}
