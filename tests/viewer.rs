use image_view::camera::{Controller, Key, Orientation, FULL_TURN, SAFE_PITCH};
use image_view::cli::{Channel, Cli, PolygonMode, WriteMask};
use image_view::frac::{Frac, Ratio};
use image_view::mesh::Descriptor;
use image_view::pipeline::{make, ConfigError};
use image_view::scene::{LoadOp, Scene};
use image_view::session::{render_fault, Action, MouseButton, Session, SurfaceFault, Viewport, WindowEvent};

const ALL: WriteMask = WriteMask { red: true, green: true, blue: true, alpha: true };

fn args(wire: bool, channel: Channel, resolution: u32, xres: u32, yres: u32) -> Cli {
    Cli::new("picture.png".to_string(), wire, channel, resolution, xres, yres)
}

#[test]
fn channel_codes() {
    assert_eq!(Channel::All.channel(), 0);
    assert_eq!(Channel::Grey.channel(), 4);
    assert_eq!(Channel::Rgb.channel(), 5);
    assert_eq!((Channel::red(), Channel::green(), Channel::blue()), (1, 2, 3));
    assert!(Channel::is_rgb(5));
    assert!(!Channel::is_rgb(4));
    assert_eq!(Channel::default(), Channel::All);
}

#[test]
fn color_writes_per_channel() {
    assert_eq!(Channel::color_writes(1), WriteMask { red: true, green: false, blue: false, alpha: false });
    assert_eq!(Channel::color_writes(2), WriteMask { red: false, green: true, blue: false, alpha: false });
    assert_eq!(Channel::color_writes(3), WriteMask { red: false, green: false, blue: true, alpha: false });
    assert_eq!(Channel::color_writes(0), ALL);
    assert_eq!(Channel::color_writes(4), ALL);
}

#[test]
fn cli_resolution_floor() {
    let a = args(false, Channel::All, 11, 11, 11);
    assert_eq!((a.xres(), a.yres()), (11, 11));
    let b = args(false, Channel::All, 30, 5, 40);
    assert_eq!((b.xres(), b.yres()), (30, 40));
    let c = args(false, Channel::All, 2, 2, 2);
    assert_eq!((c.xres(), c.yres()), (11, 11));
}

#[test]
fn cli_display_mode() {
    let w = args(true, Channel::Red, 11, 11, 11);
    assert_eq!(w.frag_entry(), "fs_wire");
    assert_eq!(w.polygon_mode(), PolygonMode::Line);
    assert_eq!(w.channel(), 1);
    assert_eq!(w.image_name(), "picture.png");
    let f = args(false, Channel::Red, 11, 11, 11);
    assert_eq!(f.frag_entry(), "fs_fill");
    assert_eq!(f.polygon_mode(), PolygonMode::Fill);
}

#[test]
fn descriptor_default_spans_unit_square() {
    let d = Descriptor::default(11, 6, 4, Frac::whole(0));
    assert_eq!((d.quads_in_row, d.rows_of_quads), (10, 5));
    assert_eq!(d.xoffset, Frac { num: -1, den: 1 });
    assert_eq!(d.xscale, Frac { num: 2, den: 10 });
    assert_eq!(d.yscale, Frac { num: 2, den: 5 });
    assert_eq!(d.nverts(), 300);
}

#[test]
fn descriptor_new_keeps_parameters() {
    let d = Descriptor::new(4, 3, Frac::new(1, 2), Frac::whole(0), Frac::new(1, 4), Frac::new(3, 1), 2, Frac::new(-1, 8));
    assert_eq!((d.quads_in_row, d.rows_of_quads), (3, 2));
    assert_eq!(d.xoffset, Frac::new(1, 2));
    assert_eq!(d.yscale, Frac::new(3, 1));
    assert_eq!(d.zdisplace, Frac::new(-1, 8));
    assert_eq!(d.nverts(), 36);
}

#[test]
fn another_changes_only_channel_and_depth() {
    let d = Descriptor::default(9, 7, 0, Frac::whole(0));
    let e = d.another(3, Frac::new(1, 50));
    assert_eq!(e.channel, 3);
    assert_eq!(e.zdisplace, Frac::new(1, 50));
    assert_eq!(Descriptor { channel: 0, zdisplace: Frac::whole(0), ..e }, d);
}

#[test]
fn grid_points_of_first_quads() {
    let d = Descriptor::default(4, 3, 0, Frac::whole(0));
    let first: Vec<(u32, u32)> = (0..6).map(|v| d.grid_point(v)).collect();
    assert_eq!(first, vec![(0, 0), (1, 0), (0, 1), (0, 1), (1, 0), (1, 1)]);
    assert_eq!(d.grid_point(6), (1, 0));
    assert_eq!(d.grid_point(18 + 5), (1, 2));
    let last = d.nverts() - 1;
    assert_eq!(d.grid_point(last), (3, 2));
}

#[test]
fn every_vertex_on_the_grid() {
    let d = Descriptor::default(5, 4, 0, Frac::whole(0));
    assert_eq!(d.nverts(), 4 * 3 * 6);
    for v in 0..d.nverts() {
        let (x, y) = d.grid_point(v);
        assert!(x <= 4 && y <= 3);
    }
}

fn value(r: Ratio) -> f64 {
    r.num as f64 / r.den as f64
}

#[test]
fn positions_fill_minus_one_to_one() {
    for (xs, ys) in [(2u32, 2u32), (11, 11), (20, 15), (7, 31)] {
        let d = Descriptor::default(xs, ys, 0, Frac::whole(0));
        let mut lo = (f64::MAX, f64::MAX);
        let mut hi = (f64::MIN, f64::MIN);
        for v in 0..d.nverts() {
            let (x, y) = d.position(v);
            lo = (lo.0.min(value(x)), lo.1.min(value(y)));
            hi = (hi.0.max(value(x)), hi.1.max(value(y)));
        }
        assert_eq!(lo, (-1.0, -1.0));
        assert_eq!(hi, (1.0, 1.0));
    }
}

#[test]
fn position_and_uv_exact() {
    let d = Descriptor::default(5, 3, 0, Frac::whole(0));
    // vertex 5 of quad 1 is grid point (2, 1)
    let (x, y) = d.position(11);
    assert_eq!((x.num, y.num), (0, 0));
    let (u, v) = d.uv(11);
    assert_eq!((u.num, u.den, v.num, v.den), (2, 4, 1, 2));
    let e = Descriptor::new(3, 3, Frac::new(1, 2), Frac::whole(-3), Frac::new(1, 4), Frac::new(2, 3), 0, Frac::whole(0));
    let (x, y) = e.position(5);
    assert_eq!(value(x), 0.75);
    assert!((value(y) - (-3.0 + 2.0 / 3.0)).abs() < 1e-12);
}

#[test]
fn lift_adds_depth_offset() {
    let d = Descriptor::default(3, 3, 1, Frac::new(1, 4));
    let z = d.lift(Frac::new(1, 2));
    assert_eq!(value(z), 0.75);
}

#[test]
fn pipeline_settings() {
    let p = make(&args(true, Channel::Rgb, 11, 11, 11), 2);
    assert_eq!(p.vertex_entry, "vs_main");
    assert_eq!(p.fragment_entry, "fs_wire");
    assert_eq!(p.polygon_mode, PolygonMode::Line);
    assert_eq!(p.write_mask, Channel::color_writes(2));
    assert!(p.depth_write && p.depth_less);
    assert_eq!(p.check(false), Err(ConfigError::LineModeUnsupported));
    assert_eq!(p.check(true), Ok(()));
    let q = make(&args(false, Channel::All, 11, 11, 11), 0);
    assert_eq!(q.check(false), Ok(()));
}

#[test]
fn grey_single_pass() {
    let scene = Scene::new(&args(false, Channel::Grey, 11, 11, 11), Frac::new(1, 100), false).unwrap();
    assert_eq!(scene.layers.len(), 1);
    assert_eq!(scene.layers[0].desc.channel, 4);
    assert_eq!(scene.layers[0].pipeline.write_mask, ALL);
    assert_eq!(scene.layers[0].pipeline.fragment_entry, "fs_fill");
    let plan = scene.frame_plan();
    assert_eq!(plan.len(), 1);
    assert_eq!(plan[0].vertices, 600);
    assert_eq!(plan[0].depth, LoadOp::Clear);
    assert_eq!(plan[0].color, LoadOp::Load);
}

#[test]
fn rgb_three_passes_in_order() {
    let gap = Frac::new(1, 100);
    let scene = Scene::new(&args(false, Channel::Rgb, 11, 20, 15), gap, true).unwrap();
    let plan = scene.frame_plan();
    assert_eq!(plan.len(), 3);
    let channels: Vec<i32> = plan.iter().map(|p| p.channel).collect();
    assert_eq!(channels, vec![1, 2, 3]);
    let depth: Vec<LoadOp> = plan.iter().map(|p| p.depth).collect();
    assert_eq!(depth, vec![LoadOp::Clear, LoadOp::Load, LoadOp::Load]);
    let color: Vec<LoadOp> = plan.iter().map(|p| p.color).collect();
    assert_eq!(color, vec![LoadOp::Clear, LoadOp::Load, LoadOp::Load]);
    for (i, p) in plan.iter().enumerate() {
        assert_eq!(p.layer, i);
        assert_eq!(p.vertices, 19 * 14 * 6);
        assert_eq!(scene.layers[i].pipeline.write_mask, Channel::color_writes(p.channel));
    }
}

#[test]
fn rgb_layers_ordered_in_depth() {
    for gap in [Frac::new(1, 100), Frac::new(-3, 7)] {
        let scene = Scene::new(&args(false, Channel::Rgb, 11, 11, 11), gap, true).unwrap();
        let d: Vec<Descriptor> = scene.layers.iter().map(|l| l.desc).collect();
        assert_eq!(d[1], d[0].another(2, d[1].zdisplace));
        assert_eq!(d[2], d[0].another(3, d[2].zdisplace));
        for e in [Frac::whole(0), Frac::new(5, 9), Frac::new(-2, 3)] {
            let z: Vec<f64> = d.iter().map(|g| value(g.lift(e))).collect();
            assert!((z[1] - z[0]) * (gap.num as f64) > 0.0);
            assert!((z[2] - z[1]) * (gap.num as f64) > 0.0);
        }
        for v in [0u32, 17, 599] {
            assert_eq!(d[0].position(v), d[1].position(v));
            assert_eq!(d[0].position(v), d[2].position(v));
        }
    }
}

#[test]
fn scene_errors() {
    let wire = args(true, Channel::All, 11, 11, 11);
    assert!(matches!(Scene::new(&wire, Frac::new(1, 100), false), Err(ConfigError::LineModeUnsupported)));
    assert!(Scene::new(&wire, Frac::new(1, 100), true).is_ok());
    let huge = args(false, Channel::All, 11, 100_000, 100_000);
    assert!(matches!(Scene::new(&huge, Frac::new(1, 100), true), Err(ConfigError::GridTooLarge)));
    let largest = args(false, Channel::All, 11, 11, 71_582_789);
    assert!(Scene::new(&largest, Frac::new(1, 100), true).is_ok());
    let over = args(false, Channel::All, 11, 11, 71_582_790);
    assert!(matches!(Scene::new(&over, Frac::new(1, 100), true), Err(ConfigError::GridTooLarge)));
}

#[test]
fn keyboard_sets_and_clears_flags() {
    let mut c = Controller::new(400_000);
    assert!(c.process_keyboard(Key::W, true));
    assert!(c.process_keyboard(Key::Left, true));
    assert!(c.process_keyboard(Key::Space, true));
    assert_eq!(c.intent(), (1, -1, 1));
    assert!(c.process_keyboard(Key::W, false));
    assert!(c.process_keyboard(Key::S, true));
    assert!(c.process_keyboard(Key::LShift, true));
    assert_eq!(c.intent(), (-1, -1, 0));
    let before = c;
    assert!(!c.process_keyboard(Key::Escape, true));
    assert!(!c.process_keyboard(Key::Other, true));
    assert_eq!(c, before);
}

#[test]
fn drag_turns_once() {
    let mut c = Controller::new(400_000);
    let mut o = Orientation::new(0, 0);
    c.process_mouse(10, -5);
    c.process_mouse(5, 0);
    assert_eq!((c.drag_x, c.drag_y), (15, -5));
    // 15 px * 0.4 rad/px/s * 0.5 s = 3 rad
    c.update(&mut o, 500_000);
    assert_eq!(o.yaw, 3_000_000);
    assert_eq!(o.pitch, 1_000_000);
    assert_eq!((c.drag_x, c.drag_y), (0, 0));
    c.update(&mut o, 500_000);
    assert_eq!((o.yaw, o.pitch), (3_000_000, 1_000_000));
}

#[test]
fn yaw_wraps_and_pitch_clamps() {
    let mut c = Controller::new(400_000);
    let mut o = Orientation::new(-1_570_796, 0);
    assert_eq!(o.yaw, FULL_TURN - 1_570_796);
    c.process_mouse(-1, 0);
    c.update(&mut o, 15_000_000);
    assert_eq!(o.yaw, FULL_TURN - 1_570_796 - 6_000_000 + FULL_TURN);
    for _ in 0..5 {
        c.process_mouse(0, -1_000_000);
        c.update(&mut o, 1_000_000);
        assert_eq!(o.pitch, SAFE_PITCH);
    }
    c.process_mouse(i32::MAX, i32::MAX);
    c.process_mouse(i32::MAX, i32::MAX);
    assert_eq!((c.drag_x, c.drag_y), (i32::MAX, i32::MAX));
    c.update(&mut o, u64::MAX);
    assert_eq!(o.pitch, -SAFE_PITCH);
    assert!(o.yaw >= 0 && o.yaw < FULL_TURN);
    assert_eq!(Orientation::new(7_000_000, -9_000_000), Orientation { yaw: 7_000_000 - FULL_TURN, pitch: -SAFE_PITCH });
}

#[test]
fn input_routing() {
    let mut s = Session::new(800, 600);
    assert!(s.input(&WindowEvent::Keyboard { key: Key::D, pressed: true }));
    assert!(s.controller.right);
    assert!(s.input(&WindowEvent::MouseWheel));
    assert!(s.input(&WindowEvent::MouseInput { button: MouseButton::Left, pressed: true }));
    assert!(s.mouse_pressed);
    assert!(!s.input(&WindowEvent::MouseInput { button: MouseButton::Right, pressed: false }));
    assert!(s.mouse_pressed);
    assert!(!s.input(&WindowEvent::Keyboard { key: Key::Escape, pressed: true }));
    assert!(!s.input(&WindowEvent::CloseRequested));
}

#[test]
fn window_events() {
    let mut s = Session::new(800, 600);
    assert_eq!(s.handle_window_event(&WindowEvent::CloseRequested), Action::Exit);
    assert_eq!(s.handle_window_event(&WindowEvent::Keyboard { key: Key::Escape, pressed: true }), Action::Exit);
    assert_eq!(s.handle_window_event(&WindowEvent::Keyboard { key: Key::Escape, pressed: false }), Action::Nothing);
    assert_eq!(s.handle_window_event(&WindowEvent::Keyboard { key: Key::W, pressed: true }), Action::Nothing);
    assert_eq!(s.handle_window_event(&WindowEvent::Resized { width: 0, height: 300 }), Action::Nothing);
    assert_eq!(s.viewport, Viewport { width: 800, height: 600 });
    assert_eq!(s.handle_window_event(&WindowEvent::ScaleFactorChanged { width: 1600, height: 1200 }), Action::Reconfigure);
    assert_eq!(s.viewport, Viewport { width: 1600, height: 1200 });
    assert_eq!(s.handle_window_event(&WindowEvent::Other), Action::Nothing);
}

#[test]
fn resize_updates_aspect() {
    let mut s = Session::new(800, 600);
    let a = s.viewport.aspect();
    assert_eq!((a.num, a.den), (800, 600));
    assert_eq!(s.handle_window_event(&WindowEvent::Resized { width: 400, height: 300 }), Action::Reconfigure);
    assert_eq!(s.viewport, Viewport { width: 400, height: 300 });
    let a = s.viewport.aspect();
    assert_eq!((a.num, a.den), (400, 300));
    assert_eq!(value(a), 400.0 / 300.0);
}

#[test]
fn drag_only_while_pressed() {
    let mut s = Session::new(800, 600);
    s.mouse_motion(30, 30);
    assert_eq!((s.controller.drag_x, s.controller.drag_y), (0, 0));
    s.input(&WindowEvent::MouseInput { button: MouseButton::Left, pressed: true });
    s.mouse_motion(30, -20);
    assert_eq!((s.controller.drag_x, s.controller.drag_y), (30, -20));
    let yaw = s.orientation.yaw;
    s.update(100_000);
    assert_eq!(s.orientation.yaw, yaw + 1_200_000);
    assert_eq!(s.orientation.pitch, 800_000);
    assert_eq!((s.controller.drag_x, s.controller.drag_y), (0, 0));
}

#[test]
fn surface_faults() {
    assert_eq!(render_fault(SurfaceFault::Lost), Action::Reconfigure);
    assert_eq!(render_fault(SurfaceFault::Outdated), Action::Reconfigure);
    assert_eq!(render_fault(SurfaceFault::OutOfMemory), Action::Exit);
    assert_eq!(render_fault(SurfaceFault::Timeout), Action::Warn);
}
