use frame_translation::{walk_windows, Geometry, Probe, Step, WalkError, Walker, Window};

fn geometry(fw: u32, fh: u32, max_frames: u32, iw: u32, ih: u32) -> Geometry {
    Geometry {
        frame_width: fw,
        frame_height: fh,
        max_frames,
        image_width: iw,
        image_height: ih,
    }
}

/// Drives a walker the way the command line tool does, with single precision
/// accumulators rounded afresh at every step.
fn run(g: Geometry, x: u32, y: u32, dx: f32, dy: f32) -> Result<Walker, WalkError> {
    let mut walker = Walker::start(g, x, y)?;
    let mut cur_x = x as f32;
    let mut cur_y = y as f32;
    let mut probe = Probe { below_origin: false, x, y };
    while walker.step(probe) == Step::Captured {
        cur_x += dx;
        cur_y += dy;
        probe = Probe {
            below_origin: cur_x < 0.0 || cur_y < 0.0,
            x: cur_x.round() as u32,
            y: cur_y.round() as u32,
        };
    }
    Ok(walker)
}

fn origins(w: &Walker) -> Vec<(u32, u32)> {
    w.windows().iter().map(|f| (f.x, f.y)).collect()
}

#[test]
fn five_frames_along_x() {
    let mut w = run(geometry(20, 20, 5, 100, 100), 0, 0, 10.0, 0.0).unwrap();
    assert_eq!(origins(&w), vec![(0, 0), (10, 0), (20, 0), (30, 0), (40, 0)]);
    for f in w.windows() {
        assert_eq!((f.width, f.height), (20, 20));
    }
    assert_eq!(w.canvas_size(), Some((20, 100)));
    assert_eq!(w.step(Probe { below_origin: false, x: 0, y: 0 }), Step::LimitReached);
}

#[test]
fn first_frame_outside_image_is_refused() {
    assert!(matches!(
        Walker::start(geometry(20, 20, 5, 50, 50), 40, 40),
        Err(WalkError::FirstFrameOutside)
    ));
    assert!(matches!(
        walk_windows(geometry(20, 20, 5, 50, 50), 40, 40, &vec![]),
        Err(WalkError::FirstFrameOutside)
    ));
}

#[test]
fn first_frame_outside_on_one_axis_is_refused() {
    assert!(Walker::start(geometry(20, 20, 5, 50, 50), 31, 0).is_err());
    assert!(Walker::start(geometry(20, 20, 5, 50, 50), 0, 31).is_err());
    assert!(Walker::start(geometry(20, 20, 5, 50, 50), 30, 30).is_ok());
}

#[test]
fn first_frame_check_does_not_overflow() {
    assert!(Walker::start(geometry(u32::MAX, 1, 5, u32::MAX, 1), 1, 0).is_err());
    assert!(Walker::start(geometry(u32::MAX, 1, 5, u32::MAX, 1), 0, 0).is_ok());
}

#[test]
fn negative_step_stops_below_origin() {
    let mut w = run(geometry(10, 10, 100, 50, 50), 3, 0, -5.0, 0.0).unwrap();
    assert_eq!(origins(&w), vec![(3, 0)]);
    assert_eq!(w.step(Probe { below_origin: false, x: 0, y: 0 }), Step::BelowOrigin);
}

#[test]
fn walk_stops_at_right_edge() {
    let mut w = run(geometry(20, 20, 100, 100, 100), 0, 0, 30.0, 0.0).unwrap();
    assert_eq!(origins(&w), vec![(0, 0), (30, 0), (60, 0)]);
    assert_eq!(w.step(Probe { below_origin: false, x: 0, y: 0 }), Step::PastEdge);
    assert_eq!(w.canvas_size(), Some((20, 60)));
}

#[test]
fn walk_stops_at_bottom_edge() {
    let w = run(geometry(10, 10, 100, 10, 34), 0, 0, 0.0, 12.5).unwrap();
    // 0, 12.5 -> 13 (half away from zero), 25 -> past the edge at 34
    assert_eq!(origins(&w), vec![(0, 0), (0, 13)]);
}

#[test]
fn rounding_follows_the_running_total() {
    let w = run(geometry(1, 1, 5, 100, 100), 0, 0, 0.4, 0.0).unwrap();
    // 0, 0.4, 0.8, 1.2, 1.6 rounded from the total, not from rounded steps
    assert_eq!(origins(&w), vec![(0, 0), (0, 0), (1, 0), (1, 0), (2, 0)]);
}

#[test]
fn zero_step_repeats_the_first_frame() {
    let w = run(geometry(20, 20, 4, 100, 100), 5, 7, 0.0, 0.0).unwrap();
    assert_eq!(w.windows().len(), 4);
    for f in w.windows() {
        assert_eq!(*f, Window { x: 5, y: 7, width: 20, height: 20 });
    }
    assert_eq!(w.canvas_size(), Some((20, 80)));
}

#[test]
fn zero_step_with_one_frame_allowed() {
    let w = run(geometry(20, 20, 1, 100, 100), 5, 7, 0.0, 0.0).unwrap();
    assert_eq!(w.windows(), &vec![Window { x: 5, y: 7, width: 20, height: 20 }]);
    assert_eq!(w.canvas_size(), Some((20, 20)));
}

#[test]
fn frame_count_never_exceeds_limit() {
    for max in 1..6u32 {
        let w = run(geometry(2, 2, max, 100, 100), 0, 0, 1.0, 1.0).unwrap();
        assert_eq!(w.windows().len(), max as usize);
    }
}

#[test]
fn batch_walk_matches_steps() {
    let g = geometry(20, 20, 10, 100, 100);
    let probes = vec![
        Probe { below_origin: false, x: 0, y: 0 },
        Probe { below_origin: false, x: 40, y: 10 },
        Probe { below_origin: false, x: 81, y: 0 },
        Probe { below_origin: false, x: 0, y: 0 },
    ];
    let ws = walk_windows(g, 0, 0, &probes).unwrap();
    assert_eq!(
        ws,
        vec![
            Window { x: 0, y: 0, width: 20, height: 20 },
            Window { x: 40, y: 10, width: 20, height: 20 },
        ]
    );
    assert_eq!(walk_windows(g, 0, 0, &vec![]).unwrap(), vec![]);
}

#[test]
fn empty_walk_has_zero_height_canvas() {
    let w = Walker::start(geometry(20, 20, 5, 100, 100), 0, 0).unwrap();
    assert!(w.windows().is_empty());
    assert_eq!(w.canvas_size(), Some((20, 0)));
}

#[test]
fn slots_stack_frames_top_to_bottom() {
    let w = run(geometry(20, 15, 4, 100, 100), 0, 0, 5.0, 5.0).unwrap();
    let offsets: Vec<u32> = (0..w.windows().len()).map(|i| w.slot_offset(i)).collect();
    assert_eq!(offsets, vec![0, 15, 30, 45]);
    assert_eq!(w.canvas_size(), Some((20, 60)));
}

#[test]
fn canvas_too_tall_is_reported() {
    let g = geometry(1, u32::MAX, 2, 1, u32::MAX);
    let mut w = Walker::start(g, 0, 0).unwrap();
    assert_eq!(w.step(Probe { below_origin: false, x: 0, y: 0 }), Step::Captured);
    assert_eq!(w.canvas_size(), Some((1, u32::MAX)));
    assert_eq!(w.step(Probe { below_origin: false, x: 0, y: 0 }), Step::Captured);
    assert_eq!(w.canvas_size(), None);
}
