use winkit::game::{
    centered_square, grid_lines, layout_frame, GridBrush, GridLine, Pump, PumpStep, GRID_STEP,
    INNER_HALF_SIDE, OUTER_HALF_SIDE,
};
use winkit::geom::{Rect2D, Size2D};

#[test]
fn grid_lines_are_eight_apart_in_three_colors() {
    assert_eq!(GRID_STEP, 8);
    assert_eq!(grid_lines(0), vec![]);
    assert_eq!(grid_lines(-5), vec![]);
    assert_eq!(
        grid_lines(1),
        vec![GridLine { offset: 0, brush: GridBrush::Red }]
    );
    assert_eq!(grid_lines(8).len(), 1);
    assert_eq!(grid_lines(9).len(), 2);
    assert_eq!(
        grid_lines(30),
        vec![
            GridLine { offset: 0, brush: GridBrush::Red },
            GridLine { offset: 8, brush: GridBrush::Green },
            GridLine { offset: 16, brush: GridBrush::Blue },
            GridLine { offset: 24, brush: GridBrush::Red },
        ]
    );
    let lines = grid_lines(720);
    assert_eq!(lines.len(), 90);
    let expected: Vec<i32> = (0..720).step_by(8).collect();
    let offsets: Vec<i32> = lines.iter().map(|line| line.offset).collect();
    assert_eq!(offsets, expected);
    for (i, line) in lines.iter().enumerate() {
        let brush = match i % 3 {
            0 => GridBrush::Red,
            1 => GridBrush::Green,
            2 => GridBrush::Blue,
            _ => unreachable!(),
        };
        assert_eq!(line.brush, brush);
    }
}

#[test]
fn squares_sit_around_the_middle() {
    let size = Size2D { width: 720, height: 640 };
    assert_eq!(
        centered_square(size, 56),
        Rect2D { left: 304, right: 416, top: 264, bottom: 376 }
    );
    assert_eq!(
        centered_square(size, 104),
        Rect2D { left: 256, right: 464, top: 216, bottom: 424 }
    );
    // Odd extents round the middle down; a small window gives negative edges.
    assert_eq!(
        centered_square(Size2D { width: 101, height: 7 }, 56),
        Rect2D { left: -6, right: 106, top: -53, bottom: 59 }
    );
    // Negative extents are halved towards zero.
    assert_eq!(
        centered_square(Size2D { width: -7, height: -8 }, 1),
        Rect2D { left: -4, right: -2, top: -5, bottom: -3 }
    );
    // The largest square that fits.
    assert_eq!(
        centered_square(Size2D { width: 0, height: -1 }, i32::MAX),
        Rect2D { left: -i32::MAX, right: i32::MAX, top: -i32::MAX, bottom: i32::MAX }
    );
    assert_eq!(
        centered_square(Size2D { width: i32::MAX, height: i32::MIN }, 104),
        Rect2D {
            left: 0x3FFF_FFFF - 104,
            right: 0x3FFF_FFFF + 104,
            top: -0x4000_0000 - 104,
            bottom: -0x4000_0000 + 104
        }
    );
}

#[test]
fn frame_layout() {
    let size = Size2D { width: 720, height: 640 };
    let frame = layout_frame(size);
    assert_eq!(frame.columns, grid_lines(720));
    assert_eq!(frame.rows, grid_lines(640));
    assert_eq!(frame.rows.len(), 80);
    assert_eq!(frame.inner, centered_square(size, INNER_HALF_SIDE));
    assert_eq!(frame.outer, centered_square(size, OUTER_HALF_SIDE));
    assert_eq!((INNER_HALF_SIDE, OUTER_HALF_SIDE), (56, 104));

    // Any size can be laid out.
    let frame = layout_frame(Size2D { width: -3, height: i32::MIN });
    assert!(frame.columns.is_empty() && frame.rows.is_empty());
    assert_eq!(frame.inner, Rect2D { left: -57, right: 55, top: -0x4000_0000 - 56, bottom: -0x4000_0000 + 56 });
}

#[test]
fn pump_draws_when_due_and_stops_at_shutdown() {
    let mut pump = Pump::new();
    assert_eq!(pump, Pump { is_render_dirty: true, is_shutting_down: false });

    // The first message is followed by the first frame.
    assert_eq!(
        pump.after_dispatch(false, false),
        PumpStep { post_quit: false, update: true, draw: true }
    );
    // After that only a redraw request brings a frame.
    assert_eq!(
        pump.after_dispatch(false, false),
        PumpStep { post_quit: false, update: true, draw: false }
    );
    assert_eq!(
        pump.after_dispatch(false, true),
        PumpStep { post_quit: false, update: true, draw: true }
    );
    assert_eq!(
        pump.after_dispatch(false, false),
        PumpStep { post_quit: false, update: true, draw: false }
    );

    // A close request posts the quit message once and ends all drawing.
    assert_eq!(
        pump.after_dispatch(true, true),
        PumpStep { post_quit: true, update: false, draw: false }
    );
    assert!(pump.is_shutting_down);
    assert_eq!(
        pump.after_dispatch(false, true),
        PumpStep { post_quit: false, update: false, draw: false }
    );
    assert_eq!(
        pump.after_dispatch(false, false),
        PumpStep { post_quit: false, update: false, draw: false }
    );
}
