use power_dashboard::color::Rgb;
use power_dashboard::dashboard::{
    channel_is_idle, ChannelReading, Dashboard, Error, FramePlan, FrameRun, Op,
};
use power_dashboard::fixed::Fixed;
use power_dashboard::layout::Blit;

fn fixed(centi: u32) -> Fixed {
    Fixed { neg: false, centi }
}

fn reading(voltage: u32, current: u32, power: u32) -> ChannelReading {
    ChannelReading {
        voltage: fixed(voltage),
        current: fixed(current),
        power: fixed(power),
    }
}

fn gray() -> Rgb {
    Rgb { r: 15, g: 30, b: 15 }
}

fn yellow() -> Rgb {
    Rgb { r: 31, g: 63, b: 0 }
}

/// Drives a whole frame against a device that succeeds on everything,
/// returning the operations in order.
fn run_all(plan: FramePlan) -> (Vec<Op>, Result<(), Error>) {
    let mut run = FrameRun::new(plan);
    let mut ops = Vec::new();
    let mut ok = true;
    while let Some(op) = run.next_op(ok) {
        ok = true;
        ops.push(op);
    }
    (ops, run.outcome())
}

fn foreground_colors(blit: &Blit) -> Vec<Rgb> {
    let bg = Rgb { r: 0, g: 0, b: 0 };
    let mut seen = Vec::new();
    for p in &blit.pixels {
        if *p != bg && !seen.contains(p) {
            seen.push(*p);
        }
    }
    seen
}

#[test]
fn low_voltage_grays_the_whole_channel() {
    // 1.5 V is below the 2 V threshold, so the channel is idle even though
    // current and power are healthy.
    let r = reading(150, 100, 100);
    assert!(channel_is_idle(&r));
    let healthy = reading(500, 50, 250);
    assert!(!channel_is_idle(&healthy));
}

#[test]
fn idle_thresholds_are_strict() {
    // Exactly 2 V, 0.05 A and 0.05 W is active; a hundredth less in any
    // metric is idle.
    assert!(!channel_is_idle(&reading(200, 5, 5)));
    assert!(channel_is_idle(&reading(199, 5, 5)));
    assert!(channel_is_idle(&reading(200, 4, 5)));
    assert!(channel_is_idle(&reading(200, 5, 4)));
}

#[test]
fn negative_voltage_counts_by_magnitude() {
    // A -3.00 V reading has voltage magnitude above 2 V: with healthy
    // current and power the channel stays active and keeps its accents.
    let r = ChannelReading {
        voltage: Fixed { neg: true, centi: 300 },
        current: fixed(100),
        power: fixed(100),
    };
    assert!(!channel_is_idle(&r));
    let mut d = Dashboard::new();
    d.update_data([r, reading(0, 0, 0), reading(0, 0, 0)]);
    let plan = d.draw();
    // "-3.00V" is six glyphs; the first is the minus bar in the voltage accent.
    let colors = foreground_colors(&plan.blits[0]);
    assert_eq!(colors, vec![yellow()]);
    assert_eq!(plan.blits.len(), 16 + 15 + 15);
}

#[test]
fn negative_current_counts_by_magnitude() {
    // A current of -1.00 A has magnitude well above 0.05 A.
    let r = ChannelReading {
        voltage: fixed(500),
        current: Fixed { neg: true, centi: 100 },
        power: fixed(250),
    };
    assert!(!channel_is_idle(&r));
}

#[test]
fn idle_channel_renders_gray() {
    let mut d = Dashboard::new();
    d.update_data([reading(150, 100, 100), reading(500, 50, 250), reading(500, 50, 250)]);
    let plan = d.draw();
    // Channel 0 is idle: its first glyph ("1" of "1.50V") is all gray on black.
    let colors = foreground_colors(&plan.blits[0]);
    assert_eq!(colors, vec![gray()]);
}

#[test]
fn active_channel_renders_accents() {
    let mut d = Dashboard::new();
    d.update_data([reading(500, 50, 250), reading(150, 100, 100), reading(150, 100, 100)]);
    let plan = d.draw();
    // Channel 0 is active: its voltage row renders in the voltage accent.
    let colors = foreground_colors(&plan.blits[0]);
    assert_eq!(colors, vec![yellow()]);
}

#[test]
fn fresh_dashboard_plans_nine_zero_strings() {
    let mut d = Dashboard::new();
    let plan = d.draw();
    // Each channel draws "0.00V", "0.00A", "0.00W": five glyphs each.
    assert_eq!(plan.blits.len(), 45);
    assert_eq!(plan.clear, Some(Rgb { r: 0, g: 0, b: 0 }));
    // Channel columns end at 53, 106 and 159; rows start at 0, 13 and 26.
    assert_eq!(plan.blits[0].x, 53 - 40);
    assert_eq!(plan.blits[0].y, 0);
    assert_eq!(plan.blits[5].y, 13);
    assert_eq!(plan.blits[10].y, 26);
    assert_eq!(plan.blits[15].x, 106 - 40);
    assert_eq!(plan.blits[30].x, 159 - 40);
}

#[test]
fn update_changes_the_planned_text() {
    let mut d = Dashboard::new();
    d.update_data([reading(1250, 50, 250), reading(0, 0, 0), reading(0, 0, 0)]);
    let plan = d.draw();
    // "12.50V" is six glyphs, so channel 0 contributes 16 blits.
    assert_eq!(plan.blits.len(), 16 + 15 + 15);
}

#[test]
fn clear_cadence_over_a_thousand_draws() {
    let mut d = Dashboard::new();
    let mut clears = 0;
    for _ in 0..1000 {
        if d.draw().clear.is_some() {
            clears += 1;
        }
    }
    // Exactly one clear in the first thousand draw calls: the very first.
    assert_eq!(clears, 1);
    // The 1001st call issues the second.
    assert!(d.draw().clear.is_some());
    assert_eq!(d.draw_calls(), 1001);
}

#[test]
fn only_the_first_draw_of_a_thousand_clears() {
    let mut d = Dashboard::new();
    assert!(d.draw().clear.is_some());
    for _ in 0..999 {
        assert!(d.draw().clear.is_none());
    }
    assert!(d.draw().clear.is_some());
}

#[test]
fn successful_frame_runs_every_operation() {
    let mut d = Dashboard::new();
    let (ops, outcome) = run_all(d.draw());
    assert_eq!(outcome, Ok(()));
    assert_eq!(ops.len(), 46);
    assert!(matches!(ops[0], Op::Fill { color } if color == Rgb { r: 0, g: 0, b: 0 }));
    for op in &ops[1..] {
        assert!(matches!(op, Op::Write { .. }));
    }
}

#[test]
fn frame_without_clear_starts_with_a_write() {
    let mut d = Dashboard::new();
    let _ = d.draw();
    let (ops, outcome) = run_all(d.draw());
    assert_eq!(outcome, Ok(()));
    assert_eq!(ops.len(), 45);
    assert!(matches!(ops[0], Op::Write { .. }));
}

#[test]
fn write_failure_aborts_the_frame() {
    // A device failure on the second glyph of channel 0 aborts everything
    // that remains, and the frame reports a driver error.
    let mut d = Dashboard::new();
    let mut run = FrameRun::new(d.draw());
    assert!(matches!(run.next_op(true), Some(Op::Fill { .. })));
    assert!(matches!(run.next_op(true), Some(Op::Write { .. })));
    assert!(matches!(run.next_op(true), Some(Op::Write { .. })));
    // The second glyph write failed.
    assert!(run.next_op(false).is_none());
    assert_eq!(run.outcome(), Err(Error::DriverError));
    // The frame stays over: no operation is handed out again.
    assert!(run.next_op(true).is_none());
    // The repaint counter was still incremented by the draw call.
    assert_eq!(d.draw_calls(), 1);
}

#[test]
fn clear_failure_is_swallowed() {
    // A failing full clear does not abort the frame: every glyph write is
    // still handed out and the frame succeeds.
    let mut d = Dashboard::new();
    let mut run = FrameRun::new(d.draw());
    assert!(matches!(run.next_op(true), Some(Op::Fill { .. })));
    // Report the clear as failed; the run must keep going.
    let mut ops = 0;
    let mut ok = false;
    while let Some(op) = run.next_op(ok) {
        ok = true;
        assert!(matches!(op, Op::Write { .. }));
        ops += 1;
    }
    assert_eq!(ops, 45);
    assert_eq!(run.outcome(), Ok(()));
}
