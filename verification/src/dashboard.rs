//! The dashboard: per-channel readings, the color and clear-cadence policy,
//! and the planning of one frame's device operations.
//!
//! A frame is planned rather than performed: `draw` returns the full ordered
//! list of device operations (an optional full clear, then one rectangular
//! write per glyph), and `FrameRun` walks that list one operation at a time,
//! deciding from each device result whether the frame goes on. The control
//! loop that owns the display performs each operation and reports its result
//! back; it makes no rendering decision of its own.

use vstd::prelude::*;

use crate::color::{black, current_accent, idle_gray, power_accent, voltage_accent, Rgb};
use crate::fixed::Fixed;
use crate::format::{format_value, formatted, lemma_formatted_len};
use crate::layout::{draw_text, text_blits, Blit, BlitView};

verus! {

/// A rendering failure: the display transport refused an operation.
#[derive(Clone, Copy, Debug, PartialEq, Eq, Structural)]
pub enum Error {
    DriverError,
}

/// One channel's latest sample triple: voltage in volts, current in amps
/// (signed), power in watts, each truncated to hundredths.
#[derive(Clone, Copy, Debug, PartialEq, Eq, Structural)]
pub struct ChannelReading {
    pub voltage: Fixed,
    pub current: Fixed,
    pub power: Fixed,
}

impl ChannelReading {
    /// The all-zero reading every channel starts from.
    pub open spec fn spec_zero() -> ChannelReading {
        ChannelReading { voltage: Fixed::spec_zero(), current: Fixed::spec_zero(), power: Fixed::spec_zero() }
    }

    /// The all-zero reading every channel starts from.
    pub fn zero() -> (r: ChannelReading)
        ensures
            r == ChannelReading::spec_zero(),
    {
        ChannelReading { voltage: Fixed::zero(), current: Fixed::zero(), power: Fixed::zero() }
    }
}

/// How many draw calls pass between two full clears.
pub const CLEAR_CADENCE: u32 = 1000;

/// Logical screen width in pixels.
pub const SCREEN_WIDTH: u16 = 160;

/// Width of one of the three channel columns.
pub const COLUMN_WIDTH: u16 = SCREEN_WIDTH / 3;

/// Vertical step between the three metric rows: glyph height plus one
/// pixel of spacing.
pub const ROW_STEP: u16 = 13;

/// A channel renders in neutral gray when it looks idle or stale: voltage
/// magnitude below 2 volts, current magnitude below 0.05 amps, or power
/// below 0.05 watts. The override is all-or-nothing for the channel's
/// three rows.
pub open spec fn idle_channel(r: ChannelReading) -> bool {
    ||| r.voltage.centi < 200
    ||| r.current.centi < 5
    ||| r.power.signed_centi() < 5
}

/// Decides the gray override for one channel.
pub fn channel_is_idle(r: &ChannelReading) -> (idle: bool)
    ensures
        idle == idle_channel(*r),
{
    r.voltage.centi < 200 || r.current.centi < 5 || (r.power.neg || r.power.centi < 5)
}

/// The foreground colors of a channel's voltage, current and power rows.
pub open spec fn row_colors(r: ChannelReading) -> (Rgb, Rgb, Rgb) {
    if idle_channel(r) {
        (idle_gray(), idle_gray(), idle_gray())
    } else {
        (voltage_accent(), current_accent(), power_accent())
    }
}

/// A metric's text: its formatted value followed by its unit letter.
pub open spec fn metric_text(v: Fixed, unit: u8) -> Seq<u8> {
    formatted(v) + seq![unit]
}

/// All glyph-cell writes of one channel's column: voltage, current and power
/// rows, right-aligned against the column's right edge.
pub open spec fn channel_blits(r: ChannelReading, right_edge: int) -> Seq<BlitView> {
    let colors = row_colors(r);
    text_blits(metric_text(r.voltage, 86u8), right_edge, 0, colors.0, black()) + text_blits(
        metric_text(r.current, 65u8),
        right_edge,
        13,
        colors.1,
        black(),
    ) + text_blits(metric_text(r.power, 87u8), right_edge, 26, colors.2, black())
}

/// All glyph-cell writes of one frame: the three channels left to right,
/// their columns' right edges at one, two and three column widths.
pub open spec fn frame_blits(channels: Seq<ChannelReading>) -> Seq<BlitView>
    recommends
        channels.len() == 3,
{
    channel_blits(channels[0], 53) + channel_blits(channels[1], 106) + channel_blits(
        channels[2],
        159,
    )
}

/// Whether a draw call finding this repaint count issues a full clear.
pub open spec fn issues_clear(draw_count: u32) -> bool {
    draw_count % 1000 == 0
}

/// The repaint counter after one more draw call: it only ever wraps around,
/// never resets.
pub open spec fn next_count(draw_count: u32) -> u32 {
    if draw_count == u32::MAX {
        0
    } else {
        (draw_count + 1) as u32
    }
}

/// One frame's device operations: an optional full clear first, then the
/// glyph-cell writes in drawing order.
pub struct FramePlan {
    pub clear: Option<Rgb>,
    pub blits: Vec<Blit>,
}

/// The dashboard: the latest reading of each of the three channels, and the
/// count of draw calls made so far, which gates the full-clear cadence.
pub struct Dashboard {
    channels: [ChannelReading; 3],
    draw_count: u32,
}

impl Dashboard {
    /// The three channel readings the next frame will show.
    pub closed spec fn spec_channels(self) -> Seq<ChannelReading> {
        self.channels@
    }

    /// How many draw calls have been made.
    pub closed spec fn spec_draw_count(self) -> u32 {
        self.draw_count
    }

    /// A dashboard showing zero on every channel, before any draw call.
    pub fn new() -> (d: Dashboard)
        ensures
            d.spec_draw_count() == 0,
            d.spec_channels().len() == 3,
            forall|i: int|
                0 <= i < 3 ==> d.spec_channels()[i] == ChannelReading::spec_zero(),
    {
        let z = ChannelReading::zero();
        Dashboard { channels: [z, z, z], draw_count: 0 }
    }

    /// Reads the repaint counter.
    pub fn draw_calls(&self) -> (n: u32)
        ensures
            n == self.spec_draw_count(),
    {
        self.draw_count
    }

    /// Overwrites all three channels with fresh readings. Unconditional: no
    /// validation, no error path, and the repaint counter is untouched.
    pub fn update_data(&mut self, data: [ChannelReading; 3])
        ensures
            final(self).spec_channels() == data@,
            final(self).spec_draw_count() == old(self).spec_draw_count(),
    {
        self.channels = data;
    }

    /// Plans one frame: a full clear to black exactly when the repaint
    /// counter stands at a multiple of the cadence, then the three channel
    /// columns. The counter is incremented unconditionally; the readings are
    /// untouched.
    pub fn draw(&mut self) -> (plan: FramePlan)
        ensures
            final(self).spec_channels() == old(self).spec_channels(),
            final(self).spec_draw_count() == next_count(old(self).spec_draw_count()),
            plan.clear == if issues_clear(old(self).spec_draw_count()) {
                Some(black())
            } else {
                None::<Rgb>
            },
            plan.blits@.map_values(|b: Blit| b@) == frame_blits(old(self).spec_channels()),
    {
        let clear = if self.draw_count % CLEAR_CADENCE == 0 {
            Some(Rgb { r: 0, g: 0, b: 0 })
        } else {
            None
        };
        self.draw_count = if self.draw_count == u32::MAX {
            0
        } else {
            self.draw_count + 1
        };
        let mut blits: Vec<Blit> = Vec::new();
        draw_channel(&self.channels[0], COLUMN_WIDTH, &mut blits);
        draw_channel(&self.channels[1], 2 * COLUMN_WIDTH, &mut blits);
        draw_channel(&self.channels[2], 3 * COLUMN_WIDTH, &mut blits);
        proof {
            assert(blits@.map_values(|b: Blit| b@) =~~= frame_blits(self.channels@));
        }
        FramePlan { clear, blits }
    }
}

/// Appends one channel column's glyph-cell writes to `out`: the voltage,
/// current and power rows, each formatted, suffixed with its unit letter and
/// right-aligned against the column's right edge.
fn draw_channel(r: &ChannelReading, right_edge: u16, out: &mut Vec<Blit>)
    ensures
        final(out)@.map_values(|b: Blit| b@) == old(out)@.map_values(|b: Blit| b@) + channel_blits(
            *r,
            right_edge as int,
        ),
{
    let gray = channel_is_idle(r);
    let bg = Rgb { r: 0, g: 0, b: 0 };
    let (cv, cc, cp) = if gray {
        (Rgb { r: 15, g: 30, b: 15 }, Rgb { r: 15, g: 30, b: 15 }, Rgb { r: 15, g: 30, b: 15 })
    } else {
        (Rgb { r: 31, g: 63, b: 0 }, Rgb { r: 31, g: 0, b: 0 }, Rgb { r: 0, g: 63, b: 0 })
    };
    let mut tv = format_value(r.voltage);
    tv.push(86);
    proof {
        lemma_formatted_len(r.voltage);
        assert(tv@ =~= metric_text(r.voltage, 86u8));
    }
    draw_text(&tv, right_edge, 0, cv, bg, out);
    let mut tc = format_value(r.current);
    tc.push(65);
    proof {
        lemma_formatted_len(r.current);
        assert(tc@ =~= metric_text(r.current, 65u8));
    }
    draw_text(&tc, right_edge, ROW_STEP, cc, bg, out);
    let mut tp = format_value(r.power);
    tp.push(87);
    proof {
        lemma_formatted_len(r.power);
        assert(tp@ =~= metric_text(r.power, 87u8));
    }
    draw_text(&tp, right_edge, 2 * ROW_STEP, cp, bg, out);
    proof {
        assert(out@.map_values(|b: Blit| b@) =~~= old(out)@.map_values(|b: Blit| b@)
            + channel_blits(*r, right_edge as int));
    }
}

/// One device operation of a frame.
pub enum Op {
    /// Fill the whole surface with one color.
    Fill { color: Rgb },
    /// Write one glyph cell's pixels at its origin.
    Write { blit: Blit },
}

/// Walks one frame's operations against the device, one at a time.
///
/// The owner of the display repeatedly asks for the next operation, performs
/// it, and passes the result into the next call. The run embodies the two
/// failure policies: a failed full clear is swallowed (the frame goes on and
/// draws over whatever was left), while a failed glyph write aborts every
/// remaining operation of the frame and surfaces a driver error.
pub struct FrameRun {
    clear: Option<Rgb>,
    blits: Vec<Blit>,
    await_write: bool,
    failed: bool,
}

impl FrameRun {
    /// The full clear not yet handed out, if any.
    pub closed spec fn pending_clear(self) -> Option<Rgb> {
        self.clear
    }

    /// The glyph-cell writes not yet handed out, in order.
    pub closed spec fn pending_blits(self) -> Seq<BlitView> {
        self.blits@.map_values(|b: Blit| b@)
    }

    /// Whether the operation most recently handed out was a glyph write,
    /// so that the next reported result can abort the frame.
    pub closed spec fn awaits_write(self) -> bool {
        self.await_write
    }

    /// Whether a glyph write has failed: the frame is over and no further
    /// operation will be handed out.
    pub closed spec fn has_failed(self) -> bool {
        self.failed
    }

    /// Starts walking a planned frame.
    pub fn new(plan: FramePlan) -> (run: FrameRun)
        ensures
            run.pending_clear() == plan.clear,
            run.pending_blits() == plan.blits@.map_values(|b: Blit| b@),
            !run.awaits_write(),
            !run.has_failed(),
    {
        FrameRun { clear: plan.clear, blits: plan.blits, await_write: false, failed: false }
    }

    /// Hands out the next device operation, `prev_ok` being the device's
    /// verdict on the operation handed out before. A `false` verdict on a
    /// glyph write fails the frame; a verdict on a full clear is ignored.
    /// `None` means the frame is over: completed, or aborted by a failure.
    pub fn next_op(&mut self, prev_ok: bool) -> (op: Option<Op>)
        ensures
            old(self).has_failed() ==> {
                &&& op is None
                &&& *final(self) == *old(self)
            },
            (!old(self).has_failed() && old(self).awaits_write() && !prev_ok) ==> {
                &&& op is None
                &&& final(self).has_failed()
            },
            (!old(self).has_failed() && !(old(self).awaits_write() && !prev_ok)) ==> {
                &&& !final(self).has_failed()
                &&& (old(self).pending_clear() matches Some(color) ==> {
                    &&& op == Some(Op::Fill { color })
                    &&& final(self).pending_clear() is None
                    &&& final(self).pending_blits() == old(self).pending_blits()
                    &&& !final(self).awaits_write()
                })
                &&& (old(self).pending_clear() is None && old(self).pending_blits().len() > 0)
                    ==> {
                    &&& op matches Some(o)
                    &&& o matches Op::Write { blit }
                    &&& blit@ == old(self).pending_blits()[0]
                    &&& final(self).pending_clear() is None
                    &&& final(self).pending_blits() == old(self).pending_blits().drop_first()
                    &&& final(self).awaits_write()
                }
                &&& (old(self).pending_clear() is None && old(self).pending_blits().len() == 0)
                    ==> {
                    &&& op is None
                    &&& final(self).pending_blits().len() == 0
                    &&& final(self).pending_clear() is None
                }
            },
    {
        if self.failed {
            return None;
        }
        if self.await_write && !prev_ok {
            self.failed = true;
            self.await_write = false;
            return None;
        }
        match self.clear.take() {
            Some(color) => {
                self.await_write = false;
                Some(Op::Fill { color })
            },
            None => {
                if self.blits.len() > 0 {
                    let blit = self.blits.remove(0);
                    self.await_write = true;
                    proof {
                        assert(self.blits@.map_values(|b: Blit| b@) =~~= old(
                            self,
                        ).blits@.map_values(|b: Blit| b@).drop_first());
                    }
                    Some(Op::Write { blit })
                } else {
                    self.await_write = false;
                    None
                }
            },
        }
    }

    /// The frame's outcome: a driver error if a glyph write failed, success
    /// otherwise. Meaningful once `next_op` has returned `None`.
    pub fn outcome(&self) -> (r: Result<(), Error>)
        ensures
            r == if self.has_failed() {
                Err::<(), Error>(Error::DriverError)
            } else {
                Ok::<(), Error>(())
            },
    {
        if self.failed {
            Err(Error::DriverError)
        } else {
            Ok(())
        }
    }
}

/// How many of the first `n` draw calls of a dashboard whose repaint counter
/// starts at zero issue a full clear: call number `k` (counting from zero)
/// finds the counter at `k`.
pub open spec fn clears_among(n: nat) -> nat
    decreases n,
{
    if n == 0 {
        0
    } else {
        clears_among((n - 1) as nat) + if (n - 1) % 1000 == 0 {
            1nat
        } else {
            0nat
        }
    }
}

/// The clear cadence: among the first `n` draw calls (counter starting at
/// zero, `n` small enough that it does not wrap), exactly one call per
/// thousand issues a full clear — the first call of each thousand. In
/// particular the first 1000 calls issue exactly one clear, and call 1001
/// issues the second.
pub proof fn lemma_clear_cadence(n: nat)
    ensures
        clears_among(n) == (n + 999) / 1000,
    decreases n,
{
    if n > 0 {
        lemma_clear_cadence((n - 1) as nat);
    }
}

} // verus!
