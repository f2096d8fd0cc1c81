//! The timeline viewport: the ruler with its ticks, the playhead, the
//! cursor under the pointer, and the cue blocks.

pub mod granularity;
pub mod subrip_block;

use crate::geometry::{pixel, to_pixel, Pos2, Rect};
use crate::player::PlayerStatus;
use crate::subrip::Subrip;
use crate::text::{minutes_seconds, minutes_seconds_text};
use crate::ui::timeline::granularity::{
    clamp_granularity, initial_granularity, lemma_round_div_bounds, media_millis, round_div, sign,
    tick_step_px, window_for, window_moved, GranularityModel, DEFAULT_GRANULARITY,
    GRANULARITY_STEP, MAX_GRANULARITY, MAX_MEDIA_DURATION_S, MIN_GRANULARITY,
};
use crate::time::MILLIS_PER_DAY;
use crate::ui::timeline::subrip_block::{
    block_rect, block_width, block_x, in_window, BlockInput, BlockView, DragMode, SubripBlock,
    BLOCK_TOP,
};
use vstd::prelude::*;

verus! {

/// Height of a timeline.
pub const DEFAULT_HEIGHT: i32 = 120;

/// Every tick whose number is a multiple of this carries a label.
pub const LABEL_EVERY: i64 = 5;

/// Distance from the top of the timeline to the top of a tick.
pub const TICK_TOP: i64 = 20;

/// Distance from the top of the timeline to the bottom of a plain tick.
pub const TICK_BOTTOM: i64 = 32;

/// Distance from the top of the timeline to the bottom of a labelled tick.
pub const LABELLED_TICK_BOTTOM: i64 = 40;

/// Half the width of the bars at the ends of the cursor under the pointer.
pub const CROSSHAIR_HALF_WIDTH: i64 = 3;

/// What a timeline remembers of the last frame.
#[derive(Clone, Copy, Debug, PartialEq, Eq, Structural)]
pub struct TimelineState {
    /// The width of the viewport in the last frame.
    pub width: u32,
}

/// A line to paint, from `from` to `to`.
#[derive(Clone, Copy, Debug, PartialEq, Eq, Structural)]
pub struct Line {
    pub from: Pos2,
    pub to: Pos2,
}

/// A place in the media, as the part `offset` of `width`: the pointer
/// stood `offset` pixels into a ruler `width` pixels wide.
#[derive(Clone, Copy, Debug, PartialEq, Eq, Structural)]
pub struct SeekRatio {
    pub offset: i64,
    pub width: i64,
}

/// The cursor under the pointer: an upright line with a bar at either end.
#[derive(Clone, Copy, Debug, PartialEq, Eq, Structural)]
pub struct HoverCursor {
    pub stem: Line,
    pub top_bar: Line,
    pub bottom_bar: Line,
    /// Where the player is asked to seek, on a double click.
    pub seek: Option<SeekRatio>,
}

/// One tick of the ruler.
#[derive(Debug)]
pub struct Tick {
    /// The number of the tick, counted from the start of the media.
    pub number: i64,
    /// The line of the tick.
    pub line: Line,
    /// Where the label stands.
    pub label_pos: Pos2,
    /// The label, `mm:ss`, on the ticks that carry one.
    pub label: Option<String>,
}

/// What the pointer and the toolkit give a timeline in one frame.
#[derive(Clone, Copy, Debug, PartialEq, Eq, Structural)]
pub struct TimelineInput {
    /// The rectangle the timeline is drawn in.
    pub rect: Rect,
    /// The width there is for the viewport.
    pub width: u32,
    /// The pointer is over the timeline.
    pub contains_pointer: bool,
    /// Sideways scroll of this frame.
    pub scroll_x: i64,
    /// Up-and-down scroll of this frame.
    pub scroll_y: i64,
    /// Where the pointer hovers, if anywhere.
    pub hover_pos: Option<Pos2>,
    /// The timeline was double-clicked in this frame.
    pub double_clicked: bool,
}

/// What there is to paint of a timeline in one frame, cue blocks aside.
#[derive(Debug)]
pub struct TimelineView {
    /// The playhead, while the player's position is in the window.
    pub cursor: Option<Line>,
    /// The cursor under the pointer, while it is inside the timeline.
    pub hover_cursor: Option<HoverCursor>,
    /// The ticks of the ruler, from left to right.
    pub ticks: Vec<Tick>,
}

/// The timeline viewport.
#[derive(Debug)]
pub struct Timeline {
    pub model: GranularityModel,
    pub state: TimelineState,
    /// The width of the screen, for which the granularity is chosen when
    /// media is taken up.
    pub screen_width: u32,
    pub default_height: i32,
    pub subrip_blocks: Vec<SubripBlock>,
    /// The player's last reading, once there is a player.
    pub player: Option<PlayerStatus>,
}

/// Whether tick `number` carries a label: every fifth one does, and the
/// last one of the window.
pub open spec fn is_labelled(number: int, end_tick: int) -> bool {
    number % (LABEL_EVERY as int) == 0 || number == end_tick
}

/// The media time of tick `number` in whole seconds.
pub open spec fn tick_seconds(number: int, granularity: int) -> int {
    number * (tick_step_px(granularity) * granularity) / 1000
}

/// Pixels from the left edge of the ruler to tick `number`, on a ruler
/// whose first tick is `begin_tick`.
pub open spec fn tick_x(number: int, begin_tick: int, granularity: int) -> int {
    (number - begin_tick) * tick_step_px(granularity)
}

/// An upright line at `x` from `top` to `bottom`.
pub open spec fn upright(x: int, top: int, bottom: int) -> Line {
    Line { from: Pos2 { x: pixel(x), y: pixel(top) }, to: Pos2 { x: pixel(x), y: pixel(bottom) } }
}

/// A level line at `y` from `left` to `right`.
pub open spec fn level(left: int, right: int, y: int) -> Line {
    Line { from: Pos2 { x: pixel(left), y: pixel(y) }, to: Pos2 { x: pixel(right), y: pixel(y) } }
}

impl Tick {
    /// Whether this is tick `number` of a ruler drawn in `rect` whose
    /// first and last ticks are `begin_tick` and `end_tick`.
    pub open spec fn is_tick(
        &self,
        number: int,
        begin_tick: int,
        end_tick: int,
        granularity: int,
        rect: Rect,
    ) -> bool {
        let x = rect.min.x + tick_x(number, begin_tick, granularity);
        &&& self.number == number
        &&& self.label_pos == (Pos2 { x: pixel(x), y: rect.min.y })
        &&& self.line == upright(
            x,
            rect.min.y + TICK_TOP,
            rect.min.y + if is_labelled(number, end_tick) {
                LABELLED_TICK_BOTTOM
            } else {
                TICK_BOTTOM
            },
        )
        &&& match self.label {
            Some(text) => is_labelled(number, end_tick) && text@ == minutes_seconds_text(
                tick_seconds(number, granularity) as nat,
            ),
            None => !is_labelled(number, end_tick),
        }
    }
}

impl TimelineState {
    pub fn is_width_changed(&self, width: u32) -> (r: bool)
        ensures
            r == (self.width != width),
    {
        self.width != width
    }
}

impl Default for TimelineState {
    fn default() -> (r: Self)
        ensures
            r.width == 0,
    {
        TimelineState { width: 0 }
    }
}

impl Timeline {
    /// The granularity model is well formed.
    pub open spec fn wf(&self) -> bool {
        self.model.wf()
    }

    /// Whether the timeline is well formed.
    pub fn is_wf(&self) -> (r: bool)
        ensures
            r == self.wf(),
    {
        self.model.is_wf()
    }

    /// The media time in milliseconds at which the playhead is drawn: the
    /// whole seconds played, where there is a player.
    pub open spec fn cursor_millis(&self) -> Option<int> {
        match self.player {
            Some(p) => Some((p.elapsed_ms / 1000) * 1000),
            None => None,
        }
    }

    /// Pixels from the left edge of the ruler to the playhead, which stands
    /// on the tick nearest to the player's position; nothing while that
    /// position is outside the window, or without a player.
    pub open spec fn cursor_offset(&self) -> Option<int> {
        match self.cursor_millis() {
            Some(t) if self.model.duration_range[0] <= t < self.model.duration_range[1] => Some(
                (round_div(t, self.model.spec_tick_step_millis()) - round_div(
                    self.model.duration_range[0] as int,
                    self.model.spec_tick_step_millis(),
                )) * tick_step_px(self.model.millis_per_pixel as int),
            ),
            _ => None,
        }
    }

    /// The cursor under a pointer at `hover_pos` on a timeline drawn in
    /// `rect`: nothing unless the pointer is strictly inside; a seek to the
    /// pointer's share of the width on a double click.
    pub open spec fn spec_hover_cursor(rect: Rect, hover_pos: Option<Pos2>, double_clicked: bool)
        -> Option<HoverCursor> {
        match hover_pos {
            Some(p) if rect.spec_contains_strictly(p) => Some(
                HoverCursor {
                    stem: upright(p.x as int, rect.min.y as int, rect.max.y as int),
                    top_bar: level(
                        p.x - CROSSHAIR_HALF_WIDTH,
                        p.x + CROSSHAIR_HALF_WIDTH,
                        rect.min.y as int,
                    ),
                    bottom_bar: level(
                        p.x - CROSSHAIR_HALF_WIDTH,
                        p.x + CROSSHAIR_HALF_WIDTH,
                        rect.max.y as int,
                    ),
                    seek: if double_clicked {
                        Some(
                            SeekRatio {
                                offset: (p.x - rect.min.x) as i64,
                                width: (rect.max.x - rect.min.x) as i64,
                            },
                        )
                    } else {
                        None
                    },
                },
            ),
            _ => None,
        }
    }

    /// A timeline without media, blocks or player, for a screen
    /// `screen_width` pixels wide.
    pub fn new(screen_width: u32) -> (r: Self)
        ensures
            r.wf(),
            r.screen_width == screen_width,
            r.default_height == DEFAULT_HEIGHT,
            r.model.millis_per_pixel == DEFAULT_GRANULARITY,
            r.model.media_duration_ms == 0,
            r.model.duration_range[0] == 0,
            r.model.duration_range[1] == 0,
            r.state.width == 0,
            r.subrip_blocks@.len() == 0,
            r.player is None,
    {
        Timeline {
            model: GranularityModel::new(),
            state: TimelineState { width: 0 },
            screen_width,
            default_height: DEFAULT_HEIGHT,
            subrip_blocks: Vec::new(),
            player: None,
        }
    }

    pub fn get_granularity(&self) -> (r: u32)
        ensures
            r == self.model.millis_per_pixel,
    {
        self.model.get_granularity()
    }

    /// The playhead on a timeline drawn in `rect`.
    pub fn draw_cursor(&self, rect: &Rect) -> (r: Option<Line>)
        requires
            self.wf(),
        ensures
            r == match self.cursor_offset() {
                Some(offset) => Some(
                    upright(rect.min.x + offset, rect.min.y as int, rect.max.y as int),
                ),
                None => None,
            },
    {
        match &self.player {
            Some(player) => {
                let elapsed_s = player.elapsed_seconds();
                let begin = self.model.duration_range[0];
                let end = self.model.duration_range[1];
                if elapsed_s > (MAX_MEDIA_DURATION_S as u64) {
                    return None;
                }
                let elapsed = (elapsed_s * 1000) as i64;
                if elapsed >= begin && elapsed < end {
                    let d = self.model.tick_step_millis();
                    let step = self.model.calc_tick_step() as i64;
                    proof {
                        lemma_round_div_bounds(elapsed as int, d as int);
                        lemma_round_div_bounds(begin as int, d as int);
                        lemma_round_div_monotone(begin as int, elapsed as int, d as int);
                    }
                    let cur_tick = (2 * elapsed + d) / (2 * d);
                    let begin_tick = (2 * begin + d) / (2 * d);
                    let offset_tick = cur_tick - begin_tick;
                    assert(0 <= offset_tick * step <= (2 * MAX_MEDIA_DURATION_S * 1000 + 2) * 64)
                        by (nonlinear_arith)
                        requires
                            0 <= offset_tick <= 2 * MAX_MEDIA_DURATION_S * 1000 + 2,
                            0 <= step <= 64,
                    ;
                    let offset_x = rect.min.x as i64 + offset_tick * step;
                    Some(
                        Line {
                            from: Pos2 { x: to_pixel(offset_x), y: to_pixel(rect.min.y as i64) },
                            to: Pos2 { x: to_pixel(offset_x), y: to_pixel(rect.max.y as i64) },
                        },
                    )
                } else {
                    None
                }
            },
            None => None,
        }
    }

    /// The cursor under the pointer, and the seek that a double click asks
    /// for.
    pub fn draw_hovered_cursor(&self, rect: &Rect, hover_pos: Option<Pos2>, double_clicked: bool)
        -> (r: Option<HoverCursor>)
        ensures
            r == Self::spec_hover_cursor(*rect, hover_pos, double_clicked),
            r matches Some(c) ==> (c.seek matches Some(s) ==> 0 < s.offset < s.width),
    {
        match hover_pos {
            Some(p) => {
                if rect.contains_strictly(p) {
                    let x = p.x as i64;
                    let top = rect.min.y as i64;
                    let bottom = rect.max.y as i64;
                    Some(
                        HoverCursor {
                            stem: Line {
                                from: Pos2 { x: to_pixel(x), y: to_pixel(top) },
                                to: Pos2 { x: to_pixel(x), y: to_pixel(bottom) },
                            },
                            top_bar: Line {
                                from: Pos2 {
                                    x: to_pixel(x - CROSSHAIR_HALF_WIDTH),
                                    y: to_pixel(top),
                                },
                                to: Pos2 {
                                    x: to_pixel(x + CROSSHAIR_HALF_WIDTH),
                                    y: to_pixel(top),
                                },
                            },
                            bottom_bar: Line {
                                from: Pos2 {
                                    x: to_pixel(x - CROSSHAIR_HALF_WIDTH),
                                    y: to_pixel(bottom),
                                },
                                to: Pos2 {
                                    x: to_pixel(x + CROSSHAIR_HALF_WIDTH),
                                    y: to_pixel(bottom),
                                },
                            },
                            seek: if double_clicked {
                                Some(
                                    SeekRatio {
                                        offset: x - rect.min.x as i64,
                                        width: rect.width(),
                                    },
                                )
                            } else {
                                None
                            },
                        },
                    )
                } else {
                    None
                }
            },
            None => None,
        }
    }

    /// The ticks of the ruler on a timeline drawn in `rect`, from the first
    /// tick of the window to the last, a step apart.
    pub fn draw_ticks(&self, rect: &Rect) -> (r: Vec<Tick>)
        requires
            self.wf(),
        ensures
            self.has_ticks(r@, *rect),
    {
        let range = self.model.calc_ticks_range();
        let begin_tick = range.0;
        let end_tick = range.1;
        let step = self.model.calc_tick_step() as i64;
        let d = self.model.tick_step_millis();
        let mut ticks: Vec<Tick> = Vec::new();
        let mut i = begin_tick;
        while i <= end_tick
            invariant
                self.wf(),
                begin_tick <= i <= end_tick + 1,
                0 <= begin_tick <= end_tick <= 2 * MAX_MEDIA_DURATION_S * 1000 + 2,
                step == tick_step_px(self.model.millis_per_pixel as int),
                d == step * self.model.millis_per_pixel,
                ticks@.len() == i - begin_tick,
                forall|k: int|
                    0 <= k < ticks@.len() ==> (#[trigger] ticks@[k]).is_tick(
                        begin_tick + k,
                        begin_tick as int,
                        end_tick as int,
                        self.model.millis_per_pixel as int,
                        *rect,
                    ),
            decreases end_tick + 1 - i,
        {
            assert(0 <= (i - begin_tick) * step <= (2 * MAX_MEDIA_DURATION_S * 1000 + 2) * 64)
                by (nonlinear_arith)
                requires
                    0 <= i - begin_tick <= 2 * MAX_MEDIA_DURATION_S * 1000 + 2,
                    0 <= step <= 64,
            ;
            let x = rect.min.x as i64 + (i - begin_tick) * step;
            let top = rect.min.y as i64;
            let labelled = i % LABEL_EVERY == 0 || i == end_tick;
            let label = if labelled {
                assert(0 <= i * d <= (2 * MAX_MEDIA_DURATION_S * 1000 + 2) * 192_000)
                    by (nonlinear_arith)
                    requires
                        0 <= i <= 2 * MAX_MEDIA_DURATION_S * 1000 + 2,
                        0 <= d <= 192_000,
                ;
                let total_seconds = (i * d) / 1000;
                Some(minutes_seconds(total_seconds as u64))
            } else {
                None
            };
            let bottom = if labelled {
                LABELLED_TICK_BOTTOM
            } else {
                TICK_BOTTOM
            };
            let tick = Tick {
                number: i,
                line: Line {
                    from: Pos2 { x: to_pixel(x), y: to_pixel(top + TICK_TOP) },
                    to: Pos2 { x: to_pixel(x), y: to_pixel(top + bottom) },
                },
                label_pos: Pos2 { x: to_pixel(x), y: rect.min.y },
                label,
            };
            assert(tick.is_tick(
                i as int,
                begin_tick as int,
                end_tick as int,
                self.model.millis_per_pixel as int,
                *rect,
            ));
            ticks.push(tick);
            i = i + 1;
        }
        ticks
    }

    /// Takes up the scrolling of a frame: while the pointer is over the
    /// timeline, a sideways scroll zooms by one step, out to the right and
    /// in to the left, and a scroll up or down then moves the window by one
    /// tick, back for a scroll up and on for a scroll down.
    pub fn update_input_event(&mut self, contains_pointer: bool, scroll_x: i64, scroll_y: i64)
        requires
            old(self).wf(),
        ensures
            final(self).wf(),
            final(self).state == old(self).state,
            final(self).screen_width == old(self).screen_width,
            final(self).default_height == old(self).default_height,
            final(self).subrip_blocks == old(self).subrip_blocks,
            final(self).player == old(self).player,
            final(self).model.media_duration_ms == old(self).model.media_duration_ms,
            !contains_pointer ==> final(self).model == old(self).model,
            contains_pointer ==> ({
                let g = clamp_granularity(
                    old(self).model.millis_per_pixel + sign(scroll_x as int) * GRANULARITY_STEP,
                );
                &&& final(self).model.millis_per_pixel == g
                &&& (
                final(self).model.duration_range[0] as int,
                final(self).model.duration_range[1] as int,
                ) == window_moved(
                    old(self).model.duration_range[0] as int,
                    old(self).model.duration_range[1] as int,
                    old(self).model.media_duration_ms as int,
                    -sign(scroll_y as int) * (tick_step_px(g as int) * g),
                )
            }),
    {
        if contains_pointer {
            if scroll_x < 0 {
                self.decrease_granularity();
            } else if scroll_x > 0 {
                self.increase_granularity();
            }
            self.move_duration_range(scroll_y);
        }
    }

    /// Fits the window to the viewport if its width is not the one of the
    /// last frame.
    pub fn update_duration_range(&mut self, width: u32)
        requires
            old(self).wf(),
        ensures
            final(self).wf(),
            final(self).state == old(self).state,
            final(self).screen_width == old(self).screen_width,
            final(self).default_height == old(self).default_height,
            final(self).subrip_blocks == old(self).subrip_blocks,
            final(self).player == old(self).player,
            final(self).model.millis_per_pixel == old(self).model.millis_per_pixel,
            final(self).model.media_duration_ms == old(self).model.media_duration_ms,
            old(self).state.width == width ==> final(self).model == old(self).model,
            old(self).state.width != width ==> (
            final(self).model.duration_range[0] as int,
            final(self).model.duration_range[1] as int,
            ) == window_for(
                old(self).model.duration_range[0] as int,
                old(self).model.millis_per_pixel * width,
                old(self).model.media_duration_ms as int,
            ),
    {
        if self.state.is_width_changed(width) {
            self.model.recompute_window(width);
        }
    }

    /// Chooses granularity and window anew for the media at hand, as seen
    /// on the whole width of the screen.
    pub fn init(&mut self)
        ensures
            final(self).wf(),
            final(self).state == old(self).state,
            final(self).screen_width == old(self).screen_width,
            final(self).default_height == old(self).default_height,
            final(self).subrip_blocks == old(self).subrip_blocks,
            final(self).player == old(self).player,
            final(self).model.media_duration_ms == media_millis(
                old(self).model.media_duration_ms / 1000,
            ),
            final(self).model.millis_per_pixel == initial_granularity(
                final(self).model.media_duration_ms as int,
                old(self).screen_width as int,
            ),
            (final(self).model.duration_range[0] as int, final(self).model.duration_range[1] as int)
                == window_for(
                0,
                final(self).model.millis_per_pixel * old(self).screen_width,
                final(self).model.media_duration_ms as int,
            ),
    {
        let seconds = if self.model.media_duration_ms >= 0 {
            self.model.media_duration_ms / 1000
        } else {
            0
        };
        self.model.init(seconds, self.screen_width);
    }

    /// Zooms out by one step.
    pub fn increase_granularity(&mut self)
        ensures
            final(self).model.millis_per_pixel == clamp_granularity(
                old(self).model.millis_per_pixel + GRANULARITY_STEP,
            ),
            MIN_GRANULARITY <= final(self).model.millis_per_pixel <= MAX_GRANULARITY,
            final(self).model.duration_range == old(self).model.duration_range,
            final(self).model.media_duration_ms == old(self).model.media_duration_ms,
            old(self).wf() ==> final(self).wf(),
            final(self).state == old(self).state,
            final(self).screen_width == old(self).screen_width,
            final(self).default_height == old(self).default_height,
            final(self).subrip_blocks == old(self).subrip_blocks,
            final(self).player == old(self).player,
    {
        self.model.increase_granularity();
    }

    /// Zooms in by one step.
    pub fn decrease_granularity(&mut self)
        ensures
            final(self).model.millis_per_pixel == clamp_granularity(
                old(self).model.millis_per_pixel - GRANULARITY_STEP,
            ),
            MIN_GRANULARITY <= final(self).model.millis_per_pixel <= MAX_GRANULARITY,
            final(self).model.duration_range == old(self).model.duration_range,
            final(self).model.media_duration_ms == old(self).model.media_duration_ms,
            old(self).wf() ==> final(self).wf(),
            final(self).state == old(self).state,
            final(self).screen_width == old(self).screen_width,
            final(self).default_height == old(self).default_height,
            final(self).subrip_blocks == old(self).subrip_blocks,
            final(self).player == old(self).player,
    {
        self.model.decrease_granularity();
    }

    /// Moves the window by one tick against the direction of the scroll
    /// `delta`: back for a positive one, on for a negative one.
    pub fn move_duration_range(&mut self, delta: i64)
        requires
            old(self).wf(),
        ensures
            final(self).wf(),
            final(self).model.millis_per_pixel == old(self).model.millis_per_pixel,
            final(self).model.media_duration_ms == old(self).model.media_duration_ms,
            (final(self).model.duration_range[0] as int, final(self).model.duration_range[1] as int)
                == window_moved(
                old(self).model.duration_range[0] as int,
                old(self).model.duration_range[1] as int,
                old(self).model.media_duration_ms as int,
                -sign(delta as int) * old(self).model.spec_tick_step_millis(),
            ),
            final(self).state == old(self).state,
            final(self).screen_width == old(self).screen_width,
            final(self).default_height == old(self).default_height,
            final(self).subrip_blocks == old(self).subrip_blocks,
            final(self).player == old(self).player,
    {
        let against: i64 = if delta > 0 {
            -1
        } else if delta < 0 {
            1
        } else {
            0
        };
        self.model.pan(against);
    }

    /// Puts a block for the cue at place `subrip` of the cue store on the
    /// timeline, after the blocks that are there.
    pub fn add_block_from_subrip(&mut self, subrip: usize)
        ensures
            final(self).subrip_blocks@.len() == old(self).subrip_blocks@.len() + 1,
            final(self).subrip_blocks@.drop_last() == old(self).subrip_blocks@,
            final(self).subrip_blocks@.last().subrip == subrip,
            final(self).subrip_blocks@.last().state.dragging_mode
                == DragMode::Idle,
            final(self).model == old(self).model,
            final(self).state == old(self).state,
            final(self).screen_width == old(self).screen_width,
            final(self).default_height == old(self).default_height,
            final(self).player == old(self).player,
    {
        let block = SubripBlock::new(subrip);
        self.subrip_blocks.push(block);
        assert(self.subrip_blocks@.drop_last() =~= old(self).subrip_blocks@);
    }

    /// Takes up media of `duration_s` seconds: the granularity becomes the
    /// one at which the media fills the screen, as far as the bounds allow,
    /// and the window starts at the beginning of the media.
    pub fn set_media_duration_s(&mut self, duration_s: &i64)
        ensures
            final(self).wf(),
            final(self).model.media_duration_ms == media_millis(*duration_s as int),
            final(self).model.millis_per_pixel == initial_granularity(
                media_millis(*duration_s as int),
                old(self).screen_width as int,
            ),
            (final(self).model.duration_range[0] as int, final(self).model.duration_range[1] as int)
                == window_for(
                0,
                final(self).model.millis_per_pixel * old(self).screen_width,
                final(self).model.media_duration_ms as int,
            ),
            final(self).state == old(self).state,
            final(self).screen_width == old(self).screen_width,
            final(self).default_height == old(self).default_height,
            final(self).subrip_blocks == old(self).subrip_blocks,
            final(self).player == old(self).player,
    {
        self.model.init(*duration_s, self.screen_width);
    }

    /// Takes up a reading of the player, and chooses granularity and window
    /// anew for the media at hand.
    pub fn set_player(&mut self, player: &PlayerStatus)
        ensures
            final(self).wf(),
            final(self).player == Some(*player),
            final(self).model.media_duration_ms == media_millis(
                old(self).model.media_duration_ms / 1000,
            ),
            final(self).model.millis_per_pixel == initial_granularity(
                final(self).model.media_duration_ms as int,
                old(self).screen_width as int,
            ),
            (final(self).model.duration_range[0] as int, final(self).model.duration_range[1] as int)
                == window_for(
                0,
                final(self).model.millis_per_pixel * old(self).screen_width,
                final(self).model.media_duration_ms as int,
            ),
            final(self).state == old(self).state,
            final(self).screen_width == old(self).screen_width,
            final(self).default_height == old(self).default_height,
            final(self).subrip_blocks == old(self).subrip_blocks,
    {
        self.player = Some(*player);
        self.init();
    }

    /// Takes up a new reading of a player that is already known, and
    /// nothing else.
    pub fn update_player(&mut self, player: &PlayerStatus)
        ensures
            final(self).player == Some(*player),
            final(self).model == old(self).model,
            final(self).state == old(self).state,
            final(self).screen_width == old(self).screen_width,
            final(self).default_height == old(self).default_height,
            final(self).subrip_blocks == old(self).subrip_blocks,
    {
        self.player = Some(*player);
    }

    /// The whole seconds that the player has played; 0 without a player.
    pub fn get_cursor_timestamp(&self) -> (r: i64)
        ensures
            r == match self.player {
                Some(p) => p.elapsed_ms as int / 1000,
                None => 0,
            },
    {
        match &self.player {
            Some(player) => (player.elapsed_ms / 1000) as i64,
            None => 0,
        }
    }
    /// Granularity, begin and end of the window after the scrolling of a
    /// frame is taken up.
    pub open spec fn scrolled(
        model: GranularityModel,
        contains_pointer: bool,
        scroll_x: int,
        scroll_y: int,
    ) -> (u32, int, int) {
        if contains_pointer {
            let g = clamp_granularity(model.millis_per_pixel + sign(scroll_x) * GRANULARITY_STEP);
            let w = window_moved(
                model.duration_range[0] as int,
                model.duration_range[1] as int,
                model.media_duration_ms as int,
                -sign(scroll_y) * (tick_step_px(g as int) * g),
            );
            (g, w.0, w.1)
        } else {
            (model.millis_per_pixel, model.duration_range[0] as int, model.duration_range[1] as int)
        }
    }

    /// Whether `ticks` are the ticks of the ruler of this timeline drawn in
    /// `rect`: one for each tick from the first of the window to the last,
    /// from left to right.
    pub open spec fn has_ticks(&self, ticks: Seq<Tick>, rect: Rect) -> bool {
        let begin_tick = round_div(
            self.model.duration_range[0] as int,
            self.model.spec_tick_step_millis(),
        );
        let end_tick = begin_tick + round_div(
            self.model.duration_range[1] - self.model.duration_range[0],
            self.model.spec_tick_step_millis(),
        );
        &&& ticks.len() == end_tick - begin_tick + 1
        &&& forall|k: int|
            0 <= k < ticks.len() ==> (#[trigger] ticks[k]).is_tick(
                begin_tick + k,
                begin_tick,
                end_tick,
                self.model.millis_per_pixel as int,
                rect,
            )
    }

    /// One frame of the viewport: the scrolling is taken up; the window is
    /// fitted to the viewport if its width has changed; the width is
    /// remembered; and playhead, cursor under the pointer and ticks come
    /// back to be painted. The cue blocks have their own frames.
    pub fn draw(&mut self, input: &TimelineInput) -> (r: TimelineView)
        requires
            old(self).wf(),
        ensures
            final(self).wf(),
            final(self).screen_width == old(self).screen_width,
            final(self).default_height == old(self).default_height,
            final(self).subrip_blocks == old(self).subrip_blocks,
            final(self).player == old(self).player,
            final(self).state.width == input.width,
            final(self).model.media_duration_ms == old(self).model.media_duration_ms,
            ({
                let scrolled = Self::scrolled(
                    old(self).model,
                    input.contains_pointer,
                    input.scroll_x as int,
                    input.scroll_y as int,
                );
                &&& final(self).model.millis_per_pixel == scrolled.0
                &&& (
                final(self).model.duration_range[0] as int,
                final(self).model.duration_range[1] as int,
                ) == if old(self).state.width != input.width {
                    window_for(
                        scrolled.1,
                        scrolled.0 * input.width,
                        old(self).model.media_duration_ms as int,
                    )
                } else {
                    (scrolled.1, scrolled.2)
                }
            }),
            r.cursor == match final(self).cursor_offset() {
                Some(offset) => Some(
                    upright(
                        input.rect.min.x + offset,
                        input.rect.min.y as int,
                        input.rect.max.y as int,
                    ),
                ),
                None => None,
            },
            r.hover_cursor == Self::spec_hover_cursor(
                input.rect,
                input.hover_pos,
                input.double_clicked,
            ),
            final(self).has_ticks(r.ticks@, input.rect),
    {
        self.update_input_event(input.contains_pointer, input.scroll_x, input.scroll_y);
        self.update_duration_range(input.width);
        self.state.width = input.width;
        let cursor = self.draw_cursor(&input.rect);
        let hover_cursor = self.draw_hovered_cursor(
            &input.rect,
            input.hover_pos,
            input.double_clicked,
        );
        let ticks = self.draw_ticks(&input.rect);
        TimelineView { cursor, hover_cursor, ticks }
    }

    /// Whether block `index` is there and its cue is in `cues`.
    pub open spec fn has_block(&self, index: int, cues: Seq<Subrip>) -> bool {
        &&& 0 <= index < self.subrip_blocks@.len()
        &&& self.subrip_blocks@[index].subrip < cues.len()
        &&& cues[self.subrip_blocks@[index].subrip as int].wf()
    }

    /// Whether block `index` is there and its cue is in `cues`.
    pub fn is_block_usable(&self, index: usize, cues: &Vec<Subrip>) -> (r: bool)
        ensures
            r == self.has_block(index as int, cues@),
    {
        if index >= self.subrip_blocks.len() {
            return false;
        }
        let place = self.subrip_blocks[index].subrip;
        if place >= cues.len() {
            return false;
        }
        cues[place].begin_time.millis < MILLIS_PER_DAY && cues[place].end_time.millis
            < MILLIS_PER_DAY
    }

    /// The rectangle that block `index` takes up in this frame on a
    /// timeline drawn in `timeline_rect`, or nothing where its cue has no
    /// part in the window.
    pub fn block_paint_rect(&self, index: usize, cues: &Vec<Subrip>, timeline_rect: &Rect) -> (r:
        Option<Rect>)
        requires
            self.wf(),
            self.has_block(index as int, cues@),
        ensures
            ({
                let block = self.subrip_blocks@[index as int];
                let cue = cues@[block.subrip as int];
                r == if in_window(
                    cue.begin_time.millis as int,
                    cue.end_time.millis as int,
                    self.model.duration_range[0] as int,
                    self.model.duration_range[1] as int,
                ) {
                    Some(
                        block_rect(
                            *timeline_rect,
                            BLOCK_TOP as int,
                            block_x(
                                cue.begin_time.millis as int,
                                self.model.duration_range[0] as int,
                                self.model.millis_per_pixel as int,
                            ),
                            block.state.pos.y as int,
                            block_width(
                                cue.begin_time.millis as int,
                                cue.end_time.millis as int,
                                self.model.duration_range[0] as int,
                                self.model.millis_per_pixel as int,
                            ),
                        ),
                    )
                } else {
                    None
                }
            }),
    {
        let place = self.subrip_blocks[index].subrip;
        self.subrip_blocks[index].paint_rect(&cues[place], &self.model, timeline_rect)
    }

    /// One frame of block `index` on a timeline drawn in `timeline_rect`:
    /// the block and its cue go through the frame, and every other block
    /// and cue stays as it is.
    pub fn draw_block(
        &mut self,
        index: usize,
        cues: &mut Vec<Subrip>,
        timeline_rect: &Rect,
        input: &BlockInput,
    ) -> (r: Option<BlockView>)
        requires
            old(self).wf(),
            old(self).has_block(index as int, old(cues)@),
        ensures
            final(self).wf(),
            final(self).model == old(self).model,
            final(self).state == old(self).state,
            final(self).screen_width == old(self).screen_width,
            final(self).default_height == old(self).default_height,
            final(self).player == old(self).player,
            final(self).subrip_blocks@.len() == old(self).subrip_blocks@.len(),
            final(cues)@.len() == old(cues)@.len(),
            forall|i: int|
                0 <= i < final(self).subrip_blocks@.len() && i != index ==> final(self)
                    .subrip_blocks@[i] == old(self).subrip_blocks@[i],
            forall|i: int|
                0 <= i < final(cues)@.len() && i != old(self).subrip_blocks@[index as int].subrip
                    ==> final(cues)@[i] == old(cues)@[i],
            final(cues)@[old(self).subrip_blocks@[index as int].subrip as int].wf(),
            SubripBlock::timeline_frame(
                old(self).subrip_blocks@[index as int],
                old(cues)@[old(self).subrip_blocks@[index as int].subrip as int],
                old(self).model,
                *timeline_rect,
                *input,
                final(self).subrip_blocks@[index as int],
                final(cues)@[old(self).subrip_blocks@[index as int].subrip as int],
                r,
            ),
    {
        let place = self.subrip_blocks[index].subrip;
        let mut block = self.subrip_blocks[index];
        let mut cue = cues[place].clone();
        let view = block.draw_on_timeline(&mut cue, &self.model, timeline_rect, input);
        self.subrip_blocks.set(index, block);
        cues.set(place, cue);
        view
    }
}

/// Rounded quotients keep the order of what is divided.
proof fn lemma_round_div_monotone(n1: int, n2: int, d: int)
    requires
        0 <= n1 <= n2,
        0 < d,
    ensures
        round_div(n1, d) <= round_div(n2, d),
{
    assert((2 * n1 + d) / (2 * d) <= (2 * n2 + d) / (2 * d)) by (nonlinear_arith)
        requires
            0 <= n1 <= n2,
            0 < d,
    ;
}

} // verus!
