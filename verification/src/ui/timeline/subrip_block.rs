//! The cue block: one cue as a rectangle on the timeline that can be
//! dragged by its body and trimmed by its edges.

use crate::geometry::{bounding_rect, pixel, to_pixel, Pos2, Rect};
use crate::subrip::Subrip;
use crate::time::{minute_text, wrapped_millis, MILLIS_PER_DAY};
use crate::utils::{range_contains_subrange, range_contains_timestamp_spec};
use crate::ui::timeline::granularity::GranularityModel;
use vstd::prelude::*;
use vstd::string::StringExecFns;

verus! {

/// Width of a block's border.
pub const BORDER_NORMAL_WIDTH: i64 = 1;

/// Width of the band at either edge of a block in which the pointer trims
/// the cue instead of moving it.
pub const BORDER_HOVER_RANGE: i64 = 8;

/// Width of the border of an edge under the pointer.
pub const BORDER_HOVERED_WIDTH: i64 = 2;

/// Height of a block.
pub const BLOCK_HEIGHT: i64 = 50;

/// Distance from the top of the timeline to the top of its blocks.
pub const BLOCK_TOP: i64 = 64;

/// Distance between a block's left edge and its text, and between the text
/// and the right edge.
pub const TEXT_MARGIN: i64 = 5;

/// What a drag of the pointer does to the cue of a block.
#[derive(Clone, Copy, Debug, PartialEq, Eq, Structural)]
pub enum DragMode {
    /// No drag is under way.
    Idle,
    /// The body is dragged: begin and end move together.
    Moving,
    /// The left edge is dragged: the begin moves.
    ResizingLeft,
    /// The right edge is dragged: the end moves.
    ResizingRight,
}

/// What a block remembers between frames.
#[derive(Clone, Copy, Debug, PartialEq, Eq, Structural)]
pub struct SubripBlockState {
    /// Where the block stands, relative to the area it is drawn in.
    pub pos: Pos2,
    /// The rectangle the block took up when it was last laid out.
    pub rect: Rect,
    /// The drag that is under way.
    pub dragging_mode: DragMode,
    /// Where the pointer was when the drag was last followed.
    pub drag_anchor: Pos2,
}

/// What the pointer does to a block in one frame, as the toolkit reports it
/// for the block's rectangle.
#[derive(Clone, Copy, Debug, PartialEq, Eq, Structural)]
pub struct BlockInput {
    /// The pointer is over the block.
    pub hovered: bool,
    /// Where the pointer hovers, if it is over the block.
    pub hover_pos: Option<Pos2>,
    /// Where the pointer is while it presses or drags the block.
    pub interact_pos: Option<Pos2>,
    /// Where the pointer was last seen.
    pub latest_pos: Option<Pos2>,
    /// A drag of the block began in this frame.
    pub drag_started: bool,
    /// The pointer let go of the block in this frame.
    pub drag_stopped: bool,
}

/// The lines of the tooltip of a block.
#[derive(Debug)]
pub struct BlockTooltip {
    /// Where the tooltip is shown.
    pub pos: Pos2,
    /// Begin and end of the cue, as `mm:ss --> mm:ss`.
    pub times: String,
    /// The text of the cue.
    pub content: String,
}

/// What there is to paint of a block in one frame.
#[derive(Debug)]
pub struct BlockView {
    /// The rectangle the block takes up.
    pub rect: Rect,
    /// The body, between the two borders.
    pub body: Rect,
    /// The body is shown as under the pointer.
    pub body_hovered: bool,
    /// The left border.
    pub left_border: Rect,
    /// The wider left border of an edge under the pointer.
    pub left_highlight: Option<Rect>,
    /// The right border.
    pub right_border: Rect,
    /// The wider right border of an edge under the pointer.
    pub right_highlight: Option<Rect>,
    /// Top-left corner of the text.
    pub text_pos: Pos2,
    /// Width at which the text wraps.
    pub text_width: i64,
    /// The text of the cue.
    pub text: String,
    /// The tooltip, while the pointer is inside the block.
    pub tooltip: Option<BlockTooltip>,
}

/// A block of the timeline. It holds the place of its cue in the cue store,
/// never the cue itself.
#[derive(Clone, Copy, Debug)]
pub struct SubripBlock {
    pub state: SubripBlockState,
    /// The place of the cue in the cue store.
    pub subrip: usize,
}

/// Whether a cue from `begin` to `end` has any part in the window, ends
/// included.
pub open spec fn in_window(begin: int, end: int, window_begin: int, window_end: int) -> bool {
    !(begin > window_end || end < window_begin)
}

/// Pixels from the left edge of the window to the begin of the cue;
/// negative where the cue began before the window.
pub open spec fn begin_offset_px(begin: int, window_begin: int, granularity: int) -> int {
    (begin - window_begin) / granularity
}

/// Pixels that the cue's duration takes up; negative while begin and end
/// are crossed.
pub open spec fn duration_px(begin: int, end: int, granularity: int) -> int {
    (end - begin) / granularity
}

/// Left edge of a block, in pixels from the left edge of the window: where
/// the cue begins, or the edge of the window for a cue that began before it.
pub open spec fn block_x(begin: int, window_begin: int, granularity: int) -> int {
    if begin_offset_px(begin, window_begin, granularity) < 0 {
        0
    } else {
        begin_offset_px(begin, window_begin, granularity)
    }
}

/// Width of a block: the pixels of the cue's duration, less what lies
/// before the window.
pub open spec fn block_width(begin: int, end: int, window_begin: int, granularity: int) -> int {
    if begin_offset_px(begin, window_begin, granularity) < 0 {
        duration_px(begin, end, granularity) + begin_offset_px(begin, window_begin, granularity)
    } else {
        duration_px(begin, end, granularity)
    }
}

/// The rectangle of a block `width` pixels wide that stands `x` pixels
/// right of the left edge of `area` and `y` pixels below the line on which
/// blocks are drawn.
pub open spec fn block_rect(area: Rect, top: int, x: int, y: int, width: int) -> Rect {
    bounding_rect(
        area.min.x + x,
        area.min.y + top + y,
        area.min.x + x + width,
        area.min.y + top + y + BLOCK_HEIGHT,
    )
}

/// Whether the pointer hovers in the band at the left edge of `rect`.
pub open spec fn in_left_band(rect: Rect, hover_pos: Option<Pos2>) -> bool {
    hover_pos matches Some(p) && rect.min.x <= p.x < rect.min.x + BORDER_HOVER_RANGE
}

/// Whether the pointer hovers in the band at the right edge of `rect`.
pub open spec fn in_right_band(rect: Rect, hover_pos: Option<Pos2>) -> bool {
    hover_pos matches Some(p) && rect.max.x - BORDER_HOVER_RANGE < p.x <= rect.max.x
}

/// Whether the pointer hovers over the block outside both bands.
pub open spec fn in_body(rect: Rect, input: BlockInput) -> bool {
    !in_left_band(rect, input.hover_pos) && !in_right_band(rect, input.hover_pos) && input.hovered
}

/// The drag that a press in this frame begins, if any: the left band goes
/// before the right one, and both before the body.
pub open spec fn pressed_mode(rect: Rect, input: BlockInput) -> Option<DragMode> {
    if !input.drag_started {
        None
    } else if in_left_band(rect, input.hover_pos) {
        Some(DragMode::ResizingLeft)
    } else if in_right_band(rect, input.hover_pos) {
        Some(DragMode::ResizingRight)
    } else if in_body(rect, input) {
        Some(DragMode::Moving)
    } else {
        None
    }
}

/// Mode and anchor once a press of this frame is taken up: a press begins
/// its drag where the pointer is; without one, or without a pointer, both
/// stay.
pub open spec fn after_press(mode: DragMode, anchor: Pos2, rect: Rect, input: BlockInput) -> (
    DragMode,
    Pos2,
) {
    match (pressed_mode(rect, input), input.interact_pos) {
        (Some(m), Some(p)) => (m, p),
        _ => (mode, anchor),
    }
}

/// Pixels that the pointer has moved since the drag was last followed.
pub open spec fn drag_delta_px(mode: DragMode, anchor: Pos2, input: BlockInput) -> int {
    match input.interact_pos {
        Some(p) if mode != DragMode::Idle => p.x - anchor.x,
        _ => 0,
    }
}

/// The anchor once the drag is followed to the pointer.
pub open spec fn after_follow(mode: DragMode, anchor: Pos2, input: BlockInput) -> Pos2 {
    match input.interact_pos {
        Some(p) if mode != DragMode::Idle => Pos2 { x: p.x, y: anchor.y },
        _ => anchor,
    }
}

/// Mode and anchor at the end of a frame: a release ends the drag and
/// clears the anchor.
pub open spec fn after_release(mode: DragMode, anchor: Pos2, input: BlockInput) -> (
    DragMode,
    Pos2,
) {
    if input.drag_stopped {
        (DragMode::Idle, Pos2 { x: 0, y: 0 })
    } else {
        (mode, anchor)
    }
}

/// Mode and anchor of a block after one frame in which it took up `rect`.
pub open spec fn drag_after_frame(mode: DragMode, anchor: Pos2, rect: Rect, input: BlockInput) -> (
    DragMode,
    Pos2,
) {
    let pressed = after_press(mode, anchor, rect, input);
    after_release(pressed.0, after_follow(pressed.0, pressed.1, input), input)
}

/// Milliseconds by which the frame shifts the cue: the pixels dragged, at
/// the granularity of the frame.
pub open spec fn drag_shift(
    mode: DragMode,
    anchor: Pos2,
    rect: Rect,
    input: BlockInput,
    granularity: int,
) -> int {
    let pressed = after_press(mode, anchor, rect, input);
    drag_delta_px(pressed.0, pressed.1, input) * granularity
}

/// The mode in which the frame follows the drag.
pub open spec fn drag_mode_in_frame(mode: DragMode, anchor: Pos2, rect: Rect, input: BlockInput)
    -> DragMode {
    after_press(mode, anchor, rect, input).0
}

/// Begin of a cue, in milliseconds, after a drag in `mode` shifted it by
/// `shift` milliseconds.
pub open spec fn begin_after_drag(mode: DragMode, begin: int, shift: int) -> int {
    match mode {
        DragMode::Moving | DragMode::ResizingLeft => wrapped_millis(begin, shift),
        _ => begin,
    }
}

/// End of a cue, in milliseconds, after a drag in `mode` shifted it by
/// `shift` milliseconds.
pub open spec fn end_after_drag(mode: DragMode, end: int, shift: int) -> int {
    match mode {
        DragMode::Moving | DragMode::ResizingRight => wrapped_millis(end, shift),
        _ => end,
    }
}

/// `millis` milliseconds in whole seconds, the rest dropped.
pub open spec fn whole_seconds(millis: int) -> int {
    if millis >= 0 {
        millis / 1000
    } else {
        -((-millis) / 1000)
    }
}

/// By how much a frame moves a block that is drawn by itself: by the
/// pixels dragged while its body is dragged, by the whole seconds of the
/// shift while its left edge is dragged, and not at all otherwise.
pub open spec fn block_move(mode: DragMode, delta_px: int, shift: int) -> int {
    match mode {
        DragMode::Moving => delta_px,
        DragMode::ResizingLeft => whole_seconds(shift),
        _ => 0,
    }
}

/// Whether the tooltip is shown: the pointer is over the block and was last
/// seen within its rectangle.
pub open spec fn shows_tooltip(rect: Rect, input: BlockInput) -> bool {
    input.hovered && (input.latest_pos matches Some(p) && rect.spec_contains(p))
}

/// The first line of the tooltip of a cue: begin and end as minute and
/// second.
pub open spec fn tooltip_times(begin: nat, end: nat) -> Seq<char> {
    minute_text(begin) + seq![' ', '-', '-', '>', ' '] + minute_text(end)
}

impl DragMode {
    pub open spec fn is_moving(&self) -> bool {
        *self == DragMode::Moving
    }

    pub open spec fn is_resizing_left(&self) -> bool {
        *self == DragMode::ResizingLeft
    }

    pub open spec fn is_resizing_right(&self) -> bool {
        *self == DragMode::ResizingRight
    }
}

impl SubripBlockState {
    /// The state of a block that has not been laid out or touched.
    pub fn new() -> (r: Self)
        ensures
            r.pos == (Pos2 { x: 0, y: 0 }),
            r.rect == (Rect { min: Pos2 { x: 0, y: 0 }, max: Pos2 { x: 0, y: 0 } }),
            r.dragging_mode == DragMode::Idle,
            r.drag_anchor == (Pos2 { x: 0, y: 0 }),
    {
        SubripBlockState {
            pos: Pos2 { x: 0, y: 0 },
            rect: Rect { min: Pos2 { x: 0, y: 0 }, max: Pos2 { x: 0, y: 0 } },
            dragging_mode: DragMode::Idle,
            drag_anchor: Pos2 { x: 0, y: 0 },
        }
    }

    pub fn set_rect(&mut self, rect: Rect)
        ensures
            *final(self) == (SubripBlockState { rect, ..*old(self) }),
    {
        self.rect = rect;
    }
}

impl Default for SubripBlockState {
    fn default() -> (r: Self)
        ensures
            r.pos == (Pos2 { x: 0, y: 0 }),
            r.rect == (Rect { min: Pos2 { x: 0, y: 0 }, max: Pos2 { x: 0, y: 0 } }),
            r.dragging_mode == DragMode::Idle,
            r.drag_anchor == (Pos2 { x: 0, y: 0 }),
    {
        Self::new()
    }
}

/// The body of a block `width` pixels wide that takes up `rect`: what lies
/// between its borders.
pub open spec fn body_rect(rect: Rect, width: int) -> Rect {
    bounding_rect(
        rect.min.x + BORDER_NORMAL_WIDTH,
        rect.min.y as int,
        rect.min.x + width - BORDER_NORMAL_WIDTH,
        rect.max.y as int,
    )
}

/// The strip `width` pixels wide along the left edge of `rect`.
pub open spec fn left_strip(rect: Rect, width: int) -> Rect {
    bounding_rect(rect.min.x as int, rect.min.y as int, rect.min.x + width, rect.max.y as int)
}

/// The strip that starts `from` pixels right of the right edge of `rect`
/// and ends `to` pixels right of it.
pub open spec fn right_strip(rect: Rect, from: int, to: int) -> Rect {
    bounding_rect(rect.max.x + from, rect.min.y as int, rect.max.x + to, rect.max.y as int)
}

impl BlockView {
    /// Whether this is what there is to paint of a block `width` pixels
    /// wide that takes up `rect`, under the pointer of `input`, for a cue
    /// from `begin` to `end` with the text `content`: the body between the
    /// borders, shown as hovered while the pointer is over the block; an
    /// edge highlighted while the pointer is in its band; the text, which
    /// wraps at the width of the block less its margins; and, where the
    /// block has tooltips, the tooltip while the pointer is inside.
    pub open spec fn shows(
        &self,
        rect: Rect,
        width: int,
        input: BlockInput,
        begin: nat,
        end: nat,
        content: Seq<char>,
        with_tooltip: bool,
    ) -> bool {
        &&& self.rect == rect
        &&& self.body == body_rect(rect, width)
        &&& self.body_hovered == input.hovered
        &&& self.left_border == left_strip(rect, BORDER_NORMAL_WIDTH as int)
        &&& self.left_highlight == if in_left_band(rect, input.hover_pos) {
            Some(left_strip(rect, BORDER_HOVERED_WIDTH as int))
        } else {
            None
        }
        &&& self.right_border == right_strip(rect, 0, BORDER_NORMAL_WIDTH as int)
        &&& self.right_highlight == if in_right_band(rect, input.hover_pos) {
            Some(right_strip(rect, -BORDER_HOVERED_WIDTH, 0))
        } else {
            None
        }
        &&& self.text_pos == (Pos2 { x: pixel(rect.min.x + TEXT_MARGIN), y: rect.min.y })
        &&& self.text_width == width - 2 * TEXT_MARGIN
        &&& self.text@ == content
        &&& match self.tooltip {
            Some(tip) => with_tooltip && shows_tooltip(rect, input) && Some(tip.pos)
                == input.latest_pos && tip.times@ == tooltip_times(begin, end) && tip.content@
                == content,
            None => !(with_tooltip && shows_tooltip(rect, input)),
        }
    }
}

impl SubripBlock {
    /// Whether one frame on a timeline drawn in `timeline_rect` takes the
    /// block `before` and its cue `cue_before` to `after` and `cue_after`,
    /// with `view` to paint.
    ///
    /// A cue without any part in the window is skipped: nothing changes and
    /// nothing is painted. Otherwise the block is laid out where the cue
    /// begins, as wide as the cue is long; a press begins a drag, a drag
    /// under way shifts the cue and is followed to the pointer, and a
    /// release ends it. Text, index, format and flags of the cue stay.
    pub open spec fn timeline_frame(
        before: SubripBlock,
        cue_before: Subrip,
        model: GranularityModel,
        timeline_rect: Rect,
        input: BlockInput,
        after: SubripBlock,
        cue_after: Subrip,
        view: Option<BlockView>,
    ) -> bool {
        let begin = cue_before.begin_time.millis as int;
        let end = cue_before.end_time.millis as int;
        let g = model.millis_per_pixel as int;
        let x = block_x(begin, model.duration_range[0] as int, g);
        let width = block_width(begin, end, model.duration_range[0] as int, g);
        let rect = block_rect(timeline_rect, BLOCK_TOP as int, x, before.state.pos.y as int, width);
        let mode = before.state.dragging_mode;
        let anchor = before.state.drag_anchor;
        &&& cue_after.content == cue_before.content
        &&& cue_after.index == cue_before.index
        &&& cue_after.format == cue_before.format
        &&& cue_after.state == cue_before.state
        &&& after.subrip == before.subrip
        &&& if in_window(
            begin,
            end,
            model.duration_range[0] as int,
            model.duration_range[1] as int,
        ) {
            &&& after.state.rect == rect
            &&& after.state.pos == (Pos2 { x: pixel(x), y: before.state.pos.y })
            &&& (after.state.dragging_mode, after.state.drag_anchor) == drag_after_frame(
                mode,
                anchor,
                rect,
                input,
            )
            &&& cue_after.begin_time.millis == begin_after_drag(
                drag_mode_in_frame(mode, anchor, rect, input),
                begin,
                drag_shift(mode, anchor, rect, input, g),
            )
            &&& cue_after.end_time.millis == end_after_drag(
                drag_mode_in_frame(mode, anchor, rect, input),
                end,
                drag_shift(mode, anchor, rect, input, g),
            )
            &&& view matches Some(v) && v.shows(
                rect,
                width,
                input,
                cue_after.begin_time.millis as nat,
                cue_after.end_time.millis as nat,
                cue_after.content@,
                true,
            )
        } else {
            &&& view is None
            &&& after == before
            &&& cue_after.begin_time == cue_before.begin_time
            &&& cue_after.end_time == cue_before.end_time
        }
    }

    /// A block for the cue at place `subrip` of the cue store.
    pub fn new(subrip: usize) -> (r: Self)
        ensures
            r.subrip == subrip,
            r.state.dragging_mode == DragMode::Idle,
            r.state.pos == (Pos2 { x: 0, y: 0 }),
            r.state.drag_anchor == (Pos2 { x: 0, y: 0 }),
            r.state.rect == (Rect { min: Pos2 { x: 0, y: 0 }, max: Pos2 { x: 0, y: 0 } }),
    {
        Self { state: SubripBlockState::new(), subrip }
    }

    /// Begin and end of the cue in milliseconds since midnight.
    pub fn get_duration_range(&self, cue: &Subrip) -> (r: [i64; 2])
        requires
            cue.wf(),
        ensures
            r[0] == cue.begin_time.millis,
            r[1] == cue.end_time.millis,
    {
        let begin = cue.get_begin_time().millis as i64;
        let end = begin + cue.get_duration();
        [begin, end]
    }

    /// Whether begin and end of the cue both lie in `range`, its end
    /// excluded.
    pub fn is_containsed_in_range(&self, cue: &Subrip, range: &[i64; 2]) -> (r: bool)
        requires
            cue.wf(),
        ensures
            r == (range_contains_timestamp_spec(*range, cue.begin_time.millis as i64)
                && range_contains_timestamp_spec(*range, cue.end_time.millis as i64)),
    {
        let own = self.get_duration_range(cue);
        range_contains_subrange(range, &own)
    }

    /// Whether the pointer hovers in the band at the left edge of the block.
    pub fn is_hovered_left(&self, input: &BlockInput) -> (r: bool)
        ensures
            r == in_left_band(self.state.rect, input.hover_pos),
    {
        match input.hover_pos {
            Some(p) => {
                let x = p.x as i64;
                let left = self.state.rect.min.x as i64;
                left <= x && x < left + BORDER_HOVER_RANGE
            },
            None => false,
        }
    }

    /// Whether the pointer hovers in the band at the right edge of the
    /// block.
    pub fn is_hovered_right(&self, input: &BlockInput) -> (r: bool)
        ensures
            r == in_right_band(self.state.rect, input.hover_pos),
    {
        match input.hover_pos {
            Some(p) => {
                let x = p.x as i64;
                let right = self.state.rect.max.x as i64;
                right - BORDER_HOVER_RANGE < x && x <= right
            },
            None => false,
        }
    }

    /// Whether the pointer hovers over the block outside both bands.
    pub fn is_hovered_body(&self, input: &BlockInput) -> (r: bool)
        ensures
            r == in_body(self.state.rect, *input),
    {
        !self.is_hovered_left(input) && !self.is_hovered_right(input) && input.hovered
    }

    pub fn is_deleted(&self, cue: &Subrip) -> (r: bool)
        ensures
            r == cue.state.is_deleted,
    {
        cue.is_deleted()
    }

    /// The rectangle that the block takes up on a timeline drawn in
    /// `timeline_rect`, or nothing where the cue has no part in the window.
    pub fn paint_rect(&self, cue: &Subrip, model: &GranularityModel, timeline_rect: &Rect) -> (r:
        Option<Rect>)
        requires
            cue.wf(),
            model.wf(),
        ensures
            r == if in_window(
                cue.begin_time.millis as int,
                cue.end_time.millis as int,
                model.duration_range[0] as int,
                model.duration_range[1] as int,
            ) {
                Some(
                    block_rect(
                        *timeline_rect,
                        BLOCK_TOP as int,
                        block_x(
                            cue.begin_time.millis as int,
                            model.duration_range[0] as int,
                            model.millis_per_pixel as int,
                        ),
                        self.state.pos.y as int,
                        block_width(
                            cue.begin_time.millis as int,
                            cue.end_time.millis as int,
                            model.duration_range[0] as int,
                            model.millis_per_pixel as int,
                        ),
                    ),
                )
            } else {
                None
            },
    {
        let begin = cue.begin_time.millis as i64;
        let end = cue.end_time.millis as i64;
        if begin > model.duration_range[1] || end < model.duration_range[0] {
            return None;
        }
        let placed = Self::place(begin, end, model);
        Some(Self::rect_at(timeline_rect, BLOCK_TOP, placed.0, self.state.pos.y, placed.1))
    }

    /// Left edge and width of the block of a cue from `begin` to `end`, in
    /// pixels from the left edge of the window.
    fn place(begin: i64, end: i64, model: &GranularityModel) -> (r: (i64, i64))
        requires
            model.wf(),
            0 <= begin < MILLIS_PER_DAY,
            0 <= end < MILLIS_PER_DAY,
        ensures
            r.0 == block_x(
                begin as int,
                model.duration_range[0] as int,
                model.millis_per_pixel as int,
            ),
            r.1 == block_width(
                begin as int,
                end as int,
                model.duration_range[0] as int,
                model.millis_per_pixel as int,
            ),
            0 <= r.0 <= MILLIS_PER_DAY,
            -2_000_000_000_000 <= r.1 <= MILLIS_PER_DAY,
    {
        let delta_pixs = model.pixels_of_millis(begin - model.duration_range[0]);
        let duration_pixs = model.pixels_of_millis(end - begin);
        if delta_pixs < 0 {
            (0, duration_pixs + delta_pixs)
        } else {
            (delta_pixs, duration_pixs)
        }
    }

    /// The rectangle of a block `width` pixels wide that stands `x` pixels
    /// right of the left edge of `area`.
    fn rect_at(area: &Rect, top: i64, x: i64, y: i32, width: i64) -> (r: Rect)
        requires
            0 <= top <= 64,
            0 <= x <= MILLIS_PER_DAY,
            -2_000_000_000_000 <= width <= MILLIS_PER_DAY,
        ensures
            r == block_rect(*area, top as int, x as int, y as int, width as int),
            r.wf(),
    {
        let left = area.min.x as i64 + x;
        let top = area.min.y as i64 + top + y as i64;
        Rect::from_points(left, top, left + width, top + BLOCK_HEIGHT)
    }

    /// Takes up a press of this frame, and follows the drag under way to
    /// the pointer. Returns the mode in which the frame follows the drag
    /// and the pixels by which the pointer has moved.
    fn follow_pointer(&mut self, input: &BlockInput) -> (r: (DragMode, i64))
        ensures
            r.0 == drag_mode_in_frame(
                old(self).state.dragging_mode,
                old(self).state.drag_anchor,
                old(self).state.rect,
                *input,
            ),
            r.1 == drag_delta_px(
                r.0,
                after_press(
                    old(self).state.dragging_mode,
                    old(self).state.drag_anchor,
                    old(self).state.rect,
                    *input,
                ).1,
                *input,
            ),
            (final(self).state.dragging_mode, final(self).state.drag_anchor) == drag_after_frame(
                old(self).state.dragging_mode,
                old(self).state.drag_anchor,
                old(self).state.rect,
                *input,
            ),
            final(self).state.rect == old(self).state.rect,
            final(self).state.pos == old(self).state.pos,
            final(self).subrip == old(self).subrip,
    {
        if input.drag_started {
            let pressed = if self.is_hovered_left(input) {
                Some(DragMode::ResizingLeft)
            } else if self.is_hovered_right(input) {
                Some(DragMode::ResizingRight)
            } else if self.is_hovered_body(input) {
                Some(DragMode::Moving)
            } else {
                None
            };
            match (pressed, input.interact_pos) {
                (Some(mode), Some(p)) => {
                    self.state.dragging_mode = mode;
                    self.state.drag_anchor = p;
                },
                _ => {},
            }
        }
        let mode = self.state.dragging_mode;
        let mut delta: i64 = 0;
        match input.interact_pos {
            Some(p) => {
                if mode != DragMode::Idle {
                    delta = p.x as i64 - self.state.drag_anchor.x as i64;
                    self.state.drag_anchor.x = p.x;
                }
            },
            None => {},
        }
        if input.drag_stopped {
            self.state.drag_anchor = Pos2 { x: 0, y: 0 };
            self.state.dragging_mode = DragMode::Idle;
        }
        (mode, delta)
    }

    /// Shifts the cue as a drag in `mode` by `shift` milliseconds does.
    fn apply_drag(cue: &mut Subrip, mode: DragMode, shift: i64)
        requires
            old(cue).wf(),
        ensures
            final(cue).wf(),
            final(cue).begin_time.millis == begin_after_drag(
                mode,
                old(cue).begin_time.millis as int,
                shift as int,
            ),
            final(cue).end_time.millis == end_after_drag(
                mode,
                old(cue).end_time.millis as int,
                shift as int,
            ),
            final(cue).content == old(cue).content,
            final(cue).index == old(cue).index,
            final(cue).format == old(cue).format,
            final(cue).state == old(cue).state,
    {
        match mode {
            DragMode::Moving => {
                cue.add_begin_delta(shift);
                cue.add_end_delta(shift);
            },
            DragMode::ResizingLeft => {
                cue.add_begin_delta(shift);
            },
            DragMode::ResizingRight => {
                cue.add_end_delta(shift);
            },
            DragMode::Idle => {},
        }
    }

    /// What there is to paint of the block as it was last laid out.
    fn view(&self, width: i64, input: &BlockInput, cue: &Subrip, with_tooltip: bool) -> (r:
        BlockView)
        requires
            -2_000_000_000_000 <= width <= MILLIS_PER_DAY,
        ensures
            r.shows(
                self.state.rect,
                width as int,
                *input,
                cue.begin_time.millis as nat,
                cue.end_time.millis as nat,
                cue.content@,
                with_tooltip,
            ),
    {
        let rect = self.state.rect;
        let left = rect.min.x as i64;
        let right = rect.max.x as i64;
        let top = rect.min.y as i64;
        let bottom = rect.max.y as i64;
        let tooltip = match input.latest_pos {
            Some(p) => {
                if with_tooltip && input.hovered && rect.contains(p) {
                    let mut times = cue.begin_time.to_minute_text();
                    times.append(" --> ");
                    times.append(cue.end_time.to_minute_text().as_str());
                    proof {
                        reveal_strlit(" --> ");
                        assert(times@ =~= tooltip_times(
                            cue.begin_time.millis as nat,
                            cue.end_time.millis as nat,
                        ));
                    }
                    Some(BlockTooltip { pos: p, times, content: cue.get_content() })
                } else {
                    None
                }
            },
            None => None,
        };
        BlockView {
            rect,
            body: Rect::from_points(
                left + BORDER_NORMAL_WIDTH,
                top,
                left + width - BORDER_NORMAL_WIDTH,
                bottom,
            ),
            body_hovered: input.hovered,
            left_border: Rect::from_points(left, top, left + BORDER_NORMAL_WIDTH, bottom),
            left_highlight: if self.is_hovered_left(input) {
                Some(Rect::from_points(left, top, left + BORDER_HOVERED_WIDTH, bottom))
            } else {
                None
            },
            right_border: Rect::from_points(right, top, right + BORDER_NORMAL_WIDTH, bottom),
            right_highlight: if self.is_hovered_right(input) {
                Some(Rect::from_points(right - BORDER_HOVERED_WIDTH, top, right, bottom))
            } else {
                None
            },
            text_pos: Pos2 { x: to_pixel(left + TEXT_MARGIN), y: rect.min.y },
            text_width: width - 2 * TEXT_MARGIN,
            text: cue.get_content(),
            tooltip,
        }
    }

    /// One frame of the block on a timeline drawn in `timeline_rect`.
    ///
    /// A cue without any part in the window is skipped: nothing changes and
    /// nothing is to be painted. Otherwise the block is laid out; a press
    /// in one of its edge bands or on its body begins a drag; a drag under
    /// way shifts the cue by the time that the pixels moved stand for and
    /// is then followed to the pointer; a release ends it. What comes back
    /// is what there is to paint, with the cue as the frame leaves it.
    ///
    /// `input` is the pointer as reported for the rectangle that
    /// `paint_rect` gives for this frame.
    pub fn draw_on_timeline(
        &mut self,
        cue: &mut Subrip,
        model: &GranularityModel,
        timeline_rect: &Rect,
        input: &BlockInput,
    ) -> (r: Option<BlockView>)
        requires
            old(cue).wf(),
            model.wf(),
        ensures
            final(cue).wf(),
            Self::timeline_frame(
                *old(self),
                *old(cue),
                *model,
                *timeline_rect,
                *input,
                *final(self),
                *final(cue),
                r,
            ),
    {
        let begin = cue.begin_time.millis as i64;
        let end = cue.end_time.millis as i64;
        if begin > model.duration_range[1] || end < model.duration_range[0] {
            return None;
        }
        let placed = Self::place(begin, end, model);
        self.state.pos.x = to_pixel(placed.0);
        let rect = Self::rect_at(timeline_rect, BLOCK_TOP, placed.0, self.state.pos.y, placed.1);
        self.state.set_rect(rect);
        let followed = self.follow_pointer(input);
        let shift = Self::shift_of(followed.1, model);
        Self::apply_drag(cue, followed.0, shift);
        Some(self.view(placed.1, input, cue, true))
    }

    /// The time in milliseconds that a drag over `delta` pixels stands for.
    fn shift_of(delta: i64, model: &GranularityModel) -> (r: i64)
        requires
            model.wf(),
            -0x1_0000_0000 <= delta <= 0x1_0000_0000,
        ensures
            r == delta * model.millis_per_pixel,
    {
        assert(-0x1_0000_0000 * 3000 <= delta * model.millis_per_pixel <= 0x1_0000_0000 * 3000)
            by (nonlinear_arith)
            requires
                -0x1_0000_0000 <= delta <= 0x1_0000_0000,
                0 <= model.millis_per_pixel <= 3000,
        ;
        delta * model.millis_per_pixel as i64
    }
    /// One frame of the block drawn by itself in `area`, at the place it
    /// has been dragged to: it is as wide as the cue is long. Presses,
    /// drags and releases are taken as on the timeline; dragging the body
    /// or the left edge also moves the block, as `block_move` says. There
    /// is no tooltip.
    pub fn draw(
        &mut self,
        cue: &mut Subrip,
        model: &GranularityModel,
        area: &Rect,
        input: &BlockInput,
    ) -> (r: BlockView)
        requires
            old(cue).wf(),
            model.wf(),
        ensures
            final(cue).wf(),
            final(cue).content == old(cue).content,
            final(cue).index == old(cue).index,
            final(cue).format == old(cue).format,
            final(cue).state == old(cue).state,
            final(self).subrip == old(self).subrip,
            ({
                let begin = old(cue).begin_time.millis as int;
                let end = old(cue).end_time.millis as int;
                let g = model.millis_per_pixel as int;
                let width = duration_px(begin, end, g);
                let rect = block_rect(
                    *area,
                    0,
                    old(self).state.pos.x as int,
                    old(self).state.pos.y as int,
                    width,
                );
                let mode = old(self).state.dragging_mode;
                let anchor = old(self).state.drag_anchor;
                let in_mode = drag_mode_in_frame(mode, anchor, rect, *input);
                let pressed = after_press(mode, anchor, rect, *input);
                &&& final(self).state.rect == rect
                &&& final(self).state.pos == (Pos2 {
                    x: pixel(
                        old(self).state.pos.x + block_move(
                            in_mode,
                            drag_delta_px(in_mode, pressed.1, *input),
                            drag_shift(mode, anchor, rect, *input, g),
                        ),
                    ),
                    y: old(self).state.pos.y,
                })
                &&& (final(self).state.dragging_mode, final(self).state.drag_anchor)
                    == drag_after_frame(mode, anchor, rect, *input)
                &&& final(cue).begin_time.millis == begin_after_drag(
                    in_mode,
                    begin,
                    drag_shift(mode, anchor, rect, *input, g),
                )
                &&& final(cue).end_time.millis == end_after_drag(
                    in_mode,
                    end,
                    drag_shift(mode, anchor, rect, *input, g),
                )
                &&& r.shows(
                    rect,
                    width,
                    *input,
                    final(cue).begin_time.millis as nat,
                    final(cue).end_time.millis as nat,
                    final(cue).content@,
                    false,
                )
            }),
    {
        let begin = cue.begin_time.millis as i64;
        let end = cue.end_time.millis as i64;
        let width = model.pixels_of_millis(end - begin);
        let left = area.min.x as i64 + self.state.pos.x as i64;
        let top = area.min.y as i64 + self.state.pos.y as i64;
        let rect = Rect::from_points(left, top, left + width, top + BLOCK_HEIGHT);
        self.state.set_rect(rect);
        let followed = self.follow_pointer(input);
        let shift = Self::shift_of(followed.1, model);
        Self::apply_drag(cue, followed.0, shift);
        match followed.0 {
            DragMode::Moving => {
                self.state.pos.x = to_pixel(self.state.pos.x as i64 + followed.1);
            },
            DragMode::ResizingLeft => {
                self.state.pos.x = to_pixel(self.state.pos.x as i64 + shift / 1000);
            },
            _ => {},
        }
        self.view(width, input, cue, false)
    }
}

/// A block is in at most one of the three drags at any time.
pub proof fn lemma_drag_modes_exclude_each_other(state: SubripBlockState)
    ensures
        !(state.dragging_mode.is_moving() && state.dragging_mode.is_resizing_left()),
        !(state.dragging_mode.is_moving() && state.dragging_mode.is_resizing_right()),
        !(state.dragging_mode.is_resizing_left() && state.dragging_mode.is_resizing_right()),
        state.dragging_mode == DragMode::Idle <==> !(state.dragging_mode.is_moving()
            || state.dragging_mode.is_resizing_left() || state.dragging_mode.is_resizing_right()),
{
}

/// A drag that begins at rest and ends with the pointer where it began
/// leaves the cue as it was: whatever the block's rectangle, the
/// granularity and the rest of the pointer's state in the frame of the
/// press and in the frame of the release, begin and end come out unchanged
/// and the block is at rest again.
pub proof fn lemma_still_drag_keeps_times(
    anchor: Pos2,
    press_rect: Rect,
    press: BlockInput,
    press_granularity: int,
    release_rect: Rect,
    release: BlockInput,
    release_granularity: int,
    begin: int,
    end: int,
)
    requires
        0 <= begin < MILLIS_PER_DAY,
        0 <= end < MILLIS_PER_DAY,
        press.drag_started,
        release.drag_stopped,
        press.interact_pos == release.interact_pos,
    ensures
        ({
            let idle = DragMode::Idle;
            let held = drag_after_frame(idle, anchor, press_rect, press);
            let begin_held = begin_after_drag(
                drag_mode_in_frame(idle, anchor, press_rect, press),
                begin,
                drag_shift(idle, anchor, press_rect, press, press_granularity),
            );
            let end_held = end_after_drag(
                drag_mode_in_frame(idle, anchor, press_rect, press),
                end,
                drag_shift(idle, anchor, press_rect, press, press_granularity),
            );
            let released = drag_after_frame(held.0, held.1, release_rect, release);
            &&& begin_after_drag(
                drag_mode_in_frame(held.0, held.1, release_rect, release),
                begin_held,
                drag_shift(held.0, held.1, release_rect, release, release_granularity),
            ) == begin
            &&& end_after_drag(
                drag_mode_in_frame(held.0, held.1, release_rect, release),
                end_held,
                drag_shift(held.0, held.1, release_rect, release, release_granularity),
            ) == end
            &&& released.0 == DragMode::Idle
        }),
{
    let idle = DragMode::Idle;
    let pressed = after_press(idle, anchor, press_rect, press);
    assert(drag_delta_px(pressed.0, pressed.1, press) == 0);
    assert(drag_shift(idle, anchor, press_rect, press, press_granularity) == 0);
    let held = drag_after_frame(idle, anchor, press_rect, press);
    let again = after_press(held.0, held.1, release_rect, release);
    assert(drag_delta_px(again.0, again.1, release) == 0);
    assert(drag_shift(held.0, held.1, release_rect, release, release_granularity) == 0);
}

/// A drag of the body over `delta` pixels shifts begin and end alike by
/// the time that the pixels stand for; a drag of the left edge shifts the
/// begin alone, and one of the right edge the end alone.
pub proof fn lemma_drag_shifts_by_pixels(
    mode: DragMode,
    anchor: Pos2,
    rect: Rect,
    input: BlockInput,
    granularity: int,
    begin: int,
    end: int,
)
    requires
        mode != DragMode::Idle,
        !input.drag_started,
        input.interact_pos is Some,
    ensures
        ({
            let shift = (input.interact_pos->0.x - anchor.x) * granularity;
            &&& drag_shift(mode, anchor, rect, input, granularity) == shift
            &&& drag_mode_in_frame(mode, anchor, rect, input) == mode
            &&& mode == DragMode::Moving ==> begin_after_drag(mode, begin, shift) == wrapped_millis(
                begin,
                shift,
            ) && end_after_drag(mode, end, shift) == wrapped_millis(end, shift)
            &&& mode == DragMode::ResizingLeft ==> begin_after_drag(mode, begin, shift)
                == wrapped_millis(begin, shift) && end_after_drag(mode, end, shift) == end
            &&& mode == DragMode::ResizingRight ==> begin_after_drag(mode, begin, shift) == begin
                && end_after_drag(mode, end, shift) == wrapped_millis(end, shift)
        }),
{
}

} // verus!
