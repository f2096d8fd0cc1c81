//! The granularity model: how much time one pixel stands for, and which
//! stretch of the media is on screen.
//!
//! Granularity is counted in milliseconds per pixel, times in milliseconds,
//! so that every conversion between the two is exact integer arithmetic.

use vstd::prelude::*;

verus! {

/// The finest granularity, 16 ms per pixel.
pub const MIN_GRANULARITY: u32 = 16;

/// The coarsest granularity, 3 s per pixel.
pub const MAX_GRANULARITY: u32 = 3000;

/// What one step of zooming adds to or takes from the granularity.
pub const GRANULARITY_STEP: u32 = 10;

/// The granularity of a timeline before any media is known.
pub const DEFAULT_GRANULARITY: u32 = 100;

/// Media durations beyond this many seconds are taken as this many.
pub const MAX_MEDIA_DURATION_S: i64 = 1_000_000_000;

/// `requested`, saturated into the granularities allowed.
pub open spec fn clamp_granularity(requested: int) -> u32 {
    if requested < MIN_GRANULARITY {
        MIN_GRANULARITY
    } else if requested > MAX_GRANULARITY {
        MAX_GRANULARITY
    } else {
        requested as u32
    }
}

/// The distance in pixels between two ticks of the ruler at a granularity
/// of `millis_per_pixel`: the first rung of 8, 16, 32 that one second,
/// measured in pixels, falls short of, and 64 where it falls short of none.
pub open spec fn tick_step_px(millis_per_pixel: int) -> int {
    if 1000 < 8 * millis_per_pixel {
        8
    } else if 1000 < 16 * millis_per_pixel {
        16
    } else if 1000 < 32 * millis_per_pixel {
        32
    } else {
        64
    }
}

/// `n / d`, rounded to the nearest whole number, halves upwards.
pub open spec fn round_div(n: int, d: int) -> int {
    (2 * n + d) / (2 * d)
}

/// -1, 0 or 1 as `v` is negative, zero or positive.
pub open spec fn sign(v: int) -> int {
    if v > 0 {
        1
    } else if v < 0 {
        -1
    } else {
        0
    }
}

/// The media duration in milliseconds that a duration of `seconds` is taken
/// for: negative durations count as none, and overlong ones are cut.
pub open spec fn media_millis(seconds: int) -> int {
    if seconds < 0 {
        0
    } else if seconds > MAX_MEDIA_DURATION_S {
        MAX_MEDIA_DURATION_S * 1000
    } else {
        seconds * 1000
    }
}

/// The granularity at which media of `media_ms` milliseconds fills a
/// viewport `width` pixels wide, saturated into the granularities allowed.
/// No media gives the finest granularity, and media in a viewport without
/// width the coarsest.
pub open spec fn initial_granularity(media_ms: int, width: int) -> u32 {
    if media_ms <= 0 {
        MIN_GRANULARITY
    } else if width <= 0 {
        MAX_GRANULARITY
    } else {
        clamp_granularity(media_ms / width)
    }
}

/// The window of `span` milliseconds that starts at `begin`, or as close
/// before it as the end of the media allows; the whole media where the span
/// is at least as long.
pub open spec fn window_for(begin: int, span: int, media: int) -> (int, int) {
    if span >= media {
        (0, media)
    } else if begin + span > media {
        (media - span, media)
    } else {
        (begin, begin + span)
    }
}

/// The window `[begin, end]` moved by `shift` milliseconds without changing
/// its length, stopped at the start and at the end of the media.
pub open spec fn window_moved(begin: int, end: int, media: int, shift: int) -> (int, int) {
    let moved = if begin + shift < 0 {
        0
    } else {
        begin + shift
    };
    if moved + (end - begin) > media {
        (media - (end - begin), media)
    } else {
        (moved, moved + (end - begin))
    }
}

/// The granularity and the visible window of a timeline.
#[derive(Clone, Copy, Debug)]
pub struct GranularityModel {
    /// Milliseconds that one pixel stands for.
    pub millis_per_pixel: u32,
    /// Begin and end of the visible window, in milliseconds of media time.
    pub duration_range: [i64; 2],
    /// Length of the media in milliseconds.
    pub media_duration_ms: i64,
}

impl GranularityModel {
    /// The granularity is one of those allowed, and the window lies within
    /// the media.
    pub open spec fn wf(&self) -> bool {
        &&& MIN_GRANULARITY <= self.millis_per_pixel <= MAX_GRANULARITY
        &&& 0 <= self.duration_range[0] <= self.duration_range[1] <= self.media_duration_ms
        &&& self.media_duration_ms <= MAX_MEDIA_DURATION_S * 1000
    }

    /// Whether the model is well formed.
    pub fn is_wf(&self) -> (r: bool)
        ensures
            r == self.wf(),
    {
        MIN_GRANULARITY <= self.millis_per_pixel && self.millis_per_pixel <= MAX_GRANULARITY && 0
            <= self.duration_range[0] && self.duration_range[0] <= self.duration_range[1]
            && self.duration_range[1] <= self.media_duration_ms && self.media_duration_ms
            <= MAX_MEDIA_DURATION_S * 1000
    }

    /// The model of a timeline without media: an empty window at the
    /// default granularity.
    pub fn new() -> (r: Self)
        ensures
            r.wf(),
            r.millis_per_pixel == DEFAULT_GRANULARITY,
            r.duration_range[0] == 0,
            r.duration_range[1] == 0,
            r.media_duration_ms == 0,
    {
        GranularityModel {
            millis_per_pixel: DEFAULT_GRANULARITY,
            duration_range: [0, 0],
            media_duration_ms: 0,
        }
    }

    /// Sets the granularity to `requested` milliseconds per pixel, or to
    /// the nearest granularity allowed.
    pub fn set_granularity(&mut self, requested: i64)
        ensures
            final(self).millis_per_pixel == clamp_granularity(requested as int),
            MIN_GRANULARITY <= final(self).millis_per_pixel <= MAX_GRANULARITY,
            final(self).duration_range == old(self).duration_range,
            final(self).media_duration_ms == old(self).media_duration_ms,
            old(self).wf() ==> final(self).wf(),
    {
        self.millis_per_pixel = if requested < MIN_GRANULARITY as i64 {
            MIN_GRANULARITY
        } else if requested > MAX_GRANULARITY as i64 {
            MAX_GRANULARITY
        } else {
            requested as u32
        };
    }

    pub fn get_granularity(&self) -> (r: u32)
        ensures
            r == self.millis_per_pixel,
    {
        self.millis_per_pixel
    }

    /// The time in milliseconds that `pixels` pixels stand for.
    pub fn millis_of_pixels(&self, pixels: i32) -> (r: i64)
        ensures
            r == pixels * self.millis_per_pixel,
    {
        assert(-0x8000_0000 * 0xFFFF_FFFF <= pixels * self.millis_per_pixel <= 0x7FFF_FFFF
            * 0xFFFF_FFFF) by (nonlinear_arith)
            requires
                -0x8000_0000 <= pixels <= 0x7FFF_FFFF,
                0 <= self.millis_per_pixel <= 0xFFFF_FFFF,
        ;
        pixels as i64 * self.millis_per_pixel as i64
    }

    /// The whole pixels that `millis` milliseconds take up, rounded down.
    pub fn pixels_of_millis(&self, millis: i64) -> (r: i64)
        requires
            self.millis_per_pixel > 0,
        ensures
            r == millis as int / (self.millis_per_pixel as int),
            millis >= 0 ==> 0 <= r <= millis,
            millis < 0 ==> millis <= r < 0,
    {
        let g = self.millis_per_pixel as i64;
        if millis >= 0 {
            proof {
                lemma_floor_div_bounds(millis as int, g as int);
            }
            millis / g
        } else {
            let below: i64 = -(millis + 1);
            let k = below / g;
            proof {
                lemma_floor_div_bounds(below as int, g as int);
                lemma_floor_div_negative(millis as int, g as int);
            }
            -k - 1
        }
    }

    /// The distance in pixels between two ticks of the ruler.
    pub fn calc_tick_step(&self) -> (r: u32)
        ensures
            r == tick_step_px(self.millis_per_pixel as int),
            r == 8 || r == 16 || r == 32 || r == 64,
    {
        let g = self.millis_per_pixel as u64;
        if 1000 < 8 * g {
            8
        } else if 1000 < 16 * g {
            16
        } else if 1000 < 32 * g {
            32
        } else {
            64
        }
    }

    /// The time in milliseconds between two ticks of the ruler.
    pub fn tick_step_millis(&self) -> (r: i64)
        ensures
            r == tick_step_px(self.millis_per_pixel as int) * self.millis_per_pixel,
            self.millis_per_pixel > 0 ==> r > 0,
            0 <= r <= 64 * self.millis_per_pixel,
    {
        let g = self.millis_per_pixel as i64;
        match self.calc_tick_step() {
            8 => 8 * g,
            16 => 16 * g,
            32 => 32 * g,
            _ => 64 * g,
        }
    }

    /// The numbers of the first and the last tick of the visible window,
    /// counting ticks from the start of the media.
    pub fn calc_ticks_range(&self) -> (r: (i64, i64))
        requires
            self.wf(),
        ensures
            r.0 == round_div(self.duration_range[0] as int, self.spec_tick_step_millis()),
            r.1 == r.0 + round_div(
                self.duration_range[1] - self.duration_range[0],
                self.spec_tick_step_millis(),
            ),
            0 <= r.0 <= r.1 <= 2 * MAX_MEDIA_DURATION_S * 1000 + 2,
    {
        let d = self.tick_step_millis();
        let begin = self.duration_range[0];
        let interval = self.duration_range[1] - self.duration_range[0];
        proof {
            lemma_round_div_bounds(begin as int, d as int);
            lemma_round_div_bounds(interval as int, d as int);
        }
        let begin_tick = (2 * begin + d) / (2 * d);
        let end_tick = begin_tick + (2 * interval + d) / (2 * d);
        (begin_tick, end_tick)
    }

    /// The time in milliseconds between two ticks of the ruler.
    pub open spec fn spec_tick_step_millis(&self) -> int {
        tick_step_px(self.millis_per_pixel as int) * self.millis_per_pixel
    }

    /// Fits the window to a viewport `viewport_width` pixels wide: it keeps
    /// its begin and spans as much time as that many pixels stand for. A
    /// window that would reach past the end of the media is moved back to
    /// end there, and one longer than the media becomes the whole media.
    pub fn recompute_window(&mut self, viewport_width: u32)
        requires
            old(self).wf(),
        ensures
            final(self).wf(),
            final(self).millis_per_pixel == old(self).millis_per_pixel,
            final(self).media_duration_ms == old(self).media_duration_ms,
            (final(self).duration_range[0] as int, final(self).duration_range[1] as int)
                == window_for(
                old(self).duration_range[0] as int,
                old(self).millis_per_pixel * viewport_width,
                old(self).media_duration_ms as int,
            ),
    {
        assert(0 <= self.millis_per_pixel * viewport_width <= 3000 * 0x1_0000_0000)
            by (nonlinear_arith)
            requires
                0 <= self.millis_per_pixel <= 3000,
                0 <= viewport_width <= 0x1_0000_0000,
        ;
        let span: i64 = self.millis_per_pixel as i64 * viewport_width as i64;
        let begin = self.duration_range[0];
        let media = self.media_duration_ms;
        if span >= media {
            self.duration_range = [0, media];
        } else if begin + span > media {
            self.duration_range = [media - span, media];
        } else {
            self.duration_range = [begin, begin + span];
        }
    }

    /// Takes up media of `duration_s` seconds shown in a viewport `width`
    /// pixels wide: the granularity becomes the one at which the media
    /// fills the viewport, as far as the bounds allow, and the window starts
    /// at the beginning of the media.
    pub fn init(&mut self, duration_s: i64, width: u32)
        ensures
            final(self).wf(),
            final(self).media_duration_ms == media_millis(duration_s as int),
            final(self).millis_per_pixel == initial_granularity(
                media_millis(duration_s as int),
                width as int,
            ),
            (final(self).duration_range[0] as int, final(self).duration_range[1] as int)
                == window_for(
                0,
                final(self).millis_per_pixel * width,
                final(self).media_duration_ms as int,
            ),
    {
        let media: i64 = if duration_s < 0 {
            0
        } else if duration_s > MAX_MEDIA_DURATION_S {
            MAX_MEDIA_DURATION_S * 1000
        } else {
            duration_s * 1000
        };
        let requested: i64 = if media <= 0 {
            MIN_GRANULARITY as i64
        } else if width == 0 {
            MAX_GRANULARITY as i64
        } else {
            media / (width as i64)
        };
        self.media_duration_ms = media;
        self.duration_range = [0, 0];
        self.set_granularity(requested);
        self.recompute_window(width);
    }

    /// Zooms out by one step: each pixel stands for more time.
    pub fn increase_granularity(&mut self)
        ensures
            final(self).millis_per_pixel == clamp_granularity(
                old(self).millis_per_pixel + GRANULARITY_STEP,
            ),
            MIN_GRANULARITY <= final(self).millis_per_pixel <= MAX_GRANULARITY,
            final(self).duration_range == old(self).duration_range,
            final(self).media_duration_ms == old(self).media_duration_ms,
            old(self).wf() ==> final(self).wf(),
    {
        self.set_granularity(self.millis_per_pixel as i64 + GRANULARITY_STEP as i64);
    }

    /// Zooms in by one step: each pixel stands for less time.
    pub fn decrease_granularity(&mut self)
        ensures
            final(self).millis_per_pixel == clamp_granularity(
                old(self).millis_per_pixel - GRANULARITY_STEP,
            ),
            MIN_GRANULARITY <= final(self).millis_per_pixel <= MAX_GRANULARITY,
            final(self).duration_range == old(self).duration_range,
            final(self).media_duration_ms == old(self).media_duration_ms,
            old(self).wf() ==> final(self).wf(),
    {
        self.set_granularity(self.millis_per_pixel as i64 - GRANULARITY_STEP as i64);
    }

    /// Zooms by one step in the direction of `delta`: out where it is
    /// positive, in where it is negative. The window is left as it is, and
    /// nothing is anchored at the pointer.
    pub fn zoom(&mut self, delta: i64)
        ensures
            final(self).millis_per_pixel == clamp_granularity(
                old(self).millis_per_pixel + sign(delta as int) * GRANULARITY_STEP,
            ),
            MIN_GRANULARITY <= final(self).millis_per_pixel <= MAX_GRANULARITY,
            final(self).duration_range == old(self).duration_range,
            final(self).media_duration_ms == old(self).media_duration_ms,
            old(self).wf() ==> final(self).wf(),
    {
        if delta > 0 {
            self.increase_granularity();
        } else if delta < 0 {
            self.decrease_granularity();
        } else {
            self.set_granularity(self.millis_per_pixel as i64);
        }
    }

    /// Moves the window by the time between two ticks, in the direction of
    /// `delta_px`, without changing its length; it stops at the start and at
    /// the end of the media.
    pub fn pan(&mut self, delta_px: i64)
        requires
            old(self).wf(),
        ensures
            final(self).wf(),
            final(self).millis_per_pixel == old(self).millis_per_pixel,
            final(self).media_duration_ms == old(self).media_duration_ms,
            (final(self).duration_range[0] as int, final(self).duration_range[1] as int)
                == window_moved(
                old(self).duration_range[0] as int,
                old(self).duration_range[1] as int,
                old(self).media_duration_ms as int,
                sign(delta_px as int) * old(self).spec_tick_step_millis(),
            ),
            final(self).duration_range[1] - final(self).duration_range[0]
                == old(self).duration_range[1] - old(self).duration_range[0],
    {
        let step = self.tick_step_millis();
        let shift: i64 = if delta_px > 0 {
            step
        } else if delta_px < 0 {
            -step
        } else {
            0
        };
        let begin = self.duration_range[0];
        let interval = self.duration_range[1] - self.duration_range[0];
        let moved: i64 = if begin + shift < 0 {
            0
        } else {
            begin + shift
        };
        if moved + interval > self.media_duration_ms {
            self.duration_range = [self.media_duration_ms - interval, self.media_duration_ms];
        } else {
            self.duration_range = [moved, moved + interval];
        }
    }
}

/// Whatever granularity is asked for, the one kept lies within the bounds,
/// and it is the one asked for where that lies within them.
pub proof fn lemma_granularity_within_bounds(requested: int)
    ensures
        MIN_GRANULARITY <= clamp_granularity(requested) <= MAX_GRANULARITY,
        MIN_GRANULARITY <= requested <= MAX_GRANULARITY ==> clamp_granularity(requested)
            == requested,
{
}

/// A quotient of a time that is not negative lies between zero and the time.
proof fn lemma_floor_div_bounds(n: int, d: int)
    requires
        0 <= n,
        0 < d,
    ensures
        0 <= n / d <= n,
{
    assert(0 <= n / d <= n) by (nonlinear_arith)
        requires
            0 <= n,
            0 < d,
    ;
}

/// Rounding a negative quotient down: one more, in size, than the quotient
/// of the time just short of its opposite.
proof fn lemma_floor_div_negative(n: int, d: int)
    requires
        n < 0,
        0 < d,
    ensures
        n / d == -((-(n + 1)) / d) - 1,
{
    let a = -(n + 1);
    let k = a / d;
    let rem = a % d;
    vstd::arithmetic::div_mod::lemma_fundamental_div_mod(a, d);
    assert(n == (-k - 1) * d + (d - 1 - rem)) by (nonlinear_arith)
        requires
            a == d * k + rem,
            a == -(n + 1),
    ;
    vstd::arithmetic::div_mod::lemma_fundamental_div_mod_converse(n, d, -k - 1, d - 1 - rem);
}

/// A rounded quotient of a time within the media by the time between two
/// ticks is no tick beyond the media.
pub(crate) proof fn lemma_round_div_bounds(n: int, d: int)
    requires
        0 <= n,
        0 < d,
    ensures
        0 <= round_div(n, d) <= n + 1,
{
    assert(0 <= (2 * n + d) / (2 * d) <= n + 1) by (nonlinear_arith)
        requires
            0 <= n,
            0 < d,
    ;
}

/// After the window is fitted to a viewport that the media can fill at the
/// current granularity, it spans exactly as much time as the viewport's
/// pixels stand for, and it ends within the media.
pub proof fn lemma_window_spans_viewport(begin: int, granularity: int, width: int, media: int)
    requires
        0 <= begin <= media,
        0 <= granularity * width <= media,
    ensures
        ({
            let w = window_for(begin, granularity * width, media);
            w.1 - w.0 == granularity * width && 0 <= w.0 && w.1 <= media
        }),
{
}

/// Whatever the viewport, a fitted window is never longer than what the
/// viewport's pixels stand for, and it lies within the media.
pub proof fn lemma_window_within_media(begin: int, span: int, media: int)
    requires
        0 <= begin,
        0 <= span,
        0 <= media,
    ensures
        ({
            let w = window_for(begin, span, media);
            0 <= w.0 <= w.1 <= media && w.1 - w.0 <= span
        }),
{
}

/// A window within the media that is moved stays within the media and
/// keeps its length, however far it is moved.
pub proof fn lemma_window_moved_within_media(begin: int, end: int, media: int, shift: int)
    requires
        0 <= begin <= end <= media,
    ensures
        ({
            let w = window_moved(begin, end, media, shift);
            0 <= w.0 <= w.1 <= media && w.1 - w.0 == end - begin
        }),
{
}

/// A coarser granularity never yields a wider tick spacing: the spacing
/// follows the pixels that one second takes up, which shrink as the
/// milliseconds per pixel grow.
pub proof fn lemma_tick_step_antitone(g1: int, g2: int)
    requires
        0 < g1 <= g2,
    ensures
        tick_step_px(g2) <= tick_step_px(g1),
{
}

/// The coarsest granularity that has the tick spacing of `g`, where there
/// is one: beyond it the spacing drops to the next rung.
pub open spec fn rung_end(g: int) -> int {
    if 32 * g <= 1000 {
        31
    } else if 16 * g <= 1000 {
        62
    } else {
        125
    }
}

/// From a granularity to a coarser one that has not left its rung of the
/// ladder, the tick spacing does not decrease. (Across rungs it does: see
/// `lemma_tick_step_antitone`.)
pub proof fn lemma_tick_step_monotone_on_rung(g1: int, g2: int)
    requires
        0 < g1 <= g2,
        tick_step_px(g1) == 8 || g2 <= rung_end(g1),
    ensures
        tick_step_px(g1) <= tick_step_px(g2),
{
}

} // verus!
