//! A slider: a thumb that travels along a track and stands for a value in a range.
//!
//! The value maps linearly to the thumb's offset along the track, and a drag
//! maps the cursor's place on the track back to a value, rounded to the
//! slider's step.

use vstd::prelude::*;
use vstd::string::StringExecFns;

pub mod builder;

use vstd::arithmetic::div_mod::{
    lemma_div_by_multiple,
    lemma_div_is_ordered,
    lemma_div_pos_is_pos,
    lemma_fundamental_div_mod,
    lemma_fundamental_div_mod_converse_div,
    lemma_mod_multiples_basic,
    lemma_multiply_divide_le,
    lemma_remainder,
    lemma_remainder_lower,
    lemma_basic_div,
};
use vstd::arithmetic::mul::lemma_mul_inequality;
use crate::components::grab::Grabbed;
use crate::layout::{Display, Interaction, Point, UiRect, Val, fits, half};
use crate::widgets::tooltip::{TooltipAlign, TooltipPosition};

verus! {

/// The value of a slider and the range it moves in.
#[derive(Clone, Copy, Debug, PartialEq, Eq, Structural)]
pub struct Slider {
    pub value: i32,
    pub min: i32,
    pub max: i32,
    pub step: i32,
}

impl Default for Slider {
    fn default() -> (s: Slider)
        ensures
            s == (Slider { value: 0, min: 0, max: 100, step: 1 }),
    {
        Slider { value: 0, min: 0, max: 100, step: 1 }
    }
}

/// The stretch along which the middle of the thumb travels.
#[derive(Clone, Copy, Debug, PartialEq, Eq, Structural)]
pub struct Track {
    pub min_x: i32,
    pub max_x: i32,
}

impl Track {
    /// The length of the stretch. Zero or less when the thumb has no room.
    pub open spec fn width(self) -> int {
        self.max_x - self.min_x
    }
}

/// `v` held between `lo` and `hi`.
pub open spec fn clamp(v: int, lo: int, hi: int) -> int {
    if v < lo {
        lo
    } else if v > hi {
        hi
    } else {
        v
    }
}

/// The multiple of `step` nearest to `raw`; halfway rounds up.
pub open spec fn nearest_step(raw: int, step: int) -> int {
    if step > 1 {
        ((raw + step / 2) / step) * step
    } else {
        raw
    }
}

/// The multiple of `step` nearest to `raw` that does not pass `span`.
pub open spec fn snap(raw: int, step: int, span: int) -> int {
    let nearest = nearest_step(raw, step);
    if nearest > span {
        nearest - step
    } else {
        nearest
    }
}

/// The stretch for a thumb of width `thumb_width` on a track that covers
/// `rect_min_x .. rect_max_x`: half a thumb in from either end.
pub open spec fn track_for(rect_min_x: int, rect_max_x: int, thumb_width: int) -> (int, int) {
    (rect_min_x + half(thumb_width), rect_max_x - half(thumb_width))
}

/// Whether both ends of the stretch fit coordinates.
pub open spec fn track_fits(rect_min_x: int, rect_max_x: int, thumb_width: int) -> bool {
    fits(track_for(rect_min_x, rect_max_x, thumb_width).0) && fits(
        track_for(rect_min_x, rect_max_x, thumb_width).1,
    )
}

/// The stretch along which a thumb of width `thumb_width` travels inside the
/// track's clipped rectangle `rect`.
pub fn thumb_track(rect: (Point, Point), thumb_width: i32) -> (track: Track)
    requires
        track_fits(rect.0.x as int, rect.1.x as int, thumb_width as int),
    ensures
        (track.min_x as int, track.max_x as int) == track_for(rect.0.x as int, rect.1.x as int, thumb_width as int),
{
    let h: i32 = thumb_width / 2;
    Track { min_x: rect.0.x + h, max_x: rect.1.x - h }
}

impl Slider {
    /// The length of the value range.
    pub open spec fn span(self) -> int {
        self.max - self.min
    }

    /// The step is positive and no longer than the range.
    pub open spec fn valid_step(self) -> bool {
        0 < self.step <= self.span()
    }

    /// Whether the step is positive and no longer than the range.
    pub fn has_valid_step(&self) -> (ok: bool)
        ensures
            ok == self.valid_step(),
    {
        let span: i64 = self.max as i64 - self.min as i64;
        self.step > 0 && (self.step as i64) <= span
    }

    /// The thumb's offset from the start of `track` for the slider's value.
    ///
    /// The range `min ..= max` maps linearly onto `0 ..= width`, rounded down.
    /// A value outside the range counts as the nearer end. On a track without
    /// room the thumb stays at the start.
    pub open spec fn offset_for(self, track: Track) -> int {
        if track.width() <= 0 {
            0
        } else {
            (clamp(self.value as int, self.min as int, self.max as int) - self.min) * track.width() / self.span()
        }
    }

    /// How far along `track` the cursor is, as a distance in the value range, rounded down.
    pub open spec fn raw_at(self, track: Track, cursor_x: int) -> int {
        (clamp(cursor_x, track.min_x as int, track.max_x as int) - track.min_x) * self.span() / track.width()
    }

    /// The value that a cursor at `cursor_x` drags the slider to.
    ///
    /// The cursor is held to the track, its place on it is mapped linearly to
    /// the range and rounded to the nearest step counted from `min` that does
    /// not pass `max`. On a track without room the value is `min`.
    pub open spec fn value_for(self, track: Track, cursor_x: int) -> int {
        if track.width() <= 0 {
            self.min as int
        } else {
            self.min + snap(self.raw_at(track, cursor_x), self.step as int, self.span())
        }
    }

    /// Computes the thumb's offset from the start of `track`.
    pub fn thumb_offset(&self, track: Track) -> (x: i32)
        requires
            self.valid_step(),
            fits(track.width()),
        ensures
            x == self.offset_for(track),
    {
        if track.max_x <= track.min_x {
            return 0;
        }
        let value: i32 = if self.value < self.min {
            self.min
        } else if self.value > self.max {
            self.max
        } else {
            self.value
        };
        let part: u64 = (value as i64 - self.min as i64) as u64;
        let span: u64 = (self.max as i64 - self.min as i64) as u64;
        let width: u64 = (track.max_x as i64 - track.min_x as i64) as u64;
        proof {
            lemma_scale_bounds(part as int, width as int, span as int);
            assert(span * width <= 0xFFFF_FFFF * 0x7FFF_FFFF) by (nonlinear_arith)
                requires
                    0 <= span <= 0xFFFF_FFFF,
                    0 <= width <= 0x7FFF_FFFF,
            ;
        }
        let scaled: u64 = part * width / span;
        scaled as i32
    }

    /// Computes the value that a cursor at `cursor_x` drags the slider to.
    pub fn value_at(&self, track: Track, cursor_x: i64) -> (v: i32)
        requires
            self.valid_step(),
        ensures
            v == self.value_for(track, cursor_x as int),
    {
        if track.max_x <= track.min_x {
            return self.min;
        }
        let lo: i64 = track.min_x as i64;
        let hi: i64 = track.max_x as i64;
        let held: i64 = if cursor_x < lo {
            lo
        } else if cursor_x > hi {
            hi
        } else {
            cursor_x
        };
        let x: u64 = (held - lo) as u64;
        let width: u64 = (hi - lo) as u64;
        let span: u64 = (self.max as i64 - self.min as i64) as u64;
        let step: u64 = self.step as u64;
        proof {
            lemma_scale_bounds(x as int, span as int, width as int);
            assert(width * span <= 0xFFFF_FFFF * 0xFFFF_FFFF) by (nonlinear_arith)
                requires
                    0 <= span <= 0xFFFF_FFFF,
                    0 <= width <= 0xFFFF_FFFF,
            ;
        }
        let raw: u64 = x * span / width;
        proof {
            lemma_snap_bounds(raw as int, step as int, span as int);
        }
        let mut snapped: u64 = raw;
        if step > 1 {
            snapped = ((raw + step / 2) / step) * step;
        }
        if snapped > span {
            snapped = snapped - step;
        }
        (self.min as i64 + snapped as i64) as i32
    }
}

/// Scaling a part of a whole: for `0 <= a <= c`, the part `a * b / c` of `b` lies in `0 ..= b`.
pub proof fn lemma_scale_bounds(a: int, b: int, c: int)
    requires
        0 <= a <= c,
        0 <= b,
        0 < c,
    ensures
        0 <= a * b <= c * b,
        0 <= (a * b) / c <= b,
{
    lemma_mul_inequality(a, c, b);
    assert(0 <= a * b) by (nonlinear_arith)
        requires
            0 <= a,
            0 <= b,
    ;
    lemma_div_pos_is_pos(a * b, c);
    lemma_multiply_divide_le(a * b, c, b);
}

/// Rounding to a step stays close and stays in the range.
///
/// For a distance `raw` within a range of length `span`, and a step no longer
/// than the range: the nearest multiple of the step is at most half a step
/// away from `raw`, and `snap` is a multiple of the step within `0 ..= span`
/// that differs from the nearest one only where that one passes `span`.
pub proof fn lemma_snap_bounds(raw: int, step: int, span: int)
    requires
        0 <= raw <= span,
        0 < step <= span,
    ensures
        nearest_step(raw, step) % step == 0,
        raw - (step - 1 - step / 2) <= nearest_step(raw, step) <= raw + step / 2,
        0 <= nearest_step(raw, step),
        step > 1 ==> 0 <= (raw + step / 2) / step && ((raw + step / 2) / step) * step <= raw + step / 2,
        0 <= snap(raw, step, span) <= span,
        snap(raw, step, span) % step == 0,
{
    if step > 1 {
        let n = raw + step / 2;
        let k = n / step;
        lemma_div_pos_is_pos(n, step);
        lemma_remainder(n, step);
        lemma_remainder_lower(n, step);
        lemma_mod_multiples_basic(k, step);
        assert(0 <= k * step) by (nonlinear_arith)
            requires
                0 <= k,
                0 < step,
        ;
        if k * step > span {
            lemma_mod_multiples_basic(k - 1, step);
            assert((k - 1) * step == k * step - step) by (nonlinear_arith);
        }
    } else {
        assert(raw == raw * 1) by (nonlinear_arith);
        lemma_mod_multiples_basic(raw, 1);
    }
}

/// A value that a drag gives lies in the slider's range, a whole number of
/// steps above `min`.
pub proof fn lemma_dragged_value_in_range(slider: Slider, track: Track, cursor_x: int)
    requires
        slider.valid_step(),
    ensures
        slider.min <= slider.value_for(track, cursor_x) <= slider.max,
        (slider.value_for(track, cursor_x) - slider.min) % (slider.step as int) == 0,
{
    if track.width() > 0 {
        let x = clamp(cursor_x, track.min_x as int, track.max_x as int) - track.min_x;
        lemma_scale_bounds(x, slider.span(), track.width());
        lemma_snap_bounds(slider.raw_at(track, cursor_x), slider.step as int, slider.span());
    } else {
        lemma_mod_multiples_basic(0, slider.step as int);
    }
}

/// A cursor at or before the start of the track gives `min`. One at or past
/// its end gives `max` where the step divides the range.
pub proof fn lemma_dragged_value_at_ends(slider: Slider, track: Track, cursor_x: int)
    requires
        slider.valid_step(),
        track.width() > 0,
    ensures
        cursor_x <= track.min_x ==> slider.value_for(track, cursor_x) == slider.min,
        cursor_x >= track.max_x && slider.span() % (slider.step as int) == 0 ==> slider.value_for(track, cursor_x)
            == slider.max,
{
    let step = slider.step as int;
    let span = slider.span();
    let width = track.width();
    if cursor_x <= track.min_x {
        assert(0 * span == 0) by (nonlinear_arith);
        lemma_basic_div(0, width);
        assert(slider.raw_at(track, cursor_x) == 0);
        if step > 1 {
            lemma_basic_div(step / 2, step);
            assert(0 * step == 0) by (nonlinear_arith);
        }
    }
    if cursor_x >= track.max_x && span % step == 0 {
        lemma_div_by_multiple(span, width);
        assert(width * span == span * width) by (nonlinear_arith);
        assert(slider.raw_at(track, cursor_x) == span);
        if step > 1 {
            let m = span / step;
            lemma_fundamental_div_mod(span, step);
            assert(span == step * m);
            lemma_div_pos_is_pos(span, step);
            assert((span + step / 2) / step == m) by {
                lemma_fundamental_div_mod(span + step / 2, step);
                let q = (span + step / 2) / step;
                let r = (span + step / 2) % step;
                assert(0 <= r < step);
                assert(step * m + step / 2 == step * q + r);
                assert(q == m) by (nonlinear_arith)
                    requires
                        step * m + step / 2 == step * q + r,
                        0 <= r < step,
                        0 <= step / 2 < step,
                        step > 0,
                ;
            }
            assert(m * step == step * m) by (nonlinear_arith);
        }
    }
}

/// The thumb stays on the track: its offset lies in `0 ..= width`, is 0 for a
/// value of `min` or less, and `width` for a value of `max` or more.
pub proof fn lemma_thumb_on_track(slider: Slider, track: Track)
    requires
        slider.valid_step(),
        track.width() > 0,
    ensures
        0 <= slider.offset_for(track) <= track.width(),
        slider.value <= slider.min ==> slider.offset_for(track) == 0,
        slider.value >= slider.max ==> slider.offset_for(track) == track.width(),
{
    let part = clamp(slider.value as int, slider.min as int, slider.max as int) - slider.min;
    lemma_scale_bounds(part, track.width(), slider.span());
    if slider.value <= slider.min {
        assert(0 * track.width() == 0) by (nonlinear_arith);
        lemma_basic_div(0, slider.span());
    }
    if slider.value >= slider.max {
        lemma_div_by_multiple(track.width(), slider.span());
        assert(slider.span() * track.width() == track.width() * slider.span()) by (nonlinear_arith);
    }
}

/// A larger value never puts the thumb further back.
pub proof fn lemma_thumb_offset_monotone(a: Slider, b: Slider, track: Track)
    requires
        a.valid_step(),
        a.min == b.min,
        a.max == b.max,
        a.value <= b.value,
    ensures
        a.offset_for(track) <= b.offset_for(track),
{
    if track.width() > 0 {
        let pa = clamp(a.value as int, a.min as int, a.max as int) - a.min;
        let pb = clamp(b.value as int, b.min as int, b.max as int) - b.min;
        lemma_mul_inequality(pa, pb, track.width());
        lemma_div_is_ordered(pa * track.width(), pb * track.width(), a.span());
    }
}

/// A thumb that is dragged to where it already sits keeps the slider's value.
///
/// This holds for a value on a step, a step of two or more, and a track that
/// is at least as long as the range, so that no two values share a place.
pub proof fn lemma_drag_to_thumb_keeps_value(slider: Slider, track: Track)
    requires
        slider.valid_step(),
        slider.step >= 2,
        track.width() >= slider.span(),
        slider.min <= slider.value <= slider.max,
        (slider.value - slider.min) % (slider.step as int) == 0,
    ensures
        slider.value_for(track, track.min_x + slider.offset_for(track)) == slider.value,
{
    let step = slider.step as int;
    let span = slider.span();
    let width = track.width();
    let a = slider.value - slider.min;
    let off = slider.offset_for(track);
    assert(off == (a * width) / span);
    lemma_scale_bounds(a, width, span);
    let raw = slider.raw_at(track, track.min_x + off);
    assert(raw == (off * span) / width);
    lemma_remainder((a * width), span);
    assert(0 <= a * width - off * span < span);
    assert(0 <= off * span) by (nonlinear_arith)
        requires
            0 <= off,
            0 < span,
    ;
    lemma_div_is_ordered(off * span, a * width, width);
    lemma_div_by_multiple(a, width);
    assert(raw <= a);
    if a >= 1 {
        assert((a - 1) * width == a * width - width) by (nonlinear_arith);
        lemma_div_is_ordered((a - 1) * width, off * span, width);
        lemma_div_by_multiple(a - 1, width);
        assert(raw >= a - 1);
    } else {
        lemma_div_pos_is_pos(off * span, width);
    }
    let k = a / step;
    lemma_fundamental_div_mod(a, step);
    assert(a == step * k);
    assert(a == k * step) by (nonlinear_arith)
        requires
            a == step * k,
    ;
    let n = raw + step / 2;
    lemma_fundamental_div_mod_converse_div(n, step, k, n - a);
    assert(nearest_step(raw, step) == a);
}

/// The position of a slider's thumb: `left` is the thumb's offset on its track.
pub open spec fn thumb_position(slider: Slider, track: Track) -> UiRect {
    UiRect {
        left: Val::Px(slider.offset_for(track) as i32),
        right: Val::Undefined,
        top: Val::Undefined,
        bottom: Val::Undefined,
    }
}

/// The stretch for the thumb inside `rect`, as a track.
pub open spec fn track_in(rect: (Point, Point), thumb_width: i32) -> Track {
    Track {
        min_x: track_for(rect.0.x as int, rect.1.x as int, thumb_width as int).0 as i32,
        max_x: track_for(rect.0.x as int, rect.1.x as int, thumb_width as int).1 as i32,
    }
}

/// Puts the thumb where the slider's value says.
///
/// `track_rect` is the track's clipped rectangle and `thumb_width` the width
/// of the thumb's node.
pub fn slider_thumb_update(slider: &Slider, track_rect: (Point, Point), thumb_width: i32) -> (position: UiRect)
    requires
        slider.valid_step(),
        track_fits(track_rect.0.x as int, track_rect.1.x as int, thumb_width as int),
        fits(track_in(track_rect, thumb_width).width()),
    ensures
        position == thumb_position(*slider, track_in(track_rect, thumb_width)),
{
    let track = thumb_track(track_rect, thumb_width);
    let x: i32 = slider.thumb_offset(track);
    UiRect { left: Val::Px(x), right: Val::Undefined, top: Val::Undefined, bottom: Val::Undefined }
}

/// Sets the slider's value from where its grabbed thumb was dragged to.
///
/// The cursor is where the grab started plus the grab's offset.
/// Returns whether the value changed; the rest of the slider never does.
pub fn slider_thumb_move(slider: &mut Slider, grabbed: &Grabbed, track_rect: (Point, Point), thumb_width: i32) -> (changed: bool)
    requires
        old(slider).valid_step(),
        track_fits(track_rect.0.x as int, track_rect.1.x as int, thumb_width as int),
    ensures
        final(slider).value == old(slider).value_for(track_in(track_rect, thumb_width), grabbed.cursor_now().0),
        final(slider).min == old(slider).min,
        final(slider).max == old(slider).max,
        final(slider).step == old(slider).step,
        changed == (final(slider).value != old(slider).value),
{
    let track = thumb_track(track_rect, thumb_width);
    let cursor_x: i64 = grabbed.cursor_position.x as i64 + grabbed.cursor_offset.x as i64;
    let value: i32 = slider.value_at(track, cursor_x);
    if slider.value != value {
        slider.value = value;
        true
    } else {
        false
    }
}

/// Whether a slider's tooltip shows: while the thumb is clicked or hovered.
pub open spec fn tooltip_display(interaction: Interaction) -> Display {
    match interaction {
        Interaction::Clicked | Interaction::Hovered => Display::Flex,
        Interaction::Idle => Display::Hidden,
    }
}

/// Shows a slider's tooltip while its thumb is clicked or hovered, and hides it otherwise.
pub fn slider_tooltip_visibility(interaction: Interaction) -> (display: Display)
    ensures
        display == tooltip_display(interaction),
{
    match interaction {
        Interaction::Clicked | Interaction::Hovered => Display::Flex,
        _ => Display::Hidden,
    }
}

/// A node that a widget manages, with the root of the widget it belongs to.
///
/// The root is not necessarily the node's parent: a tooltip lives in a tree of its own.
#[derive(Clone, Copy, Debug, PartialEq, Eq, Structural)]
pub struct WidgetRoot {
    /// The node itself.
    pub entity: u64,
    /// The root of the widget that manages it.
    pub root: u64,
}

/// Finds the first of `nodes` that belongs to the widget rooted at `root`.
pub fn find_widget_node(nodes: &Vec<WidgetRoot>, root: u64) -> (found: Option<usize>)
    ensures
        match found {
            Some(i) => {
                &&& i < nodes@.len()
                &&& nodes@[i as int].root == root
                &&& forall|j: int| 0 <= j < i ==> nodes@[j].root != root
            },
            None => forall|j: int| 0 <= j < nodes@.len() ==> nodes@[j].root != root,
        },
{
    let mut i: usize = 0;
    while i < nodes.len()
        invariant
            i <= nodes@.len(),
            forall|j: int| 0 <= j < i ==> nodes@[j].root != root,
        decreases nodes@.len() - i,
    {
        if nodes[i].root == root {
            return Some(i);
        }
        i = i + 1;
    }
    None
}

/// Decides how the tooltip of the slider rooted at `root` is placed, given the
/// thumbs of all sliders: above the first thumb that belongs to the slider,
/// or beside the cursor where it has none.
pub fn slider_tooltip(thumbs: &Vec<WidgetRoot>, root: u64) -> (placement: (TooltipPosition, TooltipAlign))
    ensures
        placement.1 == TooltipAlign::Top,
        match placement.0 {
            TooltipPosition::Node(thumb) => exists|i: int|
                0 <= i < thumbs@.len() && thumbs@[i].root == root && thumbs@[i].entity == thumb && forall|j: int|
                    0 <= j < i ==> thumbs@[j].root != root,
            TooltipPosition::FollowCursor => forall|j: int| 0 <= j < thumbs@.len() ==> thumbs@[j].root != root,
            _ => false,
        },
{
    match find_widget_node(thumbs, root) {
        Some(i) => {
            let thumb: u64 = thumbs[i].entity;
            assert(thumbs@[i as int].root == root && thumbs@[i as int].entity == thumb);
            (TooltipPosition::Node(thumb), TooltipAlign::Top)
        },
        None => (TooltipPosition::FollowCursor, TooltipAlign::Top),
    }
}

/// The character for a digit below ten.
pub open spec fn digit_char(d: int) -> char {
    if d == 0 {
        '0'
    } else if d == 1 {
        '1'
    } else if d == 2 {
        '2'
    } else if d == 3 {
        '3'
    } else if d == 4 {
        '4'
    } else if d == 5 {
        '5'
    } else if d == 6 {
        '6'
    } else if d == 7 {
        '7'
    } else if d == 8 {
        '8'
    } else {
        '9'
    }
}

/// The decimal digits of a natural number, most significant first, without leading zeros.
pub open spec fn digits(n: nat) -> Seq<char>
    decreases n,
{
    if n < 10 {
        seq![digit_char(n as int)]
    } else {
        digits(n / 10).push(digit_char((n % 10) as int))
    }
}

/// A whole number written in decimal, with a minus sign where it is negative.
pub open spec fn decimal(v: int) -> Seq<char> {
    if v < 0 {
        seq!['-'] + digits((-v) as nat)
    } else {
        digits(v as nat)
    }
}

/// The one-letter text of a digit below ten.
fn digit_text(d: u32) -> (text: &'static str)
    requires
        d < 10,
    ensures
        text@ == seq![digit_char(d as int)],
{
    proof {
        reveal_strlit("0");
        reveal_strlit("1");
        reveal_strlit("2");
        reveal_strlit("3");
        reveal_strlit("4");
        reveal_strlit("5");
        reveal_strlit("6");
        reveal_strlit("7");
        reveal_strlit("8");
        reveal_strlit("9");
    }
    let text = match d {
        0 => "0",
        1 => "1",
        2 => "2",
        3 => "3",
        4 => "4",
        5 => "5",
        6 => "6",
        7 => "7",
        8 => "8",
        _ => "9",
    };
    assert(text@ =~= seq![digit_char(d as int)]);
    text
}

/// Appends the decimal digits of `n` to `text`.
fn push_digits(text: &mut String, n: u32)
    ensures
        final(text)@ == old(text)@ + digits(n as nat),
    decreases n,
{
    if n >= 10 {
        push_digits(text, n / 10);
    }
    text.append(digit_text(n % 10));
    assert(text@ =~= old(text)@ + digits(n as nat));
}

/// The text that a slider's tooltip shows: the slider's value in decimal.
pub fn slider_tooltip_text_update(slider: &Slider) -> (text: String)
    ensures
        text@ == decimal(slider.value as int),
{
    let mut text = String::new();
    if slider.value < 0 {
        text.append("-");
        proof {
            reveal_strlit("-");
            assert("-"@ =~= seq!['-']);
        }
        let magnitude: u32 = (-(slider.value as i64)) as u32;
        push_digits(&mut text, magnitude);
    } else {
        push_digits(&mut text, slider.value as u32);
    }
    assert(text@ =~= decimal(slider.value as int));
    text
}

} // verus!
