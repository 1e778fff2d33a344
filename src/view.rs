//! The clock widget: geometry, the previous frame, and the two ways of
//! drawing a frame (full repaint and incremental diff repaint).
use vstd::prelude::*;

use crate::brush;
use crate::brush::move_code;
use crate::brush::Brush;
use crate::brush::BrushState;
use crate::brush::Color;
use crate::font;
use crate::font::lit;
use crate::time;
use crate::time::date_text;
use crate::time::slot_count;
use crate::time::substitute_zone;
use crate::time::sampled;
use crate::time::xor_seq;
use crate::time::Date;
use crate::time::DateView;
use crate::time::Time;

verus! {

/// How the clock is placed and drawn.
#[derive(Clone, Debug)]
pub struct Configuration {
    /// Horizontal 0-indexed position of top-left corner.
    pub x: u16,
    /// Vertical 0-indexed position of top-left corner.
    pub y: u16,
    /// Font width in characters per tile.
    pub width: u16,
    /// Font height in characters per tile.
    pub height: u16,
    /// Display seconds.
    pub second: bool,
    /// Display military (24-hour) time.
    pub military: bool,
    /// Center the clock in the terminal. Overrides manual positioning.
    pub center: bool,
    /// The color of the time.
    pub color: Color,
    /// The date format, in strftime notation; `%Z` stands for the zone label.
    pub format: String,
}

/// Whether every position the clock draws at is a `u16` terminal coordinate,
/// in whichever mode it shows: tiles of at least one character each way; the
/// widest clock (eleven glyphs, 44 tiles less a gap) no wider than `u16::MAX`;
/// its last tile starting at a column within `u16::MAX`; and the date row,
/// one blank row below the five glyph rows, within `u16::MAX`.
pub open spec fn geometry_fits(x: u16, y: u16, width: u16, height: u16) -> bool {
    &&& 1 <= width
    &&& 44 * width - 1 <= u16::MAX
    &&& x + 42 * width <= u16::MAX
    &&& 1 <= height
    &&& y + 5 * height + 1 <= u16::MAX
}

impl Configuration {
    /// Whether a clock can be drawn with this configuration.
    pub fn fits(&self) -> (r: bool)
        ensures
            r == geometry_fits(self.x, self.y, self.width, self.height),
    {
        let (x, y) = (self.x as u32, self.y as u32);
        let (w, h) = (self.width as u32, self.height as u32);
        1 <= w && 44 * w - 1 <= 65535 && x + 42 * w <= 65535 && 1 <= h && y + 5 * h + 1 <= 65535
    }
}

/// What a clock holds: its placement and mode, the date pattern and zone,
/// the last frame drawn (the baseline), and its brush.
pub struct ClockView {
    pub x: u16,
    pub y: u16,
    pub width: u16,
    pub height: u16,
    pub second: bool,
    pub military: bool,
    pub center: bool,
    pub format: Seq<char>,
    pub zone: Seq<char>,
    pub date: DateView,
    pub time: Time,
    pub brush: BrushState,
}

impl ClockView {
    /// The clock's geometry fits in terminal coordinates.
    pub open spec fn wf(self) -> bool {
        geometry_fits(self.x, self.y, self.width, self.height)
    }

    /// Number of glyph slots in the current mode.
    pub open spec fn digits(self) -> nat {
        slot_count(self.second, self.military)
    }

    /// Width of the clock in characters: four tiles per glyph (three and a
    /// gap), less the gap after the last one.
    pub open spec fn clock_width(self) -> int {
        self.width * (font::W + 1) * self.digits() - 1
    }

    /// Height of the clock in characters.
    pub open spec fn clock_height(self) -> int {
        self.height * font::H
    }
}

/// A frame built but not yet written: its text, and the brush, date and time
/// that the clock holds once the text is written and the draft committed.
pub struct Draft {
    pub text: String,
    pub brush: Brush,
    pub date: Date,
    pub time: Time,
}

/// Represents a digital clock.
#[derive(Debug)]
pub struct Clock {
    configuration: Configuration,
    zone: String,
    date: Date,
    time: Time,
    brush: Brush,
    buffer: String,
}

impl View for Clock {
    type V = ClockView;

    closed spec fn view(&self) -> ClockView {
        ClockView {
            x: self.configuration.x,
            y: self.configuration.y,
            width: self.configuration.width,
            height: self.configuration.height,
            second: self.configuration.second,
            military: self.configuration.military,
            center: self.configuration.center,
            format: self.configuration.format@,
            zone: self.zone@,
            date: self.date@,
            time: self.time,
            brush: self.brush@,
        }
    }
}

/// A run of `n` blanks.
pub open spec fn blanks(n: nat) -> Seq<char> {
    Seq::new(n, |i: int| ' ')
}

/// Text written so far, and the brush after it.
pub struct Frame {
    pub text: Seq<char>,
    pub brush: BrushState,
}

/// The brush's pending code and `tw` blanks: one tile in the current paint.
pub open spec fn stroke(f: Frame, tw: nat) -> Frame {
    Frame { text: f.text + f.brush.emitted() + blanks(tw), brush: f.brush.rendered() }
}

/// One tile: the brush switched on or off, its pending code, and `tw` blanks.
pub open spec fn tile(f: Frame, on: bool, tw: nat) -> Frame {
    stroke(Frame { text: f.text, brush: f.brush.switched(on) }, tw)
}

/// The first `c` tiles of row `r` of glyph `g`, lit where the glyph's bit is set.
pub open spec fn glyph_tiles(f: Frame, g: u16, r: nat, c: nat, tw: nat) -> Frame
    decreases c,
{
    if c == 0 {
        f
    } else {
        tile(glyph_tiles(f, g, r, (c - 1) as nat, tw), lit(g, (r * 3 + c - 1) as u16), tw)
    }
}

/// Row `r` of the first `d` glyphs, each followed by a blank gap tile.
pub open spec fn row_line(f: Frame, glyphs: Seq<u16>, r: nat, d: nat, tw: nat) -> Frame
    decreases d,
{
    if d == 0 {
        f
    } else {
        tile(
            glyph_tiles(row_line(f, glyphs, r, (d - 1) as nat, tw), glyphs[d - 1], r, 3, tw),
            false,
            tw,
        )
    }
}

/// The first `r` glyph rows of a full repaint: each row built once and
/// written on every terminal row of its tiles.
pub open spec fn reset_rows(f: Frame, v: ClockView, glyphs: Seq<u16>, r: nat) -> Frame
    decreases r,
{
    if r == 0 {
        f
    } else {
        let p = reset_rows(f, v, glyphs, (r - 1) as nat);
        let line = row_line(
            Frame { text: Seq::empty(), brush: p.brush },
            glyphs,
            (r - 1) as nat,
            glyphs.len(),
            v.width as nat,
        );
        Frame {
            text: p.text + repeat_rows(
                v.x as nat,
                (v.y + (r - 1) * v.height) as nat,
                v.height as nat,
                line.text,
            ),
            brush: line.brush,
        }
    }
}

/// Column of the date line: centered under the clock, at the edge if too long.
pub open spec fn date_x(v: ClockView, len: nat) -> nat {
    let center = v.x + v.clock_width() / 2;
    if len / 2 > center {
        0
    } else {
        (center - len / 2) as nat
    }
}

/// Row of the date line: one blank row below the clock.
pub open spec fn date_y(v: ClockView) -> nat {
    (v.y + v.clock_height() + 1) as nat
}

/// The date line drawn after `f`: the brush off, a move, and the formatted
/// date; `None` where the date cannot be formatted with the clock's pattern.
pub open spec fn date_line(f: Frame, v: ClockView, date: DateView) -> Option<Frame> {
    let b = f.brush.switched(false);
    match date_text(date.year, date.month, date.day, substitute_zone(v.format, date.zone)) {
        Some(t) => Some(
            Frame {
                text: f.text + b.emitted() + move_code(date_x(v, t.len()), date_y(v)) + t,
                brush: b.rendered(),
            },
        ),
        None => None,
    }
}

/// A full repaint of `time` and `date`: the brush off, a clear screen, every
/// glyph row, and the date line.
pub open spec fn reset_frame(v: ClockView, date: DateView, time: Time) -> Option<Frame> {
    let b = v.brush.switched(false);
    let f0 = Frame { text: b.emitted() + brush::CLEAR@, brush: b.rendered() };
    date_line(reset_rows(f0, v, time.glyphs(), 5), v, date)
}

/// Column of bit `i` of glyph slot `d`.
pub open spec fn cell_x(v: ClockView, d: nat, i: nat) -> nat {
    (v.x + (i % 3) * v.width + 4 * v.width * d) as nat
}

/// Row of bit `i` of a glyph.
pub open spec fn cell_y(v: ClockView, i: nat) -> nat {
    (v.y + (i / 3) * v.height) as nat
}

/// The first `i` bits of glyph slot `d` in an incremental repaint: each bit
/// set in `diff` is redrawn in its new state on all terminal rows of its
/// tile; the others are left alone.
pub open spec fn update_bits(f: Frame, v: ClockView, diff: u16, new: u16, d: nat, i: nat) -> Frame
    decreases i,
{
    if i == 0 {
        f
    } else {
        let p = update_bits(f, v, diff, new, d, (i - 1) as nat);
        if lit(diff, (i - 1) as u16) {
            let line = tile(
                Frame { text: Seq::empty(), brush: p.brush },
                lit(new, (i - 1) as u16),
                v.width as nat,
            );
            Frame {
                text: p.text + repeat_rows(
                    cell_x(v, d, (i - 1) as nat),
                    cell_y(v, (i - 1) as nat),
                    v.height as nat,
                    line.text,
                ),
                brush: line.brush,
            }
        } else {
            p
        }
    }
}

/// The first `d` glyph slots of an incremental repaint; a slot whose diff is
/// zero is skipped whole.
pub open spec fn update_digits(f: Frame, v: ClockView, diff: Seq<u16>, new: Seq<u16>, d: nat) -> Frame
    decreases d,
{
    if d == 0 {
        f
    } else {
        let p = update_digits(f, v, diff, new, (d - 1) as nat);
        if diff[d - 1] == 0 {
            p
        } else {
            update_bits(p, v, diff[d - 1], new[d - 1], (d - 1) as nat, 15)
        }
    }
}

/// The frame that brings the screen from the baseline to `time` and `date`.
/// Where the baseline has another shape (the mode changed), a full repaint;
/// else the changed bits, and the date line only if the date changed.
pub open spec fn update_frame(v: ClockView, date: DateView, time: Time) -> Option<Frame> {
    if !v.time.same_shape(time) {
        reset_frame(v, date, time)
    } else {
        let f = update_digits(
            Frame { text: Seq::empty(), brush: v.brush },
            v,
            xor_seq(v.time.glyphs(), time.glyphs()),
            time.glyphs(),
            v.digits(),
        );
        if date == v.date {
            Some(f)
        } else {
            date_line(f, v, date)
        }
    }
}

/// A drafted frame: its text and the state the clock takes once it is written.
pub open spec fn drafted(frame: Option<Frame>, date: DateView, time: Time, r: Option<Draft>) -> bool {
    match frame {
        Some(f) => {
            &&& r is Some
            &&& r->Some_0.text@ == f.text
            &&& r->Some_0.brush@ == f.brush
            &&& r->Some_0.date@ == date
            &&& r->Some_0.time == time
        },
        None => r is None,
    }
}

/// What drawing `frame` (or failing to) returns and leaves in the clock.
pub open spec fn frame_outcome(
    frame: Option<Frame>,
    before: ClockView,
    date: DateView,
    time: Time,
    r: Option<String>,
    after: ClockView,
) -> bool {
    match frame {
        Some(f) => {
            &&& r is Some
            &&& r->Some_0@ == f.text
            &&& after == ClockView { date, time, brush: f.brush, ..before }
        },
        None => r is None && after == before,
    }
}

/// `line` written on the `count` terminal rows from `(x, y)` down, each after
/// a cursor move.
pub open spec fn repeat_rows(x: nat, y: nat, count: nat, line: Seq<char>) -> Seq<char>
    decreases count,
{
    if count == 0 {
        Seq::empty()
    } else {
        repeat_rows(x, y, (count - 1) as nat, line) + move_code(x, (y + count - 1) as nat) + line
    }
}

/// Appends `n` blanks.
fn push_blanks(s: &mut String, n: u16)
    ensures
        final(s)@ == old(s)@ + blanks(n as nat),
{
    let mut i: u16 = 0;
    while i < n
        invariant
            i <= n,
            s@ == old(s)@ + blanks(i as nat),
        decreases n - i,
    {
        s.append(" ");
        proof {
            reveal_strlit(" ");
        }
        assert(s@ =~= old(s)@ + blanks((i + 1) as nat));
        i = i + 1;
    }
}

impl Clock {
    /// Create a new clock instance, with `%Z` in the date format replaced by
    /// the zone label. Nothing is drawn yet: the baseline is blank.
    pub fn new(configuration: Configuration, zone: &str) -> (c: Clock)
        requires
            geometry_fits(configuration.x, configuration.y, configuration.width, configuration.height),
        ensures
            c@.wf(),
            c@.x == configuration.x,
            c@.y == configuration.y,
            c@.width == configuration.width,
            c@.height == configuration.height,
            c@.second == configuration.second,
            c@.military == configuration.military,
            c@.center == configuration.center,
            c@.format == substitute_zone(configuration.format@, zone@),
            c@.zone == zone@,
            c@.date == (DateView { year: 1, month: 1, day: 1, zone: Seq::empty() }),
            c@.time.has_shape(configuration.second, configuration.military),
            c@.time.glyphs() == Seq::new(
                slot_count(configuration.second, configuration.military),
                |i: int| 0u16,
            ),
            c@.brush == (BrushState {
                paint: brush::Paint { color: configuration.color, ground: brush::Ground::Back },
                on: false,
                last: brush::reset_paint(),
                dried: true,
            }),
    {
        let mut configuration = configuration;
        configuration.format = time::replace_zone(configuration.format.as_str(), zone);
        Clock {
            date: Date::blank(),
            time: Time::blank(configuration.second, configuration.military),
            brush: Brush::new(configuration.color),
            buffer: String::new(),
            zone: String::from_str(zone),
            configuration,
        }
    }

    /// Toggle second display.
    pub fn toggle_second(&mut self)
        ensures
            final(self)@ == (ClockView { second: !old(self)@.second, ..old(self)@ }),
    {
        self.configuration.second = !self.configuration.second;
    }

    /// Toggle military (24H) time.
    pub fn toggle_military(&mut self)
        ensures
            final(self)@ == (ClockView { military: !old(self)@.military, ..old(self)@ }),
    {
        self.configuration.military = !self.configuration.military;
    }

    /// Set the color of the clock's time display.
    pub fn set_color(&mut self, color: Color)
        ensures
            final(self)@ == (ClockView { brush: old(self)@.brush.dipped(color), ..old(self)@ }),
    {
        self.brush.dip(color)
    }

    /// Get number of characters in current time format.
    fn digits(&self) -> (n: u16)
        ensures
            n == self@.digits(),
            5 <= n <= 11,
    {
        Time::width(self.configuration.second, self.configuration.military) as u16
    }

    /// Get current clock width in characters.
    pub fn width(&self) -> (w: u16)
        requires
            self@.wf(),
        ensures
            w == self@.clock_width(),
            w + 1 <= 44 * self@.width,
    {
        let n = self.digits();
        let tw = self.configuration.width;
        assert(1 <= tw * 4 * n <= 44 * tw) by (nonlinear_arith)
            requires
                1 <= tw,
                5 <= n <= 11,
        ;
        (tw * (font::W + 1)) * n - 1
    }

    /// The 0-indexed position of the clock's top-left corner.
    pub fn origin(&self) -> (r: (u16, u16))
        ensures
            r == (self@.x, self@.y),
    {
        (self.configuration.x, self.configuration.y)
    }

    /// Get current clock height in characters.
    pub fn height(&self) -> (h: u16)
        requires
            self@.wf(),
        ensures
            h == self@.clock_height(),
    {
        self.configuration.height * font::H
    }

    /// Adjusts the clock's position to match the provided terminal dimensions:
    /// when centering, the clock is centered, with odd space left over on the
    /// right and bottom, and put at the edge where the terminal is too small.
    /// The column is held where the widest clock still starts every tile
    /// within `u16::MAX`, so that toggling the mode keeps the clock drawable.
    pub fn resize(&mut self, size: (u16, u16))
        requires
            old(self)@.wf(),
        ensures
            final(self)@.wf(),
            final(self)@ == (if old(self)@.center {
                ClockView {
                    x: ({
                        let c = if size.0 >= old(self)@.clock_width() {
                            (size.0 - old(self)@.clock_width()) / 2
                        } else {
                            0
                        };
                        if c + 42 * old(self)@.width <= u16::MAX {
                            c
                        } else {
                            u16::MAX - 42 * old(self)@.width
                        }
                    }) as u16,
                    y: (if size.1 >= old(self)@.clock_height() {
                        (size.1 - old(self)@.clock_height()) / 2
                    } else {
                        0
                    }) as u16,
                    ..old(self)@
                }
            } else {
                old(self)@
            }),
    {
        if self.configuration.center {
            let (w, h) = size;
            let cw = self.width();
            let ch = self.height();
            let c = if w >= cw {
                (w - cw) / 2
            } else {
                0
            };
            let widest = 42 * self.configuration.width;
            self.configuration.x = if c <= 65535 - widest {
                c
            } else {
                65535 - widest
            };
            self.configuration.y = if h >= ch {
                (h - ch) / 2
            } else {
                0
            };
        }
    }

    /// Where a date line of `text` starts: centered under the clock (at the
    /// left edge where the text is wider), one blank row below it.
    pub fn date_origin(&self, text: &str) -> (r: (u16, u16))
        requires
            self@.wf(),
        ensures
            r.0 == date_x(self@, text@.len()),
            r.1 == date_y(self@),
    {
        let w = self.width();
        let h = self.height();
        let len = text.unicode_len();
        let center: u16 = self.configuration.x + w / 2;
        let half = len / 2;
        let x: u16 = if half > center as usize {
            0
        } else {
            center - half as u16
        };
        (x, self.configuration.y + h + 1)
    }

    /// Draw the current date.
    fn draw_date(&mut self, date: &Date, out: &mut String) -> (ok: bool)
        requires
            old(self)@.wf(),
        ensures
            ({
                let line = date_line(
                    Frame { text: old(out)@, brush: old(self).brush@ },
                    old(self)@,
                    date@,
                );
                &&& ok == line is Some
                &&& ok ==> final(out)@ == line->Some_0.text && final(self).brush@
                    == line->Some_0.brush
            }),
            final(self).configuration == old(self).configuration,
            final(self).zone == old(self).zone,
            final(self).date == old(self).date,
            final(self).time == old(self).time,
    {
        self.brush.raise();
        self.buffer = String::new();
        if !date.format(self.configuration.format.as_str(), &mut self.buffer) {
            return false;
        }
        let (x, y) = self.date_origin(self.buffer.as_str());
        let code = self.brush.render();
        out.append(code.as_str());
        let goto = brush::Move(x, y).to_string();
        out.append(goto.as_str());
        out.append(self.buffer.as_str());
        true
    }

    /// Adopts the state of a draft whose text was written: its date and time
    /// become the baseline, and its brush the clock's brush.
    pub fn commit(&mut self, draft: Draft)
        ensures
            final(self)@ == (ClockView {
                date: draft.date@,
                time: draft.time,
                brush: draft.brush@,
                ..old(self)@
            }),
    {
        self.brush = draft.brush;
        self.date = draft.date;
        self.time = draft.time;
    }

    /// Efficiently redraws the entire clock display for the given date and
    /// time, which become the baseline. Returns the text to write, or `None`
    /// (with the clock unchanged) where the date cannot be formatted.
    pub fn reset_at(&mut self, date: Date, time: Time) -> (r: Option<String>)
        requires
            old(self)@.wf(),
            time.has_shape(old(self)@.second, old(self)@.military),
        ensures
            frame_outcome(
                reset_frame(old(self)@, date@, time),
                old(self)@,
                date@,
                time,
                r,
                final(self)@,
            ),
    {
        match self.draft_reset(date, time) {
            Some(draft) => {
                let text = draft.text.clone();
                self.commit(draft);
                Some(text)
            },
            None => None,
        }
    }

    /// Draws the differences between the baseline and the given date and
    /// time, which become the baseline. Where the baseline has another shape
    /// than `time`, redraws everything instead. Returns the text to write, or
    /// `None` (with the clock unchanged) where the date cannot be formatted.
    pub fn update_at(&mut self, date: Date, time: Time) -> (r: Option<String>)
        requires
            old(self)@.wf(),
            time.has_shape(old(self)@.second, old(self)@.military),
        ensures
            frame_outcome(
                update_frame(old(self)@, date@, time),
                old(self)@,
                date@,
                time,
                r,
                final(self)@,
            ),
    {
        match self.draft_update(date, time) {
            Some(draft) => {
                let text = draft.text.clone();
                self.commit(draft);
                Some(text)
            },
            None => None,
        }
    }

    /// Builds a full repaint of the given date and time without changing the
    /// clock; `None` where the date cannot be formatted.
    pub fn draft_reset(&mut self, date: Date, time: Time) -> (r: Option<Draft>)
        requires
            old(self)@.wf(),
            time.has_shape(old(self)@.second, old(self)@.military),
        ensures
            final(self)@ == old(self)@,
            drafted(reset_frame(old(self)@, date@, time), date@, time, r),
    {
        let saved = self.brush;
        let ghost v = self@;
        let ghost glyphs = time.glyphs();
        let n = self.digits();
        let tw = self.configuration.width;
        let th = self.configuration.height;
        self.brush.raise();
        let mut out = self.brush.render();
        out.append(brush::CLEAR);
        let ghost f0 = Frame { text: out@, brush: self.brush@ };
        let mut row: u16 = 0;
        while row < font::H
            invariant
                row <= font::H,
                self@.wf(),
                self.configuration == old(self).configuration,
                self.zone == old(self).zone,
                self.date == old(self).date,
                self.time == old(self).time,
                v == old(self)@,
                n == v.digits(),
                glyphs == time.glyphs(),
                glyphs.len() == n,
                tw == v.width,
                th == v.height,
                (Frame { text: out@, brush: self.brush@ }) == reset_rows(f0, v, glyphs, row as nat),
            decreases font::H - row,
        {
            self.buffer = String::new();
            let ghost start = self.brush@;
            let mut d: u16 = 0;
            while d < n
                invariant
                    row < font::H,
                    d <= n,
                    self@.wf(),
                    self.configuration == old(self).configuration,
                    self.zone == old(self).zone,
                    self.date == old(self).date,
                    self.time == old(self).time,
                    v == old(self)@,
                    n == v.digits(),
                    glyphs == time.glyphs(),
                    glyphs.len() == n,
                    tw == v.width,
                    (Frame { text: self.buffer@, brush: self.brush@ }) == row_line(
                        Frame { text: Seq::empty(), brush: start },
                        glyphs,
                        row as nat,
                        d as nat,
                        tw as nat,
                    ),
                decreases n - d,
            {
                let g = time.get(d as usize);
                let ghost before = Frame { text: self.buffer@, brush: self.brush@ };
                let mut c: u16 = 0;
                while c < font::W
                    invariant
                        row < font::H,
                        c <= font::W,
                        self.configuration == old(self).configuration,
                        self.zone == old(self).zone,
                        self.date == old(self).date,
                        self.time == old(self).time,
                        tw == self.configuration.width,
                        (Frame { text: self.buffer@, brush: self.brush@ }) == glyph_tiles(
                            before,
                            g,
                            row as nat,
                            c as nat,
                            tw as nat,
                        ),
                    decreases font::W - c,
                {
                    let mask: u16 = 0x4000u16 >> (row * 3 + c);
                    self.brush.set(g & mask != 0);
                    self.write_row_buffer();
                    c = c + 1;
                }
                self.brush.raise();
                self.write_row_buffer();
                d = d + 1;
            }
            assert(row * th <= 4 * th) by (nonlinear_arith)
                requires
                    row < 5,
            ;
            let y = self.configuration.y + row * th;
            self.render_row_buffer(self.configuration.x, y, &mut out);
            row = row + 1;
        }
        if !self.draw_date(&date, &mut out) {
            self.brush = saved;
            return None;
        }
        let brush = self.brush;
        self.brush = saved;
        Some(Draft { text: out, brush, date, time })
    }

    /// Builds the frame that brings the screen from the baseline to the given
    /// date and time, without changing the clock: the changed bits, or
    /// everything where the baseline has another shape than `time`; `None`
    /// where the date cannot be formatted.
    pub fn draft_update(&mut self, date: Date, time: Time) -> (r: Option<Draft>)
        requires
            old(self)@.wf(),
            time.has_shape(old(self)@.second, old(self)@.military),
        ensures
            final(self)@ == old(self)@,
            drafted(update_frame(old(self)@, date@, time), date@, time, r),
    {
        if !self.time.is_same_shape(&time) {
            return self.draft_reset(date, time);
        }
        let saved = self.brush;
        let ghost v = self@;
        let draw = self.time.diff(&time);
        let ghost diffs = draw.glyphs();
        let ghost glyphs = time.glyphs();
        let n = self.digits();
        let tw = self.configuration.width;
        let th = self.configuration.height;
        let mut out = String::new();
        let ghost f0 = Frame { text: out@, brush: self.brush@ };
        assert(diffs.len() == n);
        let mut d: u16 = 0;
        while d < n
            invariant
                d <= n,
                self@.wf(),
                self.configuration == old(self).configuration,
                self.zone == old(self).zone,
                self.date == old(self).date,
                self.time == old(self).time,
                v == old(self)@,
                n == v.digits(),
                glyphs == time.glyphs(),
                diffs == draw.glyphs(),
                diffs == xor_seq(v.time.glyphs(), glyphs),
                glyphs.len() == n,
                diffs.len() == n,
                tw == v.width,
                th == v.height,
                (Frame { text: out@, brush: self.brush@ }) == update_digits(
                    f0,
                    v,
                    diffs,
                    glyphs,
                    d as nat,
                ),
            decreases n - d,
        {
            let dg = draw.get(d as usize);
            if dg != 0 {
                let g = time.get(d as usize);
                assert(4 * tw * d <= 40 * tw) by (nonlinear_arith)
                    requires
                        d < 11,
                ;
                let dx: u16 = self.configuration.x + 4 * tw * d;
                let ghost before = Frame { text: out@, brush: self.brush@ };
                let mut i: u16 = 0;
                while i < 15
                    invariant
                        d < n,
                        i <= 15,
                        self@.wf(),
                        self.configuration == old(self).configuration,
                        self.zone == old(self).zone,
                        self.date == old(self).date,
                        self.time == old(self).time,
                        v == old(self)@,
                        tw == v.width,
                        th == v.height,
                        dx == v.x + 4 * v.width * d,
                        dx + 2 * tw <= u16::MAX,
                        (Frame { text: out@, brush: self.brush@ }) == update_bits(
                            before,
                            v,
                            dg,
                            g,
                            d as nat,
                            i as nat,
                        ),
                    decreases 15 - i,
                {
                    let mask: u16 = 0x4000u16 >> i;
                    if dg & mask != 0 {
                        assert((i % 3) * tw <= 2 * tw && (i / 3) * th <= 4 * th) by (nonlinear_arith)
                            requires
                                i < 15,
                        ;
                        let x: u16 = (i % 3) * tw + dx;
                        let y: u16 = (i / 3) * th + self.configuration.y;
                        self.brush.set(g & mask != 0);
                        self.buffer = String::new();
                        self.write_row_buffer();
                        self.render_row_buffer(x, y, &mut out);
                    }
                    i = i + 1;
                }
            }
            d = d + 1;
        }
        if !(date == self.date) {
            if !self.draw_date(&date, &mut out) {
                self.brush = saved;
                return None;
            }
        }
        let brush = self.brush;
        self.brush = saved;
        Some(Draft { text: out, brush, date, time })
    }

    /// Builds a full repaint of the current date and time; see `draft_reset`.
    /// The clock takes it on with `commit` once its text is written.
    pub fn reset(&mut self) -> (r: Option<Draft>)
        requires
            old(self)@.wf(),
        ensures
            final(self)@ == old(self)@,
            exists|date: Date, time: Time|
                {
                    &&& sampled(old(self)@.zone, old(self)@.second, old(self)@.military, date, time)
                    &&& drafted(reset_frame(old(self)@, date@, time), date@, time, r)
                },
    {
        let (date, time) = time::now(
            self.zone.as_str(),
            self.configuration.second,
            self.configuration.military,
        );
        let ghost witness = (date, time);
        let r = self.draft_reset(date, time);
        assert(sampled(old(self)@.zone, old(self)@.second, old(self)@.military, witness.0, witness.1));
        assert(drafted(reset_frame(old(self)@, witness.0@, witness.1), witness.0@, witness.1, r));
        r
    }

    /// Builds the frame from the baseline to the current date and time; see
    /// `draft_update`. The clock takes it on with `commit` once its text is
    /// written.
    pub fn update(&mut self) -> (r: Option<Draft>)
        requires
            old(self)@.wf(),
        ensures
            final(self)@ == old(self)@,
            exists|date: Date, time: Time|
                {
                    &&& sampled(old(self)@.zone, old(self)@.second, old(self)@.military, date, time)
                    &&& drafted(update_frame(old(self)@, date@, time), date@, time, r)
                },
    {
        let (date, time) = time::now(
            self.zone.as_str(),
            self.configuration.second,
            self.configuration.military,
        );
        let ghost witness = (date, time);
        let r = self.draft_update(date, time);
        assert(sampled(old(self)@.zone, old(self)@.second, old(self)@.military, witness.0, witness.1));
        assert(drafted(update_frame(old(self)@, witness.0@, witness.1), witness.0@, witness.1, r));
        r
    }

    /// Write a tile (with current color and width) of a font bit into the buffer.
    fn write_row_buffer(&mut self)
        ensures
            ({
                let f = stroke(
                    Frame { text: old(self).buffer@, brush: old(self).brush@ },
                    old(self).configuration.width as nat,
                );
                &&& final(self).buffer@ == f.text
                &&& final(self).brush@ == f.brush
            }),
            final(self).configuration == old(self).configuration,
            final(self).zone == old(self).zone,
            final(self).date == old(self).date,
            final(self).time == old(self).time,
    {
        let code = self.brush.render();
        self.buffer.append(code.as_str());
        push_blanks(&mut self.buffer, self.configuration.width);
    }

    /// Write a complete font bit to the screen: the buffer on each terminal
    /// row of a tile, after a move to that row.
    fn render_row_buffer(&self, x: u16, y: u16, out: &mut String)
        requires
            y as int + self.configuration.height <= u16::MAX,
        ensures
            final(out)@ == old(out)@ + repeat_rows(
                x as nat,
                y as nat,
                self.configuration.height as nat,
                self.buffer@,
            ),
    {
        let mut i: u16 = 0;
        while i < self.configuration.height
            invariant
                i <= self.configuration.height,
                y as int + self.configuration.height <= u16::MAX,
                out@ == old(out)@ + repeat_rows(x as nat, y as nat, i as nat, self.buffer@),
            decreases self.configuration.height - i,
        {
            let goto = brush::Move(x, y + i);
            let code = goto.to_string();
            out.append(code.as_str());
            out.append(self.buffer.as_str());
            i = i + 1;
            assert(out@ =~= old(out)@ + repeat_rows(x as nat, y as nat, i as nat, self.buffer@));
        }
    }
}

proof fn lemma_zero_diff_draws_nothing(
    f: Frame,
    v: ClockView,
    diff: Seq<u16>,
    new: Seq<u16>,
    d: nat,
)
    requires
        d <= diff.len(),
        forall|i: int| 0 <= i < d ==> diff[i] == 0,
    ensures
        update_digits(f, v, diff, new, d) == f,
    decreases d,
{
    if d > 0 {
        lemma_zero_diff_draws_nothing(f, v, diff, new, (d - 1) as nat);
    }
}

/// An incremental repaint right after a full repaint of the same instant
/// writes nothing and leaves the brush as it was.
pub proof fn lemma_update_after_reset_is_empty(v: ClockView, date: DateView, time: Time)
    requires
        time.has_shape(v.second, v.military),
        reset_frame(v, date, time) is Some,
    ensures
        ({
            let f = reset_frame(v, date, time)->Some_0;
            let after = ClockView { date, time, brush: f.brush, ..v };
            update_frame(after, date, time) == Some(Frame { text: Seq::empty(), brush: f.brush })
        }),
{
    let f = reset_frame(v, date, time)->Some_0;
    let after = ClockView { date, time, brush: f.brush, ..v };
    crate::time::lemma_diff_self_zero(time);
    let diff = xor_seq(time.glyphs(), time.glyphs());
    assert(forall|i: int| 0 <= i < diff.len() ==> diff[i] == Seq::new(diff.len(), |j: int| 0u16)[i]);
    lemma_zero_diff_draws_nothing(
        Frame { text: Seq::empty(), brush: f.brush },
        after,
        diff,
        time.glyphs(),
        after.digits(),
    );
}

/// Once a frame of the current mode is drawn, toggling the seconds display
/// makes the next repaint a full one: snapshots of different shapes are
/// never diffed.
pub proof fn lemma_toggle_second_repaints_fully(v: ClockView, date: DateView, time: Time)
    requires
        v.time.has_shape(v.second, v.military),
        time.has_shape(!v.second, v.military),
    ensures
        ({
            let toggled = ClockView { second: !v.second, ..v };
            update_frame(toggled, date, time) == reset_frame(toggled, date, time)
        }),
{
}

} // verus!
