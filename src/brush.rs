//! Terminal escape codes, colors, and the edge-triggered brush.
use vstd::prelude::*;

verus! {

/// Clear the screen.
pub const CLEAR: &'static str = "\x1B[2J";

/// Switch to main screen buffer.
pub const MAIN: &'static str = "\x1B[?1049l";

/// Switch to alternate screen buffer.
pub const ALTERNATE: &'static str = "\x1B[?1049h";

/// Hide the cursor.
pub const HIDE: &'static str = "\x1B[?25l";

/// Show the cursor.
pub const SHOW: &'static str = "\x1B[?25h";

/// The character of a decimal digit.
pub open spec fn digit_char(d: nat) -> char {
    if d == 0 {
        '0'
    } else if d == 1 {
        '1'
    } else if d == 2 {
        '2'
    } else if d == 3 {
        '3'
    } else if d == 4 {
        '4'
    } else if d == 5 {
        '5'
    } else if d == 6 {
        '6'
    } else if d == 7 {
        '7'
    } else if d == 8 {
        '8'
    } else {
        '9'
    }
}

/// The decimal representation of `n`, without leading zeros.
pub open spec fn decimal(n: nat) -> Seq<char>
    decreases n,
{
    if n < 10 {
        seq![digit_char(n)]
    } else {
        decimal(n / 10).push(digit_char(n % 10))
    }
}

fn digit_str(d: u32) -> (r: &'static str)
    requires
        d < 10,
    ensures
        r@ == seq![digit_char(d as nat)],
{
    proof {
        reveal_strlit("0");
        reveal_strlit("1");
        reveal_strlit("2");
        reveal_strlit("3");
        reveal_strlit("4");
        reveal_strlit("5");
        reveal_strlit("6");
        reveal_strlit("7");
        reveal_strlit("8");
        reveal_strlit("9");
    }
    let r = match d {
        0 => "0",
        1 => "1",
        2 => "2",
        3 => "3",
        4 => "4",
        5 => "5",
        6 => "6",
        7 => "7",
        8 => "8",
        _ => "9",
    };
    assert(r@ =~= seq![digit_char(d as nat)]);
    r
}

/// Appends the decimal representation of `n`.
pub fn push_decimal(s: &mut String, n: u32)
    ensures
        final(s)@ == old(s)@ + decimal(n as nat),
    decreases n,
{
    if n >= 10 {
        push_decimal(s, n / 10);
    }
    s.append(digit_str(n % 10));
    assert(old(s)@ + decimal(n as nat) =~= if n >= 10 {
        old(s)@ + decimal((n / 10) as nat) + seq![digit_char((n % 10) as nat)]
    } else {
        old(s)@ + seq![digit_char((n % 10) as nat)]
    });
}

/// The escape sequence that moves the cursor to the 0-indexed cell `(x, y)`.
pub open spec fn move_code(x: nat, y: nat) -> Seq<char> {
    "\x1B["@ + decimal(y + 1) + ";"@ + decimal(x + 1) + "H"@
}

/// Move the cursor to 0-indexed (x, y) terminal position.
#[derive(Copy, Clone, Debug, Default)]
pub struct Move(pub u16, pub u16);

impl Move {
    /// The escape sequence of the move.
    pub fn to_string(&self) -> (r: String)
        ensures
            r@ == move_code(self.0 as nat, self.1 as nat),
    {
        let mut r = String::from_str("\x1B[");
        push_decimal(&mut r, self.1 as u32 + 1);
        r.append(";");
        push_decimal(&mut r, self.0 as u32 + 1);
        r.append("H");
        r
    }
}

/// Whether a color applies to the foreground or to the background.
#[derive(Copy, Clone, Debug, PartialEq, Eq, Structural)]
pub enum Ground {
    Fore,
    Back,
}

impl Ground {
    /// The parameter that selects this ground in a color escape sequence.
    pub open spec fn spec_code(self) -> nat {
        match self {
            Ground::Fore => 38,
            Ground::Back => 48,
        }
    }

    /// The parameter that selects this ground in a color escape sequence.
    pub fn code(&self) -> (r: u32)
        ensures
            r == self.spec_code(),
    {
        match self {
            Ground::Fore => 38,
            Ground::Back => 48,
        }
    }
}

/// 8-bit ANSI color.
#[derive(Copy, Clone, Debug, PartialEq, Eq, Structural)]
pub struct C8(pub u8);

/// 24-bit RGB color.
#[derive(Copy, Clone, Debug, PartialEq, Eq, Structural)]
pub struct C24 {
    pub r: u8,
    pub g: u8,
    pub b: u8,
}

#[derive(Copy, Clone, Debug, PartialEq, Eq, Structural)]
pub enum Color {
    C8(C8),
    C24(C24),
    Reset,
}

/// Change the terminal's writing color.
#[derive(Copy, Clone, Debug, PartialEq, Eq, Structural)]
pub struct Paint {
    pub color: Color,
    pub ground: Ground,
}

/// The paint that resets the background color.
pub open spec fn reset_paint() -> Paint {
    Paint { color: Color::Reset, ground: Ground::Back }
}

/// The escape sequence that selects a paint.
pub open spec fn paint_code(p: Paint) -> Seq<char> {
    let g = p.ground.spec_code();
    match p.color {
        Color::C8(c) => "\x1B["@ + decimal(g) + ";5;"@ + decimal(c.0 as nat) + "m"@,
        Color::C24(c) => "\x1B["@ + decimal(g) + ";2;"@ + decimal(c.r as nat) + ";"@ + decimal(
            c.g as nat,
        ) + ";"@ + decimal(c.b as nat) + "m"@,
        Color::Reset => "\x1B["@ + decimal(g + 1) + "m"@,
    }
}

impl Paint {
    /// Reset the background color.
    pub fn reset() -> (p: Paint)
        ensures
            p == reset_paint(),
    {
        Paint { color: Color::Reset, ground: Ground::Back }
    }

    /// The escape sequence of the paint.
    pub fn to_string(&self) -> (r: String)
        ensures
            r@ == paint_code(*self),
    {
        let g = self.ground.code();
        let mut r = String::from_str("\x1B[");
        match self.color {
            Color::C8(c) => {
                push_decimal(&mut r, g);
                r.append(";5;");
                push_decimal(&mut r, c.0 as u32);
            },
            Color::C24(c) => {
                push_decimal(&mut r, g);
                r.append(";2;");
                push_decimal(&mut r, c.r as u32);
                r.append(";");
                push_decimal(&mut r, c.g as u32);
                r.append(";");
                push_decimal(&mut r, c.b as u32);
            },
            Color::Reset => {
                push_decimal(&mut r, g + 1);
            },
        }
        r.append("m");
        r
    }
}


/// The state of a brush: its paint, whether the next cell is lit, the paint
/// whose escape sequence was written last, and whether nothing is pending.
pub struct BrushState {
    pub paint: Paint,
    pub on: bool,
    pub last: Paint,
    pub dried: bool,
}

impl BrushState {
    /// What a cell painted now looks like: the paint when lit, else the reset.
    pub open spec fn effective(self) -> Paint {
        if self.on {
            self.paint
        } else {
            reset_paint()
        }
    }

    /// Nothing is pending exactly when the effective paint is the one written last.
    pub open spec fn wf(self) -> bool {
        self.dried == (self.effective() == self.last)
    }

    /// The state after switching to background paint of `color`.
    pub open spec fn dipped(self, color: Color) -> BrushState {
        let b = BrushState { paint: Paint { color, ground: Ground::Back }, ..self };
        BrushState { dried: b.effective() == self.last, ..b }
    }

    /// The state after switching the brush on or off.
    pub open spec fn switched(self, on: bool) -> BrushState {
        let b = BrushState { on, ..self };
        BrushState { dried: b.effective() == self.last, ..b }
    }

    /// What rendering writes: nothing when dried, else the effective paint's code.
    pub open spec fn emitted(self) -> Seq<char> {
        if self.dried {
            Seq::empty()
        } else {
            paint_code(self.effective())
        }
    }

    /// The state after rendering: the effective paint is the one written last.
    pub open spec fn rendered(self) -> BrushState {
        BrushState { last: self.effective(), dried: true, ..self }
    }
}

/// Edge-triggered paint: will only write
/// escape code when switching paint colors.
#[derive(Copy, Clone, Debug)]
pub struct Brush {
    paint: Paint,
    on: bool,
    last: Paint,
    dried: bool,
}

impl View for Brush {
    type V = BrushState;

    closed spec fn view(&self) -> BrushState {
        BrushState { paint: self.paint, on: self.on, last: self.last, dried: self.dried }
    }
}

impl Brush {
    /// A brush of background paint `color`, off, with the reset paint taken
    /// as written and nothing pending.
    pub fn new(color: Color) -> (b: Brush)
        ensures
            b@ == (BrushState {
                paint: Paint { color, ground: Ground::Back },
                on: false,
                last: reset_paint(),
                dried: true,
            }),
            b@.wf(),
    {
        Brush {
            paint: Paint { color, ground: Ground::Back },
            on: false,
            last: Paint::reset(),
            dried: true,
        }
    }

    fn effective(&self) -> (p: Paint)
        ensures
            p == self@.effective(),
    {
        if self.on {
            self.paint
        } else {
            Paint::reset()
        }
    }

    /// Changes the color of the paint.
    pub fn dip(&mut self, color: Color)
        ensures
            final(self)@ == old(self)@.dipped(color),
    {
        self.paint = Paint { color, ground: Ground::Back };
        self.dried = self.effective() == self.last;
    }

    /// Switches the brush off.
    pub fn raise(&mut self)
        ensures
            final(self)@ == old(self)@.switched(false),
    {
        self.set(false)
    }

    /// Switches the brush on or off.
    pub fn set(&mut self, on: bool)
        ensures
            final(self)@ == old(self)@.switched(on),
    {
        self.on = on;
        self.dried = self.effective() == self.last;
    }

    /// The escape sequence of the brush's effective paint if it differs from
    /// the one written last, else nothing; nothing is pending afterwards.
    pub fn render(&mut self) -> (r: String)
        ensures
            r@ == old(self)@.emitted(),
            final(self)@ == old(self)@.rendered(),
    {
        if self.dried {
            self.last = self.effective();
            return String::new();
        }
        self.dried = true;
        self.last = self.effective();
        self.last.to_string()
    }
}

/// A paint's escape sequence is never empty.
pub proof fn lemma_paint_code_nonempty(p: Paint)
    ensures
        paint_code(p).len() > 0,
{
    reveal_strlit("\x1B[");
}

/// A change of color or of on/off leaves an escape sequence pending exactly
/// when the effective paint then differs from the one written last.
pub proof fn lemma_pending_iff_changed(b: BrushState, color: Color, on: bool)
    ensures
        b.dipped(color).dried == (b.dipped(color).effective() == b.last),
        b.switched(on).dried == (b.switched(on).effective() == b.last),
        b.dipped(color).wf(),
        b.switched(on).wf(),
        b.rendered().wf(),
        b.wf() ==> b.dipped(color).last == b.last && b.switched(on).last == b.last,
{
}

/// Dipping and switching a brush twice in the same way, rendering after each,
/// writes the escape sequence at most once: the second rendering writes
/// nothing, and the first writes the code of the new state if it differs
/// from the one written last.
pub proof fn lemma_repeat_renders_once(b: BrushState, color: Color, on: bool)
    ensures
        ({
            let first = b.dipped(color).switched(on);
            let second = first.rendered().dipped(color).switched(on);
            &&& second.emitted() == Seq::<char>::empty()
            &&& second.effective() == first.effective()
            &&& first.effective() != b.last ==> first.emitted() == paint_code(first.effective())
                && first.emitted().len() > 0
        }),
{
    lemma_paint_code_nonempty(b.dipped(color).switched(on).effective());
}

/// Whether `c` is an ASCII decimal digit.
pub open spec fn is_digit(c: char) -> bool {
    '0' <= c <= '9'
}

/// The value of a string of decimal digits, most significant first.
pub open spec fn digits_value(s: Seq<char>) -> nat
    decreases s.len(),
{
    if s.len() == 0 {
        0
    } else {
        digits_value(s.drop_last()) * 10 + (s.last() as nat - '0' as nat) as nat
    }
}

/// Whether every character of `s` is a decimal digit.
pub open spec fn all_digits(s: Seq<char>) -> bool {
    forall|i: int| 0 <= i < s.len() ==> is_digit(#[trigger] s[i])
}

/// `s` without its leading `+`, if it has one.
pub open spec fn unsigned_part(s: Seq<char>) -> Seq<char> {
    if s.len() > 0 && s[0] == '+' {
        s.drop_first()
    } else {
        s
    }
}

/// A `u8` written in decimal: an optional `+`, then at least one digit,
/// leading zeros allowed, with a value of at most 255.
pub open spec fn parse_u8_spec(s: Seq<char>) -> Option<u8> {
    let d = unsigned_part(s);
    if d.len() > 0 && all_digits(d) && digits_value(d) <= 255 {
        Some(digits_value(d) as u8)
    } else {
        None
    }
}

/// The pieces of `s` between commas, in order; there is one more piece than commas.
pub open spec fn split_commas(s: Seq<char>) -> Seq<Seq<char>>
    decreases s.len(),
{
    if s.len() == 0 {
        seq![Seq::empty()]
    } else {
        let prev = split_commas(s.drop_last());
        if s.last() == ',' {
            prev.push(Seq::empty())
        } else {
            prev.update(prev.len() - 1, prev.last().push(s.last()))
        }
    }
}

/// The color that a specifier names: one `u8` for an 8-bit color, or three
/// comma-separated `u8`s for R,G,B.
pub open spec fn color_of(s: Seq<char>) -> Option<Color> {
    match parse_u8_spec(s) {
        Some(c) => Some(Color::C8(C8(c))),
        None => {
            let f = split_commas(s);
            if f.len() == 3 && parse_u8_spec(f[0]) is Some && parse_u8_spec(f[1]) is Some
                && parse_u8_spec(f[2]) is Some {
                Some(
                    Color::C24(
                        C24 {
                            r: parse_u8_spec(f[0])->Some_0,
                            g: parse_u8_spec(f[1])->Some_0,
                            b: parse_u8_spec(f[2])->Some_0,
                        },
                    ),
                )
            } else {
                None
            }
        },
    }
}

proof fn lemma_split_nonempty(s: Seq<char>)
    ensures
        split_commas(s).len() >= 1,
    decreases s.len(),
{
    if s.len() > 0 {
        lemma_split_nonempty(s.drop_last());
    }
}

/// Parses a `u8` in decimal, as `str::parse::<u8>` does.
pub fn parse_u8(s: &[char]) -> (r: Option<u8>)
    ensures
        r == parse_u8_spec(s@),
{
    let start: usize = if s.len() > 0 && s[0] == '+' {
        1
    } else {
        0
    };
    let ghost d = unsigned_part(s@);
    if start == s.len() {
        return None;
    }
    // the value so far, held at 256 once it is out of range
    let mut v: u32 = 0;
    let mut i: usize = start;
    while i < s.len()
        invariant
            start <= i <= s@.len(),
            d == unsigned_part(s@),
            d == s@.subrange(start as int, s@.len() as int),
            forall|j: int| 0 <= j < i - start ==> is_digit(#[trigger] d[j]),
            v == if digits_value(d.take(i - start)) < 256 {
                digits_value(d.take(i - start))
            } else {
                256
            },
        decreases s.len() - i,
    {
        let c = s[i];
        if !('0' <= c && c <= '9') {
            assert(!is_digit(d[i - start]));
            return None;
        }
        let dv = (c as u32) - ('0' as u32);
        assert(d.take(i - start + 1).drop_last() =~= d.take(i - start));
        v = if v * 10 + dv > 255 {
            256
        } else {
            v * 10 + dv
        };
        i = i + 1;
    }
    assert(d.take(i - start) =~= d);
    if v > 255 {
        None
    } else {
        Some(v as u8)
    }
}

/// The characters of a string slice.
fn chars_of(s: &str) -> (r: Vec<char>)
    ensures
        r@ == s@,
{
    let n = s.unicode_len();
    let mut r: Vec<char> = Vec::new();
    let mut i: usize = 0;
    while i < n
        invariant
            n == s@.len(),
            i <= n,
            r@ == s@.take(i as int),
        decreases n - i,
    {
        r.push(s.get_char(i));
        i = i + 1;
        assert(r@ =~= s@.take(i as int));
    }
    assert(r@ =~= s@);
    r
}

impl Color {
    /// Parses a color specifier: a single 8-bit color number, or three
    /// comma-separated numbers in R,G,B format. Anything else is a user error.
    pub fn parse(s: &str) -> (r: Result<Color, String>)
        ensures
            match r {
                Ok(c) => color_of(s@) == Some(c),
                Err(m) => color_of(s@) is None && m@ == "[USER ERROR]: invalid color specifier "@
                    + s@,
            },
    {
        let chars = chars_of(s);
        if let Some(c) = parse_u8(chars.as_slice()) {
            return Ok(Color::C8(C8(c)));
        }
        let mut done: Vec<Vec<char>> = Vec::new();
        let mut cur: Vec<char> = Vec::new();
        let ghost mut parts: Seq<Seq<char>> = Seq::empty();
        let mut i: usize = 0;
        while i < chars.len()
            invariant
                i <= chars@.len(),
                chars@ == s@,
                done@.len() == parts.len(),
                forall|j: int| 0 <= j < parts.len() ==> (#[trigger] done@[j])@ == parts[j],
                parts.push(cur@) == split_commas(chars@.take(i as int)),
            decreases chars.len() - i,
        {
            let c = chars[i];
            proof {
                lemma_split_nonempty(chars@.take(i as int));
                assert(chars@.take(i + 1).drop_last() =~= chars@.take(i as int));
            }
            if c == ',' {
                let piece = cur;
                proof {
                    parts = parts.push(piece@);
                }
                done.push(piece);
                cur = Vec::new();
                assert(parts.push(cur@) =~= split_commas(chars@.take(i + 1)));
            } else {
                cur.push(c);
                assert(parts.push(cur@) =~= split_commas(chars@.take(i + 1)));
            }
            i = i + 1;
        }
        assert(chars@.take(i as int) =~= chars@);
        if done.len() == 2 {
            let r = parse_u8(done[0].as_slice());
            let g = parse_u8(done[1].as_slice());
            let b = parse_u8(cur.as_slice());
            if let (Some(r), Some(g), Some(b)) = (r, g, b) {
                return Ok(Color::C24(C24 { r, g, b }));
            }
        }
        let mut m = String::from_str("[USER ERROR]: invalid color specifier ");
        m.append(s);
        Err(m)
    }
}

impl core::str::FromStr for Color {
    type Err = String;

    fn from_str(s: &str) -> Result<Self, Self::Err> {
        Color::parse(s)
    }
}

} // verus!
