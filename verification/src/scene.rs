//! The lock screen itself: an opaque ground, a centred card, the password well and its dots, and
//! one status line.
//!
//! Positions and lengths are whole numbers of half pixels, and channels of colours are in
//! thousandths, so that what is painted is exact. Sums of positions are those of single precision.

use vstd::prelude::*;
use vstd::string::StrSliceExecFns;

use crate::single;
use crate::surface;
use crate::text;

verus! {

/// What a thing is painted in.
#[derive(Clone, Copy, Debug, PartialEq, Eq, Structural)]
pub enum Color {
    /// The ground. Opaque: a translucent lock screen would show what it hides.
    Ground,
    /// The card.
    Card,
    /// The password well.
    Well,
    /// A dot of the password.
    Dot,
    /// The user's name.
    Name,
    /// The status while a check runs.
    Busy,
    /// The status while the session is released.
    Releasing,
    /// A message to the user.
    Notice,
    /// The warning that Caps Lock is on.
    Caps,
}

/// Red, green, blue and alpha in linear light, each in thousandths.
#[derive(Clone, Copy, Debug, PartialEq, Eq, Structural)]
pub struct Channels {
    pub red: u16,
    pub green: u16,
    pub blue: u16,
    pub alpha: u16,
}

impl Color {
    /// The channels of a colour. These are linear values: the display encodes them, so that a
    /// twentieth is already a mid grey on screen.
    pub open spec fn spec_channels(self) -> Channels {
        match self {
            Color::Ground => Channels { red: 4, green: 4, blue: 6, alpha: 1000 },
            Color::Card => Channels { red: 13, green: 13, blue: 17, alpha: 1000 },
            Color::Well => Channels { red: 5, green: 5, blue: 7, alpha: 1000 },
            Color::Dot => Channels { red: 800, green: 800, blue: 880, alpha: 1000 },
            Color::Name => Channels { red: 1000, green: 1000, blue: 1000, alpha: 1000 },
            Color::Busy => Channels { red: 720, green: 720, blue: 800, alpha: 1000 },
            Color::Releasing => Channels { red: 720, green: 850, blue: 720, alpha: 1000 },
            Color::Notice => Channels { red: 950, green: 550, blue: 550, alpha: 1000 },
            Color::Caps => Channels { red: 950, green: 800, blue: 500, alpha: 1000 },
        }
    }

    /// The channels of a colour.
    pub fn channels(&self) -> (c: Channels)
        ensures
            c == self.spec_channels(),
    {
        match self {
            Color::Ground => Channels { red: 4, green: 4, blue: 6, alpha: 1000 },
            Color::Card => Channels { red: 13, green: 13, blue: 17, alpha: 1000 },
            Color::Well => Channels { red: 5, green: 5, blue: 7, alpha: 1000 },
            Color::Dot => Channels { red: 800, green: 800, blue: 880, alpha: 1000 },
            Color::Name => Channels { red: 1000, green: 1000, blue: 1000, alpha: 1000 },
            Color::Busy => Channels { red: 720, green: 720, blue: 800, alpha: 1000 },
            Color::Releasing => Channels { red: 720, green: 850, blue: 720, alpha: 1000 },
            Color::Notice => Channels { red: 950, green: 550, blue: 550, alpha: 1000 },
            Color::Caps => Channels { red: 950, green: 800, blue: 500, alpha: 1000 },
        }
    }
}

/// A rectangle, in half pixels.
#[derive(Clone, Copy, Debug, PartialEq, Eq, Structural)]
pub struct Rect {
    pub x: i64,
    pub y: i64,
    pub width: i64,
    pub height: i64,
}

/// One thing to paint.
#[derive(Clone, Copy, Debug, PartialEq, Eq, Structural)]
pub enum Paint {
    /// A filled rectangle.
    Quad { rect: Rect, color: Color },
    /// A raised plate with all four corners cut.
    Plate { rect: Rect, color: Color },
    /// A recess whose rim is lit in the highlight.
    Recess { rect: Rect },
    /// A filled circle around a point.
    Circle { x: i64, y: i64, radius: i64, color: Color },
}

/// A line of text: where it starts in half pixels, and its size in pixels.
pub struct Label<S> {
    pub text: S,
    pub x: i64,
    pub y: i64,
    pub size: u32,
    pub color: Color,
}

/// A line of text placed on the physical pixels of an output.
pub struct Span<S> {
    pub text: S,
    pub left: i128,
    pub top: i128,
    pub size: u32,
    pub color: Color,
}

/// What the screen is doing, which is also what it says.
#[derive(Clone, Copy, Debug, PartialEq, Eq, Structural)]
pub enum Phase {
    /// Waiting for a password.
    Prompt,
    /// A credential check is running. Input is ignored until it answers, so a held Return cannot
    /// queue a hundred attempts.
    Checking,
    /// The credentials were accepted: the unlock request has gone out.
    Unlocking,
}

/// Everything that is painted, in order, and the lines of text over it.
pub struct Scene {
    pub paints: Vec<Paint>,
    pub labels: Vec<Label<String>>,
}

/// The most dots that are shown.
pub const MAX_DOTS: usize = 32;

/// The width of the card in pixels, on a screen of the given width: 360, or what a margin of 20
/// on either side leaves.
pub open spec fn card_width(width: u32) -> int {
    let room = single::single(single::single(width as int) - 40);
    if room < 360 {
        room
    } else {
        360
    }
}

/// The card, centred on the screen.
pub open spec fn card(width: u32, height: u32) -> Rect {
    Rect {
        x: single::single(single::single(width as int) - card_width(width)) as i64,
        y: single::single(single::single(height as int) - 170) as i64,
        width: (2 * card_width(width)) as i64,
        height: 340,
    }
}

/// The password well on the card.
pub open spec fn well(width: u32, height: u32) -> Rect {
    Rect {
        x: single::single(card(width, height).x + 48) as i64,
        y: single::single(card(width, height).y + 116) as i64,
        width: (2 * single::single(card_width(width) - 48)) as i64,
        height: 76,
    }
}

/// The whole screen.
pub open spec fn screen(width: u32, height: u32) -> Rect {
    Rect {
        x: 0,
        y: 0,
        width: (2 * single::single(width as int)) as i64,
        height: (2 * single::single(height as int)) as i64,
    }
}

/// Dot number `i` of the password, counted from 0.
pub open spec fn dot(width: u32, height: u32, i: int) -> Paint {
    let first = single::single(single::single(well(width, height).x + 28) + 7);
    Paint::Circle {
        x: single::single(first + 22 * i) as i64,
        y: single::single(well(width, height).y + 38) as i64,
        radius: 7,
        color: Color::Dot,
    }
}

/// How many dots stand for a password: one for each character, up to `MAX_DOTS`.
pub open spec fn dots_for(password: Seq<char>) -> int {
    if password.len() < MAX_DOTS {
        password.len() as int
    } else {
        MAX_DOTS as int
    }
}

/// All that is painted, in order, on a screen of the given size with that many dots.
pub open spec fn paints(width: u32, height: u32, dots: int) -> Seq<Paint> {
    seq![
        Paint::Quad { rect: screen(width, height), color: Color::Ground },
        Paint::Plate { rect: card(width, height), color: Color::Card },
        Paint::Quad { rect: well(width, height), color: Color::Well },
        Paint::Recess { rect: well(width, height) },
    ] + Seq::new(dots as nat, |i: int| dot(width, height, i))
}

/// The status line and its colour, `None` where there is nothing to say.
///
/// While a check runs, what the stack has said last is shown in place of the plain line: it can
/// hold the check for seconds, and explains itself during that time.
pub open spec fn status_line(phase: Phase, status: Option<Seq<char>>, caps_lock: bool) -> Option<
    (Seq<char>, Color),
> {
    match phase {
        Phase::Checking => match status {
            Some(msg) => if msg.len() == 0 {
                Some(("Checking…"@, Color::Busy))
            } else {
                Some((msg, Color::Busy))
            },
            None => Some(("Checking…"@, Color::Busy)),
        },
        Phase::Unlocking => Some(("Unlocking…"@, Color::Releasing)),
        Phase::Prompt => match status {
            Some(msg) => if msg.len() == 0 {
                None
            } else {
                Some((msg, Color::Notice))
            },
            None => if caps_lock {
                Some(("Caps Lock is on"@, Color::Caps))
            } else {
                None
            },
        },
    }
}

/// The lines of text: the user's name, then the status line if there is one.
pub open spec fn labels(
    width: u32,
    height: u32,
    username: Seq<char>,
    status: Option<(Seq<char>, Color)>,
) -> Seq<Label<Seq<char>>> {
    let x = single::single(card(width, height).x + 48) as i64;
    let name = Label {
        text: username,
        x,
        y: single::single(card(width, height).y + 44) as i64,
        size: 15u32,
        color: Color::Name,
    };
    match status {
        None => seq![name],
        Some((text, color)) => seq![
            name,
            Label {
                text,
                x,
                y: single::single(card(width, height).y + 224) as i64,
                size: 12u32,
                color,
            },
        ],
    }
}

impl Label<String> {
    /// The label with its text as a sequence of characters.
    pub open spec fn view(&self) -> Label<Seq<char>> {
        Label { text: self.text@, x: self.x, y: self.y, size: self.size, color: self.color }
    }
}

impl Span<String> {
    /// The span with its text as a sequence of characters.
    pub open spec fn view(&self) -> Span<Seq<char>> {
        Span {
            text: self.text@,
            left: self.left,
            top: self.top,
            size: self.size,
            color: self.color,
        }
    }
}

/// The labels with their texts as sequences of characters.
pub open spec fn labels_view(labels: Seq<Label<String>>) -> Seq<Label<Seq<char>>> {
    labels.map_values(|l: Label<String>| l.view())
}

/// The spans with their texts as sequences of characters.
pub open spec fn spans_view(spans: Seq<Span<String>>) -> Seq<Span<Seq<char>>> {
    spans.map_values(|s: Span<String>| s.view())
}

/// A label placed on the physical pixels of an output of the given scale.
pub open spec fn place(label: Label<Seq<char>>, scale: i32) -> Span<Seq<char>> {
    Span {
        text: label.text,
        left: single::round_halves(surface::spec_scaled(label.x as int, scale)) as i128,
        top: single::round_halves(surface::spec_scaled(label.y as int, scale)) as i128,
        size: label.size,
        color: label.color,
    }
}

/// Whether every label lies within what can be scaled without overflow.
pub open spec fn placeable(labels: Seq<Label<String>>) -> bool {
    forall|i: int|
        #![trigger labels[i]]
        0 <= i < labels.len() ==> {
            &&& -0x100_0000_0000_0000 <= labels[i].x <= 0x100_0000_0000_0000
            &&& -0x100_0000_0000_0000 <= labels[i].y <= 0x100_0000_0000_0000
        }
}

/// The card is centred: its margins on the left and on the right are equal, and so are those above
/// and below.
pub proof fn card_is_centred(width: u32, height: u32)
    requires
        width <= single::EXACT,
        height <= single::EXACT,
    ensures
        ({
            let s = screen(width, height);
            let c = card(width, height);
            &&& c.x == s.width - (c.x + c.width)
            &&& c.y == s.height - (c.y + c.height)
        }),
{
    single::single_is_exact(width as int);
    single::single_is_exact(height as int);
    single::single_is_exact(width - 40);
    single::single_is_exact(width - card_width(width));
    single::single_is_exact(height - 170);
}

/// The screen is hidden: the first thing painted is a ground over all of it, and no colour that is
/// ever used lets anything show through.
pub proof fn nothing_shows_through(width: u32, height: u32, dots: int, color: Color)
    requires
        0 <= dots,
    ensures
        paints(width, height, dots)[0] == (Paint::Quad {
            rect: screen(width, height),
            color: Color::Ground,
        }),
        color.spec_channels().alpha == 1000,
{
}

/// On a screen of up to 2^22 pixels either way: the card is 360 pixels wide, or leaves a margin of
/// 20 on either side, and 170 high. The well keeps 24 pixels from the card on the left and on the
/// right, 58 from its top, and is 38 high. Dots follow each other at 11 pixels from the left end of
/// the well, half-way down, 3.5 in radius.
pub proof fn layout_in_pixels(width: u32, height: u32, i: int)
    requires
        width <= 4194304,
        height <= 4194304,
        0 <= i <= 32,
    ensures
        ({
            let s = screen(width, height);
            let c = card(width, height);
            let w = well(width, height);
            &&& s.x == 0 && s.y == 0 && s.width == 2 * width && s.height == 2 * height
            &&& c.width == 2 * (if width < 400 {
                width - 40
            } else {
                360
            })
            &&& c.height == 2 * 170
            &&& w.x - c.x == 2 * 24
            &&& (c.x + c.width) - (w.x + w.width) == 2 * 24
            &&& w.y - c.y == 2 * 58
            &&& w.height == 2 * 38
            &&& dot(width, height, i) matches Paint::Circle { x, y, radius, color } && {
                &&& x - w.x == 2 * 14 + radius + 22 * i
                &&& 2 * (y - w.y) == w.height
                &&& 2 * radius == 2 * 7
                &&& color == Color::Dot
            }
        }),
{
    single::single_is_exact(width as int);
    single::single_is_exact(height as int);
    single::single_is_exact(width - 40);
    single::single_is_exact(width - card_width(width));
    single::single_is_exact(height - 170);
    let c = card(width, height);
    single::single_is_exact(c.x + 48);
    single::single_is_exact(c.y + 116);
    single::single_is_exact(card_width(width) - 48);
    let w = well(width, height);
    single::single_is_exact(w.x + 28);
    single::single_is_exact(w.x + 35);
    single::single_is_exact(w.x + 35 + 22 * i);
    single::single_is_exact(w.y + 38);
}

/// On any screen, however large, the card, the well and the dots stand to each other as in
/// [`layout_in_pixels`], but for the rounding of each sum; and the lines of text start at the left
/// end of the well, 22 and 112 pixels below the top of the card.
pub proof fn layout_on_any_screen(
    width: u32,
    height: u32,
    username: Seq<char>,
    status: Option<(Seq<char>, Color)>,
    i: int,
)
    requires
        0 <= i <= 32,
    ensures
        ({
            let c = card(width, height);
            let w = well(width, height);
            let l = labels(width, height, username, status);
            &&& screen(width, height).x == 0 && screen(width, height).y == 0
            &&& screen(width, height).width == 2 * single::single(width as int)
            &&& screen(width, height).height == 2 * single::single(height as int)
            &&& c.width <= 720
            &&& c.width == 720 || c.width == 2 * single::single(
                single::single(width as int) - 40,
            )
            &&& single::single(single::single(width as int) - 40) >= 360 ==> c.width == 720
            &&& c.x == single::single(single::single(width as int) - c.width as int / 2)
            &&& c.y == single::single(single::single(height as int) - 170)
            &&& c.height == 340
            &&& w.x == single::single(c.x + 48)
            &&& w.y == single::single(c.y + 116)
            &&& w.width == 2 * single::single(c.width as int / 2 - 48)
            &&& w.height == 76
            &&& dot(width, height, i) matches Paint::Circle { x, y, radius, color } && {
                &&& x == single::single(single::single(single::single(w.x + 28) + 7) + 22 * i)
                &&& y == single::single(w.y + 38)
                &&& radius == 7
                &&& color == Color::Dot
            }
            &&& l[0].x == w.x
            &&& l[0].y == single::single(c.y + 44)
            &&& l.len() > 1 ==> l[1].x == w.x && l[1].y == single::single(c.y + 224)
            &&& forall|k: int|
                0 <= k < l.len() ==> {
                    &&& -0x80_0000_0000 <= (#[trigger] l[k]).x <= 0x80_0000_0000
                    &&& -0x80_0000_0000 <= l[k].y <= 0x80_0000_0000
                }
        }),
{
    positions_are_bounded(width, height);
    let w = well(width, height);
    let c = card(width, height);
    single::single_at_most_doubles(w.x + 28);
    single::single_at_most_doubles(single::single(w.x + 28) + 7);
    single::single_at_most_doubles(single::single(single::single(w.x + 28) + 7) + 22 * i);
    single::single_at_most_doubles(w.y + 38);
    single::single_at_most_doubles(c.y + 44);
    single::single_at_most_doubles(c.y + 224);
}

/// Positions stay far within 64 bits.
proof fn positions_are_bounded(width: u32, height: u32)
    ensures
        -80 <= card_width(width) <= 360,
        card(width, height).x == single::single(
            single::single(width as int) - card_width(width),
        ),
        card(width, height).y == single::single(single::single(height as int) - 170),
        card(width, height).width == 2 * card_width(width),
        screen(width, height).width == 2 * single::single(width as int),
        screen(width, height).height == 2 * single::single(height as int),
        well(width, height).x == single::single(card(width, height).x + 48),
        well(width, height).y == single::single(card(width, height).y + 116),
        well(width, height).width == 2 * single::single(card_width(width) - 48),
        -0x40_0000_0000 <= well(width, height).x <= 0x40_0000_0000,
        -0x40_0000_0000 <= well(width, height).y <= 0x40_0000_0000,
        -0x10_0000_0000 <= card(width, height).y <= 0x10_0000_0000,
{
    let sw = single::single(width as int);
    let sh = single::single(height as int);
    single::single_at_most_doubles(width as int);
    single::single_at_most_doubles(height as int);
    single::single_at_most_doubles(sw - 40);
    single::single_at_most_doubles(sw - card_width(width));
    single::single_at_most_doubles(sh - 170);
    let c = card(width, height);
    single::single_at_most_doubles(c.x + 48);
    single::single_at_most_doubles(c.y + 116);
    single::single_at_most_doubles(card_width(width) - 48);
}

/// Every character typed adds a dot until there are 32, and from then on none; an empty field has
/// none. What the characters are does not matter.
pub proof fn a_character_is_a_dot(password: Seq<char>, c: char, other: Seq<char>)
    ensures
        dots_for(Seq::empty()) == 0,
        password.len() < 32 ==> dots_for(password.push(c)) == dots_for(password) + 1,
        password.len() >= 32 ==> dots_for(password.push(c)) == dots_for(password),
        password.len() == other.len() ==> dots_for(password) == dots_for(other),
        password.len() <= 32 ==> dots_for(password) == password.len(),
{
}

/// The ground, the card, the well and its rim are painted in this order, then each dot, and
/// nothing else: one more dot is painted after all that was there.
pub proof fn dots_are_painted_last(width: u32, height: u32, dots: int)
    requires
        0 <= dots,
    ensures
        paints(width, height, dots).len() == 4 + dots,
        paints(width, height, 0) == seq![
            Paint::Quad { rect: screen(width, height), color: Color::Ground },
            Paint::Plate { rect: card(width, height), color: Color::Card },
            Paint::Quad { rect: well(width, height), color: Color::Well },
            Paint::Recess { rect: well(width, height) },
        ],
        paints(width, height, dots + 1) == paints(width, height, dots).push(
            dot(width, height, dots),
        ),
{
    assert(paints(width, height, dots + 1) =~= paints(width, height, dots).push(
        dot(width, height, dots),
    ));
}

/// The first line is the user's name, whole, and in the colour of names. There is a second line
/// exactly when there is a status to tell, which it tells whole and in its own colour. Names are
/// larger than statuses.
pub proof fn lines_tell_name_and_status(
    width: u32,
    height: u32,
    username: Seq<char>,
    status: Option<(Seq<char>, Color)>,
)
    ensures
        ({
            let l = labels(width, height, username, status);
            &&& l.len() == (if status is Some {
                2int
            } else {
                1
            })
            &&& l[0].text == username
            &&& l[0].color == Color::Name
            &&& l[0].size == 15
            &&& status matches Some((text, color)) ==> l[1].text == text && l[1].color == color
                && l[1].size == 12
        }),
{
}

/// What the status line says. At the prompt: the message there is, else that Caps Lock is on if it
/// is, else nothing. While a check runs: the message there is, else that it runs. While the
/// session is released: that. An empty message counts as none, but hides Caps Lock.
pub proof fn status_is_told(status: Option<Seq<char>>, caps_lock: bool, msg: Seq<char>)
    ensures
        msg.len() > 0 ==> {
            &&& status_line(Phase::Prompt, Some(msg), caps_lock) == Some((msg, Color::Notice))
            &&& status_line(Phase::Checking, Some(msg), caps_lock) == Some((msg, Color::Busy))
        },
        status_line(Phase::Prompt, None, true) == Some(("Caps Lock is on"@, Color::Caps)),
        status_line(Phase::Prompt, None, false) is None,
        status_line(Phase::Prompt, Some(Seq::empty()), caps_lock) is None,
        status_line(Phase::Checking, None, caps_lock) == Some(("Checking…"@, Color::Busy)),
        status_line(Phase::Checking, Some(Seq::empty()), caps_lock) == Some(
            ("Checking…"@, Color::Busy),
        ),
        status_line(Phase::Unlocking, status, caps_lock) == Some(
            ("Unlocking…"@, Color::Releasing),
        ),
{
}

/// Text can be read: every colour that a line of text is given is light, and the ground, the card
/// and the well behind it are dark.
pub proof fn text_stands_out(
    width: u32,
    height: u32,
    username: Seq<char>,
    phase: Phase,
    status: Option<Seq<char>>,
    caps_lock: bool,
    i: int,
)
    requires
        0 <= i < labels(width, height, username, status_line(phase, status, caps_lock)).len(),
    ensures
        ({
            let color = labels(width, height, username, status_line(phase, status, caps_lock))[i].color;
            let light = color.spec_channels();
            &&& light.red >= 700 && light.green >= 500 && light.blue >= 500
            &&& color != Color::Ground && color != Color::Card && color != Color::Well
        }),
        Color::Ground.spec_channels().red < 20 && Color::Ground.spec_channels().green < 20
            && Color::Ground.spec_channels().blue < 20,
        Color::Card.spec_channels().red < 20 && Color::Card.spec_channels().green < 20
            && Color::Card.spec_channels().blue < 20,
        Color::Well.spec_channels().red < 20 && Color::Well.spec_channels().green < 20
            && Color::Well.spec_channels().blue < 20,
        Color::Dot.spec_channels().red >= 700 && Color::Dot.spec_channels().green >= 700
            && Color::Dot.spec_channels().blue >= 700,
{
}

/// Placing a line on an output changes where it is counted from, and nothing of the line: its
/// text, size and colour stay. The position is the label's at that scale, rounded to whole pixels.
pub proof fn placing_keeps_the_line(label: Label<Seq<char>>, scale: i32)
    requires
        -0x100_0000_0000_0000 <= label.x <= 0x100_0000_0000_0000,
        -0x100_0000_0000_0000 <= label.y <= 0x100_0000_0000_0000,
    ensures
        place(label, scale).text == label.text,
        place(label, scale).size == label.size,
        place(label, scale).color == label.color,
        place(label, scale).left == single::round_halves(
            single::single(label.x * single::single(scale as int)),
        ),
        place(label, scale).top == single::round_halves(
            single::single(label.y * single::single(scale as int)),
        ),
        scale == 1 && 0 <= label.x <= 16777216 && label.x % 2 == 0 ==> 2 * place(label, scale).left
            == label.x,
        scale == 1 && 0 <= label.y <= 16777216 && label.y % 2 == 0 ==> 2 * place(label, scale).top
            == label.y,
        scale == 2 && 0 <= label.x <= 8388608 ==> place(label, scale).left == label.x,
        scale == 2 && 0 <= label.y <= 8388608 ==> place(label, scale).top == label.y,
{
    let f = single::single(scale as int);
    single::single_at_most_doubles(scale as int);
    assert(-0x100_0000_0000_0000 * 0x1_0000_0000 <= label.x * f <= 0x100_0000_0000_0000
        * 0x1_0000_0000) by (nonlinear_arith)
        requires
            -0x100_0000_0000_0000 <= label.x <= 0x100_0000_0000_0000,
            -0x1_0000_0000 <= f <= 0x1_0000_0000,
    ;
    assert(-0x100_0000_0000_0000 * 0x1_0000_0000 <= label.y * f <= 0x100_0000_0000_0000
        * 0x1_0000_0000) by (nonlinear_arith)
        requires
            -0x100_0000_0000_0000 <= label.y <= 0x100_0000_0000_0000,
            -0x1_0000_0000 <= f <= 0x1_0000_0000,
    ;
    single::single_at_most_doubles(label.x * f);
    single::single_at_most_doubles(label.y * f);
    if scale == 1 || scale == 2 {
        single::single_is_exact(scale as int);
        if 0 <= label.x * scale <= 16777216 {
            single::single_is_exact(label.x * scale);
        }
        if 0 <= label.y * scale <= 16777216 {
            single::single_is_exact(label.y * scale);
        }
    }
}

/// A list of labels and its texts tell of the same lines, one by one.
pub proof fn labels_view_is_faithful(list: Seq<Label<String>>, i: int)
    ensures
        labels_view(list).len() == list.len(),
        0 <= i < list.len() ==> {
            &&& labels_view(list)[i].text == list[i].text@
            &&& labels_view(list)[i].x == list[i].x
            &&& labels_view(list)[i].y == list[i].y
            &&& labels_view(list)[i].size == list[i].size
            &&& labels_view(list)[i].color == list[i].color
        },
{
}

/// A list of spans and its texts tell of the same lines, one by one.
pub proof fn spans_view_is_faithful(list: Seq<Span<String>>, i: int)
    ensures
        spans_view(list).len() == list.len(),
        0 <= i < list.len() ==> {
            &&& spans_view(list)[i].text == list[i].text@
            &&& spans_view(list)[i].left == list[i].left
            &&& spans_view(list)[i].top == list[i].top
            &&& spans_view(list)[i].size == list[i].size
            &&& spans_view(list)[i].color == list[i].color
        },
{
}

/// A whole number of units in single precision.
fn snap(n: i64) -> (r: i64)
    requires
        -0x100_0000_0000_0000 <= n <= 0x100_0000_0000_0000,
    ensures
        r == single::single(n as int),
        n >= 0 ==> 0 <= r <= 2 * n,
        n <= 0 ==> 2 * n <= r <= 0,
{
    single::to_single(n as i128) as i64
}

/// The width of the card in pixels.
fn card_pixels(width: u32) -> (w: i64)
    ensures
        w == card_width(width),
        -80 <= w <= 360,
{
    let room: i64 = snap(snap(width as i64) - 40);
    if room < 360 {
        room
    } else {
        360
    }
}

/// The card, centred on the screen.
fn card_rect(width: u32, height: u32) -> (r: Rect)
    ensures
        r == card(width, height),
        -0x10_0000_0000 <= r.x <= 0x10_0000_0000,
        -0x10_0000_0000 <= r.y <= 0x10_0000_0000,
{
    let w: i64 = card_pixels(width);
    Rect {
        x: snap(snap(width as i64) - w),
        y: snap(snap(height as i64) - 170),
        width: 2 * w,
        height: 340,
    }
}

/// The password well on the card.
fn well_rect(width: u32, height: u32) -> (r: Rect)
    ensures
        r == well(width, height),
        -0x40_0000_0000 <= r.x <= 0x40_0000_0000,
        -0x40_0000_0000 <= r.y <= 0x40_0000_0000,
{
    let c: Rect = card_rect(width, height);
    Rect {
        x: snap(c.x + 48),
        y: snap(c.y + 116),
        width: 2 * snap(card_pixels(width) - 48),
        height: 76,
    }
}

/// How many dots stand for a password. Never more is told of it on the screen.
pub fn dots(password: &str) -> (n: usize)
    ensures
        n == dots_for(password@),
{
    let n: usize = password.unicode_len();
    if n < MAX_DOTS {
        n
    } else {
        MAX_DOTS
    }
}

/// All that is painted, in order, on a screen of the given size with that many dots.
pub(crate) fn paint_list(width: u32, height: u32, dots: usize) -> (list: Vec<Paint>)
    requires
        dots <= MAX_DOTS,
    ensures
        list@ == paints(width, height, dots as int),
{
    let w: Rect = well_rect(width, height);
    let ground: Rect = Rect {
        x: 0,
        y: 0,
        width: 2 * snap(width as i64),
        height: 2 * snap(height as i64),
    };
    let mut list: Vec<Paint> = Vec::new();
    list.push(Paint::Quad { rect: ground, color: Color::Ground });
    list.push(Paint::Plate { rect: card_rect(width, height), color: Color::Card });
    list.push(Paint::Quad { rect: w, color: Color::Well });
    list.push(Paint::Recess { rect: w });
    let first: i64 = snap(snap(w.x + 28) + 7);
    let y: i64 = snap(w.y + 38);
    proof {
        assert(list@ =~= paints(width, height, 0));
    }
    for i in 0..dots
        invariant
            dots <= MAX_DOTS,
            w == well(width, height),
            first == single::single(single::single(w.x + 28) + 7),
            y == single::single(w.y + 38),
            -0x400_0000_0000 <= first <= 0x400_0000_0000,
            list@ == paints(width, height, i as int),
    {
        list.push(Paint::Circle { x: snap(first + 22 * (i as i64)), y, radius: 7, color: Color::Dot });
        proof {
            assert(list@ =~= paints(width, height, i + 1));
        }
    }
    list
}

/// The status line and its colour, `None` where there is nothing to say.
pub fn say_status(phase: Phase, status: &Option<String>, caps_lock: bool) -> (line: Option<
    (String, Color),
>)
    ensures
        match line {
            Some((text, color)) => Some((text@, color)),
            None => None,
        } == status_line(phase, text::view_of(*status), caps_lock),
{
    match phase {
        Phase::Checking => match status {
            Some(msg) => {
                if msg.as_str().is_empty() {
                    Some(("Checking…".to_owned(), Color::Busy))
                } else {
                    Some((msg.clone(), Color::Busy))
                }
            },
            None => Some(("Checking…".to_owned(), Color::Busy)),
        },
        Phase::Unlocking => Some(("Unlocking…".to_owned(), Color::Releasing)),
        Phase::Prompt => match status {
            Some(msg) => {
                if msg.as_str().is_empty() {
                    None
                } else {
                    Some((msg.clone(), Color::Notice))
                }
            },
            None => {
                if caps_lock {
                    Some(("Caps Lock is on".to_owned(), Color::Caps))
                } else {
                    None
                }
            },
        },
    }
}

/// The lines of text: the user's name, then the status line if there is one.
pub(crate) fn label_list(width: u32, height: u32, username: &String, status: Option<(String, Color)>) -> (list:
    Vec<Label<String>>)
    ensures
        labels_view(list@) == labels(
            width,
            height,
            username@,
            match status {
                Some((text, color)) => Some((text@, color)),
                None => None,
            },
        ),
        placeable(list@),
{
    let c: Rect = card_rect(width, height);
    let x: i64 = snap(c.x + 48);
    let mut list: Vec<Label<String>> = Vec::new();
    list.push(
        Label { text: username.clone(), x, y: snap(c.y + 44), size: 15, color: Color::Name },
    );
    if let Some((text, color)) = status {
        list.push(Label { text, x, y: snap(c.y + 224), size: 12, color });
    }
    list
}

/// Places labels on the physical pixels of an output of the given scale.
pub(crate) fn place_all(labels: &Vec<Label<String>>, scale: i32) -> (spans: Vec<Span<String>>)
    requires
        placeable(labels@),
    ensures
        spans_view(spans@) == labels_view(labels@).map_values(
            |l: Label<Seq<char>>| place(l, scale),
        ),
        spans@.len() == labels@.len(),
        forall|i: int|
            #![trigger spans@[i]]
            0 <= i < labels@.len() ==> {
                &&& spans@[i].text@ == labels@[i].text@
                &&& spans@[i].size == labels@[i].size
                &&& spans@[i].color == labels@[i].color
            },
{
    let mut spans: Vec<Span<String>> = Vec::new();
    for i in 0..labels.len()
        invariant
            placeable(labels@),
            spans@.len() == i,
            forall|k: int|
                0 <= k < i ==> (#[trigger] spans@[k]).view() == place(labels@[k].view(), scale),
    {
        let label = &labels[i];
        spans.push(
            Span {
                text: label.text.clone(),
                left: single::halves_to_whole(surface::scaled(label.x as i128, scale)),
                top: single::halves_to_whole(surface::scaled(label.y as i128, scale)),
                size: label.size,
                color: label.color,
            },
        );
    }
    spans
}

} // verus!
