//! The tool's window: the selection state, pointer hits, and what each frame
//! draws on the 140 x 140 screen.
use vstd::prelude::*;
use crate::choice::{ColorChoice, SizeChoice};

verus! {

/// Palette index of the window background.
pub const BG_COLOR: u8 = 7;

/// Palette index of text and outlines.
pub const TEXT_COLOR: u8 = 0;

/// Palette index of the mark in the selected box.
pub const SELECT_COLOR: u8 = 8;

/// The strings the window shows.
#[derive(Clone, Copy, Debug, PartialEq, Eq, Structural)]
pub enum Caption {
    SizeLabel,
    SquareItem,
    WideItem,
    TallItem,
    ColorLabel,
    WhiteItem,
    BlackItem,
    DropPrompt,
}

impl Caption {
    pub open spec fn spec_text(self) -> Seq<char> {
        match self {
            Caption::SizeLabel => "SIZE"@,
            Caption::SquareItem => "1080 x 1080"@,
            Caption::WideItem => "1080 x  566"@,
            Caption::TallItem => "1080 x 1350"@,
            Caption::ColorLabel => "COLOR"@,
            Caption::WhiteItem => "WHITE"@,
            Caption::BlackItem => "BLACK"@,
            Caption::DropPrompt => "DROP IMAGES HERE!"@,
        }
    }

    pub fn text(self) -> (r: &'static str)
        ensures
            r@ == self.spec_text(),
    {
        match self {
            Caption::SizeLabel => "SIZE",
            Caption::SquareItem => "1080 x 1080",
            Caption::WideItem => "1080 x  566",
            Caption::TallItem => "1080 x 1350",
            Caption::ColorLabel => "COLOR",
            Caption::WhiteItem => "WHITE",
            Caption::BlackItem => "BLACK",
            Caption::DropPrompt => "DROP IMAGES HERE!",
        }
    }
}

/// One drawing primitive, in screen pixels and palette indices.
#[derive(Clone, Copy, Debug, PartialEq, Eq, Structural)]
pub enum DrawCommand {
    /// Fill the whole screen.
    Clear { color: u8 },
    /// Text with its top-left corner at `(x, y)`.
    Text { x: i32, y: i32, caption: Caption, color: u8 },
    /// Outline of a rectangle.
    Frame { x: i32, y: i32, w: i32, h: i32, color: u8 },
    /// Filled rectangle.
    Fill { x: i32, y: i32, w: i32, h: i32, color: u8 },
}

/// The current selections. Each field holds exactly one choice at all times.
#[derive(Clone, Copy, Debug, PartialEq, Eq, Structural)]
pub struct App {
    pub size: SizeChoice,
    pub color: ColorChoice,
}

/// The list row under screen row `y`, if any: rows start at 15, 25 and 35 and
/// accept clicks from two pixels above to seven below their start.
pub open spec fn row_at(y: i32) -> Option<u32> {
    if 13 <= y < 22 {
        Some(0u32)
    } else if 23 <= y < 32 {
        Some(1u32)
    } else if 33 <= y < 42 {
        Some(2u32)
    } else {
        None
    }
}

/// Columns of the size list.
pub open spec fn in_size_column(x: i32) -> bool {
    13 <= x < 71
}

/// Columns of the colour list.
pub open spec fn in_color_column(x: i32) -> bool {
    88 <= x < 122
}

/// The size at list position `i`, for `i < 3`.
pub open spec fn size_at(i: u32) -> SizeChoice {
    if i == 0 {
        SizeChoice::Square
    } else if i == 1 {
        SizeChoice::Wide
    } else {
        SizeChoice::Tall
    }
}

/// The colour at list position `i`, for `i < 2`.
pub open spec fn color_at(i: u32) -> ColorChoice {
    if i == 0 {
        ColorChoice::White
    } else {
        ColorChoice::Black
    }
}

/// The selections after a click at `(x, y)`.
pub open spec fn spec_click(app: App, x: i32, y: i32) -> App {
    match row_at(y) {
        Some(i) => if in_size_column(x) {
            App { size: size_at(i), ..app }
        } else if i < 2 && in_color_column(x) {
            App { color: color_at(i), ..app }
        } else {
            app
        },
        None => app,
    }
}

/// The selections after a sequence of clicks, in order.
pub open spec fn spec_clicks(app: App, clicks: Seq<(i32, i32)>) -> App
    decreases clicks.len(),
{
    if clicks.len() == 0 {
        app
    } else {
        spec_clicks(spec_click(app, clicks[0].0, clicks[0].1), clicks.drop_first())
    }
}

/// The frame drawn for the selections of `app`.
pub open spec fn spec_frame(app: App) -> Seq<DrawCommand> {
    let s = app.size.spec_index() as i32;
    let c = app.color.spec_index() as i32;
    seq![
        DrawCommand::Clear { color: BG_COLOR },
        DrawCommand::Text { x: 34, y: 5, caption: Caption::SizeLabel, color: TEXT_COLOR },
        DrawCommand::Frame { x: 15, y: 15, w: 5, h: 5, color: TEXT_COLOR },
        DrawCommand::Text { x: 25, y: 15, caption: Caption::SquareItem, color: TEXT_COLOR },
        DrawCommand::Frame { x: 15, y: 25, w: 5, h: 5, color: TEXT_COLOR },
        DrawCommand::Text { x: 25, y: 25, caption: Caption::WideItem, color: TEXT_COLOR },
        DrawCommand::Frame { x: 15, y: 35, w: 5, h: 5, color: TEXT_COLOR },
        DrawCommand::Text { x: 25, y: 35, caption: Caption::TallItem, color: TEXT_COLOR },
        DrawCommand::Fill { x: 16, y: (16 + 10 * s) as i32, w: 3, h: 3, color: SELECT_COLOR },
        DrawCommand::Text { x: 95, y: 5, caption: Caption::ColorLabel, color: TEXT_COLOR },
        DrawCommand::Text { x: 100, y: 15, caption: Caption::WhiteItem, color: TEXT_COLOR },
        DrawCommand::Frame { x: 90, y: 15, w: 5, h: 5, color: TEXT_COLOR },
        DrawCommand::Text { x: 100, y: 25, caption: Caption::BlackItem, color: TEXT_COLOR },
        DrawCommand::Frame { x: 90, y: 25, w: 5, h: 5, color: TEXT_COLOR },
        DrawCommand::Fill { x: 91, y: (16 + 10 * c) as i32, w: 3, h: 3, color: SELECT_COLOR },
        DrawCommand::Frame { x: 10, y: 45, w: 120, h: 90, color: TEXT_COLOR },
        DrawCommand::Text { x: 37, y: 87, caption: Caption::DropPrompt, color: TEXT_COLOR },
    ]
}

impl App {
    /// The first choice of each list.
    pub fn new() -> (r: App)
        ensures
            r == (App { size: SizeChoice::Square, color: ColorChoice::White }),
    {
        App { size: SizeChoice::Square, color: ColorChoice::White }
    }

    /// A press of the primary button at screen position `(x, y)`: a hit on a
    /// row of either list selects that row's choice; anything else is ignored.
    pub fn click(&mut self, x: i32, y: i32)
        ensures
            *final(self) == spec_click(*old(self), x, y),
    {
        let row: Option<u32> = if 13 <= y && y < 22 {
            Some(0)
        } else if 23 <= y && y < 32 {
            Some(1)
        } else if 33 <= y && y < 42 {
            Some(2)
        } else {
            None
        };
        if let Some(i) = row {
            if 13 <= x && x < 71 {
                if let Some(s) = SizeChoice::from_index(i) {
                    self.size = s;
                }
            } else if i < 2 && 88 <= x && x < 122 {
                if let Some(c) = ColorChoice::from_index(i) {
                    self.color = c;
                }
            }
        }
    }

    /// The commands that draw the window for the current selections.
    pub fn frame(&self) -> (r: Vec<DrawCommand>)
        ensures
            r@ == spec_frame(*self),
    {
        let s = self.size.index() as i32;
        let c = self.color.index() as i32;
        let mut v: Vec<DrawCommand> = Vec::new();
        v.push(DrawCommand::Clear { color: BG_COLOR });
        v.push(DrawCommand::Text { x: 34, y: 5, caption: Caption::SizeLabel, color: TEXT_COLOR });
        v.push(DrawCommand::Frame { x: 15, y: 15, w: 5, h: 5, color: TEXT_COLOR });
        v.push(DrawCommand::Text { x: 25, y: 15, caption: Caption::SquareItem, color: TEXT_COLOR });
        v.push(DrawCommand::Frame { x: 15, y: 25, w: 5, h: 5, color: TEXT_COLOR });
        v.push(DrawCommand::Text { x: 25, y: 25, caption: Caption::WideItem, color: TEXT_COLOR });
        v.push(DrawCommand::Frame { x: 15, y: 35, w: 5, h: 5, color: TEXT_COLOR });
        v.push(DrawCommand::Text { x: 25, y: 35, caption: Caption::TallItem, color: TEXT_COLOR });
        v.push(DrawCommand::Fill { x: 16, y: 16 + 10 * s, w: 3, h: 3, color: SELECT_COLOR });
        v.push(DrawCommand::Text { x: 95, y: 5, caption: Caption::ColorLabel, color: TEXT_COLOR });
        v.push(DrawCommand::Text { x: 100, y: 15, caption: Caption::WhiteItem, color: TEXT_COLOR });
        v.push(DrawCommand::Frame { x: 90, y: 15, w: 5, h: 5, color: TEXT_COLOR });
        v.push(DrawCommand::Text { x: 100, y: 25, caption: Caption::BlackItem, color: TEXT_COLOR });
        v.push(DrawCommand::Frame { x: 90, y: 25, w: 5, h: 5, color: TEXT_COLOR });
        v.push(DrawCommand::Fill { x: 91, y: 16 + 10 * c, w: 3, h: 3, color: SELECT_COLOR });
        v.push(DrawCommand::Frame { x: 10, y: 45, w: 120, h: 90, color: TEXT_COLOR });
        v.push(DrawCommand::Text { x: 37, y: 87, caption: Caption::DropPrompt, color: TEXT_COLOR });
        assert(v@ =~= spec_frame(*self));
        v
    }
}

/// The mark drawn in the box of size `s`.
pub open spec fn size_mark(s: SizeChoice) -> DrawCommand {
    DrawCommand::Fill { x: 16, y: (16 + 10 * s.spec_index()) as i32, w: 3, h: 3, color: SELECT_COLOR }
}

/// The mark drawn in the box of colour `c`.
pub open spec fn color_mark(c: ColorChoice) -> DrawCommand {
    DrawCommand::Fill { x: 91, y: (16 + 10 * c.spec_index()) as i32, w: 3, h: 3, color: SELECT_COLOR }
}

/// The frame marks the box of exactly one size and exactly one colour: those
/// selected.
pub proof fn lemma_frame_marks_selection(app: App)
    ensures
        forall|s: SizeChoice| #[trigger] spec_frame(app).contains(size_mark(s)) <==> s == app.size,
        forall|c: ColorChoice| #[trigger] spec_frame(app).contains(color_mark(c)) <==> c == app.color,
{
    let f = spec_frame(app);
    assert(f[8] == size_mark(app.size));
    assert(f[14] == color_mark(app.color));
    assert forall|s: SizeChoice| #[trigger] f.contains(size_mark(s)) implies s == app.size by {
        let i = choose|i: int| 0 <= i < f.len() && f[i] == size_mark(s);
        assert(i == 8);
    }
    assert forall|c: ColorChoice| #[trigger] f.contains(color_mark(c)) implies c == app.color by {
        let i = choose|i: int| 0 <= i < f.len() && f[i] == color_mark(c);
        assert(i == 14);
    }
}

/// Whatever clicks arrive, the frame afterwards marks exactly one size and
/// exactly one colour.
pub proof fn lemma_selection_exclusive(app: App, clicks: Seq<(i32, i32)>)
    ensures
        ({
            let a = spec_clicks(app, clicks);
            &&& forall|s: SizeChoice| #[trigger] spec_frame(a).contains(size_mark(s)) <==> s == a.size
            &&& forall|c: ColorChoice| #[trigger] spec_frame(a).contains(color_mark(c)) <==> c
                == a.color
        }),
{
    lemma_frame_marks_selection(spec_clicks(app, clicks));
}

} // verus!
