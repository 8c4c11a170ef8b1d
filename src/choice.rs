//! The two selections of the tool: the target canvas and the background colour.
use vstd::prelude::*;

verus! {

/// Target canvas of an export.
#[derive(Clone, Copy, Debug, PartialEq, Eq, Structural)]
pub enum SizeChoice {
    /// 1080 x 1080.
    Square,
    /// 1080 x 566.
    Wide,
    /// 1080 x 1350.
    Tall,
}

/// Background colour of the letterbox bands.
#[derive(Clone, Copy, Debug, PartialEq, Eq, Structural)]
pub enum ColorChoice {
    White,
    Black,
}

impl SizeChoice {
    /// Canvas width and height.
    pub open spec fn spec_dims(self) -> (u32, u32) {
        match self {
            SizeChoice::Square => (1080, 1080),
            SizeChoice::Wide => (1080, 566),
            SizeChoice::Tall => (1080, 1350),
        }
    }

    /// Prefix put in front of the source's file name.
    pub open spec fn spec_prefix(self) -> Seq<char> {
        match self {
            SizeChoice::Square => "_1080x1080_"@,
            SizeChoice::Wide => "_1080x566_"@,
            SizeChoice::Tall => "_1080x1350_"@,
        }
    }

    /// Position of the choice in the on-screen list, from the top.
    pub open spec fn spec_index(self) -> u32 {
        match self {
            SizeChoice::Square => 0,
            SizeChoice::Wide => 1,
            SizeChoice::Tall => 2,
        }
    }

    pub fn dims(self) -> (r: (u32, u32))
        ensures
            r == self.spec_dims(),
    {
        match self {
            SizeChoice::Square => (1080, 1080),
            SizeChoice::Wide => (1080, 566),
            SizeChoice::Tall => (1080, 1350),
        }
    }

    pub fn prefix(self) -> (r: &'static str)
        ensures
            r@ == self.spec_prefix(),
    {
        match self {
            SizeChoice::Square => "_1080x1080_",
            SizeChoice::Wide => "_1080x566_",
            SizeChoice::Tall => "_1080x1350_",
        }
    }

    pub fn index(self) -> (r: u32)
        ensures
            r == self.spec_index(),
    {
        match self {
            SizeChoice::Square => 0,
            SizeChoice::Wide => 1,
            SizeChoice::Tall => 2,
        }
    }

    /// The choice at a list position; `None` past the end of the list.
    pub fn from_index(i: u32) -> (r: Option<SizeChoice>)
        ensures
            i < 3 <==> r.is_some(),
            r matches Some(c) ==> c.spec_index() == i,
    {
        if i == 0 {
            Some(SizeChoice::Square)
        } else if i == 1 {
            Some(SizeChoice::Wide)
        } else if i == 2 {
            Some(SizeChoice::Tall)
        } else {
            None
        }
    }
}

impl ColorChoice {
    /// Red, green and blue channels of the colour.
    pub open spec fn spec_rgb(self) -> (u8, u8, u8) {
        match self {
            ColorChoice::White => (255, 255, 255),
            ColorChoice::Black => (0, 0, 0),
        }
    }

    /// Position of the choice in the on-screen list, from the top.
    pub open spec fn spec_index(self) -> u32 {
        match self {
            ColorChoice::White => 0,
            ColorChoice::Black => 1,
        }
    }

    pub fn rgb(self) -> (r: (u8, u8, u8))
        ensures
            r == self.spec_rgb(),
    {
        match self {
            ColorChoice::White => (255, 255, 255),
            ColorChoice::Black => (0, 0, 0),
        }
    }

    pub fn index(self) -> (r: u32)
        ensures
            r == self.spec_index(),
    {
        match self {
            ColorChoice::White => 0,
            ColorChoice::Black => 1,
        }
    }

    /// The choice at a list position; `None` past the end of the list.
    pub fn from_index(i: u32) -> (r: Option<ColorChoice>)
        ensures
            i < 2 <==> r.is_some(),
            r matches Some(c) ==> c.spec_index() == i,
    {
        if i == 0 {
            Some(ColorChoice::White)
        } else if i == 1 {
            Some(ColorChoice::Black)
        } else {
            None
        }
    }
}

} // verus!
