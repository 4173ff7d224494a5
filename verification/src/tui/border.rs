//! The box-drawing pieces that frame a panel.

use crate::text::{append_run, run_of};
use vstd::prelude::*;

verus! {

pub enum Border {
    TopLeft,
    Top,
    TopRight,
    Right,
    BottomRight,
    Bottom,
    BottomLeft,
    Left,
}

impl Border {
    /// The character that draws this piece of the frame.
    pub open spec fn glyph(self) -> char {
        match self {
            Border::TopLeft => '╭',
            Border::Top | Border::Bottom => '─',
            Border::TopRight => '╮',
            Border::Right | Border::Left => '│',
            Border::BottomRight => '╯',
            Border::BottomLeft => '╰',
        }
    }

    pub fn fmt(&self) -> (text: &'static str)
        ensures
            text@ == seq![self.glyph()],
    {
        proof {
            reveal_strlit("╭");
            reveal_strlit("─");
            reveal_strlit("╮");
            reveal_strlit("│");
            reveal_strlit("╯");
            reveal_strlit("╰");
        }
        let text = match self {
            Self::TopLeft => "╭",
            Self::Top | Self::Bottom => "─",
            Self::TopRight => "╮",
            Self::Right | Self::Left => "│",
            Self::BottomRight => "╯",
            Self::BottomLeft => "╰",
        };
        assert(text@ =~= seq![self.glyph()]);
        text
    }
}

/// A line that runs from `left` to `right` over `width` copies of `fill`.
pub open spec fn ruled(left: char, fill: char, right: char, width: nat) -> Seq<char> {
    seq![left] + run_of(fill, width) + seq![right]
}

/// Draws a line from `left` to `right` over `width` copies of `fill`; each of
/// the three holds one character.
fn rule(left: &str, fill: &str, right: &str, width: usize) -> (text: String)
    requires
        left@.len() == 1,
        fill@.len() == 1,
        right@.len() == 1,
    ensures
        text@ == ruled(left@[0], fill@[0], right@[0], width as nat),
{
    let mut text = left.to_owned();
    append_run(&mut text, fill, width);
    text.append(right);
    assert(left@ =~= seq![left@[0]]);
    assert(right@ =~= seq![right@[0]]);
    text
}

pub enum Edge {
    Top,
    Bottom,
}

impl Edge {
    /// The upper or lower edge of a panel whose inside is `width` wide.
    pub open spec fn text(self, width: nat) -> Seq<char> {
        match self {
            Edge::Top => ruled('╭', '─', '╮', width),
            Edge::Bottom => ruled('╰', '─', '╯', width),
        }
    }

    pub fn fmt(self, width: usize) -> (text: String)
        ensures
            text@ == self.text(width as nat),
            text@.len() == width + 2,
    {
        match self {
            Self::Top => rule(Border::TopLeft.fmt(), Border::Top.fmt(), Border::TopRight.fmt(), width),
            Self::Bottom => rule(
                Border::BottomLeft.fmt(),
                Border::Bottom.fmt(),
                Border::BottomRight.fmt(),
                width,
            ),
        }
    }
}

pub enum Separator {
    Single,
    Blank,
}

impl Separator {
    /// A line across a panel whose inside is `width` wide: a rule that joins
    /// both sides, or an empty row between them.
    pub open spec fn text(self, width: nat) -> Seq<char> {
        match self {
            Separator::Single => ruled('├', '─', '┤', width),
            Separator::Blank => ruled('│', ' ', '│', width),
        }
    }

    pub fn fmt(self, width: usize) -> (text: String)
        ensures
            text@ == self.text(width as nat),
            text@.len() == width + 2,
    {
        proof {
            reveal_strlit("├");
            reveal_strlit("─");
            reveal_strlit("┤");
            reveal_strlit(" ");
        }
        match self {
            Self::Single => rule("├", "─", "┤", width),
            Self::Blank => rule(Border::Left.fmt(), " ", Border::Right.fmt(), width),
        }
    }
}

} // verus!
