//! Wind directions on the eight-point compass.

use vstd::prelude::*;

verus! {

#[derive(Eq, PartialEq, Debug, Structural, Clone, Copy)]
pub enum WindDirection {
    NorthWest,
    North,
    NorthEast,
    East,
    SouthEast,
    South,
    SouthWest,
    West,
}

/// A bearing that falls in no sector of the compass.
#[derive(Eq, PartialEq, Debug, Structural, Clone, Copy)]
pub struct UnknownBearing {
    pub degrees: u16,
}

/// The sector of an angle below 360 degrees: eight sectors of 45 degrees,
/// north centred on 0.
pub open spec fn sector_of(degrees: int) -> WindDirection {
    if degrees >= 337 || degrees < 22 {
        WindDirection::North
    } else if degrees < 67 {
        WindDirection::NorthEast
    } else if degrees < 112 {
        WindDirection::East
    } else if degrees < 157 {
        WindDirection::SouthEast
    } else if degrees < 202 {
        WindDirection::South
    } else if degrees < 247 {
        WindDirection::SouthWest
    } else if degrees < 292 {
        WindDirection::West
    } else {
        WindDirection::NorthWest
    }
}

impl WindDirection {
    /// The direction that the wind comes from, for a bearing in degrees;
    /// full turns are dropped first. Every bearing has a direction.
    pub fn get_direction(wind_direction: u16) -> (direction: Result<Self, UnknownBearing>)
        ensures
            direction == Ok::<Self, UnknownBearing>(sector_of(wind_direction as int % 360)),
    {
        let degrees = wind_direction % 360;
        if degrees >= 337 || degrees < 22 {
            Ok(Self::North)
        } else if degrees < 67 {
            Ok(Self::NorthEast)
        } else if degrees < 112 {
            Ok(Self::East)
        } else if degrees < 157 {
            Ok(Self::SouthEast)
        } else if degrees < 202 {
            Ok(Self::South)
        } else if degrees < 247 {
            Ok(Self::SouthWest)
        } else if degrees < 292 {
            Ok(Self::West)
        } else if degrees < 337 {
            Ok(Self::NorthWest)
        } else {
            Err(UnknownBearing { degrees: wind_direction })
        }
    }

    /// The arrow that points where the wind blows to.
    pub open spec fn icon(self) -> char {
        match self {
            WindDirection::North => '↓',
            WindDirection::NorthEast => '↙',
            WindDirection::East => '←',
            WindDirection::SouthEast => '↖',
            WindDirection::South => '↑',
            WindDirection::SouthWest => '↗',
            WindDirection::West => '→',
            WindDirection::NorthWest => '↘',
        }
    }

    pub fn get_icon(&self) -> (icon: char)
        ensures
            icon == self.icon(),
    {
        match *self {
            Self::North => '↓',
            Self::NorthEast => '↙',
            Self::East => '←',
            Self::SouthEast => '↖',
            Self::South => '↑',
            Self::SouthWest => '↗',
            Self::West => '→',
            Self::NorthWest => '↘',
        }
    }

    /// The arrow as text of one character.
    pub fn icon_text(&self) -> (text: &'static str)
        ensures
            text@ == seq![self.icon()],
    {
        proof {
            reveal_strlit("↓");
            reveal_strlit("↙");
            reveal_strlit("←");
            reveal_strlit("↖");
            reveal_strlit("↑");
            reveal_strlit("↗");
            reveal_strlit("→");
            reveal_strlit("↘");
        }
        let text = match *self {
            Self::North => "↓",
            Self::NorthEast => "↙",
            Self::East => "←",
            Self::SouthEast => "↖",
            Self::South => "↑",
            Self::SouthWest => "↗",
            Self::West => "→",
            Self::NorthWest => "↘",
        };
        assert(text@ =~= seq![self.icon()]);
        text
    }

    /// The abbreviation shown beside the wind speed.
    pub open spec fn label(self) -> Seq<char> {
        match self {
            WindDirection::NorthWest => "NW"@,
            WindDirection::North => "N"@,
            WindDirection::NorthEast => "NE"@,
            WindDirection::East => "E"@,
            WindDirection::SouthEast => "SW"@,
            WindDirection::South => "S"@,
            WindDirection::SouthWest => "SW"@,
            WindDirection::West => "W"@,
        }
    }

    pub fn fmt(&self) -> (text: &'static str)
        ensures
            text@ == self.label(),
    {
        match self {
            WindDirection::NorthWest => "NW",
            WindDirection::North => "N",
            WindDirection::NorthEast => "NE",
            WindDirection::East => "E",
            WindDirection::SouthEast => "SW",
            WindDirection::South => "S",
            WindDirection::SouthWest => "SW",
            WindDirection::West => "W",
        }
    }
}

} // verus!
