//! A player's move on the board: a point and the colour of the stone.

use vstd::prelude::*;

verus! {

/// The colour of a stone; black is `true`.
#[derive(Debug, PartialEq, Eq, Structural)]
pub struct PlayerColor(bool);

impl View for PlayerColor {
    type V = bool;

    closed spec fn view(&self) -> bool {
        self.0
    }
}

impl From<bool> for PlayerColor {
    fn from(value: bool) -> (color: Self)
        ensures
            color@ == value,
    {
        Self(value)
    }
}

impl vstd::std_specs::convert::FromSpecImpl<bool> for PlayerColor {
    open spec fn obeys_from_spec() -> bool {
        true
    }

    closed spec fn from_spec(value: bool) -> Self {
        PlayerColor(value)
    }
}

impl From<PlayerColor> for bool {
    fn from(value: PlayerColor) -> (black: Self)
        ensures
            black == value@,
    {
        value.0
    }
}

impl vstd::std_specs::convert::FromSpecImpl<PlayerColor> for bool {
    open spec fn obeys_from_spec() -> bool {
        true
    }

    open spec fn from_spec(value: PlayerColor) -> Self {
        value@
    }
}

/// The name of a colour as it is shown to players.
pub open spec fn color_name(black: bool) -> Seq<char> {
    if black {
        "black"@
    } else {
        "white"@
    }
}

impl PlayerColor {
    /// The colour's name: "black" or "white".
    pub fn to_string(&self) -> (name: String)
        ensures
            name@ == color_name(self@),
    {
        let color = if self.0 {
            "black"
        } else {
            "white"
        };
        color.to_owned()
    }
}

/// A column of the board.
#[derive(Debug, PartialEq, Eq, Structural)]
pub struct X(i32);

/// A row of the board.
#[derive(Debug, PartialEq, Eq, Structural)]
pub struct Y(i32);

impl View for X {
    type V = int;

    closed spec fn view(&self) -> int {
        self.0 as int
    }
}

impl View for Y {
    type V = int;

    closed spec fn view(&self) -> int {
        self.0 as int
    }
}

impl From<i32> for X {
    fn from(value: i32) -> (x: Self)
        ensures
            x@ == value,
    {
        Self(value)
    }
}

impl vstd::std_specs::convert::FromSpecImpl<i32> for X {
    open spec fn obeys_from_spec() -> bool {
        true
    }

    closed spec fn from_spec(value: i32) -> Self {
        X(value)
    }
}

impl From<X> for i32 {
    fn from(value: X) -> (coordinate: Self)
        ensures
            coordinate == value@,
    {
        value.0
    }
}

impl vstd::std_specs::convert::FromSpecImpl<X> for i32 {
    open spec fn obeys_from_spec() -> bool {
        true
    }

    closed spec fn from_spec(value: X) -> Self {
        value.0
    }
}

impl From<i32> for Y {
    fn from(value: i32) -> (y: Self)
        ensures
            y@ == value,
    {
        Self(value)
    }
}

impl vstd::std_specs::convert::FromSpecImpl<i32> for Y {
    open spec fn obeys_from_spec() -> bool {
        true
    }

    closed spec fn from_spec(value: i32) -> Self {
        Y(value)
    }
}

impl From<Y> for i32 {
    fn from(value: Y) -> (coordinate: Self)
        ensures
            coordinate == value@,
    {
        value.0
    }
}

impl vstd::std_specs::convert::FromSpecImpl<Y> for i32 {
    open spec fn obeys_from_spec() -> bool {
        true
    }

    closed spec fn from_spec(value: Y) -> Self {
        value.0
    }
}

/// One move: where the stone goes and whose it is.
#[derive(Debug, PartialEq, Eq, Structural)]
pub struct PlayerStep {
    pub x: X,
    pub y: Y,
    pub color: PlayerColor,
}

} // verus!
