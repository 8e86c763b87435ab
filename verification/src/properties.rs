//! Style and position enums: pure value types mapping to style tokens.

use vstd::prelude::*;

verus! {

/// Color variant of a notification, mapping to a style class.
#[derive(Clone, Copy, PartialEq, Eq, Structural, Debug)]
pub enum Color {
    Default,
    Dark,
    Primary,
    Link,
    Info,
    Success,
    Warning,
    Danger,
}

/// Size variant of a notification, mapping to a style class.
#[derive(Clone, Copy, PartialEq, Eq, Structural, Debug)]
pub enum Size {
    Small,
    Normal,
    Medium,
    Large,
}

/// One of the four fixed screen corners a notification stack can occupy.
#[derive(Clone, Copy, PartialEq, Eq, Structural, Debug)]
pub enum Position {
    TopLeft,
    TopRight,
    BottomLeft,
    BottomRight,
}

/// The view of an optional style class as an optional character sequence.
pub open spec fn str_opt_view(r: Option<&str>) -> Option<Seq<char>> {
    match r {
        Some(s) => Some(s@),
        None => None,
    }
}

/// The style class each color maps to; `Default` has none.
pub open spec fn color_class_spec(c: Color) -> Option<Seq<char>> {
    match c {
        Color::Default => None,
        Color::Dark => Some("is-dark"@),
        Color::Primary => Some("is-primary"@),
        Color::Link => Some("is-link"@),
        Color::Info => Some("is-info"@),
        Color::Success => Some("is-success"@),
        Color::Warning => Some("is-warning"@),
        Color::Danger => Some("is-danger"@),
    }
}

/// The style class each size maps to; `Normal` has none.
pub open spec fn size_class_spec(s: Size) -> Option<Seq<char>> {
    match s {
        Size::Small => Some("is-small"@),
        Size::Normal => None,
        Size::Medium => Some("is-medium"@),
        Size::Large => Some("is-large"@),
    }
}

/// The container style class for each corner.
pub open spec fn position_style_spec(p: Position) -> Seq<char> {
    match p {
        Position::TopLeft => "ybn-top-left"@,
        Position::TopRight => "ybn-top-right"@,
        Position::BottomLeft => "ybn-bottom-left"@,
        Position::BottomRight => "ybn-bottom-right"@,
    }
}

/// Whether a corner sits at the left edge of the screen; left corners
/// animate to and from the left, right corners to and from the right.
pub open spec fn is_left(p: Position) -> bool {
    p == Position::TopLeft || p == Position::BottomLeft
}

/// The entry-animation style class for each corner.
pub open spec fn animate_in_spec(p: Position) -> Seq<char> {
    if is_left(p) {
        "ybn-animate-in-from-left"@
    } else {
        "ybn-animate-in-from-right"@
    }
}

/// The exit-animation style class for each corner.
pub open spec fn animate_out_spec(p: Position) -> Seq<char> {
    if is_left(p) {
        "ybn-animate-out-to-left"@
    } else {
        "ybn-animate-out-to-right"@
    }
}

impl Color {
    /// The style class for this color, if it has one.
    pub fn class(&self) -> (r: Option<&'static str>)
        ensures
            str_opt_view(r) == color_class_spec(*self),
    {
        match self {
            Color::Default => None,
            Color::Dark => Some("is-dark"),
            Color::Primary => Some("is-primary"),
            Color::Link => Some("is-link"),
            Color::Info => Some("is-info"),
            Color::Success => Some("is-success"),
            Color::Warning => Some("is-warning"),
            Color::Danger => Some("is-danger"),
        }
    }
}

impl Size {
    /// The style class for this size, if it has one.
    pub fn class(&self) -> (r: Option<&'static str>)
        ensures
            str_opt_view(r) == size_class_spec(*self),
    {
        match self {
            Size::Small => Some("is-small"),
            Size::Normal => None,
            Size::Medium => Some("is-medium"),
            Size::Large => Some("is-large"),
        }
    }
}

impl Position {
    /// The positioned-container style class for this corner.
    pub fn style(&self) -> (r: &'static str)
        ensures
            r@ == position_style_spec(*self),
    {
        match self {
            Position::TopLeft => "ybn-top-left",
            Position::TopRight => "ybn-top-right",
            Position::BottomLeft => "ybn-bottom-left",
            Position::BottomRight => "ybn-bottom-right",
        }
    }

    /// The entry-animation style class for this corner.
    pub fn animate_in_style(&self) -> (r: &'static str)
        ensures
            r@ == animate_in_spec(*self),
    {
        match self {
            Position::TopLeft => "ybn-animate-in-from-left",
            Position::TopRight => "ybn-animate-in-from-right",
            Position::BottomLeft => "ybn-animate-in-from-left",
            Position::BottomRight => "ybn-animate-in-from-right",
        }
    }

    /// The exit-animation style class for this corner.
    pub fn animate_out_style(&self) -> (r: &'static str)
        ensures
            r@ == animate_out_spec(*self),
    {
        match self {
            Position::TopLeft => "ybn-animate-out-to-left",
            Position::TopRight => "ybn-animate-out-to-right",
            Position::BottomLeft => "ybn-animate-out-to-left",
            Position::BottomRight => "ybn-animate-out-to-right",
        }
    }
}

} // verus!
