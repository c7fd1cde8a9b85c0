//! The portable taxonomy of device controls.

use vstd::prelude::*;

verus! {

/// Constraints of an integer-valued control: inclusive range, step and
/// default, widened to 64 bits exactly as the platform reports them
/// (no clamping, no validation that the default lies inside the range).
#[derive(Clone, Copy, Debug, PartialEq, Eq)]
pub struct Integer {
    pub range: (i64, i64),
    pub step: u64,
    pub default: i64,
}

/// One choice of a menu control: a named entry or a numeric one.
#[derive(Clone, Debug, PartialEq, Eq)]
pub enum MenuItem {
    String(String),
    Integer(i64),
}

/// The mathematical image of a [`MenuItem`].
pub enum MenuItemView {
    String(Seq<char>),
    Integer(i64),
}

impl DeepView for MenuItem {
    type V = MenuItemView;

    open spec fn deep_view(&self) -> MenuItemView {
        match self {
            MenuItem::String(name) => MenuItemView::String(name@),
            MenuItem::Integer(value) => MenuItemView::Integer(*value),
        }
    }
}

/// Portable representation of a device control. The taxonomy is closed
/// but total: any platform control type outside the recognized set is
/// carried as `Unknown` rather than dropped or rejected.
#[derive(Clone, Debug, PartialEq, Eq)]
pub enum Representation {
    Integer(Integer),
    Boolean,
    Menu(Vec<MenuItem>),
    Button,
    String,
    Bitmask,
    Unknown,
}

/// The mathematical image of a [`Representation`].
pub enum RepresentationView {
    Integer(Integer),
    Boolean,
    Menu(Seq<MenuItemView>),
    Button,
    String,
    Bitmask,
    Unknown,
}

impl DeepView for Representation {
    type V = RepresentationView;

    open spec fn deep_view(&self) -> RepresentationView {
        match self {
            Representation::Integer(constraints) => RepresentationView::Integer(*constraints),
            Representation::Boolean => RepresentationView::Boolean,
            Representation::Menu(items) => RepresentationView::Menu(items.deep_view()),
            Representation::Button => RepresentationView::Button,
            Representation::String => RepresentationView::String,
            Representation::Bitmask => RepresentationView::Bitmask,
            Representation::Unknown => RepresentationView::Unknown,
        }
    }
}

} // verus!
