//! Device descriptors: the immutable snapshot that enumeration returns.

use vstd::prelude::*;

use crate::control::{Representation, RepresentationView};
use crate::format::FourCC;

verus! {

/// A device control together with its platform identity.
#[derive(Clone, Debug, PartialEq, Eq)]
pub struct ControlInfo {
    /// Platform-assigned identifier, unique within a device.
    pub id: u32,
    /// Human-readable control name.
    pub name: String,
    /// Portable representation of the control.
    pub repr: Representation,
}

/// The mathematical image of a [`ControlInfo`].
pub struct ControlInfoView {
    pub id: u32,
    pub name: Seq<char>,
    pub repr: RepresentationView,
}

impl DeepView for ControlInfo {
    type V = ControlInfoView;

    open spec fn deep_view(&self) -> ControlInfoView {
        ControlInfoView { id: self.id, name: self.name@, repr: self.repr.deep_view() }
    }
}

/// One entry of the normalized format catalog: a pixel format code, the
/// discrete resolutions the platform enumerated for it (insertion order,
/// duplicates allowed, possibly empty when the platform reported only
/// stepwise ranges), and whether the format is emulated by a
/// compatibility layer rather than produced natively.
#[derive(Clone, Debug, PartialEq, Eq)]
pub struct FormatInfo {
    pub fourcc: FourCC,
    pub resolutions: Vec<(u32, u32)>,
    pub emulated: bool,
}

/// The mathematical image of a [`FormatInfo`].
pub struct FormatInfoView {
    pub fourcc: Seq<u8>,
    pub resolutions: Seq<(u32, u32)>,
    pub emulated: bool,
}

impl DeepView for FormatInfo {
    type V = FormatInfoView;

    open spec fn deep_view(&self) -> FormatInfoView {
        FormatInfoView {
            fourcc: self.fourcc.deep_view(),
            resolutions: self.resolutions.deep_view(),
            emulated: self.emulated,
        }
    }
}

/// The descriptor of one enumerated device: identity, format catalog and
/// control taxonomy. It is an immutable snapshot owned by the caller; it
/// does not track live device state, and the index is only stable for
/// the lifetime of the enumeration call.
#[derive(Clone, Debug, PartialEq, Eq)]
pub struct Info {
    pub index: u32,
    pub name: String,
    pub formats: Vec<FormatInfo>,
    pub controls: Vec<ControlInfo>,
}

/// The mathematical image of an [`Info`].
pub struct InfoView {
    pub index: u32,
    pub name: Seq<char>,
    pub formats: Seq<FormatInfoView>,
    pub controls: Seq<ControlInfoView>,
}

impl DeepView for Info {
    type V = InfoView;

    open spec fn deep_view(&self) -> InfoView {
        InfoView {
            index: self.index,
            name: self.name@,
            formats: self.formats.deep_view(),
            controls: self.controls.deep_view(),
        }
    }
}

} // verus!
