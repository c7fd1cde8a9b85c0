//! The raw platform snapshot: plain-value images of what the platform
//! query surface reports for each device.
//!
//! Enumeration logic works over these types rather than over live
//! platform handles, so the whole pipeline is a pure function of one
//! snapshot. A failed platform query is recorded as `None` at the
//! smallest enclosing unit, which is exactly the granularity at which
//! enumeration recovers by omission.

use vstd::prelude::*;

use crate::format::FourCC;

verus! {

/// Capability flag: the device supports video capture.
pub const CAP_VIDEO_CAPTURE: u32 = 0x00000001;

/// Capability flag: the device supports streaming I/O.
pub const CAP_STREAMING: u32 = 0x04000000;

/// Format flag: the format is emulated by a compatibility layer.
pub const FMT_EMULATED: u32 = 0x0002;

/// The capability bits a device reports.
#[derive(Clone, Copy, Debug, PartialEq, Eq)]
pub struct RawCapabilities {
    pub capabilities: u32,
}

impl DeepView for RawCapabilities {
    type V = RawCapabilities;

    open spec fn deep_view(&self) -> RawCapabilities {
        *self
    }
}

/// The platform's control data types, exactly as the driver reports
/// them. Only a subset is recognized by the portable taxonomy; the
/// rest classify as `Unknown`.
#[derive(Clone, Copy, Debug, PartialEq, Eq)]
pub enum RawControlType {
    Integer,
    Boolean,
    Menu,
    Button,
    Integer64,
    CtrlClass,
    String,
    Bitmask,
    IntegerMenu,
    U8,
    U16,
    U32,
    Area,
}

impl DeepView for RawControlType {
    type V = RawControlType;

    open spec fn deep_view(&self) -> RawControlType {
        *self
    }
}

/// One entry of a platform menu control: a named or a numeric item.
#[derive(Clone, Debug, PartialEq, Eq)]
pub enum RawMenuItem {
    Name(String),
    Value(i64),
}

/// The mathematical image of a [`RawMenuItem`].
pub enum RawMenuItemView {
    Name(Seq<char>),
    Value(i64),
}

impl DeepView for RawMenuItem {
    type V = RawMenuItemView;

    open spec fn deep_view(&self) -> RawMenuItemView {
        match self {
            RawMenuItem::Name(name) => RawMenuItemView::Name(name@),
            RawMenuItem::Value(value) => RawMenuItemView::Value(*value),
        }
    }
}

/// A platform control description: identity, data type, and the integer
/// constraints and menu items that come with it. The menu items carry
/// the platform's (index, item) pairs in the platform's native order;
/// `None` means the control is not a menu or its items were not given.
#[derive(Clone, Debug, PartialEq, Eq)]
pub struct RawControl {
    pub id: u32,
    pub name: String,
    pub typ: RawControlType,
    pub minimum: i64,
    pub maximum: i64,
    pub step: u64,
    pub default: i64,
    pub items: Option<Vec<(u32, RawMenuItem)>>,
}

/// The mathematical image of a [`RawControl`].
pub struct RawControlView {
    pub id: u32,
    pub name: Seq<char>,
    pub typ: RawControlType,
    pub minimum: i64,
    pub maximum: i64,
    pub step: u64,
    pub default: i64,
    pub items: Option<Seq<(u32, RawMenuItemView)>>,
}

impl DeepView for RawControl {
    type V = RawControlView;

    open spec fn deep_view(&self) -> RawControlView {
        RawControlView {
            id: self.id,
            name: self.name@,
            typ: self.typ,
            minimum: self.minimum,
            maximum: self.maximum,
            step: self.step,
            default: self.default,
            items: self.items.deep_view(),
        }
    }
}

/// A platform pixel format description: the code and the format flags.
#[derive(Clone, Copy, Debug, PartialEq, Eq)]
pub struct RawFormat {
    pub fourcc: FourCC,
    pub flags: u32,
}

impl DeepView for RawFormat {
    type V = RawFormat;

    open spec fn deep_view(&self) -> RawFormat {
        *self
    }
}

/// One platform frame size entry: an explicit discrete geometry, or a
/// stepwise range description (which enumeration drops, not
/// approximates).
#[derive(Clone, Copy, Debug, PartialEq, Eq)]
pub enum RawFrameSize {
    Discrete { width: u32, height: u32 },
    Stepwise {
        min_width: u32,
        max_width: u32,
        step_width: u32,
        min_height: u32,
        max_height: u32,
        step_height: u32,
    },
}

impl DeepView for RawFrameSize {
    type V = RawFrameSize;

    open spec fn deep_view(&self) -> RawFrameSize {
        *self
    }
}

/// One format of an opened device, together with the outcome of its
/// frame size query (`None`: the query failed, so this format is
/// skipped while the rest of the device survives).
#[derive(Clone, Debug, PartialEq, Eq)]
pub struct RawFormatEntry {
    pub format: RawFormat,
    pub sizes: Option<Vec<RawFrameSize>>,
}

/// The mathematical image of a [`RawFormatEntry`].
pub struct RawFormatEntryView {
    pub format: RawFormat,
    pub sizes: Option<Seq<RawFrameSize>>,
}

impl DeepView for RawFormatEntry {
    type V = RawFormatEntryView;

    open spec fn deep_view(&self) -> RawFormatEntryView {
        RawFormatEntryView { format: self.format, sizes: self.sizes.deep_view() }
    }
}

/// Everything the platform reported for one raw device. Each field that
/// comes from a fallible query is an `Option`; `None` records that the
/// query failed. `formats` is `None` when the device could not be
/// opened or its format enumeration failed.
#[derive(Clone, Debug, PartialEq, Eq)]
pub struct RawDevice {
    pub index: Option<usize>,
    pub name: Option<String>,
    pub capabilities: Option<RawCapabilities>,
    pub controls: Option<Vec<RawControl>>,
    pub formats: Option<Vec<RawFormatEntry>>,
}

/// The mathematical image of a [`RawDevice`].
pub struct RawDeviceView {
    pub index: Option<usize>,
    pub name: Option<Seq<char>>,
    pub capabilities: Option<RawCapabilities>,
    pub controls: Option<Seq<RawControlView>>,
    pub formats: Option<Seq<RawFormatEntryView>>,
}

impl DeepView for RawDevice {
    type V = RawDeviceView;

    open spec fn deep_view(&self) -> RawDeviceView {
        RawDeviceView {
            index: self.index,
            name: self.name.deep_view(),
            capabilities: self.capabilities,
            controls: self.controls.deep_view(),
            formats: self.formats.deep_view(),
        }
    }
}

} // verus!
