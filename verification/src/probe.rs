//! Capability probing and device enumeration.
//!
//! Everything here is a pure function of one platform snapshot
//! ([`RawDevice`] values): classification of controls into the portable
//! taxonomy, classification of formats into the normalized catalog, and
//! the enumeration pipeline that assembles device descriptors while
//! recovering from every partial platform failure by omission at the
//! smallest enclosing unit.

use vstd::prelude::*;

use crate::control::{Integer, MenuItem, MenuItemView, Representation, RepresentationView};
use crate::device::{ControlInfo, ControlInfoView, FormatInfo, FormatInfoView, Info, InfoView};
use crate::snapshot::{
    RawCapabilities, RawControl, RawControlType, RawControlView, RawDevice, RawDeviceView,
    RawFormat, RawFormatEntry, RawFormatEntryView, RawFrameSize, RawMenuItem, RawMenuItemView,
    CAP_STREAMING, CAP_VIDEO_CAPTURE, FMT_EMULATED,
};

verus! {

/// What one platform menu entry becomes in the portable taxonomy: the
/// entry's kind (named or numeric) and payload are preserved.
pub open spec fn spec_menu_item(item: RawMenuItemView) -> MenuItemView {
    match item {
        RawMenuItemView::Name(name) => MenuItemView::String(name),
        RawMenuItemView::Value(value) => MenuItemView::Integer(value),
    }
}

/// The menu items of a control, one per platform (index, item) pair, in
/// the platform's native order.
pub open spec fn spec_menu_seq(items: Seq<(u32, RawMenuItemView)>) -> Seq<MenuItemView>
    decreases items.len(),
{
    if items.len() == 0 {
        Seq::empty()
    } else {
        spec_menu_seq(items.drop_last()).push(spec_menu_item(items.last().1))
    }
}

/// The menu items of a control whose item list may be absent: an absent
/// list yields an empty menu.
pub open spec fn spec_menu_items(items: Option<Seq<(u32, RawMenuItemView)>>) -> Seq<MenuItemView> {
    match items {
        Option::Some(entries) => spec_menu_seq(entries),
        Option::None => Seq::empty(),
    }
}

/// The portable representation of one platform control: the recognized
/// types map to their variant with fields copied verbatim (widened, not
/// clamped or validated), and every other type maps to `Unknown`, so
/// classification is total over the input space.
pub open spec fn spec_classify_control(c: RawControlView) -> RepresentationView {
    match c.typ {
        RawControlType::Integer | RawControlType::Integer64 => RepresentationView::Integer(
            Integer { range: (c.minimum, c.maximum), step: c.step, default: c.default },
        ),
        RawControlType::Boolean => RepresentationView::Boolean,
        RawControlType::Menu => RepresentationView::Menu(spec_menu_items(c.items)),
        RawControlType::Button => RepresentationView::Button,
        RawControlType::String => RepresentationView::String,
        RawControlType::Bitmask => RepresentationView::Bitmask,
        _ => RepresentationView::Unknown,
    }
}

/// The descriptor entry of one control: platform identity plus its
/// portable representation.
pub open spec fn spec_control_info(c: RawControlView) -> ControlInfoView {
    ControlInfoView { id: c.id, name: c.name, repr: spec_classify_control(c) }
}

/// The control taxonomy of a device: one entry per reported control, in
/// platform order — controls never silently disappear.
pub open spec fn spec_control_seq(cs: Seq<RawControlView>) -> Seq<ControlInfoView>
    decreases cs.len(),
{
    if cs.len() == 0 {
        Seq::empty()
    } else {
        spec_control_seq(cs.drop_last()).push(spec_control_info(cs.last()))
    }
}

/// The resolutions kept from a frame size enumeration: exactly the
/// discrete entries, in the platform's order; stepwise ranges
/// contribute nothing.
pub open spec fn spec_resolutions(sizes: Seq<RawFrameSize>) -> Seq<(u32, u32)>
    decreases sizes.len(),
{
    if sizes.len() == 0 {
        Seq::empty()
    } else {
        let rest = spec_resolutions(sizes.drop_last());
        match sizes.last() {
            RawFrameSize::Discrete { width, height } => rest.push((width, height)),
            RawFrameSize::Stepwise { .. } => rest,
        }
    }
}

/// Whether a format is emulated: a bitwise flag test.
pub open spec fn spec_emulated(f: RawFormat) -> bool {
    f.flags & FMT_EMULATED == FMT_EMULATED
}

/// The catalog entry of one format: its code, the discrete resolutions
/// of its frame size enumeration, and the emulated flag.
pub open spec fn spec_classify_format(f: RawFormat, sizes: Seq<RawFrameSize>) -> FormatInfoView {
    FormatInfoView {
        fourcc: f.fourcc@,
        resolutions: spec_resolutions(sizes),
        emulated: spec_emulated(f),
    }
}

/// The format catalog of a device: one entry per format whose frame
/// size query succeeded, in platform order; a format whose query failed
/// is skipped without affecting the rest.
pub open spec fn spec_format_seq(entries: Seq<RawFormatEntryView>) -> Seq<FormatInfoView>
    decreases entries.len(),
{
    if entries.len() == 0 {
        Seq::empty()
    } else {
        let rest = spec_format_seq(entries.drop_last());
        match entries.last().sizes {
            Option::Some(sizes) => rest.push(spec_classify_format(entries.last().format, sizes)),
            Option::None => rest,
        }
    }
}

/// The capability gate: a device must report both the video capture
/// and the streaming capability bit.
pub open spec fn spec_caps_ok(caps: RawCapabilities) -> bool {
    &&& caps.capabilities & CAP_VIDEO_CAPTURE == CAP_VIDEO_CAPTURE
    &&& caps.capabilities & CAP_STREAMING == CAP_STREAMING
}

/// Whether a raw device survives enumeration: it has a resolvable index
/// and name, its capability query succeeded with both required
/// capability bits present, its controls query succeeded (even an empty
/// control set is fine), and it could be opened with its formats
/// enumerated.
pub open spec fn spec_usable(d: RawDeviceView) -> bool {
    &&& d.index is Some
    &&& d.name is Some
    &&& d.capabilities matches Some(caps) && spec_caps_ok(caps)
    &&& d.controls is Some
    &&& d.formats is Some
}

/// The descriptor assembled for a usable raw device.
pub open spec fn spec_descriptor(d: RawDeviceView) -> InfoView
    recommends
        spec_usable(d),
{
    InfoView {
        index: (match d.index {
            Option::Some(i) => i,
            Option::None => 0,
        }) as u32,
        name: match d.name {
            Option::Some(n) => n,
            Option::None => Seq::empty(),
        },
        formats: spec_format_seq(
            match d.formats {
                Option::Some(f) => f,
                Option::None => Seq::empty(),
            },
        ),
        controls: spec_control_seq(
            match d.controls {
                Option::Some(c) => c,
                Option::None => Seq::empty(),
            },
        ),
    }
}

/// The full enumeration result for a snapshot: the descriptors of the
/// usable devices, in platform enumeration order, with every other
/// device skipped silently.
pub open spec fn spec_enumerate(devs: Seq<RawDeviceView>) -> Seq<InfoView>
    decreases devs.len(),
{
    if devs.len() == 0 {
        Seq::empty()
    } else {
        let rest = spec_enumerate(devs.drop_last());
        if spec_usable(devs.last()) {
            rest.push(spec_descriptor(devs.last()))
        } else {
            rest
        }
    }
}

/// Tests the capability gate on reported capability bits.
pub fn caps_ok(caps: &RawCapabilities) -> (r: bool)
    ensures
        r == spec_caps_ok(*caps),
{
    caps.capabilities & CAP_VIDEO_CAPTURE == CAP_VIDEO_CAPTURE
        && caps.capabilities & CAP_STREAMING == CAP_STREAMING
}

/// Converts the menu items of a platform control, preserving each
/// entry's kind and the platform's order; an absent item list yields an
/// empty menu.
fn menu_items(items: &Option<Vec<(u32, RawMenuItem)>>) -> (r: Vec<MenuItem>)
    ensures
        r.deep_view() == spec_menu_items(items.deep_view()),
{
    match items {
        Option::None => Vec::new(),
        Option::Some(entries) => {
            let mut out: Vec<MenuItem> = Vec::new();
            let mut i: usize = 0;
            while i < entries.len()
                invariant
                    i <= entries.len(),
                    out.deep_view() == spec_menu_seq(entries.deep_view().take(i as int)),
                decreases entries.len() - i,
            {
                let ghost s = entries.deep_view();
                let ghost pre = out.deep_view();
                let item = match &entries[i].1 {
                    RawMenuItem::Name(name) => MenuItem::String(name.clone()),
                    RawMenuItem::Value(value) => MenuItem::Integer(*value),
                };
                let ghost iv = item.deep_view();
                out.push(item);
                proof {
                    assert(s[i as int] == entries@[i as int].deep_view());
                    assert(iv == spec_menu_item(s[i as int].1));
                    assert(out.deep_view() =~= pre.push(iv));
                    assert(s.take(i as int + 1).drop_last() =~= s.take(i as int));
                    assert(s.take(i as int + 1).last() == s[i as int]);
                }
                i += 1;
            }
            proof {
                assert(entries.deep_view().take(entries.len() as int) =~= entries.deep_view());
            }
            out
        },
    }
}

/// Classifies one platform control into the portable taxonomy: pure,
/// total, no side effects. Recognized types keep their fields verbatim;
/// anything else becomes `Unknown`.
pub fn classify_control(c: &RawControl) -> (r: Representation)
    ensures
        r.deep_view() == spec_classify_control(c.deep_view()),
{
    match c.typ {
        RawControlType::Integer | RawControlType::Integer64 => Representation::Integer(
            Integer { range: (c.minimum, c.maximum), step: c.step, default: c.default },
        ),
        RawControlType::Boolean => Representation::Boolean,
        RawControlType::Menu => Representation::Menu(menu_items(&c.items)),
        RawControlType::Button => Representation::Button,
        RawControlType::String => Representation::String,
        RawControlType::Bitmask => Representation::Bitmask,
        _ => Representation::Unknown,
    }
}

/// Classifies one platform format into a catalog entry: keeps exactly
/// the discrete frame sizes, in platform order, and sets the emulated
/// flag from the platform's format flags.
pub fn classify_format(format: &RawFormat, sizes: &Vec<RawFrameSize>) -> (r: FormatInfo)
    ensures
        r.deep_view() == spec_classify_format(*format, sizes.deep_view()),
{
    let mut resolutions: Vec<(u32, u32)> = Vec::new();
    let mut i: usize = 0;
    while i < sizes.len()
        invariant
            i <= sizes.len(),
            resolutions.deep_view() == spec_resolutions(sizes.deep_view().take(i as int)),
        decreases sizes.len() - i,
    {
        let ghost s = sizes.deep_view();
        let ghost pre = resolutions.deep_view();
        match &sizes[i] {
            RawFrameSize::Discrete { width, height } => {
                let w: u32 = *width;
                let h: u32 = *height;
                resolutions.push((w, h));
                proof {
                    assert(resolutions.deep_view() =~= pre.push((w, h)));
                }
            },
            RawFrameSize::Stepwise { .. } => {},
        }
        proof {
            assert(s[i as int] == sizes@[i as int]);
            assert(s.take(i as int + 1).drop_last() =~= s.take(i as int));
            assert(s.take(i as int + 1).last() == s[i as int]);
        }
        i += 1;
    }
    proof {
        assert(sizes.deep_view().take(sizes.len() as int) =~= sizes.deep_view());
    }
    FormatInfo {
        fourcc: format.fourcc,
        resolutions,
        emulated: format.flags & FMT_EMULATED == FMT_EMULATED,
    }
}

/// Probes one raw device: returns its descriptor when the device is
/// usable, and `None` when any per-device query failed or the
/// capability gate is not met — a skip, never an error.
pub fn probe_device(dev: &RawDevice) -> (r: Option<Info>)
    ensures
        r.deep_view() == (if spec_usable(dev.deep_view()) {
            Some(spec_descriptor(dev.deep_view()))
        } else {
            None::<InfoView>
        }),
{
    let index: usize = match &dev.index {
        Option::Some(i) => *i,
        Option::None => {
            return None;
        },
    };
    let name: String = match &dev.name {
        Option::Some(n) => n.clone(),
        Option::None => {
            return None;
        },
    };
    let caps: RawCapabilities = match &dev.capabilities {
        Option::Some(c) => *c,
        Option::None => {
            return None;
        },
    };
    if !caps_ok(&caps) {
        return None;
    }
    let raw_controls: &Vec<RawControl> = match &dev.controls {
        Option::Some(cs) => cs,
        Option::None => {
            return None;
        },
    };
    let raw_formats: &Vec<RawFormatEntry> = match &dev.formats {
        Option::Some(fs) => fs,
        Option::None => {
            return None;
        },
    };

    let mut controls: Vec<ControlInfo> = Vec::new();
    let mut i: usize = 0;
    while i < raw_controls.len()
        invariant
            i <= raw_controls.len(),
            controls.deep_view() == spec_control_seq(raw_controls.deep_view().take(i as int)),
        decreases raw_controls.len() - i,
    {
        let ghost s = raw_controls.deep_view();
        let ghost pre = controls.deep_view();
        let c = &raw_controls[i];
        let entry = ControlInfo { id: c.id, name: c.name.clone(), repr: classify_control(c) };
        let ghost ev = entry.deep_view();
        controls.push(entry);
        proof {
            assert(s[i as int] == raw_controls@[i as int].deep_view());
            assert(ev == spec_control_info(s[i as int]));
            assert(controls.deep_view() =~= pre.push(ev));
            assert(s.take(i as int + 1).drop_last() =~= s.take(i as int));
            assert(s.take(i as int + 1).last() == s[i as int]);
        }
        i += 1;
    }
    proof {
        assert(raw_controls.deep_view().take(raw_controls.len() as int) =~= raw_controls
            .deep_view());
    }

    let mut formats: Vec<FormatInfo> = Vec::new();
    let mut j: usize = 0;
    while j < raw_formats.len()
        invariant
            j <= raw_formats.len(),
            formats.deep_view() == spec_format_seq(raw_formats.deep_view().take(j as int)),
        decreases raw_formats.len() - j,
    {
        let ghost s = raw_formats.deep_view();
        let ghost pre = formats.deep_view();
        let entry = &raw_formats[j];
        match &entry.sizes {
            Option::Some(sizes) => {
                let fi = classify_format(&entry.format, sizes);
                let ghost fv = fi.deep_view();
                formats.push(fi);
                proof {
                    assert(s[j as int] == raw_formats@[j as int].deep_view());
                    assert(fv == spec_classify_format(s[j as int].format, s[j as int].sizes->0));
                    assert(formats.deep_view() =~= pre.push(fv));
                }
            },
            Option::None => {},
        }
        proof {
            assert(s[j as int] == raw_formats@[j as int].deep_view());
            assert(s.take(j as int + 1).drop_last() =~= s.take(j as int));
            assert(s.take(j as int + 1).last() == s[j as int]);
        }
        j += 1;
    }
    proof {
        assert(raw_formats.deep_view().take(raw_formats.len() as int) =~= raw_formats.deep_view());
    }

    let descriptor = Info {
        index: #[verifier::truncate] (index as u32),
        name,
        formats,
        controls,
    };
    Some(descriptor)
}

/// Enumerates the devices of one platform snapshot: the descriptors of
/// the usable devices, in platform enumeration order. Enumeration never
/// fails; every partial platform failure is recovered by skipping the
/// smallest enclosing unit, and the result is a pure function of the
/// snapshot alone.
pub fn enumerate(snapshot: &Vec<RawDevice>) -> (r: Vec<Info>)
    ensures
        r.deep_view() == spec_enumerate(snapshot.deep_view()),
{
    let mut list: Vec<Info> = Vec::new();
    let mut i: usize = 0;
    while i < snapshot.len()
        invariant
            i <= snapshot.len(),
            list.deep_view() == spec_enumerate(snapshot.deep_view().take(i as int)),
        decreases snapshot.len() - i,
    {
        let ghost s = snapshot.deep_view();
        let ghost pre = list.deep_view();
        match probe_device(&snapshot[i]) {
            Option::Some(info) => {
                let ghost iv = info.deep_view();
                list.push(info);
                proof {
                    assert(list.deep_view() =~= pre.push(iv));
                }
            },
            Option::None => {},
        }
        proof {
            assert(s[i as int] == snapshot@[i as int].deep_view());
            assert(s.take(i as int + 1).drop_last() =~= s.take(i as int));
            assert(s.take(i as int + 1).last() == s[i as int]);
        }
        i += 1;
    }
    proof {
        assert(snapshot.deep_view().take(snapshot.len() as int) =~= snapshot.deep_view());
    }
    list
}

/// Law: control classification is total and verbatim. Every raw type in
/// the recognized set maps to its matching variant with the fields
/// copied unchanged (widened, never clamped), and every raw type
/// outside that set maps to `Unknown` — classification never fails and
/// never omits a control.
pub proof fn lemma_classify_control_total(c: RawControlView)
    ensures
        c.typ == RawControlType::Integer || c.typ == RawControlType::Integer64
            ==> spec_classify_control(c) == RepresentationView::Integer(
            (Integer { range: (c.minimum, c.maximum), step: c.step, default: c.default }),
        ),
        c.typ == RawControlType::Boolean ==> spec_classify_control(c)
            == RepresentationView::Boolean,
        c.typ == RawControlType::Menu ==> spec_classify_control(c) == RepresentationView::Menu(
            spec_menu_items(c.items),
        ),
        c.typ == RawControlType::Button ==> spec_classify_control(c)
            == RepresentationView::Button,
        c.typ == RawControlType::String ==> spec_classify_control(c)
            == RepresentationView::String,
        c.typ == RawControlType::Bitmask ==> spec_classify_control(c)
            == RepresentationView::Bitmask,
        !(c.typ == RawControlType::Integer || c.typ == RawControlType::Integer64 || c.typ
            == RawControlType::Boolean || c.typ == RawControlType::Menu || c.typ
            == RawControlType::Button || c.typ == RawControlType::String || c.typ
            == RawControlType::Bitmask) ==> spec_classify_control(c)
            == RepresentationView::Unknown,
{
}

/// The number of discrete entries in a frame size enumeration.
pub open spec fn spec_count_discrete(sizes: Seq<RawFrameSize>) -> nat
    decreases sizes.len(),
{
    if sizes.len() == 0 {
        0
    } else {
        spec_count_discrete(sizes.drop_last()) + if sizes.last() is Discrete {
            1nat
        } else {
            0nat
        }
    }
}

/// Law: for any mix of discrete and stepwise entries, the kept
/// resolutions are exactly as many as the discrete entries — stepwise
/// entries contribute nothing.
pub proof fn lemma_resolution_count(sizes: Seq<RawFrameSize>)
    ensures
        spec_resolutions(sizes).len() == spec_count_discrete(sizes),
        spec_count_discrete(sizes) <= sizes.len(),
    decreases sizes.len(),
{
    if sizes.len() > 0 {
        lemma_resolution_count(sizes.drop_last());
    }
}

/// Law: the kept resolutions distribute over concatenation, so the
/// discrete entries of each part appear in the result in their original
/// order, unchanged by what surrounds them.
pub proof fn lemma_resolutions_distribute(a: Seq<RawFrameSize>, b: Seq<RawFrameSize>)
    ensures
        spec_resolutions(a + b) == spec_resolutions(a) + spec_resolutions(b),
    decreases b.len(),
{
    if b.len() == 0 {
        assert(a + b =~= a);
        assert(spec_resolutions(a) + spec_resolutions(b) =~= spec_resolutions(a));
    } else {
        lemma_resolutions_distribute(a, b.drop_last());
        assert((a + b).drop_last() =~= a + b.drop_last());
        assert((a + b).last() == b.last());
        match b.last() {
            RawFrameSize::Discrete { width, height } => {
                assert(spec_resolutions(a) + spec_resolutions(b) =~= (spec_resolutions(a)
                    + spec_resolutions(b.drop_last())).push((width, height)));
            },
            RawFrameSize::Stepwise { .. } => {},
        }
    }
}

/// Law: a single discrete entry yields exactly its geometry, and a
/// single stepwise entry yields nothing. Together with the
/// concatenation law this pins the kept resolutions down to exactly the
/// discrete entries in their original order.
pub proof fn lemma_resolutions_singleton(s: RawFrameSize)
    ensures
        s matches RawFrameSize::Discrete { width, height } ==> spec_resolutions(seq![s]) == seq![
            (width, height),
        ],
        s is Stepwise ==> spec_resolutions(seq![s]) == Seq::<(u32, u32)>::empty(),
{
    assert(seq![s].drop_last() =~= Seq::<RawFrameSize>::empty());
    assert(spec_resolutions(Seq::<RawFrameSize>::empty()) == Seq::<(u32, u32)>::empty());
    assert(seq![s].last() == s);
    match s {
        RawFrameSize::Discrete { width, height } => {
            assert(spec_resolutions(seq![s]) =~= seq![(width, height)]);
        },
        RawFrameSize::Stepwise { .. } => {
            assert(spec_resolutions(seq![s]) =~= Seq::<(u32, u32)>::empty());
        },
    }
}

/// Law: a menu keeps every platform entry, each under its own kind
/// (named entries stay named, numeric entries stay numeric), in the
/// platform's native order.
pub proof fn lemma_menu_preserves_kind_and_order(items: Seq<(u32, RawMenuItemView)>)
    ensures
        spec_menu_seq(items).len() == items.len(),
        forall|i: int|
            0 <= i < items.len() ==> #[trigger] spec_menu_seq(items)[i] == spec_menu_item(
                items[i].1,
            ),
    decreases items.len(),
{
    if items.len() > 0 {
        lemma_menu_preserves_kind_and_order(items.drop_last());
    }
}

/// Law: enumeration is idempotent over a fixed snapshot — it is a pure
/// function of the snapshot alone, so identical snapshots yield
/// identical, order-equal results.
pub proof fn lemma_enumerate_idempotent(a: Seq<RawDeviceView>, b: Seq<RawDeviceView>)
    requires
        a == b,
    ensures
        spec_enumerate(a) == spec_enumerate(b),
{
}

} // verus!
