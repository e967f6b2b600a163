use vstd::prelude::*;
use wgpu::TextureFormat;

use crate::config::{wgpu_format, SurfaceFormat};

verus! {

/// Declares `wgpu::TextureFormat`, which verified code carries as an opaque value.
#[verifier::external_type_specification]
#[verifier::external_body]
pub struct ExTextureFormat(wgpu::TextureFormat);

/// Whether wgpu counts `format` among the sRGB formats.
pub uninterp spec fn is_srgb_format(format: TextureFormat) -> bool;

/// Calls `wgpu::TextureFormat::is_srgb`, whose result depends on the format alone
/// (it compares the format with the format stripped of its `Srgb` suffix). For the
/// formats the engine names (`wgpu_format` of a `SurfaceFormat`, the variant of the same
/// name), that is true of the two `Srgb` variants and false of the two linear ones, as
/// `remove_srgb_suffix` maps `Bgra8UnormSrgb` and `Rgba8UnormSrgb` to the linear
/// variants and leaves those unchanged.
#[verifier::external_body]
fn format_is_srgb(format: &TextureFormat) -> (srgb: bool)
    ensures
        srgb == is_srgb_format(*format),
        forall|g: SurfaceFormat| #[trigger] wgpu_format(g) == *format ==> srgb == g.is_srgb(),
{
    format.is_srgb()
}

/// Compares two formats with `wgpu::TextureFormat`'s derived `PartialEq`, which holds
/// exactly when both are the same variant with the same fields.
#[verifier::external_body]
fn same_format(a: &TextureFormat, b: &TextureFormat) -> (same: bool)
    ensures
        same == (*a == *b),
{
    *a == *b
}

/// The format the surface is configured with, given whether each of the formats it
/// supports is an sRGB format (`srgb[i]` for `formats[i]`), stated by cases: the
/// preferred format if the surface supports it, else the first sRGB format the surface
/// lists, else the first format the surface lists.
pub open spec fn is_chosen_format(
    formats: Seq<TextureFormat>,
    srgb: Seq<bool>,
    preferred: TextureFormat,
    chosen: TextureFormat,
) -> bool {
    if formats.contains(preferred) {
        chosen == preferred
    } else if exists|i: int| 0 <= i < formats.len() && #[trigger] srgb[i] {
        exists|i: int|
            0 <= i < formats.len() && chosen == formats[i] && #[trigger] srgb[i] && forall|j: int|
                0 <= j < i ==> !#[trigger] srgb[j]
    } else {
        chosen == formats[0]
    }
}

/// Whether each format is an sRGB format, by wgpu's account.
pub open spec fn srgb_flags(formats: Seq<TextureFormat>) -> Seq<bool> {
    Seq::new(formats.len(), |i: int| is_srgb_format(formats[i]))
}

/// Whether `srgb` classifies the formats the engine names as they are: each listed format
/// that is `wgpu_format(g)` is flagged sRGB exactly when `g` is an sRGB format.
pub open spec fn classifies_known_formats(formats: Seq<TextureFormat>, srgb: Seq<bool>) -> bool {
    &&& srgb.len() == formats.len()
    &&& forall|i: int, g: SurfaceFormat|
        #![trigger formats[i], wgpu_format(g)]
        0 <= i < formats.len() && formats[i] == wgpu_format(g) ==> srgb[i] == g.is_srgb()
}

/// When the surface does not support the preferred format but lists one of the engine's
/// sRGB formats, the chosen format is an sRGB format listed no later than that one, and
/// never one of the engine's linear formats.
pub proof fn lemma_linear_never_chosen_over_srgb(
    formats: Seq<TextureFormat>,
    srgb: Seq<bool>,
    preferred: TextureFormat,
    chosen: TextureFormat,
    i: int,
    known_srgb: SurfaceFormat,
)
    requires
        formats.len() > 0,
        classifies_known_formats(formats, srgb),
        is_chosen_format(formats, srgb, preferred, chosen),
        !formats.contains(preferred),
        0 <= i < formats.len(),
        formats[i] == wgpu_format(known_srgb),
        known_srgb.is_srgb(),
    ensures
        exists|j: int| 0 <= j <= i && chosen == formats[j] && srgb[j],
        forall|linear: SurfaceFormat| !linear.is_srgb() ==> chosen != wgpu_format(linear),
{
    assert(srgb[i]);
    let j = choose|j: int|
        0 <= j < formats.len() && chosen == formats[j] && #[trigger] srgb[j] && forall|k: int|
            0 <= k < j ==> !#[trigger] srgb[k];
    if j > i {
        assert(!srgb[i]);
    }
    assert forall|linear: SurfaceFormat| !linear.is_srgb() implies chosen != wgpu_format(linear) by {
        if chosen == wgpu_format(linear) {
            assert(formats[j] == wgpu_format(linear));
        }
    }
}

/// Picks the format the presentation surface is configured with, out of the formats the
/// surface supports (in the order the surface lists them), given which of them are sRGB
/// formats.
pub fn pick_surface_format(
    formats: &Vec<TextureFormat>,
    srgb: &Vec<bool>,
    preferred: TextureFormat,
) -> (chosen: TextureFormat)
    requires
        formats.len() > 0,
        srgb.len() == formats.len(),
    ensures
        is_chosen_format(formats@, srgb@, preferred, chosen),
        formats@.contains(chosen),
{
    let mut i: usize = 0;
    while i < formats.len()
        invariant
            i <= formats.len(),
            forall|j: int| 0 <= j < i ==> formats@[j] != preferred,
        decreases formats.len() - i,
    {
        if same_format(&formats[i], &preferred) {
            return preferred;
        }
        i = i + 1;
    }
    assert(!formats@.contains(preferred));
    let mut k: usize = 0;
    while k < formats.len()
        invariant
            k <= formats.len(),
            srgb.len() == formats.len(),
            !formats@.contains(preferred),
            forall|j: int| 0 <= j < k ==> !#[trigger] srgb@[j],
        decreases formats.len() - k,
    {
        if srgb[k] {
            assert(formats@[k as int] == formats[k as int]);
            return formats[k];
        }
        k = k + 1;
    }
    assert(formats@.contains(formats@[0]));
    formats[0]
}

/// Picks the format the presentation surface is configured with, out of the formats the
/// surface supports (in the order the surface lists them): the preferred format if the
/// surface supports it, else the first sRGB format it lists, else the first format.
pub fn choose_surface_format(formats: &Vec<TextureFormat>, preferred: TextureFormat) -> (chosen:
    TextureFormat)
    requires
        formats.len() > 0,
    ensures
        is_chosen_format(formats@, srgb_flags(formats@), preferred, chosen),
        formats@.contains(chosen),
        classifies_known_formats(formats@, srgb_flags(formats@)),
{
    let mut srgb: Vec<bool> = Vec::new();
    while srgb.len() < formats.len()
        invariant
            srgb.len() <= formats.len(),
            forall|j: int| 0 <= j < srgb.len() ==> srgb@[j] == is_srgb_format(formats@[j]),
            classifies_known_formats(formats@.take(srgb.len() as int), srgb@),
        decreases formats.len() - srgb.len(),
    {
        let k = srgb.len();
        srgb.push(format_is_srgb(&formats[k]));
        assert(formats@.take(k + 1).drop_last() == formats@.take(k as int));
    }
    assert(formats@.take(formats.len() as int) == formats@);
    assert(srgb@ == srgb_flags(formats@));
    pick_surface_format(formats, &srgb, preferred)
}

/// The width and height, in pixels, that the presentation surface is configured with.
pub struct SurfaceSize {
    pub width: u32,
    pub height: u32,
}

/// Whether resizing `size` to `width` by `height` changes it.
pub open spec fn resize_changes(size: SurfaceSize, width: u32, height: u32) -> bool {
    width != size.width || height != size.height
}

impl SurfaceSize {
    /// The size a surface is first configured with for a window of `width` by `height`
    /// pixels: a side of zero pixels is raised to one.
    pub fn for_window(width: u32, height: u32) -> (size: SurfaceSize)
        ensures
            size.width == (if width == 0 { 1 } else { width }),
            size.height == (if height == 0 { 1 } else { height }),
            size.width >= 1,
            size.height >= 1,
    {
        SurfaceSize {
            width: if width == 0 { 1 } else { width },
            height: if height == 0 { 1 } else { height },
        }
    }

    /// Takes on a new window size. Returns whether the size changed, in which case the
    /// surface and the textures that follow its size must be made anew; a size equal to
    /// the current one changes nothing. A new size may have no side of zero pixels.
    pub fn resize(&mut self, width: u32, height: u32) -> (changed: bool)
        requires
            resize_changes(*old(self), width, height) ==> (width != 0 && height != 0),
        ensures
            changed == resize_changes(*old(self), width, height),
            changed == (width != old(self).width || height != old(self).height),
            final(self).width == width,
            final(self).height == height,
    {
        if width == self.width && height == self.height {
            return false;
        }
        self.width = width;
        self.height = height;
        true
    }
}

/// Resizing is idempotent: once a surface has taken on a size, resizing it to that size
/// again changes nothing.
pub proof fn lemma_resize_idempotent(width: u32, height: u32)
    ensures
        !resize_changes(SurfaceSize { width, height }, width, height),
{
}

/// A surface keeps at least one pixel a side over any sequence of resizes: a surface of
/// positive size that is resized (as `resize` admits) to `width` by `height`, the size
/// that `resize` leaves, still has positive sides.
pub proof fn lemma_size_stays_positive(before: SurfaceSize, width: u32, height: u32)
    requires
        before.width >= 1,
        before.height >= 1,
        resize_changes(before, width, height) ==> (width != 0 && height != 0),
    ensures
        width >= 1,
        height >= 1,
{
}

/// Whether `resize` admits the request `request` on a surface of size `before`, and leaves
/// it at size `after`.
pub open spec fn admitted_resize(before: SurfaceSize, request: (u32, u32), after: SurfaceSize) -> bool {
    &&& resize_changes(before, request.0, request.1) ==> (request.0 != 0 && request.1 != 0)
    &&& after.width == request.0
    &&& after.height == request.1
}

/// A resize reports a change exactly when the requested size differs from the current
/// one in width, in height, or in both; and a resize that reports no change leaves the
/// size as it was.
pub proof fn lemma_resize_reports_change(size: SurfaceSize, width: u32, height: u32)
    ensures
        resize_changes(size, width, height) <==> (width != size.width || height != size.height),
        !resize_changes(size, width, height) ==> (width == size.width && height == size.height),
        width != size.width ==> resize_changes(size, width, height),
        height != size.height ==> resize_changes(size, width, height),
{
}

/// Over any sequence of resizes that `resize` admits, starting from a surface of positive
/// size (as `for_window` gives), every size the surface takes on (`sizes[k + 1]`, the
/// size `resize` leaves after the request `requests[k]`) keeps at least one pixel a side.
pub proof fn lemma_sizes_stay_positive(sizes: Seq<SurfaceSize>, requests: Seq<(u32, u32)>)
    requires
        sizes.len() == requests.len() + 1,
        sizes[0].width >= 1,
        sizes[0].height >= 1,
        forall|k: int|
            0 <= k < requests.len() ==> admitted_resize(#[trigger] sizes[k], requests[k], sizes[k + 1]),
    ensures
        forall|k: int| 0 <= k < sizes.len() ==> (#[trigger] sizes[k]).width >= 1 && sizes[k].height >= 1,
    decreases requests.len(),
{
    let n = requests.len() as int;
    if n > 0 {
        lemma_sizes_stay_positive(sizes.drop_last(), requests.drop_last());
        assert(sizes.drop_last()[n - 1] == sizes[n - 1]);
        assert(admitted_resize(sizes[n - 1], requests[n - 1], sizes[n]));
        lemma_size_stays_positive(sizes[n - 1], requests[n - 1].0, requests[n - 1].1);
        assert forall|k: int| 0 <= k < sizes.len() implies (#[trigger] sizes[k]).width >= 1
            && sizes[k].height >= 1 by {
            if k < n {
                assert(sizes.drop_last()[k] == sizes[k]);
            }
        }
    }
}

/// How acquiring the next surface texture went.
#[derive(Debug, Clone, Copy, PartialEq, Eq, Structural)]
pub enum SurfaceStatus {
    /// A texture was acquired.
    Acquired,
    /// Acquiring timed out.
    Timeout,
    /// The surface changed and must be configured anew.
    Outdated,
    /// The swap chain was lost.
    Lost,
    /// No memory was left for a new frame.
    OutOfMemory,
    /// Acquiring failed for another reason.
    Other,
}

/// What a frame does after trying to acquire a surface texture.
#[derive(Debug, Clone, Copy, PartialEq, Eq, Structural)]
pub enum FrameAction {
    /// Draw the frame.
    Render,
    /// Skip the frame quietly.
    Skip,
    /// Skip the frame and report the error.
    SkipAndReport,
}

/// Decides on the frame: draw it when a texture was acquired, skip it quietly when the
/// surface was outdated or lost, and skip it reporting the error on any other failure.
pub fn frame_action(status: SurfaceStatus) -> (action: FrameAction)
    ensures
        action == (match status {
            SurfaceStatus::Acquired => FrameAction::Render,
            SurfaceStatus::Outdated | SurfaceStatus::Lost => FrameAction::Skip,
            _ => FrameAction::SkipAndReport,
        }),
{
    match status {
        SurfaceStatus::Acquired => FrameAction::Render,
        SurfaceStatus::Outdated | SurfaceStatus::Lost => FrameAction::Skip,
        _ => FrameAction::SkipAndReport,
    }
}

/// The layout of tightly packed RGBA pixel data, 8 bits a channel, for an image `width`
/// by `height` pixels: the bytes in one row, and the rows in the image.
pub fn rgba_copy_layout(width: u32, height: u32) -> (layout: (u32, u32))
    requires
        4 * width <= u32::MAX,
    ensures
        layout.0 == 4 * width,
        layout.1 == height,
{
    (4 * width, height)
}

} // verus!
