//! Small decisions of the settings window.

use vstd::prelude::*;
use crate::config::UiTheme;

verus! {

/// Whether the settings window is painted dark: as pinned, or as Windows
/// reports for apps when following the system, and dark when Windows does
/// not say.
pub open spec fn spec_resolve_dark(want: UiTheme, system_dark: Option<bool>) -> bool {
    match want {
        UiTheme::Dark => true,
        UiTheme::Light => false,
        UiTheme::System => match system_dark {
            Some(d) => d,
            None => true,
        },
    }
}

/// Whether the settings window is painted dark.
pub fn resolve_dark(want: UiTheme, system_dark: Option<bool>) -> (r: bool)
    ensures
        r == spec_resolve_dark(want, system_dark),
        want == UiTheme::System && system_dark is Some ==> r == system_dark->0,
        want == UiTheme::System && system_dark is None ==> r,
        want == UiTheme::Dark ==> r,
        want == UiTheme::Light ==> !r,
{
    match want {
        UiTheme::Dark => true,
        UiTheme::Light => false,
        UiTheme::System => match system_dark {
            Some(d) => d,
            None => true,
        },
    }
}

/// A pinned theme wins; following the system paints exactly what Windows
/// reports, and dark when it reports nothing.
pub proof fn law_theme_follows_system(system_dark: Option<bool>)
    ensures
        spec_resolve_dark(UiTheme::Dark, system_dark),
        !spec_resolve_dark(UiTheme::Light, system_dark),
        forall|d: bool| spec_resolve_dark(UiTheme::System, Some(d)) == d,
        spec_resolve_dark(UiTheme::System, None),
{
}

/// Longest side of a wallpaper preview texture.
pub const PREVIEW_MAX: u32 = 1024;

/// The size to shrink a `w` x `h` wallpaper to before uploading it as the
/// preview texture, or `None` when it is small enough already. Each side is
/// capped on its own.
pub open spec fn spec_preview_size(w: u32, h: u32) -> Option<(u32, u32)> {
    if w > PREVIEW_MAX || h > PREVIEW_MAX {
        Some(
            (
                if w > PREVIEW_MAX {
                    PREVIEW_MAX
                } else if w < 1 {
                    1u32
                } else {
                    w
                },
                if h > PREVIEW_MAX {
                    PREVIEW_MAX
                } else if h < 1 {
                    1u32
                } else {
                    h
                },
            ),
        )
    } else {
        None
    }
}

/// The size to shrink a `w` x `h` wallpaper to before uploading it as the
/// preview texture, or `None` when it is small enough already.
pub fn preview_upload_size(w: u32, h: u32) -> (r: Option<(u32, u32)>)
    ensures
        r == spec_preview_size(w, h),
{
    if w > PREVIEW_MAX || h > PREVIEW_MAX {
        Some((w.min(PREVIEW_MAX).max(1), h.min(PREVIEW_MAX).max(1)))
    } else {
        None
    }
}

/// The RGBA8 pixels `image::imageops::resize` produces from a `w` x `h`
/// image resampled to `nw` x `nh` with the triangle filter.
pub uninterp spec fn resized_rgba(src: Seq<u8>, w: u32, h: u32, nw: u32, nh: u32) -> Seq<u8>;

/// Calls `image::imageops::resize` with `FilterType::Triangle` on the
/// `w` x `h` RGBA8 image held row by row in `rgba`, and returns the raw
/// pixels of the `nw` x `nh` result. Claimed: the result is a function of
/// the arguments alone, named [`resized_rgba`], and holds four bytes for
/// each of its `nw * nh` pixels. The resampling itself is not described.
/// `requires` keeps the two buffers the call allocates (an RGBA `f32`
/// intermediate of `w` x `nh`, and the result) within what a `Vec` can
/// hold, where the crate would panic; running out of memory is not
/// excluded.
#[verifier::external_body]
fn resize_rgba(rgba: Vec<u8>, w: u32, h: u32, nw: u32, nh: u32) -> (r: Vec<u8>)
    requires
        rgba@.len() == w * h * 4,
        w * nh * 16 <= isize::MAX,
        nw * nh * 4 <= isize::MAX,
    ensures
        r@ == resized_rgba(rgba@, w, h, nw, nh),
        r@.len() == nw * nh * 4,
{
    let img = image::RgbaImage::from_raw(w, h, rgba).unwrap();
    image::imageops::resize(&img, nw, nh, image::imageops::FilterType::Triangle).into_raw()
}

/// Whether shrinking a `w` x `h` wallpaper for its preview stays within
/// what the resampler can allocate.
pub open spec fn preview_fits(w: u32, h: u32) -> bool {
    match spec_preview_size(w, h) {
        Some((nw, nh)) => w * nh * 16 <= isize::MAX,
        None => true,
    }
}

/// The wallpaper preview texture: the `w` x `h` RGBA8 image shrunk to
/// [`preview_upload_size`] when it is larger than [`PREVIEW_MAX`] on either
/// side, and handed back as it is otherwise. Returns the pixels with their
/// width and height.
pub fn preview_pixels(rgba: Vec<u8>, w: u32, h: u32) -> (r: (Vec<u8>, u32, u32))
    requires
        rgba@.len() == w * h * 4,
        preview_fits(w, h),
    ensures
        match spec_preview_size(w, h) {
            Some((nw, nh)) => {
                &&& r.0@ == resized_rgba(rgba@, w, h, nw, nh)
                &&& r.0@.len() == nw * nh * 4
                &&& r.1 == nw
                &&& r.2 == nh
            },
            None => r.0@ == rgba@ && r.1 == w && r.2 == h,
        },
{
    match preview_upload_size(w, h) {
        Some((nw, nh)) => {
            assert(nw * nh * 4 <= 1024 * 1024 * 4) by (nonlinear_arith)
                requires
                    nw <= 1024,
                    nh <= 1024,
            ;
            let out = resize_rgba(rgba, w, h, nw, nh);
            (out, nw, nh)
        },
        None => (rgba, w, h),
    }
}

} // verus!
