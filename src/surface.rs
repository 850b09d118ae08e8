use vstd::prelude::*;

verus! {

/// Frames the driver may queue ahead of the display.
pub const MAX_FRAME_LATENCY: u32 = 2;

/// Pixel extent of a drawable area.
#[derive(Clone, Copy, Debug, PartialEq, Eq, Structural)]
pub struct Size {
    pub width: u32,
    pub height: u32,
}

impl Size {
    pub open spec fn is_drawable(self) -> bool {
        self.width > 0 && self.height > 0
    }
}

/// One entry of the surface's advertised format list: the position it holds in
/// that list and whether it applies gamma-correct (sRGB) encoding.
#[derive(Clone, Copy, Debug, PartialEq, Eq, Structural)]
pub struct SurfaceFormat {
    pub index: u32,
    pub srgb: bool,
}

/// wgpu's texture format, carried as an opaque value.
#[verifier::external_type_specification]
#[verifier::external_body]
pub struct ExTextureFormat(wgpu::TextureFormat);

/// Relies on wgpu's `TextureFormat::is_srgb`, which tells whether a texture
/// format applies sRGB encoding; it returns on every format.
pub assume_specification[ wgpu::TextureFormat::is_srgb ](f: &wgpu::TextureFormat) -> bool;

/// The advertised formats as the format policy reads them: each entry keeps
/// its position in the list and whether the format is sRGB.
pub fn advertised_formats(formats: &Vec<wgpu::TextureFormat>) -> (r: Vec<SurfaceFormat>)
    requires
        formats@.len() <= u32::MAX,
    ensures
        r@.len() == formats@.len(),
        forall|i: int| 0 <= i < r@.len() ==> (#[trigger] r@[i]).index == i,
{
    let mut r: Vec<SurfaceFormat> = Vec::with_capacity(formats.len());
    let mut i: usize = 0;
    while i < formats.len()
        invariant
            i <= formats@.len(),
            formats@.len() <= u32::MAX,
            r@.len() == i,
            forall|k: int| 0 <= k < r@.len() ==> (#[trigger] r@[k]).index == k,
        decreases formats@.len() - i,
    {
        r.push(SurfaceFormat { index: i as u32, srgb: formats[i].is_srgb() });
        i = i + 1;
    }
    r
}

/// How finished frames are handed to the display.
#[derive(Clone, Copy, Debug, PartialEq, Eq, Structural)]
pub enum PresentMode {
    /// Frames wait for the vertical blank, in order: paced to the display.
    Fifo,
    /// Frames replace one another as soon as they are ready.
    Immediate,
}

/// The configuration applied to the presentation surface.
#[derive(Clone, Copy, Debug, PartialEq, Eq, Structural)]
pub struct SurfaceConfig {
    pub format: SurfaceFormat,
    pub width: u32,
    pub height: u32,
    pub present_mode: PresentMode,
    pub max_frame_latency: u32,
}

/// Why a surface configuration could not be made.
#[derive(Clone, Copy, Debug, PartialEq, Eq, Structural)]
pub enum ConfigError {
    /// The surface advertises no format at all.
    NoFormat,
    /// A dimension is zero: the area cannot be presented.
    ZeroSize,
}

/// Index of the first sRGB entry at or after `from`, if any.
pub open spec fn first_srgb_from(formats: Seq<SurfaceFormat>, from: int) -> Option<int>
    decreases formats.len() - from,
{
    if from < 0 || from >= formats.len() {
        None
    } else if formats[from].srgb {
        Some(from)
    } else {
        first_srgb_from(formats, from + 1)
    }
}

/// The format policy: the first sRGB format when one is advertised, else the
/// first format; nothing when the list is empty.
pub open spec fn preferred_format(formats: Seq<SurfaceFormat>) -> Option<SurfaceFormat> {
    if formats.len() == 0 {
        None
    } else {
        match first_srgb_from(formats, 0) {
            Some(i) => Some(formats[i]),
            None => Some(formats[0]),
        }
    }
}

/// A found index is an sRGB entry in range with no sRGB entry before it; a
/// missing one means no sRGB entry from `from` on.
pub proof fn lemma_first_srgb_from(formats: Seq<SurfaceFormat>, from: int)
    requires
        0 <= from,
    ensures
        match first_srgb_from(formats, from) {
            Some(i) => from <= i < formats.len() && formats[i].srgb && forall|j: int|
                from <= j < i ==> !(#[trigger] formats[j]).srgb,
            None => forall|j: int| from <= j < formats.len() ==> !(#[trigger] formats[j]).srgb,
        },
    decreases formats.len() - from,
{
    if from < formats.len() && !formats[from].srgb {
        lemma_first_srgb_from(formats, from + 1);
    }
}

/// `f` is entry `i` of `formats`, no sRGB entry comes before it, and it is
/// sRGB unless it is the first entry of a list with no sRGB entry at all.
pub open spec fn chosen_at(formats: Seq<SurfaceFormat>, i: int, f: SurfaceFormat) -> bool {
    &&& 0 <= i < formats.len()
    &&& formats[i] == f
    &&& forall|j: int| 0 <= j < i ==> !(#[trigger] formats[j]).srgb
    &&& (f.srgb || (i == 0 && forall|j: int| 0 <= j < formats.len() ==> !(#[trigger] formats[j]).srgb))
}

/// Chooses the surface format from the advertised list.
pub fn select_format(formats: &Vec<SurfaceFormat>) -> (r: Option<SurfaceFormat>)
    ensures
        r == preferred_format(formats@),
        r is None <==> formats@.len() == 0,
        forall|f: SurfaceFormat| r == Some(f) ==> exists|i: int| #[trigger] chosen_at(formats@, i, f),
{
    if formats.len() == 0 {
        return None;
    }
    let mut i: usize = 0;
    while i < formats.len()
        invariant
            0 <= i <= formats.len(),
            formats.len() > 0,
            first_srgb_from(formats@, 0) == first_srgb_from(formats@, i as int),
        decreases formats.len() - i,
    {
        if formats[i].srgb {
            assert(first_srgb_from(formats@, i as int) == Some(i as int));
            proof {
                lemma_first_srgb_from(formats@, 0);
            }
            let f = formats[i];
            assert(chosen_at(formats@, i as int, f));
            return Some(f);
        }
        i = i + 1;
    }
    assert(first_srgb_from(formats@, i as int) is None);
    proof {
        lemma_first_srgb_from(formats@, 0);
    }
    let f = formats[0];
    assert(chosen_at(formats@, 0, f));
    Some(f)
}

/// Whenever some advertised format is sRGB the chosen one is sRGB and comes
/// from the list; when none is, the chosen one is the first advertised.
pub proof fn lemma_preferred_format_is_srgb_when_available(formats: Seq<SurfaceFormat>)
    requires
        formats.len() > 0,
    ensures
        (exists|j: int| 0 <= j < formats.len() && (#[trigger] formats[j]).srgb) ==> (
        preferred_format(formats).unwrap().srgb && formats.contains(
            preferred_format(formats).unwrap(),
        )),
        (forall|j: int| 0 <= j < formats.len() ==> !(#[trigger] formats[j]).srgb)
            ==> preferred_format(formats) == Some(formats[0]),
{
    lemma_first_srgb_from(formats, 0);
    match first_srgb_from(formats, 0) {
        Some(i) => {
            assert(formats[i] == preferred_format(formats).unwrap());
        },
        None => {},
    }
}

impl SurfaceConfig {
    pub open spec fn is_valid(self) -> bool {
        self.width > 0 && self.height > 0
    }

    /// The size the configuration presents at.
    pub open spec fn size_spec(self) -> Size {
        Size { width: self.width, height: self.height }
    }

    /// Builds the configuration for `size`, with the preferred format of
    /// `formats`, display-paced presentation and the fixed frame latency.
    pub fn new(formats: &Vec<SurfaceFormat>, size: Size) -> (r: Result<SurfaceConfig, ConfigError>)
        ensures
            formats@.len() == 0 ==> r == Err::<SurfaceConfig, ConfigError>(ConfigError::NoFormat),
            formats@.len() > 0 && !size.is_drawable() ==> r == Err::<SurfaceConfig, ConfigError>(
                ConfigError::ZeroSize,
            ),
            formats@.len() > 0 && size.is_drawable() ==> r == Ok::<SurfaceConfig, ConfigError>(
                (SurfaceConfig {
                    format: preferred_format(formats@).unwrap(),
                    width: size.width,
                    height: size.height,
                    present_mode: PresentMode::Fifo,
                    max_frame_latency: MAX_FRAME_LATENCY,
                }),
            ),
    {
        match select_format(formats) {
            None => Err(ConfigError::NoFormat),
            Some(format) => {
                if size.width == 0 || size.height == 0 {
                    Err(ConfigError::ZeroSize)
                } else {
                    Ok(
                        SurfaceConfig {
                            format,
                            width: size.width,
                            height: size.height,
                            present_mode: PresentMode::Fifo,
                            max_frame_latency: MAX_FRAME_LATENCY,
                        },
                    )
                }
            },
        }
    }

    /// Takes a new size. A size with a zero dimension leaves the configuration
    /// as it was and returns false: nothing is to be re-applied. Otherwise the
    /// dimensions become the new ones, the rest stays, and it returns true.
    pub fn resize(&mut self, size: Size) -> (r: bool)
        ensures
            r == size.is_drawable(),
            !size.is_drawable() ==> *final(self) == *old(self),
            size.is_drawable() ==> *final(self) == (SurfaceConfig {
                width: size.width,
                height: size.height,
                ..*old(self)
            }),
    {
        if size.width > 0 && size.height > 0 {
            self.width = size.width;
            self.height = size.height;
            true
        } else {
            false
        }
    }

    /// The size the configuration presents at.
    pub fn size(&self) -> (r: Size)
        ensures
            r == self.size_spec(),
    {
        Size { width: self.width, height: self.height }
    }
}

} // verus!
