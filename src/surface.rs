use vstd::prelude::*;

verus! {

/// A window's size in physical pixels.
#[derive(Clone, Copy, Debug, PartialEq, Eq, Structural)]
pub struct PhysicalSize {
    pub width: u32,
    pub height: u32,
}

impl PhysicalSize {
    pub fn new(width: u32, height: u32) -> (r: Self)
        ensures
            r.width == width,
            r.height == height,
    {
        PhysicalSize { width, height }
    }

    /// A size that a surface can be configured with: neither side is zero.
    pub open spec fn is_presentable(self) -> bool {
        self.width > 0 && self.height > 0
    }

    pub fn presentable(&self) -> (r: bool)
        ensures
            r == self.is_presentable(),
    {
        self.width > 0 && self.height > 0
    }
}

/// How presentation waits for the display.
#[derive(Clone, Copy, Debug, PartialEq, Eq, Structural)]
pub enum PresentationMode {
    Vsync,
    NoVsync,
}

/// The configuration applied to the window surface. Formats and alpha modes
/// are indices into the capability lists that the surface reported.
#[derive(Clone, Copy, Debug, PartialEq, Eq, Structural)]
pub struct SurfaceConfig {
    pub width: u32,
    pub height: u32,
    pub format: usize,
    pub alpha_mode: usize,
    pub present_mode: PresentationMode,
}

impl SurfaceConfig {
    /// A render-attachment configuration of the given size, format and mode,
    /// with the first alpha mode that the surface supports.
    pub fn new(size: PhysicalSize, format: usize, present_mode: PresentationMode) -> (r: Self)
        ensures
            r.width == size.width,
            r.height == size.height,
            r.format == format,
            r.alpha_mode == 0,
            r.present_mode == present_mode,
    {
        SurfaceConfig { width: size.width, height: size.height, format, alpha_mode: 0, present_mode }
    }

    pub open spec fn size_spec(self) -> PhysicalSize {
        PhysicalSize { width: self.width, height: self.height }
    }

    pub fn size(&self) -> (r: PhysicalSize)
        ensures
            r == self.size_spec(),
    {
        PhysicalSize { width: self.width, height: self.height }
    }

    pub open spec fn with_size(self, size: PhysicalSize) -> Self {
        SurfaceConfig { width: size.width, height: size.height, ..self }
    }
}

/// The format index picked from capability flags: the first sRGB format, or
/// else the first format; none when the list is empty.
pub open spec fn is_selected_format(srgb: Seq<bool>, i: int) -> bool {
    &&& 0 <= i < srgb.len()
    &&& forall|j: int| 0 <= j < i ==> !srgb[j]
    &&& srgb[i] || (i == 0 && forall|j: int| 0 <= j < srgb.len() ==> !srgb[j])
}

/// Picks the surface format from flags that say which supported formats are sRGB.
pub fn select_format(srgb: &Vec<bool>) -> (r: Option<usize>)
    ensures
        r is None <==> srgb@.len() == 0,
        r matches Some(i) ==> is_selected_format(srgb@, i as int),
{
    let n = srgb.len();
    if n == 0 {
        return None;
    }
    let mut i: usize = 0;
    while i < n
        invariant
            n == srgb@.len(),
            0 <= i <= n,
            forall|j: int| 0 <= j < i ==> !srgb@[j],
        decreases n - i,
    {
        if srgb[i] {
            return Some(i);
        }
        i = i + 1;
    }
    Some(0)
}

/// Relies on wgpu's `TextureFormat::is_srgb`: whether a format stores colour
/// in the sRGB encoding; the answer depends on the format alone.
pub uninterp spec fn srgb_format(f: wgpu::TextureFormat) -> bool;

/// wgpu's `TextureFormat`, carried through as an opaque value.
#[verifier::external_type_specification]
#[verifier::external_body]
pub struct ExTextureFormat(wgpu::TextureFormat);

/// Relies on `wgpu::TextureFormat::is_srgb`.
#[verifier::external_body]
fn format_is_srgb(f: &wgpu::TextureFormat) -> (r: bool)
    ensures
        r == srgb_format(*f),
{
    f.is_srgb()
}

/// Picks the surface format among those the surface supports, preferring sRGB.
pub fn choose_surface_format(formats: &Vec<wgpu::TextureFormat>) -> (r: Option<usize>)
    ensures
        r is None <==> formats@.len() == 0,
        r matches Some(i) ==> is_selected_format(formats@.map_values(|f| srgb_format(f)), i as int),
{
    let mut flags: Vec<bool> = Vec::new();
    let mut i: usize = 0;
    while i < formats.len()
        invariant
            0 <= i <= formats@.len(),
            flags@ == formats@.take(i as int).map_values(|f| srgb_format(f)),
        decreases formats@.len() - i,
    {
        let b = format_is_srgb(&formats[i]);
        flags.push(b);
        i = i + 1;
        assert(formats@.take(i as int).drop_last() =~= formats@.take(i - 1));
    }
    assert(formats@.take(i as int) =~= formats@);
    select_format(&flags)
}

} // verus!
