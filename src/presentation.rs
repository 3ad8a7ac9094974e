use vstd::prelude::*;
use crate::commands::Command;
use crate::surface::SurfaceConfig;

verus! {

/// What a texture may be used for besides sampling.
#[derive(Clone, Copy, Debug, PartialEq, Eq, Structural)]
pub enum TextureUsage {
    /// Written by compute shaders as a storage texture.
    Storage,
    /// Drawn into as a render target.
    RenderAttachment,
}

/// An off-screen GPU image with its default view and a nearest-filtered,
/// clamp-to-edge sampler. `id` identifies the allocation: a replacement gets
/// an id different from the one it replaces.
#[derive(Clone, Copy, Debug, PartialEq, Eq, Structural)]
pub struct Texture {
    pub id: u64,
    pub width: u32,
    pub height: u32,
    pub format: usize,
    pub usage: TextureUsage,
    pub nearest_filtering: bool,
    pub clamp_to_edge: bool,
}

impl Texture {
    /// A single-mip, single-sample 2-D storage texture of the given size.
    pub fn storage(id: u64, width: u32, height: u32, format: usize) -> (r: Self)
        ensures
            r == (Texture {
                id,
                width,
                height,
                format,
                usage: TextureUsage::Storage,
                nearest_filtering: true,
                clamp_to_edge: true,
            }),
    {
        Texture { id, width, height, format, usage: TextureUsage::Storage, nearest_filtering: true, clamp_to_edge: true }
    }

    /// The storage texture that a surface configuration calls for: same size
    /// and format as the surface.
    pub open spec fn for_config(id: u64, config: SurfaceConfig) -> Self {
        Texture {
            id,
            width: config.width,
            height: config.height,
            format: config.format,
            usage: TextureUsage::Storage,
            nearest_filtering: true,
            clamp_to_edge: true,
        }
    }

    pub fn render_texture(id: u64, config: &SurfaceConfig) -> (r: Self)
        ensures
            r == Texture::for_config(id, *config),
    {
        Texture::storage(id, config.width, config.height, config.format)
    }
}

/// The fixed full-screen-quad pipeline that samples one texture (view at
/// binding 0, sampler at binding 1 of resource group 0) into the surface image.
#[derive(Clone, Copy, Debug, PartialEq, Eq, Structural)]
pub struct RenderTexture {
    pub texture: Texture,
    /// The surface format index that the pipeline's colour target uses.
    pub target_format: usize,
}

/// The presentation pass that samples texture `texture`.
pub open spec fn present_commands(texture: u64) -> Seq<Command> {
    seq![
        Command::BeginRenderPass { clear_to_black: true, store: true },
        Command::SetRenderPipeline,
        Command::SetRenderBindGroup { index: 0, texture },
        Command::Draw { vertices: 6, instances: 1 },
        Command::EndRenderPass,
    ]
}

impl RenderTexture {
    pub fn from_texture(config: &SurfaceConfig, texture: Texture) -> (r: Self)
        ensures
            r.texture == texture,
            r.target_format == config.format,
    {
        RenderTexture { texture, target_format: config.format }
    }

    pub fn new(id: u64, config: &SurfaceConfig) -> (r: Self)
        ensures
            r.texture == Texture::for_config(id, *config),
            r.target_format == config.format,
    {
        let texture = Texture::render_texture(id, config);
        RenderTexture::from_texture(config, texture)
    }

    /// Records the render pass: clear to black, keep the result, bind the
    /// pipeline and the texture's resource group, draw six vertices once.
    pub fn present(&self, commands: &mut Vec<Command>)
        ensures
            final(commands)@ == old(commands)@ + present_commands(self.texture.id),
    {
        commands.push(Command::BeginRenderPass { clear_to_black: true, store: true });
        commands.push(Command::SetRenderPipeline);
        commands.push(Command::SetRenderBindGroup { index: 0, texture: self.texture.id });
        commands.push(Command::Draw { vertices: 6, instances: 1 });
        commands.push(Command::EndRenderPass);
        assert(commands@ =~= old(commands)@ + present_commands(self.texture.id));
    }
}

} // verus!
