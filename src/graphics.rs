use vstd::prelude::*;
use crate::commands::{
    is_present, is_submit, lemma_occurrences_add, lemma_occurrences_single, occurrences, Command,
};
use crate::presentation::{present_commands, RenderTexture, Texture};
use crate::shaders::{compute_pass_commands, lemma_units_commands_none, UserShaders};
use crate::surface::{PhysicalSize, PresentationMode, SurfaceConfig};

verus! {

/// Why a frame was not rendered. Raw backend errors are classified into
/// these before they reach the context.
#[derive(Clone, Copy, Debug, PartialEq, Eq, Structural)]
pub enum FrameError {
    /// The surface was invalidated; it is reconfigured before the next frame.
    Lost,
    /// The surface changed and no longer matches its configuration.
    Outdated,
    /// No image became available in time.
    Timeout,
    /// GPU memory is exhausted; no further frames should be attempted.
    OutOfMemory,
}

/// The graphics context: the live surface configuration, the size that the
/// window last asked for, the off-screen texture with the presentation
/// pipeline that samples it, and an optional user shader set.
pub struct Graphics {
    config: SurfaceConfig,
    size: PhysicalSize,
    surface_lost: bool,
    render_texture: RenderTexture,
    user_shaders: Option<UserShaders>,
}

/// The commands of one frame whose image was acquired: the compute pass, if a
/// shader set is present, then the presentation pass, the submission of the
/// single command buffer and the presentation of the image.
pub open spec fn frame_commands(shaders: Option<UserShaders>, texture: u64) -> Seq<Command> {
    let compute = match shaders {
        Some(s) => compute_pass_commands(s.shaders_spec()),
        None => Seq::empty(),
    };
    compute + present_commands(texture) + seq![Command::Submit, Command::Present]
}

/// What the event loop does once a frame has been attempted.
#[derive(Clone, Copy, Debug, PartialEq, Eq, Structural)]
pub enum LoopControl {
    Continue,
    Exit,
}

pub open spec fn control_after(error: Option<FrameError>) -> LoopControl {
    if error == Some(FrameError::OutOfMemory) {
        LoopControl::Exit
    } else {
        LoopControl::Continue
    }
}

/// Out of memory ends the event loop; every other outcome lets it go on.
pub fn after_frame(error: Option<FrameError>) -> (r: LoopControl)
    ensures
        r == control_after(error),
{
    match error {
        Some(FrameError::OutOfMemory) => LoopControl::Exit,
        _ => LoopControl::Continue,
    }
}

impl Graphics {
    pub closed spec fn config_spec(&self) -> SurfaceConfig {
        self.config
    }

    pub closed spec fn size_spec(&self) -> PhysicalSize {
        self.size
    }

    pub closed spec fn surface_lost_spec(&self) -> bool {
        self.surface_lost
    }

    pub closed spec fn render_texture_spec(&self) -> RenderTexture {
        self.render_texture
    }

    pub closed spec fn user_shaders_spec(&self) -> Option<UserShaders> {
        self.user_shaders
    }

    /// The presentation pipeline samples a texture made for the live
    /// configuration.
    pub open spec fn wf(&self) -> bool {
        &&& self.render_texture_spec().texture == Texture::for_config(
            self.render_texture_spec().texture.id,
            self.config_spec(),
        )
        &&& self.render_texture_spec().target_format == self.config_spec().format
    }

    /// The surface must be reconfigured before the next image is acquired.
    pub open spec fn is_stale(&self) -> bool {
        self.surface_lost_spec() || self.config_spec().size_spec() != self.size_spec()
    }

    /// A context built for a window of the given size, with the chosen surface
    /// format index and presentation mode, and no user shader set.
    pub fn new(size: PhysicalSize, format: usize, present_mode: PresentationMode) -> (r: Self)
        ensures
            r.wf(),
            r.config_spec() == (SurfaceConfig {
                width: size.width,
                height: size.height,
                format,
                alpha_mode: 0,
                present_mode,
            }),
            r.size_spec() == size,
            !r.is_stale(),
            r.render_texture_spec().texture.id == 0,
            r.user_shaders_spec() is None,
    {
        let config = SurfaceConfig::new(size, format, present_mode);
        let render_texture = RenderTexture::new(0, &config);
        Graphics { config, size, surface_lost: false, render_texture, user_shaders: None }
    }

    pub fn size(&self) -> (r: PhysicalSize)
        ensures
            r == self.size_spec(),
    {
        self.size
    }

    pub fn config(&self) -> (r: SurfaceConfig)
        ensures
            r == self.config_spec(),
    {
        self.config
    }

    pub fn render_texture(&self) -> (r: RenderTexture)
        ensures
            r == self.render_texture_spec(),
    {
        self.render_texture
    }

    pub fn user_shaders(&self) -> (r: Option<&UserShaders>)
        ensures
            r is None <==> self.user_shaders_spec() is None,
            r matches Some(s) ==> self.user_shaders_spec() == Some(*s),
    {
        self.user_shaders.as_ref()
    }

    pub fn needs_reconfigure(&self) -> (r: bool)
        ensures
            r == self.is_stale(),
    {
        self.surface_lost || self.config.width != self.size.width || self.config.height != self.size.height
    }

    /// Installs or removes the user shader set.
    pub fn set_user_shaders(&mut self, shaders: Option<UserShaders>)
        requires
            old(self).wf(),
        ensures
            final(self).wf(),
            final(self).user_shaders_spec() == shaders,
            final(self).config_spec() == old(self).config_spec(),
            final(self).size_spec() == old(self).size_spec(),
            final(self).surface_lost_spec() == old(self).surface_lost_spec(),
            final(self).render_texture_spec() == old(self).render_texture_spec(),
    {
        self.user_shaders = shaders;
    }

    /// Records the size that the window asks for. Nothing is reallocated
    /// here: the next frame reconfigures. A size with a zero side is ignored.
    pub fn resize(&mut self, size: PhysicalSize)
        requires
            old(self).wf(),
        ensures
            final(self).wf(),
            resized(*old(self), size, *final(self)),
    {
        if size.presentable() {
            self.size = size;
        }
    }

    /// Brings the surface up to date before an image is acquired. When the
    /// context is stale, the configuration takes the requested size, a new
    /// off-screen texture of that size replaces the old one and the
    /// presentation pipeline is rebuilt around it; the new configuration is
    /// returned so that it can be applied to the surface.
    pub fn prepare_frame(&mut self) -> (r: Option<SurfaceConfig>)
        requires
            old(self).wf(),
        ensures
            final(self).wf(),
            prepared(*old(self), *final(self), r),
    {
        if !self.needs_reconfigure() {
            return None;
        }
        self.config = SurfaceConfig { width: self.size.width, height: self.size.height, ..self.config };
        self.surface_lost = false;
        let id = next_texture_id(self.render_texture.texture.id);
        let texture = Texture::render_texture(id, &self.config);
        self.render_texture = RenderTexture::from_texture(&self.config, texture);
        Some(self.config)
    }

    /// Decides a frame once acquisition has been attempted. With an image,
    /// gives the frame's commands; without one, nothing is rendered, the
    /// error is handed back, and a lost surface makes the context stale.
    pub fn render(&mut self, acquired: Result<(), FrameError>) -> (r: Result<Vec<Command>, FrameError>)
        requires
            old(self).wf(),
        ensures
            final(self).wf(),
            rendered(*old(self), acquired, *final(self), r),
    {
        match acquired {
            Err(e) => {
                if e == FrameError::Lost {
                    self.surface_lost = true;
                }
                Err(e)
            },
            Ok(()) => {
                let mut commands: Vec<Command> = Vec::new();
                match &self.user_shaders {
                    Some(shaders) => shaders.execute(&mut commands),
                    None => {},
                }
                self.render_texture.present(&mut commands);
                commands.push(Command::Submit);
                commands.push(Command::Present);
                assert(commands@ =~= frame_commands(self.user_shaders, self.render_texture.texture.id));
                Ok(commands)
            },
        }
    }
}

pub open spec fn next_texture_id_spec(id: u64) -> u64 {
    if id == u64::MAX {
        0
    } else {
        (id + 1) as u64
    }
}

/// The id of a texture that replaces the one with id `id`.
pub fn next_texture_id(id: u64) -> (r: u64)
    ensures
        r == next_texture_id_spec(id),
        r != id,
{
    if id == u64::MAX {
        0
    } else {
        id + 1
    }
}

/// The user shader set, the live configuration, the lost flag and the
/// presentation pipeline of two contexts are the same.
pub open spec fn same_surface_state(a: Graphics, b: Graphics) -> bool {
    &&& a.config_spec() == b.config_spec()
    &&& a.surface_lost_spec() == b.surface_lost_spec()
    &&& a.render_texture_spec() == b.render_texture_spec()
    &&& a.user_shaders_spec() == b.user_shaders_spec()
}

/// `new` is `old` after a request for `size`: the requested size changes only
/// when both sides are non-zero, and nothing else changes.
pub open spec fn resized(old: Graphics, size: PhysicalSize, new: Graphics) -> bool {
    &&& same_surface_state(old, new)
    &&& new.size_spec() == if size.is_presentable() { size } else { old.size_spec() }
}

/// `new` is `old` brought up to date, and `r` the configuration to apply.
pub open spec fn prepared(old: Graphics, new: Graphics, r: Option<SurfaceConfig>) -> bool {
    &&& new.size_spec() == old.size_spec()
    &&& new.user_shaders_spec() == old.user_shaders_spec()
    &&& if old.is_stale() {
        &&& new.config_spec() == old.config_spec().with_size(old.size_spec())
        &&& !new.surface_lost_spec()
        &&& new.render_texture_spec() == (RenderTexture {
            texture: Texture::for_config(
                next_texture_id_spec(old.render_texture_spec().texture.id),
                new.config_spec(),
            ),
            target_format: new.config_spec().format,
        })
        &&& r == Some(new.config_spec())
    } else {
        &&& same_surface_state(old, new)
        &&& r is None
    }
}

/// `new` and `r` are what a frame gives from `old` after acquisition
/// reported `acquired`.
pub open spec fn rendered(
    old: Graphics,
    acquired: Result<(), FrameError>,
    new: Graphics,
    r: Result<Vec<Command>, FrameError>,
) -> bool {
    &&& new.size_spec() == old.size_spec()
    &&& new.config_spec() == old.config_spec()
    &&& new.render_texture_spec() == old.render_texture_spec()
    &&& new.user_shaders_spec() == old.user_shaders_spec()
    &&& match acquired {
        Ok(_) => {
            &&& new.surface_lost_spec() == old.surface_lost_spec()
            &&& r matches Ok(commands)
            &&& commands@ == frame_commands(
                old.user_shaders_spec(),
                old.render_texture_spec().texture.id,
            )
        },
        Err(e) => {
            &&& new.surface_lost_spec() == (old.surface_lost_spec() || e == FrameError::Lost)
            &&& r matches Err(e2)
            &&& e2 == e
        },
    }
}

} // verus!

verus! {

proof fn lemma_frame_counts(shaders: Option<UserShaders>, texture: u64, p: spec_fn(Command) -> bool, target: Command)
    requires
        forall|c: Command| #[trigger] p(c) <==> c == target,
        target is Submit || target is Present,
    ensures
        occurrences(frame_commands(shaders, texture), p) == 1,
{
    let compute = match shaders {
        Some(s) => compute_pass_commands(s.shaders_spec()),
        None => Seq::empty(),
    };
    let present = present_commands(texture);
    let tail = seq![Command::Submit, Command::Present];
    match shaders {
        Some(s) => {
            let body = crate::shaders::units_commands(s.shaders_spec());
            lemma_units_commands_none(s.shaders_spec(), p);
            lemma_occurrences_single(Command::BeginComputePass, p);
            lemma_occurrences_single(Command::EndComputePass, p);
            lemma_occurrences_add(seq![Command::BeginComputePass], body, p);
            lemma_occurrences_add(seq![Command::BeginComputePass] + body, seq![Command::EndComputePass], p);
        },
        None => {
            crate::commands::lemma_occurrences_none(compute, p);
        },
    }
    assert forall|i: int| 0 <= i < present.len() implies !p(#[trigger] present[i]) by {}
    crate::commands::lemma_occurrences_none(present, p);
    assert(tail =~= seq![Command::Submit] + seq![Command::Present]);
    lemma_occurrences_single(Command::Submit, p);
    lemma_occurrences_single(Command::Present, p);
    lemma_occurrences_add(seq![Command::Submit], seq![Command::Present], p);
    lemma_occurrences_add(compute, present, p);
    lemma_occurrences_add(compute + present, tail, p);
}

/// Every frame whose image was acquired submits one command buffer and
/// presents one image, with or without a compute stage.
pub proof fn frame_submits_and_presents_once(shaders: Option<UserShaders>, texture: u64)
    ensures
        occurrences(frame_commands(shaders, texture), |c: Command| is_submit(c)) == 1,
        occurrences(frame_commands(shaders, texture), |c: Command| is_present(c)) == 1,
{
    lemma_frame_counts(shaders, texture, |c: Command| is_submit(c), Command::Submit);
    lemma_frame_counts(shaders, texture, |c: Command| is_present(c), Command::Present);
}

/// After a resize to a non-zero size, preparing the next frame leaves the
/// surface configured with exactly that size, before any image is acquired.
pub proof fn resize_then_frame_configures(g0: Graphics, size: PhysicalSize, g1: Graphics, g2: Graphics, r: Option<SurfaceConfig>)
    requires
        g0.wf(),
        size.is_presentable(),
        resized(g0, size, g1),
        prepared(g1, g2, r),
    ensures
        g2.config_spec().width == size.width,
        g2.config_spec().height == size.height,
        !g2.is_stale(),
        g0.config_spec().size_spec() != size ==> r == Some(g2.config_spec()),
{
}

/// A resize with a zero side changes neither the requested size nor the
/// configuration.
pub proof fn zero_resize_ignored(g0: Graphics, size: PhysicalSize, g1: Graphics)
    requires
        size.width == 0 || size.height == 0,
        resized(g0, size, g1),
    ensures
        g1.size_spec() == g0.size_spec(),
        g1.config_spec() == g0.config_spec(),
        g1.is_stale() == g0.is_stale(),
{
}

/// With no shader set, or an empty one, an acquired frame still presents:
/// it clears to black, samples the off-screen texture through the quad,
/// submits once and presents once.
pub proof fn empty_set_still_presents(g0: Graphics, g1: Graphics, r: Result<Vec<Command>, FrameError>)
    requires
        g0.user_shaders_spec() matches Some(s) ==> s.shaders_spec().len() == 0,
        rendered(g0, Ok(()), g1, r),
    ensures
        r matches Ok(c) && c@ == (if g0.user_shaders_spec() is Some {
            seq![Command::BeginComputePass, Command::EndComputePass]
        } else {
            Seq::<Command>::empty()
        }) + present_commands(g0.render_texture_spec().texture.id) + seq![Command::Submit, Command::Present],
        r matches Ok(c) && occurrences(c@, |c: Command| is_present(c)) == 1,
        r matches Ok(c) && occurrences(c@, |c: Command| is_submit(c)) == 1,
{
    frame_submits_and_presents_once(g0.user_shaders_spec(), g0.render_texture_spec().texture.id);
    match g0.user_shaders_spec() {
        Some(s) => {
            assert(crate::shaders::units_commands(s.shaders_spec()) =~= Seq::<Command>::empty());
            assert(compute_pass_commands(s.shaders_spec()) =~= seq![Command::BeginComputePass, Command::EndComputePass]);
        },
        None => {},
    }
}

/// Once a stale context has replaced its off-screen texture, the next frame
/// samples the new texture, which is sized to the new configuration, and
/// never the one it replaced.
pub proof fn replaced_texture_is_sampled(
    g0: Graphics,
    g1: Graphics,
    r: Option<SurfaceConfig>,
    g2: Graphics,
    frame: Result<Vec<Command>, FrameError>,
)
    requires
        g0.wf(),
        g0.is_stale(),
        prepared(g0, g1, r),
        rendered(g1, Ok(()), g2, frame),
    ensures
        g1.render_texture_spec().texture.id != g0.render_texture_spec().texture.id,
        g1.render_texture_spec().texture.width == g0.size_spec().width,
        g1.render_texture_spec().texture.height == g0.size_spec().height,
        frame matches Ok(c) && c@ == frame_commands(g0.user_shaders_spec(), g1.render_texture_spec().texture.id),
{
    let id = g0.render_texture_spec().texture.id;
    assert(next_texture_id_spec(id) != id);
}

/// A lost surface renders nothing in that frame, and the next frame starts
/// with a reconfiguration at the last requested size. Running out of memory
/// ends the event loop.
pub proof fn lost_surface_recovers(
    g0: Graphics,
    g1: Graphics,
    frame: Result<Vec<Command>, FrameError>,
    g2: Graphics,
    r: Option<SurfaceConfig>,
)
    requires
        rendered(g0, Err(FrameError::Lost), g1, frame),
        prepared(g1, g2, r),
    ensures
        frame == Err::<Vec<Command>, FrameError>(FrameError::Lost),
        r == Some(g2.config_spec()),
        g2.config_spec().size_spec() == g0.size_spec(),
        !g2.is_stale(),
        control_after(Some(FrameError::OutOfMemory)) == LoopControl::Exit,
        control_after(Some(FrameError::Lost)) == LoopControl::Continue,
{
}

} // verus!
