use vstd::prelude::*;

use crate::command::{RenderCommand, lemma_scope_balance_append, scope_balance};
use crate::pipeline::{Pipeline, grid_spec};
use crate::surface::{ConfigError, Size, SurfaceConfig, SurfaceFormat, preferred_format, MAX_FRAME_LATENCY, PresentMode};

verus! {

/// What came of asking the surface for the next presentable image.
#[derive(Clone, Copy, Debug, PartialEq, Eq, Structural)]
pub enum Acquire {
    /// An image was handed out.
    Frame,
    /// The surface was lost: reconfigure and try on the next frame.
    Lost,
    /// The surface no longer matches the window: skip this frame.
    Outdated,
    /// No image came in time: skip this frame.
    Timeout,
    /// The driver ran out of memory: the render loop must end.
    OutOfMemory,
}

/// A failure of a frame that the caller cannot recover from.
#[derive(Clone, Copy, Debug, PartialEq, Eq, Structural)]
pub enum RenderError {
    OutOfMemory,
}

/// Why the renderer could not be brought up.
#[derive(Clone, Copy, Debug, PartialEq, Eq, Structural)]
pub enum InitError {
    /// No adapter can drive the window's surface.
    NoSuitableAdapter,
    /// The adapter refused to create a logical device.
    DeviceCreationFailed,
    /// The surface advertises no format.
    NoSurfaceFormat,
    /// The window has a zero dimension.
    ZeroSize,
}

/// The renderer: surface configuration, the window size it was last given, and
/// the geometry pipeline.
pub struct Renderer {
    config: SurfaceConfig,
    size: Size,
    pipeline: Pipeline,
}

/// The commands of one frame, given what the acquisition returned.
pub open spec fn frame_spec(config: SurfaceConfig, pipeline: Pipeline, acquired: Acquire) -> Result<
    Seq<RenderCommand>,
    RenderError,
> {
    match acquired {
        Acquire::Frame => Ok(
            seq![RenderCommand::OpenScope, RenderCommand::BeginPass] + pipeline.draw_spec() + seq![
                RenderCommand::EndPass,
                RenderCommand::FinishScope,
                RenderCommand::Submit,
                RenderCommand::Present,
            ],
        ),
        Acquire::Lost => Ok(seq![RenderCommand::Reconfigure(config)]),
        Acquire::Outdated => Ok(Seq::empty()),
        Acquire::Timeout => Ok(Seq::empty()),
        Acquire::OutOfMemory => Err(RenderError::OutOfMemory),
    }
}

impl Renderer {
    pub closed spec fn config_spec(&self) -> SurfaceConfig {
        self.config
    }

    pub closed spec fn size_spec(&self) -> Size {
        self.size
    }

    pub closed spec fn pipeline_spec(&self) -> Pipeline {
        self.pipeline
    }

    /// The configuration is presentable, matches the cached size, and the
    /// pipeline writes the configured format.
    pub open spec fn valid(&self) -> bool {
        &&& self.config_spec().is_valid()
        &&& self.config_spec().size_spec() == self.size_spec()
        &&& self.pipeline_spec().valid()
        &&& self.pipeline_spec().target_format_spec() == self.config_spec().format
    }

    /// The commands of one frame on this renderer.
    pub open spec fn frame(&self, acquired: Acquire) -> Result<Seq<RenderCommand>, RenderError> {
        frame_spec(self.config_spec(), self.pipeline_spec(), acquired)
    }

    /// Brings the renderer up for a window of `size` whose surface advertises
    /// `formats`, with the demonstration grid loaded.
    pub fn new(formats: &Vec<SurfaceFormat>, size: Size) -> (r: Result<Renderer, InitError>)
        ensures
            formats@.len() == 0 ==> r == Err::<Renderer, InitError>(InitError::NoSurfaceFormat),
            formats@.len() > 0 && !size.is_drawable() ==> r == Err::<Renderer, InitError>(
                InitError::ZeroSize,
            ),
            formats@.len() > 0 && size.is_drawable() ==> r is Ok,
            r matches Ok(rn) ==> {
                &&& rn.valid()
                &&& rn.size_spec() == size
                &&& rn.config_spec() == (SurfaceConfig {
                    format: preferred_format(formats@).unwrap(),
                    width: size.width,
                    height: size.height,
                    present_mode: PresentMode::Fifo,
                    max_frame_latency: MAX_FRAME_LATENCY,
                })
                &&& rn.pipeline_spec().instances_spec() == grid_spec()
            },
    {
        match SurfaceConfig::new(formats, size) {
            Err(ConfigError::NoFormat) => Err(InitError::NoSurfaceFormat),
            Err(ConfigError::ZeroSize) => Err(InitError::ZeroSize),
            Ok(config) => {
                let pipeline = Pipeline::new(&config);
                Ok(Renderer { config, size, pipeline })
            },
        }
    }

    /// The configuration currently applied.
    pub fn config(&self) -> (r: SurfaceConfig)
        ensures
            r == self.config_spec(),
    {
        self.config
    }

    /// The window size last taken.
    pub fn size(&self) -> (r: Size)
        ensures
            r == self.size_spec(),
    {
        self.size
    }

    /// The geometry pipeline.
    pub fn pipeline(&self) -> (r: &Pipeline)
        ensures
            *r == self.pipeline_spec(),
    {
        &self.pipeline
    }

    /// Handles a window resize. A size with a zero dimension changes nothing
    /// and returns `None`: the surface is not to be touched. Otherwise the
    /// configuration and cached size take the new dimensions and the
    /// configuration to apply is returned.
    pub fn resize(&mut self, size: Size) -> (r: Option<SurfaceConfig>)
        requires
            old(self).valid(),
        ensures
            final(self).valid(),
            !size.is_drawable() ==> r is None && *final(self) == *old(self),
            size.is_drawable() ==> {
                &&& r == Some(final(self).config_spec())
                &&& final(self).config_spec() == (SurfaceConfig {
                    width: size.width,
                    height: size.height,
                    ..old(self).config_spec()
                })
                &&& final(self).size_spec() == size
                &&& final(self).pipeline_spec() == old(self).pipeline_spec()
            },
    {
        if self.config.resize(size) {
            self.size = size;
            Some(self.config)
        } else {
            None
        }
    }

    /// Plans one frame from what the acquisition returned. An image gives the
    /// full frame: open a scope, clear, draw every instance, close the scope,
    /// submit and present. A lost surface gives a reconfiguration at the last
    /// known size and nothing drawn. An outdated surface or a timeout gives
    /// nothing. Running out of memory is the one error.
    pub fn render(&mut self, acquired: Acquire) -> (r: Result<Vec<RenderCommand>, RenderError>)
        requires
            old(self).valid(),
        ensures
            *final(self) == *old(self),
            match r {
                Ok(cmds) => old(self).frame(acquired) == Ok::<Seq<RenderCommand>, RenderError>(cmds@),
                Err(e) => old(self).frame(acquired) == Err::<Seq<RenderCommand>, RenderError>(e),
            },
    {
        match acquired {
            Acquire::Frame => {
                let mut cmds = vec![RenderCommand::OpenScope, RenderCommand::BeginPass];
                let mut pass = self.pipeline.draw();
                cmds.append(&mut pass);
                cmds.push(RenderCommand::EndPass);
                cmds.push(RenderCommand::FinishScope);
                cmds.push(RenderCommand::Submit);
                cmds.push(RenderCommand::Present);
                assert(cmds@ =~= self.frame(acquired).unwrap());
                Ok(cmds)
            },
            Acquire::Lost => {
                let cmds = vec![RenderCommand::Reconfigure(self.config)];
                assert(cmds@ =~= self.frame(acquired).unwrap());
                Ok(cmds)
            },
            Acquire::Outdated | Acquire::Timeout => {
                let cmds: Vec<RenderCommand> = Vec::new();
                assert(cmds@ =~= self.frame(acquired).unwrap());
                Ok(cmds)
            },
            Acquire::OutOfMemory => Err(RenderError::OutOfMemory),
        }
    }
}

/// The commands of consecutive frames on one renderer; a frame that failed
/// contributes none.
pub open spec fn frames(config: SurfaceConfig, pipeline: Pipeline, acquired: Seq<Acquire>) -> Seq<
    RenderCommand,
>
    decreases acquired.len(),
{
    if acquired.len() == 0 {
        Seq::empty()
    } else {
        frames(config, pipeline, acquired.drop_last()) + match frame_spec(
            config,
            pipeline,
            acquired.last(),
        ) {
            Ok(cmds) => cmds,
            Err(_) => Seq::empty(),
        }
    }
}

/// Every frame finalizes each recording scope it opens, whatever the
/// acquisition returned.
pub proof fn lemma_frame_balances_scopes(config: SurfaceConfig, pipeline: Pipeline, acquired: Acquire)
    ensures
        match frame_spec(config, pipeline, acquired) {
            Ok(cmds) => scope_balance(cmds) == 0,
            Err(_) => true,
        },
{
    reveal_with_fuel(scope_balance, 11);
    match acquired {
        Acquire::Frame => {
            let cmds = frame_spec(config, pipeline, acquired).unwrap();
            assert(cmds.len() == 10);
            assert(cmds.drop_last().drop_last().drop_last().drop_last().drop_last().drop_last()
                .drop_last().drop_last().drop_last().drop_last() =~= Seq::<RenderCommand>::empty());
        },
        Acquire::Lost => {
            let cmds = seq![RenderCommand::Reconfigure(config)];
            assert(cmds.drop_last() =~= Seq::<RenderCommand>::empty());
        },
        _ => {},
    }
}

/// Over any run of frames, including a lost surface followed by a successful
/// acquisition, every opened recording scope is finalized exactly once.
pub proof fn lemma_frames_balance_scopes(r: Renderer, acquired: Seq<Acquire>)
    ensures
        scope_balance(frames(r.config_spec(), r.pipeline_spec(), acquired)) == 0,
    decreases acquired.len(),
{
    if acquired.len() > 0 {
        lemma_frames_balance_scopes(r, acquired.drop_last());
        lemma_frame_balances_scopes(r.config_spec(), r.pipeline_spec(), acquired.last());
        let prev = frames(r.config_spec(), r.pipeline_spec(), acquired.drop_last());
        let last = match frame_spec(r.config_spec(), r.pipeline_spec(), acquired.last()) {
            Ok(cmds) => cmds,
            Err(_) => Seq::empty(),
        };
        lemma_scope_balance_append(prev, last);
    }
}

/// What each of consecutive frames on one renderer returns; a frame leaves
/// the renderer as it was, so each is planned on the same state.
pub open spec fn frame_results(r: Renderer, acquired: Seq<Acquire>) -> Seq<
    Result<Seq<RenderCommand>, RenderError>,
> {
    acquired.map_values(|a: Acquire| r.frame(a))
}

/// Running out of memory is fatal every time: in any run of frames, each
/// acquisition that ran out of memory is reported as the fatal error, however
/// many came before it.
pub proof fn lemma_out_of_memory_stays_fatal(r: Renderer, acquired: Seq<Acquire>)
    ensures
        forall|i: int|
            0 <= i < acquired.len() && acquired[i] == Acquire::OutOfMemory ==> #[trigger] frame_results(
                r,
                acquired,
            )[i] == Err::<Seq<RenderCommand>, RenderError>(RenderError::OutOfMemory),
{
}

} // verus!
