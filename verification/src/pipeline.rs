//! The frame pipeline: what is issued against the frame target for one
//! frame, in which order, and what that leaves in each pixel.
//!
//! The pipeline issues nothing itself. It lays a frame out as a list of
//! steps; the host performs them against the GPU one after the other.

use crate::background::{background_color, stripe_class};
use crate::clock::{Elapsed, FrameClock};
use crate::color::{blended, BlendMode, Rgba};
use vstd::prelude::*;

verus! {

/// How a texture is read where one texel covers several pixels.
#[derive(Copy, Clone, Debug, PartialEq, Eq, Structural)]
pub enum MagnifyFilter {
    /// The closest texel, with no interpolation.
    Nearest,
    /// A weighted mean of the texels around the point.
    Linear,
}

/// A reference to the texture asset together with the way it is sampled.
#[derive(Copy, Clone, Debug, PartialEq, Eq, Structural)]
pub struct SamplerRef {
    pub magnify: MagnifyFilter,
}

/// The uniforms of the background pass.
#[derive(Copy, Clone, Debug, PartialEq, Eq, Structural)]
pub struct BackgroundUniforms {
    /// Height of the viewport, in pixels.
    pub height: u32,
    /// Time elapsed since the start of the run.
    pub time: Elapsed,
}

/// The uniforms of the foreground pass.
#[derive(Copy, Clone, Debug, PartialEq, Eq, Structural)]
pub struct ForegroundUniforms {
    /// The texture that the pass samples.
    pub tex: SamplerRef,
}

/// What a run of the harness draws. It is fixed for the whole run.
#[derive(Copy, Clone, Debug, PartialEq, Eq, Structural)]
pub struct DrawPassConfig {
    /// The colour that the target is cleared to.
    pub clear_color: Rgba,
    /// How the foreground pass combines with what the target holds: `Alpha`
    /// where it is composited over the background, `Replace` where a single
    /// pass is all that is drawn.
    pub blend: BlendMode,
    /// Whether the striped background is drawn.
    pub background: bool,
    /// Whether the textured quad is drawn.
    pub foreground: bool,
}

/// One step of a frame.
#[allow(inconsistent_fields)]
#[derive(Copy, Clone, Debug, PartialEq, Eq, Structural)]
pub enum FrameStep {
    /// Acquire the frame target from the GPU context.
    Acquire,
    /// Clear the target to a colour.
    Clear(Rgba),
    /// Draw the geometry with the background program.
    DrawBackground { uniforms: BackgroundUniforms, blend: BlendMode },
    /// Draw the geometry with the foreground program.
    DrawForeground { uniforms: ForegroundUniforms, blend: BlendMode },
    /// Finalize the target and show it.
    Present,
}

/// The background pass for a viewport `height` pixels high, `time` after
/// the start. It overwrites what the target holds.
pub open spec fn background_step(height: u32, time: Elapsed) -> FrameStep {
    FrameStep::DrawBackground {
        uniforms: BackgroundUniforms { height, time },
        blend: BlendMode::Replace,
    }
}

/// The foreground pass: the texture sampled at its nearest texel, combined
/// under `blend` with what the target holds.
pub open spec fn foreground_step(blend: BlendMode) -> FrameStep {
    FrameStep::DrawForeground {
        uniforms: ForegroundUniforms { tex: SamplerRef { magnify: MagnifyFilter::Nearest } },
        blend,
    }
}

/// The steps of one frame, in the order in which they are issued: acquire
/// the target, clear it, draw the background if it is configured, then the
/// foreground if it is configured, and present.
pub open spec fn frame_steps(config: DrawPassConfig, height: u32, time: Elapsed) -> Seq<
    FrameStep,
> {
    seq![FrameStep::Acquire, FrameStep::Clear(config.clear_color)] + (if config.background {
        seq![background_step(height, time)]
    } else {
        Seq::<FrameStep>::empty()
    }) + (if config.foreground {
        seq![foreground_step(config.blend)]
    } else {
        Seq::<FrameStep>::empty()
    }) + seq![FrameStep::Present]
}

/// What a pixel holds after `step`, when it held `held` before. `x` and `y`
/// are the pixel's place on the screen and `texel` is what the texture gives
/// at that place.
pub open spec fn pixel_after_step(
    step: FrameStep,
    x: int,
    y: int,
    texel: Rgba,
    held: Rgba,
) -> Rgba {
    match step {
        FrameStep::Acquire => held,
        FrameStep::Clear(color) => color,
        FrameStep::DrawBackground { uniforms, blend } => blended(
            blend,
            background_color(x, y, uniforms.height as int, uniforms.time),
            held,
        ),
        FrameStep::DrawForeground { blend, .. } => blended(blend, texel, held),
        FrameStep::Present => held,
    }
}

/// What a pixel holds after all of `steps`, in order, when it held `held`
/// before the first.
pub open spec fn pixel_after(
    steps: Seq<FrameStep>,
    x: int,
    y: int,
    texel: Rgba,
    held: Rgba,
) -> Rgba
    decreases steps.len(),
{
    if steps.len() == 0 {
        held
    } else {
        let before = pixel_after(steps.drop_last(), x, y, texel, held);
        pixel_after_step(steps.last(), x, y, texel, before)
    }
}

/// The colour of a pixel in the presented frame: the clear colour, replaced
/// by the background where that is drawn, with the texel combined with it
/// under the configured blend mode where the foreground is drawn.
pub open spec fn presented_color(
    config: DrawPassConfig,
    height: u32,
    time: Elapsed,
    x: int,
    y: int,
    texel: Rgba,
) -> Rgba {
    let cleared = config.clear_color;
    let behind = if config.background {
        background_color(x, y, height as int, time)
    } else {
        cleared
    };
    if config.foreground {
        blended(config.blend, texel, behind)
    } else {
        behind
    }
}

/// Whether `steps` hold the frame target as a scoped resource: they begin by
/// acquiring it, end by presenting it, and do neither in between.
pub open spec fn scoped_plan(steps: Seq<FrameStep>) -> bool {
    &&& steps.len() >= 2
    &&& steps[0] == FrameStep::Acquire
    &&& steps.last() == FrameStep::Present
    &&& forall|i: int|
        0 < i < steps.len() - 1 ==> #[trigger] steps[i] != FrameStep::Acquire && steps[i]
            != FrameStep::Present
}

/// The steps of a frame hold the target as a scoped resource, clear it
/// before anything is drawn, and draw nothing but the configured passes.
pub proof fn lemma_frame_steps_shape(config: DrawPassConfig, height: u32, time: Elapsed)
    ensures
        scoped_plan(frame_steps(config, height, time)),
        frame_steps(config, height, time)[1] == FrameStep::Clear(config.clear_color),
        frame_steps(config, height, time).len() == 3 + (if config.background {
            1int
        } else {
            0int
        }) + (if config.foreground {
            1int
        } else {
            0int
        }),
        frame_steps(config, height, time).contains(background_step(height, time))
            <==> config.background,
        frame_steps(config, height, time).contains(foreground_step(config.blend))
            <==> config.foreground,
{
    let steps = frame_steps(config, height, time);
    if config.background {
        assert(steps[2] == background_step(height, time));
    }
    if config.foreground {
        assert(steps[steps.len() - 2] == foreground_step(config.blend));
    }
}

/// The ordering of the passes: where a frame draws both, the background is
/// drawn before the foreground.
pub proof fn lemma_background_before_foreground(
    config: DrawPassConfig,
    height: u32,
    time: Elapsed,
    background: int,
    foreground: int,
)
    requires
        0 <= background < frame_steps(config, height, time).len(),
        0 <= foreground < frame_steps(config, height, time).len(),
        frame_steps(config, height, time)[background] is DrawBackground,
        frame_steps(config, height, time)[foreground] is DrawForeground,
    ensures
        background < foreground,
{
}

/// The closed form of a presented pixel is what the steps of the frame leave
/// in it, whatever the target held when it was acquired.
pub proof fn lemma_presented_color_is_steps_applied(
    config: DrawPassConfig,
    height: u32,
    time: Elapsed,
    x: int,
    y: int,
    texel: Rgba,
    held: Rgba,
)
    ensures
        pixel_after(frame_steps(config, height, time), x, y, texel, held) == presented_color(
            config,
            height,
            time,
            x,
            y,
            texel,
        ),
{
    let none = Seq::<FrameStep>::empty();
    let acquired = none.push(FrameStep::Acquire);
    let cleared = acquired.push(FrameStep::Clear(config.clear_color));
    lemma_pixel_after_push(none, FrameStep::Acquire, x, y, texel, held);
    lemma_pixel_after_push(acquired, FrameStep::Clear(config.clear_color), x, y, texel, held);
    let with_background = if config.background {
        cleared.push(background_step(height, time))
    } else {
        cleared
    };
    if config.background {
        lemma_pixel_after_push(cleared, background_step(height, time), x, y, texel, held);
    }
    let with_foreground = if config.foreground {
        with_background.push(foreground_step(config.blend))
    } else {
        with_background
    };
    if config.foreground {
        lemma_pixel_after_push(
            with_background,
            foreground_step(config.blend),
            x,
            y,
            texel,
            held,
        );
    }
    lemma_pixel_after_push(with_foreground, FrameStep::Present, x, y, texel, held);
    assert(frame_steps(config, height, time) =~= with_foreground.push(FrameStep::Present));
}

/// One more step is applied to what the steps before it left.
pub proof fn lemma_pixel_after_push(
    steps: Seq<FrameStep>,
    step: FrameStep,
    x: int,
    y: int,
    texel: Rgba,
    held: Rgba,
)
    ensures
        pixel_after(steps.push(step), x, y, texel, held) == pixel_after_step(
            step,
            x,
            y,
            texel,
            pixel_after(steps, x, y, texel, held),
        ),
{
    assert(steps.push(step).drop_last() =~= steps);
    assert(steps.push(step).last() == step);
}

/// A frame without draw passes shows the clear colour in every pixel, at
/// every time, whatever the target held before and whatever the texture
/// holds.
pub proof fn lemma_clear_only_frame(
    config: DrawPassConfig,
    height: u32,
    time: Elapsed,
    x: int,
    y: int,
    texel: Rgba,
    held: Rgba,
)
    requires
        !config.background,
        !config.foreground,
    ensures
        presented_color(config, height, time, x, y, texel) == config.clear_color,
        pixel_after(frame_steps(config, height, time), x, y, texel, held) == config.clear_color,
{
    lemma_presented_color_is_steps_applied(config, height, time, x, y, texel, held);
}

/// Whether every background pass among `steps` has a viewport to normalize
/// by.
pub open spec fn passes_have_viewport(steps: Seq<FrameStep>) -> bool {
    forall|i: int|
        0 <= i < steps.len() ==> (#[trigger] steps[i] matches FrameStep::DrawBackground {
            uniforms,
            ..
        } ==> uniforms.height > 0)
}

/// What the pixel `(x, y)` holds after all of `steps`, in order, when it
/// held `held` before the first and the texture gives `texel` there.
pub fn shade_pixel(steps: &Vec<FrameStep>, x: u32, y: u32, texel: Rgba, held: Rgba) -> (color: Rgba)
    requires
        passes_have_viewport(steps@),
    ensures
        color == pixel_after(steps@, x as int, y as int, texel, held),
{
    let mut color = held;
    let mut done: usize = 0;
    while done < steps.len()
        invariant
            done <= steps.len(),
            passes_have_viewport(steps@),
            color == pixel_after(steps@.take(done as int), x as int, y as int, texel, held),
        decreases steps.len() - done,
    {
        let step = steps[done];
        proof {
            lemma_pixel_after_push(
                steps@.take(done as int),
                step,
                x as int,
                y as int,
                texel,
                held,
            );
            assert(steps@.take(done + 1) =~= steps@.take(done as int).push(step));
        }
        color =
        match step {
            FrameStep::Acquire => color,
            FrameStep::Clear(cleared) => cleared,
            FrameStep::DrawBackground { uniforms, blend } => {
                let source = stripe_class(x, y, uniforms.height, uniforms.time).color();
                blend.apply(source, color)
            },
            FrameStep::DrawForeground { blend, .. } => blend.apply(texel, color),
            FrameStep::Present => color,
        };
        done = done + 1;
    }
    proof {
        assert(steps@.take(done as int) =~= steps@);
    }
    color
}

/// Lays out each frame of a run from its fixed configuration.
#[derive(Copy, Clone, Debug)]
pub struct FramePipeline {
    config: DrawPassConfig,
    viewport_height: u32,
}

impl FramePipeline {
    /// What the run draws.
    pub closed spec fn spec_config(self) -> DrawPassConfig {
        self.config
    }

    /// Height of the viewport, in pixels.
    pub closed spec fn spec_viewport_height(self) -> u32 {
        self.viewport_height
    }

    /// A pipeline that draws what `config` says into a viewport
    /// `viewport_height` pixels high.
    pub fn new(config: DrawPassConfig, viewport_height: u32) -> (pipeline: FramePipeline)
        ensures
            pipeline.spec_config() == config,
            pipeline.spec_viewport_height() == viewport_height,
    {
        FramePipeline { config, viewport_height }
    }

    /// What the run draws.
    pub fn config(&self) -> (config: DrawPassConfig)
        ensures
            config == self.spec_config(),
    {
        self.config
    }

    /// Height of the viewport, in pixels.
    pub fn viewport_height(&self) -> (height: u32)
        ensures
            height == self.spec_viewport_height(),
    {
        self.viewport_height
    }

    /// Lays out the frame that is rendered at timestamp `now_ns`: the steps
    /// to issue against the frame target, in order. The time uniform of the
    /// background pass is what `clock` says has elapsed at `now_ns`. The
    /// target is acquired first and presented last, and the background comes
    /// before the foreground.
    pub fn render_frame(&self, clock: &FrameClock, now_ns: u64) -> (steps: Vec<FrameStep>)
        requires
            clock.spec_start() <= now_ns,
        ensures
            steps@ == frame_steps(
                self.spec_config(),
                self.spec_viewport_height(),
                clock.spec_elapsed(now_ns as int),
            ),
            scoped_plan(steps@),
    {
        let time = clock.elapsed_seconds(now_ns);
        let mut steps: Vec<FrameStep> = Vec::new();
        steps.push(FrameStep::Acquire);
        steps.push(FrameStep::Clear(self.config.clear_color));
        if self.config.background {
            steps.push(
                FrameStep::DrawBackground {
                    uniforms: BackgroundUniforms { height: self.viewport_height, time },
                    blend: BlendMode::Replace,
                },
            );
        }
        if self.config.foreground {
            steps.push(
                FrameStep::DrawForeground {
                    uniforms: ForegroundUniforms {
                        tex: SamplerRef { magnify: MagnifyFilter::Nearest },
                    },
                    blend: self.config.blend,
                },
            );
        }
        steps.push(FrameStep::Present);
        proof {
            lemma_frame_steps_shape(self.config, self.viewport_height, time);
            assert(steps@ =~= frame_steps(self.config, self.viewport_height, time));
        }
        steps
    }

    /// The colour of the pixel `(x, y)` in the frame presented `time` after
    /// the start, where the texture gives `texel` at that pixel. Without
    /// draw passes it is the clear colour.
    pub fn presented_pixel(&self, time: Elapsed, x: u32, y: u32, texel: Rgba) -> (color: Rgba)
        requires
            self.spec_config().background ==> self.spec_viewport_height() > 0,
        ensures
            color == presented_color(
                self.spec_config(),
                self.spec_viewport_height(),
                time,
                x as int,
                y as int,
                texel,
            ),
            !self.spec_config().background && !self.spec_config().foreground ==> color
                == self.spec_config().clear_color,
    {
        let behind = if self.config.background {
            stripe_class(x, y, self.viewport_height, time).color()
        } else {
            self.config.clear_color
        };
        if self.config.foreground {
            self.config.blend.apply(texel, behind)
        } else {
            behind
        }
    }
}

} // verus!
