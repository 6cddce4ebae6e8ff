use frame_harness::clock::{Elapsed, FrameClock};
use frame_harness::color::{BlendMode, Rgba};
use frame_harness::pipeline::{
    shade_pixel, BackgroundUniforms, DrawPassConfig, ForegroundUniforms, FramePipeline, FrameStep,
    MagnifyFilter, SamplerRef,
};
use frame_harness::scheduler::{FrameEvent, FrameScheduler, SchedulerAction};

fn unit(value: f32) -> u8 {
    (value * 255.0).round() as u8
}

fn color(r: f32, g: f32, b: f32, a: f32) -> Rgba {
    Rgba::new(unit(r), unit(g), unit(b), unit(a))
}

fn config(background: bool, foreground: bool) -> DrawPassConfig {
    DrawPassConfig {
        clear_color: color(0.2, 0.2, 0.2, 1.0),
        blend: BlendMode::Alpha,
        background,
        foreground,
    }
}

fn background_step(height: u32, time: Elapsed) -> FrameStep {
    FrameStep::DrawBackground {
        uniforms: BackgroundUniforms { height, time },
        blend: BlendMode::Replace,
    }
}

fn foreground_step(blend: BlendMode) -> FrameStep {
    FrameStep::DrawForeground {
        uniforms: ForegroundUniforms { tex: SamplerRef { magnify: MagnifyFilter::Nearest } },
        blend,
    }
}

#[test]
fn pipeline_keeps_its_configuration() {
    let pipeline = FramePipeline::new(config(true, false), 234);
    assert_eq!(pipeline.config(), config(true, false));
    assert_eq!(pipeline.viewport_height(), 234);
}

#[test]
fn two_pass_frame_is_acquire_clear_background_foreground_present() {
    let pipeline = FramePipeline::new(config(true, true), 234);
    let clock = FrameClock::new(1_000);
    let steps = pipeline.render_frame(&clock, 3_500_001_000);
    assert_eq!(
        steps,
        vec![
            FrameStep::Acquire,
            FrameStep::Clear(Rgba::new(51, 51, 51, 255)),
            background_step(234, Elapsed { secs: 3, subsec_nanos: 500_000_000 }),
            foreground_step(BlendMode::Alpha),
            FrameStep::Present,
        ]
    );
}

#[test]
fn passes_that_are_not_configured_are_left_out() {
    let clock = FrameClock::new(0);
    let zero = Elapsed { secs: 0, subsec_nanos: 0 };
    let cleared = FrameStep::Clear(Rgba::new(51, 51, 51, 255));
    assert_eq!(
        FramePipeline::new(config(false, false), 234).render_frame(&clock, 0),
        vec![FrameStep::Acquire, cleared, FrameStep::Present]
    );
    assert_eq!(
        FramePipeline::new(config(true, false), 234).render_frame(&clock, 0),
        vec![FrameStep::Acquire, cleared, background_step(234, zero), FrameStep::Present]
    );
    assert_eq!(
        FramePipeline::new(config(false, true), 234).render_frame(&clock, 0),
        vec![FrameStep::Acquire, cleared, foreground_step(BlendMode::Alpha), FrameStep::Present]
    );
}

#[test]
fn background_is_drawn_before_foreground() {
    let pipeline = FramePipeline::new(config(true, true), 234);
    let clock = FrameClock::new(0);
    for now in [0u64, 1, 16_666_667, 1 << 40].iter() {
        let steps = pipeline.render_frame(&clock, *now);
        let background =
            steps.iter().position(|s| matches!(s, FrameStep::DrawBackground { .. })).unwrap();
        let foreground =
            steps.iter().position(|s| matches!(s, FrameStep::DrawForeground { .. })).unwrap();
        assert!(background < foreground);
        assert_eq!(steps.first(), Some(&FrameStep::Acquire));
        assert_eq!(steps.last(), Some(&FrameStep::Present));
    }
}

#[test]
fn clear_color_only_frame_shows_the_clear_color_everywhere() {
    let clear = color(0.8, 0.0, 0.1, 1.0);
    assert_eq!(clear, Rgba::new(204, 0, 26, 255));
    let pipeline = FramePipeline::new(
        DrawPassConfig {
            clear_color: clear,
            blend: BlendMode::Replace,
            background: false,
            foreground: false,
        },
        234,
    );
    let clock = FrameClock::new(0);
    let mut scheduler = FrameScheduler::new(16_666_667);
    let events = [
        FrameEvent::Tick,
        FrameEvent::Tick,
        FrameEvent::Other,
        FrameEvent::Tick,
        FrameEvent::Close,
        FrameEvent::Tick,
    ];
    let mut now: u64 = 0;
    let mut frames = 0;
    for event in events.iter() {
        match scheduler.on_event(*event) {
            SchedulerAction::RenderFrame => {
                let steps = pipeline.render_frame(&clock, now);
                let time = clock.elapsed_seconds(now);
                let texel = Rgba::new(255, 0, 0, 255);
                for y in 0u32..234 {
                    for x in 0u32..320 {
                        assert_eq!(pipeline.presented_pixel(time, x, y, texel), clear);
                    }
                }
                for (x, y) in [(0u32, 0u32), (319, 0), (0, 233), (319, 233), (160, 117)].iter() {
                    assert_eq!(shade_pixel(&steps, *x, *y, texel, Rgba::new(9, 9, 9, 9)), clear);
                }
                frames += 1;
                now = scheduler.schedule_next(now).unwrap();
            }
            SchedulerAction::Wait => {}
            SchedulerAction::Exit => {}
        }
    }
    assert_eq!(frames, 3);
}

#[test]
fn clear_color_only_frame_needs_no_viewport() {
    let clear = Rgba::new(1, 2, 3, 4);
    let pipeline = FramePipeline::new(
        DrawPassConfig {
            clear_color: clear,
            blend: BlendMode::Replace,
            background: false,
            foreground: false,
        },
        0,
    );
    let time = Elapsed { secs: 0, subsec_nanos: 0 };
    assert_eq!(pipeline.presented_pixel(time, 0, 0, Rgba::new(0, 0, 0, 0)), clear);
}

#[test]
fn two_pass_frame_at_time_zero_shows_opaque_red_over_the_gray_stripe() {
    let time = Elapsed { secs: 0, subsec_nanos: 0 };
    let background_only = FramePipeline::new(config(true, false), 234);
    let gray = color(0.25, 0.25, 0.25, 1.0);
    assert_eq!(gray, Rgba::new(64, 64, 64, 255));
    assert_eq!(background_only.presented_pixel(time, 0, 0, Rgba::new(0, 0, 0, 0)), gray);

    let both = FramePipeline::new(config(true, true), 234);
    let red = color(1.0, 0.0, 0.0, 1.0);
    assert_eq!(both.presented_pixel(time, 0, 0, red), red);
    assert_eq!(both.presented_pixel(time, 0, 0, red), Rgba::new(255, 0, 0, 255));
}

#[test]
fn background_replaces_the_clear_color_also_where_it_is_transparent() {
    let time = Elapsed { secs: 0, subsec_nanos: 0 };
    let pipeline = FramePipeline::new(config(true, false), 234);
    assert_eq!(pipeline.presented_pixel(time, 0, 30, Rgba::new(1, 1, 1, 1)), Rgba::new(0, 0, 0, 0));
}

#[test]
fn translucent_texel_is_composited_over_the_background() {
    let time = Elapsed { secs: 0, subsec_nanos: 0 };
    let pipeline = FramePipeline::new(config(true, true), 234);
    let texel = Rgba::new(255, 0, 0, 55);
    assert_eq!(pipeline.presented_pixel(time, 0, 0, texel), Rgba::new(105, 50, 50, 212));
    // Over a transparent stripe: (255 * 55 + 127) / 255 and (55 * 55 + 127) / 255.
    assert_eq!(pipeline.presented_pixel(time, 0, 30, texel), Rgba::new(55, 0, 0, 12));
}

#[test]
fn foreground_alone_is_composited_over_the_clear_color() {
    let time = Elapsed { secs: 7, subsec_nanos: 1 };
    let pipeline = FramePipeline::new(config(false, true), 234);
    assert_eq!(
        pipeline.presented_pixel(time, 5, 5, Rgba::new(0, 0, 255, 255)),
        Rgba::new(0, 0, 255, 255)
    );
    assert_eq!(
        pipeline.presented_pixel(time, 5, 5, Rgba::new(0, 0, 0, 0)),
        Rgba::new(51, 51, 51, 255)
    );
}

#[test]
fn presented_pixel_is_what_the_steps_leave() {
    let clock = FrameClock::new(0);
    let texels = [Rgba::new(0, 255, 0, 155), Rgba::new(0, 0, 0, 0), Rgba::new(255, 0, 0, 255)];
    for (background, foreground) in [(false, false), (true, false), (false, true), (true, true)] {
        let pipeline = FramePipeline::new(config(background, foreground), 234);
        for now in [0u64, 900_000_000, 2_400_000_000].iter() {
            let steps = pipeline.render_frame(&clock, *now);
            let time = clock.elapsed_seconds(*now);
            for (x, y) in [(0u32, 0u32), (10, 100), (319, 233), (200, 3)].iter() {
                for texel in texels.iter() {
                    assert_eq!(
                        shade_pixel(&steps, *x, *y, *texel, Rgba::new(7, 7, 7, 7)),
                        pipeline.presented_pixel(time, *x, *y, *texel)
                    );
                }
            }
        }
    }
}

#[test]
fn single_pass_with_the_default_blend_state_overwrites() {
    let time = Elapsed { secs: 0, subsec_nanos: 0 };
    let single = DrawPassConfig {
        clear_color: Rgba::new(51, 51, 51, 255),
        blend: BlendMode::Replace,
        background: false,
        foreground: true,
    };
    let pipeline = FramePipeline::new(single, 234);
    let texel = Rgba::new(255, 0, 0, 55);
    assert_eq!(pipeline.presented_pixel(time, 3, 4, texel), texel);
    assert_eq!(
        pipeline.render_frame(&FrameClock::new(0), 0),
        vec![
            FrameStep::Acquire,
            FrameStep::Clear(Rgba::new(51, 51, 51, 255)),
            foreground_step(BlendMode::Replace),
            FrameStep::Present,
        ]
    );
}

#[test]
fn no_steps_leave_the_pixel_as_it_was() {
    let held = Rgba::new(4, 3, 2, 1);
    assert_eq!(shade_pixel(&Vec::new(), 0, 0, Rgba::new(255, 255, 255, 255), held), held);
    assert_eq!(
        shade_pixel(
            &vec![FrameStep::Acquire, FrameStep::Present],
            0,
            0,
            Rgba::new(255, 255, 255, 255),
            held
        ),
        held
    );
}
