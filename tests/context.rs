use gfxperiment::color::Color;
use gfxperiment::command::{DrawCommand, ResourceDesc};
use gfxperiment::frame::{frame_step, FrameAction, FrameEvent, FramePhase};
use gfxperiment::gfx::Gfx;
use gfxperiment::quad::{Quad, QuadRenderer};
use gfxperiment::surface::{Size, SurfaceConfig, SurfaceError, MAX_FRAME_LATENCY};

fn pipelines(commands: &[DrawCommand]) -> Vec<usize> {
    commands
        .iter()
        .filter_map(|c| match c {
            DrawCommand::SetPipeline { pipeline } => Some(*pipeline),
            _ => None,
        })
        .collect()
}

#[test]
fn new_context_holds_the_shared_uniform() {
    let gfx: Gfx<QuadRenderer> = Gfx::new(Size::new(600, 400));
    let data = gfx.data();
    assert_eq!(data.size, Size::new(600, 400));
    assert_eq!(data.viewport, Size::new(600, 400));
    assert_eq!(
        data.resources,
        vec![
            ResourceDesc::ViewportUniform { width: 600, height: 400 },
            ResourceDesc::ViewportLayout,
            ResourceDesc::ViewportBindGroup { layout: 1, buffer: 0 },
        ]
    );
    assert_eq!(gfx.renderer_count(), 0);
    assert_eq!(gfx.phase(), FramePhase::Idle);
    assert_eq!(gfx.surface_config(), SurfaceConfig { width: 600, height: 400, max_frame_latency: MAX_FRAME_LATENCY });
    assert_eq!(MAX_FRAME_LATENCY, 2);
}

#[test]
fn resize_rewrites_the_uniform() {
    let mut gfx: Gfx<QuadRenderer> = Gfx::new(Size::new(600, 400));
    let update = gfx.resize(Size::new(1024, 768));
    assert_eq!(update.config, SurfaceConfig { width: 1024, height: 768, max_frame_latency: 2 });
    assert_eq!(update.uniform_buffer, 0);
    assert_eq!(update.viewport, Size::new(1024, 768));
    assert_eq!(gfx.data().size, Size::new(1024, 768));
    assert_eq!(gfx.data().viewport, Size::new(1024, 768));
}

#[test]
fn resizing_twice_to_one_size_changes_nothing_more() {
    let mut gfx: Gfx<QuadRenderer> = Gfx::new(Size::new(600, 400));
    let first = gfx.resize(Size::new(300, 200));
    let (size, viewport, resources) = (gfx.data().size, gfx.data().viewport, gfx.data().resources.clone());
    let second = gfx.resize(Size::new(300, 200));
    assert_eq!(first, second);
    assert_eq!(gfx.data().size, size);
    assert_eq!(gfx.data().viewport, viewport);
    assert_eq!(gfx.data().resources, resources);
}

#[test]
fn modules_draw_in_registration_order() {
    let mut gfx: Gfx<QuadRenderer> = Gfx::new(Size::new(600, 400));
    let mut a = QuadRenderer::new(&mut gfx);
    a.add(Quad::new(1, 1, 1, 1, Color::red()));
    let b = QuadRenderer::new(&mut gfx);
    assert_eq!(gfx.add_renderer(a), 0);
    assert_eq!(gfx.add_renderer(b), 1);
    assert_eq!(gfx.renderer_count(), 2);
    let first = gfx.draw();
    assert_eq!(pipelines(&first.commands), vec![6, 10]);
    assert_eq!(first.uploads.len(), 2);
    assert_eq!(first.uploads[0].buffer, 5);
    assert_eq!(first.uploads[0].records.len(), 1);
    assert_eq!(first.uploads[1].buffer, 9);
    for _ in 0..5 {
        let again = gfx.draw();
        assert_eq!(again.commands, first.commands);
        assert_eq!(pipelines(&again.commands), vec![6, 10]);
    }
}

fn run(gfx: &mut Gfx<QuadRenderer>, events: &[FrameEvent]) -> Vec<FrameAction> {
    events.iter().map(|e| gfx.advance(*e)).collect()
}

#[test]
fn frame_without_trouble() {
    let mut gfx: Gfx<QuadRenderer> = Gfx::new(Size::new(600, 400));
    let actions = run(&mut gfx, &[FrameEvent::Tick, FrameEvent::Acquired, FrameEvent::Presented]);
    assert_eq!(actions, vec![FrameAction::Acquire, FrameAction::Record, FrameAction::Done]);
    assert_eq!(gfx.phase(), FramePhase::Idle);
}

#[test]
fn outdated_surface_is_reconfigured_and_presented_once() {
    let mut gfx: Gfx<QuadRenderer> = Gfx::new(Size::new(600, 400));
    let actions = run(
        &mut gfx,
        &[
            FrameEvent::Tick,
            FrameEvent::AcquireFailed(SurfaceError::Outdated),
            FrameEvent::Reconfigured,
            FrameEvent::Acquired,
            FrameEvent::Presented,
        ],
    );
    assert_eq!(
        actions,
        vec![
            FrameAction::Acquire,
            FrameAction::Reconfigure(SurfaceConfig { width: 600, height: 400, max_frame_latency: 2 }),
            FrameAction::Acquire,
            FrameAction::Record,
            FrameAction::Done,
        ]
    );
    assert_eq!(actions.iter().filter(|a| **a == FrameAction::Record).count(), 1);
    assert!(!actions.iter().any(|a| matches!(a, FrameAction::Skip(_))));
    assert_eq!(gfx.phase(), FramePhase::Idle);
}

#[test]
fn second_failure_skips_the_frame() {
    let mut gfx: Gfx<QuadRenderer> = Gfx::new(Size::new(600, 400));
    let actions = run(
        &mut gfx,
        &[
            FrameEvent::Tick,
            FrameEvent::AcquireFailed(SurfaceError::Lost),
            FrameEvent::Reconfigured,
            FrameEvent::AcquireFailed(SurfaceError::Outdated),
        ],
    );
    assert_eq!(actions[3], FrameAction::Skip(SurfaceError::Outdated));
    assert_eq!(gfx.phase(), FramePhase::Idle);
    let next = run(&mut gfx, &[FrameEvent::Tick, FrameEvent::Acquired]);
    assert_eq!(next, vec![FrameAction::Acquire, FrameAction::Record]);
}

#[test]
fn other_failures_skip_without_retry() {
    let size = Size::new(10, 10);
    let acquiring = FramePhase::Acquiring { retried: false };
    assert_eq!(
        frame_step(acquiring, FrameEvent::AcquireFailed(SurfaceError::Timeout), size),
        (FramePhase::Idle, FrameAction::Skip(SurfaceError::Timeout))
    );
    assert_eq!(
        frame_step(acquiring, FrameEvent::AcquireFailed(SurfaceError::OutOfMemory), size),
        (FramePhase::Idle, FrameAction::Skip(SurfaceError::OutOfMemory))
    );
}

#[test]
fn events_out_of_turn_are_ignored() {
    let size = Size::new(10, 10);
    assert_eq!(frame_step(FramePhase::Idle, FrameEvent::Presented, size), (FramePhase::Idle, FrameAction::Wait));
    assert_eq!(frame_step(FramePhase::Recording, FrameEvent::Tick, size), (FramePhase::Recording, FrameAction::Wait));
    assert_eq!(frame_step(FramePhase::Reconfiguring, FrameEvent::Acquired, size), (FramePhase::Reconfiguring, FrameAction::Wait));
    assert_eq!(
        frame_step(FramePhase::Acquiring { retried: true }, FrameEvent::Tick, size),
        (FramePhase::Acquiring { retried: true }, FrameAction::Wait)
    );
}

#[test]
fn reconfigure_uses_the_latest_size() {
    let mut gfx: Gfx<QuadRenderer> = Gfx::new(Size::new(600, 400));
    gfx.resize(Size::new(640, 480));
    let actions = run(&mut gfx, &[FrameEvent::Tick, FrameEvent::AcquireFailed(SurfaceError::Lost)]);
    assert_eq!(actions[1], FrameAction::Reconfigure(SurfaceConfig { width: 640, height: 480, max_frame_latency: 2 }));
    assert!(SurfaceError::Lost.needs_reconfigure());
    assert!(!SurfaceError::Timeout.needs_reconfigure());
}
