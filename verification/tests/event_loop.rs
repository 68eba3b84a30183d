use std::collections::VecDeque;

use mpv_gl_bridge::coordinator::{
    Action, Completion, Coordinator, Event, Lifecycle, LogLine, Phase, Severity,
};
use mpv_gl_bridge::engine::EngineEvent;
use mpv_gl_bridge::error::Cause;
use mpv_gl_bridge::geometry::PixelSize;
use mpv_gl_bridge::resources::Resource;

/// A stand-in for everything the coordinator's driver talks to. It answers from scripts
/// and records what it was asked to do.
struct World {
    /// The channel: events in the order in which they were pushed.
    channel: VecDeque<Event>,
    /// The engine's queue.
    engine_queue: VecDeque<EngineEvent>,
    /// The sizes the window reports, one per query; the last one is repeated.
    sizes: VecDeque<PixelSize>,
    /// Whether drawing and presenting succeed.
    render_ok: bool,
    swap_ok: bool,
    /// What was drawn, presented and polled, in order.
    record: Vec<String>,
    /// Every action performed, in order, by its kind.
    timeline: Vec<&'static str>,
    renders: Vec<(i32, i32, i32, bool)>,
    polls: usize,
    activations: usize,
    released: Vec<Resource>,
    log: Vec<LogLine>,
}

fn world(channel: &[Event], engine_queue: Vec<EngineEvent>, sizes: &[PixelSize]) -> World {
    World {
        channel: channel.iter().copied().collect(),
        engine_queue: engine_queue.into_iter().collect(),
        sizes: sizes.iter().copied().collect(),
        render_ok: true,
        swap_ok: true,
        record: Vec::new(),
        timeline: Vec::new(),
        renders: Vec::new(),
        polls: 0,
        activations: 0,
        released: Vec::new(),
        log: Vec::new(),
    }
}

/// Performs `action` in the fake world and says how it ended; `None` for `Exit`.
fn perform(world: &mut World, action: Action) -> Option<Completion> {
    world.timeline.push(match action {
        Action::MakeCurrent => "activate",
        Action::Render { .. } => "render",
        Action::SwapBuffers => "swap",
        Action::Release { .. } => "release",
        Action::Exit => "exit",
        _ => "other",
    });
    Some(match action {
        Action::ProbeWindow => Completion::Probed(world.sizes[0]),
        Action::SelectConfig => Completion::Configs(2),
        Action::MakeCurrent => {
            world.activations += 1;
            Completion::Done
        }
        Action::CreateDisplay { .. }
        | Action::CreateSurface { .. }
        | Action::CreateContext
        | Action::CreateEngine
        | Action::CreateBridge
        | Action::InstallCallbacks
        | Action::Load => Completion::Done,
        Action::Receive => Completion::Received(world.channel.pop_front()),
        Action::QuerySize => {
            let size = if world.sizes.len() > 1 {
                world.sizes.pop_front().unwrap()
            } else {
                world.sizes[0]
            };
            Completion::Measured(Some(size))
        }
        Action::Render { framebuffer, width, height, flip_y } => {
            world.record.push("render".to_string());
            world.renders.push((framebuffer, width, height, flip_y));
            if world.render_ok {
                Completion::Done
            } else {
                Completion::Failed
            }
        }
        Action::SwapBuffers => {
            world.record.push("swap".to_string());
            if world.swap_ok {
                Completion::Done
            } else {
                Completion::Failed
            }
        }
        Action::PollEngine => {
            world.record.push("poll".to_string());
            world.polls += 1;
            Completion::Polled(world.engine_queue.pop_front())
        }
        Action::Release { resource } => {
            world.released.push(resource);
            Completion::Done
        }
        Action::Exit => return None,
    })
}

/// Drives `coordinator` from `action` until it exits.
fn drive(coordinator: &mut Coordinator, world: &mut World, mut action: Action) {
    while let Some(completion) = perform(world, action) {
        let step = coordinator.step(&completion);
        if let Some(line) = step.log {
            world.log.push(line);
        }
        action = step.action;
    }
}

/// Drives a fresh coordinator through setup and the event loop until it exits.
fn run(world: &mut World) -> Coordinator {
    let mut coordinator = Coordinator::new();
    drive(&mut coordinator, world, Coordinator::first_action());
    coordinator
}

fn other(text: &str) -> EngineEvent {
    EngineEvent::Other(text.to_string())
}

const ALL_NEWEST_FIRST: [Resource; 5] = [
    Resource::RenderBridge,
    Resource::PlaybackEngine,
    Resource::RenderingContext,
    Resource::WindowSurface,
    Resource::GpuDisplay,
];

#[test]
fn events_are_processed_in_push_order() {
    let pushes = [
        Event::Redraw,
        Event::EngineSignal,
        Event::Redraw,
        Event::Redraw,
        Event::EngineSignal,
        Event::EngineSignal,
        Event::Redraw,
    ];
    let mut w = world(&pushes, Vec::new(), &[PixelSize::new(640, 480)]);
    let coordinator = run(&mut w);
    assert_eq!(
        w.record,
        vec![
            "render", "swap", "poll", "render", "swap", "render", "swap", "poll", "poll",
            "render", "swap",
        ]
    );
    // The channel ran dry and closed: that ends the run.
    assert_eq!(coordinator.cause(), Some(Cause::ChannelClosed));
    assert!(w.channel.is_empty());
}

#[test]
fn signal_drains_all_five_events_before_the_next_channel_item() {
    let queued = vec![other("1"), other("2"), other("3"), other("4"), other("5")];
    let mut w = world(&[Event::EngineSignal, Event::Redraw], queued, &[PixelSize::new(640, 480)]);
    run(&mut w);
    // Five events and the poll that found the queue empty, all before the frame is drawn.
    assert_eq!(w.record, vec!["poll", "poll", "poll", "poll", "poll", "poll", "render", "swap"]);
    assert_eq!(w.polls, 6);
    assert!(w.engine_queue.is_empty());
    let texts: Vec<&str> = w.log.iter().map(|l| l.message.as_str()).collect();
    assert_eq!(
        texts,
        vec![
            "Received MPV Event: 1",
            "Received MPV Event: 2",
            "Received MPV Event: 3",
            "Received MPV Event: 4",
            "Received MPV Event: 5",
        ]
    );
    assert!(w.log.iter().all(|l| l.severity == Severity::Info));
}

#[test]
fn end_of_media_at_position_three_of_five_discards_the_rest() {
    let queued = vec![other("1"), other("2"), EngineEvent::EndOfMedia, other("4"), other("5")];
    let mut w = world(&[Event::EngineSignal, Event::Redraw], queued, &[PixelSize::new(640, 480)]);
    let coordinator = run(&mut w);
    assert_eq!(w.polls, 3);
    assert_eq!(w.record, vec!["poll", "poll", "poll"]);
    // Events 4 and 5 were never taken from the engine, and the frame was never drawn.
    assert_eq!(w.engine_queue, VecDeque::from(vec![other("4"), other("5")]));
    assert_eq!(w.channel, VecDeque::from(vec![Event::Redraw]));
    assert_eq!(coordinator.lifecycle(), Lifecycle::Terminating);
    assert_eq!(coordinator.cause(), Some(Cause::EndOfMedia));
    assert_eq!(coordinator.phase(), Phase::Terminated { cause: Cause::EndOfMedia });
    assert_eq!(
        w.log.last().unwrap(),
        &LogLine {
            severity: Severity::Info,
            message: "End of file detected. Exiting render thread.".to_string(),
        }
    );
    assert_eq!(w.log.len(), 3);
}

#[test]
fn engine_error_ends_the_run_and_is_logged() {
    let queued = vec![other("a"), EngineEvent::Error("Raw(-13)".to_string()), other("b")];
    let mut w = world(&[Event::EngineSignal], queued, &[PixelSize::new(640, 480)]);
    let coordinator = run(&mut w);
    assert_eq!(w.polls, 2);
    assert_eq!(coordinator.cause(), Some(Cause::EngineError));
    assert_eq!(
        w.log.last().unwrap(),
        &LogLine { severity: Severity::Error, message: "MPV event error: Raw(-13)".to_string() }
    );
    assert_eq!(w.released, ALL_NEWEST_FIRST.to_vec());
}

#[test]
fn each_redraw_renders_at_the_size_queried_at_render_time() {
    // The window was 640x480 when both events were sent. It is 800x600 when the first is
    // consumed and 1024x768 when the second is.
    let sizes = [PixelSize::new(640, 480), PixelSize::new(800, 600), PixelSize::new(1024, 768)];
    let mut w = world(&[Event::Redraw, Event::Redraw], Vec::new(), &sizes);
    // The first size is what the probe saw; the two queries see the later ones.
    w.sizes.pop_front();
    let mut coordinator = Coordinator { phase: Phase::Idle };
    drive(&mut coordinator, &mut w, Action::Receive);
    assert_eq!(w.renders, vec![(0, 800, 600, true), (0, 1024, 768, true)]);
}

#[test]
fn render_is_asked_for_the_back_buffer_flipped() {
    let mut coordinator = Coordinator { phase: Phase::Measuring };
    let step = coordinator.step(&Completion::Measured(Some(PixelSize::new(1920, 1080))));
    assert_eq!(
        step.action,
        Action::Render { framebuffer: 0, width: 1920, height: 1080, flip_y: true }
    );
    assert_eq!(step.log, None);
    assert_eq!(coordinator.phase(), Phase::Rendering);
    // A minimised window reports no pixels; the frame is still drawn, at that size.
    let mut coordinator = Coordinator { phase: Phase::Measuring };
    let step = coordinator.step(&Completion::Measured(Some(PixelSize::new(0, 0))));
    assert_eq!(step.action, Action::Render { framebuffer: 0, width: 0, height: 0, flip_y: true });
    // Sizes beyond the signed range keep their bit pattern.
    let mut coordinator = Coordinator { phase: Phase::Measuring };
    let step = coordinator.step(&Completion::Measured(Some(PixelSize::new(u32::MAX, 0x8000_0000))));
    assert_eq!(
        step.action,
        Action::Render { framebuffer: 0, width: -1, height: i32::MIN, flip_y: true }
    );
}

#[test]
fn resources_are_released_bridge_engine_context_surface_display() {
    let mut w = world(&[Event::EngineSignal], vec![EngineEvent::EndOfMedia], &[PixelSize::new(2, 2)]);
    run(&mut w);
    assert_eq!(w.released, ALL_NEWEST_FIRST.to_vec());
}

#[test]
fn every_runtime_fault_releases_everything_in_the_same_order() {
    let mut failing_render = world(&[Event::Redraw, Event::Redraw], Vec::new(), &[PixelSize::new(2, 2)]);
    failing_render.render_ok = false;
    let coordinator = run(&mut failing_render);
    assert_eq!(coordinator.cause(), Some(Cause::RenderFailed));
    assert_eq!(failing_render.record, vec!["render"]);
    assert_eq!(failing_render.released, ALL_NEWEST_FIRST.to_vec());

    let mut failing_swap = world(&[Event::Redraw, Event::Redraw], Vec::new(), &[PixelSize::new(2, 2)]);
    failing_swap.swap_ok = false;
    let coordinator = run(&mut failing_swap);
    assert_eq!(coordinator.cause(), Some(Cause::SwapFailed));
    assert_eq!(failing_swap.record, vec!["render", "swap"]);
    assert_eq!(failing_swap.released, ALL_NEWEST_FIRST.to_vec());

    let mut coordinator = Coordinator { phase: Phase::Measuring };
    let step = coordinator.step(&Completion::Measured(None));
    assert_eq!(step.action, Action::Release { resource: Resource::RenderBridge });
    assert_eq!(coordinator.cause(), Some(Cause::WindowLost));
}

#[test]
fn context_is_made_current_once_in_a_whole_run() {
    let pushes = [Event::Redraw, Event::EngineSignal, Event::Redraw];
    let mut w = world(&pushes, vec![other("x"), EngineEvent::EndOfMedia], &[PixelSize::new(64, 64)]);
    run(&mut w);
    assert_eq!(w.activations, 1);
}

#[test]
fn terminating_is_absorbing() {
    let mut coordinator = Coordinator { phase: Phase::Terminated { cause: Cause::EndOfMedia } };
    let inputs = vec![
        Completion::Done,
        Completion::Failed,
        Completion::Received(Some(Event::Redraw)),
        Completion::Polled(None),
        Completion::Measured(Some(PixelSize::new(4, 4))),
        Completion::Probed(PixelSize::new(4, 4)),
        Completion::Configs(1),
    ];
    let asked = coordinator.replay(&inputs);
    assert_eq!(asked, vec![Action::Exit; 7]);
    assert_eq!(coordinator.phase(), Phase::Terminated { cause: Cause::EndOfMedia });

    let mut coordinator = Coordinator {
        phase: Phase::Releasing { resource: Resource::RenderingContext, cause: Cause::SwapFailed },
    };
    let asked = coordinator.replay(&inputs);
    assert_eq!(
        asked[..3],
        [
            Action::Release { resource: Resource::WindowSurface },
            Action::Release { resource: Resource::GpuDisplay },
            Action::Exit,
        ]
    );
    assert_eq!(coordinator.cause(), Some(Cause::SwapFailed));
    assert_eq!(coordinator.lifecycle(), Lifecycle::Terminating);
}

#[test]
fn empty_queue_returns_to_the_channel_without_logging() {
    let mut coordinator = Coordinator { phase: Phase::Idle };
    assert_eq!(
        coordinator.step(&Completion::Received(Some(Event::EngineSignal))).action,
        Action::PollEngine
    );
    assert_eq!(coordinator.phase(), Phase::Draining);
    let step = coordinator.step(&Completion::Polled(None));
    assert_eq!(step.action, Action::Receive);
    assert_eq!(step.log, None);
    assert_eq!(coordinator.phase(), Phase::Idle);
}

#[test]
fn frames_are_drawn_only_between_activation_and_release() {
    let pushes = [Event::Redraw, Event::EngineSignal, Event::Redraw, Event::EngineSignal];
    let queued = vec![other("x"), EngineEvent::EndOfMedia];
    let mut w = world(&pushes, Vec::new(), &[PixelSize::new(64, 64)]);
    // The first signal finds the queue empty; the events arrive before the second.
    let mut coordinator = Coordinator::new();
    let mut action = Coordinator::first_action();
    let mut signals = 0;
    while let Some(completion) = perform(&mut w, action) {
        if completion == Completion::Received(Some(Event::EngineSignal)) {
            signals += 1;
            if signals == 2 {
                w.engine_queue.extend(queued.clone());
            }
        }
        action = coordinator.step(&completion).action;
    }
    let activated = w.timeline.iter().position(|k| *k == "activate").unwrap();
    let released = w.timeline.iter().position(|k| *k == "release").unwrap();
    let drawn: Vec<usize> = w
        .timeline
        .iter()
        .enumerate()
        .filter(|(_, k)| **k == "render" || **k == "swap")
        .map(|(i, _)| i)
        .collect();
    assert_eq!(drawn.len(), 4);
    assert!(drawn.iter().all(|i| activated < *i && *i < released));
    assert_eq!(w.timeline.iter().filter(|k| **k == "activate").count(), 1);
    assert_eq!(*w.timeline.last().unwrap(), "exit");
}
