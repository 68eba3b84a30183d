use mpv_gl_bridge::engine::{load_command, startup_options, EngineEvent};
use mpv_gl_bridge::error::{Cause, SetupError};
use mpv_gl_bridge::greeting::greet;
use mpv_gl_bridge::resources::{release_plan, Resource};
use mpv_gl_bridge::symbol::encode_symbol;

#[test]
fn symbol_is_encoded_with_one_trailing_nul() {
    assert_eq!(encode_symbol("glClear"), Some(b"glClear\0".to_vec()));
    assert_eq!(encode_symbol(""), Some(vec![0]));
    assert_eq!(encode_symbol("eglGetProcAddress"), Some(b"eglGetProcAddress\0".to_vec()));
    // Bytes beyond ASCII are carried as they are.
    assert_eq!(encode_symbol("gl\u{e9}"), Some(vec![b'g', b'l', 0xc3, 0xa9, 0]));
}

#[test]
fn symbol_with_a_nul_cannot_be_encoded() {
    assert_eq!(encode_symbol("gl\0Clear"), None);
    assert_eq!(encode_symbol("\0"), None);
    assert_eq!(encode_symbol("glClear\0"), None);
    assert_eq!(encode_symbol("\0glClear"), None);
}

#[test]
fn encoded_symbol_ends_at_its_only_nul() {
    let bytes = encode_symbol("glViewport").unwrap();
    assert_eq!(bytes.iter().position(|b| *b == 0), Some(bytes.len() - 1));
    assert_eq!(&bytes[..bytes.len() - 1], "glViewport".as_bytes());
}

#[test]
fn engine_starts_with_delegated_output_and_safe_hardware_decoding() {
    let options = startup_options();
    let pairs: Vec<(&str, &str)> =
        options.iter().map(|o| (o.name.as_str(), o.value.as_str())).collect();
    assert_eq!(pairs, vec![("vo", "libmpv"), ("hwdec", "auto-safe")]);
}

#[test]
fn load_command_replaces_what_is_playing() {
    let command = load_command("https://example.org/video.mp4");
    assert_eq!(command.name, "loadfile");
    assert_eq!(command.args, vec!["https://example.org/video.mp4".to_string(), "replace".to_string()]);
    let command = load_command("");
    assert_eq!(command.args, vec![String::new(), "replace".to_string()]);
}

#[test]
fn only_other_events_are_benign() {
    assert!(EngineEvent::Other("Seek".to_string()).benign());
    assert!(!EngineEvent::EndOfMedia.benign());
    assert!(!EngineEvent::Error("x".to_string()).benign());
}

#[test]
fn release_plan_is_newest_first() {
    assert_eq!(release_plan(None), Vec::new());
    assert_eq!(release_plan(Some(Resource::GpuDisplay)), vec![Resource::GpuDisplay]);
    assert_eq!(
        release_plan(Some(Resource::RenderingContext)),
        vec![Resource::RenderingContext, Resource::WindowSurface, Resource::GpuDisplay]
    );
    assert_eq!(
        release_plan(Some(Resource::RenderBridge)),
        vec![
            Resource::RenderBridge,
            Resource::PlaybackEngine,
            Resource::RenderingContext,
            Resource::WindowSurface,
            Resource::GpuDisplay,
        ]
    );
}

#[test]
fn resources_rank_in_construction_order() {
    let all = [
        Resource::GpuDisplay,
        Resource::WindowSurface,
        Resource::RenderingContext,
        Resource::PlaybackEngine,
        Resource::RenderBridge,
    ];
    for (i, resource) in all.iter().enumerate() {
        assert_eq!(resource.construction_rank() as usize, i);
        let expected = if i == 0 { None } else { Some(all[i - 1]) };
        assert_eq!(resource.predecessor(), expected);
    }
}

#[test]
fn setup_errors_describe_themselves() {
    assert_eq!(SetupError::DisplayInitFailed.describe(), "Failed to create glutin display");
    assert_eq!(SetupError::NoCompatibleConfig.describe(), "No suitable config found");
    assert_eq!(SetupError::SurfaceCreationFailed.describe(), "Failed to create window surface");
    assert_eq!(SetupError::ContextCreationFailed.describe(), "Failed to create context");
    assert_eq!(SetupError::ContextActivationFailed.describe(), "Failed to make context current");
    assert_eq!(
        SetupError::EngineInitFailed.describe(),
        "Failed to create mpv instance with initializer"
    );
    assert_eq!(SetupError::BridgeInitFailed.describe(), "Failed creating render context");
    assert_eq!(SetupError::CommandRejected.describe(), "loadfile command rejected");
    assert_eq!(
        SetupError::HandleUnavailable.describe(),
        "window handle unavailable or zero-sized window"
    );
}

#[test]
fn only_the_end_of_the_media_is_an_orderly_cause() {
    assert!(Cause::EndOfMedia.orderly());
    for cause in [
        Cause::Setup(SetupError::HandleUnavailable),
        Cause::EngineError,
        Cause::RenderFailed,
        Cause::SwapFailed,
        Cause::WindowLost,
        Cause::ChannelClosed,
        Cause::OutOfTurn,
    ] {
        assert!(!cause.orderly());
    }
}

#[test]
fn greet_names_whom_it_greets() {
    assert_eq!(greet("World"), "Hello, World! You've been greeted from Rust!");
    assert_eq!(greet(""), "Hello, ! You've been greeted from Rust!");
}
