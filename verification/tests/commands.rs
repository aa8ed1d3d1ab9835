use handy::commands::{
    begin_gpu_change, begin_streaming_toggle, failure_message, CommandFailure, GpuChange,
    GpuChangeAction, GpuChangeEvent, StreamingToggle, StreamingToggleAction,
    StreamingToggleEvent,
};
use handy::gpu::{EngineType, GpuProvider};

fn settings(gpu: &str, streaming_enabled: bool) -> GpuChangeEvent {
    GpuChangeEvent::Settings {
        gpu_provider: gpu.to_string(),
        streaming_enabled,
        streaming_model: "nemotron".to_string(),
    }
}

/// Feeds the events in order and returns the final action.
fn run_gpu(requested: &str, events: Vec<GpuChangeEvent>) -> (Vec<&'static str>, GpuChangeAction) {
    let (mut state, mut action) = begin_gpu_change(requested.to_string());
    let mut trace = Vec::new();
    for e in events {
        trace.push(label(&action));
        let (s, a) = state.step(e);
        state = s;
        action = a;
    }
    assert!(matches!(state, GpuChange::Done));
    (trace, action)
}

fn label(a: &GpuChangeAction) -> &'static str {
    match a {
        GpuChangeAction::ReadSettings => "read",
        GpuChangeAction::ApplyProvider { .. } => "apply",
        GpuChangeAction::QueryCurrentModel => "model?",
        GpuChangeAction::QueryModelLoaded => "loaded?",
        GpuChangeAction::RevertSetting { .. } => "revert",
        GpuChangeAction::QueryModelEngine { .. } => "engine?",
        GpuChangeAction::UnloadBatchModel => "unload",
        GpuChangeAction::LoadBatchModel { .. } => "load",
        GpuChangeAction::QueryStreamingModel { .. } => "streaming?",
        GpuChangeAction::ReloadStreamingEngine { .. } => "reload-streaming",
        GpuChangeAction::Finish(_) => "finish",
    }
}

fn finished_ok(a: GpuChangeAction) -> bool {
    matches!(a, GpuChangeAction::Finish(Ok(())))
}

#[test]
fn unknown_provider_fails_before_reading_settings() {
    let (state, action) = begin_gpu_change("tpu".to_string());
    assert!(matches!(state, GpuChange::Done));
    match action {
        GpuChangeAction::Finish(Err(f)) => {
            assert_eq!(failure_message(f), "Unknown GPU provider: tpu")
        }
        _ => panic!("expected a failure"),
    }
}

#[test]
fn unchanged_provider_writes_nothing() {
    let (trace, action) = run_gpu("cuda", vec![settings("cuda", true)]);
    assert_eq!(trace, vec!["read"]);
    assert!(finished_ok(action));
}

#[test]
fn change_applies_requested_provider() {
    let (state, _) = begin_gpu_change("cuda".to_string());
    let (_, action) = state.step(settings("cpu", false));
    match action {
        GpuChangeAction::ApplyProvider { provider, setting } => {
            assert_eq!(provider, GpuProvider::Cuda);
            assert_eq!(setting, "cuda");
        }
        _ => panic!("expected the provider to be applied"),
    }
}

#[test]
fn change_without_models_finishes_ok() {
    let (trace, action) = run_gpu(
        "cuda",
        vec![settings("cpu", false), GpuChangeEvent::Completed, GpuChangeEvent::CurrentModel(None)],
    );
    assert_eq!(trace, vec!["read", "apply", "model?"]);
    assert!(finished_ok(action));
}

#[test]
fn busy_model_reverts_and_fails() {
    let (state, _) = begin_gpu_change("cuda".to_string());
    let (state, _) = state.step(settings("cpu", true));
    let (state, _) = state.step(GpuChangeEvent::Completed);
    let (state, _) = state.step(GpuChangeEvent::CurrentModel(Some("parakeet".to_string())));
    let (state, action) = state.step(GpuChangeEvent::ModelLoaded(false));
    match action {
        GpuChangeAction::RevertSetting { setting, provider } => {
            assert_eq!(setting, "cpu");
            assert_eq!(provider, GpuProvider::CpuOnly);
        }
        _ => panic!("expected a revert"),
    }
    let (state, action) = state.step(GpuChangeEvent::Completed);
    assert!(matches!(state, GpuChange::Done));
    match action {
        GpuChangeAction::Finish(Err(f)) => assert_eq!(
            failure_message(f),
            "Cannot change GPU provider while a model is loading or transcription is in progress. Try again when idle."
        ),
        _ => panic!("expected a failure"),
    }
}

#[test]
fn onnx_model_is_reloaded_then_streaming() {
    let (trace, action) = run_gpu(
        "directml",
        vec![
            settings("auto", true),
            GpuChangeEvent::Completed,
            GpuChangeEvent::CurrentModel(Some("parakeet".to_string())),
            GpuChangeEvent::ModelLoaded(true),
            GpuChangeEvent::ModelEngine(Some(EngineType::Parakeet)),
            GpuChangeEvent::Unloaded,
            GpuChangeEvent::Reloaded(Ok(())),
            GpuChangeEvent::StreamingModelAvailable(true),
            GpuChangeEvent::Completed,
        ],
    );
    assert_eq!(
        trace,
        vec![
            "read",
            "apply",
            "model?",
            "loaded?",
            "engine?",
            "unload",
            "load",
            "streaming?",
            "reload-streaming"
        ]
    );
    assert!(finished_ok(action));
}

#[test]
fn whisper_model_is_not_reloaded() {
    let (trace, action) = run_gpu(
        "cuda",
        vec![
            settings("auto", false),
            GpuChangeEvent::Completed,
            GpuChangeEvent::CurrentModel(Some("whisper-small".to_string())),
            GpuChangeEvent::ModelLoaded(true),
            GpuChangeEvent::ModelEngine(Some(EngineType::Whisper)),
        ],
    );
    assert_eq!(trace, vec!["read", "apply", "model?", "loaded?", "engine?"]);
    assert!(finished_ok(action));
}

#[test]
fn failed_reload_reports_error() {
    let (_, action) = run_gpu(
        "cuda",
        vec![
            settings("auto", true),
            GpuChangeEvent::Completed,
            GpuChangeEvent::CurrentModel(Some("moonshine".to_string())),
            GpuChangeEvent::ModelLoaded(true),
            GpuChangeEvent::ModelEngine(Some(EngineType::Moonshine)),
            GpuChangeEvent::Unloaded,
            GpuChangeEvent::Reloaded(Err("out of memory".to_string())),
        ],
    );
    match action {
        GpuChangeAction::Finish(Err(f)) => {
            assert_eq!(failure_message(f), "Failed to reload batch model: out of memory")
        }
        _ => panic!("expected a failure"),
    }
}

#[test]
fn missing_streaming_model_skips_streaming_reload() {
    let (trace, action) = run_gpu(
        "cpu",
        vec![
            settings("auto", true),
            GpuChangeEvent::Completed,
            GpuChangeEvent::CurrentModel(None),
            GpuChangeEvent::StreamingModelAvailable(false),
        ],
    );
    assert_eq!(trace, vec!["read", "apply", "model?", "streaming?"]);
    assert!(finished_ok(action));
}

#[test]
fn enabling_streaming_without_model_fails() {
    let (state, action) = begin_streaming_toggle(true);
    assert!(matches!(action, StreamingToggleAction::CheckStreamingModel));
    let (state, action) = state.step(StreamingToggleEvent::ModelMissing(true));
    assert!(matches!(state, StreamingToggle::Done));
    match action {
        StreamingToggleAction::Finish(Err(f)) => {
            assert_eq!(failure_message(f), "Streaming model is not downloaded")
        }
        _ => panic!("expected a failure"),
    }
}

#[test]
fn enabling_streaming_saves_then_preloads() {
    let (state, _) = begin_streaming_toggle(true);
    let (state, action) = state.step(StreamingToggleEvent::ModelMissing(false));
    assert!(matches!(action, StreamingToggleAction::SaveStreamingEnabled(true)));
    let (state, action) = state.step(StreamingToggleEvent::Saved {
        streaming_model: "nemotron".to_string(),
    });
    match action {
        StreamingToggleAction::PreloadStreamingEngine { model_id } => assert_eq!(model_id, "nemotron"),
        _ => panic!("expected a preload"),
    }
    let (state, action) = state.step(StreamingToggleEvent::Completed);
    assert!(matches!(state, StreamingToggle::Done));
    assert!(matches!(action, StreamingToggleAction::Finish(Ok(()))));
}

#[test]
fn disabling_streaming_saves_then_unloads() {
    let (state, action) = begin_streaming_toggle(false);
    assert!(matches!(action, StreamingToggleAction::SaveStreamingEnabled(false)));
    let (state, action) = state.step(StreamingToggleEvent::Saved {
        streaming_model: "nemotron".to_string(),
    });
    assert!(matches!(action, StreamingToggleAction::UnloadStreamingEngine));
    let (_, action) = state.step(StreamingToggleEvent::Completed);
    assert!(matches!(action, StreamingToggleAction::Finish(Ok(()))));
}

#[test]
fn failure_messages() {
    assert_eq!(
        failure_message(CommandFailure::ReloadFailed("x".to_string())),
        "Failed to reload batch model: x"
    );
    assert_eq!(
        failure_message(CommandFailure::UnknownProvider("m".to_string())),
        "m"
    );
}

#[test]
fn busy_revert_of_unknown_stored_name_selects_auto() {
    let (state, _) = begin_gpu_change("cuda".to_string());
    let (state, _) = state.step(settings("bogus", false));
    let (state, _) = state.step(GpuChangeEvent::Completed);
    let (state, _) = state.step(GpuChangeEvent::CurrentModel(Some("sense".to_string())));
    let (_, action) = state.step(GpuChangeEvent::ModelLoaded(false));
    match action {
        GpuChangeAction::RevertSetting { setting, provider } => {
            assert_eq!(setting, "bogus");
            assert_eq!(provider, GpuProvider::Auto);
        }
        _ => panic!("expected a revert"),
    }
}
