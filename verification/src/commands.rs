//! The settings commands for GPU providers and streaming, as state machines:
//! each step takes what the last outside operation reported and names the
//! next one, so that the caller only performs the operations.

use vstd::prelude::*;
use crate::gpu::{EngineType, GpuProvider, is_ort_engine, is_provider_name, lemma_provider_name_round_trip,
    parse_gpu_provider, provider_name, unknown_provider_message, uses_ort};

verus! {

/// Why a command failed.
pub enum CommandFailure {
    /// The requested provider is not a provider name; holds the message.
    UnknownProvider(String),
    /// A batch model is loading or transcribing, so it cannot be reloaded.
    Busy,
    /// Reloading the batch model failed with this error.
    ReloadFailed(String),
    /// Streaming was requested but its model is not downloaded.
    ModelNotDownloaded,
}

/// The message when the batch model is loading or transcribing.
pub open spec fn busy_message() -> Seq<char> {
    "Cannot change GPU provider while a model is loading or transcription is in progress. Try again when idle."@
}

/// The message for a failed reload.
pub open spec fn reload_failed_message(e: Seq<char>) -> Seq<char> {
    "Failed to reload batch model: "@ + e
}

/// The message for a missing streaming model.
pub open spec fn not_downloaded_message() -> Seq<char> {
    "Streaming model is not downloaded"@
}

/// The message reported for each failure.
pub open spec fn failure_text(f: CommandFailure) -> Seq<char> {
    match f {
        CommandFailure::UnknownProvider(m) => m@,
        CommandFailure::Busy => busy_message(),
        CommandFailure::ReloadFailed(e) => reload_failed_message(e@),
        CommandFailure::ModelNotDownloaded => not_downloaded_message(),
    }
}

/// The message that the command returns for `f`.
pub fn failure_message(f: CommandFailure) -> (m: String)
    ensures
        m@ == failure_text(f),
{
    match f {
        CommandFailure::UnknownProvider(m) => m,
        CommandFailure::Busy => String::from_str(
            "Cannot change GPU provider while a model is loading or transcription is in progress. Try again when idle.",
        ),
        CommandFailure::ReloadFailed(e) => {
            let mut m = String::from_str("Failed to reload batch model: ");
            m.append(e.as_str());
            m
        },
        CommandFailure::ModelNotDownloaded => String::from_str("Streaming model is not downloaded"),
    }
}

/// What a provider change keeps from the settings it read.
pub struct ChangeContext {
    /// The requested provider's settings name.
    pub requested: String,
    /// The requested provider.
    pub provider: GpuProvider,
    /// The provider name stored before the change.
    pub previous: String,
    pub streaming_enabled: bool,
    pub streaming_model: String,
}

/// Where a provider change stands: each state waits for the report of one
/// outside operation.
pub enum GpuChange {
    /// Waiting for the stored settings.
    ReadingSettings { requested: String, provider: GpuProvider },
    /// Waiting until the provider was applied and saved.
    Applying { ctx: ChangeContext },
    /// Waiting for the batch model in use, if any.
    FindingModel { ctx: ChangeContext },
    /// Waiting to learn whether that model is loaded (not busy).
    CheckingLoaded { ctx: ChangeContext, model_id: String },
    /// Waiting for that model's engine type.
    CheckingEngine { ctx: ChangeContext, model_id: String },
    /// Waiting until the batch model was unloaded.
    Unloading { ctx: ChangeContext, model_id: String },
    /// Waiting for the batch model's reload.
    Reloading { ctx: ChangeContext },
    /// Waiting to learn whether the streaming model can be reloaded.
    CheckingStreaming { ctx: ChangeContext },
    /// Waiting until the streaming engine was reloaded.
    ReloadingStreaming { ctx: ChangeContext },
    /// Waiting until the old setting was restored.
    Reverting,
    /// Finished.
    Done,
}

/// What an outside operation reported.
pub enum GpuChangeEvent {
    /// The stored settings.
    Settings { gpu_provider: String, streaming_enabled: bool, streaming_model: String },
    /// The batch model in use (none without a transcription manager).
    CurrentModel(Option<String>),
    /// Whether the batch model is loaded; it is not while loading or transcribing.
    ModelLoaded(bool),
    /// The engine type of the batch model, when it is known.
    ModelEngine(Option<EngineType>),
    /// The batch model was unloaded (a failure there is only logged).
    Unloaded,
    /// The result of reloading the batch model.
    Reloaded(Result<(), String>),
    /// Whether the streaming model can be reloaded: the streaming and model
    /// managers exist and the model's files are present.
    StreamingModelAvailable(bool),
    /// The requested operation was carried out.
    Completed,
}

/// The outside operation to perform next.
pub enum GpuChangeAction {
    ReadSettings,
    /// Select `provider` in the engine library and save `setting` as the
    /// provider name in the settings.
    ApplyProvider { provider: GpuProvider, setting: String },
    QueryCurrentModel,
    QueryModelLoaded,
    /// Save `setting`, the name stored before the change, as the provider
    /// name in freshly read settings, and select `provider`, the provider it
    /// names (`Auto` when it names none), in the engine library again.
    RevertSetting { setting: String, provider: GpuProvider },
    QueryModelEngine { model_id: String },
    UnloadBatchModel,
    LoadBatchModel { model_id: String },
    QueryStreamingModel { model_id: String },
    /// Unload the streaming engine and preload it again.
    ReloadStreamingEngine { model_id: String },
    /// Return from the command.
    Finish(Result<(), CommandFailure>),
}

/// The state and action once the batch model needs nothing more: reload
/// the streaming engine when streaming is on, else finish.
pub open spec fn streaming_followup(ctx: ChangeContext) -> (GpuChange, GpuChangeAction) {
    if ctx.streaming_enabled {
        (
            GpuChange::CheckingStreaming { ctx },
            GpuChangeAction::QueryStreamingModel { model_id: ctx.streaming_model },
        )
    } else {
        (GpuChange::Done, GpuChangeAction::Finish(Ok(())))
    }
}

/// The provider that a stored name selects: the one it names, or `Auto`
/// when it names none.
pub open spec fn revert_provider(name: Seq<char>) -> GpuProvider {
    if is_provider_name(name) {
        choose|p: GpuProvider| provider_name(p) == name
    } else {
        GpuProvider::Auto
    }
}

/// The provider that `name` selects, falling back to `Auto`.
pub fn provider_or_auto(name: &str) -> (p: GpuProvider)
    ensures
        p == revert_provider(name@),
{
    match parse_gpu_provider(name) {
        Ok(p) => {
            proof {
                let q = choose|q: GpuProvider| provider_name(q) == name@;
                lemma_provider_name_round_trip(p);
            }
            p
        },
        Err(_) => GpuProvider::Auto,
    }
}

/// Whether `event` reports the operation that `state` waits for.
pub open spec fn answers(state: GpuChange, event: GpuChangeEvent) -> bool {
    match state {
        GpuChange::ReadingSettings { .. } => event is Settings,
        GpuChange::Applying { .. } => event is Completed,
        GpuChange::FindingModel { .. } => event is CurrentModel,
        GpuChange::CheckingLoaded { .. } => event is ModelLoaded,
        GpuChange::CheckingEngine { .. } => event is ModelEngine,
        GpuChange::Unloading { .. } => event is Unloaded,
        GpuChange::Reloading { .. } => event is Reloaded,
        GpuChange::CheckingStreaming { .. } => event is StreamingModelAvailable,
        GpuChange::ReloadingStreaming { .. } => event is Completed,
        GpuChange::Reverting => event is Completed,
        GpuChange::Done => false,
    }
}

/// The next state and action of a provider change.
pub open spec fn gpu_change_step(state: GpuChange, event: GpuChangeEvent) -> (GpuChange, GpuChangeAction)
    recommends
        answers(state, event),
{
    match (state, event) {
        (
            GpuChange::ReadingSettings { requested, provider },
            GpuChangeEvent::Settings { gpu_provider, streaming_enabled, streaming_model },
        ) => if gpu_provider@ == requested@ {
            (GpuChange::Done, GpuChangeAction::Finish(Ok(())))
        } else {
            (
                GpuChange::Applying {
                    ctx: ChangeContext {
                        requested,
                        provider,
                        previous: gpu_provider,
                        streaming_enabled,
                        streaming_model,
                    },
                },
                GpuChangeAction::ApplyProvider { provider, setting: requested },
            )
        },
        (GpuChange::Applying { ctx }, _) => (
            GpuChange::FindingModel { ctx },
            GpuChangeAction::QueryCurrentModel,
        ),
        (GpuChange::FindingModel { ctx }, GpuChangeEvent::CurrentModel(m)) => match m {
            Some(model_id) => (
                GpuChange::CheckingLoaded { ctx, model_id },
                GpuChangeAction::QueryModelLoaded,
            ),
            None => streaming_followup(ctx),
        },
        (GpuChange::CheckingLoaded { ctx, model_id }, GpuChangeEvent::ModelLoaded(loaded)) => if loaded {
            (
                GpuChange::CheckingEngine { ctx, model_id },
                GpuChangeAction::QueryModelEngine { model_id },
            )
        } else {
            (
                GpuChange::Reverting,
                GpuChangeAction::RevertSetting {
                    setting: ctx.previous,
                    provider: revert_provider(ctx.previous@),
                },
            )
        },
        (GpuChange::CheckingEngine { ctx, model_id }, GpuChangeEvent::ModelEngine(t)) => match t {
            Some(t) => if uses_ort(t) {
                (GpuChange::Unloading { ctx, model_id }, GpuChangeAction::UnloadBatchModel)
            } else {
                streaming_followup(ctx)
            },
            None => streaming_followup(ctx),
        },
        (GpuChange::Unloading { ctx, model_id }, _) => (
            GpuChange::Reloading { ctx },
            GpuChangeAction::LoadBatchModel { model_id },
        ),
        (GpuChange::Reloading { ctx }, GpuChangeEvent::Reloaded(r)) => match r {
            Ok(()) => streaming_followup(ctx),
            Err(e) => (
                GpuChange::Done,
                GpuChangeAction::Finish(Err(CommandFailure::ReloadFailed(e))),
            ),
        },
        (GpuChange::CheckingStreaming { ctx }, GpuChangeEvent::StreamingModelAvailable(ok)) => if ok {
            (
                GpuChange::ReloadingStreaming { ctx },
                GpuChangeAction::ReloadStreamingEngine { model_id: ctx.streaming_model },
            )
        } else {
            (GpuChange::Done, GpuChangeAction::Finish(Ok(())))
        },
        (GpuChange::ReloadingStreaming { .. }, _) => (
            GpuChange::Done,
            GpuChangeAction::Finish(Ok(())),
        ),
        (GpuChange::Reverting, _) => (
            GpuChange::Done,
            GpuChangeAction::Finish(Err(CommandFailure::Busy)),
        ),
        (s, _) => (s, GpuChangeAction::Finish(Ok(()))),
    }
}

/// Starts changing the GPU provider to `requested`: an unknown name fails
/// at once, otherwise the settings are read first.
pub fn begin_gpu_change(requested: String) -> (r: (GpuChange, GpuChangeAction))
    ensures
        is_provider_name(requested@) ==> (exists|p: GpuProvider|
            provider_name(p) == requested@ && r == (
                GpuChange::ReadingSettings { requested, provider: p },
                GpuChangeAction::ReadSettings,
            )),
        !is_provider_name(requested@) ==> (r.0 is Done && exists|m: String|
            m@ == unknown_provider_message(requested@) && r.1 == GpuChangeAction::Finish(
                Err(CommandFailure::UnknownProvider(m)),
            )),
{
    match parse_gpu_provider(requested.as_str()) {
        Ok(p) => (GpuChange::ReadingSettings { requested, provider: p }, GpuChangeAction::ReadSettings),
        Err(m) => (GpuChange::Done, GpuChangeAction::Finish(Err(CommandFailure::UnknownProvider(m)))),
    }
}

fn followup(ctx: ChangeContext) -> (r: (GpuChange, GpuChangeAction))
    ensures
        r == streaming_followup(ctx),
{
    if ctx.streaming_enabled {
        let model_id = ctx.streaming_model.clone();
        (GpuChange::CheckingStreaming { ctx }, GpuChangeAction::QueryStreamingModel { model_id })
    } else {
        (GpuChange::Done, GpuChangeAction::Finish(Ok(())))
    }
}

impl GpuChange {
    /// The next state and the operation to perform, from what the last
    /// operation reported.
    pub fn step(self, event: GpuChangeEvent) -> (r: (GpuChange, GpuChangeAction))
        requires
            answers(self, event),
        ensures
            r == gpu_change_step(self, event),
    {
        match self {
            GpuChange::ReadingSettings { requested, provider } => match event {
                GpuChangeEvent::Settings { gpu_provider, streaming_enabled, streaming_model } => {
                    if gpu_provider == requested {
                        (GpuChange::Done, GpuChangeAction::Finish(Ok(())))
                    } else {
                        let setting = requested.clone();
                        (
                            GpuChange::Applying {
                                ctx: ChangeContext {
                                    requested,
                                    provider,
                                    previous: gpu_provider,
                                    streaming_enabled,
                                    streaming_model,
                                },
                            },
                            GpuChangeAction::ApplyProvider { provider, setting },
                        )
                    }
                },
                _ => (GpuChange::Done, GpuChangeAction::Finish(Ok(()))),
            },
            GpuChange::Applying { ctx } => (
                GpuChange::FindingModel { ctx },
                GpuChangeAction::QueryCurrentModel,
            ),
            GpuChange::FindingModel { ctx } => match event {
                GpuChangeEvent::CurrentModel(Some(model_id)) => (
                    GpuChange::CheckingLoaded { ctx, model_id },
                    GpuChangeAction::QueryModelLoaded,
                ),
                _ => followup(ctx),
            },
            GpuChange::CheckingLoaded { ctx, model_id } => match event {
                GpuChangeEvent::ModelLoaded(true) => {
                    let id = model_id.clone();
                    (
                        GpuChange::CheckingEngine { ctx, model_id },
                        GpuChangeAction::QueryModelEngine { model_id: id },
                    )
                },
                _ => {
                    let provider = provider_or_auto(ctx.previous.as_str());
                    (
                        GpuChange::Reverting,
                        GpuChangeAction::RevertSetting { setting: ctx.previous, provider },
                    )
                },
            },
            GpuChange::CheckingEngine { ctx, model_id } => match event {
                GpuChangeEvent::ModelEngine(Some(t)) => {
                    if is_ort_engine(&t) {
                        (GpuChange::Unloading { ctx, model_id }, GpuChangeAction::UnloadBatchModel)
                    } else {
                        followup(ctx)
                    }
                },
                _ => followup(ctx),
            },
            GpuChange::Unloading { ctx, model_id } => (
                GpuChange::Reloading { ctx },
                GpuChangeAction::LoadBatchModel { model_id },
            ),
            GpuChange::Reloading { ctx } => match event {
                GpuChangeEvent::Reloaded(Err(e)) => (
                    GpuChange::Done,
                    GpuChangeAction::Finish(Err(CommandFailure::ReloadFailed(e))),
                ),
                _ => followup(ctx),
            },
            GpuChange::CheckingStreaming { ctx } => match event {
                GpuChangeEvent::StreamingModelAvailable(true) => {
                    let model_id = ctx.streaming_model.clone();
                    (
                        GpuChange::ReloadingStreaming { ctx },
                        GpuChangeAction::ReloadStreamingEngine { model_id },
                    )
                },
                _ => (GpuChange::Done, GpuChangeAction::Finish(Ok(()))),
            },
            GpuChange::ReloadingStreaming { .. } => (
                GpuChange::Done,
                GpuChangeAction::Finish(Ok(())),
            ),
            GpuChange::Reverting => (
                GpuChange::Done,
                GpuChangeAction::Finish(Err(CommandFailure::Busy)),
            ),
            GpuChange::Done => (GpuChange::Done, GpuChangeAction::Finish(Ok(()))),
        }
    }
}


/// How many more steps a provider change can take from `state`.
pub open spec fn gpu_change_rank(state: GpuChange) -> nat {
    match state {
        GpuChange::ReadingSettings { .. } => 9,
        GpuChange::Applying { .. } => 8,
        GpuChange::FindingModel { .. } => 7,
        GpuChange::CheckingLoaded { .. } => 6,
        GpuChange::CheckingEngine { .. } => 5,
        GpuChange::Unloading { .. } => 4,
        GpuChange::Reloading { .. } => 3,
        GpuChange::CheckingStreaming { .. } => 2,
        GpuChange::ReloadingStreaming { .. } => 1,
        GpuChange::Reverting => 1,
        GpuChange::Done => 0,
    }
}

/// A provider change always finishes: every answered step moves to a state
/// of lower rank, and a step reaches `Done` exactly when it says `Finish`.
pub proof fn lemma_gpu_change_terminates(state: GpuChange, event: GpuChangeEvent)
    requires
        answers(state, event),
    ensures
        gpu_change_rank(gpu_change_step(state, event).0) < gpu_change_rank(state),
        gpu_change_step(state, event).0 is Done <==> gpu_change_step(state, event).1 is Finish,
{
}

/// The provider name the change is for (empty where the state keeps none).
pub open spec fn requested_of(state: GpuChange) -> Seq<char> {
    match state {
        GpuChange::ReadingSettings { requested, .. } => requested@,
        GpuChange::Applying { ctx } => ctx.requested@,
        GpuChange::FindingModel { ctx } => ctx.requested@,
        GpuChange::CheckingLoaded { ctx, .. } => ctx.requested@,
        GpuChange::CheckingEngine { ctx, .. } => ctx.requested@,
        GpuChange::Unloading { ctx, .. } => ctx.requested@,
        GpuChange::Reloading { ctx } => ctx.requested@,
        GpuChange::CheckingStreaming { ctx } => ctx.requested@,
        GpuChange::ReloadingStreaming { ctx } => ctx.requested@,
        _ => Seq::empty(),
    }
}

/// The provider name stored in the settings once `action` was performed.
pub open spec fn stored_after(action: GpuChangeAction, stored: Seq<char>) -> Seq<char> {
    match action {
        GpuChangeAction::ApplyProvider { setting, .. } => setting@,
        GpuChangeAction::RevertSetting { setting, .. } => setting@,
        _ => stored,
    }
}

/// The provider selected in the engine library once `action` was performed.
pub open spec fn selected_after(action: GpuChangeAction, selected: GpuProvider) -> GpuProvider {
    match action {
        GpuChangeAction::ApplyProvider { provider, .. } => provider,
        GpuChangeAction::RevertSetting { provider, .. } => provider,
        _ => selected,
    }
}

/// The context a running change keeps, where it keeps one.
pub open spec fn context_of(state: GpuChange) -> Option<ChangeContext> {
    match state {
        GpuChange::Applying { ctx } => Some(ctx),
        GpuChange::FindingModel { ctx } => Some(ctx),
        GpuChange::CheckingLoaded { ctx, .. } => Some(ctx),
        GpuChange::CheckingEngine { ctx, .. } => Some(ctx),
        GpuChange::Unloading { ctx, .. } => Some(ctx),
        GpuChange::Reloading { ctx } => Some(ctx),
        GpuChange::CheckingStreaming { ctx } => Some(ctx),
        GpuChange::ReloadingStreaming { ctx } => Some(ctx),
        _ => None,
    }
}

/// What the settings hold in each state of a change that found `initial`
/// stored: the old name until the change is applied, the requested one
/// while it is under way, and the old one again once it is reverted.
pub open spec fn store_tracks(state: GpuChange, stored: Seq<char>, initial: Seq<char>) -> bool {
    match state {
        GpuChange::ReadingSettings { .. } => stored == initial,
        GpuChange::Reverting => stored == initial,
        GpuChange::Done => true,
        _ => stored == requested_of(state) && match state {
            GpuChange::Applying { ctx } => ctx.previous@ == initial,
            GpuChange::FindingModel { ctx } => ctx.previous@ == initial,
            GpuChange::CheckingLoaded { ctx, .. } => ctx.previous@ == initial,
            GpuChange::CheckingEngine { ctx, .. } => ctx.previous@ == initial,
            GpuChange::Unloading { ctx, .. } => ctx.previous@ == initial,
            GpuChange::Reloading { ctx } => ctx.previous@ == initial,
            GpuChange::CheckingStreaming { ctx } => ctx.previous@ == initial,
            GpuChange::ReloadingStreaming { ctx } => ctx.previous@ == initial,
            _ => true,
        },
    }
}

/// The stored provider setting follows the change: each step keeps
/// `store_tracks`, given that the settings read report what is stored.  A
/// change that succeeds, or whose model reload fails, ends with the
/// requested name stored; one refused because the batch model is busy ends
/// with the name it found stored.
pub proof fn lemma_gpu_change_store(
    state: GpuChange,
    event: GpuChangeEvent,
    stored: Seq<char>,
    initial: Seq<char>,
)
    requires
        answers(state, event),
        store_tracks(state, stored, initial),
        state is ReadingSettings ==> event->Settings_gpu_provider@ == stored,
    ensures
        ({
            let (next, action) = gpu_change_step(state, event);
            let now = stored_after(action, stored);
            &&& store_tracks(next, now, initial)
            &&& action matches GpuChangeAction::Finish(Ok(())) ==> now == requested_of(state)
            &&& action matches GpuChangeAction::Finish(Err(CommandFailure::Busy)) ==> now == initial
            &&& action matches GpuChangeAction::Finish(Err(CommandFailure::ReloadFailed(_)))
                ==> now == requested_of(state)
            &&& action matches GpuChangeAction::RevertSetting { setting, provider } ==> setting@
                == initial && provider == revert_provider(initial)
        }),
{
}

/// A provider change replayed over the reports in `events`, each performed
/// action updating the stored provider name and the provider selected in
/// the engine library: the state, the last action, the stored name and the
/// selected provider when the reports run out or one does not answer.
pub open spec fn replay_gpu_change(
    state: GpuChange,
    action: GpuChangeAction,
    events: Seq<GpuChangeEvent>,
    stored: Seq<char>,
    selected: GpuProvider,
) -> (GpuChange, GpuChangeAction, Seq<char>, GpuProvider)
    decreases events.len(),
{
    if events.len() == 0 || !answers(state, events[0]) {
        (state, action, stored, selected)
    } else {
        let (next, act) = gpu_change_step(state, events[0]);
        replay_gpu_change(
            next,
            act,
            events.drop_first(),
            stored_after(act, stored),
            selected_after(act, selected),
        )
    }
}

/// Whether every settings read in the replay reports the stored name, as it
/// does when nothing else writes the settings meanwhile.
pub open spec fn reads_are_faithful(
    state: GpuChange,
    events: Seq<GpuChangeEvent>,
    stored: Seq<char>,
) -> bool
    decreases events.len(),
{
    if events.len() == 0 || !answers(state, events[0]) {
        true
    } else {
        let (next, act) = gpu_change_step(state, events[0]);
        &&& (state is ReadingSettings ==> events[0]->Settings_gpu_provider@ == stored)
        &&& reads_are_faithful(next, events.drop_first(), stored_after(act, stored))
    }
}

/// Whether each report answers the state the run is in when it arrives,
/// until the run is done.
pub open spec fn all_answer(state: GpuChange, events: Seq<GpuChangeEvent>) -> bool
    decreases events.len(),
{
    if events.len() == 0 || state is Done {
        true
    } else {
        answers(state, events[0]) && all_answer(
            gpu_change_step(state, events[0]).0,
            events.drop_first(),
        )
    }
}

/// What holds along a run for `requested` that found `initial` stored:
/// while running, `store_tracks`, and once applied the requested provider is
/// selected; once done, the requested name is stored after a success, the
/// requested name is stored and its provider selected after a failed
/// reload, and after a busy refusal `initial` is stored again and the
/// provider it names (`Auto` if none) selected again.
pub open spec fn run_inv(
    state: GpuChange,
    action: GpuChangeAction,
    stored: Seq<char>,
    selected: GpuProvider,
    initial: Seq<char>,
    requested: Seq<char>,
) -> bool {
    if state is Done {
        match action {
            GpuChangeAction::Finish(Ok(())) => stored == requested,
            GpuChangeAction::Finish(Err(CommandFailure::Busy)) => stored == initial && selected
                == revert_provider(initial),
            GpuChangeAction::Finish(Err(CommandFailure::UnknownProvider(_))) => stored == initial,
            GpuChangeAction::Finish(Err(CommandFailure::ReloadFailed(_))) => stored == requested
                && provider_name(selected) == requested,
            _ => true,
        }
    } else {
        &&& store_tracks(state, stored, initial)
        &&& !(state is Reverting) ==> requested_of(state) == requested
        &&& state is Reverting ==> selected == revert_provider(initial)
        &&& state matches GpuChange::ReadingSettings { provider, .. } ==> provider_name(provider)
            == requested
        &&& context_of(state) matches Some(ctx) ==> selected == ctx.provider && provider_name(
            ctx.provider,
        ) == requested
    }
}

/// A change starts with `run_inv`: from its first state for a provider
/// named by the request, or finished at once with an unknown provider and
/// nothing written, whatever provider is selected.
pub proof fn lemma_gpu_change_run_starts(
    requested: String,
    provider: GpuProvider,
    m: String,
    stored: Seq<char>,
    selected: GpuProvider,
)
    requires
        provider_name(provider) == requested@,
    ensures
        run_inv(
            GpuChange::ReadingSettings { requested, provider },
            GpuChangeAction::ReadSettings,
            stored,
            selected,
            stored,
            requested@,
        ),
        run_inv(
            GpuChange::Done,
            GpuChangeAction::Finish(Err(CommandFailure::UnknownProvider(m))),
            stored,
            selected,
            stored,
            requested@,
        ),
{
}

/// Over a whole run: `run_inv` holds at its end, so a change that read the
/// settings faithfully ends with the requested name stored when it succeeds
/// (or only its model reload fails), and, when the batch model was busy,
/// with the name it found stored and the provider that name selects
/// selected again; and a run whose reports all answer is done after at
/// most nine of them.
pub proof fn lemma_gpu_change_run(
    state: GpuChange,
    action: GpuChangeAction,
    events: Seq<GpuChangeEvent>,
    stored: Seq<char>,
    selected: GpuProvider,
    initial: Seq<char>,
    requested: Seq<char>,
)
    requires
        run_inv(state, action, stored, selected, initial, requested),
        reads_are_faithful(state, events, stored),
    ensures
        ({
            let (last, act, now, sel) = replay_gpu_change(state, action, events, stored, selected);
            &&& run_inv(last, act, now, sel, initial, requested)
            &&& (all_answer(state, events) && events.len() >= gpu_change_rank(state)) ==> last is Done
        }),
    decreases events.len(),
{
    if events.len() == 0 || !answers(state, events[0]) {
        if events.len() > 0 && all_answer(state, events) {
            assert(state is Done);
        }
    } else {
        let e = events[0];
        let (next, act) = gpu_change_step(state, e);
        lemma_gpu_change_store(state, e, stored, initial);
        lemma_gpu_change_terminates(state, e);
        lemma_gpu_change_keeps_request(state, e);
        lemma_gpu_change_run(
            next,
            act,
            events.drop_first(),
            stored_after(act, stored),
            selected_after(act, selected),
            initial,
            requested,
        );
    }
}

/// A step keeps the requested name while the change is under way.
pub proof fn lemma_gpu_change_keeps_request(state: GpuChange, event: GpuChangeEvent)
    requires
        answers(state, event),
    ensures
        ({
            let next = gpu_change_step(state, event).0;
            !(next is Done) && !(next is Reverting) ==> requested_of(next) == requested_of(state)
        }),
{
}

/// The batch model that is reloaded is the one the current-model query
/// reported, the same whose loaded state and engine type were checked: for
/// a loaded model on an ONNX engine the change asks whether it is loaded,
/// asks for the engine of that model, unloads it, and loads that model
/// again.
pub proof fn lemma_reload_targets_current_model(ctx: ChangeContext, model_id: String, t: EngineType)
    requires
        uses_ort(t),
    ensures
        ({
            let (s1, a1) = gpu_change_step(
                GpuChange::FindingModel { ctx },
                GpuChangeEvent::CurrentModel(Some(model_id)),
            );
            let (s2, a2) = gpu_change_step(s1, GpuChangeEvent::ModelLoaded(true));
            let (s3, a3) = gpu_change_step(s2, GpuChangeEvent::ModelEngine(Some(t)));
            let (s4, a4) = gpu_change_step(s3, GpuChangeEvent::Unloaded);
            &&& a1 == GpuChangeAction::QueryModelLoaded
            &&& answers(s1, GpuChangeEvent::ModelLoaded(true))
            &&& a2 == GpuChangeAction::QueryModelEngine { model_id }
            &&& answers(s2, GpuChangeEvent::ModelEngine(Some(t)))
            &&& a3 == GpuChangeAction::UnloadBatchModel
            &&& answers(s3, GpuChangeEvent::Unloaded)
            &&& a4 == GpuChangeAction::LoadBatchModel { model_id }
            &&& context_of(s4) == Some(ctx)
        }),
{
}

/// A model that needs no reload (none in use, or one on an engine that does
/// not use the ONNX runtime) ends the batch part; the streaming engine is
/// then still reloaded for the new provider when streaming is on, and the
/// change finishes only when it is off.
pub proof fn lemma_streaming_reload_follows_batch(ctx: ChangeContext, model_id: String, t: EngineType)
    requires
        !uses_ort(t),
    ensures
        ({
            let after_none = gpu_change_step(
                GpuChange::FindingModel { ctx },
                GpuChangeEvent::CurrentModel(None),
            ).1;
            let (s1, _) = gpu_change_step(
                GpuChange::FindingModel { ctx },
                GpuChangeEvent::CurrentModel(Some(model_id)),
            );
            let (s2, _) = gpu_change_step(s1, GpuChangeEvent::ModelLoaded(true));
            let after_engine = gpu_change_step(s2, GpuChangeEvent::ModelEngine(Some(t))).1;
            let after_unknown = gpu_change_step(s2, GpuChangeEvent::ModelEngine(None)).1;
            let expected = if ctx.streaming_enabled {
                GpuChangeAction::QueryStreamingModel { model_id: ctx.streaming_model }
            } else {
                GpuChangeAction::Finish(Ok(()))
            };
            &&& after_none == expected
            &&& after_engine == expected
            &&& after_unknown == expected
        }),
{
}

/// While a change is applied and under way, with streaming on it finishes
/// successfully only after the streaming model was checked (from
/// `CheckingStreaming` or `ReloadingStreaming`); it fails only when the
/// batch model's reload fails; and it queries or reloads only the streaming
/// model named in the settings it read (asking about it only with streaming
/// on).
pub proof fn lemma_streaming_checked_before_success(state: GpuChange, event: GpuChangeEvent)
    requires
        answers(state, event),
        context_of(state) is Some,
    ensures
        ({
            let ctx = context_of(state)->0;
            let action = gpu_change_step(state, event).1;
            &&& (ctx.streaming_enabled && action == GpuChangeAction::Finish(Ok(()))) ==> (
            state is CheckingStreaming || state is ReloadingStreaming)
            &&& action matches GpuChangeAction::Finish(Err(f)) ==> (state is Reloading
                && f is ReloadFailed)
            &&& action matches GpuChangeAction::QueryStreamingModel { model_id } ==> (
            ctx.streaming_enabled && model_id == ctx.streaming_model)
            &&& action matches GpuChangeAction::ReloadStreamingEngine { model_id } ==> model_id
                == ctx.streaming_model
        }),
{
}

/// Where turning streaming on or off stands.
pub enum StreamingToggle {
    /// Turning on: waiting to learn whether the streaming model is missing.
    CheckingModel,
    /// Waiting until the setting was saved.
    Saving { enabled: bool },
    /// Waiting until the streaming engine was preloaded or unloaded.
    SwitchingEngine,
    /// Finished.
    Done,
}

/// What an outside operation reported.
pub enum StreamingToggleEvent {
    /// Whether the streaming model is missing: a model manager exists and
    /// finds no files for it.
    ModelMissing(bool),
    /// The setting was saved; the streaming model named in the settings.
    Saved { streaming_model: String },
    /// The requested operation was carried out.
    Completed,
}

/// The outside operation to perform next.
pub enum StreamingToggleAction {
    CheckStreamingModel,
    /// Save the streaming-enabled setting.
    SaveStreamingEnabled(bool),
    /// Preload the streaming engine, when a streaming manager exists.
    PreloadStreamingEngine { model_id: String },
    /// Unload the streaming engine, when a streaming manager exists.
    UnloadStreamingEngine,
    /// Return from the command.
    Finish(Result<(), CommandFailure>),
}

/// Whether `event` reports the operation that `state` waits for.
pub open spec fn toggle_answers(state: StreamingToggle, event: StreamingToggleEvent) -> bool {
    match state {
        StreamingToggle::CheckingModel => event is ModelMissing,
        StreamingToggle::Saving { .. } => event is Saved,
        StreamingToggle::SwitchingEngine => event is Completed,
        StreamingToggle::Done => false,
    }
}

/// The next state and action of turning streaming on or off.
pub open spec fn toggle_step(state: StreamingToggle, event: StreamingToggleEvent) -> (
    StreamingToggle,
    StreamingToggleAction,
)
    recommends
        toggle_answers(state, event),
{
    match (state, event) {
        (StreamingToggle::CheckingModel, StreamingToggleEvent::ModelMissing(missing)) => if missing {
            (
                StreamingToggle::Done,
                StreamingToggleAction::Finish(Err(CommandFailure::ModelNotDownloaded)),
            )
        } else {
            (StreamingToggle::Saving { enabled: true }, StreamingToggleAction::SaveStreamingEnabled(true))
        },
        (StreamingToggle::Saving { enabled }, StreamingToggleEvent::Saved { streaming_model }) => (
            StreamingToggle::SwitchingEngine,
            if enabled {
                StreamingToggleAction::PreloadStreamingEngine { model_id: streaming_model }
            } else {
                StreamingToggleAction::UnloadStreamingEngine
            },
        ),
        (StreamingToggle::SwitchingEngine, _) => (
            StreamingToggle::Done,
            StreamingToggleAction::Finish(Ok(())),
        ),
        (s, _) => (s, StreamingToggleAction::Finish(Ok(()))),
    }
}

/// How many more steps turning streaming on or off can take from `state`.
pub open spec fn toggle_rank(state: StreamingToggle) -> nat {
    match state {
        StreamingToggle::CheckingModel => 3,
        StreamingToggle::Saving { .. } => 2,
        StreamingToggle::SwitchingEngine => 1,
        StreamingToggle::Done => 0,
    }
}

/// Turning streaming on or off always finishes: every answered step lowers
/// the rank, and reaches `Done` exactly when it says `Finish`.  Streaming is
/// saved as enabled only after its model was found present.
pub proof fn lemma_streaming_toggle_terminates(state: StreamingToggle, event: StreamingToggleEvent)
    requires
        toggle_answers(state, event),
    ensures
        toggle_rank(toggle_step(state, event).0) < toggle_rank(state),
        toggle_step(state, event).0 is Done <==> toggle_step(state, event).1 is Finish,
        toggle_step(state, event).1 == StreamingToggleAction::SaveStreamingEnabled(true) ==> (
        state is CheckingModel && event == StreamingToggleEvent::ModelMissing(false)),
{
}

/// Starts turning streaming on (after checking its model is present) or
/// off (saving at once).
pub fn begin_streaming_toggle(enabled: bool) -> (r: (StreamingToggle, StreamingToggleAction))
    ensures
        r == (if enabled {
            (StreamingToggle::CheckingModel, StreamingToggleAction::CheckStreamingModel)
        } else {
            (
                StreamingToggle::Saving { enabled: false },
                StreamingToggleAction::SaveStreamingEnabled(false),
            )
        }),
{
    if enabled {
        (StreamingToggle::CheckingModel, StreamingToggleAction::CheckStreamingModel)
    } else {
        (StreamingToggle::Saving { enabled: false }, StreamingToggleAction::SaveStreamingEnabled(false))
    }
}

impl StreamingToggle {
    /// The next state and the operation to perform, from what the last
    /// operation reported.
    pub fn step(self, event: StreamingToggleEvent) -> (r: (StreamingToggle, StreamingToggleAction))
        requires
            toggle_answers(self, event),
        ensures
            r == toggle_step(self, event),
    {
        match self {
            StreamingToggle::CheckingModel => match event {
                StreamingToggleEvent::ModelMissing(true) => (
                    StreamingToggle::Done,
                    StreamingToggleAction::Finish(Err(CommandFailure::ModelNotDownloaded)),
                ),
                _ => (
                    StreamingToggle::Saving { enabled: true },
                    StreamingToggleAction::SaveStreamingEnabled(true),
                ),
            },
            StreamingToggle::Saving { enabled } => match event {
                StreamingToggleEvent::Saved { streaming_model } => {
                    if enabled {
                        (
                            StreamingToggle::SwitchingEngine,
                            StreamingToggleAction::PreloadStreamingEngine {
                                model_id: streaming_model,
                            },
                        )
                    } else {
                        (StreamingToggle::SwitchingEngine, StreamingToggleAction::UnloadStreamingEngine)
                    }
                },
                _ => (StreamingToggle::Done, StreamingToggleAction::Finish(Ok(()))),
            },
            StreamingToggle::SwitchingEngine => (
                StreamingToggle::Done,
                StreamingToggleAction::Finish(Ok(())),
            ),
            StreamingToggle::Done => (StreamingToggle::Done, StreamingToggleAction::Finish(Ok(()))),
        }
    }
}

} // verus!
