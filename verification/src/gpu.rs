//! GPU execution provider settings: the names stored in the settings, and
//! which transcription engines depend on them.

use vstd::prelude::*;
use crate::text::chars_of;

verus! {

/// Execution provider preference for the ONNX runtime engines.
#[derive(PartialEq, Eq, Structural, Clone, Copy, Debug)]
pub enum GpuProvider {
    Auto,
    CpuOnly,
    DirectMl,
    Cuda,
    CoreMl,
    WebGpu,
}

/// The settings string of each provider.
pub open spec fn provider_name(p: GpuProvider) -> Seq<char> {
    match p {
        GpuProvider::Auto => seq!['a', 'u', 't', 'o'],
        GpuProvider::CpuOnly => seq!['c', 'p', 'u'],
        GpuProvider::DirectMl => seq!['d', 'i', 'r', 'e', 'c', 't', 'm', 'l'],
        GpuProvider::Cuda => seq!['c', 'u', 'd', 'a'],
        GpuProvider::CoreMl => seq!['c', 'o', 'r', 'e', 'm', 'l'],
        GpuProvider::WebGpu => seq!['w', 'e', 'b', 'g', 'p', 'u'],
    }
}

/// Whether `s` names some provider.
pub open spec fn is_provider_name(s: Seq<char>) -> bool {
    exists|p: GpuProvider| provider_name(p) == s
}

/// The error reported for a string that names no provider.
pub open spec fn unknown_provider_message(s: Seq<char>) -> Seq<char> {
    "Unknown GPU provider: "@ + s
}

/// Each provider's settings name is a provider name that names only that
/// provider, so writing a provider's name and parsing it gives it back.
pub proof fn lemma_provider_name_round_trip(p: GpuProvider)
    ensures
        is_provider_name(provider_name(p)),
        forall|q: GpuProvider| provider_name(q) == provider_name(p) ==> q == p,
{
    assert forall|q: GpuProvider| provider_name(q) == provider_name(p) implies q == p by {
        if q != p {
            let a = provider_name(p);
            let b = provider_name(q);
            assert(a.len() == b.len());
            assert(a[0] == b[0]);
            assert(a[1] == b[1]);
        }
    }
}

/// Whether two strings hold the same characters.
pub fn same_text(a: &str, b: &str) -> (eq: bool)
    ensures
        eq == (a@ == b@),
{
    let x = chars_of(a);
    let y = chars_of(b);
    if x.len() != y.len() {
        return false;
    }
    let mut i: usize = 0;
    while i < x.len()
        invariant
            x@ == a@,
            y@ == b@,
            x.len() == y.len(),
            i <= x.len(),
            forall|j: int| 0 <= j < i ==> x@[j] == y@[j],
        decreases x.len() - i,
    {
        if x[i] != y[i] {
            return false;
        }
        i = i + 1;
    }
    assert(a@ =~= b@);
    true
}

/// Maps a settings string to a provider.
pub fn parse_gpu_provider(s: &str) -> (r: Result<GpuProvider, String>)
    ensures
        match r {
            Ok(p) => provider_name(p) == s@,
            Err(e) => !is_provider_name(s@) && e@ == unknown_provider_message(s@),
        },
{
    proof {
        reveal_strlit("auto");
        reveal_strlit("cpu");
        reveal_strlit("directml");
        reveal_strlit("cuda");
        reveal_strlit("coreml");
        reveal_strlit("webgpu");
    }
    if same_text(s, "auto") {
        assert(provider_name(GpuProvider::Auto) =~= "auto"@);
        Ok(GpuProvider::Auto)
    } else if same_text(s, "cpu") {
        assert(provider_name(GpuProvider::CpuOnly) =~= "cpu"@);
        Ok(GpuProvider::CpuOnly)
    } else if same_text(s, "directml") {
        assert(provider_name(GpuProvider::DirectMl) =~= "directml"@);
        Ok(GpuProvider::DirectMl)
    } else if same_text(s, "cuda") {
        assert(provider_name(GpuProvider::Cuda) =~= "cuda"@);
        Ok(GpuProvider::Cuda)
    } else if same_text(s, "coreml") {
        assert(provider_name(GpuProvider::CoreMl) =~= "coreml"@);
        Ok(GpuProvider::CoreMl)
    } else if same_text(s, "webgpu") {
        assert(provider_name(GpuProvider::WebGpu) =~= "webgpu"@);
        Ok(GpuProvider::WebGpu)
    } else {
        assert(provider_name(GpuProvider::Auto) =~= "auto"@);
        assert(provider_name(GpuProvider::CpuOnly) =~= "cpu"@);
        assert(provider_name(GpuProvider::DirectMl) =~= "directml"@);
        assert(provider_name(GpuProvider::Cuda) =~= "cuda"@);
        assert(provider_name(GpuProvider::CoreMl) =~= "coreml"@);
        assert(provider_name(GpuProvider::WebGpu) =~= "webgpu"@);
        let mut msg = String::from_str("Unknown GPU provider: ");
        msg.append(s);
        Err(msg)
    }
}

/// Maps a provider to its settings string.
pub fn gpu_provider_to_string(p: GpuProvider) -> (s: &'static str)
    ensures
        s@ == provider_name(p),
{
    match p {
        GpuProvider::Auto => {
            proof {
                reveal_strlit("auto");
            }
            "auto"
        },
        GpuProvider::CpuOnly => {
            proof {
                reveal_strlit("cpu");
            }
            "cpu"
        },
        GpuProvider::DirectMl => {
            proof {
                reveal_strlit("directml");
            }
            "directml"
        },
        GpuProvider::Cuda => {
            proof {
                reveal_strlit("cuda");
            }
            "cuda"
        },
        GpuProvider::CoreMl => {
            proof {
                reveal_strlit("coreml");
            }
            "coreml"
        },
        GpuProvider::WebGpu => {
            proof {
                reveal_strlit("webgpu");
            }
            "webgpu"
        },
    }
}

/// The settings names of the providers in `providers`, in order, skipping
/// entries that name no settings provider.
pub open spec fn known_provider_names(providers: Seq<Option<GpuProvider>>) -> Seq<Seq<char>>
    decreases providers.len(),
{
    if providers.len() == 0 {
        Seq::empty()
    } else {
        let rest = known_provider_names(providers.drop_last());
        match providers.last() {
            Some(p) => rest.push(provider_name(p)),
            None => rest,
        }
    }
}

/// The names listed for a provider list are exactly the settings names of
/// its `Some` entries, in order: keep the entries that name a provider, then
/// take each one's name.
pub proof fn lemma_provider_names_are_the_named_entries(providers: Seq<Option<GpuProvider>>)
    ensures
        known_provider_names(providers) == providers.filter(
            |o: Option<GpuProvider>| o is Some,
        ).map_values(|o: Option<GpuProvider>| provider_name(o->0)),
    decreases providers.len(),
{
    reveal_with_fuel(Seq::<_>::filter, 1);
    if providers.len() > 0 {
        lemma_provider_names_are_the_named_entries(providers.drop_last());
        let pred = |o: Option<GpuProvider>| o is Some;
        let f = |o: Option<GpuProvider>| provider_name(o->0);
        let sub = providers.drop_last().filter(pred);
        match providers.last() {
            Some(p) => {
                assert(sub.push(providers.last()).map_values(f) =~= sub.map_values(f).push(
                    provider_name(p),
                ));
            },
            None => {},
        }
    } else {
        assert(providers.filter(|o: Option<GpuProvider>| o is Some).map_values(
            |o: Option<GpuProvider>| provider_name(o->0),
        ) =~= Seq::<Seq<char>>::empty());
    }
}

/// The settings names of the given providers.
pub fn provider_names(providers: &Vec<Option<GpuProvider>>) -> (names: Vec<String>)
    ensures
        names@.map_values(|s: String| s@) == known_provider_names(providers@),
        names@.map_values(|s: String| s@) == providers@.filter(
            |o: Option<GpuProvider>| o is Some,
        ).map_values(|o: Option<GpuProvider>| provider_name(o->0)),
{
    proof {
        lemma_provider_names_are_the_named_entries(providers@);
    }
    let mut names: Vec<String> = Vec::new();
    let mut i: usize = 0;
    while i < providers.len()
        invariant
            i <= providers.len(),
            names@.map_values(|s: String| s@) == known_provider_names(providers@.take(i as int)),
        decreases providers.len() - i,
    {
        assert(providers@.take(i + 1).drop_last() =~= providers@.take(i as int));
        match providers[i] {
            Some(p) => {
                let name = String::from_str(gpu_provider_to_string(p));
                let ghost before = names@;
                names.push(name);
                assert(names@.map_values(|s: String| s@) =~= before.map_values(|s: String| s@).push(
                    provider_name(p),
                ));
            },
            None => {},
        }
        i = i + 1;
    }
    assert(providers@.take(providers.len() as int) =~= providers@);
    names
}

proof fn lemma_first_name_kept(providers: Seq<Option<GpuProvider>>, p: GpuProvider)
    requires
        providers.len() > 0,
        providers[0] == Some(p),
    ensures
        known_provider_names(providers).len() > 0,
        known_provider_names(providers)[0] == provider_name(p),
    decreases providers.len(),
{
    let rest = providers.drop_last();
    if providers.len() == 1 {
        assert(rest.len() == 0);
        assert(known_provider_names(rest) =~= Seq::<Seq<char>>::empty());
    } else {
        lemma_first_name_kept(rest, p);
        match providers.last() {
            Some(q) => assert(known_provider_names(providers)[0] == known_provider_names(rest)[0]),
            None => {},
        }
    }
}

proof fn lemma_known_names_are_provider_names(providers: Seq<Option<GpuProvider>>)
    ensures
        forall|k: int|
            0 <= k < known_provider_names(providers).len() ==> is_provider_name(
                #[trigger] known_provider_names(providers)[k],
            ),
    decreases providers.len(),
{
    if providers.len() > 0 {
        lemma_known_names_are_provider_names(providers.drop_last());
        match providers.last() {
            Some(p) => {
                let names = known_provider_names(providers);
                assert forall|k: int| 0 <= k < names.len() implies is_provider_name(
                    #[trigger] names[k],
                ) by {
                    if k == names.len() - 1 {
                        assert(provider_name(p) == names[k]);
                    } else {
                        assert(names[k] == known_provider_names(providers.drop_last())[k]);
                    }
                }
            },
            None => {
                assert(known_provider_names(providers) == known_provider_names(
                    providers.drop_last(),
                ));
            },
        }
    }
}

/// Calls `transcribe_rs::OrtAccelerator::available()`, the accelerators
/// compiled into this build, and maps each to the settings provider of the
/// same name, or to `None` for one the settings do not offer (TensorRT,
/// ROCm, XNNPACK, and any variant a later release adds).  The list
/// depends on the build's features; its source starts it with `CpuOnly`
/// (its documentation: "Always includes `CpuOnly`"), and that is all this
/// states of it.
#[verifier::external_body]
fn compiled_providers() -> (r: Vec<Option<GpuProvider>>)
    ensures
        r.len() > 0,
        r[0] == Some(GpuProvider::CpuOnly),
{
    transcribe_rs::OrtAccelerator::available().into_iter().map(|a| match a {
        transcribe_rs::OrtAccelerator::Auto => Some(GpuProvider::Auto),
        transcribe_rs::OrtAccelerator::CpuOnly => Some(GpuProvider::CpuOnly),
        transcribe_rs::OrtAccelerator::DirectMl => Some(GpuProvider::DirectMl),
        transcribe_rs::OrtAccelerator::Cuda => Some(GpuProvider::Cuda),
        transcribe_rs::OrtAccelerator::CoreMl => Some(GpuProvider::CoreMl),
        transcribe_rs::OrtAccelerator::WebGpu => Some(GpuProvider::WebGpu),
        transcribe_rs::OrtAccelerator::TensorRt => None,
        transcribe_rs::OrtAccelerator::Rocm => None,
        transcribe_rs::OrtAccelerator::Xnnpack => None,
        _ => None,
    }).collect()
}

/// The settings names of the providers available in this build; "cpu" is
/// always the first.
pub fn get_available_gpu_providers() -> (names: Vec<String>)
    ensures
        names.len() > 0,
        names[0]@ == provider_name(GpuProvider::CpuOnly),
        forall|i: int| 0 <= i < names.len() ==> is_provider_name(#[trigger] names[i]@),
{
    let providers = compiled_providers();
    let names = provider_names(&providers);
    proof {
        lemma_first_name_kept(providers@, GpuProvider::CpuOnly);
        lemma_known_names_are_provider_names(providers@);
        let views = names@.map_values(|s: String| s@);
        assert(views[0] == names[0]@);
        assert forall|i: int| 0 <= i < names.len() implies is_provider_name(
            #[trigger] names[i]@,
        ) by {
            assert(views[i] == names[i]@);
        }
    }
    names
}

/// Transcription engine families, as far as the provider setting tells
/// them apart.
#[derive(PartialEq, Eq, Structural, Clone, Copy, Debug)]
pub enum EngineType {
    Whisper,
    Parakeet,
    Moonshine,
    SenseVoice,
    Qwen3,
    /// Any other engine.
    Other,
}

/// Engines that run on the ONNX runtime and so follow the provider setting;
/// Whisper runs on whisper.cpp, for which a provider change is a no-op, and
/// other engines are not reloaded either.
pub open spec fn uses_ort(t: EngineType) -> bool {
    match t {
        EngineType::Parakeet | EngineType::Moonshine | EngineType::SenseVoice
        | EngineType::Qwen3 => true,
        EngineType::Whisper | EngineType::Other => false,
    }
}

/// Whether an engine of this type must be reloaded after a provider change.
pub fn is_ort_engine(engine_type: &EngineType) -> (b: bool)
    ensures
        b == uses_ort(*engine_type),
{
    match engine_type {
        EngineType::Parakeet | EngineType::Moonshine | EngineType::SenseVoice
        | EngineType::Qwen3 => true,
        EngineType::Whisper | EngineType::Other => false,
    }
}

} // verus!
