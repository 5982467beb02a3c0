//! Configuration: defaults taken from the environment, the local SenseVoice
//! model presets, and where the FunASR runtime and the VAD model live.

use vstd::prelude::*;
use crate::paths::{path_exists, path_join, spec_path_join};
use crate::text::{eq_ignore_ascii_case, str_eq, str_eq_ignore_ascii_case};

verus! {

/// Active transcription backend.
#[derive(Clone, Copy, PartialEq, Eq, Structural, Debug)]
pub enum TranscriptionService {
    Api,
    Local,
}

/// Application configuration, resolved from the environment.
pub struct Config {
    pub api_base_url: String,
    pub api_key: Option<String>,
    pub api_model: String,
    pub db_path: String,
    pub bin_dir: String,
    pub models_dir: String,
    pub always_on_top: bool,
    pub record_shortcut: String,
}

// ── Defaults ────────────────────────────────────────────────────────────────

pub open spec fn default_api_base_url() -> Seq<char> {
    "http://localhost:1234/v1"@
}

pub open spec fn default_api_model() -> Seq<char> {
    "whisper-1"@
}

/// The record shortcut used when none is configured.
pub open spec fn default_record_shortcut() -> Seq<char> {
    "F10"@
}

/// `value` when present, `default` otherwise.
pub open spec fn or_default(value: Option<String>, default: Seq<char>) -> Seq<char> {
    match value {
        Some(v) => v@,
        None => default,
    }
}

/// The `ALWAYS_ON_TOP` setting: `true` in any ASCII case, or `1`, turns it
/// on; any other value turns it off; no value leaves it on.
pub open spec fn always_on_top_from(value: Option<Seq<char>>) -> bool {
    match value {
        Some(v) => eq_ignore_ascii_case(v, "true"@) || v == "1"@,
        None => true,
    }
}

/// The directory that holds the application's data, below the platform's
/// local data directory (`.` when the platform has none).
pub open spec fn spec_data_dir(local_data_dir: Option<Seq<char>>) -> Seq<char> {
    spec_path_join(
        match local_data_dir {
            Some(d) => d,
            None => "."@,
        },
        "lingyu"@,
    )
}

/// The directory of the application's data (see [`spec_data_dir`]).
pub fn data_dir(local_data_dir: Option<&str>) -> (r: String)
    ensures
        r@ == spec_data_dir(
            match local_data_dir {
                Some(d) => Some(d@),
                None => None,
            },
        ),
{
    match local_data_dir {
        Some(d) => path_join(d, "lingyu"),
        None => path_join(".", "lingyu"),
    }
}

/// The `ALWAYS_ON_TOP` setting (see [`always_on_top_from`]).
pub fn parse_always_on_top(value: Option<&str>) -> (r: bool)
    ensures
        r == always_on_top_from(
            match value {
                Some(v) => Some(v@),
                None => None,
            },
        ),
{
    match value {
        Some(v) => str_eq_ignore_ascii_case(v, "true") || str_eq(v, "1"),
        None => true,
    }
}

impl Config {
    /// The configuration for the given environment values (`None` for an
    /// unset variable) and local data directory: missing values take their
    /// defaults, and the database, runtime and model locations lie in the
    /// data directory.
    pub fn from_environment(
        api_base_url: Option<String>,
        api_key: Option<String>,
        api_model: Option<String>,
        always_on_top: Option<String>,
        record_shortcut: Option<String>,
        local_data_dir: Option<String>,
    ) -> (r: Config)
        ensures
            r.api_base_url@ == or_default(api_base_url, default_api_base_url()),
            r.api_key == api_key,
            r.api_model@ == or_default(api_model, default_api_model()),
            r.always_on_top == always_on_top_from(
                match always_on_top {
                    Some(v) => Some(v@),
                    None => None,
                },
            ),
            r.record_shortcut@ == or_default(record_shortcut, default_record_shortcut()),
            r.db_path@ == spec_path_join(
                spec_data_dir(
                    match local_data_dir {
                        Some(d) => Some(d@),
                        None => None,
                    },
                ),
                "history.db"@,
            ),
            r.bin_dir@ == spec_path_join(
                spec_data_dir(
                    match local_data_dir {
                        Some(d) => Some(d@),
                        None => None,
                    },
                ),
                "bin"@,
            ),
            r.models_dir@ == spec_path_join(
                spec_data_dir(
                    match local_data_dir {
                        Some(d) => Some(d@),
                        None => None,
                    },
                ),
                "models"@,
            ),
    {
        let base = match &local_data_dir {
            Some(d) => data_dir(Some(d.as_str())),
            None => data_dir(None),
        };
        let on_top = match &always_on_top {
            Some(v) => parse_always_on_top(Some(v.as_str())),
            None => parse_always_on_top(None),
        };
        Config {
            api_base_url: match api_base_url {
                Some(v) => v,
                None => String::from_str("http://localhost:1234/v1"),
            },
            api_key,
            api_model: match api_model {
                Some(v) => v,
                None => String::from_str("whisper-1"),
            },
            db_path: path_join(base.as_str(), "history.db"),
            bin_dir: path_join(base.as_str(), "bin"),
            models_dir: path_join(base.as_str(), "models"),
            always_on_top: on_top,
            record_shortcut: match record_shortcut {
                Some(v) => v,
                None => String::from_str("F10"),
            },
        }
    }
}

// ── SenseVoice local model presets ──────────────────────────────────────────

/// A downloadable SenseVoice model.
#[derive(Clone, Copy)]
pub struct LocalModelPreset {
    pub id: &'static str,
    pub label: &'static str,
    pub file_name: &'static str,
    pub size_label: &'static str,
    pub url: &'static str,
}

/// The fields of a preset: id, label, file name, size label, url.
pub type PresetView = (Seq<char>, Seq<char>, Seq<char>, Seq<char>, Seq<char>);

impl View for LocalModelPreset {
    type V = PresetView;

    open spec fn view(&self) -> PresetView {
        (self.id@, self.label@, self.file_name@, self.size_label@, self.url@)
    }
}

/// The presets, in menu order.
pub open spec fn spec_local_model_presets() -> Seq<PresetView> {
    seq![
        (
            "sensevoice-q8"@,
            "SenseVoice Q8"@,
            "sensevoice-small-q8.gguf"@,
            "~242 MB"@,
            "https://huggingface.co/FunAudioLLM/SenseVoiceSmall-GGUF/resolve/main/sensevoice-small-q8.gguf"@,
        ),
        (
            "sensevoice-f16"@,
            "SenseVoice F16"@,
            "sensevoice-small-f16.gguf"@,
            "~470 MB"@,
            "https://huggingface.co/FunAudioLLM/SenseVoiceSmall-GGUF/resolve/main/sensevoice-small-f16.gguf"@,
        ),
    ]
}

/// The file name of the F16 model, the one that needs `--keep-tags`.
pub open spec fn f16_model_file_name() -> Seq<char> {
    spec_local_model_presets()[1].2
}

/// The id of the model that is selected when none was chosen.
pub const DEFAULT_LOCAL_MODEL: &'static str = "sensevoice-q8";

/// The presets, in menu order.
pub fn local_model_presets() -> (r: Vec<LocalModelPreset>)
    ensures
        r.len() == spec_local_model_presets().len(),
        forall|i: int| 0 <= i < r.len() ==> #[trigger] r@[i]@ == spec_local_model_presets()[i],
{
    let mut r: Vec<LocalModelPreset> = Vec::new();
    r.push(
        LocalModelPreset {
            id: "sensevoice-q8",
            label: "SenseVoice Q8",
            file_name: "sensevoice-small-q8.gguf",
            size_label: "~242 MB",
            url: "https://huggingface.co/FunAudioLLM/SenseVoiceSmall-GGUF/resolve/main/sensevoice-small-q8.gguf",
        },
    );
    r.push(
        LocalModelPreset {
            id: "sensevoice-f16",
            label: "SenseVoice F16",
            file_name: "sensevoice-small-f16.gguf",
            size_label: "~470 MB",
            url: "https://huggingface.co/FunAudioLLM/SenseVoiceSmall-GGUF/resolve/main/sensevoice-small-f16.gguf",
        },
    );
    r
}

/// The first preset of `presets` whose id is `id`.
pub open spec fn find_preset(presets: Seq<PresetView>, id: Seq<char>) -> Option<PresetView>
    decreases presets.len(),
{
    if presets.len() == 0 {
        None
    } else if presets[0].0 == id {
        Some(presets[0])
    } else {
        find_preset(presets.drop_first(), id)
    }
}

/// The view of an optional preset.
pub open spec fn preset_option_view(p: Option<LocalModelPreset>) -> Option<PresetView> {
    match p {
        Some(p) => Some(p@),
        None => None,
    }
}

/// The preset with the given id, if there is one.
pub fn find_local_model(id: &str) -> (r: Option<LocalModelPreset>)
    ensures
        preset_option_view(r) == find_preset(spec_local_model_presets(), id@),
{
    let presets = local_model_presets();
    let ghost ps = spec_local_model_presets();
    let mut i: usize = 0;
    proof {
        assert(ps.skip(0) =~= ps);
    }
    while i < presets.len()
        invariant
            ps == spec_local_model_presets(),
            presets.len() == ps.len(),
            forall|k: int| 0 <= k < presets.len() ==> #[trigger] presets@[k]@ == ps[k],
            i <= presets.len(),
            find_preset(ps, id@) == find_preset(ps.skip(i as int), id@),
        decreases presets.len() - i,
    {
        let p = presets[i];
        let ghost q = ps.skip(i as int);
        proof {
            assert(q.len() > 0);
            assert(q[0] == ps[i as int]);
            assert(p@ == q[0]);
            assert(q.drop_first() =~= ps.skip(i + 1));
            assert(find_preset(q, id@) == if q[0].0 == id@ {
                Some(q[0])
            } else {
                find_preset(q.drop_first(), id@)
            });
        }
        if str_eq(p.id, id) {
            proof {
                assert(p@.0 == p.id@);
                assert(q[0].0 == id@);
                assert(find_preset(ps, id@) == Some(p@));
            }
            return Some(p);
        }
        i = i + 1;
    }
    None
}

/// A preset found for an id has that id, and every listed preset is found
/// by its own id; the default model is one of them.
pub proof fn lemma_find_preset_by_id(id: Seq<char>)
    ensures
        find_preset(spec_local_model_presets(), id) matches Some(p) ==> p.0 == id,
        find_preset(spec_local_model_presets(), spec_local_model_presets()[0].0) == Some(
            spec_local_model_presets()[0],
        ),
        find_preset(spec_local_model_presets(), spec_local_model_presets()[1].0) == Some(
            spec_local_model_presets()[1],
        ),
        find_preset(spec_local_model_presets(), DEFAULT_LOCAL_MODEL@) is Some,
{
    let ps = spec_local_model_presets();
    lemma_find_preset_id(ps, id);
    reveal_strlit("sensevoice-q8");
    reveal_strlit("sensevoice-f16");
    assert(ps[0].0 != ps[1].0) by {
        assert(ps[0].0.len() != ps[1].0.len());
    }
    let rest = ps.drop_first();
    assert(rest[0] == ps[1]);
    assert(find_preset(rest, ps[1].0) == Some(ps[1]));
    assert(find_preset(ps, ps[1].0) == find_preset(rest, ps[1].0));
}

/// A preset found by [`find_preset`] has the id looked for.
pub proof fn lemma_find_preset_id(presets: Seq<PresetView>, id: Seq<char>)
    ensures
        find_preset(presets, id) matches Some(p) ==> p.0 == id,
    decreases presets.len(),
{
    if presets.len() > 0 {
        lemma_find_preset_id(presets.drop_first(), id);
    }
}

// ── FunASR runtime and VAD model ────────────────────────────────────────────

/// The FunASR runtime for this platform: its executable and the archive it
/// is distributed in.
#[derive(Clone, Copy)]
pub struct FunasrBinary {
    pub binary_name: &'static str,
    pub url: &'static str,
}

/// The executable name of the FunASR runtime.
pub open spec fn funasr_binary_name() -> Seq<char> {
    "llama-funasr-sensevoice.exe"@
}

/// The download location of the FunASR runtime archive.
pub open spec fn funasr_archive_url() -> Seq<char> {
    "https://github.com/modelscope/FunASR/releases/download/runtime-llamacpp-v0.1.4/funasr-llamacpp-windows-x64.zip"@
}

/// The FunASR runtime of the Windows build, the platform this tool targets.
pub fn funasr_binary() -> (r: FunasrBinary)
    ensures
        r.binary_name@ == funasr_binary_name(),
        r.url@ == funasr_archive_url(),
{
    FunasrBinary {
        binary_name: "llama-funasr-sensevoice.exe",
        url: "https://github.com/modelscope/FunASR/releases/download/runtime-llamacpp-v0.1.4/funasr-llamacpp-windows-x64.zip",
    }
}

/// Where the VAD model is downloaded from.
pub const VAD_MODEL_URL: &'static str =
    "https://huggingface.co/FunAudioLLM/fsmn-vad-GGUF/resolve/main/fsmn-vad.gguf";

/// The file name of the VAD model.
pub const VAD_MODEL_FILENAME: &'static str = "fsmn-vad.gguf";

/// The file name of the VAD model.
pub open spec fn vad_model_file_name() -> Seq<char> {
    "fsmn-vad.gguf"@
}

/// Where the FunASR runtime lies in `bin_dir`.
pub fn funasr_binary_path(bin_dir: &str) -> (r: String)
    ensures
        r@ == spec_path_join(bin_dir@, funasr_binary_name()),
{
    path_join(bin_dir, funasr_binary().binary_name)
}

/// Where the VAD model lies in `models_dir`.
pub fn vad_model_path(models_dir: &str) -> (r: String)
    ensures
        r@ == spec_path_join(models_dir@, vad_model_file_name()),
{
    path_join(models_dir, VAD_MODEL_FILENAME)
}

/// Whether the FunASR runtime is present in `bin_dir` (see
/// [`funasr_binary_path`]); the answer depends on the disk.
pub fn funasr_binary_ready(bin_dir: &str) -> bool {
    path_exists(funasr_binary_path(bin_dir).as_str())
}

/// Whether the VAD model is present in `models_dir` (see
/// [`vad_model_path`]); the answer depends on the disk.
pub fn vad_ready(models_dir: &str) -> bool {
    path_exists(vad_model_path(models_dir).as_str())
}

} // verus!
