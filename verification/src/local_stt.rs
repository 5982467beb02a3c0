//! Local speech-to-text through the FunASR llama.cpp runtime (SenseVoice
//! GGUF models): where its files are, how it is invoked, and how its output
//! is read.

use vstd::prelude::*;
use crate::config::{f16_model_file_name, funasr_binary_name, funasr_binary_path, vad_model_file_name, vad_model_path};
use crate::paths::{path_exists, path_file_name, spec_path_file_name, spec_path_join};
use crate::text::{concat_str, decimal, lemma_decimal_digits, lemma_decimal_injective, push_decimal, result_view, spec_utf8_lossy, str_chars, str_eq, string_from_chars, utf8_lossy};
use crate::transcript::{clean_transcript, cleaned_text, empty_result_message};

verus! {

/// The files that one local transcription uses.
#[derive(Clone)]
pub struct LocalWhisper {
    binary_path: String,
    model_path: String,
    vad_path: Option<String>,
}

/// The arguments given to the runtime: model, audio file, `--keep-tags` for
/// the F16 model, and the VAD model when there is one.
pub open spec fn spec_command_args(
    model: Seq<char>,
    wav: Seq<char>,
    keep_tags: bool,
    vad: Option<Seq<char>>,
) -> Seq<Seq<char>> {
    seq!["-m"@, model, "-a"@, wav] + (if keep_tags {
        seq!["--keep-tags"@]
    } else {
        Seq::<Seq<char>>::empty()
    }) + match vad {
        Some(v) => seq!["--vad"@, v],
        None => Seq::<Seq<char>>::empty(),
    }
}

/// The model needs `--keep-tags`: its file name is exactly the F16 model's.
pub open spec fn spec_keeps_tags(model_path: Seq<char>) -> bool {
    spec_path_file_name(model_path) == Some(f16_model_file_name())
}

/// The name of the temporary audio file of one transcription, unique per
/// process id and counter value.
pub open spec fn spec_temp_wav_file_name(pid: nat, counter: nat) -> Seq<char> {
    "lingyu_input_"@ + decimal(pid) + "_"@ + decimal(counter) + ".wav"@
}

/// What one run of the runtime yields: its error output when it failed,
/// otherwise the cleaned text of its output, which must not be empty.
pub open spec fn spec_run_result(success: bool, stdout: Seq<u8>, stderr: Seq<u8>) -> Result<
    Seq<char>,
    Seq<char>,
> {
    if !success {
        Err("FunASR 识别失败："@ + spec_utf8_lossy(stderr))
    } else {
        let t = cleaned_text(spec_utf8_lossy(stdout));
        if t.len() == 0 {
            Err(empty_result_message())
        } else {
            Ok(t)
        }
    }
}

/// The check made before a run: the runtime, then the model, must exist.
pub open spec fn spec_files_check(binary_exists: bool, model_exists: bool) -> Result<(), Seq<char>> {
    if !binary_exists {
        Err("FunASR 二进制未找到"@)
    } else if !model_exists {
        Err("模型文件未找到"@)
    } else {
        Ok(())
    }
}

impl LocalWhisper {
    /// Where the runtime executable is.
    pub closed spec fn spec_binary_path(&self) -> Seq<char> {
        self.binary_path@
    }

    /// Where the model is.
    pub closed spec fn spec_model_path(&self) -> Seq<char> {
        self.model_path@
    }

    /// Where the VAD model is, when one is used.
    pub closed spec fn spec_vad_path(&self) -> Option<Seq<char>> {
        match self.vad_path {
            Some(v) => Some(v@),
            None => None,
        }
    }

    /// The transcriber for the runtime in `bin_dir` and the model at
    /// `model_path`; the VAD model in `models_dir` is used when it is
    /// present on disk.  Building one always succeeds.
    pub fn new(bin_dir: &str, model_path: &str, models_dir: &str) -> (r: Result<Self, String>)
        ensures
            r is Ok,
            r matches Ok(w) ==> {
                &&& w.spec_binary_path() == spec_path_join(bin_dir@, funasr_binary_name())
                &&& w.spec_model_path() == model_path@
                &&& (w.spec_vad_path() is None || w.spec_vad_path() == Some(
                    spec_path_join(models_dir@, vad_model_file_name()),
                ))
            },
    {
        let vad = vad_model_path(models_dir);
        let present = path_exists(vad.as_str());
        Ok(Self::assemble(bin_dir, model_path, models_dir, present))
    }

    /// The transcriber for the given directories, with the VAD model used
    /// exactly when `vad_present`.
    pub fn assemble(bin_dir: &str, model_path: &str, models_dir: &str, vad_present: bool) -> (r: Self)
        ensures
            r.spec_binary_path() == spec_path_join(bin_dir@, funasr_binary_name()),
            r.spec_model_path() == model_path@,
            r.spec_vad_path() == (if vad_present {
                Some(spec_path_join(models_dir@, vad_model_file_name()))
            } else {
                None
            }),
    {
        LocalWhisper {
            binary_path: funasr_binary_path(bin_dir),
            model_path: String::from_str(model_path),
            vad_path: if vad_present {
                Some(vad_model_path(models_dir))
            } else {
                None
            },
        }
    }

    /// Where the runtime executable is.
    pub fn binary_path(&self) -> (r: &str)
        ensures
            r@ == self.spec_binary_path(),
    {
        self.binary_path.as_str()
    }

    /// Where the model is.
    pub fn model_path(&self) -> (r: &str)
        ensures
            r@ == self.spec_model_path(),
    {
        self.model_path.as_str()
    }

    /// Where the VAD model is, when one is used.
    pub fn vad_path(&self) -> (r: Option<&str>)
        ensures
            match r {
                Some(v) => self.spec_vad_path() == Some(v@),
                None => self.spec_vad_path() is None,
            },
    {
        match &self.vad_path {
            Some(v) => Some(v.as_str()),
            None => None,
        }
    }

    /// The model needs `--keep-tags` (see [`spec_keeps_tags`]).
    pub fn keeps_tags(&self) -> (r: bool)
        ensures
            r == spec_keeps_tags(self.spec_model_path()),
    {
        match path_file_name(self.model_path.as_str()) {
            Some(name) => {
                let presets = crate::config::local_model_presets();
                proof {
                    assert(presets@[1]@ == crate::config::spec_local_model_presets()[1]);
                }
                str_eq(name.as_str(), presets[1].file_name)
            },
            None => false,
        }
    }

    /// The arguments for transcribing the audio file at `wav_path`.
    pub fn command_args(&self, wav_path: &str) -> (r: Vec<String>)
        ensures
            r.len() == spec_command_args(
                self.spec_model_path(),
                wav_path@,
                spec_keeps_tags(self.spec_model_path()),
                self.spec_vad_path(),
            ).len(),
            forall|i: int|
                0 <= i < r.len() ==> #[trigger] r@[i]@ == spec_command_args(
                    self.spec_model_path(),
                    wav_path@,
                    spec_keeps_tags(self.spec_model_path()),
                    self.spec_vad_path(),
                )[i],
    {
        let keep = self.keeps_tags();
        let mut r: Vec<String> = Vec::new();
        r.push(String::from_str("-m"));
        r.push(String::from_str(self.model_path.as_str()));
        r.push(String::from_str("-a"));
        r.push(String::from_str(wav_path));
        if keep {
            r.push(String::from_str("--keep-tags"));
        }
        match &self.vad_path {
            Some(v) => {
                r.push(String::from_str("--vad"));
                r.push(String::from_str(v.as_str()));
            },
            None => {},
        }
        proof {
            let s = spec_command_args(
                self.spec_model_path(),
                wav_path@,
                spec_keeps_tags(self.spec_model_path()),
                self.spec_vad_path(),
            );
            assert forall|i: int| 0 <= i < r.len() implies #[trigger] r@[i]@ == s[i] by {}
        }
        r
    }

    /// The check made before a run (see [`spec_files_check`]).
    pub fn check_files(binary_exists: bool, model_exists: bool) -> (r: Result<(), String>)
        ensures
            match r {
                Ok(()) => spec_files_check(binary_exists, model_exists) is Ok,
                Err(e) => spec_files_check(binary_exists, model_exists) == Err::<(), Seq<char>>(e@),
            },
    {
        if !binary_exists {
            Err(String::from_str("FunASR 二进制未找到"))
        } else if !model_exists {
            Err(String::from_str("模型文件未找到"))
        } else {
            Ok(())
        }
    }

    /// What a run of the runtime yields, given whether it exited
    /// successfully and what it printed (see [`spec_run_result`]).
    pub fn read_output(success: bool, stdout: &[u8], stderr: &[u8]) -> (r: Result<String, String>)
        ensures
            result_view(r) == spec_run_result(success, stdout@, stderr@),
    {
        if !success {
            let err = utf8_lossy(stderr);
            return Err(concat_str("FunASR 识别失败：", err.as_str()));
        }
        let raw = utf8_lossy(stdout);
        clean_transcript(raw.as_str())
    }
}

/// The name of the temporary audio file for process `pid` and the
/// process's `counter`-th transcription (see [`spec_temp_wav_file_name`]).
pub fn temp_wav_file_name(pid: u32, counter: u64) -> (r: String)
    ensures
        r@ == spec_temp_wav_file_name(pid as nat, counter as nat),
{
    let mut chars = str_chars("lingyu_input_");
    push_decimal(pid as u64, &mut chars);
    let sep = str_chars("_");
    proof {
        reveal_strlit("_");
        assert(sep@.len() == 1);
    }
    chars.push(sep[0]);
    let ghost before = chars@;
    push_decimal(counter, &mut chars);
    let tail = str_chars(".wav");
    let mut k: usize = 0;
    let ghost mid = chars@;
    while k < tail.len()
        invariant
            k <= tail.len(),
            tail@ == ".wav"@,
            chars@ == mid + tail@.take(k as int),
        decreases tail.len() - k,
    {
        chars.push(tail[k]);
        k = k + 1;
        proof {
            assert(chars@ =~= mid + tail@.take(k as int));
        }
    }
    proof {
        assert(tail@.take(tail.len() as int) =~= tail@);
        assert(seq![sep@[0]] =~= "_"@);
        assert(chars@ =~= spec_temp_wav_file_name(pid as nat, counter as nat));
    }
    string_from_chars(chars.as_slice())
}

/// Distinct process ids or counter values give distinct temporary file
/// names, so concurrent recordings never share a file.
pub proof fn lemma_temp_wav_file_names_distinct(p1: nat, c1: nat, p2: nat, c2: nat)
    requires
        spec_temp_wav_file_name(p1, c1) == spec_temp_wav_file_name(p2, c2),
    ensures
        p1 == p2,
        c1 == c2,
{
    let pre = "lingyu_input_"@;
    let suf = ".wav"@;
    let u = "_"@;
    reveal_strlit("_");
    let m1 = decimal(p1) + u + decimal(c1);
    let m2 = decimal(p2) + u + decimal(c2);
    let n1 = spec_temp_wav_file_name(p1, c1);
    assert(n1 =~= pre + m1 + suf);
    assert(spec_temp_wav_file_name(p2, c2) =~= pre + m2 + suf);
    assert(m1.len() == m2.len());
    assert(m1 =~= n1.subrange(pre.len() as int, (pre.len() + m1.len()) as int));
    assert(m2 =~= n1.subrange(pre.len() as int, (pre.len() + m2.len()) as int));
    lemma_decimal_digits(p1);
    lemma_decimal_digits(p2);
    lemma_decimal_digits(c1);
    lemma_decimal_digits(c2);
    let l1 = decimal(p1).len();
    let l2 = decimal(p2).len();
    if l1 < l2 {
        assert(m1[l1 as int] == '_');
        assert(m2[l1 as int] == decimal(p2)[l1 as int]);
    } else if l2 < l1 {
        assert(m2[l2 as int] == '_');
        assert(m1[l2 as int] == decimal(p1)[l2 as int]);
    } else {
        assert(decimal(p1) =~= m1.subrange(0, l1 as int));
        assert(decimal(p2) =~= m2.subrange(0, l2 as int));
        lemma_decimal_injective(p1, p2);
        assert(decimal(c1) =~= m1.subrange((l1 + 1) as int, m1.len() as int));
        assert(decimal(c2) =~= m2.subrange((l2 + 1) as int, m2.len() as int));
        lemma_decimal_injective(c1, c2);
    }
}

/// The temporary file names that one process hands out: each call takes
/// the next counter value, so no two calls get the same name.
pub struct TempWavNames {
    pid: u32,
    next: u64,
}

impl TempWavNames {
    /// The process id that the names carry.
    pub closed spec fn spec_pid(&self) -> nat {
        self.pid as nat
    }

    /// The counter value that the next name will carry; every name handed
    /// out so far carries a smaller one.
    pub closed spec fn spec_next(&self) -> nat {
        self.next as nat
    }

    /// The names of process `pid`, before any was handed out.
    pub fn new(pid: u32) -> (r: TempWavNames)
        ensures
            r.spec_pid() == pid as nat,
            r.spec_next() == 0,
    {
        TempWavNames { pid, next: 0 }
    }

    /// The name for the next transcription, with a counter value that no
    /// earlier call got; `None` once the counter has no fresh value left.
    pub fn next_name(&mut self) -> (r: Option<String>)
        ensures
            final(self).spec_pid() == old(self).spec_pid(),
            match r {
                Some(name) => {
                    &&& old(self).spec_next() < u64::MAX
                    &&& name@ == spec_temp_wav_file_name(old(self).spec_pid(), old(self).spec_next())
                    &&& final(self).spec_next() == old(self).spec_next() + 1
                },
                None => old(self).spec_next() == u64::MAX && final(self).spec_next() == old(
                    self,
                ).spec_next(),
            },
    {
        if self.next == u64::MAX {
            return None;
        }
        let name = temp_wav_file_name(self.pid, self.next);
        self.next = self.next + 1;
        Some(name)
    }
}

/// Two calls of [`TempWavNames::next_name`] on the same names never give
/// the same file: the later call's counter is larger than every counter
/// handed out before it, and different counters give different names.
pub proof fn lemma_handed_out_names_distinct(pid: nat, earlier: nat, later: nat)
    requires
        earlier < later,
    ensures
        spec_temp_wav_file_name(pid, earlier) != spec_temp_wav_file_name(pid, later),
{
    if spec_temp_wav_file_name(pid, earlier) == spec_temp_wav_file_name(pid, later) {
        lemma_temp_wav_file_names_distinct(pid, earlier, pid, later);
    }
}

} // verus!
