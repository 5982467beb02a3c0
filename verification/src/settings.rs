//! The rules that the history database applies to what it stores and shows:
//! which setting keys are accepted, how long a stored value may be, and how
//! the history is listed.

use vstd::prelude::*;
use crate::text::{
    char_utf8_width, concat_str, lemma_utf8_len_is_encoding_len, lemma_utf8_len_take_mono, starts_with,
    str_chars, str_eq, str_starts_with, string_from_chars, utf8_len,
};

verus! {

/// The longest value, in UTF-8 bytes, that a setting stores.
pub const MAX_SETTING_BYTES: usize = 4096;

/// How many transcriptions the history shows.
pub const HISTORY_LIMIT: usize = 50;

/// The prefixes that a setting key must begin with.
pub open spec fn spec_setting_prefixes() -> Seq<Seq<char>> {
    seq![
        "transcription_mode"@,
        "window_x"@,
        "window_y"@,
        "api_custom_url"@,
        "api_custom_key"@,
        "api_custom_model"@,
        "api_key_"@,
        "always_on_top"@,
        "record_shortcut"@,
    ]
}

/// A setting key is accepted when it begins with one of the prefixes
/// (a key equal to a prefix included).
pub open spec fn spec_key_allowed(key: Seq<char>) -> bool {
    exists|i: int| 0 <= i < spec_setting_prefixes().len() && starts_with(key, #[trigger] spec_setting_prefixes()[i])
}

/// `t` is what a setting stores of `value`: the longest prefix of whole
/// characters whose UTF-8 encoding fits in the limit.
pub open spec fn is_stored_value(value: Seq<char>, t: Seq<char>) -> bool {
    &&& t.len() <= value.len()
    &&& t == value.take(t.len() as int)
    &&& utf8_len(t) <= MAX_SETTING_BYTES
    &&& (t.len() == value.len() || utf8_len(value.take((t.len() + 1) as int)) > MAX_SETTING_BYTES)
}

/// The message for a refused key.
pub open spec fn unknown_key_message(key: Seq<char>) -> Seq<char> {
    "未知键："@ + key
}

/// The prefixes that a setting key must begin with.
pub fn valid_setting_prefixes() -> (r: Vec<&'static str>)
    ensures
        r.len() == spec_setting_prefixes().len(),
        forall|i: int| 0 <= i < r.len() ==> #[trigger] r@[i]@ == spec_setting_prefixes()[i],
{
    let mut r: Vec<&'static str> = Vec::new();
    r.push("transcription_mode");
    r.push("window_x");
    r.push("window_y");
    r.push("api_custom_url");
    r.push("api_custom_key");
    r.push("api_custom_model");
    r.push("api_key_");
    r.push("always_on_top");
    r.push("record_shortcut");
    r
}

/// The key is accepted (see [`spec_key_allowed`]).
pub fn setting_key_allowed(key: &str) -> (r: bool)
    ensures
        r == spec_key_allowed(key@),
{
    let prefixes = valid_setting_prefixes();
    let mut i: usize = 0;
    while i < prefixes.len()
        invariant
            prefixes.len() == spec_setting_prefixes().len(),
            forall|k: int| 0 <= k < prefixes.len() ==> #[trigger] prefixes@[k]@ == spec_setting_prefixes()[k],
            i <= prefixes.len(),
            forall|k: int| 0 <= k < i ==> !starts_with(key@, #[trigger] spec_setting_prefixes()[k]),
        decreases prefixes.len() - i,
    {
        let p = prefixes[i];
        proof {
            assert(p@ == spec_setting_prefixes()[i as int]);
        }
        if str_eq(key, p) || str_starts_with(key, p) {
            proof {
                if key@ == p@ {
                    assert(key@.subrange(0, p@.len() as int) =~= p@);
                }
            }
            return true;
        }
        i = i + 1;
    }
    false
}

/// What a setting stores of `value` (see [`is_stored_value`]): the value cut
/// at the last character boundary within the limit.
pub fn stored_setting_value(value: &str) -> (r: String)
    ensures
        is_stored_value(value@, r@),
{
    let chars = str_chars(value);
    let n = chars.len();
    let mut total: usize = 0;
    let mut k: usize = 0;
    while k < n && total + char_utf8_width(chars[k]) <= MAX_SETTING_BYTES
        invariant
            n == chars.len(),
            chars@ == value@,
            k <= n,
            total == utf8_len(chars@.take(k as int)),
            total <= MAX_SETTING_BYTES,
        decreases n - k,
    {
        proof {
            assert(chars@.take(k + 1).drop_last() =~= chars@.take(k as int));
        }
        total = total + char_utf8_width(chars[k]);
        k = k + 1;
    }
    proof {
        if k < n {
            assert(chars@.take(k + 1).drop_last() =~= chars@.take(k as int));
        }
    }
    let mut out: Vec<char> = Vec::new();
    let mut j: usize = 0;
    while j < k
        invariant
            j <= k <= n,
            n == chars.len(),
            out@ == chars@.take(j as int),
        decreases k - j,
    {
        out.push(chars[j]);
        j = j + 1;
        proof {
            assert(out@ =~= chars@.take(j as int));
        }
    }
    proof {
        assert(out@.len() == k);
        assert(chars@.take(k as int).take(k as int) =~= chars@.take(k as int));
    }
    string_from_chars(out.as_slice())
}

/// Checks a setting before it is stored: the value to store for an
/// accepted key, or the refusal of an unknown key.
pub fn prepare_setting(key: &str, value: &str) -> (r: Result<String, String>)
    ensures
        match r {
            Ok(t) => spec_key_allowed(key@) && is_stored_value(value@, t@),
            Err(e) => !spec_key_allowed(key@) && e@ == unknown_key_message(key@),
        },
{
    if !setting_key_allowed(key) {
        return Err(concat_str("未知键：", key));
    }
    Ok(stored_setting_value(value))
}

/// What a setting stores of a value is determined by the value: there is
/// exactly one longest prefix within the limit.
pub proof fn lemma_stored_value_unique(value: Seq<char>, t1: Seq<char>, t2: Seq<char>)
    requires
        is_stored_value(value, t1),
        is_stored_value(value, t2),
    ensures
        t1 == t2,
{
    if t1.len() < t2.len() {
        lemma_utf8_len_take_mono(value, (t1.len() + 1) as int, t2.len() as int);
    } else if t2.len() < t1.len() {
        lemma_utf8_len_take_mono(value, (t2.len() + 1) as int, t1.len() as int);
    }
}

/// A value whose UTF-8 encoding fits in the limit is stored whole, and a
/// stored value never exceeds the limit in UTF-8 bytes (the length that
/// `str::len` reports) and never ends inside a character.
pub proof fn lemma_stored_value_bytes(value: Seq<char>, t: Seq<char>)
    requires
        is_stored_value(value, t),
    ensures
        vstd::utf8::encode_utf8(t).len() <= MAX_SETTING_BYTES,
        vstd::utf8::encode_utf8(value).len() <= MAX_SETTING_BYTES ==> t == value,
{
    lemma_utf8_len_is_encoding_len(t);
    lemma_utf8_len_is_encoding_len(value);
    if utf8_len(value) <= MAX_SETTING_BYTES && t.len() < value.len() {
        lemma_utf8_len_take_mono(value, (t.len() + 1) as int, value.len() as int);
        assert(value.take(value.len() as int) =~= value);
    }
    if t.len() == value.len() {
        assert(value.take(value.len() as int) =~= value);
    }
}

/// Every listed setting name is itself an accepted key.
pub proof fn lemma_listed_keys_allowed(i: int)
    requires
        0 <= i < spec_setting_prefixes().len(),
    ensures
        spec_key_allowed(spec_setting_prefixes()[i]),
{
    let p = spec_setting_prefixes()[i];
    assert(p.subrange(0, p.len() as int) =~= p);
}

/// One transcription in the history.
pub struct Transcription {
    pub _id: i64,
    pub text: String,
    pub created_at: String,
}

/// The history listing of `entries`: one paragraph per entry, with its time
/// in brackets before its text.
pub open spec fn spec_history_entries(entries: Seq<Transcription>) -> Seq<char>
    decreases entries.len(),
{
    if entries.len() == 0 {
        seq![]
    } else {
        spec_history_entries(entries.drop_last()) + "["@ + entries.last().created_at@ + "] "@
            + entries.last().text@ + "\n\n"@
    }
}

/// The text of the history dialog: the listing of the entries, or a warning
/// when the history could not be read.
pub open spec fn spec_history_text(entries: Option<Seq<Transcription>>) -> Seq<char> {
    match entries {
        Some(es) => spec_history_entries(es),
        None => "数据库可能已损坏"@,
    }
}

/// The text of the history dialog (see [`spec_history_text`]); `None`
/// stands for a history that could not be read.
pub fn history_text(entries: Option<&Vec<Transcription>>) -> (r: String)
    ensures
        r@ == spec_history_text(
            match entries {
                Some(es) => Some(es@),
                None => None,
            },
        ),
{
    match entries {
        None => String::from_str("数据库可能已损坏"),
        Some(es) => {
            let mut out = String::new();
            let mut i: usize = 0;
            while i < es.len()
                invariant
                    i <= es.len(),
                    out@ == spec_history_entries(es@.take(i as int)),
                decreases es.len() - i,
            {
                let e = &es[i];
                out.append("[");
                out.append(e.created_at.as_str());
                out.append("] ");
                out.append(e.text.as_str());
                out.append("\n\n");
                proof {
                    assert(es@.take(i + 1).drop_last() =~= es@.take(i as int));
                    assert(es@.take(i + 1).last() == es@[i as int]);
                }
                i = i + 1;
            }
            proof {
                assert(es@.take(es.len() as int) =~= es@);
            }
            out
        },
    }
}

} // verus!
