//! The push-to-talk hotkey: the keys that can be chosen, their virtual-key
//! codes, reading keyboard events from raw input data, and the decisions of
//! the elevated helper's timer.

use vstd::prelude::*;
use crate::text::{str_chars, str_eq, string_from_chars, trim, trim_chars};

verus! {

/// The keys offered for the hotkey, in dialog order.
pub open spec fn spec_shortcut_keys() -> Seq<Seq<char>> {
    seq!["F1"@, "F2"@, "F3"@, "F4"@, "F5"@, "F6"@, "F7"@, "F8"@, "F9"@, "F10"@, "F11"@, "F12"@]
}

/// The position of the first key of `keys` named `name`.
pub open spec fn find_key(keys: Seq<Seq<char>>, name: Seq<char>) -> Option<nat>
    decreases keys.len(),
{
    if keys.len() == 0 {
        None
    } else if keys[0] == name {
        Some(0)
    } else {
        match find_key(keys.drop_first(), name) {
            Some(i) => Some(i + 1),
            None => None,
        }
    }
}

/// The virtual-key code of F1; F1..F12 have consecutive codes.
pub const VK_F1: u32 = 0x70;

/// The virtual-key code of F10, the default hotkey.
pub const VK_F10: u32 = 0x79;

/// The position of the default hotkey F10 in the dialog.
pub const DEFAULT_SHORTCUT_INDEX: usize = 9;

/// The virtual-key code of the key named `name`: F1..F12 have their codes,
/// any other name stands for F10.
pub open spec fn spec_shortcut_vk(name: Seq<char>) -> u32 {
    match find_key(spec_shortcut_keys(), name) {
        Some(i) => (VK_F1 + i) as u32,
        None => VK_F10,
    }
}

/// The dialog position of the key named `name`, F10's for any other name.
pub open spec fn spec_shortcut_index(name: Seq<char>) -> nat {
    match find_key(spec_shortcut_keys(), name) {
        Some(i) => i,
        None => DEFAULT_SHORTCUT_INDEX as nat,
    }
}

/// The hotkey name kept in the shortcut file: its content without
/// surrounding white space, or F10 when the file cannot be read.
pub open spec fn spec_shortcut_from_file(content: Option<Seq<char>>) -> Seq<char> {
    match content {
        Some(c) => trim(c),
        None => "F10"@,
    }
}

/// The keys offered for the hotkey, in dialog order.
pub fn shortcut_keys() -> (r: Vec<&'static str>)
    ensures
        r.len() == spec_shortcut_keys().len(),
        forall|i: int| 0 <= i < r.len() ==> #[trigger] r@[i]@ == spec_shortcut_keys()[i],
{
    let mut r: Vec<&'static str> = Vec::new();
    r.push("F1");
    r.push("F2");
    r.push("F3");
    r.push("F4");
    r.push("F5");
    r.push("F6");
    r.push("F7");
    r.push("F8");
    r.push("F9");
    r.push("F10");
    r.push("F11");
    r.push("F12");
    r
}

/// The position of the key named `name` among the offered keys.
pub fn find_shortcut(name: &str) -> (r: Option<usize>)
    ensures
        match r {
            Some(i) => find_key(spec_shortcut_keys(), name@) == Some(i as nat),
            None => find_key(spec_shortcut_keys(), name@) is None,
        },
{
    let keys = shortcut_keys();
    let ghost ks = spec_shortcut_keys();
    let mut i: usize = 0;
    proof {
        assert(ks.skip(0) =~= ks);
    }
    while i < keys.len()
        invariant
            ks == spec_shortcut_keys(),
            keys.len() == ks.len(),
            forall|k: int| 0 <= k < keys.len() ==> #[trigger] keys@[k]@ == ks[k],
            i <= keys.len(),
            find_key(ks, name@) == match find_key(ks.skip(i as int), name@) {
                Some(j) => Some((j + i) as nat),
                None => None::<nat>,
            },
        decreases keys.len() - i,
    {
        let ghost q = ks.skip(i as int);
        proof {
            assert(q[0] == ks[i as int]);
            assert(q.drop_first() =~= ks.skip(i + 1));
        }
        if str_eq(keys[i], name) {
            proof {
                assert(keys@[i as int]@ == q[0]);
            }
            return Some(i);
        }
        i = i + 1;
    }
    None
}

/// The virtual-key code of the key named `name` (see [`spec_shortcut_vk`]).
pub fn shortcut_vk(name: &str) -> (r: u32)
    ensures
        r == spec_shortcut_vk(name@),
{
    match find_shortcut(name) {
        Some(i) => {
            proof {
                lemma_find_key_bound(spec_shortcut_keys(), name@);
            }
            VK_F1 + (i as u32)
        },
        None => VK_F10,
    }
}

/// The dialog position of the key named `name` (see [`spec_shortcut_index`]).
pub fn shortcut_index(name: &str) -> (r: usize)
    ensures
        r == spec_shortcut_index(name@),
        r < spec_shortcut_keys().len(),
{
    proof {
        lemma_find_key_bound(spec_shortcut_keys(), name@);
    }
    match find_shortcut(name) {
        Some(i) => i,
        None => DEFAULT_SHORTCUT_INDEX,
    }
}

/// The hotkey name kept in the shortcut file (see [`spec_shortcut_from_file`]).
pub fn shortcut_from_file(content: Option<&str>) -> (r: String)
    ensures
        r@ == spec_shortcut_from_file(
            match content {
                Some(c) => Some(c@),
                None => None,
            },
        ),
{
    match content {
        Some(c) => {
            let t = trim_chars(&str_chars(c));
            string_from_chars(t.as_slice())
        },
        None => String::from_str("F10"),
    }
}

/// A position found by [`find_key`] lies within the keys.
pub proof fn lemma_find_key_bound(keys: Seq<Seq<char>>, name: Seq<char>)
    ensures
        match find_key(keys, name) {
            Some(i) => i < keys.len() && keys[i as int] == name,
            None => forall|j: int| 0 <= j < keys.len() ==> keys[j] != name,
        },
    decreases keys.len(),
{
    if keys.len() > 0 {
        lemma_find_key_bound(keys.drop_first(), name);
        if keys[0] != name {
            assert forall|j: int| 0 <= j < keys.len() && find_key(keys, name) is None implies keys[j]
                != name by {
                if j > 0 {
                    assert(keys[j] == keys.drop_first()[j - 1]);
                }
            }
        }
    }
}

/// The offered keys are pairwise distinct.
pub proof fn lemma_shortcut_keys_distinct()
    ensures
        forall|i: int, j: int|
            0 <= i < j < spec_shortcut_keys().len() ==> spec_shortcut_keys()[i]
                != spec_shortcut_keys()[j],
{
    reveal_strlit("F1");
    reveal_strlit("F2");
    reveal_strlit("F3");
    reveal_strlit("F4");
    reveal_strlit("F5");
    reveal_strlit("F6");
    reveal_strlit("F7");
    reveal_strlit("F8");
    reveal_strlit("F9");
    reveal_strlit("F10");
    reveal_strlit("F11");
    reveal_strlit("F12");
    let ks = spec_shortcut_keys();
    assert forall|i: int, j: int| 0 <= i < j < ks.len() implies ks[i] != ks[j] by {
        if ks[i].len() == ks[j].len() {
            if ks[i].len() == 2 {
                assert(ks[i][1] != ks[j][1]);
            } else {
                assert(ks[i][2] != ks[j][2]);
            }
        }
    }
}

/// The key at position `i` of a sequence of distinct keys is found at `i`.
proof fn lemma_find_key_distinct(keys: Seq<Seq<char>>, i: int)
    requires
        0 <= i < keys.len(),
        forall|a: int, b: int| 0 <= a < b < keys.len() ==> keys[a] != keys[b],
    ensures
        find_key(keys, keys[i]) == Some(i as nat),
    decreases i,
{
    if i > 0 {
        let rest = keys.drop_first();
        assert(rest[i - 1] == keys[i]);
        assert forall|a: int, b: int| 0 <= a < b < rest.len() implies rest[a] != rest[b] by {
            assert(rest[a] == keys[a + 1]);
            assert(rest[b] == keys[b + 1]);
        }
        lemma_find_key_distinct(rest, i - 1);
        assert(keys[0] != keys[i]);
    }
}

/// Each offered key selects its own consecutive virtual-key code, starting
/// at F1, and is shown at its own position in the dialog.
pub proof fn lemma_shortcut_vk_of_key(i: int)
    requires
        0 <= i < spec_shortcut_keys().len(),
    ensures
        spec_shortcut_vk(spec_shortcut_keys()[i]) == VK_F1 + i,
        spec_shortcut_index(spec_shortcut_keys()[i]) == i,
{
    lemma_shortcut_keys_distinct();
    lemma_find_key_distinct(spec_shortcut_keys(), i);
}

/// The key preselected in the dialog always selects the active hotkey: the
/// key shown at a name's dialog position has that name's virtual-key code.
/// A name that is not offered falls back to F10 in both places.
pub proof fn lemma_dialog_selection_matches_hotkey(name: Seq<char>)
    ensures
        spec_shortcut_vk(spec_shortcut_keys()[spec_shortcut_index(name) as int]) == spec_shortcut_vk(
            name,
        ),
{
    lemma_find_key_bound(spec_shortcut_keys(), name);
    lemma_shortcut_vk_of_key(spec_shortcut_index(name) as int);
}

// ── Raw keyboard input ──────────────────────────────────────────────────────

/// The raw input type of keyboard data.
pub const RIM_TYPEKEYBOARD: u32 = 1;

/// The raw keyboard flag of a key release.
pub const RI_KEY_BREAK: u16 = 1;

/// What `GetRawInputData` returns on failure.
pub const RAW_INPUT_ERROR: u32 = 0xFFFF_FFFF;

/// The little-endian 16-bit value at `at`.
pub open spec fn le_u16(buf: Seq<u8>, at: int) -> int {
    buf[at] as int + 256 * buf[at + 1] as int
}

/// The little-endian 32-bit value at `at`.
pub open spec fn le_u32(buf: Seq<u8>, at: int) -> int {
    buf[at] as int + 256 * buf[at + 1] as int + 65536 * buf[at + 2] as int + 16777216 * buf[at + 3] as int
}

/// The hotkey event in a `RAWINPUT` record that `GetRawInputData` wrote to
/// `buf` (returning `ret` and setting the size to `size`): for a keyboard
/// record of at least `min_size` bytes whose virtual key (offset 30) is
/// `target_vk`, whether the key is pressed (the break flag at offset 26 is
/// clear); nothing for any other record.
pub open spec fn spec_raw_key_event(buf: Seq<u8>, ret: u32, size: u32, min_size: u32, target_vk: u32) -> Option<
    bool,
> {
    if ret != RAW_INPUT_ERROR && size >= min_size && le_u32(buf, 0) == RIM_TYPEKEYBOARD && le_u16(buf, 30)
        == target_vk {
        Some(le_u16(buf, 26) % 2 == 0)
    } else {
        None
    }
}

/// Reads the hotkey event from raw input data (see [`spec_raw_key_event`]).
pub fn raw_key_event(buf: &[u8], ret: u32, size: u32, min_size: u32, target_vk: u32) -> (r: Option<bool>)
    requires
        buf@.len() >= 32,
    ensures
        r == spec_raw_key_event(buf@, ret, size, min_size, target_vk),
{
    if ret == RAW_INPUT_ERROR || size < min_size {
        return None;
    }
    let dw_type: u32 = (buf[0] as u32) + 256 * (buf[1] as u32) + 65536 * (buf[2] as u32) + 16777216 * (
    buf[3] as u32);
    if dw_type != RIM_TYPEKEYBOARD {
        return None;
    }
    let vkey: u16 = (buf[30] as u16) + 256 * (buf[31] as u16);
    let flags: u16 = (buf[26] as u16) + 256 * (buf[27] as u16);
    if vkey as u32 != target_vk {
        return None;
    }
    let pressed = (flags & RI_KEY_BREAK) == 0;
    proof {
        assert((flags & 1u16) == 0 <==> flags % 2 == 0) by (bit_vector);
    }
    Some(pressed)
}

// ── Elevated helper ─────────────────────────────────────────────────────────

/// The state value by which the main process asks the helper to exit.
pub const HELPER_EXIT_SIGNAL: i32 = -1;

/// What the helper does on its timer tick.
#[derive(Clone, Copy, PartialEq, Eq, Structural, Debug)]
pub enum HelperTimerAction {
    /// Leave the message loop: the main process asked the helper to exit.
    Quit,
    /// Register the hotkey again, for the given virtual key.
    Reregister(u32),
    /// Nothing changed.
    Keep,
}

/// The helper's timer decision for the shared `state`, the virtual key
/// requested in shared memory and the one currently registered.
pub open spec fn spec_helper_timer_action(state: i32, requested_vk: u32, current_vk: u32) -> HelperTimerAction {
    if state == HELPER_EXIT_SIGNAL {
        HelperTimerAction::Quit
    } else if requested_vk != current_vk {
        HelperTimerAction::Reregister(requested_vk)
    } else {
        HelperTimerAction::Keep
    }
}

/// The helper's timer decision (see [`spec_helper_timer_action`]).
pub fn helper_timer_action(state: i32, requested_vk: u32, current_vk: u32) -> (r: HelperTimerAction)
    ensures
        r == spec_helper_timer_action(state, requested_vk, current_vk),
{
    if state == HELPER_EXIT_SIGNAL {
        HelperTimerAction::Quit
    } else if requested_vk != current_vk {
        HelperTimerAction::Reregister(requested_vk)
    } else {
        HelperTimerAction::Keep
    }
}

/// The helper quits exactly when the main process wrote the exit signal,
/// whatever keys are requested and registered; otherwise it registers the
/// requested key again exactly when that key differs from the registered
/// one, and does nothing when they agree.
pub proof fn lemma_helper_timer_action(state: i32, requested_vk: u32, current_vk: u32)
    ensures
        (spec_helper_timer_action(state, requested_vk, current_vk) == HelperTimerAction::Quit) <==> state
            == HELPER_EXIT_SIGNAL,
        spec_helper_timer_action(state, requested_vk, current_vk) matches HelperTimerAction::Reregister(v)
            ==> v == requested_vk && v != current_vk && state != HELPER_EXIT_SIGNAL,
        state != HELPER_EXIT_SIGNAL && requested_vk != current_vk ==> spec_helper_timer_action(
            state,
            requested_vk,
            current_vk,
        ) == HelperTimerAction::Reregister(requested_vk),
        (spec_helper_timer_action(state, requested_vk, current_vk) == HelperTimerAction::Keep) <==> (
        state != HELPER_EXIT_SIGNAL && requested_vk == current_vk),
{
}

} // verus!
