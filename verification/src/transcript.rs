//! Cleaning of the text that the FunASR (SenseVoice) runtime prints.
//!
//! The runtime prints the recognised text with special tags such as
//! `<|zh|>` or `<|nospeech|>` and may mix llama.cpp log lines into its
//! output.  Cleaning removes the tags, drops empty and log lines, joins the
//! remaining lines with `\n` and trims the result.

use vstd::prelude::*;
use crate::text::{
    chars_start_with, is_whitespace, lemma_trim_end_shape, lemma_trim_ends, lemma_trim_start_shape,
    starts_with, str_chars, string_from_chars, trim, trim_chars, trim_start,
};

verus! {

// ── Specification ───────────────────────────────────────────────────────────

/// Scans `s` left to right: the characters kept so far, and whether the
/// scan is inside a `<...>` tag.  `<` opens a tag, `>` closes it, and
/// neither of them is ever kept.
pub open spec fn strip_tags_scan(s: Seq<char>) -> (Seq<char>, bool)
    decreases s.len(),
{
    if s.len() == 0 {
        (seq![], false)
    } else {
        let (kept, in_tag) = strip_tags_scan(s.drop_last());
        let c = s.last();
        if c == '<' {
            (kept, true)
        } else if c == '>' {
            (kept, false)
        } else if !in_tag {
            (kept.push(c), in_tag)
        } else {
            (kept, in_tag)
        }
    }
}

/// `s` without its tags.
pub open spec fn strip_tags(s: Seq<char>) -> Seq<char> {
    strip_tags_scan(s).0
}

/// `line` without one trailing carriage return.
pub open spec fn drop_cr(line: Seq<char>) -> Seq<char> {
    if line.len() > 0 && line.last() == '\r' {
        line.drop_last()
    } else {
        line
    }
}

/// Scans `s` left to right: the lines completed by a `\n` so far (each
/// without its `\n` and without one `\r` before it), and the characters of
/// the line not yet completed.
pub open spec fn line_scan(s: Seq<char>) -> (Seq<Seq<char>>, Seq<char>)
    decreases s.len(),
{
    if s.len() == 0 {
        (seq![], seq![])
    } else {
        let (done, cur) = line_scan(s.drop_last());
        let c = s.last();
        if c == '\n' {
            (done.push(drop_cr(cur)), seq![])
        } else {
            (done, cur.push(c))
        }
    }
}

/// The lines of `s`, as `str::lines` splits them: at `\n` or `\r\n`, with
/// no empty line after a final line ending.
pub open spec fn lines(s: Seq<char>) -> Seq<Seq<char>> {
    let (done, cur) = line_scan(s);
    if cur.len() == 0 {
        done
    } else {
        done.push(cur)
    }
}

/// A line that holds no recognised text: empty after trimming, a comment,
/// or a log line of the runtime.
pub open spec fn is_meta_line(line: Seq<char>) -> bool {
    let t = trim(line);
    ||| t.len() == 0
    ||| starts_with(t, "#"@)
    ||| starts_with(t, "llama_"@)
    ||| starts_with(t, "main:"@)
    ||| starts_with(t, "Log "@)
}

/// The lines of `ls` that are not meta lines, in order.
pub open spec fn content_lines(ls: Seq<Seq<char>>) -> Seq<Seq<char>>
    decreases ls.len(),
{
    if ls.len() == 0 {
        seq![]
    } else {
        let rest = content_lines(ls.drop_last());
        if is_meta_line(ls.last()) {
            rest
        } else {
            rest.push(ls.last())
        }
    }
}

/// The lines of `ls` joined with `\n`.
pub open spec fn join_lines(ls: Seq<Seq<char>>) -> Seq<char>
    decreases ls.len(),
{
    if ls.len() == 0 {
        seq![]
    } else if ls.len() == 1 {
        ls[0]
    } else {
        join_lines(ls.drop_last()) + seq!['\n'] + ls.last()
    }
}

/// The cleaned text of the runtime's output `raw`.
pub open spec fn cleaned_text(raw: Seq<char>) -> Seq<char> {
    trim(join_lines(content_lines(lines(strip_tags(raw)))))
}

/// The message given when nothing was recognised.
pub open spec fn empty_result_message() -> Seq<char> {
    "识别结果为空"@
}

// ── Implementation ──────────────────────────────────────────────────────────

/// `s` without its `<...>` tags.
pub fn strip_tag_chars(s: &Vec<char>) -> (r: Vec<char>)
    ensures
        r@ == strip_tags(s@),
{
    let mut kept: Vec<char> = Vec::new();
    let mut in_tag = false;
    let n = s.len();
    let mut i: usize = 0;
    while i < n
        invariant
            n == s.len(),
            i <= n,
            strip_tags_scan(s@.take(i as int)) == (kept@, in_tag),
        decreases n - i,
    {
        let c = s[i];
        proof {
            assert(s@.take(i + 1).drop_last() =~= s@.take(i as int));
            assert(s@.take(i + 1).last() == c);
        }
        if c == '<' {
            in_tag = true;
        } else if c == '>' {
            in_tag = false;
        } else if !in_tag {
            kept.push(c);
        }
        i = i + 1;
    }
    proof {
        assert(s@.take(n as int) =~= s@);
    }
    kept
}

/// `line` is a meta line (see [`is_meta_line`]).
pub fn line_is_meta(line: &Vec<char>) -> (r: bool)
    ensures
        r == is_meta_line(line@),
{
    let t = trim_chars(line);
    t.len() == 0 || chars_start_with(&t, &str_chars("#")) || chars_start_with(
        &t,
        &str_chars("llama_"),
    ) || chars_start_with(&t, &str_chars("main:")) || chars_start_with(&t, &str_chars("Log "))
}

/// Appends `line` to the joined text `out` when it is a content line.
fn add_line(out: &mut Vec<char>, any: &mut bool, line: &Vec<char>, ghost_done: Ghost<Seq<Seq<char>>>)
    requires
        old(out)@ == join_lines(content_lines(ghost_done@)),
        *old(any) == (content_lines(ghost_done@).len() > 0),
    ensures
        final(out)@ == join_lines(content_lines(ghost_done@.push(line@))),
        *final(any) == (content_lines(ghost_done@.push(line@)).len() > 0),
{
    let ghost done = ghost_done@;
    proof {
        assert(done.push(line@).drop_last() =~= done);
    }
    if !line_is_meta(line) {
        let ghost before = content_lines(done);
        if *any {
            out.push('\n');
        }
        let mut k: usize = 0;
        let ghost base = out@;
        while k < line.len()
            invariant
                k <= line.len(),
                out@ == base + line@.take(k as int),
            decreases line.len() - k,
        {
            out.push(line[k]);
            k = k + 1;
            proof {
                assert(out@ =~= base + line@.take(k as int));
            }
        }
        proof {
            assert(line@.take(line.len() as int) =~= line@);
            let after = before.push(line@);
            assert(after.drop_last() =~= before);
            if before.len() == 0 {
                assert(out@ =~= line@);
            } else {
                assert(base =~= join_lines(before) + seq!['\n']);
                assert(out@ =~= join_lines(before) + seq!['\n'] + line@);
            }
        }
        *any = true;
    }
}

/// The cleaned text of the runtime's output: tags removed, empty and log
/// lines dropped, the remaining lines joined with `\n`, the whole trimmed.
/// An output with nothing left is an error.
pub fn clean_transcript(raw: &str) -> (r: Result<String, String>)
    ensures
        match r {
            Ok(t) => t@ == cleaned_text(raw@) && t@.len() > 0,
            Err(e) => cleaned_text(raw@).len() == 0 && e@ == empty_result_message(),
        },
{
    let chars = str_chars(raw);
    let stripped = strip_tag_chars(&chars);
    let n = stripped.len();
    let mut out: Vec<char> = Vec::new();
    let mut any = false;
    let mut cur: Vec<char> = Vec::new();
    let mut i: usize = 0;
    while i < n
        invariant
            n == stripped.len(),
            i <= n,
            line_scan(stripped@.take(i as int)).1 == cur@,
            out@ == join_lines(content_lines(line_scan(stripped@.take(i as int)).0)),
            any == (content_lines(line_scan(stripped@.take(i as int)).0).len() > 0),
        decreases n - i,
    {
        let c = stripped[i];
        let ghost done = line_scan(stripped@.take(i as int)).0;
        proof {
            assert(stripped@.take(i + 1).drop_last() =~= stripped@.take(i as int));
            assert(stripped@.take(i + 1).last() == c);
        }
        if c == '\n' {
            let ghost cur_v = cur@;
            let mut line = cur;
            if line.len() > 0 && line[line.len() - 1] == '\r' {
                line.pop();
                proof {
                    assert(line@ =~= drop_cr(cur_v));
                }
            }
            add_line(&mut out, &mut any, &line, Ghost(done));
            cur = Vec::new();
        } else {
            cur.push(c);
        }
        i = i + 1;
    }
    proof {
        assert(stripped@.take(n as int) =~= stripped@);
    }
    if cur.len() > 0 {
        let ghost done = line_scan(stripped@).0;
        add_line(&mut out, &mut any, &cur, Ghost(done));
    }
    let t = trim_chars(&out);
    if t.len() == 0 {
        Err(String::from_str("识别结果为空"))
    } else {
        Ok(string_from_chars(t.as_slice()))
    }
}

// ── Laws ────────────────────────────────────────────────────────────────────

/// `s` holds no tag delimiter.
pub open spec fn no_tag_delimiters(s: Seq<char>) -> bool {
    forall|i: int| 0 <= i < s.len() ==> #[trigger] s[i] != '<' && s[i] != '>'
}

proof fn lemma_strip_no_delimiters(s: Seq<char>)
    ensures
        no_tag_delimiters(strip_tags_scan(s).0),
    decreases s.len(),
{
    if s.len() > 0 {
        lemma_strip_no_delimiters(s.drop_last());
    }
}

proof fn lemma_line_scan_no_delimiters(s: Seq<char>)
    requires
        no_tag_delimiters(s),
    ensures
        no_tag_delimiters(line_scan(s).1),
        forall|k: int| 0 <= k < line_scan(s).0.len() ==> no_tag_delimiters(#[trigger] line_scan(s).0[k]),
    decreases s.len(),
{
    if s.len() > 0 {
        assert(no_tag_delimiters(s.drop_last())) by {
            assert forall|i: int| 0 <= i < s.drop_last().len() implies #[trigger] s.drop_last()[i] != '<'
                && s.drop_last()[i] != '>' by {
                assert(s.drop_last()[i] == s[i]);
            }
        }
        lemma_line_scan_no_delimiters(s.drop_last());
        assert(s.last() == s[s.len() - 1]);
    }
}

proof fn lemma_content_no_delimiters(ls: Seq<Seq<char>>)
    requires
        forall|k: int| 0 <= k < ls.len() ==> no_tag_delimiters(#[trigger] ls[k]),
    ensures
        forall|k: int| 0 <= k < content_lines(ls).len() ==> no_tag_delimiters(#[trigger] content_lines(ls)[k]),
    decreases ls.len(),
{
    if ls.len() > 0 {
        assert forall|k: int| 0 <= k < ls.drop_last().len() implies no_tag_delimiters(#[trigger] ls.drop_last()[k]) by {
            assert(ls.drop_last()[k] == ls[k]);
        }
        lemma_content_no_delimiters(ls.drop_last());
        assert(ls.last() == ls[ls.len() - 1]);
        let rest = content_lines(ls.drop_last());
        if !is_meta_line(ls.last()) {
            assert forall|k: int| 0 <= k < rest.push(ls.last()).len() implies no_tag_delimiters(
                #[trigger] rest.push(ls.last())[k],
            ) by {
                if k < rest.len() {
                    assert(rest.push(ls.last())[k] == rest[k]);
                }
            }
        }
    }
}

proof fn lemma_join_no_delimiters(ls: Seq<Seq<char>>)
    requires
        forall|k: int| 0 <= k < ls.len() ==> no_tag_delimiters(#[trigger] ls[k]),
    ensures
        no_tag_delimiters(join_lines(ls)),
    decreases ls.len(),
{
    if ls.len() > 1 {
        assert forall|k: int| 0 <= k < ls.drop_last().len() implies no_tag_delimiters(#[trigger] ls.drop_last()[k]) by {
            assert(ls.drop_last()[k] == ls[k]);
        }
        lemma_join_no_delimiters(ls.drop_last());
        let a = join_lines(ls.drop_last());
        let b = ls.last();
        assert(no_tag_delimiters(b)) by {
            assert(b == ls[ls.len() - 1]);
        }
        let j = a + seq!['\n'] + b;
        assert forall|i: int| 0 <= i < j.len() implies #[trigger] j[i] != '<' && j[i] != '>' by {
            if i < a.len() {
                assert(j[i] == a[i]);
            } else if i == a.len() {
                assert(j[i] == '\n');
            } else {
                assert(j[i] == b[i - a.len() - 1]);
            }
        }
    } else if ls.len() == 1 {
        assert(join_lines(ls) == ls[0]);
    }
}

proof fn lemma_trim_no_delimiters(s: Seq<char>)
    requires
        no_tag_delimiters(s),
    ensures
        no_tag_delimiters(trim(s)),
{
    lemma_trim_start_shape(s);
    let a = trim_start(s);
    lemma_trim_end_shape(a);
    assert forall|i: int| 0 <= i < trim(s).len() implies #[trigger] trim(s)[i] != '<' && trim(s)[i] != '>' by {
        assert(trim(s)[i] == a[i]);
        assert(a[i] == s[i + (s.len() - a.len())]);
    }
}

/// The cleaned transcript never holds a tag delimiter `<` or `>`: every
/// special tag of the runtime is removed.
pub proof fn lemma_cleaned_text_has_no_tags(raw: Seq<char>)
    ensures
        no_tag_delimiters(cleaned_text(raw)),
{
    lemma_strip_no_delimiters(raw);
    let st = strip_tags(raw);
    lemma_line_scan_no_delimiters(st);
    let ls = lines(st);
    assert forall|k: int| 0 <= k < ls.len() implies no_tag_delimiters(#[trigger] ls[k]) by {
        let (done, cur) = line_scan(st);
        if k < done.len() {
            assert(ls[k] == done[k]);
        } else {
            assert(ls[k] == cur);
        }
    }
    lemma_content_no_delimiters(ls);
    lemma_join_no_delimiters(content_lines(ls));
    lemma_trim_no_delimiters(join_lines(content_lines(ls)));
}

/// The cleaned transcript neither begins nor ends with white space.
pub proof fn lemma_cleaned_text_trimmed(raw: Seq<char>)
    ensures
        cleaned_text(raw).len() > 0 ==> !is_whitespace(cleaned_text(raw)[0]) && !is_whitespace(
            cleaned_text(raw).last(),
        ),
{
    lemma_trim_ends(join_lines(content_lines(lines(strip_tags(raw)))));
}

} // verus!
