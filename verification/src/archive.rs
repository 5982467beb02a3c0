//! Taking the FunASR runtime out of the zip archive it is distributed in.
//! The archive is read by the zip crate; choosing the entry is this
//! crate's rule: the first entry whose name ends with the executable's name.

use vstd::prelude::*;
use crate::text::{concat_str, ends_with, result_view, str_ends_with};

verus! {

/// What the zip crate reads from `archive`: the number of entries, or the
/// error's message when it is not a readable archive.
pub uninterp spec fn spec_zip_len(archive: Seq<u8>) -> Result<nat, Seq<char>>;

/// The name of entry `index` of `archive`, or the error's message.
pub uninterp spec fn spec_zip_entry_name(archive: Seq<u8>, index: nat) -> Result<Seq<char>, Seq<char>>;

/// The unpacked content of entry `index` of `archive`, or the error's message.
pub uninterp spec fn spec_zip_entry_data(archive: Seq<u8>, index: nat) -> Result<Seq<u8>, Seq<char>>;

/// Opens `archive` with `zip::ZipArchive::new` and returns its `len`.  The
/// contract claims only that the result is what the zip crate computes
/// from the bytes.
#[verifier::external_body]
fn zip_len(archive: &[u8]) -> (r: Result<usize, String>)
    ensures
        match r {
            Ok(n) => spec_zip_len(archive@) == Ok::<nat, Seq<char>>(n as nat),
            Err(e) => spec_zip_len(archive@) == Err::<nat, Seq<char>>(e@),
        },
{
    match zip::ZipArchive::new(std::io::Cursor::new(archive)) {
        Ok(a) => Ok(a.len()),
        Err(e) => Err(e.to_string()),
    }
}

/// Opens `archive` and returns the `name` of `ZipArchive::by_index(index)`.
/// The contract claims only that the result is what the zip crate computes
/// from the bytes and the index.
#[verifier::external_body]
fn zip_entry_name(archive: &[u8], index: usize) -> (r: Result<String, String>)
    ensures
        result_view(r) == spec_zip_entry_name(archive@, index as nat),
{
    let mut a = zip::ZipArchive::new(std::io::Cursor::new(archive)).map_err(|e| e.to_string())?;
    let entry = a.by_index(index).map_err(|e| e.to_string())?;
    Ok(entry.name().to_string())
}

/// Opens `archive` and reads the whole of `ZipArchive::by_index(index)`.
/// The contract claims only that the result is what the zip crate computes
/// from the bytes and the index.
#[verifier::external_body]
fn zip_entry_data(archive: &[u8], index: usize) -> (r: Result<Vec<u8>, String>)
    ensures
        match r {
            Ok(d) => spec_zip_entry_data(archive@, index as nat) == Ok::<Seq<u8>, Seq<char>>(d@),
            Err(e) => spec_zip_entry_data(archive@, index as nat) == Err::<Seq<u8>, Seq<char>>(e@),
        },
{
    let mut a = zip::ZipArchive::new(std::io::Cursor::new(archive)).map_err(|e| e.to_string())?;
    let mut entry = a.by_index(index).map_err(|e| e.to_string())?;
    let mut out = Vec::new();
    std::io::Read::read_to_end(&mut entry, &mut out).map_err(|e| e.to_string())?;
    Ok(out)
}

/// The search through entries `from..count` of `archive` for the first one
/// whose name ends with `binary_name`, whose content is the result.
pub open spec fn spec_extract_from(archive: Seq<u8>, binary_name: Seq<char>, from: nat, count: nat) -> Result<
    Seq<u8>,
    Seq<char>,
>
    decreases count - from,
{
    if from >= count {
        Err("未找到 FunASR 二进制"@)
    } else {
        match spec_zip_entry_name(archive, from) {
            Err(e) => Err("读取项失败："@ + e),
            Ok(name) => if ends_with(name, binary_name) {
                match spec_zip_entry_data(archive, from) {
                    Ok(d) => Ok(d),
                    Err(e) => Err("写入文件失败："@ + e),
                }
            } else {
                spec_extract_from(archive, binary_name, from + 1, count)
            },
        }
    }
}

/// The executable `binary_name` taken out of `archive`: the content of the
/// first entry whose name ends with it.
pub open spec fn spec_extract_binary(archive: Seq<u8>, binary_name: Seq<char>) -> Result<Seq<u8>, Seq<char>> {
    match spec_zip_len(archive) {
        Err(e) => Err("读取压缩包失败："@ + e),
        Ok(n) => spec_extract_from(archive, binary_name, 0, n),
    }
}

/// `name` ends with `suffix`, written out.
pub open spec fn has_suffix(name: Seq<char>, suffix: Seq<char>) -> bool {
    exists|prefix: Seq<char>| name == prefix + suffix
}

/// The data result that extraction gives for entry `k`.
pub open spec fn entry_result(archive: Seq<u8>, k: nat) -> Result<Seq<u8>, Seq<char>> {
    match spec_zip_entry_data(archive, k) {
        Ok(d) => Ok(d),
        Err(e) => Err("写入文件失败："@ + e),
    }
}

proof fn lemma_suffix_matches(prefix: Seq<char>, suffix: Seq<char>)
    ensures
        ends_with(prefix + suffix, suffix),
{
    let n = prefix + suffix;
    assert(n.subrange(n.len() - suffix.len(), n.len() as int) =~= suffix);
}

proof fn lemma_extract_from_entry(
    archive: Seq<u8>,
    binary_name: Seq<char>,
    from: nat,
    count: nat,
    k: nat,
    prefix: Seq<char>,
)
    requires
        from <= k < count,
        spec_zip_entry_name(archive, k) == Ok::<Seq<char>, Seq<char>>(prefix + binary_name),
        forall|j: nat|
            from <= j < k ==> ((#[trigger] spec_zip_entry_name(archive, j)) matches Ok(nm) && !has_suffix(
                nm,
                binary_name,
            )),
    ensures
        spec_extract_from(archive, binary_name, from, count) == entry_result(archive, k),
    decreases k - from,
{
    if from == k {
        lemma_suffix_matches(prefix, binary_name);
    } else {
        let nm = spec_zip_entry_name(archive, from)->Ok_0;
        assert(spec_zip_entry_name(archive, from) is Ok && !has_suffix(nm, binary_name));
        if ends_with(nm, binary_name) {
            let p = nm.subrange(0, nm.len() - binary_name.len());
            assert(nm =~= p + binary_name);
        }
        lemma_extract_from_entry(archive, binary_name, from + 1, count, k, prefix);
    }
}

proof fn lemma_extract_from_found(archive: Seq<u8>, binary_name: Seq<char>, from: nat, count: nat)
    ensures
        spec_extract_from(archive, binary_name, from, count) matches Ok(d) ==> exists|k: nat|
            from <= k < count && has_suffix(spec_zip_entry_name(archive, k)->Ok_0, binary_name)
                && spec_zip_entry_name(archive, k) is Ok && #[trigger] spec_zip_entry_data(archive, k)
                == Ok::<Seq<u8>, Seq<char>>(d),
    decreases count - from,
{
    if from < count {
        match spec_zip_entry_name(archive, from) {
            Err(_) => {},
            Ok(name) => {
                if ends_with(name, binary_name) {
                    let p = name.subrange(0, name.len() - binary_name.len());
                    assert(name =~= p + binary_name);
                    assert(has_suffix(name, binary_name));
                } else {
                    lemma_extract_from_found(archive, binary_name, from + 1, count);
                }
            },
        }
    }
}

/// The executable is taken from the first entry whose name ends with
/// `binary_name`, whatever comes before that ending (nothing at all for an
/// entry at the archive's root): when every earlier entry has a readable
/// name that does not end so, extraction gives that entry's content, or
/// the error of reading it.
pub proof fn lemma_first_matching_entry_extracted(
    archive: Seq<u8>,
    binary_name: Seq<char>,
    n: nat,
    k: nat,
    prefix: Seq<char>,
)
    requires
        spec_zip_len(archive) == Ok::<nat, Seq<char>>(n),
        k < n,
        spec_zip_entry_name(archive, k) == Ok::<Seq<char>, Seq<char>>(prefix + binary_name),
        forall|j: nat|
            j < k ==> ((#[trigger] spec_zip_entry_name(archive, j)) matches Ok(nm) && !has_suffix(
                nm,
                binary_name,
            )),
    ensures
        spec_extract_binary(archive, binary_name) == entry_result(archive, k),
{
    lemma_extract_from_entry(archive, binary_name, 0, n, k, prefix);
}

/// Whatever extraction gives is the content of an entry of the archive
/// whose name ends with `binary_name`.
pub proof fn lemma_extracted_data_is_a_matching_entry(archive: Seq<u8>, binary_name: Seq<char>)
    ensures
        spec_extract_binary(archive, binary_name) matches Ok(d) ==> exists|k: nat|
            spec_zip_len(archive) matches Ok(n) && k < n && spec_zip_entry_name(archive, k) is Ok
                && has_suffix(spec_zip_entry_name(archive, k)->Ok_0, binary_name)
                && #[trigger] spec_zip_entry_data(archive, k) == Ok::<Seq<u8>, Seq<char>>(d),
{
    if let Ok(n) = spec_zip_len(archive) {
        lemma_extract_from_found(archive, binary_name, 0, n);
    }
}

/// Takes the executable `binary_name` out of `archive` (see
/// [`spec_extract_binary`]).
pub fn extract_binary(archive: &[u8], binary_name: &str) -> (r: Result<Vec<u8>, String>)
    ensures
        match r {
            Ok(d) => spec_extract_binary(archive@, binary_name@) == Ok::<Seq<u8>, Seq<char>>(d@),
            Err(e) => spec_extract_binary(archive@, binary_name@) == Err::<Seq<u8>, Seq<char>>(e@),
        },
{
    let n = match zip_len(archive) {
        Ok(n) => n,
        Err(e) => return Err(concat_str("读取压缩包失败：", e.as_str())),
    };
    let mut i: usize = 0;
    while i < n
        invariant
            i <= n,
            spec_zip_len(archive@) == Ok::<nat, Seq<char>>(n as nat),
            spec_extract_binary(archive@, binary_name@) == spec_extract_from(
                archive@,
                binary_name@,
                i as nat,
                n as nat,
            ),
        decreases n - i,
    {
        let name = match zip_entry_name(archive, i) {
            Ok(name) => name,
            Err(e) => return Err(concat_str("读取项失败：", e.as_str())),
        };
        if str_ends_with(name.as_str(), binary_name) {
            return match zip_entry_data(archive, i) {
                Ok(d) => Ok(d),
                Err(e) => Err(concat_str("写入文件失败：", e.as_str())),
            };
        }
        i = i + 1;
    }
    Err(String::from_str("未找到 FunASR 二进制"))
}

} // verus!
