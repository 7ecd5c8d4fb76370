//! The WebAssembly files packed in an Electron ASAR archive.
//!
//! An archive starts with a 16-byte prefix: at byte 4 the little-endian
//! size of the header pickle, at byte 12 the length of the JSON header that
//! follows at byte 16. File data starts 8 bytes after the prefix's first
//! word, at `8 + header_size`; the header gives each file's offset (a
//! decimal string) and size relative to that point.

use vstd::prelude::*;
use crate::json::{json_as_str, json_as_u64, json_get, JsonValue};
use crate::text::{concat, concat3, ends_with, has_prefix, has_suffix, parse_u64, parse_u64_seq, starts_with};

verus! {

/// A WebAssembly file found in the archive.
#[derive(Debug, Clone)]
pub struct WasmCandidate {
    pub path: String,
    pub bytes: Vec<u8>,
}

/// Where the JSON header lies and where file data starts.
#[derive(Debug, Clone, Copy, PartialEq, Eq, Structural)]
pub struct AsarLayout {
    /// The first byte after the JSON header.
    pub json_end: usize,
    /// The size of the header pickle, read at byte 4.
    pub header_size: u32,
}

/// The little-endian `u32` at `bytes[at..at + 4]`.
pub open spec fn le_u32(bytes: Seq<u8>, at: int) -> int {
    bytes[at] as int + bytes[at + 1] as int * 256 + bytes[at + 2] as int * 65536 + bytes[at + 3] as int
        * 16777216
}

/// The layout the first 16 bytes describe, or the message for an archive
/// too short or with a JSON header past its end.
pub open spec fn asar_layout_spec(path: Seq<char>, bytes: Seq<u8>) -> Result<AsarLayout, Seq<char>> {
    if bytes.len() < 16 {
        Err(path + " is too small to be an ASAR archive"@)
    } else if 16 + le_u32(bytes, 12) > usize::MAX {
        Err("Invalid ASAR header size"@)
    } else if 16 + le_u32(bytes, 12) > bytes.len() {
        Err(path + " has an invalid ASAR header"@)
    } else {
        Ok(AsarLayout { json_end: (16 + le_u32(bytes, 12)) as usize, header_size: le_u32(bytes, 4) as u32 })
    }
}

fn read_le_u32(bytes: &[u8], at: usize) -> (r: u32)
    requires
        at + 4 <= bytes@.len(),
    ensures
        r as int == le_u32(bytes@, at as int),
{
    let b0 = bytes[at] as u32;
    let b1 = bytes[at + 1] as u32;
    let b2 = bytes[at + 2] as u32;
    let b3 = bytes[at + 3] as u32;
    assert(b0 + b1 * 256 + b2 * 65536 + b3 * 16777216 <= u32::MAX) by (nonlinear_arith)
        requires
            b0 <= 255,
            b1 <= 255,
            b2 <= 255,
            b3 <= 255,
    ;
    b0 + b1 * 256 + b2 * 65536 + b3 * 16777216
}

/// Reads the fixed prefix of an archive whose contents are `bytes`; `path`
/// names the archive in messages.
pub fn asar_layout(path: &str, bytes: &[u8]) -> (r: Result<AsarLayout, String>)
    ensures
        match r {
            Ok(layout) => asar_layout_spec(path@, bytes@) == Ok::<AsarLayout, Seq<char>>(layout),
            Err(msg) => asar_layout_spec(path@, bytes@) == Err::<AsarLayout, Seq<char>>(msg@),
        },
{
    if bytes.len() < 16 {
        return Err(concat(path, " is too small to be an ASAR archive"));
    }
    let header_size = read_le_u32(bytes, 4);
    let json_size = read_le_u32(bytes, 12);
    let json_end = match 16usize.checked_add(json_size as usize) {
        Some(n) => n,
        None => return Err("Invalid ASAR header size".to_owned()),
    };
    if json_end > bytes.len() {
        return Err(concat(path, " has an invalid ASAR header"));
    }
    Ok(AsarLayout { json_end, header_size })
}

/// The bytes of the JSON header.
pub fn asar_header_bytes(bytes: &[u8], layout: AsarLayout) -> (r: Vec<u8>)
    requires
        16 <= layout.json_end <= bytes@.len(),
    ensures
        r@ == bytes@.subrange(16, layout.json_end as int),
{
    copy_range(bytes, 16, layout.json_end)
}

fn copy_range(bytes: &[u8], start: usize, end: usize) -> (r: Vec<u8>)
    requires
        start <= end <= bytes@.len(),
    ensures
        r@ == bytes@.subrange(start as int, end as int),
{
    let mut out: Vec<u8> = Vec::new();
    let mut i = start;
    while i < end
        invariant
            start <= i <= end <= bytes@.len(),
            out@ == bytes@.subrange(start as int, i as int),
        decreases end - i,
    {
        out.push(bytes[i]);
        i = i + 1;
        assert(out@ =~= bytes@.subrange(start as int, i as int));
    }
    out
}

// ---------------------------------------------------------------------------
// The header's file tree
// ---------------------------------------------------------------------------

/// A WebAssembly file named in the header: its path, offset and size.
pub type WasmEntry = (String, u64, usize);

/// The text of an entry.
pub open spec fn entry_view(e: WasmEntry) -> (Seq<char>, u64, usize) {
    (e.0@, e.1, e.2)
}

/// The path of a child `name` under `prefix`.
pub open spec fn child_path(prefix: Seq<char>, name: Seq<char>) -> Seq<char> {
    if prefix.len() == 0 {
        "/"@ + name
    } else {
        prefix + "/"@ + name
    }
}

/// The offset and size of a `.wasm` node, when the offset is a decimal
/// string and the size a `u64` that fits in a `usize`.
pub open spec fn wasm_location(child: JsonValue) -> Option<(u64, usize)> {
    let offset = match json_get(child, "offset"@) {
        Some(o) => match json_as_str(o) {
            Some(text) => parse_u64_seq(text),
            None => None,
        },
        None => None,
    };
    let size = match json_get(child, "size"@) {
        Some(s) => json_as_u64(s),
        None => None,
    };
    match (offset, size) {
        (Some(o), Some(s)) => if s <= usize::MAX {
            Some((o, s as usize))
        } else {
            None
        },
        _ => None,
    }
}

/// The `.wasm` files under `node`, whose path is `prefix`: each member of
/// its `files` object in order, a file before the files under it.
pub open spec fn wasm_entries(prefix: Seq<char>, node: JsonValue) -> Seq<(Seq<char>, u64, usize)>
    decreases node, 1nat,
{
    match node {
        JsonValue::Object(members) => match entry_lookup_files(members@) {
            Some(JsonValue::Object(files)) => {
                proof {
                    lemma_files_decrease(node, members, files);
                }
                wasm_entries_of_members(prefix, files@)
            },
            _ => Seq::empty(),
        },
        _ => Seq::empty(),
    }
}

/// The `.wasm` files under the members `files` of a directory at `prefix`.
pub open spec fn wasm_entries_of_members(prefix: Seq<char>, files: Seq<(String, JsonValue)>) -> Seq<
    (Seq<char>, u64, usize),
>
    decreases files, 0nat,
{
    if files.len() == 0 {
        Seq::empty()
    } else {
        let before = wasm_entries_of_members(prefix, files.drop_last());
        let name = files.last().0@;
        let child = files.last().1;
        let path = child_path(prefix, name);
        let own = if has_suffix(path, ".wasm"@) {
            match wasm_location(child) {
                Some(loc) => seq![(path, loc.0, loc.1)],
                None => Seq::empty(),
            }
        } else {
            Seq::empty()
        };
        before + own + wasm_entries(path, child)
    }
}

/// The `files` member among an object's members.
pub open spec fn entry_lookup_files(members: Seq<(String, JsonValue)>) -> Option<JsonValue> {
    crate::json::entry_lookup(members, "files"@)
}

pub proof fn lemma_files_decrease(node: JsonValue, members: Vec<(String, JsonValue)>, files: Vec<(String, JsonValue)>)
    requires
        node == JsonValue::Object(members),
        entry_lookup_files(members@) == Some(JsonValue::Object(files)),
    ensures
        decreases_to!(node => files@),
        decreases_to!(node => files),
{
    let i = lemma_lookup_member(members@, "files"@);
    let member = members@[i];
    assert(decreases_to!(node => node->Object_0));
    assert(node->Object_0 == members);
    assert(decreases_to!(members => members@));
    assert(decreases_to!(members@ => members@[i]));
    assert(decreases_to!(member => member.1));
    assert(member.1 == JsonValue::Object(files));
    assert(decreases_to!(member.1 => member.1->Object_0));
    assert(member.1->Object_0 == files);
    assert(decreases_to!(files => files@));
    assert(decreases_to!(node => files));
}

pub proof fn lemma_lookup_member(members: Seq<(String, JsonValue)>, key: Seq<char>) -> (i: int)
    requires
        crate::json::entry_lookup(members, key) is Some,
    ensures
        0 <= i < members.len(),
        crate::json::entry_lookup(members, key) == Some(members[i].1),
    decreases members.len(),
{
    if members[0].0@ == key {
        0
    } else {
        let j = lemma_lookup_member(members.drop_first(), key);
        j + 1
    }
}

fn child_path_of(prefix: &str, name: &str) -> (r: String)
    ensures
        r@ == child_path(prefix@, name@),
{
    if prefix.unicode_len() == 0 {
        concat("/", name)
    } else {
        concat3(prefix, "/", name)
    }
}

fn wasm_location_of(child: &JsonValue) -> (r: Option<(u64, usize)>)
    ensures
        r == wasm_location(*child),
{
    let offset = match child.get("offset") {
        Some(o) => match o.as_str() {
            Some(text) => parse_u64(text),
            None => None,
        },
        None => None,
    };
    let size = match child.get("size") {
        Some(s) => s.as_u64(),
        None => None,
    };
    match (offset, size) {
        (Some(o), Some(s)) => if s as u128 <= usize::MAX as u128 {
            Some((o, s as usize))
        } else {
            None
        },
        _ => None,
    }
}

/// The views of a list of entries.
pub open spec fn entries_view(s: Seq<WasmEntry>) -> Seq<(Seq<char>, u64, usize)> {
    s.map_values(|e: WasmEntry| entry_view(e))
}

/// Appends to `out` the `.wasm` files under the directory members `files`
/// at `prefix`.
fn collect_member_entries(prefix: &str, files: &Vec<(String, JsonValue)>, out: &mut Vec<WasmEntry>)
    ensures
        entries_view(final(out)@) == entries_view(old(out)@) + wasm_entries_of_members(prefix@, files@),
    decreases files, 0nat,
{
    let ghost start = entries_view(out@);
    let mut i: usize = 0;
    while i < files.len()
        invariant
            i <= files@.len(),
            entries_view(out@) == start + wasm_entries_of_members(
                prefix@,
                files@.subrange(0, i as int),
            ),
        decreases files@.len() - i,
    {
        let ghost prefix_members = files@.subrange(0, i + 1);
        assert(prefix_members.drop_last() =~= files@.subrange(0, i as int));
        assert(prefix_members.last() == files@[i as int]);
        let path = child_path_of(prefix, files[i].0.as_str());
        let ghost before = entries_view(out@);
        let ghost own: Seq<(Seq<char>, u64, usize)> = if has_suffix(path@, ".wasm"@) {
            match wasm_location(files@[i as int].1) {
                Some(loc) => seq![(path@, loc.0, loc.1)],
                None => Seq::empty(),
            }
        } else {
            Seq::empty()
        };
        if ends_with(path.as_str(), ".wasm") {
            if let Some((offset, size)) = wasm_location_of(&files[i].1) {
                out.push((path.clone(), offset, size));
                assert(entries_view(out@) =~= before + own);
            } else {
                assert(entries_view(out@) =~= before + own);
            }
        } else {
            assert(entries_view(out@) =~= before + own);
        }
        proof {
            assert(decreases_to!(files => files@));
            assert(decreases_to!(files@ => files@[i as int]));
            assert(decreases_to!(files@[i as int] => files@[i as int].1));
        }
        collect_asar_wasm_entries(path.as_str(), &files[i].1, out);
        i = i + 1;
        assert(entries_view(out@) =~= start + wasm_entries_of_members(
            prefix@,
            files@.subrange(0, i as int),
        ));
    }
    assert(files@.subrange(0, i as int) =~= files@);
}

/// Appends to `out` the `.wasm` files under `node`, whose path is `prefix`.
pub fn collect_asar_wasm_entries(prefix: &str, node: &JsonValue, out: &mut Vec<WasmEntry>)
    ensures
        entries_view(final(out)@) == entries_view(old(out)@) + wasm_entries(prefix@, *node),
    decreases node, 1nat,
{
    match node {
        JsonValue::Object(members) => match node.get("files") {
            Some(JsonValue::Object(files)) => {
                proof {
                    lemma_files_decrease(*node, *members, *files);
                }
                collect_member_entries(prefix, files, out);
            },
            _ => {
                assert(entries_view(out@) =~= entries_view(old(out)@) + wasm_entries(prefix@, *node));
            },
        },
        _ => {
            assert(entries_view(out@) =~= entries_view(old(out)@) + wasm_entries(prefix@, *node));
        },
    }
}

// ---------------------------------------------------------------------------
// From entries to file contents
// ---------------------------------------------------------------------------

/// Files of the desktop app and its companion are tried first.
pub open spec fn preferred_path(path: Seq<char>) -> bool {
    has_prefix(path, "/desktop-main/"@) || has_prefix(path, "/desktop-companion/"@)
}

/// The entries whose preference is `wanted`, in order.
pub open spec fn entries_with_preference(s: Seq<(Seq<char>, u64, usize)>, wanted: bool) -> Seq<
    (Seq<char>, u64, usize),
>
    decreases s.len(),
{
    if s.len() == 0 {
        Seq::empty()
    } else {
        let before = entries_with_preference(s.drop_last(), wanted);
        if preferred_path(s.last().0) == wanted {
            before.push(s.last())
        } else {
            before
        }
    }
}

/// A stable sort of the entries by preference: preferred ones first.
pub open spec fn preferred_first(s: Seq<(Seq<char>, u64, usize)>) -> Seq<(Seq<char>, u64, usize)> {
    entries_with_preference(s, true) + entries_with_preference(s, false)
}

/// At most this many files are read.
pub open spec fn max_candidates() -> int {
    12
}

/// The file one entry names, if it lies within the archive: its path and
/// byte range; the message when the range cannot be computed.
pub open spec fn candidate_range(data_start: int, len: int, e: (Seq<char>, u64, usize)) -> Result<
    Option<(Seq<char>, int, int)>,
    Seq<char>,
> {
    if e.1 > usize::MAX {
        Err("Invalid ASAR file offset"@)
    } else if data_start + e.1 > usize::MAX {
        Err("Invalid ASAR file range"@)
    } else if data_start + e.1 + e.2 > usize::MAX {
        Err("Invalid ASAR file range"@)
    } else if data_start + e.1 + e.2 <= len {
        Ok(Some((e.0, data_start + e.1, data_start + e.1 + e.2)))
    } else {
        Ok(None)
    }
}

/// The files the entries name, in order, as paths and contents; the first
/// entry whose range cannot be computed gives the message.
pub open spec fn candidates_of(bytes: Seq<u8>, data_start: int, entries: Seq<(Seq<char>, u64, usize)>) -> Result<
    Seq<(Seq<char>, Seq<u8>)>,
    Seq<char>,
>
    decreases entries.len(),
{
    if entries.len() == 0 {
        Ok(Seq::empty())
    } else {
        match candidates_of(bytes, data_start, entries.drop_last()) {
            Err(msg) => Err(msg),
            Ok(found) => match candidate_range(data_start, bytes.len() as int, entries.last()) {
                Err(msg) => Err(msg),
                Ok(Some(r)) => Ok(found.push((r.0, bytes.subrange(r.1, r.2)))),
                Ok(None) => Ok(found),
            },
        }
    }
}

/// The WebAssembly files of an archive whose contents are `bytes` and whose
/// parsed JSON header is `header`: the first 12 entries, preferred ones
/// first, that lie within the archive.
pub open spec fn asar_candidates(bytes: Seq<u8>, header_size: u32, header: JsonValue) -> Result<
    Seq<(Seq<char>, Seq<u8>)>,
    Seq<char>,
> {
    if 8 + header_size > usize::MAX {
        Err("Invalid ASAR data offset"@)
    } else {
        let ordered = preferred_first(wasm_entries(Seq::empty(), header));
        let first = if ordered.len() > max_candidates() {
            ordered.subrange(0, max_candidates())
        } else {
            ordered
        };
        candidates_of(bytes, 8 + header_size, first)
    }
}

/// The path and contents of a candidate.
pub open spec fn candidate_view(c: WasmCandidate) -> (Seq<char>, Seq<u8>) {
    (c.path@, c.bytes@)
}

fn copy_entry(e: &WasmEntry) -> (r: WasmEntry)
    ensures
        entry_view(r) == entry_view(*e),
{
    (e.0.clone(), e.1, e.2)
}

fn is_preferred(path: &str) -> (r: bool)
    ensures
        r == preferred_path(path@),
{
    starts_with(path, "/desktop-main/") || starts_with(path, "/desktop-companion/")
}

fn select_with_preference(entries: &Vec<WasmEntry>, wanted: bool, out: &mut Vec<WasmEntry>)
    ensures
        entries_view(final(out)@) == entries_view(old(out)@) + entries_with_preference(
            entries_view(entries@),
            wanted,
        ),
{
    let ghost start = entries_view(out@);
    let mut i: usize = 0;
    while i < entries.len()
        invariant
            i <= entries@.len(),
            entries_view(out@) == start + entries_with_preference(
                entries_view(entries@.subrange(0, i as int)),
                wanted,
            ),
        decreases entries@.len() - i,
    {
        let ghost before = entries_view(out@);
        assert(entries_view(entries@.subrange(0, i + 1)).drop_last() =~= entries_view(
            entries@.subrange(0, i as int),
        ));
        assert(entries_view(entries@.subrange(0, i + 1)).last() == entry_view(entries@[i as int]));
        if is_preferred(entries[i].0.as_str()) == wanted {
            out.push(copy_entry(&entries[i]));
            assert(entries_view(out@) =~= before.push(entry_view(entries@[i as int])));
        }
        i = i + 1;
    }
    assert(entries@.subrange(0, i as int) =~= entries@);
}

/// Once reading a prefix of the entries fails, reading any longer prefix
/// fails the same way.
proof fn lemma_candidates_error_persists(
    bytes: Seq<u8>,
    data_start: int,
    s: Seq<(Seq<char>, u64, usize)>,
    k: int,
    j: int,
)
    requires
        0 <= k <= j <= s.len(),
        candidates_of(bytes, data_start, s.subrange(0, k)) is Err,
    ensures
        candidates_of(bytes, data_start, s.subrange(0, j)) == candidates_of(
            bytes,
            data_start,
            s.subrange(0, k),
        ),
    decreases j - k,
{
    if j > k {
        lemma_candidates_error_persists(bytes, data_start, s, k, j - 1);
        assert(s.subrange(0, j).drop_last() =~= s.subrange(0, j - 1));
    }
}

/// Reads the files the entries name out of `bytes`.
fn read_candidates(bytes: &[u8], data_start: usize, entries: &Vec<WasmEntry>, count: usize) -> (r: Result<Vec<WasmCandidate>, String>)
    requires
        count <= entries@.len(),
    ensures
        match r {
            Ok(found) => candidates_of(bytes@, data_start as int, entries_view(entries@.subrange(0, count as int)))
                == Ok::<Seq<(Seq<char>, Seq<u8>)>, Seq<char>>(found@.map_values(|c: WasmCandidate| candidate_view(c))),
            Err(msg) => candidates_of(bytes@, data_start as int, entries_view(entries@.subrange(0, count as int)))
                == Err::<Seq<(Seq<char>, Seq<u8>)>, Seq<char>>(msg@),
        },
{
    let mut found: Vec<WasmCandidate> = Vec::new();
    let mut i: usize = 0;
    assert(entries_view(entries@.subrange(0, 0)) =~= Seq::<(Seq<char>, u64, usize)>::empty());
    assert(found@.map_values(|c: WasmCandidate| candidate_view(c)) =~= Seq::<(Seq<char>, Seq<u8>)>::empty());
    while i < count
        invariant
            count <= entries@.len(),
            i <= count,
            candidates_of(bytes@, data_start as int, entries_view(entries@.subrange(0, i as int)))
                == Ok::<Seq<(Seq<char>, Seq<u8>)>, Seq<char>>(found@.map_values(|c: WasmCandidate| candidate_view(c))),
        decreases count - i,
    {
        let ghost prefix = entries_view(entries@.subrange(0, i + 1));
        assert(prefix.drop_last() =~= entries_view(entries@.subrange(0, i as int)));
        assert(prefix.last() == entry_view(entries@[i as int]));
        let offset = entries[i].1;
        let size = entries[i].2;
        let ghost all = entries_view(entries@);
        assert(entries_view(entries@.subrange(0, i + 1)) =~= all.subrange(0, i + 1));
        assert(entries_view(entries@.subrange(0, count as int)) =~= all.subrange(0, count as int));
        if offset as u128 > usize::MAX as u128 {
            proof {
                lemma_candidates_error_persists(bytes@, data_start as int, all, i + 1, count as int);
            }
            return Err("Invalid ASAR file offset".to_owned());
        }
        let start = match data_start.checked_add(offset as usize) {
            Some(n) => n,
            None => {
                proof {
                    lemma_candidates_error_persists(bytes@, data_start as int, all, i + 1, count as int);
                }
                return Err("Invalid ASAR file range".to_owned());
            },
        };
        let end = match start.checked_add(size) {
            Some(n) => n,
            None => {
                proof {
                    lemma_candidates_error_persists(bytes@, data_start as int, all, i + 1, count as int);
                }
                return Err("Invalid ASAR file range".to_owned());
            },
        };
        let ghost before = found@.map_values(|c: WasmCandidate| candidate_view(c));
        if end <= bytes.len() {
            let contents = copy_range(bytes, start, end);
            found.push(WasmCandidate { path: entries[i].0.clone(), bytes: contents });
            assert(found@.map_values(|c: WasmCandidate| candidate_view(c)) =~= before.push(
                (entries@[i as int].0@, bytes@.subrange(start as int, end as int)),
            ));
        }
        i = i + 1;
    }
    Ok(found)
}

/// The WebAssembly files of an archive whose contents are `bytes`, laid out
/// as `layout` says, with `header` the parsed JSON header.
pub fn wasm_candidates(bytes: &[u8], layout: AsarLayout, header: &JsonValue) -> (r: Result<
    Vec<WasmCandidate>,
    String,
>)
    ensures
        match r {
            Ok(found) => asar_candidates(bytes@, layout.header_size, *header) == Ok::<
                Seq<(Seq<char>, Seq<u8>)>,
                Seq<char>,
            >(found@.map_values(|c: WasmCandidate| candidate_view(c))),
            Err(msg) => asar_candidates(bytes@, layout.header_size, *header) == Err::<
                Seq<(Seq<char>, Seq<u8>)>,
                Seq<char>,
            >(msg@),
        },
{
    let data_start = match 8usize.checked_add(layout.header_size as usize) {
        Some(n) => n,
        None => return Err("Invalid ASAR data offset".to_owned()),
    };
    let mut entries: Vec<WasmEntry> = Vec::new();
    collect_asar_wasm_entries("", header, &mut entries);
    assert(entries_view(entries@) =~= wasm_entries(""@, *header));
    let mut ordered: Vec<WasmEntry> = Vec::new();
    select_with_preference(&entries, true, &mut ordered);
    select_with_preference(&entries, false, &mut ordered);
    assert(entries_view(ordered@) =~= preferred_first(entries_view(entries@)));
    let count = if ordered.len() > 12 {
        12
    } else {
        ordered.len()
    };
    proof {
        let o = preferred_first(wasm_entries(Seq::empty(), *header));
        assert(""@ =~= Seq::<char>::empty()) by {
            reveal_strlit("");
        }
        if ordered@.len() > 12 {
            assert(entries_view(ordered@.subrange(0, count as int)) =~= o.subrange(0, 12));
        } else {
            assert(entries_view(ordered@.subrange(0, count as int)) =~= o);
        }
    }
    read_candidates(bytes, data_start, &ordered, count)
}

/// The candidates, or the message given when the archive holds none.
pub fn require_candidates(found: Vec<WasmCandidate>) -> (r: Result<Vec<WasmCandidate>, String>)
    ensures
        found@.len() == 0 ==> (r matches Err(msg) && msg@
            == "No WASM files found in the installed Splice app"@),
        found@.len() > 0 ==> (r matches Ok(list) && list@ == found@),
{
    if found.len() == 0 {
        Err("No WASM files found in the installed Splice app".to_owned())
    } else {
        Ok(found)
    }
}

/// What an archive whose contents are `bytes` yields, as paths and
/// contents: the prefix's error, or the header parse error, or the
/// WebAssembly files its header names (`path` names the archive in
/// messages).
pub open spec fn archive_candidates(path: Seq<char>, bytes: Seq<u8>) -> Result<
    Seq<(Seq<char>, Seq<u8>)>,
    Seq<char>,
> {
    match asar_layout_spec(path, bytes) {
        Err(msg) => Err(msg),
        Ok(layout) => match crate::json::json_document(bytes.subrange(16, layout.json_end as int)) {
            Err(e) => Err("Could not parse ASAR header: "@ + e),
            Ok(header) => asar_candidates(bytes, layout.header_size, header),
        },
    }
}

/// The WebAssembly files of the archive whose contents are `bytes`: its
/// prefix is read, its JSON header parsed, and the files it names taken.
pub fn asar_wasm_candidates(path: &str, bytes: &[u8]) -> (r: Result<Vec<WasmCandidate>, String>)
    ensures
        match r {
            Ok(found) => archive_candidates(path@, bytes@) == Ok::<
                Seq<(Seq<char>, Seq<u8>)>,
                Seq<char>,
            >(found@.map_values(|c: WasmCandidate| candidate_view(c))),
            Err(msg) => archive_candidates(path@, bytes@) == Err::<
                Seq<(Seq<char>, Seq<u8>)>,
                Seq<char>,
            >(msg@),
        },
{
    let layout = asar_layout(path, bytes)?;
    let header_bytes = asar_header_bytes(bytes, layout);
    let header = match crate::json::parse_json_document(header_bytes.as_slice()) {
        Ok(doc) => doc,
        Err(e) => return Err(concat("Could not parse ASAR header: ", e.as_str())),
    };
    wasm_candidates(bytes, layout, &header)
}

} // verus!
