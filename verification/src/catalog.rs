//! Samples and packs: what the helper reports, what the UI shows, and how a
//! sample is matched to an audio file already on disk.

use vstd::prelude::*;
use crate::text::{contains, contains_seq, ends_with, has_suffix, lower_seq, str_eq, to_ascii_lowercase, trim, trim_seq};

verus! {

/// A sample as the Splice helper describes it.
#[derive(Debug, Clone)]
pub struct SampleRecord {
    pub file_hash: String,
    pub filename: String,
    pub local_path: String,
    pub bpm: i64,
    pub audio_key: String,
    pub sample_type: String,
    pub genre: String,
    pub provider_name: String,
    pub price: i64,
    pub purchased_at: i64,
    pub tags: Vec<String>,
    pub preview_url: String,
    pub waveform_url: String,
    pub duration: i64,
    pub pack_uuid: String,
}

/// A sample pack as the Splice helper describes it.
#[derive(Debug, Clone)]
pub struct SamplePackRecord {
    pub uuid: String,
    pub name: String,
    pub cover_url: String,
    pub genre: String,
    pub provider_name: String,
    pub permalink: String,
}

impl SamplePackRecord {
    /// A field-by-field copy.
    pub fn duplicate(&self) -> (r: SamplePackRecord)
        ensures
            r == *self,
    {
        SamplePackRecord {
            uuid: self.uuid.clone(),
            name: self.name.clone(),
            cover_url: self.cover_url.clone(),
            genre: self.genre.clone(),
            provider_name: self.provider_name.clone(),
            permalink: self.permalink.clone(),
        }
    }
}

/// A sample as the UI lists it.
#[derive(Debug, Clone)]
pub struct SampleSummary {
    pub file_hash: String,
    pub filename: String,
    pub local_path: String,
    pub bpm: i64,
    pub key: String,
    pub sample_type: String,
    pub genre: String,
    pub provider_name: String,
    pub price: i64,
    pub purchased: bool,
    pub tags: Vec<String>,
    pub preview_url: String,
    pub waveform_url: String,
    pub duration: i64,
    pub pack_uuid: String,
    pub pack_name: String,
    pub pack_cover_url: String,
}

/// A pack as the UI lists it.
#[derive(Debug, Clone)]
pub struct PackSummary {
    pub uuid: String,
    pub name: String,
    pub cover_url: String,
    pub banner_url: String,
    pub demo_url: String,
    pub genre: String,
    pub provider_name: String,
    pub permalink: String,
    pub sample_count: Option<i64>,
}

// ---------------------------------------------------------------------------
// Search query normalisation
// ---------------------------------------------------------------------------

/// `t` without a trailing audio extension, which is matched case-insensitively.
pub open spec fn strip_audio_extension(t: Seq<char>) -> Seq<char> {
    let lower = lower_seq(t);
    if has_suffix(lower, ".wav"@) {
        t.subrange(0, t.len() - ".wav"@.len())
    } else if has_suffix(lower, ".aif"@) {
        t.subrange(0, t.len() - ".aif"@.len())
    } else if has_suffix(lower, ".aiff"@) {
        t.subrange(0, t.len() - ".aiff"@.len())
    } else if has_suffix(lower, ".mp3"@) {
        t.subrange(0, t.len() - ".mp3"@.len())
    } else {
        t
    }
}

/// The search term sent to the helper for a query typed by the user.
pub open spec fn normalized_query(query: Seq<char>) -> Seq<char> {
    strip_audio_extension(trim_seq(query))
}

/// `t` without its last `ext@.len()` characters, when `t` ends with `ext`
/// ignoring ASCII case.
fn strip_suffix_ignoring_case(t: &str, lower: &str, ext: &str) -> (r: Option<String>)
    requires
        lower@ == lower_seq(t@),
    ensures
        match r {
            Some(s) => has_suffix(lower_seq(t@), ext@) && s@ == t@.subrange(
                0,
                t@.len() - ext@.len(),
            ),
            None => !has_suffix(lower_seq(t@), ext@),
        },
{
    if ends_with(lower, ext) {
        let n = t.unicode_len();
        let k = ext.unicode_len();
        Some(t.substring_char(0, n - k).to_owned())
    } else {
        None
    }
}

/// Strips surrounding whitespace and one trailing `.wav`, `.aif`, `.aiff` or
/// `.mp3` (in any ASCII case), so that a file name finds its sample.
pub fn normalize_search_query(query: &str) -> (out: String)
    ensures
        out@ == normalized_query(query@),
{
    let trimmed = trim(query);
    let lower = to_ascii_lowercase(trimmed);
    if let Some(s) = strip_suffix_ignoring_case(trimmed, lower.as_str(), ".wav") {
        return s;
    }
    if let Some(s) = strip_suffix_ignoring_case(trimmed, lower.as_str(), ".aif") {
        return s;
    }
    if let Some(s) = strip_suffix_ignoring_case(trimmed, lower.as_str(), ".aiff") {
        return s;
    }
    if let Some(s) = strip_suffix_ignoring_case(trimmed, lower.as_str(), ".mp3") {
        return s;
    }
    trimmed.to_owned()
}

// ---------------------------------------------------------------------------
// Index of audio files on disk
// ---------------------------------------------------------------------------

/// The paths recorded under `name`: those of the first entry with that name.
pub open spec fn files_lookup(entries: Seq<(String, Vec<String>)>, name: Seq<char>) -> Option<
    Seq<String>,
>
    decreases entries.len(),
{
    if entries.len() == 0 {
        None
    } else if entries[0].0@ == name {
        Some(entries[0].1@)
    } else {
        files_lookup(entries.drop_first(), name)
    }
}

/// Audio files found under the Splice sounds folder, grouped by file name,
/// each group in the order the files were found.
#[derive(Debug)]
pub struct LocalFileIndex {
    entries: Vec<(String, Vec<String>)>,
}

/// The index of the first entry named `name` in `entries`, if any.
pub open spec fn first_index_of(entries: Seq<(String, Vec<String>)>, name: Seq<char>, i: int) -> bool {
    0 <= i < entries.len() && entries[i].0@ == name && forall|k: int|
        0 <= k < i ==> #[trigger] entries[k].0@ != name
}

proof fn lemma_files_lookup_found(entries: Seq<(String, Vec<String>)>, name: Seq<char>, i: int)
    requires
        first_index_of(entries, name, i),
    ensures
        files_lookup(entries, name) == Some(entries[i].1@),
    decreases i,
{
    if i > 0 {
        assert(entries[0].0@ != name);
        let rest = entries.drop_first();
        assert forall|k: int| 0 <= k < i - 1 implies #[trigger] rest[k].0@ != name by {
            assert(entries[k + 1].0@ != name);
        }
        lemma_files_lookup_found(rest, name, i - 1);
    }
}

proof fn lemma_files_lookup_absent(entries: Seq<(String, Vec<String>)>, name: Seq<char>)
    requires
        forall|k: int| 0 <= k < entries.len() ==> #[trigger] entries[k].0@ != name,
    ensures
        files_lookup(entries, name) is None,
    decreases entries.len(),
{
    if entries.len() > 0 {
        let rest = entries.drop_first();
        assert forall|k: int| 0 <= k < rest.len() implies #[trigger] rest[k].0@ != name by {
            assert(entries[k + 1].0@ != name);
        }
        lemma_files_lookup_absent(rest, name);
    }
}

/// Replacing the paths of entry `i` leaves every other name's lookup alone,
/// and gives `name` the new paths when `i` is its first entry.
proof fn lemma_files_lookup_update(
    entries: Seq<(String, Vec<String>)>,
    i: int,
    new_entry: (String, Vec<String>),
    other: Seq<char>,
)
    requires
        0 <= i < entries.len(),
        new_entry.0@ == entries[i].0@,
    ensures
        other != entries[i].0@ ==> files_lookup(entries.update(i, new_entry), other)
            == files_lookup(entries, other),
        (forall|k: int| 0 <= k < i ==> #[trigger] entries[k].0@ != entries[i].0@)
            ==> files_lookup(entries.update(i, new_entry), entries[i].0@) == Some(new_entry.1@),
    decreases i,
{
    let updated = entries.update(i, new_entry);
    if i == 0 {
        assert(updated.drop_first() =~= entries.drop_first());
    } else {
        assert(updated.drop_first() =~= entries.drop_first().update(i - 1, new_entry));
        lemma_files_lookup_update(entries.drop_first(), i - 1, new_entry, other);
        if forall|k: int| 0 <= k < i ==> #[trigger] entries[k].0@ != entries[i].0@ {
            let rest = entries.drop_first();
            assert forall|k: int| 0 <= k < i - 1 implies #[trigger] rest[k].0@ != rest[i - 1].0@ by {
                assert(entries[k + 1].0@ != entries[i].0@);
            }
            assert(entries[0].0@ != entries[i].0@);
        }
    }
}

/// Appending an entry leaves every name already present alone.
proof fn lemma_files_lookup_push(
    entries: Seq<(String, Vec<String>)>,
    new_entry: (String, Vec<String>),
    other: Seq<char>,
)
    ensures
        files_lookup(entries, other) is Some ==> files_lookup(entries.push(new_entry), other)
            == files_lookup(entries, other),
        files_lookup(entries, other) is None && new_entry.0@ == other ==> files_lookup(
            entries.push(new_entry),
            other,
        ) == Some(new_entry.1@),
        files_lookup(entries, other) is None && new_entry.0@ != other ==> files_lookup(
            entries.push(new_entry),
            other,
        ) is None,
    decreases entries.len(),
{
    if entries.len() == 0 {
        let pushed = entries.push(new_entry);
        assert(pushed[0] == new_entry);
        assert(pushed.drop_first() =~= Seq::<(String, Vec<String>)>::empty());
        assert(files_lookup(pushed.drop_first(), other) is None);
    } else {
        assert(entries.push(new_entry).drop_first() =~= entries.drop_first().push(new_entry));
        lemma_files_lookup_push(entries.drop_first(), new_entry, other);
    }
}

impl LocalFileIndex {
    /// The paths recorded under each file name.
    pub closed spec fn lookup(&self, name: Seq<char>) -> Option<Seq<String>> {
        files_lookup(self.entries@, name)
    }

    /// An index with no files.
    pub fn new() -> (r: LocalFileIndex)
        ensures
            forall|name: Seq<char>| r.lookup(name) is None,
    {
        LocalFileIndex { entries: Vec::new() }
    }

    /// Records that a file called `name` was found at `path`.
    pub fn add(&mut self, name: String, path: String)
        ensures
            final(self).lookup(name@) == Some(
                match old(self).lookup(name@) {
                    Some(paths) => paths,
                    None => Seq::<String>::empty(),
                }.push(path),
            ),
            forall|other: Seq<char>|
                other != name@ ==> #[trigger] final(self).lookup(other) == old(self).lookup(other),
    {
        let ghost before = self.entries@;
        let mut i: usize = 0;
        while i < self.entries.len()
            invariant
                self.entries@ == before,
                old(self).entries@ == before,
                i <= before.len(),
                forall|k: int| 0 <= k < i ==> #[trigger] before[k].0@ != name@,
            decreases before.len() - i,
        {
            if str_eq(self.entries[i].0.as_str(), name.as_str()) {
                proof {
                    lemma_files_lookup_found(before, name@, i as int);
                }
                let (entry_name, mut paths) = self.entries.remove(i);
                let ghost old_paths = paths@;
                paths.push(path);
                let ghost new_entry = (entry_name, paths);
                self.entries.insert(i, (entry_name, paths));
                proof {
                    assert(self.entries@ =~= before.update(i as int, new_entry));
                    assert forall|other: Seq<char>| other != name@ implies files_lookup(
                        self.entries@,
                        other,
                    ) == files_lookup(before, other) by {
                        lemma_files_lookup_update(before, i as int, new_entry, other);
                    }
                    assert(before[i as int].0@ == name@);
                    assert(forall|k: int| 0 <= k < i ==> #[trigger] before[k].0@ != before[i as int].0@);
                    lemma_files_lookup_update(before, i as int, new_entry, name@);
                    assert(files_lookup(self.entries@, name@) == Some(new_entry.1@));
                    assert(old_paths == before[i as int].1@);
                    assert(new_entry.1@ =~= old_paths.push(path));
                }
                return;
            }
            i = i + 1;
        }
        proof {
            lemma_files_lookup_absent(before, name@);
        }
        let mut paths: Vec<String> = Vec::new();
        paths.push(path);
        let ghost new_entry = (name, paths);
        self.entries.push((name, paths));
        proof {
            assert forall|other: Seq<char>| other != name@ implies files_lookup(
                self.entries@,
                other,
            ) == files_lookup(before, other) by {
                lemma_files_lookup_push(before, new_entry, other);
            }
            lemma_files_lookup_push(before, new_entry, name@);
            assert(paths@ =~= Seq::<String>::empty().push(path));
        }
    }

    /// The paths recorded under `name`, in the order they were found.
    pub fn get(&self, name: &str) -> (r: Option<&Vec<String>>)
        ensures
            match r {
                Some(paths) => self.lookup(name@) == Some(paths@),
                None => self.lookup(name@) is None,
            },
    {
        let mut i: usize = 0;
        while i < self.entries.len()
            invariant
                i <= self.entries@.len(),
                forall|k: int| 0 <= k < i ==> #[trigger] self.entries@[k].0@ != name@,
            decreases self.entries@.len() - i,
        {
            if str_eq(self.entries[i].0.as_str(), name) {
                proof {
                    lemma_files_lookup_found(self.entries@, name@, i as int);
                }
                return Some(&self.entries[i].1);
            }
            i = i + 1;
        }
        proof {
            lemma_files_lookup_absent(self.entries@, name@);
        }
        None
    }
}

/// The paths of the files called `name` among `found`, in order; `None`
/// when no file has that name.
pub open spec fn found_paths(found: Seq<(String, String)>, name: Seq<char>) -> Option<Seq<String>>
    decreases found.len(),
{
    if found.len() == 0 {
        None
    } else {
        let before = found_paths(found.drop_last(), name);
        if found.last().0@ == name {
            Some(
                match before {
                    Some(paths) => paths,
                    None => Seq::<String>::empty(),
                }.push(found.last().1),
            )
        } else {
            before
        }
    }
}

/// The index of the files found under the Splice folder: `found` lists each
/// file's name and full path, in the order the folder walk met them.
pub fn index_local_audio_files(found: &Vec<(String, String)>) -> (r: LocalFileIndex)
    ensures
        forall|name: Seq<char>| #[trigger] r.lookup(name) == found_paths(found@, name),
{
    let mut index = LocalFileIndex::new();
    let mut i: usize = 0;
    while i < found.len()
        invariant
            i <= found@.len(),
            forall|name: Seq<char>| #[trigger]
                index.lookup(name) == found_paths(found@.subrange(0, i as int), name),
        decreases found@.len() - i,
    {
        index.add(found[i].0.clone(), found[i].1.clone());
        proof {
            assert(found@.subrange(0, i + 1).drop_last() =~= found@.subrange(0, i as int));
        }
        i = i + 1;
    }
    assert(found@.subrange(0, found@.len() as int) =~= found@);
    index
}

// ---------------------------------------------------------------------------
// Packs by uuid
// ---------------------------------------------------------------------------

/// The last pack in `packs` with the given uuid: collecting packs into a map
/// keyed by uuid keeps the last of several with one uuid.
pub open spec fn pack_lookup(packs: Seq<SamplePackRecord>, uuid: Seq<char>) -> Option<
    SamplePackRecord,
>
    decreases packs.len(),
{
    if packs.len() == 0 {
        None
    } else if packs.last().uuid@ == uuid {
        Some(packs.last())
    } else {
        pack_lookup(packs.drop_last(), uuid)
    }
}

/// The packs that a search matched, looked up by uuid.
#[derive(Debug)]
pub struct PackIndex {
    packs: Vec<SamplePackRecord>,
}

impl PackIndex {
    /// The pack recorded under `uuid`.
    pub closed spec fn lookup(&self, uuid: Seq<char>) -> Option<SamplePackRecord> {
        pack_lookup(self.packs@, uuid)
    }

    /// The index of `packs`, a later pack replacing an earlier one with the same uuid.
    pub fn from_packs(packs: Vec<SamplePackRecord>) -> (r: PackIndex)
        ensures
            forall|uuid: Seq<char>| #[trigger] r.lookup(uuid) == pack_lookup(packs@, uuid),
    {
        PackIndex { packs }
    }

    /// The pack recorded under `uuid`.
    pub fn get(&self, uuid: &str) -> (r: Option<&SamplePackRecord>)
        ensures
            match r {
                Some(p) => self.lookup(uuid@) == Some(*p),
                None => self.lookup(uuid@) is None,
            },
    {
        let mut i: usize = self.packs.len();
        assert(self.packs@.subrange(0, i as int) =~= self.packs@);
        while i > 0
            invariant
                i <= self.packs@.len(),
                pack_lookup(self.packs@, uuid@) == pack_lookup(
                    self.packs@.subrange(0, i as int),
                    uuid@,
                ),
            decreases i,
        {
            let ghost prefix = self.packs@.subrange(0, i as int);
            assert(prefix.drop_last() =~= self.packs@.subrange(0, i - 1));
            if str_eq(self.packs[i - 1].uuid.as_str(), uuid) {
                return Some(&self.packs[i - 1]);
            }
            i = i - 1;
        }
        None
    }
}

// ---------------------------------------------------------------------------
// Summaries
// ---------------------------------------------------------------------------

/// The paths among `paths` that contain `needle` once ASCII-lowercased.
pub open spec fn paths_containing(paths: Seq<String>, needle: Seq<char>) -> Seq<String>
    decreases paths.len(),
{
    if paths.len() == 0 {
        Seq::empty()
    } else {
        let before = paths_containing(paths.drop_last(), needle);
        if contains_seq(lower_seq(paths.last()@), needle) {
            before.push(paths.last())
        } else {
            before
        }
    }
}

/// The ASCII-lowercased name of the pack, or the empty string without one.
pub open spec fn lowered_pack_name(pack: Option<SamplePackRecord>) -> Seq<char> {
    match pack {
        Some(p) => lower_seq(p.name@),
        None => Seq::empty(),
    }
}

/// The local file for a sample that the helper reports without one: the
/// only file of that name, or else the only one of that name whose path
/// names the sample's pack; the empty string when neither is unique.
pub open spec fn matched_local_path(candidates: Option<Seq<String>>, pack: Option<SamplePackRecord>) -> Seq<char> {
    match candidates {
        None => Seq::empty(),
        Some(paths) => if paths.len() == 1 {
            paths[0]@
        } else {
            let needle = lowered_pack_name(pack);
            if needle.len() == 0 {
                Seq::empty()
            } else {
                let matches = paths_containing(paths, needle);
                if matches.len() == 1 {
                    matches[0]@
                } else {
                    Seq::empty()
                }
            }
        },
    }
}

/// The local path shown for a sample: the helper's own, else a matched file.
pub open spec fn summary_local_path(
    sample: SampleRecord,
    candidates: Option<Seq<String>>,
    pack: Option<SamplePackRecord>,
) -> Seq<char> {
    if sample.local_path@.len() > 0 {
        sample.local_path@
    } else {
        matched_local_path(candidates, pack)
    }
}

/// The summary carries the sample's own fields through unchanged.
pub open spec fn summary_copies_sample(out: SampleSummary, sample: SampleRecord) -> bool {
    &&& out.file_hash == sample.file_hash
    &&& out.filename == sample.filename
    &&& out.bpm == sample.bpm
    &&& out.key == sample.audio_key
    &&& out.sample_type == sample.sample_type
    &&& out.genre == sample.genre
    &&& out.provider_name == sample.provider_name
    &&& out.price == sample.price
    &&& out.purchased == (sample.purchased_at > 0)
    &&& out.tags == sample.tags
    &&& out.preview_url == sample.preview_url
    &&& out.waveform_url == sample.waveform_url
    &&& out.duration == sample.duration
    &&& out.pack_uuid == sample.pack_uuid
}

/// The pack behind an optional reference.
pub open spec fn deref_pack(pack: Option<&SamplePackRecord>) -> Option<SamplePackRecord> {
    match pack {
        Some(p) => Some(*p),
        None => None,
    }
}

/// `out` is the summary of `sample` given the files of its name on disk and
/// its pack.
pub open spec fn is_summary_of(
    out: SampleSummary,
    sample: SampleRecord,
    candidates: Option<Seq<String>>,
    pack: Option<SamplePackRecord>,
) -> bool {
    &&& summary_copies_sample(out, sample)
    &&& out.local_path@ == summary_local_path(sample, candidates, pack)
    &&& out.pack_name@ == match pack {
        Some(p) => p.name@,
        None => Seq::<char>::empty(),
    }
    &&& out.pack_cover_url@ == match pack {
        Some(p) => p.cover_url@,
        None => Seq::<char>::empty(),
    }
}

fn matching_local_path(paths: &Vec<String>, pack: Option<&SamplePackRecord>) -> (out: String)
    ensures
        out@ == matched_local_path(Some(paths@), deref_pack(pack)),
{
    if paths.len() == 1 {
        return paths[0].clone();
    }
    let needle = match pack {
        Some(p) => to_ascii_lowercase(p.name.as_str()),
        None => String::new(),
    };
    assert(needle@ == lowered_pack_name(deref_pack(pack)));
    if needle.as_str().is_empty() {
        return String::new();
    }
    let mut matches: Vec<String> = Vec::new();
    let mut i: usize = 0;
    while i < paths.len()
        invariant
            i <= paths@.len(),
            matches@ == paths_containing(paths@.subrange(0, i as int), needle@),
        decreases paths@.len() - i,
    {
        let lowered = to_ascii_lowercase(paths[i].as_str());
        let ghost prefix = paths@.subrange(0, i + 1);
        assert(prefix.drop_last() =~= paths@.subrange(0, i as int));
        if contains(lowered.as_str(), needle.as_str()) {
            matches.push(paths[i].clone());
        }
        i = i + 1;
    }
    assert(paths@.subrange(0, paths@.len() as int) =~= paths@);
    if matches.len() == 1 {
        matches[0].clone()
    } else {
        String::new()
    }
}

/// The UI summary of a sample. Without a local path from the helper, the
/// file is looked up by name in `local_files`; `packs` supplies the pack's
/// name and cover.
pub fn summarize_sample_with_context(
    sample: SampleRecord,
    local_files: Option<&LocalFileIndex>,
    packs: Option<&PackIndex>,
) -> (out: SampleSummary)
    ensures
        is_summary_of(
            out,
            sample,
            match local_files {
                Some(index) => index.lookup(sample.filename@),
                None => None,
            },
            match packs {
                Some(index) => index.lookup(sample.pack_uuid@),
                None => None,
            },
        ),
{
    let pack: Option<&SamplePackRecord> = match packs {
        Some(index) => index.get(sample.pack_uuid.as_str()),
        None => None,
    };
    let local_path = if sample.local_path.as_str().is_empty() {
        let candidates = match local_files {
            Some(files) => files.get(sample.filename.as_str()),
            None => None,
        };
        match candidates {
            Some(paths) => matching_local_path(paths, pack),
            None => String::new(),
        }
    } else {
        sample.local_path.clone()
    };
    let pack_name = match pack {
        Some(p) => p.name.clone(),
        None => String::new(),
    };
    let pack_cover_url = match pack {
        Some(p) => p.cover_url.clone(),
        None => String::new(),
    };
    SampleSummary {
        file_hash: sample.file_hash,
        filename: sample.filename,
        local_path,
        bpm: sample.bpm,
        key: sample.audio_key,
        sample_type: sample.sample_type,
        genre: sample.genre,
        provider_name: sample.provider_name,
        price: sample.price,
        purchased: sample.purchased_at > 0,
        tags: sample.tags,
        preview_url: sample.preview_url,
        waveform_url: sample.waveform_url,
        duration: sample.duration,
        pack_uuid: sample.pack_uuid,
        pack_name,
        pack_cover_url,
    }
}

/// The UI summary of a sample, without local files or pack details.
pub fn summarize_sample(sample: SampleRecord) -> (out: SampleSummary)
    ensures
        is_summary_of(out, sample, None, None),
        summary_copies_sample(out, sample),
        out.local_path@ == sample.local_path@,
        out.pack_name@ == Seq::<char>::empty(),
        out.pack_cover_url@ == Seq::<char>::empty(),
{
    summarize_sample_with_context(sample, None, None)
}

/// The UI summary of a pack the helper lists; the helper reports no banner,
/// demo or sample count.
pub fn summarize_helper_pack(pack: SamplePackRecord) -> (out: PackSummary)
    ensures
        out.uuid == pack.uuid,
        out.name == pack.name,
        out.cover_url == pack.cover_url,
        out.banner_url@ == Seq::<char>::empty(),
        out.demo_url@ == Seq::<char>::empty(),
        out.genre == pack.genre,
        out.provider_name == pack.provider_name,
        out.permalink == pack.permalink,
        out.sample_count is None,
{
    PackSummary {
        uuid: pack.uuid,
        name: pack.name,
        cover_url: pack.cover_url,
        banner_url: String::new(),
        demo_url: String::new(),
        genre: pack.genre,
        provider_name: pack.provider_name,
        permalink: pack.permalink,
        sample_count: None,
    }
}

} // verus!
