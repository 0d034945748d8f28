use vstd::prelude::*;

verus! {

/// One child of a job directory, as listed: its full path, its file name,
/// and whether it is a regular file.
#[derive(Clone, Debug)]
pub struct FileEntry {
    pub path: String,
    pub name: String,
    pub is_file: bool,
}

/// A discovered job: the media file to transcode and the preset to apply.
/// `input_name` is the media file's name, which names the output.
#[derive(Clone, Debug)]
pub struct Job {
    pub input: String,
    pub input_name: String,
    pub preset: String,
}

pub struct EntryModel {
    pub path: Seq<char>,
    pub name: Seq<char>,
    pub is_file: bool,
}

pub struct JobModel {
    pub input: Seq<char>,
    pub input_name: Seq<char>,
    pub preset: Seq<char>,
}

impl View for FileEntry {
    type V = EntryModel;

    open spec fn view(&self) -> EntryModel {
        EntryModel { path: self.path@, name: self.name@, is_file: self.is_file }
    }
}

impl View for Job {
    type V = JobModel;

    open spec fn view(&self) -> JobModel {
        JobModel { input: self.input@, input_name: self.input_name@, preset: self.preset@ }
    }
}

/// What a directory child is to the scanner.
#[derive(PartialEq, Eq, Structural, Clone, Copy, Debug)]
pub enum FileKind {
    Preset,
    Input,
    Other,
}

pub open spec fn preset_file_name() -> Seq<char> {
    seq!['p', 'r', 'e', 's', 'e', 't', '.', 'j', 's', 'o', 'n']
}

/// A name has the extension `mkv` when it ends in `.mkv` and something
/// precedes that dot (a leading dot starts a hidden name, not an extension).
pub open spec fn has_mkv_extension(n: Seq<char>) -> bool {
    &&& n.len() > 4
    &&& n[n.len() - 4] == '.'
    &&& n[n.len() - 3] == 'm'
    &&& n[n.len() - 2] == 'k'
    &&& n[n.len() - 1] == 'v'
}

pub open spec fn kind_of(e: EntryModel) -> FileKind {
    if !e.is_file {
        FileKind::Other
    } else if e.name == preset_file_name() {
        FileKind::Preset
    } else if has_mkv_extension(e.name) {
        FileKind::Input
    } else {
        FileKind::Other
    }
}

/// The first entry of the listing of kind `k`, if any.
pub open spec fn first_of_kind(s: Seq<EntryModel>, k: FileKind) -> Option<EntryModel>
    decreases s.len(),
{
    if s.len() == 0 {
        None
    } else {
        let before = first_of_kind(s.drop_last(), k);
        if before is Some {
            before
        } else if kind_of(s.last()) == k {
            Some(s.last())
        } else {
            None
        }
    }
}

pub open spec fn job_of(input: EntryModel, preset: EntryModel) -> JobModel {
    JobModel { input: input.path, input_name: input.name, preset: preset.path }
}

/// The job that one directory's listing yields: its first media file with
/// its preset, when it holds both.
pub open spec fn pair_of(s: Seq<EntryModel>) -> Option<JobModel> {
    match (first_of_kind(s, FileKind::Input), first_of_kind(s, FileKind::Preset)) {
        (Some(i), Some(p)) => Some(job_of(i, p)),
        _ => None,
    }
}

pub open spec fn entries_view(v: Seq<FileEntry>) -> Seq<EntryModel> {
    v.map_values(|e: FileEntry| e@)
}

pub open spec fn job_view(o: Option<Job>) -> Option<JobModel> {
    match o {
        Some(j) => Some(j@),
        None => None,
    }
}

fn is_preset_name(name: &String) -> (r: bool)
    ensures
        r == (name@ == preset_file_name()),
{
    let target = String::from_str("preset.json");
    proof {
        reveal_strlit("preset.json");
        assert(target@ =~= preset_file_name());
    }
    *name == target
}

fn is_mkv_name(name: &String) -> (r: bool)
    ensures
        r == has_mkv_extension(name@),
{
    let s = name.as_str();
    let n = s.unicode_len();
    if n <= 4 {
        return false;
    }
    s.get_char(n - 4) == '.' && s.get_char(n - 3) == 'm' && s.get_char(n - 2) == 'k'
        && s.get_char(n - 1) == 'v'
}

/// Sorts a directory child: `preset.json` is the preset, a file with the
/// extension `mkv` is an input, anything else (directories included) is
/// ignored.
pub fn classify(entry: &FileEntry) -> (r: FileKind)
    ensures
        r == kind_of(entry@),
{
    if !entry.is_file {
        FileKind::Other
    } else if is_preset_name(&entry.name) {
        FileKind::Preset
    } else if is_mkv_name(&entry.name) {
        FileKind::Input
    } else {
        FileKind::Other
    }
}


/// The job of the first directory that holds a pair, in listing order.
pub open spec fn first_pair(d: Seq<Seq<EntryModel>>) -> Option<JobModel>
    decreases d.len(),
{
    if d.len() == 0 {
        None
    } else if pair_of(d[0]) is Some {
        pair_of(d[0])
    } else {
        first_pair(d.drop_first())
    }
}

pub open spec fn listings_view(d: Seq<Vec<FileEntry>>) -> Seq<Seq<EntryModel>> {
    d.map_values(|v: Vec<FileEntry>| entries_view(v@))
}

/// Once a prefix of the listing holds an entry of kind `k`, the whole
/// listing has that same first entry.
proof fn lemma_first_stable(s: Seq<EntryModel>, i: int, k: FileKind)
    requires
        0 <= i <= s.len(),
        first_of_kind(s.take(i), k) is Some,
    ensures
        first_of_kind(s, k) == first_of_kind(s.take(i), k),
    decreases s.len(),
{
    if i == s.len() {
        assert(s.take(i) =~= s);
    } else {
        assert(s.drop_last().take(i) =~= s.take(i));
        lemma_first_stable(s.drop_last(), i, k);
    }
}

/// The first entry of kind `k` is the one at `i` when it has that kind and
/// none before it does.
pub proof fn lemma_first_at(s: Seq<EntryModel>, k: FileKind, i: int)
    requires
        0 <= i < s.len(),
        kind_of(s[i]) == k,
        forall|j: int| 0 <= j < i ==> kind_of(#[trigger] s[j]) != k,
    ensures
        first_of_kind(s, k) == Some(s[i]),
    decreases s.len(),
{
    if i < s.len() - 1 {
        lemma_first_at(s.drop_last(), k, i);
    } else {
        lemma_first_none(s.drop_last(), k);
    }
}

/// A listing with no entry of kind `k` has no first one.
pub proof fn lemma_first_none(s: Seq<EntryModel>, k: FileKind)
    requires
        forall|j: int| 0 <= j < s.len() ==> kind_of(#[trigger] s[j]) != k,
    ensures
        first_of_kind(s, k) is None,
    decreases s.len(),
{
    if s.len() > 0 {
        lemma_first_none(s.drop_last(), k);
    }
}

/// Looks through one directory's listing, in order, for a media file and a
/// preset. The first media file and the preset make the job, as soon as
/// both have been seen; the rest of the listing is not looked at.
pub fn scan_dir(entries: &Vec<FileEntry>) -> (r: Option<Job>)
    ensures
        job_view(r) == pair_of(entries_view(entries@)),
{
    let ghost s = entries_view(entries@);
    let mut input: Option<usize> = None;
    let mut preset: Option<usize> = None;
    let mut i: usize = 0;
    while i < entries.len()
        invariant
            0 <= i <= entries.len(),
            s == entries_view(entries@),
            match input {
                Some(a) => a < i && first_of_kind(s.take(i as int), FileKind::Input) == Some(
                    s[a as int],
                ),
                None => first_of_kind(s.take(i as int), FileKind::Input) is None,
            },
            match preset {
                Some(b) => b < i && first_of_kind(s.take(i as int), FileKind::Preset) == Some(
                    s[b as int],
                ),
                None => first_of_kind(s.take(i as int), FileKind::Preset) is None,
            },
            !(input is Some && preset is Some),
        decreases entries.len() - i,
    {
        let k = classify(&entries[i]);
        proof {
            assert(s.take(i + 1).drop_last() =~= s.take(i as int));
            assert(s.take(i + 1).last() == s[i as int]);
        }
        if k == FileKind::Input && input.is_none() {
            input = Some(i);
        } else if k == FileKind::Preset && preset.is_none() {
            preset = Some(i);
        }
        i = i + 1;
        if let Some(a) = input {
            if let Some(b) = preset {
                proof {
                    lemma_first_stable(s, i as int, FileKind::Input);
                    lemma_first_stable(s, i as int, FileKind::Preset);
                }
                let job = Job {
                    input: entries[a].path.clone(),
                    input_name: entries[a].name.clone(),
                    preset: entries[b].path.clone(),
                };
                return Some(job);
            }
        }
    }
    proof {
        assert(s.take(i as int) =~= s);
    }
    None
}

/// One scan pass over the job directories under the input root, each given
/// by its listing: the job of the first directory that yields one, or `None`
/// when none does.
pub fn scan_root(dirs: &Vec<Vec<FileEntry>>) -> (r: Option<Job>)
    ensures
        job_view(r) == first_pair(listings_view(dirs@)),
{
    let ghost d = listings_view(dirs@);
    let mut i: usize = 0;
    assert(d.skip(0) =~= d);
    while i < dirs.len()
        invariant
            0 <= i <= dirs.len(),
            d == listings_view(dirs@),
            first_pair(d) == first_pair(d.skip(i as int)),
        decreases dirs.len() - i,
    {
        let found = scan_dir(&dirs[i]);
        proof {
            assert(d.skip(i as int)[0] == d[i as int]);
            assert(d.skip(i as int).drop_first() =~= d.skip(i + 1));
        }
        if found.is_some() {
            return found;
        }
        i = i + 1;
    }
    None
}


/// A directory holding exactly one preset and one media file (anything else
/// in it being neither) yields the job that pairs those two files, wherever
/// each stands in the listing.
pub proof fn lemma_single_pair_found(s: Seq<EntryModel>, i: int, j: int)
    requires
        0 <= i < s.len(),
        0 <= j < s.len(),
        kind_of(s[i]) == FileKind::Input,
        kind_of(s[j]) == FileKind::Preset,
        forall|m: int| 0 <= m < s.len() && m != i && m != j ==> kind_of(#[trigger] s[m]) == FileKind::Other,
    ensures
        pair_of(s) == Some(job_of(s[i], s[j])),
{
    lemma_first_at(s, FileKind::Input, i);
    lemma_first_at(s, FileKind::Preset, j);
}

/// A directory without a preset, or without a media file, yields no job.
pub proof fn lemma_lone_file_no_job(s: Seq<EntryModel>)
    requires
        (forall|m: int| 0 <= m < s.len() ==> kind_of(#[trigger] s[m]) != FileKind::Input) || (
        forall|m: int| 0 <= m < s.len() ==> kind_of(#[trigger] s[m]) != FileKind::Preset),
    ensures
        pair_of(s) is None,
{
    if forall|m: int| 0 <= m < s.len() ==> kind_of(#[trigger] s[m]) != FileKind::Input {
        lemma_first_none(s, FileKind::Input);
    } else {
        lemma_first_none(s, FileKind::Preset);
    }
}

/// A directory holding two media files and one preset yields one job: the
/// preset with the media file listed first; the other is left for a later
/// pass.
pub proof fn lemma_two_inputs_first_wins(s: Seq<EntryModel>, a: int, b: int, p: int)
    requires
        0 <= a < b < s.len(),
        0 <= p < s.len(),
        p != a && p != b,
        kind_of(s[a]) == FileKind::Input,
        kind_of(s[b]) == FileKind::Input,
        kind_of(s[p]) == FileKind::Preset,
        forall|m: int|
            0 <= m < s.len() && m != a && m != b && m != p ==> kind_of(#[trigger] s[m])
                == FileKind::Other,
    ensures
        pair_of(s) == Some(job_of(s[a], s[p])),
{
    lemma_first_at(s, FileKind::Input, a);
    lemma_first_at(s, FileKind::Preset, p);
}

/// A pass that finds no job has found no pair in any directory, so a second
/// pass over the same listings finds none either.
pub proof fn lemma_no_job_stays_no_job(d: Seq<Seq<EntryModel>>)
    requires
        first_pair(d) is None,
    ensures
        forall|i: int| 0 <= i < d.len() ==> pair_of(#[trigger] d[i]) is None,
        first_pair(d) is None,
    decreases d.len(),
{
    if d.len() > 0 {
        lemma_no_job_stays_no_job(d.drop_first());
        assert forall|i: int| 0 <= i < d.len() implies pair_of(#[trigger] d[i]) is None by {
            if i > 0 {
                assert(d[i] == d.drop_first()[i - 1]);
            }
        }
    }
}

} // verus!
