//! The source manifest: one entry per line, each a path, a directory or a
//! pattern; and its resolution into the files to back up. Looking at the
//! file system is left to the caller, who is told what to look for and hands
//! back what was found.

use vstd::prelude::*;

use crate::error::{BackupError, BackupFailure};
use crate::feedback::text_models;

verus! {

/// A file to back up.
#[derive(Debug, PartialEq, Eq)]
pub struct SourceFile {
    pub path: String,
    pub size: u64,
}

/// A `SourceFile` as contracts see it.
pub struct FileModel {
    pub path: Seq<char>,
    pub size: nat,
}

impl View for SourceFile {
    type V = FileModel;

    open spec fn view(&self) -> FileModel {
        FileModel { path: self.path@, size: self.size as nat }
    }
}

/// The files of a list, as contracts see them.
pub open spec fn file_models(files: Seq<SourceFile>) -> Seq<FileModel> {
    files.map_values(|file: SourceFile| file@)
}

/// The sizes of `files` added up.
pub open spec fn size_sum(files: Seq<FileModel>) -> nat
    decreases files.len(),
{
    if files.len() == 0 {
        0
    } else {
        size_sum(files.drop_last()) + files.last().size
    }
}

/// `n`, or the largest `u64` where `n` is beyond it.
pub open spec fn capped(n: nat) -> u64 {
    if n <= u64::MAX {
        n as u64
    } else {
        u64::MAX
    }
}

/// One entry that the file system holds for a manifest line: the line's own
/// path, a path beneath its directory, or a path that its pattern matches.
#[derive(Debug, PartialEq, Eq)]
pub struct FoundEntry {
    pub path: String,
    pub is_dir: bool,
    pub size: u64,
}

/// A `FoundEntry` as contracts see it.
pub struct EntryModel {
    pub path: Seq<char>,
    pub is_dir: bool,
    pub size: nat,
}

impl View for FoundEntry {
    type V = EntryModel;

    open spec fn view(&self) -> EntryModel {
        EntryModel { path: self.path@, is_dir: self.is_dir, size: self.size as nat }
    }
}

/// What the file system answered for one manifest line.
#[derive(Debug, PartialEq, Eq)]
pub enum Probe {
    /// The path does not exist.
    Missing,
    /// The pattern is malformed, or an entry that it matches cannot be read;
    /// the reason.
    Failed(String),
    /// What is there, in the order in which it was found: for a file, the
    /// file; for a directory, every entry beneath it that can be read; for a
    /// pattern, every path that it matches.
    Found(Vec<FoundEntry>),
}

/// A `Probe` as contracts see it.
pub enum ProbeModel {
    Missing,
    Failed(Seq<char>),
    Found(Seq<EntryModel>),
}

impl View for Probe {
    type V = ProbeModel;

    open spec fn view(&self) -> ProbeModel {
        match self {
            Probe::Missing => ProbeModel::Missing,
            Probe::Failed(reason) => ProbeModel::Failed(reason@),
            Probe::Found(entries) => ProbeModel::Found(
                entries@.map_values(|entry: FoundEntry| entry@),
            ),
        }
    }
}

/// The files among `entries`, in their order: the directories are left out.
pub open spec fn files_of(entries: Seq<EntryModel>) -> Seq<FileModel>
    decreases entries.len(),
{
    if entries.len() == 0 {
        Seq::empty()
    } else if !entries.last().is_dir {
        files_of(entries.drop_last()).push(
            FileModel { path: entries.last().path, size: entries.last().size },
        )
    } else {
        files_of(entries.drop_last())
    }
}

/// The files after one more manifest line: what was found for it comes
/// behind the files of the lines before; a missing path or a failed
/// expansion ends the resolution.
pub open spec fn absorbed(files: Seq<FileModel>, line: Seq<char>, probe: ProbeModel) -> Result<
    Seq<FileModel>,
    BackupFailure,
> {
    match probe {
        ProbeModel::Missing => Err(BackupFailure::MissingManifestPath(line)),
        ProbeModel::Failed(reason) => Err(BackupFailure::GlobExpansionFailed(reason)),
        ProbeModel::Found(entries) => Ok(files + files_of(entries)),
    }
}

/// The number of characters before the first line feed of `text`; the
/// length of `text` if it holds none.
pub open spec fn line_end(text: Seq<char>) -> nat
    decreases text.len(),
{
    if text.len() == 0 || text[0] == '\n' {
        0
    } else {
        1 + line_end(text.drop_first())
    }
}

/// `line` without the carriage return at its end, if it has one.
pub open spec fn without_return(line: Seq<char>) -> Seq<char> {
    if line.len() > 0 && line.last() == '\r' {
        line.drop_last()
    } else {
        line
    }
}

/// The lines of a text. A line ends with a line feed, or with a carriage
/// return and a line feed, neither of which belongs to it; what follows the
/// last line feed is a line too, unless nothing follows.
pub open spec fn lines_of(text: Seq<char>) -> Seq<Seq<char>>
    decreases text.len(),
{
    if text.len() == 0 {
        Seq::empty()
    } else if line_end(text) >= text.len() {
        seq![text]
    } else {
        seq![without_return(text.subrange(0, line_end(text) as int))] + lines_of(
            text.subrange(line_end(text) as int + 1, text.len() as int),
        )
    }
}

/// The first line feed of a text is where its first line ends.
proof fn lemma_line_end(text: Seq<char>, end: int)
    requires
        0 <= end <= text.len(),
        forall|j: int| 0 <= j < end ==> text[j] != '\n',
        end == text.len() || text[end] == '\n',
    ensures
        line_end(text) == end,
    decreases end,
{
    if end > 0 {
        let rest = text.drop_first();
        assert forall|j: int| 0 <= j < end - 1 implies rest[j] != '\n' by {
            assert(rest[j] == text[j + 1]);
        }
        lemma_line_end(rest, end - 1);
    }
}

/// Splits the text of a manifest into its lines.
pub fn manifest_lines(text: &str) -> (lines: Vec<String>)
    ensures
        text_models(lines@) == lines_of(text@),
{
    let length: usize = text.unicode_len();
    let mut lines: Vec<String> = Vec::new();
    let mut start: usize = 0;
    let mut position: usize = 0;
    let mut after_return = false;
    assert(text@.subrange(0, length as int) == text@);
    for c in it: text.chars()
        invariant
            it.seq() == text@,
            length == text@.len(),
            position == it.index(),
            start <= position <= length,
            after_return <==> position > start && text@[position - 1] == '\r',
            forall|j: int| start <= j < position ==> text@[j] != '\n',
            lines_of(text@) == text_models(lines@) + lines_of(
                text@.subrange(start as int, length as int),
            ),
    {
        if c == '\n' {
            let ghost rest = text@.subrange(start as int, length as int);
            let end: usize = if after_return {
                position - 1
            } else {
                position
            };
            let line = String::from_str(text.substring_char(start, end));
            proof {
                lemma_line_end(rest, position - start);
                assert(rest.subrange(0, position - start) == text@.subrange(
                    start as int,
                    position as int,
                ));
                assert(rest.subrange(position - start + 1, rest.len() as int) == text@.subrange(
                    position + 1,
                    length as int,
                ));
                assert(line@ == without_return(text@.subrange(start as int, position as int)));
            }
            lines.push(line);
            start = position + 1;
        }
        after_return = c == '\r';
        position += 1;
    }
    if start < length {
        let ghost rest = text@.subrange(start as int, length as int);
        let line = String::from_str(text.substring_char(start, length));
        proof {
            lemma_line_end(rest, length - start);
        }
        lines.push(line);
    }
    lines
}

/// A character with the Unicode property White_Space.
pub open spec fn is_white_space(c: char) -> bool {
    let code = c as u32;
    ||| 0x09 <= code <= 0x0d
    ||| code == 0x20
    ||| code == 0x85
    ||| code == 0xa0
    ||| code == 0x1680
    ||| 0x2000 <= code <= 0x200a
    ||| code == 0x2028
    ||| code == 0x2029
    ||| code == 0x202f
    ||| code == 0x205f
    ||| code == 0x3000
}

/// `text` without the white space at its start.
pub open spec fn trim_start(text: Seq<char>) -> Seq<char>
    decreases text.len(),
{
    if text.len() > 0 && is_white_space(text.first()) {
        trim_start(text.drop_first())
    } else {
        text
    }
}

/// `text` without the white space at its end.
pub open spec fn trim_end(text: Seq<char>) -> Seq<char>
    decreases text.len(),
{
    if text.len() > 0 && is_white_space(text.last()) {
        trim_end(text.drop_last())
    } else {
        text
    }
}

/// `text` without the white space at its start and at its end.
pub open spec fn trimmed(text: Seq<char>) -> Seq<char> {
    trim_end(trim_start(text))
}

/// `str::trim`: the slice without leading and trailing white space, where
/// white space is what Unicode gives the property White_Space.
pub assume_specification[ str::trim ](text: &str) -> (slice: &str)
    ensures
        slice@ == trimmed(text@),
;

/// A line with a wildcard in it is a pattern.
pub open spec fn is_pattern(line: Seq<char>) -> bool {
    line.contains('*') || line.contains('?')
}

/// What to look for on the file system for a manifest line.
#[derive(Debug, PartialEq, Eq)]
pub enum SourceRequest {
    /// Every path that matches the pattern.
    Pattern(String),
    /// The path itself: a file, or a directory with all that is beneath it.
    Literal(String),
}

/// A `SourceRequest` as contracts see it.
pub enum RequestModel {
    Pattern(Seq<char>),
    Literal(Seq<char>),
}

impl View for SourceRequest {
    type V = RequestModel;

    open spec fn view(&self) -> RequestModel {
        match self {
            SourceRequest::Pattern(pattern) => RequestModel::Pattern(pattern@),
            SourceRequest::Literal(path) => RequestModel::Literal(path@),
        }
    }
}

/// The request of a line: a pattern is taken without the white space round
/// it, a path as it stands.
pub open spec fn request_for(line: Seq<char>) -> RequestModel {
    if is_pattern(line) {
        RequestModel::Pattern(trimmed(line))
    } else {
        RequestModel::Literal(line)
    }
}

/// Whether `line` holds `*` or `?`.
fn has_wildcard(line: &str) -> (found: bool)
    ensures
        found == is_pattern(line@),
{
    let mut found = false;
    for c in it: line.chars()
        invariant
            it.seq() == line@,
            found == (exists|j: int|
                0 <= j < it.index() && (#[trigger] line@[j] == '*' || line@[j] == '?')),
    {
        if c == '*' || c == '?' {
            found = true;
        }
    }
    found
}

/// Says what to look for on the file system for one line of the manifest.
pub fn classify_source(line: &str) -> (request: SourceRequest)
    ensures
        request@ == request_for(line@),
{
    if has_wildcard(line) {
        SourceRequest::Pattern(String::from_str(line.trim()))
    } else {
        SourceRequest::Literal(String::from_str(line))
    }
}

/// The lowercase hexadecimal MD5 digest of `data`.
pub uninterp spec fn md5_hex(data: Seq<u8>) -> Seq<char>;

/// `chksum_hash_md5::hash`, read out by `Digest::to_hex_lowercase`: the MD5
/// digest of the bytes, in lowercase hexadecimal.
#[verifier::external_body]
fn md5_hex_digest(data: &[u8]) -> (hex: String)
    ensures
        hex@ == md5_hex(data@),
{
    chksum_hash_md5::hash(data).to_hex_lowercase()
}

/// The checksum of a manifest whose lines, one behind the other and without
/// their line breaks, are `text`: the MD5 digest of its UTF-8 bytes.
pub open spec fn checksum_of(text: Seq<char>) -> Seq<char> {
    md5_hex(vstd::utf8::encode_utf8(text))
}

proof fn lemma_total_push(files: Seq<FileModel>, file: FileModel)
    ensures
        size_sum(files.push(file)) == size_sum(files) + file.size,
{
    assert(files.push(file).drop_last() == files);
}

/// The files resolved so far, their total size and the manifest text that
/// the checksum will be taken of.
#[derive(Debug)]
pub struct Resolution {
    files: Vec<SourceFile>,
    total_size: u64,
    text: String,
}

impl Resolution {
    #[verifier::type_invariant]
    spec fn total_is_the_sum(self) -> bool {
        self.total_size == capped(size_sum(file_models(self.files@)))
    }

    /// The files resolved so far, in manifest order.
    pub closed spec fn files(&self) -> Seq<FileModel> {
        file_models(self.files@)
    }

    /// The lines taken so far, one behind the other.
    pub closed spec fn text(&self) -> Seq<char> {
        self.text@
    }

    /// Opens the resolution. `manifest` says whether the manifest could be
    /// read; if not, the resolution fails with the reason.
    pub fn start(manifest: Result<(), String>) -> (result: Result<Resolution, BackupError>)
        ensures
            match manifest {
                Ok(_) => result matches Ok(resolution) && resolution.files().len() == 0
                    && resolution.text().len() == 0,
                Err(reason) => result matches Err(error) && error@
                    == BackupFailure::ManifestUnreadable(reason@),
            },
    {
        match manifest {
            Ok(_) => Ok(Resolution { files: Vec::new(), total_size: 0, text: String::new() }),
            Err(reason) => Err(BackupError::ManifestUnreadable(reason)),
        }
    }

    /// Takes one manifest line with what the file system answered for it.
    pub fn absorb(self, line: &str, probe: &Probe) -> (result: Result<Resolution, BackupError>)
        ensures
            match absorbed(self.files(), line@, probe@) {
                Ok(files) => result matches Ok(next) && next.files() == files && next.text()
                    == self.text() + line@,
                Err(failure) => result matches Err(error) && error@ == failure,
            },
    {
        proof {
            use_type_invariant(&self);
        }
        match probe {
            Probe::Missing => Err(BackupError::MissingManifestPath(String::from_str(line))),
            Probe::Failed(reason) => Err(BackupError::GlobExpansionFailed(reason.clone())),
            Probe::Found(entries) => {
                let ghost before = file_models(self.files@);
                let ghost found = entries@.map_values(|entry: FoundEntry| entry@);
                let Resolution { mut files, mut total_size, mut text } = self;
                let count: usize = entries.len();
                let mut index: usize = 0;
                while index < count
                    invariant
                        count == entries@.len(),
                        index <= count,
                        found == entries@.map_values(|entry: FoundEntry| entry@),
                        file_models(files@) == before + files_of(found.subrange(0, index as int)),
                        total_size == capped(size_sum(file_models(files@))),
                    decreases count - index,
                {
                    let ghost so_far = found.subrange(0, index as int);
                    let ghost further = found.subrange(0, index + 1);
                    assert(further.drop_last() == so_far);
                    let entry = &entries[index];
                    if !entry.is_dir {
                        let file = SourceFile { path: entry.path.clone(), size: entry.size };
                        proof {
                            lemma_total_push(file_models(files@), file@);
                            assert(file_models(files@.push(file)) == file_models(files@).push(
                                file@,
                            ));
                        }
                        total_size = total_size.saturating_add(entry.size);
                        files.push(file);
                    }
                    index += 1;
                }
                assert(found.subrange(0, count as int) == found);
                text.append(line);
                Ok(Resolution { files, total_size, text })
            },
        }
    }

    /// Closes the resolution: the files, their total size and the checksum
    /// of the manifest.
    pub fn finish(self) -> (sources: ResolvedSources)
        ensures
            sources.files() == self.files(),
            sources.checksum() == checksum_of(self.text()),
    {
        proof {
            use_type_invariant(&self);
        }
        let Resolution { files, total_size, text } = self;
        let checksum = md5_hex_digest(text.as_str().as_bytes());
        ResolvedSources { files, total_size, checksum }
    }
}

/// A resolved manifest: the files in manifest order, their total size and
/// the checksum of the manifest text.
#[derive(Debug)]
pub struct ResolvedSources {
    files: Vec<SourceFile>,
    total_size: u64,
    checksum: String,
}

impl ResolvedSources {
    #[verifier::type_invariant]
    spec fn total_is_the_sum(self) -> bool {
        self.total_size == capped(size_sum(file_models(self.files@)))
    }

    /// The files, in manifest order.
    pub closed spec fn files(&self) -> Seq<FileModel> {
        file_models(self.files@)
    }

    /// The checksum of the manifest text.
    pub closed spec fn checksum(&self) -> Seq<char> {
        self.checksum@
    }

    /// The sizes of the files added up; the largest `u64` if the sum is
    /// beyond it.
    pub open spec fn total(&self) -> u64 {
        capped(size_sum(self.files()))
    }

    /// The files, in manifest order.
    pub fn source_files(&self) -> (files: &Vec<SourceFile>)
        ensures
            file_models(files@) == self.files(),
    {
        &self.files
    }

    /// The sizes of the files added up.
    pub fn total_size(&self) -> (total: u64)
        ensures
            total == self.total(),
    {
        proof {
            use_type_invariant(self);
        }
        self.total_size
    }

    /// The checksum of the manifest text.
    pub fn manifest_checksum(&self) -> (checksum: &String)
        ensures
            checksum@ == self.checksum(),
    {
        &self.checksum
    }
}

/// A manifest line together with what the file system answered for it.
#[derive(Debug, PartialEq, Eq)]
pub struct ManifestEntry {
    pub line: String,
    pub probe: Probe,
}

/// The files of a whole manifest: the lines are taken in order, and the
/// first that fails ends the resolution with its error.
pub open spec fn resolved(entries: Seq<ManifestEntry>) -> Result<Seq<FileModel>, BackupFailure>
    decreases entries.len(),
{
    if entries.len() == 0 {
        Ok(Seq::empty())
    } else {
        match resolved(entries.drop_last()) {
            Ok(files) => absorbed(files, entries.last().line@, entries.last().probe@),
            Err(failure) => Err(failure),
        }
    }
}

/// The lines of a manifest, one behind the other.
pub open spec fn manifest_text(entries: Seq<ManifestEntry>) -> Seq<char>
    decreases entries.len(),
{
    if entries.len() == 0 {
        Seq::empty()
    } else {
        manifest_text(entries.drop_last()) + entries.last().line@
    }
}

/// The files of a manifest that may not have been readable at all.
pub open spec fn resolved_manifest(
    manifest: Result<(), Seq<char>>,
    entries: Seq<ManifestEntry>,
) -> Result<Seq<FileModel>, BackupFailure> {
    match manifest {
        Ok(_) => resolved(entries),
        Err(reason) => Err(BackupFailure::ManifestUnreadable(reason)),
    }
}

/// Whether a manifest could be read, as contracts see it.
pub open spec fn reading(manifest: Result<(), String>) -> Result<(), Seq<char>> {
    match manifest {
        Ok(_) => Ok(()),
        Err(reason) => Err(reason@),
    }
}

/// `result` is what the resolution of the manifest gives.
pub open spec fn resolves(
    manifest: Result<(), Seq<char>>,
    entries: Seq<ManifestEntry>,
    result: Result<ResolvedSources, BackupError>,
) -> bool {
    match resolved_manifest(manifest, entries) {
        Ok(files) => result matches Ok(sources) && sources.files() == files && sources.checksum()
            == checksum_of(manifest_text(entries)),
        Err(failure) => result matches Err(error) && error@ == failure,
    }
}

/// The same lines with the same answers of the file system.
pub open spec fn same_manifest(first: Seq<ManifestEntry>, second: Seq<ManifestEntry>) -> bool {
    &&& first.len() == second.len()
    &&& forall|i: int|
        0 <= i < first.len() ==> (#[trigger] first[i]).line@ == second[i].line@ && first[i].probe@
            == second[i].probe@
}

/// Resolving a manifest twice against an unchanged file system gives the
/// same twice: the same files, the same total size and the same checksum, or
/// the same error.
pub proof fn lemma_resolution_repeats(
    manifest: Result<(), Seq<char>>,
    first: Seq<ManifestEntry>,
    second: Seq<ManifestEntry>,
    first_result: Result<ResolvedSources, BackupError>,
    second_result: Result<ResolvedSources, BackupError>,
)
    requires
        same_manifest(first, second),
        resolves(manifest, first, first_result),
        resolves(manifest, second, second_result),
    ensures
        match first_result {
            Ok(sources) => second_result matches Ok(again) && again.files() == sources.files()
                && again.total() == sources.total() && again.checksum() == sources.checksum(),
            Err(error) => second_result matches Err(again) && again@ == error@,
        },
{
    lemma_same_manifest(first, second);
}

proof fn lemma_same_manifest(first: Seq<ManifestEntry>, second: Seq<ManifestEntry>)
    requires
        same_manifest(first, second),
    ensures
        resolved(first) == resolved(second),
        manifest_text(first) == manifest_text(second),
    decreases first.len(),
{
    if first.len() > 0 {
        assert(first.last().line@ == second.last().line@ && first.last().probe@
            == second.last().probe@) by {
            let last = first.len() - 1;
            assert(first[last].line@ == second[last].line@);
        }
        assert(same_manifest(first.drop_last(), second.drop_last())) by {
            assert forall|i: int| 0 <= i < first.drop_last().len() implies (
            #[trigger] first.drop_last()[i]).line@ == second.drop_last()[i].line@
                && first.drop_last()[i].probe@ == second.drop_last()[i].probe@ by {
                assert(first[i].line@ == second[i].line@);
            }
        }
        lemma_same_manifest(first.drop_last(), second.drop_last());
    }
}

/// Resolves a manifest whose lines have all been looked up: the files in
/// manifest order with their total size and the manifest's checksum; or the
/// error of a manifest that could not be read, or of the first line that
/// fails.
pub fn parse_sources(manifest: Result<(), String>, entries: &Vec<ManifestEntry>) -> (result:
    Result<ResolvedSources, BackupError>)
    ensures
        resolves(reading(manifest), entries@, result),
{
    let mut resolution = match Resolution::start(manifest) {
        Ok(resolution) => resolution,
        Err(error) => {
            return Err(error);
        },
    };
    let count: usize = entries.len();
    let mut index: usize = 0;
    assert(resolution.files() == Seq::<FileModel>::empty());
    while index < count
        invariant
            manifest is Ok,
            count == entries@.len(),
            index <= count,
            resolved(entries@.subrange(0, index as int)) == Ok::<Seq<FileModel>, BackupFailure>(
                resolution.files(),
            ),
            resolution.text() == manifest_text(entries@.subrange(0, index as int)),
        decreases count - index,
    {
        let ghost further = entries@.subrange(0, index + 1);
        assert(further.drop_last() == entries@.subrange(0, index as int));
        let entry = &entries[index];
        match resolution.absorb(entry.line.as_str(), &entry.probe) {
            Ok(next) => {
                resolution = next;
            },
            Err(error) => {
                proof {
                    lemma_failure_stays(entries@, index + 1);
                }
                return Err(error);
            },
        }
        index += 1;
    }
    assert(entries@.subrange(0, count as int) == entries@);
    Ok(resolution.finish())
}

/// Once a manifest has failed at some line, it has failed.
proof fn lemma_failure_stays(entries: Seq<ManifestEntry>, upto: int)
    requires
        0 <= upto <= entries.len(),
        resolved(entries.subrange(0, upto)) is Err,
    ensures
        resolved(entries) == resolved(entries.subrange(0, upto)),
    decreases entries.len() - upto,
{
    if upto < entries.len() {
        let further = entries.subrange(0, upto + 1);
        assert(further.drop_last() == entries.subrange(0, upto));
        lemma_failure_stays(entries, upto + 1);
    } else {
        assert(entries.subrange(0, upto) == entries);
    }
}

} // verus!
