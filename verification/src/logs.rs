//! Log acquisition: telling the container format of a downloaded artifact by
//! its leading bytes, extracting its text, and assembling the texts of a
//! job's steps into one corpus.

use crate::amplify::LogArtifactRef;
use crate::text::{contains, decimal, decimal_of, lowercase, lowercase_of, occurs_in};
use vstd::prelude::*;
use vstd::slice::slice_to_vec;
use vstd::string::StringExecFns;
use vstd::utf8::{
    decode_utf8, encode_utf8, encode_utf8_decode_utf8, encode_utf8_valid_utf8, valid_utf8,
};

verus! {

/// The container formats that are told apart.
#[derive(Clone, Copy, Debug, PartialEq, Eq)]
pub enum Container {
    Zip,
    Gzip,
    Plain,
}

/// Why no text could be extracted from an artifact.
#[derive(Clone, Copy, Debug, PartialEq, Eq)]
pub enum ExtractionError {
    /// The bytes start like a ZIP archive but cannot be opened as one.
    BadArchive,
    /// An entry of the archive cannot be read.
    BadEntry,
    /// The bytes start like a gzip stream but cannot be decompressed.
    BadGzip,
    /// The text is not valid UTF-8.
    InvalidUtf8,
}

/// The format that the leading bytes announce: `PK` for ZIP, `1F 8B` for
/// gzip, plain text otherwise.
pub open spec fn container_of(bytes: Seq<u8>) -> Container {
    if bytes.len() >= 2 && bytes[0] == 0x50 && bytes[1] == 0x4B {
        Container::Zip
    } else if bytes.len() >= 2 && bytes[0] == 0x1F && bytes[1] == 0x8B {
        Container::Gzip
    } else {
        Container::Plain
    }
}

/// Tells the container format by the leading bytes.
pub fn sniff(bytes: &[u8]) -> (container: Container)
    ensures
        container == container_of(bytes@),
{
    if bytes.len() >= 2 && bytes[0] == 0x50 && bytes[1] == 0x4B {
        Container::Zip
    } else if bytes.len() >= 2 && bytes[0] == 0x1F && bytes[1] == 0x8B {
        Container::Gzip
    } else {
        Container::Plain
    }
}

/// `zip::ZipArchive`, the ZIP reader over a source of bytes; nothing is
/// known of what is inside it but what the names below say.
#[verifier::external_type_specification]
#[verifier::external_body]
#[verifier::reject_recursive_types(R)]
pub struct ExZipArchive<R>(zip::ZipArchive<R>);

/// `zip::result::ZipError`, the ZIP reader's error; it is only passed on.
#[verifier::external_type_specification]
#[verifier::external_body]
pub struct ExZipError(zip::result::ZipError);

/// `std::io::Cursor`, through which the ZIP reader reads a byte buffer.
#[verifier::external_type_specification]
#[verifier::external_body]
#[verifier::reject_recursive_types(T)]
pub struct ExCursor<T>(std::io::Cursor<T>);

/// `std::io::Error`, the gzip decoder's error; it is only passed on.
#[verifier::external_type_specification]
#[verifier::external_body]
pub struct ExIoError(std::io::Error);

/// `std::string::FromUtf8Error`, the error of a conversion from bytes
/// that are not UTF-8; it is only passed on.
#[verifier::external_type_specification]
#[verifier::external_body]
pub struct ExFromUtf8Error(std::string::FromUtf8Error);

/// The entries that the ZIP reader finds in a byte buffer, in archive
/// order: of each its name and its uncompressed content, as far as the
/// reader can produce them. Nothing where the buffer does not open as an
/// archive.
pub uninterp spec fn zip_entries(bytes: Seq<u8>) -> Option<
    Seq<(Option<Seq<char>>, Option<Seq<u8>>)>,
>;

/// The entries of an opened archive, in archive order: of each its name
/// and its uncompressed content, as far as the reader can produce them.
pub uninterp spec fn archive_entries(archive: zip::ZipArchive<std::io::Cursor<&[u8]>>) -> Seq<
    (Option<Seq<char>>, Option<Seq<u8>>),
>;

/// What the gzip decoder produces from a byte buffer, where it succeeds.
pub uninterp spec fn gunzipped(bytes: Seq<u8>) -> Option<Seq<u8>>;

/// `zip::ZipArchive::new` on a cursor over the bytes. It reads the central
/// directory; the contract names the entries that it finds. Trusted, not
/// proved.
#[verifier::external_body]
fn zip_open<'a>(bytes: &'a [u8]) -> (opened: Result<
    zip::ZipArchive<std::io::Cursor<&'a [u8]>>,
    zip::result::ZipError,
>)
    ensures
        match opened {
            Ok(archive) => zip_entries(bytes@) == Some(archive_entries(archive)),
            Err(_) => zip_entries(bytes@) is None,
        },
{
    zip::ZipArchive::new(std::io::Cursor::new(bytes))
}

/// `zip::ZipArchive::len`: the number of entries. Trusted, not proved.
#[verifier::external_body]
fn zip_len(archive: &zip::ZipArchive<std::io::Cursor<&[u8]>>) -> (count: usize)
    ensures
        count == archive_entries(*archive).len(),
{
    archive.len()
}

/// `zip::ZipArchive::by_index`, then `Read::read_to_end` on the entry: the
/// entry's uncompressed content, or the reader's error. The archive holds
/// the same entries afterwards. Trusted, not proved.
#[verifier::external_body]
fn zip_read(archive: &mut zip::ZipArchive<std::io::Cursor<&[u8]>>, index: usize) -> (read: Result<
    Vec<u8>,
    zip::result::ZipError,
>)
    requires
        index < archive_entries(*old(archive)).len(),
    ensures
        archive_entries(*final(archive)) == archive_entries(*old(archive)),
        match read {
            Ok(data) => archive_entries(*old(archive))[index as int].1 == Some(data@),
            Err(_) => archive_entries(*old(archive))[index as int].1 is None,
        },
{
    let mut data = Vec::new();
    let mut entry = archive.by_index(index)?;
    std::io::Read::read_to_end(&mut entry, &mut data)?;
    Ok(data)
}

/// `zip::ZipArchive::by_index`, then `name` on the entry: the entry's
/// name, or the reader's error. The archive holds the same entries
/// afterwards. Trusted, not proved.
#[verifier::external_body]
fn zip_name(archive: &mut zip::ZipArchive<std::io::Cursor<&[u8]>>, index: usize) -> (read: Result<
    String,
    zip::result::ZipError,
>)
    requires
        index < archive_entries(*old(archive)).len(),
    ensures
        archive_entries(*final(archive)) == archive_entries(*old(archive)),
        match read {
            Ok(name) => archive_entries(*old(archive))[index as int].0 == Some(name@),
            Err(_) => archive_entries(*old(archive))[index as int].0 is None,
        },
{
    Ok(archive.by_index(index)?.name()?.into_owned())
}

/// `flate2::read::GzDecoder::new` on the bytes, then `Read::read_to_end`:
/// the decompressed first member, or the decoder's error. The contract only
/// names the result. Trusted, not proved.
#[verifier::external_body]
fn gunzip(bytes: &[u8]) -> (inflated: Result<Vec<u8>, std::io::Error>)
    ensures
        match inflated {
            Ok(data) => gunzipped(bytes@) == Some(data@),
            Err(_) => gunzipped(bytes@) is None,
        },
{
    let mut data = Vec::new();
    std::io::Read::read_to_end(&mut flate2::read::GzDecoder::new(bytes), &mut data)?;
    Ok(data)
}

/// `String::from_utf8`: the bytes as a string where they are valid UTF-8,
/// an error where they are not. Trusted, not proved.
#[verifier::external_body]
fn string_from_utf8(bytes: Vec<u8>) -> (converted: Result<String, std::string::FromUtf8Error>)
    ensures
        converted is Ok <==> valid_utf8(bytes@),
        converted matches Ok(text) ==> text@ == decode_utf8(bytes@),
{
    String::from_utf8(bytes)
}

/// The view of an extraction result.
pub open spec fn text_view(result: Result<String, ExtractionError>) -> Result<
    Seq<char>,
    ExtractionError,
> {
    match result {
        Ok(text) => Ok(text@),
        Err(error) => Err(error),
    }
}

/// The text that a byte buffer encodes: all of it or nothing.
pub open spec fn decoded(bytes: Seq<u8>) -> Result<Seq<char>, ExtractionError> {
    if valid_utf8(bytes) {
        Ok(decode_utf8(bytes))
    } else {
        Err(ExtractionError::InvalidUtf8)
    }
}

/// Decodes a byte buffer as UTF-8 text.
pub fn decode_text(bytes: Vec<u8>) -> (result: Result<String, ExtractionError>)
    ensures
        text_view(result) == decoded(bytes@),
{
    match string_from_utf8(bytes) {
        Ok(text) => Ok(text),
        Err(_) => Err(ExtractionError::InvalidUtf8),
    }
}

/// The text of one archive entry.
pub open spec fn entry_text(entry: Option<Seq<u8>>) -> Result<Seq<char>, ExtractionError> {
    match entry {
        Some(data) => decoded(data),
        None => Err(ExtractionError::BadEntry),
    }
}

/// The text of the entries so far with the text of one more entry; the
/// newline separates it from the entries before it.
pub open spec fn with_entry(before: Seq<char>, position: int, entry: Seq<char>) -> Seq<char> {
    if position == 0 {
        before + entry
    } else {
        before + "\n"@ + entry
    }
}

/// The text of a list of archive entries: their texts in order, separated
/// by newlines; the error of the first entry that has no text.
pub open spec fn entries_text(entries: Seq<Option<Seq<u8>>>) -> Result<Seq<char>, ExtractionError>
    decreases entries.len(),
{
    if entries.len() == 0 {
        Ok(Seq::empty())
    } else {
        match entries_text(entries.drop_last()) {
            Err(error) => Err(error),
            Ok(before) => match entry_text(entries.last()) {
                Err(error) => Err(error),
                Ok(text) => Ok(with_entry(before, entries.len() - 1, text)),
            },
        }
    }
}

/// The contents of a list of entries.
pub open spec fn contents_of(entries: Seq<(Option<Seq<char>>, Option<Seq<u8>>)>) -> Seq<
    Option<Seq<u8>>,
> {
    entries.map_values(|entry: (Option<Seq<char>>, Option<Seq<u8>>)| entry.1)
}

/// The text of a ZIP archive, given what the reader finds in it.
pub open spec fn zip_text(found: Option<Seq<(Option<Seq<char>>, Option<Seq<u8>>)>>) -> Result<
    Seq<char>,
    ExtractionError,
> {
    match found {
        Some(entries) => entries_text(contents_of(entries)),
        None => Err(ExtractionError::BadArchive),
    }
}

/// The text of a gzip stream, given what the decoder produces from it.
pub open spec fn gzip_text(inflated: Option<Seq<u8>>) -> Result<Seq<char>, ExtractionError> {
    match inflated {
        Some(data) => decoded(data),
        None => Err(ExtractionError::BadGzip),
    }
}

/// The text of an artifact.
pub open spec fn extracted(bytes: Seq<u8>) -> Result<Seq<char>, ExtractionError> {
    match container_of(bytes) {
        Container::Zip => zip_text(zip_entries(bytes)),
        Container::Gzip => gzip_text(gunzipped(bytes)),
        Container::Plain => decoded(bytes),
    }
}

/// Once a prefix of the entries has no text, the whole list has none, for
/// the same reason.
proof fn lemma_entries_text_failure_persists(entries: Seq<Option<Seq<u8>>>, n: int)
    requires
        0 <= n <= entries.len(),
        entries_text(entries.take(n)) is Err,
    ensures
        entries_text(entries) == entries_text(entries.take(n)),
    decreases entries.len() - n,
{
    if n < entries.len() {
        assert(entries.take(n + 1).drop_last() =~= entries.take(n));
        lemma_entries_text_failure_persists(entries, n + 1);
    } else {
        assert(entries.take(n) =~= entries);
    }
}

/// Appends the text of an entry's content to the text of the entries
/// before it; `position` is the entry's index in the archive. Leaves the
/// text as it is when the content is not UTF-8 text.
pub fn append_entry(text: &mut String, position: usize, data: Vec<u8>) -> (result: Result<
    (),
    ExtractionError,
>)
    ensures
        match decoded(data@) {
            Ok(entry) => result is Ok && final(text)@ == with_entry(
                old(text)@,
                position as int,
                entry,
            ),
            Err(error) => result == Err::<(), ExtractionError>(error) && final(text)@ == old(
                text,
            )@,
        },
{
    match decode_text(data) {
        Ok(entry) => {
            if position > 0 {
                text.append("\n");
            }
            text.append(entry.as_str());
            Ok(())
        },
        Err(error) => Err(error),
    }
}

/// Extracts the text of a ZIP archive: the texts of its entries, in archive
/// order, separated by newlines. Fails when the archive cannot be opened,
/// when an entry cannot be read, or when an entry is not UTF-8 text.
pub fn extract_from_zip(zip_bytes: &[u8]) -> (result: Result<String, ExtractionError>)
    ensures
        text_view(result) == zip_text(zip_entries(zip_bytes@)),
{
    let mut archive = match zip_open(zip_bytes) {
        Ok(archive) => archive,
        Err(_) => {
            return Err(ExtractionError::BadArchive);
        },
    };
    let ghost entries = contents_of(archive_entries(archive));
    let count = zip_len(&archive);
    let mut content = String::new();
    let mut k: usize = 0;
    assert(entries.take(0) =~= Seq::<Option<Seq<u8>>>::empty());
    while k < count
        invariant
            k <= count,
            count == entries.len(),
            contents_of(archive_entries(archive)) == entries,
            zip_entries(zip_bytes@) == Some(archive_entries(archive)),
            entries_text(entries.take(k as int)) == Ok::<Seq<char>, ExtractionError>(content@),
        decreases count - k,
    {
        proof {
            assert(entries.take(k + 1).drop_last() =~= entries.take(k as int));
            assert(entries.take(k + 1).last() == entries[k as int]);
        }
        match zip_read(&mut archive, k) {
            Ok(data) => {
                match append_entry(&mut content, k, data) {
                    Ok(()) => {},
                    Err(error) => {
                        proof {
                            lemma_entries_text_failure_persists(entries, k + 1);
                        }
                        return Err(error);
                    },
                }
            },
            Err(_) => {
                proof {
                    lemma_entries_text_failure_persists(entries, k + 1);
                }
                return Err(ExtractionError::BadEntry);
            },
        }
        k += 1;
    }
    assert(entries.take(count as int) =~= entries);
    Ok(content)
}

/// Extracts the text of a gzip stream: the decompressed bytes, decoded as
/// UTF-8.
pub fn extract_from_gzip(gzip_bytes: &[u8]) -> (result: Result<String, ExtractionError>)
    ensures
        text_view(result) == gzip_text(gunzipped(gzip_bytes@)),
{
    match gunzip(gzip_bytes) {
        Ok(data) => decode_text(data),
        Err(_) => Err(ExtractionError::BadGzip),
    }
}

/// Extracts the text of an artifact, whatever its container: a ZIP archive
/// or a gzip stream where the leading bytes announce one, plain UTF-8 text
/// otherwise. There is no falling back from one format to another.
pub fn extract_log_content(bytes: &[u8]) -> (result: Result<String, ExtractionError>)
    ensures
        text_view(result) == extracted(bytes@),
{
    match sniff(bytes) {
        Container::Zip => extract_from_zip(bytes),
        Container::Gzip => extract_from_gzip(bytes),
        Container::Plain => decode_text(slice_to_vec(bytes)),
    }
}

/// The texts of one job: the build steps, the deploy steps, and all steps
/// with their delimiter lines.
#[derive(Clone, Debug, PartialEq, Eq)]
pub struct LogContent {
    pub build_log: String,
    pub deploy_log: String,
    pub raw_content: String,
}

/// What a `LogContent` holds, as character sequences.
pub ghost struct CorpusView {
    pub build_log: Seq<char>,
    pub deploy_log: Seq<char>,
    pub raw_content: Seq<char>,
}

impl View for LogContent {
    type V = CorpusView;

    open spec fn view(&self) -> CorpusView {
        CorpusView {
            build_log: self.build_log@,
            deploy_log: self.deploy_log@,
            raw_content: self.raw_content@,
        }
    }
}

/// The corpus of no steps.
pub open spec fn empty_corpus() -> CorpusView {
    CorpusView { build_log: Seq::empty(), deploy_log: Seq::empty(), raw_content: Seq::empty() }
}

/// A step counts as a build step when its case-folded name mentions
/// "build".
pub open spec fn names_build(folded_name: Seq<char>) -> bool {
    occurs_in("build"@, folded_name)
}

/// A step counts as a deploy step when its case-folded name mentions
/// "deploy".
pub open spec fn names_deploy(folded_name: Seq<char>) -> bool {
    occurs_in("deploy"@, folded_name)
}

/// The corpus with one more step, given the step's case-folded name: the
/// raw content gains the delimiter line, the text and a blank line; the
/// build and deploy logs gain the text and a newline where the name says
/// so.
pub open spec fn with_step_as(
    corpus: CorpusView,
    name: Seq<char>,
    folded_name: Seq<char>,
    text: Seq<char>,
) -> CorpusView {
    CorpusView {
        build_log: if names_build(folded_name) {
            corpus.build_log + text + "\n"@
        } else {
            corpus.build_log
        },
        deploy_log: if names_deploy(folded_name) {
            corpus.deploy_log + text + "\n"@
        } else {
            corpus.deploy_log
        },
        raw_content: corpus.raw_content + "=== "@ + name + " ===\n"@ + text + "\n\n"@,
    }
}

/// The corpus with one more step.
pub open spec fn with_step(corpus: CorpusView, name: Seq<char>, text: Seq<char>) -> CorpusView {
    with_step_as(corpus, name, lowercase_of(name), text)
}

impl Default for LogContent {
    fn default() -> (corpus: LogContent)
        ensures
            corpus@ == empty_corpus(),
    {
        LogContent::new()
    }
}

impl LogContent {
    /// The corpus of no steps.
    pub fn new() -> (corpus: LogContent)
        ensures
            corpus@ == empty_corpus(),
    {
        LogContent { build_log: String::new(), deploy_log: String::new(), raw_content: String::new() }
    }

    /// Adds the text of a step, given the step's case-folded name.
    pub fn add_step_as(&mut self, step_name: &str, folded_name: &str, text: &str)
        ensures
            final(self)@ == with_step_as(old(self)@, step_name@, folded_name@, text@),
    {
        if contains(folded_name, "build") {
            self.build_log.append(text);
            self.build_log.append("\n");
        }
        if contains(folded_name, "deploy") {
            self.deploy_log.append(text);
            self.deploy_log.append("\n");
        }
        self.raw_content.append("=== ");
        self.raw_content.append(step_name);
        self.raw_content.append(" ===\n");
        self.raw_content.append(text);
        self.raw_content.append("\n\n");
    }

    /// Adds the text of a step.
    pub fn add_step(&mut self, step_name: &str, text: &str)
        ensures
            final(self)@ == with_step(old(self)@, step_name@, text@),
    {
        let folded_name = lowercase(step_name);
        self.add_step_as(step_name, folded_name.as_str(), text);
    }
}

/// How the download of one artifact ended.
#[derive(Clone, Debug, PartialEq, Eq)]
pub enum FetchOutcome {
    /// The server was never reached, or the body never arrived.
    Unreachable,
    /// The server answered.
    Response { status: u16, body: Vec<u8> },
}

/// Why an artifact could not be fetched.
#[derive(Clone, Copy, Debug, PartialEq, Eq)]
pub enum FetchError {
    /// The server was never reached.
    Transport,
    /// The server answered with this status, which is no success.
    Status(u16),
}

/// Why a step has no text.
#[derive(Clone, Copy, Debug, PartialEq, Eq)]
pub enum StepError {
    Fetch(FetchError),
    Extraction(ExtractionError),
}

/// Why a job has no corpus.
#[derive(Clone, Copy, Debug, PartialEq, Eq)]
pub enum AssemblyError {
    /// The job has no step with a log.
    NoArtifacts,
    /// The step at `index` has no text.
    Step { index: usize, error: StepError },
}

/// A step of a job with the outcome of the download of its log.
#[derive(Clone, Debug, PartialEq, Eq)]
pub struct FetchedStep {
    pub step_name: String,
    pub outcome: FetchOutcome,
}

/// The statuses that count as success.
pub open spec fn is_success(status: u16) -> bool {
    200 <= status <= 299
}

/// The text of a step, given the outcome of the download.
pub open spec fn outcome_text(outcome: FetchOutcome) -> Result<Seq<char>, StepError> {
    match outcome {
        FetchOutcome::Unreachable => Err(StepError::Fetch(FetchError::Transport)),
        FetchOutcome::Response { status, body } => if is_success(status) {
            match extracted(body@) {
                Ok(text) => Ok(text),
                Err(error) => Err(StepError::Extraction(error)),
            }
        } else {
            Err(StepError::Fetch(FetchError::Status(status)))
        },
    }
}

/// Turns the outcome of a download into the text of the step: a transport
/// failure and a status that is no success are errors of their own, and a
/// body that arrived is handed to the extraction.
pub fn fetched_text(outcome: &FetchOutcome) -> (result: Result<String, StepError>)
    ensures
        match result {
            Ok(text) => outcome_text(*outcome) == Ok::<Seq<char>, StepError>(text@),
            Err(error) => outcome_text(*outcome) == Err::<Seq<char>, StepError>(error),
        },
{
    match outcome {
        FetchOutcome::Unreachable => Err(StepError::Fetch(FetchError::Transport)),
        FetchOutcome::Response { status, body } => {
            if 200 <= *status && *status <= 299 {
                match extract_log_content(body.as_slice()) {
                    Ok(text) => Ok(text),
                    Err(error) => Err(StepError::Extraction(error)),
                }
            } else {
                Err(StepError::Fetch(FetchError::Status(*status)))
            }
        },
    }
}

/// The corpus of the first `n` steps, or the error of the first step that
/// has no text.
pub open spec fn assembled_prefix(steps: Seq<FetchedStep>, n: int) -> Result<
    CorpusView,
    AssemblyError,
>
    decreases n,
{
    if n <= 0 {
        Ok(empty_corpus())
    } else {
        match assembled_prefix(steps, n - 1) {
            Err(error) => Err(error),
            Ok(corpus) => match outcome_text(steps[n - 1].outcome) {
                Err(error) => Err(AssemblyError::Step { index: (n - 1) as usize, error }),
                Ok(text) => Ok(with_step(corpus, steps[n - 1].step_name@, text)),
            },
        }
    }
}

/// The corpus of a job: that of all its steps, in the given order; no
/// corpus for a job without steps.
pub open spec fn assembled(steps: Seq<FetchedStep>) -> Result<CorpusView, AssemblyError> {
    if steps.len() == 0 {
        Err(AssemblyError::NoArtifacts)
    } else {
        assembled_prefix(steps, steps.len() as int)
    }
}

/// Once a prefix of the steps has no corpus, no longer prefix has one, for
/// the same reason.
proof fn lemma_assembly_failure_persists(steps: Seq<FetchedStep>, n: int, m: int)
    requires
        0 <= n <= m,
        assembled_prefix(steps, n) is Err,
    ensures
        assembled_prefix(steps, m) == assembled_prefix(steps, n),
    decreases m - n,
{
    if n < m {
        lemma_assembly_failure_persists(steps, n, m - 1);
    }
}

/// Assembles the corpus of a job from its steps and the outcomes of their
/// downloads, in the given order. Fails on a job without steps, and on the
/// first step that has no text: no partial corpus is returned.
pub fn assemble(steps: &Vec<FetchedStep>) -> (result: Result<LogContent, AssemblyError>)
    ensures
        match result {
            Ok(corpus) => assembled(steps@) == Ok::<CorpusView, AssemblyError>(corpus@),
            Err(error) => assembled(steps@) == Err::<CorpusView, AssemblyError>(error),
        },
{
    if steps.len() == 0 {
        return Err(AssemblyError::NoArtifacts);
    }
    let mut corpus = LogContent::new();
    let mut k: usize = 0;
    while k < steps.len()
        invariant
            k <= steps@.len(),
            assembled_prefix(steps@, k as int) == Ok::<CorpusView, AssemblyError>(corpus@),
        decreases steps@.len() - k,
    {
        match fetched_text(&steps[k].outcome) {
            Ok(text) => {
                corpus.add_step(steps[k].step_name.as_str(), text.as_str());
            },
            Err(error) => {
                proof {
                    lemma_assembly_failure_persists(steps@, k + 1, steps@.len() as int);
                }
                return Err(AssemblyError::Step { index: k, error });
            },
        }
        k += 1;
    }
    Ok(corpus)
}

/// Plain UTF-8 text extracts unchanged, unless its leading bytes announce
/// a container.
pub proof fn lemma_plain_text_extracts_unchanged(text: Seq<char>)
    requires
        container_of(encode_utf8(text)) == Container::Plain,
    ensures
        extracted(encode_utf8(text)) == Ok::<Seq<char>, ExtractionError>(text),
{
    encode_utf8_valid_utf8(text);
    encode_utf8_decode_utf8(text);
}

/// An archive whose only entry holds a UTF-8 text has that text, with
/// nothing added.
pub proof fn lemma_single_entry_archive_text(name: Option<Seq<char>>, text: Seq<char>)
    ensures
        zip_text(Some(seq![(name, Some(encode_utf8(text)))])) == Ok::<Seq<char>, ExtractionError>(
            text,
        ),
{
    let entries = seq![Some(encode_utf8(text))];
    assert(contents_of(seq![(name, Some(encode_utf8(text)))]) =~= entries);
    encode_utf8_valid_utf8(text);
    encode_utf8_decode_utf8(text);
    assert(entries.drop_last() =~= Seq::<Option<Seq<u8>>>::empty());
    assert(entries_text(entries.drop_last()) == Ok::<Seq<char>, ExtractionError>(Seq::empty()));
    assert(entries.last() == Some(encode_utf8(text)));
    assert(Seq::<char>::empty() + text =~= text);
}

/// A gzip stream that holds a UTF-8 text has that text.
pub proof fn lemma_gzip_text_of_utf8(text: Seq<char>)
    ensures
        gzip_text(Some(encode_utf8(text))) == Ok::<Seq<char>, ExtractionError>(text),
{
    encode_utf8_valid_utf8(text);
    encode_utf8_decode_utf8(text);
}

/// An archive has a text exactly when every entry has one: a text is never
/// made of some entries only.
pub proof fn lemma_archive_text_is_all_or_nothing(entries: Seq<Option<Seq<u8>>>)
    ensures
        entries_text(entries) is Ok <==> forall|i: int|
            0 <= i < entries.len() ==> entry_text(#[trigger] entries[i]) is Ok,
    decreases entries.len(),
{
    if entries.len() > 0 {
        let init = entries.drop_last();
        lemma_archive_text_is_all_or_nothing(init);
        if entries_text(entries) is Ok {
            assert forall|i: int| 0 <= i < entries.len() implies entry_text(
                #[trigger] entries[i],
            ) is Ok by {
                if i < init.len() {
                    assert(entries[i] == init[i]);
                }
            }
        }
        if forall|i: int| 0 <= i < entries.len() ==> entry_text(#[trigger] entries[i]) is Ok {
            assert forall|i: int| 0 <= i < init.len() implies entry_text(
                #[trigger] init[i],
            ) is Ok by {
                assert(init[i] == entries[i]);
            }
            assert(entry_text(entries[entries.len() - 1]) is Ok);
        }
    }
}

/// Bytes that announce a container and are none have no text: there is no
/// falling back to another format.
pub proof fn lemma_broken_container_has_no_text(bytes: Seq<u8>)
    ensures
        container_of(bytes) == Container::Zip && zip_entries(bytes) is None ==> extracted(bytes)
            == Err::<Seq<char>, ExtractionError>(ExtractionError::BadArchive),
        container_of(bytes) == Container::Gzip && gunzipped(bytes) is None ==> extracted(bytes)
            == Err::<Seq<char>, ExtractionError>(ExtractionError::BadGzip),
{
}

/// A prefix of the steps has a corpus exactly when each of its steps has a
/// text; otherwise the error names the first step that has none.
proof fn lemma_prefix_assembly(steps: Seq<FetchedStep>, n: int)
    requires
        0 <= n <= steps.len() <= usize::MAX,
    ensures
        assembled_prefix(steps, n) is Ok <==> forall|i: int|
            0 <= i < n ==> outcome_text(#[trigger] steps[i].outcome) is Ok,
        assembled_prefix(steps, n) matches Err(failure) ==> failure matches AssemblyError::Step {
            index,
            error,
        } && index < n && outcome_text(steps[index as int].outcome) == Err::<Seq<char>, StepError>(
            error,
        ) && forall|j: int| 0 <= j < index ==> outcome_text(#[trigger] steps[j].outcome) is Ok,
    decreases n,
{
    if n > 0 {
        lemma_prefix_assembly(steps, n - 1);
        if assembled_prefix(steps, n - 1) is Ok {
            if outcome_text(steps[n - 1].outcome) is Ok {
                assert forall|i: int| 0 <= i < n implies outcome_text(
                    #[trigger] steps[i].outcome,
                ) is Ok by {
                    if i < n - 1 {
                    }
                }
            }
        }
    }
}

/// A job has a corpus exactly when it has a step and every step has a
/// text. A job without steps fails as such; otherwise the error names the
/// first step that has no text, with the reason.
pub proof fn lemma_assembly_is_all_or_nothing(steps: Seq<FetchedStep>)
    requires
        steps.len() <= usize::MAX,
    ensures
        assembled(steps) is Ok <==> steps.len() > 0 && forall|i: int|
            0 <= i < steps.len() ==> outcome_text(#[trigger] steps[i].outcome) is Ok,
        steps.len() == 0 <==> assembled(steps) == Err::<CorpusView, AssemblyError>(
            AssemblyError::NoArtifacts,
        ),
        assembled(steps) matches Err(AssemblyError::Step { index, error }) ==> index < steps.len()
            && outcome_text(steps[index as int].outcome) == Err::<Seq<char>, StepError>(error)
            && forall|j: int| 0 <= j < index ==> outcome_text(#[trigger] steps[j].outcome) is Ok,
{
    lemma_prefix_assembly(steps, steps.len() as int);
}

/// Taking in the steps one at a time gives what the whole list gives: a
/// step with a text extends the corpus of the steps before it, and a step
/// without one fails the job with its index and its error.
pub proof fn lemma_assembly_goes_step_by_step(steps: Seq<FetchedStep>, n: int, corpus: CorpusView)
    requires
        0 <= n < steps.len() <= usize::MAX,
        assembled_prefix(steps, n) == Ok::<CorpusView, AssemblyError>(corpus),
    ensures
        match outcome_text(steps[n].outcome) {
            Ok(text) => assembled_prefix(steps, n + 1) == Ok::<CorpusView, AssemblyError>(
                with_step(corpus, steps[n].step_name@, text),
            ),
            Err(error) => assembled(steps) == Err::<CorpusView, AssemblyError>(
                AssemblyError::Step { index: n as usize, error },
            ),
        },
        n + 1 == steps.len() ==> assembled(steps) == assembled_prefix(steps, n + 1),
{
    if outcome_text(steps[n].outcome) is Err {
        lemma_assembly_failure_persists(steps, n + 1, steps.len() as int);
    }
}

/// The steps after the first one that has no text do not matter: the job
/// fails as the steps up to that one do.
pub proof fn lemma_assembly_stops_at_first_failure(steps: Seq<FetchedStep>, n: int)
    requires
        0 < n <= steps.len(),
        outcome_text(steps[n - 1].outcome) is Err,
    ensures
        assembled(steps) == assembled(steps.take(n)),
{
    lemma_prefix_agrees(steps, steps.take(n), n);
    if assembled_prefix(steps, n - 1) is Ok {
    }
    lemma_assembly_failure_persists(steps, n, steps.len() as int);
}

/// Two lists of steps that agree on their first `n` steps have the same
/// corpus of those.
proof fn lemma_prefix_agrees(first: Seq<FetchedStep>, second: Seq<FetchedStep>, n: int)
    requires
        0 <= n <= first.len(),
        n <= second.len(),
        forall|i: int| 0 <= i < n ==> first[i] == second[i],
    ensures
        assembled_prefix(first, n) == assembled_prefix(second, n),
    decreases n,
{
    if n > 0 {
        lemma_prefix_agrees(first, second, n - 1);
    }
}

/// The outputs file of a build, as it was saved.
#[derive(Clone, Debug, PartialEq, Eq)]
pub struct DownloadOutputsResult {
    pub file_path: String,
    pub content: String,
}

/// The name of the outputs file.
pub const OUTPUTS_FILE_NAME: &'static str = "amplify_outputs.json";

/// What a text that looks like an outputs file mentions.
pub const VERSION_KEY: &'static str = "\"version\"";

pub const AUTH_KEY: &'static str = "\"auth\"";

pub const DATA_KEY: &'static str = "\"data\"";

/// An entry is the outputs file when its case-folded name mentions the
/// file's name.
pub open spec fn names_outputs(folded_name: Seq<char>) -> bool {
    occurs_in(OUTPUTS_FILE_NAME@, folded_name)
}

/// Tells whether a case-folded entry name is that of the outputs file.
pub fn is_outputs_name(folded_name: &str) -> (named: bool)
    ensures
        named == names_outputs(folded_name@),
{
    contains(folded_name, OUTPUTS_FILE_NAME)
}

/// A text looks like an outputs file when it mentions a version and
/// auth, or data.
pub open spec fn looks_like_outputs(content: Seq<char>) -> bool {
    (occurs_in(VERSION_KEY@, content) && occurs_in(AUTH_KEY@, content)) || occurs_in(
        DATA_KEY@,
        content,
    )
}

/// The outputs file among the entries from `from` on: the text of the
/// first entry that is named like it; an error where an entry before it
/// has no name, or where the file has no text.
pub open spec fn outputs_from(entries: Seq<(Option<Seq<char>>, Option<Seq<u8>>)>, from: int)
    -> Result<Option<Seq<char>>, ExtractionError>
    decreases entries.len() - from,
{
    if from < 0 || from >= entries.len() {
        Ok(None)
    } else {
        match entries[from].0 {
            None => Err(ExtractionError::BadEntry),
            Some(name) => if names_outputs(lowercase_of(name)) {
                match entry_text(entries[from].1) {
                    Ok(text) => Ok(Some(text)),
                    Err(error) => Err(error),
                }
            } else {
                outputs_from(entries, from + 1)
            },
        }
    }
}

/// The outputs file of a ZIP archive, given what the reader finds in it.
pub open spec fn zip_outputs(found: Option<Seq<(Option<Seq<char>>, Option<Seq<u8>>)>>) -> Result<
    Option<Seq<char>>,
    ExtractionError,
> {
    match found {
        Some(entries) => outputs_from(entries, 0),
        None => Err(ExtractionError::BadArchive),
    }
}

/// The view of a search for the outputs file.
pub open spec fn outputs_view<E>(result: Result<Option<String>, E>) -> Result<
    Option<Seq<char>>,
    E,
> {
    match result {
        Ok(Some(text)) => Ok(Some(text@)),
        Ok(None) => Ok(None),
        Err(error) => Err(error),
    }
}

/// Looks for the outputs file in a ZIP archive: the text of the first
/// entry that is named like it, nothing where no entry is.
pub fn extract_outputs_from_zip(zip_bytes: &[u8]) -> (result: Result<
    Option<String>,
    ExtractionError,
>)
    ensures
        outputs_view(result) == zip_outputs(zip_entries(zip_bytes@)),
{
    let mut archive = match zip_open(zip_bytes) {
        Ok(archive) => archive,
        Err(_) => {
            return Err(ExtractionError::BadArchive);
        },
    };
    let ghost entries = archive_entries(archive);
    let count = zip_len(&archive);
    let mut k: usize = 0;
    while k < count
        invariant
            k <= count,
            count == entries.len(),
            archive_entries(archive) == entries,
            zip_entries(zip_bytes@) == Some(entries),
            outputs_from(entries, 0) == outputs_from(entries, k as int),
        decreases count - k,
    {
        let name = match zip_name(&mut archive, k) {
            Ok(name) => name,
            Err(_) => {
                return Err(ExtractionError::BadEntry);
            },
        };
        let folded = lowercase(name.as_str());
        if is_outputs_name(folded.as_str()) {
            return match zip_read(&mut archive, k) {
                Ok(data) => match decode_text(data) {
                    Ok(text) => Ok(Some(text)),
                    Err(error) => Err(error),
                },
                Err(_) => Err(ExtractionError::BadEntry),
            };
        }
        k += 1;
    }
    Ok(None)
}

/// Whether the bytes are taken for an archive that may hold the outputs
/// file: four bytes at least, of which the first two are `PK`.
pub open spec fn may_hold_outputs(bytes: Seq<u8>) -> bool {
    bytes.len() >= 4 && bytes[0] == 0x50 && bytes[1] == 0x4B
}

/// The outputs file that an artifact holds: the one in the archive, for
/// an archive; the artifact itself where it is a text that looks like an
/// outputs file; else nothing.
pub open spec fn outputs_of(bytes: Seq<u8>) -> Result<Option<Seq<char>>, ExtractionError> {
    if may_hold_outputs(bytes) {
        zip_outputs(zip_entries(bytes))
    } else if valid_utf8(bytes) && looks_like_outputs(decode_utf8(bytes)) {
        Ok(Some(decode_utf8(bytes)))
    } else {
        Ok(None)
    }
}

/// Looks for the outputs file in an artifact.
pub fn find_outputs(bytes: &[u8]) -> (result: Result<Option<String>, ExtractionError>)
    ensures
        outputs_view(result) == outputs_of(bytes@),
{
    if bytes.len() >= 4 && bytes[0] == 0x50 && bytes[1] == 0x4B {
        return extract_outputs_from_zip(bytes);
    }
    match decode_text(slice_to_vec(bytes)) {
        Ok(content) => {
            let text = content.as_str();
            if (contains(text, VERSION_KEY) && contains(text, AUTH_KEY)) || contains(
                text,
                DATA_KEY,
            ) {
                Ok(Some(content))
            } else {
                Ok(None)
            }
        },
        Err(_) => Ok(None),
    }
}

/// The outputs file that a download brought.
pub open spec fn outcome_outputs(outcome: FetchOutcome) -> Result<Option<Seq<char>>, StepError> {
    match outcome {
        FetchOutcome::Unreachable => Err(StepError::Fetch(FetchError::Transport)),
        FetchOutcome::Response { status, body } => if is_success(status) {
            match outputs_of(body@) {
                Ok(found) => Ok(found),
                Err(error) => Err(StepError::Extraction(error)),
            }
        } else {
            Err(StepError::Fetch(FetchError::Status(status)))
        },
    }
}

/// Turns the outcome of the download of an artifact into the outputs
/// file that it holds.
pub fn fetched_outputs(outcome: &FetchOutcome) -> (result: Result<Option<String>, StepError>)
    ensures
        outputs_view(result) == outcome_outputs(*outcome),
{
    match outcome {
        FetchOutcome::Unreachable => Err(StepError::Fetch(FetchError::Transport)),
        FetchOutcome::Response { status, body } => {
            if 200 <= *status && *status <= 299 {
                match find_outputs(body.as_slice()) {
                    Ok(found) => Ok(found),
                    Err(error) => Err(StepError::Extraction(error)),
                }
            } else {
                Err(StepError::Fetch(FetchError::Status(*status)))
            }
        },
    }
}

/// Why a job has no outputs file.
#[derive(Clone, Copy, Debug, PartialEq, Eq)]
pub enum OutputsError {
    /// The job has no artifacts.
    NoArtifacts,
    /// No artifact holds the file.
    NotFound,
}

/// Whether the artifact of a step holds the outputs file.
pub open spec fn holds_outputs(step: FetchedStep) -> bool {
    outcome_outputs(step.outcome) matches Ok(Some(_))
}

/// Picks the outputs file of a job from its artifacts: that of the first
/// artifact which holds one. An artifact that could not be fetched or
/// read is passed over.
pub fn select_outputs(artifacts: &Vec<FetchedStep>) -> (result: Result<String, OutputsError>)
    ensures
        match result {
            Ok(content) => exists|k: int|
                0 <= k < artifacts@.len() && outcome_outputs(artifacts@[k].outcome) == Ok::<
                    Option<Seq<char>>,
                    StepError,
                >(Some(content@)) && forall|j: int|
                    0 <= j < k ==> !holds_outputs(#[trigger] artifacts@[j]),
            Err(error) => (forall|j: int|
                0 <= j < artifacts@.len() ==> !holds_outputs(#[trigger] artifacts@[j])) && error
                == if artifacts@.len() == 0 {
                OutputsError::NoArtifacts
            } else {
                OutputsError::NotFound
            },
        },
{
    if artifacts.len() == 0 {
        return Err(OutputsError::NoArtifacts);
    }
    let mut k: usize = 0;
    while k < artifacts.len()
        invariant
            k <= artifacts@.len(),
            artifacts@.len() > 0,
            forall|j: int| 0 <= j < k ==> !holds_outputs(#[trigger] artifacts@[j]),
        decreases artifacts@.len() - k,
    {
        match fetched_outputs(&artifacts[k].outcome) {
            Ok(Some(content)) => {
                return Ok(content);
            },
            _ => {},
        }
        k += 1;
    }
    Err(OutputsError::NotFound)
}

/// The assembly of a corpus, one download at a time: it says which log is
/// to be fetched next, takes the outcome of the download, and fails at the
/// first step that has no text.
pub struct CorpusAssembler {
    refs: Vec<LogArtifactRef>,
    taken: usize,
    corpus: LogContent,
}

impl CorpusAssembler {
    /// The logs to fetch, in order.
    pub closed spec fn refs(&self) -> Seq<LogArtifactRef> {
        self.refs@
    }

    /// How many of the logs were taken in.
    pub closed spec fn taken(&self) -> nat {
        self.taken as nat
    }

    /// The corpus of the logs taken in.
    pub closed spec fn corpus(&self) -> CorpusView {
        self.corpus@
    }

    /// No more logs were taken in than there are.
    pub closed spec fn well_formed(&self) -> bool {
        self.taken <= self.refs@.len()
    }

    /// Starts the assembly. There is nothing to assemble for a job
    /// without logs.
    pub fn begin(refs: Vec<LogArtifactRef>) -> (result: Result<CorpusAssembler, AssemblyError>)
        ensures
            match result {
                Ok(assembler) => refs@.len() > 0 && assembler.well_formed() && assembler.refs()
                    == refs@ && assembler.taken() == 0 && assembler.corpus() == empty_corpus(),
                Err(error) => refs@.len() == 0 && error == AssemblyError::NoArtifacts,
            },
    {
        if refs.len() == 0 {
            Err(AssemblyError::NoArtifacts)
        } else {
            Ok(CorpusAssembler { refs, taken: 0, corpus: LogContent::new() })
        }
    }

    /// The log to fetch next, if any is left.
    pub fn pending(&self) -> (next: Option<&LogArtifactRef>)
        requires
            self.well_formed(),
        ensures
            match next {
                Some(artifact) => self.taken() < self.refs().len() && *artifact
                    == self.refs()[self.taken() as int],
                None => self.taken() == self.refs().len(),
            },
    {
        if self.taken < self.refs.len() {
            Some(&self.refs[self.taken])
        } else {
            None
        }
    }

    /// Takes in the outcome of the download of the pending log: its text
    /// is added to the corpus, or the assembly fails with the step's
    /// error and stays as it was.
    pub fn accept(&mut self, outcome: &FetchOutcome) -> (result: Result<(), AssemblyError>)
        requires
            old(self).well_formed(),
            old(self).taken() < old(self).refs().len(),
        ensures
            final(self).well_formed(),
            final(self).refs() == old(self).refs(),
            match outcome_text(*outcome) {
                Ok(text) => result is Ok && final(self).taken() == old(self).taken() + 1
                    && final(self).corpus() == with_step(
                    old(self).corpus(),
                    old(self).refs()[old(self).taken() as int].step_name@,
                    text,
                ),
                Err(error) => result == Err::<(), AssemblyError>(
                    AssemblyError::Step { index: old(self).taken() as usize, error },
                ) && final(self).taken() == old(self).taken() && final(self).corpus() == old(
                    self,
                ).corpus(),
            },
    {
        let count: usize = self.refs.len();
        match fetched_text(outcome) {
            Ok(text) => {
                self.corpus.add_step(self.refs[self.taken].step_name.as_str(), text.as_str());
                self.taken = self.taken + 1;
                Ok(())
            },
            Err(error) => Err(AssemblyError::Step { index: self.taken, error }),
        }
    }

    /// The corpus, once every log was taken in.
    pub fn finish(self) -> (corpus: LogContent)
        requires
            self.well_formed(),
            self.taken() == self.refs().len(),
        ensures
            corpus@ == self.corpus(),
    {
        self.corpus
    }
}

pub const BAD_ARCHIVE_MESSAGE: &'static str = "Failed to read ZIP archive";

pub const BAD_ENTRY_MESSAGE: &'static str = "Failed to read a file of the ZIP archive";

pub const BAD_GZIP_MESSAGE: &'static str = "Failed to decompress gzip log";

pub const INVALID_UTF8_MESSAGE: &'static str = "Failed to decode log as UTF-8 text";

pub const TRANSPORT_MESSAGE: &'static str = "Failed to download logs";

pub const STATUS_MESSAGE: &'static str = "Failed to download logs: HTTP ";

pub const NO_ARTIFACTS_MESSAGE: &'static str = "No log URLs found for job";

pub const NO_OUTPUT_ARTIFACTS_MESSAGE: &'static str = "No artifacts found for job";

pub const OUTPUTS_NOT_FOUND_MESSAGE: &'static str =
    "amplify_outputs.json not found in job artifacts. Make sure the build produces this file.";

impl ExtractionError {
    /// What to tell the user.
    pub fn message(&self) -> (text: &'static str)
        ensures
            text@ == match *self {
                ExtractionError::BadArchive => BAD_ARCHIVE_MESSAGE@,
                ExtractionError::BadEntry => BAD_ENTRY_MESSAGE@,
                ExtractionError::BadGzip => BAD_GZIP_MESSAGE@,
                ExtractionError::InvalidUtf8 => INVALID_UTF8_MESSAGE@,
            },
    {
        match self {
            ExtractionError::BadArchive => BAD_ARCHIVE_MESSAGE,
            ExtractionError::BadEntry => BAD_ENTRY_MESSAGE,
            ExtractionError::BadGzip => BAD_GZIP_MESSAGE,
            ExtractionError::InvalidUtf8 => INVALID_UTF8_MESSAGE,
        }
    }
}

impl StepError {
    /// What to tell the user; a status is named by its number.
    pub open spec fn message_of(self) -> Seq<char> {
        match self {
            StepError::Fetch(FetchError::Transport) => TRANSPORT_MESSAGE@,
            StepError::Fetch(FetchError::Status(status)) => STATUS_MESSAGE@ + decimal_of(
                status as nat,
            ),
            StepError::Extraction(ExtractionError::BadArchive) => BAD_ARCHIVE_MESSAGE@,
            StepError::Extraction(ExtractionError::BadEntry) => BAD_ENTRY_MESSAGE@,
            StepError::Extraction(ExtractionError::BadGzip) => BAD_GZIP_MESSAGE@,
            StepError::Extraction(ExtractionError::InvalidUtf8) => INVALID_UTF8_MESSAGE@,
        }
    }

    /// What to tell the user.
    pub fn message(&self) -> (text: String)
        ensures
            text@ == self.message_of(),
    {
        match self {
            StepError::Fetch(FetchError::Transport) => TRANSPORT_MESSAGE.to_string(),
            StepError::Fetch(FetchError::Status(status)) => {
                let mut text = STATUS_MESSAGE.to_string();
                text.append(decimal(*status as usize).as_str());
                text
            },
            StepError::Extraction(error) => error.message().to_string(),
        }
    }
}

impl OutputsError {
    /// The error for a job of which no artifact holds the outputs file,
    /// by the number of its artifacts.
    pub fn when_none_of(artifacts: usize) -> (error: OutputsError)
        ensures
            error == if artifacts == 0 {
                OutputsError::NoArtifacts
            } else {
                OutputsError::NotFound
            },
    {
        if artifacts == 0 {
            OutputsError::NoArtifacts
        } else {
            OutputsError::NotFound
        }
    }

    /// What to tell the user.
    pub fn message(&self) -> (text: &'static str)
        ensures
            text@ == match *self {
                OutputsError::NoArtifacts => NO_OUTPUT_ARTIFACTS_MESSAGE@,
                OutputsError::NotFound => OUTPUTS_NOT_FOUND_MESSAGE@,
            },
    {
        match self {
            OutputsError::NoArtifacts => NO_OUTPUT_ARTIFACTS_MESSAGE,
            OutputsError::NotFound => OUTPUTS_NOT_FOUND_MESSAGE,
        }
    }
}

impl AssemblyError {
    /// What to tell the user, given the names of the steps: a failing step
    /// is named.
    pub open spec fn message_of(self, step_name: Seq<char>) -> Seq<char> {
        match self {
            AssemblyError::NoArtifacts => NO_ARTIFACTS_MESSAGE@,
            AssemblyError::Step { index, error } => error.message_of() + " (step "@ + step_name
                + ")"@,
        }
    }

    /// What to tell the user; `step_name` is the name of the failing step.
    pub fn message(&self, step_name: &str) -> (text: String)
        ensures
            text@ == self.message_of(step_name@),
    {
        match self {
            AssemblyError::NoArtifacts => NO_ARTIFACTS_MESSAGE.to_string(),
            AssemblyError::Step { index, error } => {
                let mut text = error.message();
                text.append(" (step ");
                text.append(step_name);
                text.append(")");
                text
            },
        }
    }
}

} // verus!
