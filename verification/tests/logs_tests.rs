use amplify_monitor::logs::{
    append_entry, assemble, decode_text, extract_from_gzip, extract_from_zip, extract_log_content,
    extract_outputs_from_zip, fetched_outputs, fetched_text, find_outputs, is_outputs_name,
    select_outputs, sniff, AssemblyError, Container, ExtractionError, FetchError, FetchOutcome,
    FetchedStep, LogContent, OutputsError, StepError,
};
use std::io::Write;

fn gzip(data: &[u8]) -> Vec<u8> {
    let mut encoder = flate2::write::GzEncoder::new(Vec::new(), flate2::Compression::default());
    encoder.write_all(data).unwrap();
    encoder.finish().unwrap()
}

fn zip_of(entries: &[(&str, &[u8])]) -> Vec<u8> {
    let mut writer = zip::ZipWriter::new(std::io::Cursor::new(Vec::new()));
    for (name, data) in entries {
        writer.start_file(*name, zip::write::SimpleFileOptions::default()).unwrap();
        writer.write_all(data).unwrap();
    }
    writer.finish().unwrap().into_inner()
}

fn step(name: &str, outcome: FetchOutcome) -> FetchedStep {
    FetchedStep { step_name: name.to_string(), outcome }
}

fn ok(body: &[u8]) -> FetchOutcome {
    FetchOutcome::Response { status: 200, body: body.to_vec() }
}

#[test]
fn sniff_goes_by_the_first_two_bytes() {
    assert_eq!(sniff(b"PK\x03\x04rest"), Container::Zip);
    assert_eq!(sniff(b"PK"), Container::Zip);
    assert_eq!(sniff(b"\x1f\x8b\x08"), Container::Gzip);
    assert_eq!(sniff(b"\x1f\x8b"), Container::Gzip);
    assert_eq!(sniff(b"P"), Container::Plain);
    assert_eq!(sniff(b"\x1f"), Container::Plain);
    assert_eq!(sniff(b""), Container::Plain);
    assert_eq!(sniff(b"KP"), Container::Plain);
    assert_eq!(sniff(b"plain text"), Container::Plain);
    assert_eq!(sniff(b"\x8b\x1f"), Container::Plain);
}

#[test]
fn plain_text_extracts_unchanged() {
    assert_eq!(extract_log_content(b"hello\nworld"), Ok("hello\nworld".to_string()));
    assert_eq!(extract_log_content(b""), Ok(String::new()));
    let text = "caf\u{e9} \u{2713} build";
    assert_eq!(extract_log_content(text.as_bytes()), Ok(text.to_string()));
}

#[test]
fn plain_text_that_is_not_utf8_is_refused() {
    assert_eq!(extract_log_content(b"abc\xff\xfe"), Err(ExtractionError::InvalidUtf8));
    assert_eq!(extract_log_content(b"\xc3"), Err(ExtractionError::InvalidUtf8));
    assert_eq!(decode_text(vec![0xed, 0xa0, 0x80]), Err(ExtractionError::InvalidUtf8));
    assert_eq!(decode_text(vec![0xc0, 0x80]), Err(ExtractionError::InvalidUtf8));
    assert_eq!(decode_text(vec![0xe2, 0x9c, 0x93]), Ok("\u{2713}".to_string()));
    assert_eq!(decode_text(Vec::new()), Ok(String::new()));
}

#[test]
fn gzip_round_trip() {
    let text = "Build started\nnpm ERR! code EUSAGE\n";
    let packed = gzip(text.as_bytes());
    assert_ne!(packed, text.as_bytes());
    assert_eq!(extract_log_content(&packed), Ok(text.to_string()));
    assert_eq!(extract_from_gzip(&packed), Ok(text.to_string()));
    assert_eq!(extract_log_content(&gzip(b"")), Ok(String::new()));
}

#[test]
fn zip_round_trip_with_one_entry() {
    let text = "Deploy finished\nall good";
    let packed = zip_of(&[("log.txt", text.as_bytes())]);
    assert_eq!(extract_log_content(&packed), Ok(text.to_string()));
    assert_eq!(extract_from_zip(&packed), Ok(text.to_string()));
}

#[test]
fn zip_entries_are_joined_by_newlines_in_archive_order() {
    let packed = zip_of(&[("b.txt", b"second"), ("a.txt", b"first"), ("c.txt", b"")]);
    assert_eq!(extract_log_content(&packed), Ok("second\nfirst\n".to_string()));
    let packed = zip_of(&[("a", b""), ("b", b"x")]);
    assert_eq!(extract_log_content(&packed), Ok("\nx".to_string()));
}

#[test]
fn zip_without_entries_is_empty_text() {
    assert_eq!(extract_log_content(&zip_of(&[])), Ok(String::new()));
}

#[test]
fn zip_with_an_entry_that_is_not_utf8_is_refused_whole() {
    let packed = zip_of(&[("a.txt", b"good"), ("b.bin", b"\xff\xfe"), ("c.txt", b"more")]);
    assert_eq!(extract_log_content(&packed), Err(ExtractionError::InvalidUtf8));
}

#[test]
fn broken_zip_is_refused() {
    assert_eq!(extract_log_content(b"PK\x03\x04 this is garbage"), Err(ExtractionError::BadArchive));
    assert_eq!(extract_log_content(b"PK"), Err(ExtractionError::BadArchive));
    assert_eq!(extract_log_content(b"PKZ"), Err(ExtractionError::BadArchive));
    assert_eq!(extract_log_content(b"PK is how this text starts"), Err(ExtractionError::BadArchive));
    assert_eq!(extract_from_zip(b"plain"), Err(ExtractionError::BadArchive));
}

#[test]
fn zip_with_damaged_entry_is_refused() {
    let text = vec![b'a'; 4000];
    let mut packed = zip_of(&[("a.txt", &text)]);
    let at = 40;
    for byte in packed[at..at + 8].iter_mut() {
        *byte ^= 0xff;
    }
    assert!(extract_log_content(&packed).is_err());
}

#[test]
fn broken_gzip_is_refused() {
    assert_eq!(extract_log_content(b"\x1f\x8b garbage follows"), Err(ExtractionError::BadGzip));
    assert_eq!(extract_log_content(b"\x1f\x8b"), Err(ExtractionError::BadGzip));
    let mut packed = gzip(b"some text that is long enough to be cut in the middle");
    packed.truncate(packed.len() - 12);
    assert_eq!(extract_log_content(&packed), Err(ExtractionError::BadGzip));
    assert_eq!(extract_from_gzip(b"plain"), Err(ExtractionError::BadGzip));
}

#[test]
fn gzip_of_bytes_that_are_not_utf8_is_refused() {
    assert_eq!(extract_log_content(&gzip(b"ok\xff")), Err(ExtractionError::InvalidUtf8));
}

#[test]
fn append_entry_separates_by_newline() {
    let mut text = String::new();
    assert_eq!(append_entry(&mut text, 0, b"one".to_vec()), Ok(()));
    assert_eq!(text, "one");
    assert_eq!(append_entry(&mut text, 1, b"two".to_vec()), Ok(()));
    assert_eq!(text, "one\ntwo");
    assert_eq!(append_entry(&mut text, 2, b"\xff".to_vec()), Err(ExtractionError::InvalidUtf8));
    assert_eq!(text, "one\ntwo");
    assert_eq!(append_entry(&mut text, 2, Vec::new()), Ok(()));
    assert_eq!(text, "one\ntwo\n");
}

#[test]
fn job_without_logs_cannot_be_assembled() {
    assert_eq!(assemble(&Vec::new()).unwrap_err(), AssemblyError::NoArtifacts);
}

#[test]
fn corpus_of_one_build_step() {
    let corpus = assemble(&vec![step("BUILD", ok(b"compiling"))]).unwrap();
    assert_eq!(corpus.raw_content, "=== BUILD ===\ncompiling\n\n");
    assert_eq!(corpus.build_log, "compiling\n");
    assert_eq!(corpus.deploy_log, "");
}

#[test]
fn corpus_keeps_the_order_of_the_steps() {
    let corpus = assemble(&vec![
        step("Deploy", ok(b"d1")),
        step("Verify", ok(b"v1")),
        step("build", ok(&gzip(b"b1"))),
        step("deploy again", ok(&zip_of(&[("x", b"d2")]))),
    ])
    .unwrap();
    assert_eq!(
        corpus.raw_content,
        "=== Deploy ===\nd1\n\n=== Verify ===\nv1\n\n=== build ===\nb1\n\n=== deploy again ===\nd2\n\n"
    );
    assert_eq!(corpus.build_log, "b1\n");
    assert_eq!(corpus.deploy_log, "d1\nd2\n");
}

#[test]
fn step_named_for_both_phases_goes_to_both() {
    let corpus = assemble(&vec![step("BuildAndDeploy", ok(b"t"))]).unwrap();
    assert_eq!(corpus.build_log, "t\n");
    assert_eq!(corpus.deploy_log, "t\n");
    assert_eq!(corpus.raw_content, "=== BuildAndDeploy ===\nt\n\n");
}

#[test]
fn add_step_as_goes_by_the_folded_name() {
    let mut corpus = LogContent::new();
    corpus.add_step_as("X", "build", "a");
    corpus.add_step_as("BUILD", "other", "b");
    corpus.add_step_as("Y", "redeployment", "c");
    assert_eq!(corpus.build_log, "a\n");
    assert_eq!(corpus.deploy_log, "c\n");
    assert_eq!(corpus.raw_content, "=== X ===\na\n\n=== BUILD ===\nb\n\n=== Y ===\nc\n\n");
    let mut corpus = LogContent::default();
    corpus.add_step("PreBuild", "");
    assert_eq!(corpus.build_log, "\n");
    assert_eq!(corpus.raw_content, "=== PreBuild ===\n\n\n");
}

#[test]
fn assembly_fails_with_the_first_failing_step() {
    let steps = vec![
        step("BUILD", ok(b"fine")),
        step("DEPLOY", FetchOutcome::Response { status: 403, body: b"denied".to_vec() }),
        step("VERIFY", FetchOutcome::Unreachable),
    ];
    assert_eq!(
        assemble(&steps).unwrap_err(),
        AssemblyError::Step { index: 1, error: StepError::Fetch(FetchError::Status(403)) }
    );
    let steps = vec![step("BUILD", FetchOutcome::Unreachable), step("DEPLOY", ok(b"x"))];
    assert_eq!(
        assemble(&steps).unwrap_err(),
        AssemblyError::Step { index: 0, error: StepError::Fetch(FetchError::Transport) }
    );
    let steps = vec![step("BUILD", ok(b"x")), step("DEPLOY", ok(b"\x1f\x8bjunk"))];
    assert_eq!(
        assemble(&steps).unwrap_err(),
        AssemblyError::Step { index: 1, error: StepError::Extraction(ExtractionError::BadGzip) }
    );
}

#[test]
fn fetched_text_tells_status_from_transport() {
    assert_eq!(fetched_text(&ok(b"body")), Ok("body".to_string()));
    assert_eq!(
        fetched_text(&FetchOutcome::Response { status: 299, body: b"b".to_vec() }),
        Ok("b".to_string())
    );
    assert_eq!(
        fetched_text(&FetchOutcome::Response { status: 300, body: b"b".to_vec() }),
        Err(StepError::Fetch(FetchError::Status(300)))
    );
    assert_eq!(
        fetched_text(&FetchOutcome::Response { status: 199, body: b"b".to_vec() }),
        Err(StepError::Fetch(FetchError::Status(199)))
    );
    assert_eq!(
        fetched_text(&FetchOutcome::Response { status: 500, body: Vec::new() }),
        Err(StepError::Fetch(FetchError::Status(500)))
    );
    assert_eq!(fetched_text(&FetchOutcome::Unreachable), Err(StepError::Fetch(FetchError::Transport)));
    assert_eq!(
        fetched_text(&ok(b"\xff")),
        Err(StepError::Extraction(ExtractionError::InvalidUtf8))
    );
    assert_eq!(
        fetched_text(&ok(b"PKjunk")),
        Err(StepError::Extraction(ExtractionError::BadArchive))
    );
}

#[test]
fn outputs_file_is_found_by_name_in_an_archive() {
    let packed = zip_of(&[
        ("build/index.html", b"<html>"),
        ("build/Amplify_Outputs.json", b"{\"version\":\"1\"}"),
        ("amplify_outputs.json", b"second"),
    ]);
    assert_eq!(extract_outputs_from_zip(&packed), Ok(Some("{\"version\":\"1\"}".to_string())));
    assert_eq!(find_outputs(&packed), Ok(Some("{\"version\":\"1\"}".to_string())));
    let packed = zip_of(&[("index.html", b"<html>")]);
    assert_eq!(extract_outputs_from_zip(&packed), Ok(None));
    assert_eq!(extract_outputs_from_zip(&zip_of(&[])), Ok(None));
    assert_eq!(extract_outputs_from_zip(b"PK\x03\x04junk"), Err(ExtractionError::BadArchive));
    let packed = zip_of(&[("amplify_outputs.json", b"\xff")]);
    assert_eq!(extract_outputs_from_zip(&packed), Err(ExtractionError::InvalidUtf8));
}

#[test]
fn outputs_name_is_looked_for_in_the_folded_name() {
    assert!(is_outputs_name("amplify_outputs.json"));
    assert!(is_outputs_name("dist/amplify_outputs.json.bak"));
    assert!(!is_outputs_name("Amplify_Outputs.json"));
    assert!(!is_outputs_name("outputs.json"));
}

#[test]
fn outputs_file_may_be_the_artifact_itself() {
    let text = "{\"version\": \"1.3\", \"auth\": {}}";
    assert_eq!(find_outputs(text.as_bytes()), Ok(Some(text.to_string())));
    let text = "{\"data\": {}}";
    assert_eq!(find_outputs(text.as_bytes()), Ok(Some(text.to_string())));
    assert_eq!(find_outputs(b"{\"version\": \"1.3\"}"), Ok(None));
    assert_eq!(find_outputs(b"{\"auth\": 1}"), Ok(None));
    assert_eq!(find_outputs(b"\xff\"data\""), Ok(None));
    assert_eq!(find_outputs(b""), Ok(None));
    assert_eq!(find_outputs(b"PK"), Ok(None));
    assert_eq!(find_outputs(b"PK \"data\""), Err(ExtractionError::BadArchive));
}

#[test]
fn fetched_outputs_tells_status_from_transport() {
    assert_eq!(fetched_outputs(&ok(b"\"data\"")), Ok(Some("\"data\"".to_string())));
    assert_eq!(fetched_outputs(&ok(b"nothing")), Ok(None));
    assert_eq!(
        fetched_outputs(&FetchOutcome::Response { status: 404, body: b"\"data\"".to_vec() }),
        Err(StepError::Fetch(FetchError::Status(404)))
    );
    assert_eq!(fetched_outputs(&FetchOutcome::Unreachable), Err(StepError::Fetch(FetchError::Transport)));
    assert_eq!(
        fetched_outputs(&ok(b"PK\x03\x04")),
        Err(StepError::Extraction(ExtractionError::BadArchive))
    );
}

#[test]
fn outputs_are_those_of_the_first_artifact_that_has_them() {
    assert_eq!(select_outputs(&Vec::new()), Err(OutputsError::NoArtifacts));
    let artifacts = vec![
        step("a", FetchOutcome::Unreachable),
        step("b", ok(b"nothing here")),
        step("c", ok(b"PK\x03\x04junk")),
        step("d", ok(b"first \"data\"")),
        step("e", ok(b"second \"data\"")),
    ];
    assert_eq!(select_outputs(&artifacts), Ok("first \"data\"".to_string()));
    let artifacts = vec![step("a", FetchOutcome::Unreachable), step("b", ok(b"nothing here"))];
    assert_eq!(select_outputs(&artifacts), Err(OutputsError::NotFound));
}
