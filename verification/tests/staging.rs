use std::io::Read;
use std::io::Seek;
use std::io::SeekFrom;
use std::io::Write;
use std::path::PathBuf;

use brewver::staging::staging_plan;
use brewver::staging::StagingPlan;

fn stage(
    plan: &StagingPlan,
    dir: &tempfile::TempDir,
    body: &[u8],
) -> tempfile::NamedTempFile {
    let mut file = tempfile::Builder::new()
        .prefix(plan.prefix.as_str())
        .suffix(plan.suffix.as_str())
        .rand_bytes(plan.rand_bytes)
        .tempfile_in(dir.path())
        .expect("temp file");
    file.write_all(body).expect("write");
    file.flush().expect("flush");
    file
}

#[test]
fn staged_file_content_is_byte_identical() {
    let body: Vec<u8> = (0..200u8).map(|i| b' ' + (i % 64)).collect();
    assert_eq!(body.len(), 200);
    let plan = staging_plan("wget");
    let dir = tempfile::Builder::new().tempdir().expect("temp dir");
    let mut file = stage(&plan, &dir, &body);
    file.as_file_mut().seek(SeekFrom::Start(0)).expect("seek");
    let mut read_back = Vec::new();
    file.read_to_end(&mut read_back).expect("read");
    assert_eq!(read_back, body);
}

#[test]
fn staged_file_name_follows_the_plan() {
    let plan = staging_plan("wget");
    let dir = tempfile::Builder::new().tempdir().expect("temp dir");
    let file = stage(&plan, &dir, b"class Wget\nend\n");
    let file_name = file.path().file_name().unwrap().to_str().unwrap().to_owned();
    assert!(file_name.starts_with("wget"));
    assert!(file_name.ends_with(".rb"));
    assert_eq!(file_name.len(), "wget".len() + 8 + ".rb".len());
}

#[test]
fn staged_resources_removed_when_scope_ends_despite_failure() {
    let plan = staging_plan("wget");
    let (install, dir_path, file_path): (Result<(), ()>, PathBuf, PathBuf) = {
        let dir = tempfile::Builder::new().tempdir().expect("temp dir");
        let file = stage(&plan, &dir, b"class Wget\nend\n");
        let dir_path = dir.path().to_path_buf();
        let file_path = file.path().to_path_buf();
        assert!(dir_path.exists());
        assert!(file_path.exists());
        (Err(()), dir_path, file_path)
    };
    assert!(install.is_err());
    assert!(!file_path.exists());
    assert!(!dir_path.exists());
}
