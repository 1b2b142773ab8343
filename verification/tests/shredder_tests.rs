use cleansweep::shredder::{
    pass_sequence, shred_plan, Pass, PassWriter, ShredAction, ShredError, ShredJob, ShredStage,
};

#[test]
fn missing_path_is_not_found() {
    assert_eq!(shred_plan(false, false, 0), Err(ShredError::NotFound));
}

#[test]
fn directory_is_not_a_file() {
    assert_eq!(shred_plan(true, false, 0), Err(ShredError::NotAFile));
}

#[test]
fn empty_file_skips_overwriting() {
    assert_eq!(shred_plan(true, true, 0), Ok(ShredAction::RemoveOnly));
}

#[test]
fn sized_file_is_overwritten() {
    assert_eq!(shred_plan(true, true, 4096), Ok(ShredAction::Overwrite));
}

#[test]
fn three_passes_in_order() {
    let passes = pass_sequence();
    assert_eq!(passes, vec![Pass::Zeros, Pass::Ones, Pass::Random]);
}

fn run_pass(pass: Pass, len: u64) -> Vec<u8> {
    let mut writer = PassWriter::new(pass, len);
    let mut out: Vec<u8> = Vec::new();
    while !writer.is_done() {
        let chunk = writer.next_chunk();
        assert!(!chunk.is_empty());
        assert!(chunk.len() <= 64 * 1024);
        out.extend_from_slice(&chunk);
    }
    out
}

#[test]
fn zeros_pass_writes_only_zeros() {
    let out = run_pass(Pass::Zeros, 100_000);
    assert_eq!(out.len(), 100_000);
    assert!(out.iter().all(|&b| b == 0x00));
}

#[test]
fn ones_pass_writes_only_ones() {
    let out = run_pass(Pass::Ones, 70_000);
    assert_eq!(out.len(), 70_000);
    assert!(out.iter().all(|&b| b == 0xFF));
}

#[test]
fn random_pass_covers_length_and_varies() {
    // The random pass must replace the previous pattern: over 64 KiB some
    // byte differs from 0x00 and some from 0xFF.
    let out = run_pass(Pass::Random, 65_536);
    assert_eq!(out.len(), 65_536);
    assert!(out.iter().any(|&b| b != 0x00));
    assert!(out.iter().any(|&b| b != 0xFF));
}

#[test]
fn chunks_tile_the_file_length() {
    let mut writer = PassWriter::new(Pass::Zeros, 64 * 1024 + 10);
    let first = writer.next_chunk();
    assert_eq!(first.len(), 64 * 1024);
    assert!(!writer.is_done());
    let second = writer.next_chunk();
    assert_eq!(second.len(), 10);
    assert!(writer.is_done());
}

#[test]
fn single_byte_file_is_one_chunk() {
    let out = run_pass(Pass::Zeros, 1);
    assert_eq!(out, vec![0x00]);
}

#[test]
fn job_hands_out_passes_in_order_then_flush_and_remove() {
    let mut job = ShredJob::start(4096);
    let mut seen = Vec::new();
    while let Some(pass) = job.current_pass() {
        seen.push(pass);
        job.pass_complete();
    }
    assert_eq!(seen, vec![Pass::Zeros, Pass::Ones, Pass::Random]);
    assert_eq!(job.stage, ShredStage::Flushing);
    job.flushed();
    assert_eq!(job.stage, ShredStage::Releasing);
    job.released();
    assert_eq!(job.stage, ShredStage::Removing);
    job.removed();
    assert_eq!(job.stage, ShredStage::Done);
}

#[test]
fn job_failure_is_terminal() {
    let mut job = ShredJob::start(10);
    assert_eq!(job.current_pass(), Some(Pass::Zeros));
    job.fail();
    assert_eq!(job.stage, ShredStage::Failed);
    assert_eq!(job.current_pass(), None);
}
