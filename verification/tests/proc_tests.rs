use pmix::cstr::contains_nul;
use pmix::{PmixError, PmixStatus, Proc, RANK_WILDCARD};

#[test]
fn test_proc_new_and_rank() {
    let proc = Proc::new("test_ns", 42).unwrap();
    assert_eq!(proc.get_rank(), 42);
}

#[test]
fn test_proc_set_rank() {
    let mut proc = Proc::new("test_ns", 0).unwrap();
    proc.set_rank(99);
    assert_eq!(proc.get_rank(), 99);
}

#[test]
fn test_proc_new_wildcard_rank() {
    let proc = Proc::new("test_ns", RANK_WILDCARD).unwrap();
    assert_eq!(proc.get_rank(), RANK_WILDCARD);
}

#[test]
fn test_proc_new_zero_rank() {
    let proc = Proc::new("test_ns", 0).unwrap();
    assert_eq!(proc.get_rank(), 0);
}

#[test]
fn test_proc_new_max_rank() {
    let proc = Proc::new("test_ns", u32::MAX).unwrap();
    assert_eq!(proc.get_rank(), u32::MAX);
}

#[test]
fn test_proc_clone() {
    let proc = Proc::new("test_ns", 42).unwrap();
    let proc2 = proc.clone();
    assert_eq!(proc.get_rank(), proc2.get_rank());
}

#[test]
fn test_proc_new_nul_error() {
    let result = Proc::new("has\0null", 0);
    assert!(result.is_err());
}

#[test]
fn test_proc_construction_for_server_tests() {
    let proc = Proc::new("test.nspace", 0).expect("Proc::new should succeed");
    let _ = proc;
}

#[test]
fn test_proc_construction_multiple_ranks() {
    let proc0 = Proc::new("test.nspace", 0).expect("Proc::new rank 0 failed");
    let proc1 = Proc::new("test.nspace", 1).expect("Proc::new rank 1 failed");
    let procs = vec![proc0, proc1];
    assert_eq!(procs.len(), 2);
}

#[test]
fn test_proc_construction_various_nspaces() {
    let p1 = Proc::new("job.0", 0).expect("nspace with dot failed");
    let p2 = Proc::new("job_0", 0).expect("nspace with underscore failed");
    let p3 = Proc::new("job-0", 0).expect("nspace with hyphen failed");
    assert_eq!(p1.rank(), 0);
    assert_eq!(p2.rank(), 0);
    assert_eq!(p3.rank(), 0);
}

#[test]
fn test_proc_construction_high_rank() {
    let proc = Proc::new("test.nspace", 65535).expect("high rank failed");
    assert_eq!(proc.rank(), 65535);
}

#[test]
fn test_proc_zero_rank() {
    let _proc = Proc::new("testnspace", 0).expect("proc creation failed");
}

#[test]
fn test_proc_max_rank() {
    let _proc = Proc::new("testnspace", u32::MAX).expect("proc creation failed");
}

#[test]
fn test_proc_new_with_nspace() {
    let proc = Proc::new("testnspace", 0).expect("proc creation failed");
    let _proc2 = proc.new_with_nspace(42).expect("new_with_nspace failed");
}

#[test]
fn test_cstring_rejects_nul_bytes() {
    let result = contains_nul("test\0nspace");
    assert!(result, "CString::new should reject NUL bytes");
}

// ── Own tests ────────────────────────────────────────────────────────────

#[test]
fn proc_nspace_reads_back() {
    let proc = Proc::new("job.7", 3).unwrap();
    assert_eq!(proc.nspace(), Some("job.7".to_string()));
    let other = proc.new_with_nspace(9).unwrap();
    assert_eq!(other.nspace(), Some("job.7".to_string()));
    assert_eq!(other.rank(), 9);
}

#[test]
fn proc_empty_nspace_reads_as_none() {
    let proc = Proc::new("", 0).unwrap();
    assert_eq!(proc.nspace(), None);
}

#[test]
fn proc_nspace_length_limit() {
    let longest = "n".repeat(255);
    assert!(Proc::new(&longest, 0).is_ok());
    let too_long = "n".repeat(256);
    assert_eq!(
        Proc::new(&too_long, 0).unwrap_err(),
        PmixStatus::Known(PmixError::ErrBadParam)
    );
}

#[test]
fn proc_nul_is_bad_param() {
    assert_eq!(
        Proc::new("a\0b", 1).unwrap_err(),
        PmixStatus::Known(PmixError::ErrBadParam)
    );
}

#[test]
fn proc_set_rank_keeps_nspace() {
    let mut proc = Proc::new("ns", 1).unwrap();
    proc.set_rank(2);
    assert_eq!(proc.nspace(), Some("ns".to_string()));
    assert_eq!(proc.rank(), 2);
}
