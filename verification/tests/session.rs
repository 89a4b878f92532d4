use array_session::AcquisitionError;
use array_session::AutoByteArray;
use array_session::HostEnv;
use array_session::ReleaseError;
use array_session::ReleaseMode;
use array_session::SizeError;

fn env_with_array(bytes: Vec<i8>) -> (HostEnv, usize) {
    let mut env = HostEnv::new();
    let handle = env.add_array(bytes);
    (env, handle)
}

fn open(
    env: &mut HostEnv,
    handle: usize,
    mode: ReleaseMode,
    make_copy: bool,
) -> AutoByteArray {
    let (ptr, is_copy) = env.get_byte_array_elements(handle, make_copy);
    AutoByteArray::new(handle, ptr, mode, is_copy).unwrap()
}

fn freeing_calls(env: &HostEnv, ptr: usize) -> usize {
    env.releases
        .iter()
        .filter(|c| c.ok && c.ptr == ptr && (c.mode_code == 0 || c.mode_code == 2))
        .count()
}

#[test]
fn null_pointer_rejected() {
    let r = AutoByteArray::new(0, 0, ReleaseMode::CommitAndRelease, false);
    assert!(matches!(r, Err(AcquisitionError::NullPointer)));
}

#[test]
fn scope_exit_releases_exactly_once() {
    let (mut env, h) = env_with_array(vec![3, 1, 4]);
    let mut s = open(&mut env, h, ReleaseMode::CommitAndRelease, true);
    let ptr = s.as_ptr();
    assert!(s.commit(&mut env).is_ok());
    assert!(s.commit(&mut env).is_ok());
    s.discard();
    s.discard();
    assert_eq!(freeing_calls(&env, ptr), 0);
    s.release(&mut env);
    assert_eq!(freeing_calls(&env, ptr), 1);
    assert_eq!(env.releases.len(), 3);
}

#[test]
fn discard_overrides_release_mode() {
    let (mut env, h) = env_with_array(vec![7, 7]);
    let mut s = open(&mut env, h, ReleaseMode::CommitAndRelease, true);
    let ptr = s.as_ptr();
    s.discard();
    s.release(&mut env);
    let last = env.releases.last().unwrap();
    assert!(last.ok);
    assert_eq!(last.ptr, ptr);
    assert_eq!(last.mode_code, 2);
    assert_ne!(last.mode_code, ReleaseMode::CommitAndRelease.as_code());
}

#[test]
fn commit_fires_immediate_release_and_keeps_session() {
    let (mut env, h) = env_with_array(vec![5, 6, 7]);
    let mut s = open(&mut env, h, ReleaseMode::CommitAndRelease, true);
    let ptr = s.as_ptr();
    assert!(s.commit(&mut env).is_ok());
    assert_eq!(env.releases.len(), 1);
    assert!(env.releases[0].ok);
    assert_eq!(env.releases[0].mode_code, 1);
    assert_eq!(env.releases[0].ptr, ptr);
    // the pointer stays valid for further access
    env.write_byte(ptr, 0, 9);
    assert_eq!(env.read_byte(ptr, 0), 9);
    assert!(s.size(&env).is_ok());
    s.release(&mut env);
    assert_eq!(env.releases.len(), 2);
}

#[test]
fn is_copy_reports_construction_value() {
    let (mut env, h) = env_with_array(vec![1]);
    let mut s = open(&mut env, h, ReleaseMode::CommitAndRelease, true);
    assert!(s.is_copy());
    assert!(s.commit(&mut env).is_ok());
    assert!(s.is_copy());
    s.discard();
    assert!(s.is_copy());
    s.release(&mut env);

    let mut t = open(&mut env, h, ReleaseMode::ReleaseNoCommit, false);
    assert!(!t.is_copy());
    t.discard();
    assert!(!t.is_copy());
    t.release(&mut env);
}

#[test]
fn size_matches_independent_length_query() {
    let (mut env, h) = env_with_array(vec![8; 6]);
    let s = open(&mut env, h, ReleaseMode::CommitAndRelease, false);
    let independent = env.get_array_length(h);
    assert_eq!(s.size(&env), independent);
    assert_eq!(s.size(&env), Ok(6));
    s.release(&mut env);
}

#[test]
fn discarded_copy_leaves_array_unchanged() {
    let (mut env, h) = env_with_array(vec![10, 20, 30, 40]);
    let mut s = open(&mut env, h, ReleaseMode::CommitAndRelease, true);
    let ptr = s.as_ptr();
    env.write_byte(ptr, 1, -1);
    env.write_byte(ptr, 3, -2);
    s.discard();
    s.release(&mut env);
    let last = env.releases.last().unwrap();
    assert!(last.ok);
    assert_eq!(last.mode_code, 2);
    assert_eq!(env.arrays[h], vec![10, 20, 30, 40]);
}

#[test]
fn commit_on_pinned_array() {
    let (mut env, h) = env_with_array(vec![2, 4]);
    let mut s = open(&mut env, h, ReleaseMode::CommitAndRelease, false);
    let ptr = s.as_ptr();
    env.write_byte(ptr, 0, 3);
    let before = env.arrays[h].clone();
    assert!(s.commit(&mut env).is_ok());
    assert_eq!(env.releases.last().unwrap().mode_code, 1);
    assert!(env.releases.last().unwrap().ok);
    // writes were already live: committing changes nothing visible
    assert_eq!(env.arrays[h], before);
    // the pointer remains valid
    assert_eq!(env.read_byte(ptr, 0), 3);
    s.release(&mut env);
}

#[test]
fn copy_writes_invisible_until_commit() {
    let (mut env, h) = env_with_array(vec![1, 2, 3]);
    let mut s = open(&mut env, h, ReleaseMode::CommitAndRelease, true);
    let ptr = s.as_ptr();
    env.write_byte(ptr, 2, 9);
    assert_eq!(env.arrays[h], vec![1, 2, 3]);
    assert!(s.commit(&mut env).is_ok());
    assert_eq!(env.arrays[h], vec![1, 2, 9]);
    s.release(&mut env);
    assert_eq!(env.arrays[h], vec![1, 2, 9]);
}

#[test]
fn default_mode_copies_back_on_exit() {
    let (mut env, h) = env_with_array(vec![0, 0]);
    let s = open(&mut env, h, ReleaseMode::CommitAndRelease, true);
    let ptr = s.as_ptr();
    env.write_byte(ptr, 0, 5);
    env.write_byte(ptr, 1, 6);
    s.release(&mut env);
    assert_eq!(env.arrays[h], vec![5, 6]);
    assert_eq!(freeing_calls(&env, ptr), 1);
}

#[test]
fn pinned_writes_visible_immediately() {
    let (mut env, h) = env_with_array(vec![0]);
    let s = open(&mut env, h, ReleaseMode::ReleaseNoCommit, false);
    let ptr = s.as_ptr();
    env.write_byte(ptr, 0, 11);
    assert_eq!(env.arrays[h], vec![11]);
    s.release(&mut env);
}

#[test]
fn commit_on_bogus_pointer_fails() {
    let (mut env, _h) = env_with_array(vec![1]);
    // a non-null pointer the host never handed out
    let mut s = AutoByteArray::new(0, 99, ReleaseMode::ReleaseNoCommit, false).unwrap();
    assert_eq!(s.commit(&mut env), Err(ReleaseError::CallFailed));
    s.release(&mut env);
}

#[test]
fn size_on_unknown_handle_fails() {
    let env = HostEnv::new();
    let s = AutoByteArray::new(4, 17, ReleaseMode::ReleaseNoCommit, false).unwrap();
    assert_eq!(s.size(&env), Err(SizeError::CallFailed));
}

#[test]
fn release_failure_recorded_not_propagated() {
    let mut env = HostEnv::new();
    let s = AutoByteArray::new(0, 42, ReleaseMode::CommitAndRelease, true).unwrap();
    s.release(&mut env);
    assert_eq!(env.releases.len(), 1);
    assert!(!env.releases[0].ok);
    assert_eq!(env.releases[0].ptr, 42);
}

#[test]
fn released_pointer_cannot_be_released_again() {
    let (mut env, h) = env_with_array(vec![1, 2]);
    let s = open(&mut env, h, ReleaseMode::CommitAndRelease, true);
    let ptr = s.as_ptr();
    s.release(&mut env);
    // a fresh call on the dead pointer is rejected by the host
    assert!(env.release_array_elements(h, ptr, 0).is_err());
    assert_eq!(freeing_calls(&env, ptr), 1);
}

#[test]
fn mode_codes_match_native_interface() {
    assert_eq!(ReleaseMode::CommitAndRelease.as_code(), 0);
    assert_eq!(ReleaseMode::CommitAndContinue.as_code(), 1);
    assert_eq!(ReleaseMode::ReleaseNoCommit.as_code(), 2);
}

#[test]
fn pointer_by_conversion_matches_as_ptr() {
    let (mut env, h) = env_with_array(vec![1]);
    let s = open(&mut env, h, ReleaseMode::ReleaseNoCommit, false);
    let p: usize = usize::from(&s);
    assert_eq!(p, s.as_ptr());
    assert_ne!(p, 0);
    s.release(&mut env);
}

#[test]
fn acquire_on_unknown_handle_returns_null() {
    let mut env = HostEnv::new();
    let (ptr, is_copy) = env.get_byte_array_elements(3, true);
    assert_eq!(ptr, 0);
    assert!(!is_copy);
    let r = AutoByteArray::new(3, ptr, ReleaseMode::CommitAndRelease, is_copy);
    assert!(matches!(r, Err(AcquisitionError::NullPointer)));
}
