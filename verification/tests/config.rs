use parfor::parse_worker_count;
use parfor::resolve_worker_count;

#[test]
fn test_parse_plain() {
    assert_eq!(parse_worker_count(&b"4".to_vec()), Some(4));
    assert_eq!(parse_worker_count(&b"12".to_vec()), Some(12));
    assert_eq!(parse_worker_count(&b"0".to_vec()), Some(0));
    assert_eq!(parse_worker_count(&b"007".to_vec()), Some(7));
}

#[test]
fn test_parse_plus_sign() {
    assert_eq!(parse_worker_count(&b"+12".to_vec()), Some(12));
    assert_eq!(parse_worker_count(&b"+0".to_vec()), Some(0));
    assert_eq!(parse_worker_count(&b"+".to_vec()), None);
    assert_eq!(parse_worker_count(&b"++1".to_vec()), None);
}

#[test]
fn test_parse_rejects_garbage() {
    assert_eq!(parse_worker_count(&b"".to_vec()), None);
    assert_eq!(parse_worker_count(&b"12a".to_vec()), None);
    assert_eq!(parse_worker_count(&b"a12".to_vec()), None);
    assert_eq!(parse_worker_count(&b" 4".to_vec()), None);
    assert_eq!(parse_worker_count(&b"4 ".to_vec()), None);
    assert_eq!(parse_worker_count(&b"-4".to_vec()), None);
    assert_eq!(parse_worker_count(&b"1.5".to_vec()), None);
}

#[test]
fn test_parse_limits() {
    let max = usize::MAX.to_string().into_bytes();
    assert_eq!(parse_worker_count(&max), Some(usize::MAX));
    let too_big = (usize::MAX as u128 + 1).to_string().into_bytes();
    assert_eq!(parse_worker_count(&too_big), None);
    let way_too_big = b"99999999999999999999999999999999".to_vec();
    assert_eq!(parse_worker_count(&way_too_big), None);
}

#[test]
fn test_resolve_primary_wins() {
    assert_eq!(
        resolve_worker_count(Some(b"3".to_vec()), Some(b"5".to_vec())),
        3
    );
    assert_eq!(resolve_worker_count(Some(b"0".to_vec()), None), 0);
}

#[test]
fn test_resolve_falls_back_to_secondary() {
    assert_eq!(
        resolve_worker_count(Some(b"three".to_vec()), Some(b"5".to_vec())),
        5
    );
    assert_eq!(resolve_worker_count(None, Some(b"+8".to_vec())), 8);
}

#[test]
fn test_resolve_falls_back_to_detected() {
    // With no usable override the count is the detected parallelism, which
    // is at least one whatever the machine.
    assert!(resolve_worker_count(None, None) >= 1);
    assert!(resolve_worker_count(Some(b"".to_vec()), Some(b"x".to_vec())) >= 1);
}
