use bulog::error::AccessError;
use bulog::nano_id::{accept_bytes, nanoid, symbol, ALPHABET_LEN};
use bulog::post::{is_created, IdAllocation, MAX_CREATE_ATTEMPTS, POST_ID_LEN, REPLY_CREATED, REPLY_TAKEN};

fn is_symbol(c: char) -> bool {
    c.is_ascii_digit() || c.is_ascii_lowercase() || c.is_ascii_uppercase()
}

#[test]
fn nanoid_has_requested_length_and_alphabet() {
    for size in [1usize, 6, 21, 64, 200] {
        let id = nanoid(size).expect("identifier");
        assert_eq!(id.chars().count(), size);
        assert!(id.chars().all(is_symbol));
    }
}

#[test]
fn nanoid_of_zero_is_empty() {
    assert_eq!(nanoid(0), Some(String::new()));
}

#[test]
fn nanoid_calls_differ() {
    let mut seen = std::collections::HashSet::new();
    for _ in 0..1000 {
        assert!(seen.insert(nanoid(21).unwrap()));
    }
}

#[test]
fn alphabet_order() {
    assert_eq!(symbol(0), '0');
    assert_eq!(symbol(9), '9');
    assert_eq!(symbol(10), 'a');
    assert_eq!(symbol(35), 'z');
    assert_eq!(symbol(36), 'A');
    assert_eq!(symbol(ALPHABET_LEN - 1), 'Z');
}

#[test]
fn rejection_sampling_skips_out_of_range_bytes() {
    // 62 and 63 mask past the alphabet; 64 masks to 0; 255 masks to 63.
    let bytes = vec![62u8, 5, 63, 64 + 10, 255, 36];
    let mut id = String::new();
    let n = accept_bytes(&bytes, &mut id, 0, 10);
    assert_eq!(id, "5aA");
    assert_eq!(n, 3);
}

#[test]
fn accept_bytes_stops_at_size() {
    let bytes = vec![1u8, 2, 3, 4, 5];
    let mut id = String::from("x");
    let n = accept_bytes(&bytes, &mut id, 1, 3);
    assert_eq!(id, "x12");
    assert_eq!(n, 3);
}

#[test]
fn create_reply_decides_success() {
    assert!(is_created(Some(REPLY_CREATED)));
    assert!(!is_created(Some(REPLY_TAKEN)));
    assert!(!is_created(None));
}

#[test]
fn allocation_retries_on_collision_then_succeeds() {
    let mut alloc = IdAllocation::new();
    let first = alloc.next_candidate().unwrap();
    assert_eq!(first.chars().count(), POST_ID_LEN);
    assert_eq!(alloc.on_reply(first, Some(REPLY_TAKEN)), None);
    let second = alloc.next_candidate().unwrap();
    assert_eq!(alloc.on_reply(second.clone(), Some(REPLY_CREATED)), Some(second));
    assert_eq!(alloc.attempts, 2);
}

#[test]
fn allocation_gives_up_after_bounded_attempts() {
    let mut alloc = IdAllocation::new();
    for _ in 0..MAX_CREATE_ATTEMPTS {
        assert!(alloc.next_candidate().is_ok());
    }
    assert_eq!(alloc.next_candidate(), Err(AccessError::Exhausted));
    assert_eq!(alloc.attempts, MAX_CREATE_ATTEMPTS);
}

#[test]
fn allocation_without_candidate_is_exhausted() {
    let mut alloc = IdAllocation::new();
    assert_eq!(alloc.accept_candidate(None), Err(AccessError::Exhausted));
    assert_eq!(alloc.accept_candidate(Some("abc123".to_string())), Ok("abc123".to_string()));
    assert_eq!(alloc.attempts, 2);
}

#[test]
fn distinct_ids_for_many_creators() {
    // Every creator that the store answered with success holds its own id.
    let mut stored: Vec<String> = Vec::new();
    for _ in 0..200 {
        let mut alloc = IdAllocation::new();
        loop {
            let id = alloc.next_candidate().unwrap();
            let reply = if stored.contains(&id) { REPLY_TAKEN } else { stored.push(id.clone()); REPLY_CREATED };
            if let Some(done) = alloc.on_reply(id, Some(reply)) {
                assert_eq!(stored.last(), Some(&done));
                break;
            }
        }
    }
    let unique: std::collections::HashSet<_> = stored.iter().collect();
    assert_eq!(unique.len(), 200);
    assert_eq!(stored.len(), 200);
}
