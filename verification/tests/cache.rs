use sandbox_dispatch::{
    ExecutionCache, ExecutionRequest, ExecutionResult, ExitStatus, ReleaseChannel,
    DEFAULT_CAPACITY,
};

fn request(channel: ReleaseChannel, command: &str, arguments: &[&str], input: &str) -> ExecutionRequest {
    ExecutionRequest::new(
        channel,
        command,
        arguments.iter().map(|a| a.to_string()).collect(),
        input.to_string(),
    )
}

fn numbered(n: usize) -> ExecutionRequest {
    request(ReleaseChannel::Stable, "evaluate.sh", &[], &format!("input {}", n))
}

fn result(raw: i32, output: &[u8]) -> ExecutionResult {
    ExecutionResult { status: ExitStatus::from_raw(raw), output: output.to_vec() }
}

#[test]
fn capacity_is_fixed_when_the_cache_is_made() {
    assert_eq!(DEFAULT_CAPACITY, 256);
    assert_eq!(ExecutionCache::new().capacity(), 256);
    for capacity in [0usize, 1, 2, 1000] {
        let mut cache = ExecutionCache::with_capacity(capacity);
        assert_eq!(cache.capacity(), capacity);
        cache.insert(numbered(1), &result(0, b"1"));
        let _ = cache.get(&numbered(1));
        assert_eq!(cache.capacity(), capacity);
    }
}

#[test]
fn new_cache_is_empty_and_misses() {
    let mut cache = ExecutionCache::new();
    assert_eq!(cache.len(), 0);
    assert_eq!(cache.get(&numbered(0)), None);
    assert_eq!(cache.len(), 0);
}

#[test]
fn stored_result_is_found_again() {
    let mut cache = ExecutionCache::new();
    cache.insert(numbered(1), &result(0, b"one"));
    assert_eq!(cache.len(), 1);
    assert_eq!(cache.get(&numbered(1)), Some(result(0, b"one")));
    assert_eq!(cache.get(&numbered(1)), Some(result(0, b"one")));
    assert_eq!(cache.len(), 1);
}

#[test]
fn stored_status_and_bytes_come_back_as_they_were() {
    let mut cache = ExecutionCache::new();
    let bytes: Vec<u8> = (0..=255u8).collect();
    cache.insert(numbered(1), &result(-7, &bytes));
    cache.insert(numbered(2), &result(i32::MAX, b""));
    cache.insert(numbered(3), &result(i32::MIN, b"\xff\x00"));
    assert_eq!(cache.get(&numbered(1)), Some(result(-7, &bytes)));
    assert_eq!(cache.get(&numbered(2)), Some(result(i32::MAX, b"")));
    assert_eq!(cache.get(&numbered(3)), Some(result(i32::MIN, b"\xff\x00")));
}

#[test]
fn every_field_is_part_of_the_key() {
    let mut cache = ExecutionCache::new();
    let filed = request(ReleaseChannel::Stable, "compile.sh", &["-O", "--emit=asm"], "fn main() {}");
    cache.insert(filed.clone(), &result(0, b"filed"));

    let other_channel = request(ReleaseChannel::Beta, "compile.sh", &["-O", "--emit=asm"], "fn main() {}");
    let other_command = request(ReleaseChannel::Stable, "evaluate.sh", &["-O", "--emit=asm"], "fn main() {}");
    let other_argument = request(ReleaseChannel::Stable, "compile.sh", &["-O", "--emit=mir"], "fn main() {}");
    let fewer_arguments = request(ReleaseChannel::Stable, "compile.sh", &["-O"], "fn main() {}");
    let swapped_arguments = request(ReleaseChannel::Stable, "compile.sh", &["--emit=asm", "-O"], "fn main() {}");
    let joined_arguments = request(ReleaseChannel::Stable, "compile.sh", &["-O--emit=asm"], "fn main() {}");
    let other_input = request(ReleaseChannel::Stable, "compile.sh", &["-O", "--emit=asm"], "fn main() { }");
    let trailing_space = request(ReleaseChannel::Stable, "compile.sh ", &["-O", "--emit=asm"], "fn main() {}");
    for other in [
        &other_channel,
        &other_command,
        &other_argument,
        &fewer_arguments,
        &swapped_arguments,
        &joined_arguments,
        &other_input,
        &trailing_space,
    ] {
        assert_eq!(cache.get(other), None);
    }
    assert_eq!(cache.get(&filed), Some(result(0, b"filed")));
}

#[test]
fn text_moved_between_fields_makes_another_key() {
    let mut cache = ExecutionCache::new();
    cache.insert(request(ReleaseChannel::Stable, "ab", &[], "c"), &result(0, b"x"));
    assert_eq!(cache.get(&request(ReleaseChannel::Stable, "a", &[], "bc")), None);
    assert_eq!(cache.get(&request(ReleaseChannel::Stable, "a", &["b"], "c")), None);
    assert_eq!(cache.get(&request(ReleaseChannel::Stable, "ab", &[""], "c")), None);
    assert_eq!(cache.get(&request(ReleaseChannel::Stable, "ab", &[], "c")), Some(result(0, b"x")));
}

#[test]
fn inserting_again_replaces_the_result() {
    let mut cache = ExecutionCache::with_capacity(2);
    cache.insert(numbered(1), &result(0, b"first"));
    cache.insert(numbered(1), &result(1, b"second"));
    assert_eq!(cache.len(), 1);
    assert_eq!(cache.get(&numbered(1)), Some(result(1, b"second")));
}

#[test]
fn least_recently_used_entry_is_evicted() {
    let mut cache = ExecutionCache::with_capacity(2);
    cache.insert(numbered(1), &result(0, b"1"));
    cache.insert(numbered(2), &result(0, b"2"));
    cache.insert(numbered(3), &result(0, b"3"));
    assert_eq!(cache.len(), 2);
    assert_eq!(cache.get(&numbered(1)), None);
    assert_eq!(cache.get(&numbered(2)), Some(result(0, b"2")));
    assert_eq!(cache.get(&numbered(3)), Some(result(0, b"3")));
}

#[test]
fn a_lookup_counts_as_use() {
    let mut cache = ExecutionCache::with_capacity(2);
    cache.insert(numbered(1), &result(0, b"1"));
    cache.insert(numbered(2), &result(0, b"2"));
    assert_eq!(cache.get(&numbered(1)), Some(result(0, b"1")));
    cache.insert(numbered(3), &result(0, b"3"));
    assert_eq!(cache.get(&numbered(2)), None);
    assert_eq!(cache.get(&numbered(1)), Some(result(0, b"1")));
    assert_eq!(cache.get(&numbered(3)), Some(result(0, b"3")));
}

#[test]
fn a_missed_lookup_changes_nothing() {
    let mut cache = ExecutionCache::with_capacity(2);
    cache.insert(numbered(1), &result(0, b"1"));
    cache.insert(numbered(2), &result(0, b"2"));
    assert_eq!(cache.get(&numbered(9)), None);
    cache.insert(numbered(3), &result(0, b"3"));
    assert_eq!(cache.get(&numbered(1)), None);
    assert_eq!(cache.get(&numbered(2)), Some(result(0, b"2")));
}

#[test]
fn replacing_counts_as_use_and_evicts_nothing() {
    let mut cache = ExecutionCache::with_capacity(2);
    cache.insert(numbered(1), &result(0, b"1"));
    cache.insert(numbered(2), &result(0, b"2"));
    cache.insert(numbered(1), &result(0, b"1 again"));
    assert_eq!(cache.len(), 2);
    cache.insert(numbered(3), &result(0, b"3"));
    assert_eq!(cache.get(&numbered(2)), None);
    assert_eq!(cache.get(&numbered(1)), Some(result(0, b"1 again")));
}

#[test]
fn default_capacity_is_256() {
    let mut cache = ExecutionCache::new();
    for n in 0..256 {
        cache.insert(numbered(n), &result(0, &[n as u8]));
        assert_eq!(cache.len(), n + 1);
    }
    assert_eq!(cache.get(&numbered(0)), Some(result(0, &[0])));
    // Number 0 was just used, so number 1 is the least recently used.
    cache.insert(numbered(256), &result(0, b"new"));
    assert_eq!(cache.len(), 256);
    assert_eq!(cache.get(&numbered(1)), None);
    assert_eq!(cache.get(&numbered(0)), Some(result(0, &[0])));
    assert_eq!(cache.get(&numbered(2)), Some(result(0, &[2])));
    assert_eq!(cache.get(&numbered(256)), Some(result(0, b"new")));
}

#[test]
fn cache_never_holds_more_than_its_capacity() {
    for capacity in [0usize, 1, 2, 3, 7] {
        let mut cache = ExecutionCache::with_capacity(capacity);
        for n in 0..20 {
            cache.insert(numbered(n % 11), &result(0, b"x"));
            assert!(cache.len() <= capacity);
            let _ = cache.get(&numbered((n * 7) % 11));
            assert!(cache.len() <= capacity);
        }
        assert_eq!(cache.len(), capacity);
    }
}

#[test]
fn cache_of_capacity_one_holds_the_last_result() {
    let mut cache = ExecutionCache::with_capacity(1);
    cache.insert(numbered(1), &result(0, b"1"));
    cache.insert(numbered(2), &result(0, b"2"));
    assert_eq!(cache.len(), 1);
    assert_eq!(cache.get(&numbered(1)), None);
    assert_eq!(cache.get(&numbered(2)), Some(result(0, b"2")));
}

#[test]
fn cache_of_capacity_zero_holds_nothing() {
    let mut cache = ExecutionCache::with_capacity(0);
    cache.insert(numbered(1), &result(0, b"1"));
    assert_eq!(cache.len(), 0);
    assert_eq!(cache.get(&numbered(1)), None);
}

#[test]
fn exit_status_keeps_its_raw_value() {
    assert!(ExitStatus::from_raw(0).success());
    assert!(!ExitStatus::from_raw(1).success());
    assert!(!ExitStatus::from_raw(256).success());
    assert!(!ExitStatus::from_raw(9).success());
    assert!(!ExitStatus::from_raw(-1).success());
    assert_eq!(ExitStatus::from_raw(137).into_raw(), 137);
    assert_eq!(ExitStatus::from_raw(i32::MIN).into_raw(), i32::MIN);
}

#[test]
fn request_holds_what_it_was_made_of() {
    let made = ExecutionRequest::new(
        ReleaseChannel::Nightly,
        "rustfmt",
        vec![String::from("--check")],
        String::from("fn main() {}"),
    );
    assert_eq!(made.channel, ReleaseChannel::Nightly);
    assert_eq!(made.command, "rustfmt");
    assert_eq!(made.arguments, vec![String::from("--check")]);
    assert_eq!(made.input, "fn main() {}");
}

/// The cache as a plain list, least recently used first.
struct Listed {
    pairs: Vec<(usize, Vec<u8>)>,
    capacity: usize,
}

impl Listed {
    fn get(&mut self, key: usize) -> Option<Vec<u8>> {
        let at = self.pairs.iter().position(|pair| pair.0 == key)?;
        let pair = self.pairs.remove(at);
        self.pairs.push(pair.clone());
        Some(pair.1)
    }

    fn insert(&mut self, key: usize, value: Vec<u8>) {
        self.pairs.retain(|pair| pair.0 != key);
        self.pairs.push((key, value));
        if self.pairs.len() > self.capacity {
            self.pairs.remove(0);
        }
    }
}

#[test]
fn cache_behaves_like_a_list_in_order_of_use() {
    let mut state: u64 = 0x2545_f491_4f6c_dd1d;
    let mut next = move |bound: u64| {
        state = state.wrapping_mul(6364136223846793005).wrapping_add(1442695040888963407);
        (state >> 33) % bound
    };
    for capacity in 0..6usize {
        let mut cache = ExecutionCache::with_capacity(capacity);
        let mut listed = Listed { pairs: Vec::new(), capacity };
        for step in 0..2000u32 {
            let key = next(8) as usize;
            if next(3) == 0 {
                let value = step.to_le_bytes().to_vec();
                cache.insert(numbered(key), &result(step as i32, &value));
                listed.insert(key, value);
            } else {
                let found = cache.get(&numbered(key)).map(|found| found.output);
                assert_eq!(found, listed.get(key));
            }
            assert_eq!(cache.len(), listed.pairs.len());
        }
        // What is left comes out in the same order of use.
        for (key, value) in listed.pairs.clone() {
            assert_eq!(cache.get(&numbered(key)).map(|found| found.output), Some(value));
        }
    }
}
