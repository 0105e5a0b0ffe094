use optimizely::bucketing::{
    bucket, bucket_of_hash, bucketing_key, HASH_SEED, HASH_SPACE, MAX_OF_RANGE,
};

#[test]
fn constants_of_the_scheme() {
    assert_eq!(HASH_SEED, 1);
    assert_eq!(MAX_OF_RANGE, 10_000);
    assert_eq!(HASH_SPACE, 1u64 << 32);
}

#[test]
fn bucket_of_hash_scales_the_ends_of_the_hash_space() {
    assert_eq!(bucket_of_hash(0), 0);
    assert_eq!(bucket_of_hash(u32::MAX), 9999);
}

#[test]
fn bucket_of_hash_steps_at_exact_fractions() {
    // 429497 is the first hash with hash * 10000 >= 2^32.
    assert_eq!(bucket_of_hash(429_496), 0);
    assert_eq!(bucket_of_hash(429_497), 1);
    assert_eq!(bucket_of_hash(1 << 31), 5000);
    assert_eq!(bucket_of_hash((1 << 31) - 1), 4999);
    assert_eq!(bucket_of_hash(0x514E_28B7), 3175);
    assert_eq!(bucket_of_hash(0xE68E_6289), 9006);
}

#[test]
fn bucket_of_hash_is_the_floor_of_the_double_precision_product() {
    let mut hash: u32 = 0;
    let mut checked = 0;
    loop {
        let expected = ((hash as f64) / 4_294_967_296.0 * 10_000.0).floor() as u64;
        assert_eq!(bucket_of_hash(hash), expected, "hash {}", hash);
        checked += 1;
        match hash.checked_add(104_729) {
            Some(next) => hash = next,
            None => break,
        }
    }
    assert!(checked > 40_000);
    let top = ((u32::MAX as f64) / 4_294_967_296.0 * 10_000.0).floor() as u64;
    assert_eq!(bucket_of_hash(u32::MAX), top);
}

#[test]
fn bucket_of_hash_never_shrinks_as_the_hash_grows() {
    let mut previous = 0;
    for step in 0..=0xffffu32 {
        let value = bucket_of_hash(step * 0x1_0001);
        assert!(previous <= value);
        assert!(value < MAX_OF_RANGE);
        previous = value;
    }
}

#[test]
fn bucket_of_the_empty_key() {
    // Murmur3 of no bytes under seed 1 is 0x514E28B7.
    assert_eq!(bucket(""), Some(3175));
}

#[test]
fn bucket_matches_the_reference_values() {
    assert_eq!(bucket("ppid11886780721"), Some(5254));
    assert_eq!(bucket("ppid21886780721"), Some(4299));
    assert_eq!(bucket("ppid21886780722"), Some(2434));
    assert_eq!(bucket("ppid31886780721"), Some(5439));
    assert_eq!(
        bucket(
            "a very very very very very very very very very very very very very very very long ppd string1886780721"
        ),
        Some(6128)
    );
}

#[test]
fn bucket_of_user0_in_an_experiment() {
    let key = bucketing_key("user0", "9300000169122");
    assert_eq!(key, "user09300000169122");
    assert_eq!(bucket(&key), Some(9006));
}

#[test]
fn bucket_hashes_the_utf8_bytes() {
    assert_eq!(bucket(&bucketing_key("üser", "9300000169122")), Some(6308));
}

#[test]
fn bucket_is_the_same_on_every_call() {
    for i in 0..200 {
        let key = bucketing_key(&format!("user{}", i), "9300000169122");
        let first = bucket(&key);
        assert!(first.is_some());
        assert!(first.unwrap() < MAX_OF_RANGE);
        assert_eq!(bucket(&key), first);
    }
}

#[test]
fn bucketing_key_puts_the_user_first() {
    assert_eq!(bucketing_key("ab", "cd"), "abcd");
    assert_eq!(bucketing_key("", "cd"), "cd");
    assert_eq!(bucketing_key("ab", ""), "ab");
    assert_ne!(bucket(&bucketing_key("ab", "cd")), bucket(&bucketing_key("cd", "ab")));
}
