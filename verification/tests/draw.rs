use cosmwasm_std::{Timestamp, Uint256};
use gecko_random_minter::draw::{random_chance, seed};
use gecko_random_minter::host::{Env, MessageInfo};
use sha2::{Digest, Sha256};

fn block(height: u64, time: u64) -> Env {
    Env { height, time, contract_address: String::from("minter") }
}

fn caller(sender: &str) -> MessageInfo {
    MessageInfo { sender: String::from(sender) }
}

/// The place as the chain's own types compute it.
fn place_by_hand(height: u64, time: u64, sender: &str, count: u64) -> u64 {
    let seed = format!("{}{}{}", height, Timestamp::from_nanos(time), sender).into_bytes();
    let hash = Sha256::digest(&seed);
    let number = Uint256::from_be_bytes(hash.as_slice().try_into().unwrap());
    (number % Uint256::from(count)).to_string().parse::<u64>().unwrap()
}

const NOON: u64 = 1_700_000_000 * 1_000_000_000;

#[test]
fn seed_joins_height_time_and_sender() {
    assert_eq!(seed(&block(100, NOON), &caller("addrA")), "1001700000000.000000000addrA");
    assert_eq!(seed(&block(0, 0), &caller("")), "00.000000000");
    assert_eq!(seed(&block(7, 1), &caller("x")), "70.000000001x");
    assert_eq!(seed(&block(7, 999_999_999), &caller("x")), "70.999999999x");
    assert_eq!(seed(&block(7, 1_000_000_000), &caller("x")), "71.000000000x");
    assert_eq!(
        seed(&block(12345, 1_571_797_419_879_305_533), &caller("creator")),
        "123451571797419.879305533creator"
    );
    assert_eq!(
        seed(&block(u64::MAX, u64::MAX), &caller("wasm1\u{e9}")),
        "1844674407370955161518446744073.709551615wasm1\u{e9}"
    );
}

#[test]
fn seed_writes_the_time_as_the_chain_does() {
    for time in [0, 5, 1_234_567, 999_999_999, 1_000_000_000, NOON, NOON + 42, u64::MAX] {
        assert_eq!(
            seed(&block(3, time), &caller("addrA")),
            format!("{}{}{}", 3, Timestamp::from_nanos(time), "addrA")
        );
    }
}

#[test]
fn random_chance_of_the_known_block() {
    // SHA-256("1001700000000.000000000addrA") mod 10000
    assert_eq!(random_chance(&block(100, NOON), &caller("addrA"), 10000), 2948);
}

#[test]
fn random_chance_counts_the_time_in_nanoseconds() {
    // 1_700_000_000 ns are 1.7 s: the seed is "1001.700000000addrA"
    assert_eq!(seed(&block(100, 1_700_000_000), &caller("addrA")), "1001.700000000addrA");
    assert_eq!(random_chance(&block(100, 1_700_000_000), &caller("addrA"), 10000), 6960);
}

#[test]
fn random_chance_is_reproducible() {
    let first = random_chance(&block(100, NOON), &caller("addrA"), 10000);
    let second = random_chance(&block(100, NOON), &caller("addrA"), 10000);
    assert_eq!(first, second);
    let other_contract = Env { height: 100, time: NOON, contract_address: String::from("other") };
    assert_eq!(random_chance(&other_contract, &caller("addrA"), 10000), first);
}

#[test]
fn random_chance_depends_on_each_input() {
    assert_eq!(random_chance(&block(100, NOON), &caller("addrA"), 9999), 9832);
    assert_eq!(random_chance(&block(100, NOON), &caller("addrB"), 10000), 9840);
    assert_eq!(random_chance(&block(101, NOON), &caller("addrA"), 10000), 5795);
    assert_eq!(random_chance(&block(100, NOON + 1), &caller("addrA"), 10000), 3118);
}

#[test]
fn random_chance_writes_the_time_with_nine_decimals() {
    // the seed is "123451571797419.879305533creator"
    assert_eq!(random_chance(&block(12345, 1_571_797_419_879_305_533), &caller("creator"), 3), 0);
    // the seed is "00.000000000"
    assert_eq!(random_chance(&block(0, 0), &caller(""), 7), 1);
}

#[test]
fn random_chance_of_a_pool_of_one_is_zero() {
    assert_eq!(random_chance(&block(0, 0), &caller(""), 1), 0);
    assert_eq!(random_chance(&block(77, NOON), &caller("anyone"), 1), 0);
}

#[test]
fn random_chance_takes_the_sender_as_utf8() {
    assert_eq!(random_chance(&block(u64::MAX, u64::MAX), &caller("wasm1\u{e9}"), 10000), 9909);
}

#[test]
fn random_chance_stays_inside_the_pool() {
    for count in 1..200u64 {
        let place = random_chance(&block(count, NOON + count), &caller("addrA"), count);
        assert!(place < count);
    }
    assert!(random_chance(&block(5, 5), &caller("x"), u64::MAX) < u64::MAX);
}

#[test]
fn random_chance_agrees_with_the_chain_types() {
    let senders = ["addrA", "addrB", "", "wasm1qqqqqqqqqqqqqqqqqqqqqqqqqqqqqqqqqqqqqqqqqqqqqqqq"];
    let times = [0, 1, 999_999_999, 1_000_000_000, NOON, NOON + 123_456_789, u64::MAX];
    let counts = [1, 2, 3, 9999, 10000, u64::MAX];
    for (h, sender) in senders.iter().enumerate() {
        for time in times {
            for count in counts {
                let height = 1000 * h as u64 + 17;
                assert_eq!(
                    random_chance(&block(height, time), &caller(sender), count),
                    place_by_hand(height, time, sender, count)
                );
            }
        }
    }
}
