use gecko_random_minter::pool::new_pool;
use gecko_random_minter::state::State;

fn state_of(ids: Vec<u32>) -> State {
    State { token: String::from("res1abc"), token_count: ids.len() as u64, available_ids: ids }
}

#[test]
fn new_state_is_empty_and_well_formed() {
    let state = State::new();
    assert_eq!(state.token, "");
    assert_eq!(state.token_count, 0);
    assert!(state.available_ids.is_empty());
    assert!(state.is_well_formed());
}

#[test]
fn is_well_formed_asks_for_a_matching_count() {
    assert!(state_of(vec![4, 8, 15]).is_well_formed());
    let mut state = state_of(vec![4, 8, 15]);
    state.token_count = 2;
    assert!(!state.is_well_formed());
    state.token_count = 4;
    assert!(!state.is_well_formed());
}

#[test]
fn is_well_formed_asks_for_distinct_identifiers() {
    assert!(!state_of(vec![4, 8, 4]).is_well_formed());
    assert!(state_of(new_pool()).is_well_formed());
}

#[test]
fn draw_from_the_middle_moves_the_last_into_place() {
    let mut state = state_of(vec![10, 20, 30, 40, 50]);
    assert_eq!(state.draw(1), 20);
    assert_eq!(state.available_ids, vec![10, 50, 30, 40]);
    assert_eq!(state.token_count, 4);
    assert_eq!(state.token, "res1abc");
}

#[test]
fn draw_of_the_first_and_of_the_last() {
    let mut state = state_of(vec![10, 20, 30]);
    assert_eq!(state.draw(0), 10);
    assert_eq!(state.available_ids, vec![30, 20]);
    assert_eq!(state.draw(1), 20);
    assert_eq!(state.available_ids, vec![30]);
    assert_eq!(state.draw(0), 30);
    assert_eq!(state.available_ids, Vec::<u32>::new());
    assert_eq!(state.token_count, 0);
    assert!(state.is_well_formed());
}

#[test]
fn draws_shrink_the_pool_one_by_one() {
    let full = new_pool();
    let mut state = state_of(full.clone());
    let mut drawn: Vec<u32> = Vec::new();
    for i in 0..500u64 {
        let place = (i * 7919) % state.token_count;
        let token_id = state.draw(place);
        assert!(!drawn.contains(&token_id));
        drawn.push(token_id);
        assert_eq!(state.token_count, 10000 - (i + 1));
        assert_eq!(state.available_ids.len() as u64, state.token_count);
        assert!(state.is_well_formed());
        assert!(state.available_ids.iter().all(|id| full.contains(id)));
        assert!(drawn.iter().all(|id| !state.available_ids.contains(id)));
    }
}

#[test]
fn draws_empty_a_small_pool_without_repeating() {
    let mut state = state_of(vec![7, 3, 9, 1]);
    let mut drawn = vec![state.draw(2), state.draw(0), state.draw(1), state.draw(0)];
    assert_eq!(drawn, vec![9, 7, 3, 1]);
    drawn.sort();
    assert_eq!(drawn, vec![1, 3, 7, 9]);
    assert_eq!(state.token_count, 0);
    assert!(state.available_ids.is_empty());
}
