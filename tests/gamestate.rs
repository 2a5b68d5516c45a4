use gametoy::gamestate::FIRST_FRAME_DELTA;
use gametoy::GameState;

#[test]
fn new_state_is_blank() {
    let s = GameState::new();
    assert_eq!(s.keys.len(), 768);
    assert!(s.keys.iter().all(|k| *k == 0));
    assert_eq!(s.time_since_start, 0);
    assert!(!s.keys_dirty);
}

#[test]
fn press_and_release_set_rows() {
    let mut s = GameState::new();
    s.set_key_state(65, true);
    assert_eq!(s.keys[65], 1);
    assert_eq!(s.keys[256 + 65], 1);
    assert_eq!(s.keys[512 + 65], 1);
    assert!(s.keys_dirty);
    s.clear_keys_dirty();
    s.update_key_tick();
    assert_eq!(s.keys[256 + 65], 0);
    assert!(s.keys_dirty);
    s.clear_keys_dirty();
    s.set_key_state(65, false);
    assert_eq!(s.keys[65], 0);
    assert_eq!(s.keys[256 + 65], -1);
    assert_eq!(s.keys[512 + 65], 1);
}

#[test]
fn repeated_press_changes_nothing() {
    let mut s = GameState::new();
    s.set_key_state(32, true);
    s.clear_keys_dirty();
    s.update_key_tick();
    s.clear_keys_dirty();
    s.set_key_state(32, true);
    assert!(!s.keys_dirty);
    assert_eq!(s.keys[256 + 32], 0);
    assert_eq!(s.keys[512 + 32], 1);
}

#[test]
fn toggle_parity_after_presses() {
    let mut s = GameState::new();
    for n in 1..=5u32 {
        s.set_key_state(40, true);
        s.set_key_state(40, false);
        assert_eq!(s.keys[512 + 40] as u32, n % 2);
    }
}

#[test]
fn edge_row_lasts_one_tick() {
    let mut s = GameState::new();
    s.set_key_state(10, true);
    s.set_key_state(11, true);
    s.set_key_state(11, false);
    s.update_key_tick();
    assert!(s.keys[256..512].iter().all(|k| *k == 0));
    assert_eq!(s.keys[10], 1);
    assert_eq!(s.keys[512 + 11], 1);
    s.clear_keys_dirty();
    s.update_key_tick();
    assert!(!s.keys_dirty);
}

#[test]
fn frame_times() {
    let mut s = GameState::new();
    s.update_times(5_000_000);
    assert_eq!(s.time_delta, FIRST_FRAME_DELTA);
    assert_eq!(s.time_since_start, 16_000);
    s.update_times(5_250_000);
    assert_eq!(s.time_delta, 250_000);
    assert_eq!(s.time_since_start, 266_000);
    s.update_times(5_100_000);
    assert_eq!(s.time_delta, 0);
    assert_eq!(s.time_since_start, 266_000);
    assert_eq!(s.prev_render_time, Some(5_100_000));
}

#[test]
fn dates_from_timestamps() {
    let mut s = GameState::new();
    s.update_times(0);
    assert_eq!(s.date, [1970, 1, 1, 0]);
    s.update_times(1_700_000_000_500_000);
    assert_eq!(s.date, [2023, 11, 14, 80_000]);
    s.update_times(951_825_600_000_000);
    assert_eq!(s.date, [2000, 2, 29, 43_200]);
}

#[test]
fn frame_at_epoch_counts_as_a_frame() {
    let mut s = GameState::new();
    s.update_times(0);
    assert_eq!(s.time_since_start, FIRST_FRAME_DELTA);
    s.update_times(1_570_796);
    assert_eq!(s.time_delta, 1_570_796);
    assert_eq!(s.time_since_start, 16_000 + 1_570_796);
}
