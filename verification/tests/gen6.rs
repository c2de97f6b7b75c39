use pkrd::rng::gen6::Gen6Rng;
use pkrd::rng::mt::MT;
use pkrd::rng::tinymt::TinyMT;

#[test]
fn should_update_mt_info() {
    let mut rng = Gen6Rng::default();

    rng.set_mt_rng(MT::new(0xaabbccdd));
    rng.update_mt(0xd80fcb47);

    assert_eq!(rng.get_mt_advances(), 625);
    assert_eq!(rng.get_mt_state(), 0xd80fcb47);
}

#[test]
fn should_update_tinymt_info() {
    let mut rng = Gen6Rng::default();

    rng.set_tinymt_rng(TinyMT::new([0x11112222, 0x33334444, 0x55556666, 0x77778888]));
    rng.update_tinymt([0x233f3c9d, 0x5a385202, 0x56e043c9, 0x76b46859]);

    assert_eq!(rng.get_tinymt_advances(), 156);
}

#[test]
fn should_reinitialize_values_if_mt_seed_changes() {
    let mut rng = Gen6Rng::default();
    rng.update(0xaabbccdd, 0xd80fcb47, [0x11111111; 4], None, 0xFFF);

    assert!(rng.needs_reseed(0x11111111));
    rng.update(0x11111111, 0x32151361, [0x22222222; 4], None, 0xFFF);

    assert_eq!(rng.get_mt_state(), 0x32151361);
    assert_eq!(rng.get_mt_advances(), 4);
    assert_eq!(rng.get_tinymt_advances(), 0);
    assert_eq!(rng.get_initial_tinymt_state(), [0x22222222; 4]);
}

#[test]
fn should_not_reinitialize_values_if_mt_seed_does_not_change() {
    let mut rng = Gen6Rng::default();
    rng.update(0xaabbccdd, 0x9eecaded, [0x11111111; 4], None, 0xFFF);
    assert_eq!(rng.get_mt_advances(), 601);

    assert!(!rng.needs_reseed(0xaabbccdd));
    rng.update(
        0xaabbccdd,
        0xd80fcb47,
        [0x11111111, 0x99999b33, 0xffe00555, 0x955552aa],
        None,
        0xFFF,
    );

    assert_eq!(rng.get_mt_state(), 0xd80fcb47);
    assert_eq!(rng.get_mt_advances(), 625);
    assert_eq!(rng.get_tinymt_advances(), 2);
    assert_eq!(rng.get_initial_tinymt_state(), [0x11111111; 4]);
}

#[test]
fn zero_seed_does_not_reinitialize() {
    let rng = Gen6Rng::default();
    assert!(!rng.needs_reseed(0));
    assert!(rng.needs_reseed(1));
}

#[test]
fn mt_state_not_found_keeps_counts() {
    let mut rng = Gen6Rng::default();
    rng.set_mt_rng(MT::new(0xaabbccdd));
    // A word that the generator does not hand out in its first 9998 calls.
    assert!(!rng.update_mt(0x12345678));
    assert_eq!(rng.get_mt_advances(), 0);
    assert_eq!(rng.get_mt_state(), 0);
}

#[test]
fn seeing_the_same_mt_state_again_adds_nothing() {
    let mut rng = Gen6Rng::default();
    rng.set_mt_rng(MT::new(0xaabbccdd));
    rng.update_mt(0xd80fcb47);
    rng.update_mt(0xd80fcb47);
    assert_eq!(rng.get_mt_advances(), 625);
    rng.update_tinymt([0, 0, 0, 0]);
    rng.update_tinymt([0, 0, 0, 0]);
    assert_eq!(rng.get_tinymt_advances(), 0);
}

#[test]
fn tinymt_state_not_found_keeps_count() {
    let mut rng = Gen6Rng::default();
    rng.set_tinymt_rng(TinyMT::new([0x11112222, 0x33334444, 0x55556666, 0x77778888]));
    assert!(!rng.update_tinymt([1, 2, 3, 4]));
    assert_eq!(rng.get_tinymt_advances(), 0);
}

fn input_list(pairs: &[(u32, u32)]) -> [u8; 512] {
    let mut buffer = [0u8; 512];
    for (i, (advance, buttons)) in pairs.iter().enumerate() {
        buffer[i * 8..i * 8 + 4].copy_from_slice(&advance.to_le_bytes());
        buffer[i * 8 + 4..i * 8 + 8].copy_from_slice(&buttons.to_le_bytes());
    }
    buffer
}

#[test]
fn downloaded_inputs_are_redirected_at_their_advance() {
    let buffer = input_list(&[(601, 0xABC), (625, 0x123), (601, 0x999)]);
    let mut rng = Gen6Rng::default();
    let redirect = rng.update(0xaabbccdd, 0x9eecaded, [0x11111111; 4], Some(&buffer), 0xFFF).redirect;
    assert_eq!(rng.get_mt_advances(), 601);
    // The first pair with the current advance wins.
    assert_eq!(redirect, Some(0xABC));

    let redirect = rng.update(0xaabbccdd, 0xd80fcb47, [0x11111111; 4], None, 0xABC).redirect;
    assert_eq!(rng.get_mt_advances(), 625);
    assert_eq!(redirect, Some(0x123));
}

#[test]
fn buttons_are_released_when_no_input_is_due() {
    let buffer = input_list(&[(1000, 0xABC)]);
    let mut rng = Gen6Rng::default();
    let redirect = rng.update(0xaabbccdd, 0x9eecaded, [0x11111111; 4], Some(&buffer), 0xABC).redirect;
    assert_eq!(redirect, Some(0xFFF));
    let redirect = rng.update(0xaabbccdd, 0x9eecaded, [0x11111111; 4], None, 0xFFF).redirect;
    assert_eq!(redirect, None);
}

#[test]
fn a_zeroed_download_pairs_advance_zero() {
    // An all-zero list holds 64 pairs of advance 0 and buttons 0.
    let buffer = [0u8; 512];
    let mut rng = Gen6Rng::default();
    let redirect = rng.update(0xaabbccdd, 0xaabbccdd, [0x11111111; 4], Some(&buffer), 0xFFF).redirect;
    assert_eq!(rng.get_mt_advances(), 0);
    assert_eq!(redirect, Some(0));
}

#[test]
fn the_last_pair_of_a_download_counts() {
    let mut pairs = vec![(5000u32, 0u32); 63];
    pairs.push((601, 0x777));
    let buffer = input_list(&pairs);
    let mut rng = Gen6Rng::default();
    let update = rng.update(0xaabbccdd, 0x9eecaded, [0x11111111; 4], Some(&buffer), 0xFFF);
    assert_eq!(update.redirect, Some(0x777));
    assert!(update.mt_state_found);
    assert!(update.tinymt_state_found);
    assert_eq!(rng.get_init_seed(), 0xaabbccdd);
}

#[test]
fn updates_report_states_not_found() {
    let mut rng = Gen6Rng::default();
    rng.update(0xaabbccdd, 0xaabbccdd, [0x11111111; 4], None, 0xFFF);
    let update = rng.update(0xaabbccdd, 0x12345678, [1, 2, 3, 4], None, 0xFFF);
    assert!(!update.mt_state_found);
    assert!(!update.tinymt_state_found);
    assert_eq!(update.redirect, None);
}

#[test]
fn update_fits_unless_a_count_would_overflow() {
    let rng = Gen6Rng::default();
    assert!(rng.update_fits(0xaabbccdd, 0x9eecaded, [0x11111111; 4]));
    let mut rng = Gen6Rng::default();
    rng.update(0xaabbccdd, 0xaabbccdd, [0x11111111; 4], None, 0xFFF);
    assert!(rng.update_fits(0xaabbccdd, 0xd80fcb47, [0x11111111; 4]));
    assert!(rng.update_fits(0xaabbccdd, 0x12345678, [1, 2, 3, 4]));
}
