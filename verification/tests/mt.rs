use pkrd::rng::mt::MT;
use pkrd::rng::tinymt::TinyMT;

#[test]
fn seeded_generator_hands_out_its_table_in_order() {
    let mut mt = MT::new(0x12345678);
    assert_eq!(mt.next(), 0x12345678);
    assert_eq!(mt.next(), 0x2e345559);
}

#[test]
fn mt_twists_after_its_whole_table() {
    let mut mt = MT::new(0x11111111);
    for _ in 0..3 {
        mt.next();
    }
    assert_eq!(mt.next(), 0x32151361);
    let mut mt = MT::new(0xaabbccdd);
    for _ in 0..624 {
        mt.next();
    }
    assert_eq!(mt.next(), 0xd80fcb47);
}

#[test]
fn default_mt_is_seeded_with_zero() {
    let mut a = MT::default();
    let mut b = MT::new(0);
    for _ in 0..700 {
        assert_eq!(a.next(), b.next());
    }
}

#[test]
fn tinymt_steps() {
    let mut t = TinyMT::new([0x11111111; 4]);
    t.next_state();
    t.next_state();
    assert_eq!(t.get_state(), [0x11111111, 0x99999b33, 0xffe00555, 0x955552aa]);
    assert_eq!(TinyMT::default().get_state(), [0; 4]);
}
