use pkrd::game::c::reader::PokemonCReader;
use pkrd::reader::Gen2Reader;
use pkrd::rng::gen2::Gen2Rng;

const RAM: usize = 0xA23FAC;
const HRAM: usize = 0xA2C17C;

fn heap_with(bytes: &[(usize, u8)]) -> &'static [u8] {
    let mut heap = vec![0u8; HRAM + 0x10000];
    for (address, value) in bytes {
        heap[*address] = *value;
    }
    Box::leak(heap.into_boxed_slice())
}

#[test]
fn visual_frame_adds_vblank_moves_modulo_256() {
    let mut rng = Gen2Rng::default();
    rng.update_visual_frame(10);
    assert_eq!(rng.get_visual_frame(), 10);
    assert_eq!(rng.get_vblank_change(), 10);
    rng.update_visual_frame(3);
    assert_eq!(rng.get_vblank_change(), 249);
    assert_eq!(rng.get_visual_frame(), 259);
    assert_eq!(rng.get_last_vblank(), 3);
    rng.update_visual_frame(3);
    assert_eq!(rng.get_vblank_change(), 0);
    assert_eq!(rng.get_visual_frame(), 259);
}

#[test]
fn update_reads_vblank_from_high_ram() {
    let reader = PokemonCReader::new(heap_with(&[(HRAM + 0xFF9B, 7), (HRAM + 0xFFE1, 1)]));
    let mut rng = Gen2Rng::default();
    rng.update(&reader);
    assert_eq!(rng.get_visual_frame(), 7);
    assert_eq!(rng.get_last_vblank(), 7);
}

#[test]
fn update_restarts_visual_frame_when_vblank_and_rng_read_zero() {
    let mut rng = Gen2Rng::default();
    rng.update_visual_frame(200);
    let reader = PokemonCReader::new(heap_with(&[]));
    rng.update(&reader);
    assert_eq!(rng.get_vblank_change(), 56);
    assert_eq!(rng.get_visual_frame(), 0);

    let mut rng = Gen2Rng::default();
    rng.update_visual_frame(200);
    let reader = PokemonCReader::new(heap_with(&[(HRAM + 0xFFE2, 1)]));
    rng.update(&reader);
    assert_eq!(rng.get_visual_frame(), 256);
}

#[test]
fn reader_reads_words_in_their_byte_orders() {
    let reader = PokemonCReader::new(heap_with(&[
        (HRAM + 0xFFE1, 0x34),
        (HRAM + 0xFFE2, 0x12),
        (RAM + 0xD47B, 0x12),
        (RAM + 0xD47C, 0x34),
        (RAM + 0xDCF4, 0x9B),
        (RAM + 0xDCF5, 0x00),
        (HRAM + 0xFF04, 0x55),
    ]));
    assert_eq!(reader.read_rng(), 0x1234);
    assert_eq!(reader.read_tid(), 0x1234);
    assert_eq!(reader.read_starter(), 0x009B);
    assert_eq!(reader.read_div(), 0x55);
    assert_eq!(reader.read_gb(0xD47B), 0x12);
}

#[test]
fn reader_reads_zero_past_the_heap() {
    let reader = PokemonCReader::new(Box::leak(vec![1u8, 2, 3].into_boxed_slice()));
    assert_eq!(reader.default_read(2), 3);
    assert_eq!(reader.default_read(3), 0);
    assert_eq!(reader.read(1), Ok(2));
    assert_eq!(reader.read(3), Err(()));
    assert_eq!(reader.read_current_vblank(), 0);
}

#[test]
fn visual_frame_follows_the_vblank_count() {
    let mut rng = Gen2Rng::default();
    for vblank in [17u8, 3, 250, 250, 0, 128, 7] {
        rng.update_visual_frame(vblank);
        assert_eq!(rng.get_visual_frame() % 256, rng.get_last_vblank() as u32);
    }
}
