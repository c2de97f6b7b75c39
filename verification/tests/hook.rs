use pkrd::command_handler::CommandAction;
use pkrd::game::c::hook::PokemonC;
use pkrd::views::gen2::{LeftGen2View, RightGen2View};

const HRAM: usize = 0xA2C17C;

#[test]
fn hook_receives_commands_at_visual_frame_one() {
    let mut heap = vec![0u8; HRAM + 0x10000];
    heap[HRAM + 0xFF9B] = 1;
    heap[HRAM + 0xFFE1] = 1;
    let heap: &'static [u8] = Box::leak(heap.into_boxed_slice());
    let mut hook = PokemonC::new_from_supported_title(0x0004000000172800, heap);
    assert_eq!(hook.get_title(), 0x0004000000172800);
    assert!(!hook.should_receive_commands());
    let views = hook.run_views(true, false);
    assert_eq!(views, (LeftGen2View::Hidden, RightGen2View::RngView));
    assert_eq!(hook.rng().get_visual_frame(), 1);
    assert!(hook.should_receive_commands());

    let mut buffer = [0u8; 1024];
    buffer[0] = 255;
    buffer[4] = 5;
    assert_eq!(hook.clear_and_recieve_commands(Some(&buffer)), Some(1));
    assert!(hook.parse_command_fits(0));
    assert!(matches!(hook.parse_command(0), CommandAction::Nothing));
    let views = hook.run_views(false, true);
    assert_eq!(views, (LeftGen2View::NetworkView, RightGen2View::RngView));
    assert!(!hook.should_receive_commands());
}
