use pkrd::command_handler::{received_commands_well_typed, Command, CommandAction, CommandHandler};
use pkrd::game::c::reader::PokemonCReader;

fn command_list(commands: &[[u32; 4]]) -> [u8; 1024] {
    let mut buffer = [0u8; 1024];
    for (i, command) in commands.iter().enumerate() {
        for (j, word) in command.iter().enumerate() {
            buffer[i * 16 + j * 4..i * 16 + j * 4 + 4].copy_from_slice(&word.to_le_bytes());
        }
    }
    buffer
}

fn game() -> PokemonCReader {
    let heap: Vec<u8> = (0..=255u8).collect();
    PokemonCReader::new(Box::leak(heap.into_boxed_slice()))
}

#[test]
fn command_numbers() {
    assert!(Command::try_from(0) == Ok(Command::End));
    assert!(Command::try_from(1) == Ok(Command::Input));
    assert!(Command::try_from(2) == Ok(Command::ImpreciseInput));
    assert!(Command::try_from(3) == Ok(Command::Read));
    assert!(Command::try_from(255) == Ok(Command::WaitUntil));
    assert!(Command::try_from(4).is_err());
    assert!(Command::try_from(254).is_err());
    assert_eq!(Command::WaitUntil.value(), 255);
}

#[test]
fn receiving_counts_commands_up_to_end() {
    let buffer = command_list(&[[1, 0xFFE, 10, 5], [255, 100, 0, 0], [0, 0, 0, 0], [3, 0, 4, 0]]);
    let mut handler = CommandHandler::default();
    assert_eq!(handler.clear_and_recieve_commands(Some(&buffer)), Some(2));
    assert_eq!(handler.clear_and_recieve_commands(None), None);
}

#[test]
fn a_full_list_holds_sixty_four_commands() {
    let buffer = command_list(&[[255, 1, 0, 0]; 64]);
    let mut handler = CommandHandler::default();
    assert_eq!(handler.clear_and_recieve_commands(Some(&buffer)), Some(64));
}

#[test]
fn input_is_held_over_its_frames_then_released() {
    let buffer = command_list(&[[1, 0xFFE, 10, 5], [1, 0x10000001, 20, 0]]);
    let mut handler = CommandHandler::default();
    let game = game();
    handler.clear_and_recieve_commands(Some(&buffer));
    assert!(matches!(handler.parse_command(&game, 9, 0), CommandAction::Nothing));
    assert!(matches!(handler.parse_command(&game, 10, 0), CommandAction::WriteHid(0xFFE)));
    assert!(matches!(handler.parse_command(&game, 15, 0), CommandAction::Nothing));
    assert!(matches!(handler.parse_command(&game, 16, 0), CommandAction::ClearInputs));
    assert!(matches!(handler.parse_command(&game, 20, 0), CommandAction::WriteTouch(0x10000001)));
    assert!(matches!(handler.parse_command(&game, 21, 0), CommandAction::ClearInputs));
    assert!(matches!(handler.parse_command(&game, 22, 0), CommandAction::Nothing));
}

#[test]
fn read_sends_bytes_of_the_heap() {
    let buffer = command_list(&[[3, 10, 4, 0]]);
    let mut handler = CommandHandler::default();
    let game = game();
    handler.clear_and_recieve_commands(Some(&buffer));
    assert!(handler.parse_command_fits(&game, 0, 0));
    match handler.parse_command(&game, 0, 0) {
        CommandAction::Send(bytes) => {
            assert_eq!(&bytes[..5], &[10, 11, 12, 13, 0]);
            assert!(bytes[4..].iter().all(|b| *b == 0));
        },
        _ => panic!("a read sends bytes"),
    }
    assert!(matches!(handler.parse_command(&game, 0, 0), CommandAction::Nothing));
}

#[test]
fn read_past_the_heap_does_not_fit() {
    let buffer = command_list(&[[3, 250, 10, 0]]);
    let mut handler = CommandHandler::default();
    handler.clear_and_recieve_commands(Some(&buffer));
    assert!(!handler.parse_command_fits(&game(), 0, 0));
    let buffer = command_list(&[[3, 0, 129, 0]]);
    handler.clear_and_recieve_commands(Some(&buffer));
    assert!(!handler.parse_command_fits(&game(), 0, 0));
}

#[test]
fn wait_until_moves_on_at_its_frame() {
    let buffer = command_list(&[[255, 50, 0, 0], [2, 0x1000001, 60, 3]]);
    let mut handler = CommandHandler::default();
    let game = game();
    handler.clear_and_recieve_commands(Some(&buffer));
    assert!(matches!(handler.parse_command(&game, 49, 0), CommandAction::Nothing));
    assert!(matches!(handler.parse_command(&game, 52, 0), CommandAction::Nothing));
    // The imprecise input starts 60 - 52 frames after the wait ended.
    match handler.parse_command(&game, 53, 0) {
        CommandAction::ScheduleImpreciseInput { frames_until_start, frames_held } => {
            assert_eq!(frames_until_start, 8);
            assert_eq!(frames_held, 3);
        },
        _ => panic!("an imprecise input asks for its window first"),
    }
}

#[test]
fn imprecise_input_is_held_in_its_window() {
    let buffer = command_list(&[[2, 0x1000001, 60, 3], [2, 0xFFE, 70, 1]]);
    let mut handler = CommandHandler::default();
    let game = game();
    handler.clear_and_recieve_commands(Some(&buffer));
    assert!(matches!(
        handler.parse_command(&game, 0, 1000),
        CommandAction::ScheduleImpreciseInput { frames_until_start: 60, frames_held: 3 }
    ));
    handler.set_imprecise_window(2000, 2050);
    assert!(matches!(handler.parse_command(&game, 0, 1500), CommandAction::Nothing));
    assert!(matches!(handler.parse_command(&game, 0, 2000), CommandAction::WriteTouch(0x1000001)));
    assert!(matches!(handler.parse_command(&game, 0, 2010), CommandAction::Nothing));
    assert!(matches!(handler.parse_command(&game, 0, 2050), CommandAction::ClearInputs));
    assert!(matches!(
        handler.parse_command(&game, 0, 2060),
        CommandAction::ScheduleImpreciseInput { frames_until_start: 7, frames_held: 1 }
    ));
    handler.set_imprecise_window(3000, 3010);
    assert!(matches!(handler.parse_command(&game, 0, 3000), CommandAction::WriteHid(0xFFE)));
}

#[test]
fn imprecise_input_before_the_last_end_does_not_fit() {
    let buffer = command_list(&[[1, 0xFFE, 10, 5], [2, 0xFFE, 12, 1]]);
    let mut handler = CommandHandler::default();
    let game = game();
    handler.clear_and_recieve_commands(Some(&buffer));
    handler.parse_command(&game, 10, 0);
    handler.parse_command(&game, 16, 0);
    assert!(!handler.parse_command_fits(&game, 16, 0));
}

#[test]
fn input_whose_end_overflows_does_not_fit() {
    let buffer = command_list(&[[1, 0xFFE, 0xFFFF_FFF0, 0x20]]);
    let mut handler = CommandHandler::default();
    handler.clear_and_recieve_commands(Some(&buffer));
    assert!(!handler.parse_command_fits(&game(), 0, 0));
}

#[test]
fn lists_with_untyped_commands_are_recognised() {
    assert!(received_commands_well_typed(&command_list(&[[1, 0, 0, 0], [0, 0, 0, 0], [7, 0, 0, 0]])));
    assert!(!received_commands_well_typed(&command_list(&[[1, 0, 0, 0], [7, 0, 0, 0]])));
    assert!(received_commands_well_typed(&command_list(&[[3, 0, 0, 0]; 64])));
    assert!(received_commands_well_typed(&[0u8; 1024]));
}
