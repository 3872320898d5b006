use logic::author::{parse_author, AuthorError};
use logic::player::AutonomousPlayer;

#[test]
fn author_one_statement_per_field_then_emit() {
    let program = parse_author(b"a +90; t +6000; c +5;").unwrap();
    assert_eq!(program.len(), 1);
    assert_eq!(program[0].duration_ticks, 5);
    assert_eq!(program[0].instruction.target_angle, 90);
    assert_eq!(program[0].instruction.thrust, 6000);
    assert_eq!(program[0].instruction.target_position, 0);
    assert!(!program[0].instruction.belt_active);
}

#[test]
fn author_fields_persist_between_emissions() {
    let program = parse_author(b"t +100; c +1; a -45; c +2;").unwrap();
    assert_eq!(program.len(), 2);
    assert_eq!(program[0].instruction.thrust, 100);
    assert_eq!(program[0].instruction.target_angle, 0);
    assert_eq!(program[0].duration_ticks, 1);
    assert_eq!(program[1].instruction.thrust, 100);
    assert_eq!(program[1].instruction.target_angle, -45);
    assert_eq!(program[1].duration_ticks, 2);
}

#[test]
fn author_belt_and_solenoid_ops() {
    let program = parse_author(b"b -1; s +1; c +1;").unwrap();
    assert_eq!(program.len(), 1);
    assert!(program[0].instruction.belt_active);
    assert!(!program[0].instruction.belt_direction);
    assert!(program[0].instruction.solenoid_active);
    let program = parse_author(b"b +0; c +1;").unwrap();
    assert!(!program[0].instruction.belt_active);
}

#[test]
fn author_tolerates_flexible_whitespace() {
    let program = parse_author(b"  a\t+10;\n\n p  -20;\r\nc +3;\n").unwrap();
    assert_eq!(program.len(), 1);
    assert_eq!(program[0].instruction.target_angle, 10);
    assert_eq!(program[0].instruction.target_position, -20);
    assert_eq!(program[0].duration_ticks, 3);
}

#[test]
fn author_empty_text_is_an_empty_routine() {
    assert_eq!(parse_author(b"").unwrap().len(), 0);
    assert_eq!(parse_author(b"  \n ").unwrap().len(), 0);
}

#[test]
fn author_rejects_unknown_mnemonics() {
    assert_eq!(parse_author(b"z +1;"), Err(AuthorError::UnknownMnemonic));
    assert_eq!(parse_author(b"ld +12000;"), Err(AuthorError::UnknownMnemonic));
}

#[test]
fn author_rejects_malformed_statements() {
    // missing sign
    assert_eq!(parse_author(b"a 90;"), Err(AuthorError::Syntax));
    // missing digits
    assert_eq!(parse_author(b"a +;"), Err(AuthorError::Syntax));
    // missing terminator
    assert_eq!(parse_author(b"a +90"), Err(AuthorError::Syntax));
    // stray character between statements
    assert_eq!(parse_author(b"; a +1;"), Err(AuthorError::Syntax));
}

#[test]
fn author_rejects_out_of_range_values() {
    assert_eq!(parse_author(b"a +200;"), Err(AuthorError::OutOfRange));
    assert_eq!(parse_author(b"t -13000;"), Err(AuthorError::OutOfRange));
    assert_eq!(parse_author(b"p +300;"), Err(AuthorError::OutOfRange));
    // a run must last at least one tick
    assert_eq!(parse_author(b"c +0;"), Err(AuthorError::OutOfRange));
    assert_eq!(parse_author(b"c -5;"), Err(AuthorError::OutOfRange));
    // a value too wide for any field
    assert_eq!(parse_author(b"c +99999999999;"), Err(AuthorError::OutOfRange));
}

#[test]
fn authored_routine_replays_through_the_player() {
    let program = parse_author(b"t +12000; c +2; t +0; s +1; c +1;").unwrap();
    let mut player = AutonomousPlayer::new(program);
    let first = player.advance().unwrap();
    assert_eq!(first.thrust, 12000);
    assert!(!first.solenoid_active);
    let second = player.advance().unwrap();
    assert_eq!(second, first);
    let third = player.advance().unwrap();
    assert_eq!(third.thrust, 0);
    assert!(third.solenoid_active);
    assert_eq!(player.advance(), None);
}

#[test]
fn author_duration_spans_the_whole_counter() {
    let program = parse_author(b"c +4294967295;").unwrap();
    assert_eq!(program[0].duration_ticks, 4294967295);
    assert_eq!(parse_author(b"c +4294967296;"), Err(AuthorError::OutOfRange));
}
