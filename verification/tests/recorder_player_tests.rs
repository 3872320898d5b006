use logic::codec::Instruction;
use logic::player::{load, AutonomousPlayer};
use logic::recorder::{serialize_program, Recorder, RunLengthEntry};

fn inst_a() -> Instruction {
    Instruction {
        target_angle: 45,
        target_position: 10,
        belt_active: true,
        belt_direction: false,
        solenoid_active: false,
        thrust: 6000,
    }
}

fn inst_b() -> Instruction {
    Instruction {
        target_angle: -45,
        target_position: 0,
        belt_active: false,
        belt_direction: false,
        solenoid_active: true,
        thrust: -3000,
    }
}

#[test]
fn recorder_merges_identical_ticks_into_one_entry() {
    let mut rec = Recorder::new();
    for _ in 0..5 {
        rec.observe(inst_a());
    }
    let program = rec.into_program();
    assert_eq!(program.len(), 1);
    assert_eq!(program[0], RunLengthEntry { instruction: inst_a(), duration_ticks: 5 });
}

#[test]
fn recorder_starts_a_new_entry_on_a_differing_tick() {
    let mut rec = Recorder::new();
    for _ in 0..5 {
        rec.observe(inst_a());
    }
    rec.observe(inst_b());
    let program = rec.into_program();
    assert_eq!(program.len(), 2);
    assert_eq!(program[0], RunLengthEntry { instruction: inst_a(), duration_ticks: 5 });
    assert_eq!(program[1], RunLengthEntry { instruction: inst_b(), duration_ticks: 1 });
}

#[test]
fn recorder_alternating_ticks_never_merge() {
    let mut rec = Recorder::new();
    rec.observe(inst_a());
    rec.observe(inst_b());
    rec.observe(inst_a());
    let program = rec.into_program();
    assert_eq!(program.len(), 3);
    for entry in &program {
        assert_eq!(entry.duration_ticks, 1);
    }
}

#[test]
fn flush_emits_the_pending_run_and_goes_idle() {
    let mut rec = Recorder::new();
    rec.observe(inst_a());
    rec.observe(inst_a());
    let bytes = rec.flush();
    // one nine-byte record: five instruction bytes and a duration of two
    assert_eq!(bytes.len(), 9);
    assert_eq!(&bytes[5..9], &[0, 0, 0, 2]);
    // flushing again adds nothing new
    let again = rec.flush();
    assert_eq!(again, bytes);
}

#[test]
fn player_yields_each_run_for_its_duration_then_nothing() {
    let program = vec![
        RunLengthEntry { instruction: inst_a(), duration_ticks: 5 },
        RunLengthEntry { instruction: inst_b(), duration_ticks: 3 },
    ];
    let mut player = AutonomousPlayer::new(program);
    for _ in 0..5 {
        assert_eq!(player.advance(), Some(inst_a()));
    }
    for _ in 0..3 {
        assert_eq!(player.advance(), Some(inst_b()));
    }
    assert_eq!(player.advance(), None);
    assert_eq!(player.advance(), None);
}

#[test]
fn player_restart_replays_from_the_top() {
    let program = vec![RunLengthEntry { instruction: inst_a(), duration_ticks: 2 }];
    let mut player = AutonomousPlayer::new(program);
    assert_eq!(player.advance(), Some(inst_a()));
    assert_eq!(player.advance(), Some(inst_a()));
    assert_eq!(player.advance(), None);
    player.restart();
    assert_eq!(player.advance(), Some(inst_a()));
}

#[test]
fn player_of_an_empty_program_is_immediately_terminal() {
    let mut player = AutonomousPlayer::new(Vec::new());
    assert_eq!(player.advance(), None);
}

#[test]
fn recorded_bytes_load_back_into_the_same_replay() {
    let mut rec = Recorder::new();
    for _ in 0..4 {
        rec.observe(inst_a());
    }
    for _ in 0..2 {
        rec.observe(inst_b());
    }
    let bytes = rec.flush();
    let mut player = load(&bytes).expect("a fresh recording loads");
    for _ in 0..4 {
        assert_eq!(player.advance(), Some(inst_a()));
    }
    for _ in 0..2 {
        assert_eq!(player.advance(), Some(inst_b()));
    }
    assert_eq!(player.advance(), None);
}

#[test]
fn load_rejects_torn_and_zero_duration_records() {
    // a torn stream: not a whole number of records
    let program = vec![RunLengthEntry { instruction: inst_a(), duration_ticks: 1 }];
    let mut bytes = serialize_program(&program);
    bytes.pop();
    assert!(load(&bytes).is_err());
    // a zero duration
    let mut bytes = serialize_program(&program);
    let n = bytes.len();
    bytes[n - 1] = 0;
    assert!(load(&bytes).is_err());
    // garbage instruction bytes (nonzero padding)
    let mut bytes = serialize_program(&program);
    bytes[4] |= 1;
    assert!(load(&bytes).is_err());
}

#[test]
fn load_of_an_empty_stream_is_an_empty_program() {
    let mut player = load(&[]).expect("an empty recording is a valid empty program");
    assert_eq!(player.advance(), None);
}
