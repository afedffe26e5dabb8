use solana_counter::{
    process_instruction, same_identity, Account, CounterInstruction, DecodeError, HandlerError,
    Receipt, TransitionError,
};

const PROGRAM: [u8; 32] = [7u8; 32];

const COMMANDS: [CounterInstruction; 4] = [
    CounterInstruction::Initialize,
    CounterInstruction::Increment,
    CounterInstruction::Decrement,
    CounterInstruction::Reset,
];

fn stranger() -> [u8; 32] {
    let mut id = PROGRAM;
    id[31] = 8;
    id
}

fn owned(data: &[u8]) -> Account {
    Account { owner: PROGRAM, data: data.to_vec() }
}

#[test]
fn initialize_zeroes_the_buffer() {
    let mut accounts = vec![owned(&[0xFF, 0xFF, 0xFF, 0xFF])];
    let result =
        process_instruction(&PROGRAM, &mut accounts, &CounterInstruction::Initialize.encode());
    assert_eq!(result, Ok(Receipt { command: CounterInstruction::Initialize, count: 0 }));
    assert_eq!(accounts[0].data, vec![0x00u8, 0x00, 0x00, 0x00]);
}

#[test]
fn increment_stores_the_next_count() {
    let mut accounts = vec![owned(&[0x05, 0x00, 0x00, 0x00])];
    let result = process_instruction(&PROGRAM, &mut accounts, &[1]);
    assert_eq!(result, Ok(Receipt { command: CounterInstruction::Increment, count: 6 }));
    assert_eq!(accounts[0].data, vec![0x06u8, 0x00, 0x00, 0x00]);
}

#[test]
fn decrement_at_zero_fails_and_keeps_the_buffer() {
    let mut accounts = vec![owned(&[0x00, 0x00, 0x00, 0x00])];
    let result = process_instruction(&PROGRAM, &mut accounts, &[2]);
    assert_eq!(result, Err(HandlerError::Transition(TransitionError::Underflow)));
    assert_eq!(accounts[0].data, vec![0x00u8, 0x00, 0x00, 0x00]);
}

#[test]
fn unknown_tag_fails_and_touches_no_account() {
    let mut accounts = vec![owned(&[0x05, 0x00, 0x00, 0x00])];
    let before = accounts.clone();
    let result = process_instruction(&PROGRAM, &mut accounts, &[0x09]);
    assert_eq!(result, Err(HandlerError::InvalidInstruction));
    assert_eq!(accounts, before);
}

#[test]
fn malformed_instruction_is_reported_before_anything_else() {
    let mut none: Vec<Account> = Vec::new();
    assert_eq!(
        process_instruction(&PROGRAM, &mut none, &[0x09]),
        Err(HandlerError::InvalidInstruction)
    );
    assert_eq!(process_instruction(&PROGRAM, &mut none, &[]), Err(HandlerError::InvalidInstruction));
    let mut foreign = vec![Account { owner: stranger(), data: vec![1] }];
    assert_eq!(
        process_instruction(&PROGRAM, &mut foreign, &[1, 0]),
        Err(HandlerError::InvalidInstruction)
    );
    assert_eq!(foreign[0].data, vec![1u8]);
}

#[test]
fn missing_account_is_rejected() {
    for command in COMMANDS {
        let mut none: Vec<Account> = Vec::new();
        assert_eq!(
            process_instruction(&PROGRAM, &mut none, &command.encode()),
            Err(HandlerError::MissingAccount)
        );
        assert!(none.is_empty());
    }
}

#[test]
fn foreign_owner_is_rejected_for_every_command() {
    for command in COMMANDS {
        let mut accounts = vec![Account { owner: stranger(), data: vec![5, 0, 0, 0, 0xAA] }];
        let before = accounts.clone();
        assert_eq!(
            process_instruction(&PROGRAM, &mut accounts, &command.encode()),
            Err(HandlerError::IncorrectOwner)
        );
        assert_eq!(accounts, before);
    }
}

#[test]
fn foreign_owner_is_reported_before_a_short_buffer() {
    let mut accounts = vec![Account { owner: stranger(), data: vec![5] }];
    assert_eq!(
        process_instruction(&PROGRAM, &mut accounts, &[1]),
        Err(HandlerError::IncorrectOwner)
    );
    assert_eq!(accounts[0].data, vec![5u8]);
}

#[test]
fn short_buffer_is_rejected_and_kept() {
    for command in COMMANDS {
        let mut accounts = vec![owned(&[1, 2, 3])];
        assert_eq!(
            process_instruction(&PROGRAM, &mut accounts, &command.encode()),
            Err(HandlerError::Decode(DecodeError::BufferTooShort))
        );
        assert_eq!(accounts[0].data, vec![1u8, 2, 3]);
    }
}

#[test]
fn increment_at_the_largest_count_fails_and_keeps_the_buffer() {
    let mut accounts = vec![owned(&[0xFF, 0xFF, 0xFF, 0xFF])];
    assert_eq!(
        process_instruction(&PROGRAM, &mut accounts, &[1]),
        Err(HandlerError::Transition(TransitionError::Overflow))
    );
    assert_eq!(accounts[0].data, vec![0xFFu8, 0xFF, 0xFF, 0xFF]);
}

#[test]
fn decrement_stores_the_previous_count() {
    let mut accounts = vec![owned(&[0x00, 0x01, 0x00, 0x00])];
    assert_eq!(
        process_instruction(&PROGRAM, &mut accounts, &[2]),
        Ok(Receipt { command: CounterInstruction::Decrement, count: 255 })
    );
    assert_eq!(accounts[0].data, vec![0xFFu8, 0x00, 0x00, 0x00]);
}

#[test]
fn reset_zeroes_the_buffer() {
    let mut accounts = vec![owned(&[0x78, 0x56, 0x34, 0x12])];
    assert_eq!(
        process_instruction(&PROGRAM, &mut accounts, &[3]),
        Ok(Receipt { command: CounterInstruction::Reset, count: 0 })
    );
    assert_eq!(accounts[0].data, vec![0u8, 0, 0, 0]);
}

#[test]
fn initialize_may_be_repeated() {
    let mut accounts = vec![owned(&[9, 9, 9, 9])];
    for _ in 0..2 {
        assert_eq!(
            process_instruction(&PROGRAM, &mut accounts, &[0]),
            Ok(Receipt { command: CounterInstruction::Initialize, count: 0 })
        );
        assert_eq!(accounts[0].data, vec![0u8, 0, 0, 0]);
    }
}

#[test]
fn increment_carries_into_the_next_byte() {
    let mut accounts = vec![owned(&[0xFF, 0xFF, 0x00, 0x00])];
    assert_eq!(
        process_instruction(&PROGRAM, &mut accounts, &[1]),
        Ok(Receipt { command: CounterInstruction::Increment, count: 65_536 })
    );
    assert_eq!(accounts[0].data, vec![0x00u8, 0x00, 0x01, 0x00]);
}

#[test]
fn bytes_after_the_counter_are_kept() {
    let mut accounts = vec![owned(&[5, 0, 0, 0, 0xAA, 0xBB])];
    assert_eq!(
        process_instruction(&PROGRAM, &mut accounts, &[1]),
        Ok(Receipt { command: CounterInstruction::Increment, count: 6 })
    );
    assert_eq!(accounts[0].data, vec![6u8, 0, 0, 0, 0xAA, 0xBB]);
    assert_eq!(accounts[0].owner, PROGRAM);
}

#[test]
fn only_the_first_account_is_used() {
    let second = Account { owner: stranger(), data: vec![1, 1, 1, 1] };
    let third = owned(&[2, 2, 2, 2]);
    let mut accounts = vec![owned(&[5, 0, 0, 0]), second.clone(), third.clone()];
    assert_eq!(
        process_instruction(&PROGRAM, &mut accounts, &[1]),
        Ok(Receipt { command: CounterInstruction::Increment, count: 6 })
    );
    assert_eq!(accounts.len(), 3);
    assert_eq!(accounts[0], owned(&[6, 0, 0, 0]));
    assert_eq!(accounts[1], second);
    assert_eq!(accounts[2], third);
}

#[test]
fn calls_follow_one_another() {
    let mut accounts = vec![owned(&[0xFF, 0xFF, 0xFF, 0xFF])];
    let script: [(u8, u32); 6] = [(0, 0), (1, 1), (1, 2), (2, 1), (1, 2), (3, 0)];
    for (tag, count) in script {
        let receipt = process_instruction(&PROGRAM, &mut accounts, &[tag]).unwrap();
        assert_eq!(receipt.count, count);
        assert_eq!(accounts[0].data, count.to_le_bytes().to_vec());
    }
}

#[test]
fn identities_are_compared_byte_by_byte() {
    assert!(same_identity(&PROGRAM, &[7u8; 32]));
    assert!(!same_identity(&PROGRAM, &stranger()));
    let mut first = PROGRAM;
    first[0] = 0;
    assert!(!same_identity(&first, &PROGRAM));
    assert!(!same_identity(&[0u8; 32], &[1u8; 32]));
}
