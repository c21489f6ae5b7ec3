use game_session::error::SessionError;
use game_session::ident::{bytes_all_zero, bytes_equal, CorrelationId, Identity};
use game_session::outcome::{is_whole_word, Outcome, RemoteOutcome, UserEvent};
use game_session::word::{is_valid_word, WORD_LENGTH};

fn values_user(n: u8) -> Identity {
    Identity::new([n; 32])
}

#[test]
fn word_length_is_five() {
    assert_eq!(WORD_LENGTH, 5);
}

#[test]
fn valid_word_accepts_five_lowercase_letters() {
    assert!(is_valid_word("hello"));
    assert!(is_valid_word("world"));
    assert!(is_valid_word("aaaaa"));
}

#[test]
fn valid_word_rejects_four_characters() {
    assert!(!is_valid_word("abcd"));
}

#[test]
fn valid_word_rejects_six_characters() {
    assert!(!is_valid_word("abcdef"));
}

#[test]
fn valid_word_rejects_the_empty_word() {
    assert!(!is_valid_word(""));
}

#[test]
fn valid_word_rejects_an_uppercase_letter_anywhere() {
    assert!(!is_valid_word("Hello"));
    assert!(!is_valid_word("heLlo"));
    assert!(!is_valid_word("hellO"));
    assert!(!is_valid_word("HELLO"));
}

#[test]
fn valid_word_rejects_digits_spaces_and_punctuation() {
    assert!(!is_valid_word("hell0"));
    assert!(!is_valid_word("he lo"));
    assert!(!is_valid_word("he-lo"));
}

#[test]
fn valid_word_counts_characters_not_bytes() {
    // Five characters in six bytes.
    assert_eq!("h\u{e9}llo".len(), 6);
    assert!(is_valid_word("h\u{e9}llo"));
    // Three characters in five bytes.
    assert_eq!("\u{e9}\u{e9}a".len(), 5);
    assert!(!is_valid_word("\u{e9}\u{e9}a"));
}

#[test]
fn valid_word_accepts_lowercase_letters_of_other_scripts() {
    assert!(is_valid_word("\u{3b1}\u{3b2}\u{3b3}\u{3b4}\u{3b5}"));
    assert!(!is_valid_word("\u{391}\u{3b2}\u{3b3}\u{3b4}\u{3b5}"));
}

#[test]
fn whole_word_is_every_position_in_order() {
    assert!(is_whole_word(&vec![0, 1, 2, 3, 4]));
    assert!(!is_whole_word(&vec![]));
    assert!(!is_whole_word(&vec![0, 1, 2, 3]));
    assert!(!is_whole_word(&vec![0, 1, 2, 3, 4, 5]));
    assert!(!is_whole_word(&vec![0, 1, 2, 4, 3]));
    assert!(!is_whole_word(&vec![1, 1, 2, 3, 4]));
    assert!(!is_whole_word(&vec![0, 0, 0, 0, 0]));
}

#[test]
fn full_match_needs_a_checked_word_with_all_positions_right() {
    let user = values_user(1);
    let full = RemoteOutcome::WordChecked {
        user,
        correct_positions: vec![0, 1, 2, 3, 4],
        contained_in_word: vec![],
    };
    let partial = RemoteOutcome::WordChecked {
        user,
        correct_positions: vec![0, 2],
        contained_in_word: vec![1, 3, 4],
    };
    let started = RemoteOutcome::GameStarted { user };
    assert!(full.is_full_match());
    assert!(!partial.is_full_match());
    assert!(!started.is_full_match());
}

#[test]
fn outcome_names_the_user_it_concerns() {
    let started = RemoteOutcome::GameStarted { user: values_user(3) };
    let checked = RemoteOutcome::WordChecked {
        user: values_user(4),
        correct_positions: vec![],
        contained_in_word: vec![],
    };
    assert_eq!(started.user(), values_user(3));
    assert_eq!(checked.user(), values_user(4));
    assert_ne!(started.user(), checked.user());
}

#[test]
fn progress_of_a_started_game_is_started() {
    let started = RemoteOutcome::GameStarted { user: values_user(1) };
    assert_eq!(started.into_progress(), UserEvent::Started);
}

#[test]
fn progress_of_a_checked_word_keeps_both_position_lists() {
    let checked = RemoteOutcome::WordChecked {
        user: values_user(1),
        correct_positions: vec![0, 3],
        contained_in_word: vec![4, 1],
    };
    assert_eq!(
        checked.into_progress(),
        UserEvent::WordChecked { correct_positions: vec![0, 3], contained_in_word: vec![4, 1] }
    );
}

#[test]
fn outcomes_win_and_lose_differ() {
    assert_ne!(Outcome::Win, Outcome::Lose);
    assert_ne!(UserEvent::Finished(Outcome::Win), UserEvent::Finished(Outcome::Lose));
}

#[test]
fn identities_compare_by_their_bytes() {
    let mut bytes = [0u8; 32];
    bytes[31] = 1;
    let a = Identity::new(bytes);
    let b = Identity::new(bytes);
    bytes[31] = 2;
    let c = Identity::new(bytes);
    assert!(a == b);
    assert!(a != c);
    assert!(bytes_equal(&a.bytes, &b.bytes));
    assert!(!bytes_equal(&a.bytes, &c.bytes));
    assert_eq!(a.into_bytes()[31], 1);
}

#[test]
fn identities_that_differ_in_the_first_byte_differ() {
    let mut bytes = [9u8; 32];
    let a = CorrelationId::new(bytes);
    bytes[0] = 8;
    let b = CorrelationId::new(bytes);
    assert!(a != b);
    assert!(a == a);
    assert_eq!(b.into_bytes()[0], 8);
    assert_eq!(b.into_bytes()[1], 9);
}

#[test]
fn only_the_all_zero_identity_is_zero() {
    assert!(Identity::new([0u8; 32]).is_zero());
    assert!(bytes_all_zero(&[0u8; 32]));
    let mut bytes = [0u8; 32];
    bytes[17] = 1;
    assert!(!Identity::new(bytes).is_zero());
    assert!(!bytes_all_zero(&bytes));
    bytes = [0u8; 32];
    bytes[31] = 255;
    assert!(!Identity::new(bytes).is_zero());
}

#[test]
fn zero_correlation_id_is_all_zero_bytes() {
    assert_eq!(CorrelationId::zero().into_bytes(), [0u8; 32]);
    assert_eq!(CorrelationId::zero(), CorrelationId::new([0u8; 32]));
}

#[test]
fn every_error_has_its_own_message() {
    assert_eq!(SessionError::AlreadyInGame.message(), "User is already in game");
    assert_eq!(SessionError::NotInGame.message(), "User is not in game");
    assert_eq!(SessionError::InvalidWord.message(), "Invalid word");
    assert_eq!(SessionError::OutOfTurn.message(), "No request is waiting to be confirmed");
    assert_eq!(SessionError::InvalidRemote.message(), "Invalid remote service address");
}
