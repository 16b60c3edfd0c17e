use wordle_engine::{GameStatus, LetterStatus, WordList};

const WORDS: &str = "APPLE\nGRAPE\nONION\nPEACH\nLEMON\nMANGO\nBERRY\nMELON\nPAPAL\n";

fn cureate_game_status() -> GameStatus {
    let word_list = WordList::new(WORDS).unwrap();
    let mut status = GameStatus::new(word_list);
    status.answer = "APPLE".to_string();
    status
}

#[test]
fn test_push_word_correct() {
    let mut status = cureate_game_status();
    let response = status.push("apple".to_string());
    assert!(status.is_clear);
    assert!(response.histories[0]
        .iter()
        .all(|l| matches!(l.status, LetterStatus::Correct)));
    assert!(response.is_update);
}

#[test]
fn test_check_word_present_letters() {
    let mut status = cureate_game_status();
    let response = status.push("grape".to_string());
    assert!(!status.is_clear);
    assert_eq!(status.histories.len(), 1);
    let statuses: Vec<LetterStatus> = response.histories[0]
        .iter()
        .map(|l| l.status.clone())
        .collect();
    assert_eq!(
        statuses,
        vec![
            LetterStatus::Absent,
            LetterStatus::Absent,
            LetterStatus::Present,
            LetterStatus::Present,
            LetterStatus::Correct
        ]
    );
    assert!(response.is_update);
}

#[test]
fn test_check_word_absent_letters() {
    let mut status = cureate_game_status();
    let response = status.push("onion".to_string());
    assert!(!status.is_clear);
    assert_eq!(response.histories.len(), 1);
    assert!(response.histories[0]
        .iter()
        .all(|l| matches!(l.status, LetterStatus::Absent)));
    assert!(response.is_update);
}

#[test]
fn test_check_word_invalid_word() {
    let mut status = cureate_game_status();
    let initial_history_count = status.histories.len();
    let response = status.push("xyzzy".to_string());
    assert_eq!(response.histories.len(), initial_history_count);
    assert!(!response.is_update);
}

#[test]
fn test_check_word_wrong_length() {
    let mut status = cureate_game_status();
    let initial_history_count = status.histories.len();
    let response = status.push("banana".to_string());
    assert_eq!(response.histories.len(), initial_history_count);
    assert!(!response.is_update);
}

#[test]
fn test_check_word_not_exist() {
    let mut status = cureate_game_status();
    let initial_history_count = status.histories.len();
    let response = status.push("abcde".to_string());
    assert_eq!(response.histories.len(), initial_history_count);
    assert!(!response.is_update);
}

#[test]
fn test_check_after_clear_cannot_push() {
    let mut status = cureate_game_status();
    let response = status.push("apple".to_string());
    assert!(status.is_clear);
    assert_eq!(response.histories.len(), 1);
    assert!(response.is_update);

    let response = status.push("peach".to_string());
    assert_eq!(response.histories.len(), 1);
    assert!(!response.is_update);
}

#[test]
fn test_clear_reset() {
    let mut status = cureate_game_status();
    let response = status.push("apple".to_string());
    assert!(status.is_clear);
    assert!(response.is_update);
    status.reset();
    assert!(!status.is_clear);
    assert!(response.is_update);
}
