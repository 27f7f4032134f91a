use sing_dance::consumer::{Consumer, ConsumerAction};
use sing_dance::producer::{Producer, ProducerAction};
use sing_dance::schedule::{run_cooperative, RunOutcome};

const LYRICS: &str = "One Two Three Four, Get On The Dance Floor";

fn lyric_words() -> Vec<String> {
    LYRICS.split_whitespace().map(|w| w.to_string()).collect()
}

#[test]
fn nine_steps_learn_the_whole_song() {
    let r = run_cooperative(lyric_words(), 9, 10);
    assert_eq!(
        r,
        RunOutcome::Completed("One Two Three Four, Get On The Dance Floor ".to_string())
    );
}

#[test]
fn nine_steps_need_one_more_round_than_steps() {
    let r = run_cooperative(lyric_words(), 9, 9);
    assert_eq!(r, RunOutcome::Stalled { learned: 8, counter: 9 });
}

#[test]
fn more_steps_than_words_still_complete() {
    let r = run_cooperative(lyric_words(), 12, 13);
    assert_eq!(
        r,
        RunOutcome::Completed("One Two Three Four, Get On The Dance Floor ".to_string())
    );
    let early = run_cooperative(lyric_words(), 12, 12);
    assert_eq!(early, RunOutcome::Stalled { learned: 9, counter: 12 });
}

#[test]
fn three_steps_never_complete() {
    for rounds in [4u64, 10, 100, 1000] {
        let r = run_cooperative(lyric_words(), 3, rounds);
        assert_eq!(r, RunOutcome::Stalled { learned: 3, counter: 3 });
    }
}

#[test]
fn three_steps_leave_fourth_word_waiting() {
    let mut singer = Consumer::new(lyric_words());
    for position in 1u64..=3 {
        assert_eq!(singer.poll(position), ConsumerAction::Learned(position as usize));
    }
    for _ in 0..5 {
        assert_eq!(singer.poll(3), ConsumerAction::Wait { observed: 3, target: 4 });
    }
    assert_eq!(singer.song(), "One Two Three Four, ");
    assert!(!singer.is_finished());
}

#[test]
fn zero_steps_hang_at_first_word() {
    let r = run_cooperative(lyric_words(), 0, 50);
    assert_eq!(r, RunOutcome::Stalled { learned: 0, counter: 0 });
    let mut singer = Consumer::new(lyric_words());
    assert_eq!(singer.poll(0), ConsumerAction::Wait { observed: 0, target: 1 });
    assert_eq!(singer.learned(), 0);
}

#[test]
fn counter_rises_by_one_up_to_bound() {
    let mut dancer = Producer::new(9);
    let mut last: u64 = dancer.published();
    assert_eq!(last, 0);
    for expected in 1u64..=9 {
        assert_eq!(dancer.step(), ProducerAction::Publish(expected));
        assert!(dancer.published() >= last);
        last = dancer.published();
        assert_eq!(last, expected);
    }
    assert!(dancer.is_finished());
    assert_eq!(dancer.step(), ProducerAction::Finished);
    assert_eq!(dancer.published(), 9);
    assert_eq!(dancer.bound(), 9);
}

#[test]
fn zero_bound_dancer_is_finished_at_once() {
    let mut dancer = Producer::new(0);
    assert!(dancer.is_finished());
    assert_eq!(dancer.step(), ProducerAction::Finished);
}

#[test]
fn rerun_gives_same_song() {
    let first = run_cooperative(lyric_words(), 9, 10);
    let second = run_cooperative(lyric_words(), 9, 40);
    assert_eq!(first, second);
}

#[test]
fn empty_song_completes_without_steps() {
    let none = run_cooperative(Vec::new(), 0, 0);
    assert_eq!(none, RunOutcome::Stalled { learned: 0, counter: 0 });
    let r = run_cooperative(Vec::new(), 0, 1);
    assert_eq!(r, RunOutcome::Completed(String::new()));
    let mut singer = Consumer::new(Vec::new());
    assert!(singer.is_finished());
    assert_eq!(singer.poll(0), ConsumerAction::Finished);
    assert_eq!(singer.into_song(), "");
}

#[test]
fn singer_ignores_counter_past_target() {
    let mut singer = Consumer::new(lyric_words());
    assert_eq!(singer.poll(2), ConsumerAction::Wait { observed: 2, target: 1 });
    assert_eq!(singer.poll(1), ConsumerAction::Learned(1));
    assert_eq!(singer.poll(1), ConsumerAction::Wait { observed: 1, target: 2 });
    assert_eq!(singer.song(), "One Two ");
}

#[test]
fn singer_finishes_after_last_word() {
    let words = vec!["la".to_string(), "di".to_string()];
    let mut singer = Consumer::new(words);
    assert_eq!(singer.song(), "la ");
    assert_eq!(singer.poll(1), ConsumerAction::Learned(1));
    assert_eq!(singer.song(), "la di ");
    assert_eq!(singer.poll(2), ConsumerAction::Learned(2));
    assert!(singer.is_finished());
    assert_eq!(singer.poll(2), ConsumerAction::Finished);
    assert_eq!(singer.into_song(), "la di ");
}

#[test]
fn lyrics_split_on_whitespace() {
    let singer = Consumer::from_lyrics("  One\tTwo \n Three   ");
    assert_eq!(singer.word_count(), 3);
    assert_eq!(singer.learned(), 0);
    assert_eq!(singer.song(), "One ");
    let full = Consumer::from_lyrics(LYRICS);
    assert_eq!(full.word_count(), 9);
    assert_eq!(full.song(), "One ");
}

#[test]
fn dancer_ends_one_round_after_last_step() {
    let r = run_cooperative(lyric_words(), 10, 10);
    assert_eq!(r, RunOutcome::Stalled { learned: 9, counter: 10 });
    let r = run_cooperative(lyric_words(), 10, 11);
    assert_eq!(
        r,
        RunOutcome::Completed("One Two Three Four, Get On The Dance Floor ".to_string())
    );
}

#[test]
fn learned_song_leaves_out_pending_word() {
    let mut singer = Consumer::new(lyric_words());
    assert_eq!(singer.learned_song(), "");
    assert_eq!(singer.poll(1), ConsumerAction::Learned(1));
    assert_eq!(singer.learned_song(), "One ");
    assert_eq!(singer.song(), "One Two ");
    assert_eq!(singer.poll(2), ConsumerAction::Learned(2));
    assert_eq!(singer.learned_song(), "One Two ");
}

#[test]
fn low_counter_values_in_any_order_never_finish() {
    let mut singer = Consumer::new(lyric_words());
    for observed in [3u64, 1, 0, 2, 2, 3, 1, 3, 0, 3, 2, 1] {
        singer.poll(observed);
        assert!(singer.learned() <= 3);
    }
    assert_eq!(singer.learned(), 3);
    assert_eq!(singer.poll(3), ConsumerAction::Wait { observed: 3, target: 4 });
    assert!(!singer.is_finished());
}
