use wordle_searcher::corpus::{keep_words_of_length, normalize_line, select_corpus};
use wordle_searcher::input::parse_guess;
use wordle_searcher::loader::{
    corpus_from_text, CorpusLoaderAction, CorpusLoaderEvent, CorpusLoaderState,
};
use wordle_searcher::{
    AddGuessErrorVariant, ExcludeWordError, NaiveSolver, WordleCharStatus, WordleGame, WordleLine,
};

fn line3() -> WordleLine {
    WordleLine::new(vec![
        ('a', WordleCharStatus::Existing),
        ('b', WordleCharStatus::Good),
        ('c', WordleCharStatus::Existing),
    ])
}

fn five_words() -> Vec<String> {
    vec!["aaa", "bbb", "ccc", "abc", "cba"].into_iter().map(|w| w.to_string()).collect()
}

#[test]
fn satisfies_rejects_other_lengths() {
    let line = line3();
    assert!(!line.satisfies("cb"));
    assert!(!line.satisfies("cbaa"));
    assert!(!line.satisfies(""));
    assert!(line.satisfies("cba"));
}

#[test]
fn satisfies_positional_and_global_rules() {
    let line = line3();
    // `a` may not stay in place
    assert!(!line.satisfies("abc"));
    // `b` must be in place
    assert!(!line.satisfies("cab"));
    // `a` must occur somewhere
    assert!(!line.satisfies("cbc"));
    let absent = WordleLine::new(vec![
        ('x', WordleCharStatus::Inexistent),
        ('b', WordleCharStatus::Good),
        ('y', WordleCharStatus::Inexistent),
    ]);
    assert!(absent.satisfies("abc"));
    assert!(!absent.satisfies("xba"));
    assert!(!absent.satisfies("aby"));
}

#[test]
fn satisfies_counts_characters_not_bytes() {
    let line = WordleLine::new(vec![
        ('к', WordleCharStatus::Good),
        ('о', WordleCharStatus::Existing),
        ('т', WordleCharStatus::Inexistent),
    ]);
    assert_eq!(3, line.len());
    assert!(line.satisfies("кбо"));
    assert!(!line.satisfies("кот"));
}

#[test]
fn wrong_length_guess_is_handed_back() {
    let mut game = WordleGame::new(five_words(), 6, 3);
    let short = WordleLine::new(vec![('a', WordleCharStatus::Good)]);
    let err = game.add_guess(short).unwrap_err();
    assert_eq!(AddGuessErrorVariant::WordLength { expected_length: 3 }, err.error);
    assert_eq!(WordleLine::new(vec![('a', WordleCharStatus::Good)]), err.guess);
    assert_eq!("Invalid guess length", err.message());
    assert_eq!(0, game.performed_guesses());
}

#[test]
fn attempts_ceiling_with_one_attempt() {
    let mut game = WordleGame::new(five_words(), 1, 3);
    assert_eq!(Ok(()), game.add_guess(line3()));
    assert_eq!(1, game.performed_guesses());
    let err = game.add_guess(line3()).unwrap_err();
    assert_eq!(AddGuessErrorVariant::NoMoreAttempts { total_attempts: 1 }, err.error);
    assert_eq!("No more attempts", err.message());
    assert_eq!(1, game.performed_guesses());
    let left: Vec<&str> = game.iter_corpus().collect();
    assert_eq!(vec!["cba"], left);
}

#[test]
fn ceiling_checked_before_length() {
    let mut game = WordleGame::new(five_words(), 2, 3);
    assert_eq!(Ok(()), game.add_guess(line3()));
    assert_eq!(Ok(()), game.add_guess(line3()));
    let err = game.add_guess(WordleLine::new(vec![])).unwrap_err();
    assert_eq!(AddGuessErrorVariant::NoMoreAttempts { total_attempts: 2 }, err.error);
    assert_eq!(2, game.performed_guesses());
}

#[test]
fn exclude_twice_fails_second_time() {
    let mut game = WordleGame::new(five_words(), 6, 3);
    assert_eq!(Ok(()), game.exclude("abc".to_string()));
    assert_eq!(Err(ExcludeWordError::AlreadyExcluded), game.exclude("abc".to_string()));
    assert!(game.is_excluded("abc"));
}

#[test]
fn exclude_wrong_length_leaves_set_empty() {
    let mut game = WordleGame::new(five_words(), 6, 3);
    assert_eq!(
        Err(ExcludeWordError::InvalidLength { expected_length: 3 }),
        game.exclude("abcd".to_string())
    );
    assert!(!game.is_excluded("abcd"));
    let all: Vec<&str> = game.iter_corpus().collect();
    assert_eq!(5, all.len());
}

#[test]
fn exclude_measures_characters() {
    let mut game = WordleGame::new(vec!["кот".to_string()], 6, 3);
    assert_eq!(Ok(()), game.exclude("кот".to_string()));
    let all: Vec<&str> = game.iter_corpus().collect();
    assert!(all.is_empty());
}

#[test]
fn naive_solver_guesses_and_exclusions() {
    let mut solver: NaiveSolver<3> = NaiveSolver::new(five_words());
    let err = solver.add_guess(WordleLine::new(vec![])).unwrap_err();
    assert_eq!(AddGuessErrorVariant::WordLength { expected_length: 3 }, err.error);
    assert_eq!(Ok(()), solver.exclude("aaa".to_string()));
    assert!(solver.is_excluded("aaa"));
    assert_eq!(Err(ExcludeWordError::AlreadyExcluded), solver.exclude("aaa".to_string()));
    assert_eq!(0, solver.performed_guesses());
    let all: Vec<&str> = solver.iter_corpus().collect();
    assert_eq!(vec!["bbb", "ccc", "abc", "cba"], all);
}

fn fifty_words() -> Vec<String> {
    let mut words = Vec::new();
    for a in ['b', 'c', 'd', 'e', 'f'] {
        for b in ['g', 'h', 'i', 'j', 'k', 'l', 'm', 'n', 'o', 'p'] {
            words.push(format!("{}{}", a, b));
        }
    }
    words
}

#[test]
fn ranking_caps_at_ten_in_corpus_order() {
    let words = fifty_words();
    assert_eq!(50, words.len());
    let game = WordleGame::new(words.clone(), 6, 2);
    let ranked = game.iter_best_next_guess().collect();
    assert_eq!(10, ranked.len());
    for (i, (w, ())) in ranked.iter().enumerate() {
        assert_eq!(words[i].as_str(), *w);
    }
    let mut it = game.iter_best_next_guess();
    for _ in 0..10 {
        assert!(it.next().is_some());
    }
    assert_eq!(None, it.next());
    assert_eq!(None, it.next());
}

#[test]
fn ranking_of_few_candidates() {
    let solver: NaiveSolver<3> = NaiveSolver::new(five_words());
    let ranked = solver.iter_best_next_guess().collect();
    let words: Vec<&str> = ranked.iter().map(|p| p.0).collect();
    assert_eq!(vec!["aaa", "bbb", "ccc", "abc", "cba"], words);
}

#[test]
fn parse_guess_from_mask() {
    let line = parse_guess("abc", "?b*").unwrap();
    assert_eq!(
        vec![
            ('a', WordleCharStatus::Existing),
            ('b', WordleCharStatus::Good),
            ('c', WordleCharStatus::Inexistent),
        ],
        line.chars
    );
}

#[test]
fn parse_guess_drops_unknown_mask_positions() {
    let line = parse_guess("abc", "x?c").unwrap();
    assert_eq!(
        vec![('b', WordleCharStatus::Existing), ('c', WordleCharStatus::Good)],
        line.chars
    );
    assert_eq!(2, line.len());
}

#[test]
fn parse_guess_length_mismatch() {
    assert!(parse_guess("abc", "??").is_none());
    assert!(parse_guess("", "").unwrap().chars.is_empty());
}

#[test]
fn corpus_lines_are_trimmed_lowercased_and_filtered() {
    assert_eq!("кошка", normalize_line("  КошКа \t"));
    let lines = vec![
        " Apple ".to_string(),
        "kiwi".to_string(),
        "ПЕСОК".to_string(),
        "  ".to_string(),
        "Grape\r".to_string(),
    ];
    assert_eq!(
        vec!["apple".to_string(), "песок".to_string(), "grape".to_string()],
        select_corpus(lines, 5)
    );
}

#[test]
fn keep_words_by_character_count() {
    let words = vec!["кот".to_string(), "cat".to_string(), "tiger".to_string()];
    assert_eq!(vec!["кот".to_string(), "cat".to_string()], keep_words_of_length(&words, 3));
    assert!(keep_words_of_length(&vec![], 3).is_empty());
}

#[test]
fn corpus_text_splits_into_lines() {
    assert_eq!(
        vec!["aaa".to_string(), "bbb".to_string(), "ccc".to_string()],
        corpus_from_text("aaa\nbbb\r\nccc\n")
    );
}

#[test]
fn loader_submits_and_loads() {
    let start = CorpusLoaderState::create();
    assert!(matches!(start, CorpusLoaderState::UrlInput { has_error: false }));
    let step = start.update(CorpusLoaderEvent::CorpusUrlSubmitted { url: Some("http://x/c.txt".to_string()) });
    assert!(step.redraw);
    assert!(matches!(step.state, CorpusLoaderState::Loading));
    assert!(matches!(&step.action, CorpusLoaderAction::Fetch { url } if url == "http://x/c.txt"));
    let step = step.state.update(CorpusLoaderEvent::CorpusLoaded { words: vec!["aaa".to_string()] });
    assert!(step.redraw);
    assert!(matches!(&step.state, CorpusLoaderState::ShowCorpus { words } if words.len() == 1));
    assert!(matches!(step.action, CorpusLoaderAction::Nothing));
    let step = step.state.update(CorpusLoaderEvent::CorpusUrlSubmitted { url: None });
    assert!(!step.redraw);
    assert!(matches!(step.state, CorpusLoaderState::ShowCorpus { .. }));
}

#[test]
fn loader_errors_and_resets() {
    let step = CorpusLoaderState::create().update(CorpusLoaderEvent::CorpusUrlSubmitted { url: None });
    assert!(step.redraw);
    assert!(matches!(step.state, CorpusLoaderState::UrlInput { has_error: true }));
    let step = step.state.update(CorpusLoaderEvent::ResetError);
    assert!(step.redraw);
    assert!(matches!(step.state, CorpusLoaderState::UrlInput { has_error: false }));
    let step = step.state.update(CorpusLoaderEvent::ResetError);
    assert!(!step.redraw);
    let step = CorpusLoaderState::Loading.update(CorpusLoaderEvent::CorpusError);
    assert!(step.redraw);
    assert!(matches!(step.state, CorpusLoaderState::Error));
    let step = step.state.update(CorpusLoaderEvent::ResetError);
    assert!(step.redraw);
    assert!(matches!(step.state, CorpusLoaderState::UrlInput { has_error: false }));
    let step = CorpusLoaderState::Loading.update(CorpusLoaderEvent::ResetError);
    assert!(!step.redraw);
    assert!(matches!(step.state, CorpusLoaderState::Loading));
}

struct FirstLetter;

impl wordle_searcher::GuessScorer for FirstLetter {
    type Metric = char;

    fn score(&self, word: &str) -> char {
        word.chars().next().unwrap_or(' ')
    }
}

#[test]
fn ranking_with_a_scoring_strategy() {
    let mut game = WordleGame::new(five_words(), 6, 3);
    assert_eq!(Ok(()), game.exclude("bbb".to_string()));
    let ranked = game.iter_scored_guesses(FirstLetter).collect();
    assert_eq!(vec![("aaa", 'a'), ("ccc", 'c'), ("abc", 'a'), ("cba", 'c')], ranked);
}
