use wordle::library::load_words;
use wordle::text::chars_of;
use wordle::text::split_lines;
use wordle::text::string_of;
use wordle::Library;
use wordle::LoadError;

fn std_lines(source: &str) -> Vec<String> {
    source.lines().map(|line| line.to_string()).collect()
}

#[test]
fn characters_in_order() {
    assert_eq!(chars_of(""), Vec::<char>::new());
    assert_eq!(chars_of("abc"), vec!['a', 'b', 'c']);
    assert_eq!(chars_of("h\u{E9}\u{1F7E9}\n"), vec!['h', '\u{E9}', '\u{1F7E9}', '\n']);
}

#[test]
fn part_of_the_characters_as_a_string() {
    let chars = chars_of("crane\nslate");
    assert_eq!(string_of(&chars, 0, 5), "crane");
    assert_eq!(string_of(&chars, 6, 11), "slate");
    assert_eq!(string_of(&chars, 3, 3), "");
    assert_eq!(string_of(&chars, 0, 11), "crane\nslate");
}

#[test]
fn lines_end_at_line_feeds() {
    assert_eq!(split_lines("crane\nslate\nabbey"), vec!["crane", "slate", "abbey"]);
    assert_eq!(split_lines("crane\nslate\nabbey\n"), vec!["crane", "slate", "abbey"]);
    assert_eq!(split_lines(""), Vec::<String>::new());
    assert_eq!(split_lines("\n"), vec![""]);
    assert_eq!(split_lines("a\n\nb"), vec!["a", "", "b"]);
}

#[test]
fn carriage_return_before_a_line_feed_is_dropped() {
    assert_eq!(split_lines("crane\r\nslate\r\n"), vec!["crane", "slate"]);
    assert_eq!(split_lines("a\r\r\nb"), vec!["a\r", "b"]);
    assert_eq!(split_lines("\r\n"), vec![""]);
    assert_eq!(split_lines("a\rb\nc"), vec!["a\rb", "c"]);
}

#[test]
fn carriage_return_at_the_very_end_is_kept() {
    assert_eq!(split_lines("foo\r\nbar\n\nbaz\r"), vec!["foo", "bar", "", "baz\r"]);
    assert_eq!(split_lines("\r"), vec!["\r"]);
}

#[test]
fn lines_agree_with_the_standard_library() {
    let sources = [
        "",
        "a",
        "a\n",
        "\n",
        "\n\n",
        "\r",
        "\r\n",
        "\n\r",
        "\r\r\n",
        "a\nb",
        "a\r\nb\r\n",
        "a\r\nb\r",
        "a\n\n\nb\n",
        "crane\nslate\nabbey\n",
        "h\u{E9}llo\nw\u{F6}rld\r\n\u{1F7E9}\n",
        "no newline at all",
        "\r\n\r\n\r",
    ];
    for source in sources {
        assert_eq!(split_lines(source), std_lines(source), "source {:?}", source);
    }
}

#[test]
fn words_of_one_length() {
    let loaded = load_words("crane\nslate\nabbey\n");
    let (words, word_length) = loaded.unwrap();
    assert_eq!(words, vec!["crane", "slate", "abbey"]);
    assert_eq!(word_length, 5);
}

#[test]
fn no_words_have_length_zero() {
    let (words, word_length) = load_words("").unwrap();
    assert!(words.is_empty());
    assert_eq!(word_length, 0);
}

#[test]
fn a_shorter_line_is_rejected() {
    assert!(load_words("crane\nslat\nabbey\n").is_none());
    assert!(load_words("crane\nslate\n\nabbey\n").is_none());
}

#[test]
fn a_longer_line_is_rejected() {
    assert!(load_words("crane\nslates\nabbey\n").is_none());
    assert!(load_words("a\nbc").is_none());
}

#[test]
fn word_length_is_the_first_words() {
    // Every later word is measured against the first.
    assert!(load_words("ab\nabc\nabc").is_none());
    assert_eq!(load_words("ab\ncd").unwrap().1, 2);
    assert_eq!(load_words("\n\n").unwrap(), (vec![String::new(), String::new()], 0));
}

#[test]
fn words_are_measured_in_characters() {
    let (words, word_length) = load_words("h\u{E9}llo\nworld\n").unwrap();
    assert_eq!(words, vec!["h\u{E9}llo", "world"]);
    assert_eq!(word_length, 5);
    // Same number of bytes, but not of characters.
    assert!(load_words("\u{E9}\nab\n").is_none());
}

#[test]
fn library_of_two_lists() {
    let library = Library::load_from_file("crane\nslate\nabbey\n", "slate\nabbey\n").unwrap();
    assert_eq!(library.guesses, vec!["crane", "slate", "abbey"]);
    assert_eq!(library.answers, vec!["slate", "abbey"]);
    assert_eq!(library.word_length, 5);
    assert!(library.guesses.iter().all(|word| word.chars().count() == library.word_length));
    assert!(library.answers.iter().all(|word| word.chars().count() == library.word_length));
}

#[test]
fn library_without_words() {
    let library = Library::load_from_file("", "").unwrap();
    assert!(library.guesses.is_empty());
    assert!(library.answers.is_empty());
    assert_eq!(library.word_length, 0);
}

#[test]
fn uneven_guesses_are_rejected() {
    let result = Library::load_from_file("crane\nslat\n", "slate\n");
    assert_eq!(result.err(), Some(LoadError::UnevenGuesses));
    let result = Library::load_from_file("crane\nslates\n", "slate\n");
    assert_eq!(result.err(), Some(LoadError::UnevenGuesses));
}

#[test]
fn uneven_answers_are_rejected() {
    let result = Library::load_from_file("crane\nslate\n", "slate\nabbe\n");
    assert_eq!(result.err(), Some(LoadError::UnevenAnswers));
    let result = Library::load_from_file("crane\nslate\n", "slate\nabbeys\n");
    assert_eq!(result.err(), Some(LoadError::UnevenAnswers));
}

#[test]
fn the_guesses_are_judged_first() {
    let result = Library::load_from_file("crane\nslat\n", "slate\nabbe\n");
    assert_eq!(result.err(), Some(LoadError::UnevenGuesses));
    // Uneven answers come before a difference between the two widths.
    let result = Library::load_from_file("crane\n", "four\nabbey\n");
    assert_eq!(result.err(), Some(LoadError::UnevenAnswers));
}

#[test]
fn lists_of_different_width_are_rejected() {
    let result = Library::load_from_file("crane\nslate\n", "soap\nrare\n");
    assert_eq!(result.err(), Some(LoadError::LengthMismatch { guesses: 5, answers: 4 }));
    let result = Library::load_from_file("soap\n", "crane\n");
    assert_eq!(result.err(), Some(LoadError::LengthMismatch { guesses: 4, answers: 5 }));
}

#[test]
fn an_empty_list_has_width_zero() {
    let result = Library::load_from_file("", "crane\n");
    assert_eq!(result.err(), Some(LoadError::LengthMismatch { guesses: 0, answers: 5 }));
    let result = Library::load_from_file("crane\n", "");
    assert_eq!(result.err(), Some(LoadError::LengthMismatch { guesses: 5, answers: 0 }));
}

#[test]
fn an_answer_from_the_library_can_be_guessed() {
    let library = Library::load_from_file("crane\r\ncargo\r\n", "cargo\n").unwrap();
    let answer = &library.answers[0];
    let guess = &library.guesses[0];
    assert_eq!(guess.chars().count(), library.word_length);
    let result = wordle::GuessResult::evaluate_guess(guess, answer);
    assert_eq!(result.states.len(), library.word_length);
}
