//! Word lists of one fixed width, and how they are built from text.

use crate::text::lines;
use crate::text::split_lines;
use crate::text::texts;
use vstd::prelude::*;

verus! {

/// The words that may be guessed and the words that may be the answer.
pub struct Library {
    /// Every word that is accepted as a guess.
    pub guesses: Vec<String>,
    /// Every word that may be the secret answer.
    pub answers: Vec<String>,
    /// The number of characters of every word in both lists.
    pub word_length: usize,
}

/// The mathematical content of a [`Library`].
pub struct LibraryView {
    pub guesses: Seq<Seq<char>>,
    pub answers: Seq<Seq<char>>,
    pub word_length: nat,
}

impl View for Library {
    type V = LibraryView;

    open spec fn view(&self) -> LibraryView {
        LibraryView {
            guesses: texts(self.guesses@),
            answers: texts(self.answers@),
            word_length: self.word_length as nat,
        }
    }
}

/// Why two sources make no library.
#[derive(Clone, Copy, Debug, PartialEq, Eq, Structural)]
pub enum LoadError {
    /// A word of the guesses differs in length from their first word.
    UnevenGuesses,
    /// A word of the answers differs in length from their first word.
    UnevenAnswers,
    /// Each list is of one word length, but the two lengths differ.
    LengthMismatch {
        /// The word length of the guesses.
        guesses: usize,
        /// The word length of the answers.
        answers: usize,
    },
}

/// The word length of a list: the number of characters of its first word,
/// and 0 for a list without words.
pub open spec fn word_length_of(words: Seq<Seq<char>>) -> nat {
    if words.len() == 0 {
        0
    } else {
        words[0].len()
    }
}

/// Every word of the list has the list's word length.
pub open spec fn uniform(words: Seq<Seq<char>>) -> bool {
    forall|i: int| 0 <= i < words.len() ==> (#[trigger] words[i]).len() == word_length_of(words)
}

/// Two words of different length make a list uneven, whichever of them comes
/// first.
pub proof fn lemma_unequal_words_not_uniform(words: Seq<Seq<char>>, i: int, j: int)
    requires
        0 <= i < words.len(),
        0 <= j < words.len(),
        words[i].len() != words[j].len(),
    ensures
        !uniform(words),
{
}

/// Reads `source` as one word per line.
///
/// Returns the words with their common length, and `None` where some word
/// differs in length from the first.
pub fn load_words(source: &str) -> (loaded: Option<(Vec<String>, usize)>)
    ensures
        loaded is Some <==> uniform(lines(source@)),
        loaded matches Some((words, word_length)) ==> {
            &&& texts(words@) == lines(source@)
            &&& word_length == word_length_of(lines(source@))
        },
{
    let words = split_lines(source);
    let word_length: usize = if words.len() == 0 {
        0
    } else {
        words[0].as_str().unicode_len()
    };
    let mut i: usize = 0;
    while i < words.len()
        invariant
            i <= words@.len(),
            texts(words@) == lines(source@),
            word_length == word_length_of(lines(source@)),
            forall|k: int| 0 <= k < i ==> (#[trigger] lines(source@)[k]).len() == word_length,
        decreases words@.len() - i,
    {
        assert(lines(source@)[i as int] == words@[i as int]@);
        if words[i].as_str().unicode_len() != word_length {
            return None;
        }
        i += 1;
    }
    Some((words, word_length))
}

impl Library {
    /// Every word of both lists has `word_length` characters.
    pub open spec fn wf(&self) -> bool {
        &&& forall|i: int|
            0 <= i < self@.guesses.len() ==> (#[trigger] self@.guesses[i]).len()
                == self.word_length
        &&& forall|i: int|
            0 <= i < self@.answers.len() ==> (#[trigger] self@.answers[i]).len()
                == self.word_length
    }

    /// Builds a library from the text of a guesses file and of an answers
    /// file, each holding one word per line.
    ///
    /// The guesses are judged first, then the answers, then the two word
    /// lengths against each other; the first fault found is the error.
    pub fn load_from_file(guesses_source: &str, answers_source: &str) -> (result: Result<
        Library,
        LoadError,
    >)
        ensures
            result is Ok <==> {
                &&& uniform(lines(guesses_source@))
                &&& uniform(lines(answers_source@))
                &&& word_length_of(lines(guesses_source@)) == word_length_of(
                    lines(answers_source@),
                )
            },
            match result {
                Ok(library) => {
                    &&& library.wf()
                    &&& library@.guesses == lines(guesses_source@)
                    &&& library@.answers == lines(answers_source@)
                    &&& library@.word_length == word_length_of(lines(guesses_source@))
                },
                Err(LoadError::UnevenGuesses) => !uniform(lines(guesses_source@)),
                Err(LoadError::UnevenAnswers) => {
                    &&& uniform(lines(guesses_source@))
                    &&& !uniform(lines(answers_source@))
                },
                Err(LoadError::LengthMismatch { guesses, answers }) => {
                    &&& uniform(lines(guesses_source@))
                    &&& uniform(lines(answers_source@))
                    &&& guesses == word_length_of(lines(guesses_source@))
                    &&& answers == word_length_of(lines(answers_source@))
                    &&& guesses != answers
                },
            },
            !uniform(lines(guesses_source@)) || !uniform(lines(answers_source@)) ==> result is Err,
            word_length_of(lines(guesses_source@)) != word_length_of(lines(answers_source@))
                ==> result is Err,
    {
        let (guesses, guesses_word_length) = match load_words(guesses_source) {
            Some(loaded) => loaded,
            None => {
                return Err(LoadError::UnevenGuesses);
            },
        };
        let (answers, answers_word_length) = match load_words(answers_source) {
            Some(loaded) => loaded,
            None => {
                return Err(LoadError::UnevenAnswers);
            },
        };
        if guesses_word_length != answers_word_length {
            return Err(
                LoadError::LengthMismatch {
                    guesses: guesses_word_length,
                    answers: answers_word_length,
                },
            );
        }
        Ok(Library { guesses, answers, word_length: guesses_word_length })
    }
}

} // verus!
