//! The per-letter feedback rule and its executable form.

use crate::text::chars_of;
use vstd::prelude::*;

verus! {

/// What one letter of a guess turned out to be.
#[derive(Clone, Copy, Debug, PartialEq, Eq, Structural)]
pub enum LetterState {
    /// The letter stands at the same position in the answer.
    Correct,
    /// The letter stands in the answer at another position, one that the
    /// guess did not itself get right.
    Present,
    /// Neither of the above.
    Absent,
}

/// Position `j` of the answer holds the letter guessed at `i`, is another
/// position than `i`, and was not itself guessed right.
pub open spec fn witnesses(guess: Seq<char>, answer: Seq<char>, i: int, j: int) -> bool {
    &&& 0 <= j < answer.len()
    &&& j != i
    &&& answer[j] == guess[i]
    &&& guess[j] != answer[j]
}

/// Some position of the answer witnesses the letter guessed at `i`.
pub open spec fn present_elsewhere(guess: Seq<char>, answer: Seq<char>, i: int) -> bool {
    exists|j: int| witnesses(guess, answer, i, j)
}

/// The state of position `i` of `guess` held against `answer`.
///
/// A letter that is guessed several times is marked `Present` at every
/// misplaced occurrence as long as one witness exists: occurrences in the
/// answer are not used up.
pub open spec fn letter_state(guess: Seq<char>, answer: Seq<char>, i: int) -> LetterState {
    if guess[i] == answer[i] {
        LetterState::Correct
    } else if present_elsewhere(guess, answer, i) {
        LetterState::Present
    } else {
        LetterState::Absent
    }
}

/// The states of all positions of `guess`, in order.
pub open spec fn feedback(guess: Seq<char>, answer: Seq<char>) -> Seq<LetterState> {
    Seq::new(guess.len(), |i: int| letter_state(guess, answer, i))
}

/// Evaluates the letter at position `i` of `guess` against `answer`.
pub fn evaluate_letter(guess: &[char], answer: &[char], i: usize) -> (state: LetterState)
    requires
        guess@.len() == answer@.len(),
        i < guess@.len(),
    ensures
        state == letter_state(guess@, answer@, i as int),
{
    let g: char = guess[i];
    let a: char = answer[i];
    if g == a {
        return LetterState::Correct;
    }
    let mut j: usize = 0;
    while j < answer.len()
        invariant
            guess@.len() == answer@.len(),
            i < guess@.len(),
            g == guess@[i as int],
            g != answer@[i as int],
            j <= answer@.len(),
            forall|k: int| 0 <= k < j ==> !witnesses(guess@, answer@, i as int, k),
        decreases answer@.len() - j,
    {
        let ac: char = answer[j];
        if j != i && ac == g && guess[j] != ac {
            assert(witnesses(guess@, answer@, i as int, j as int));
            return LetterState::Present;
        }
        j += 1;
    }
    LetterState::Absent
}

/// A guess together with the state of each of its letters.
pub struct GuessResult {
    /// The word that was guessed.
    pub guess: String,
    /// One state for each character of the guess, in order.
    pub states: Vec<LetterState>,
}

/// The mathematical content of a [`GuessResult`].
pub struct GuessResultView {
    pub guess: Seq<char>,
    pub states: Seq<LetterState>,
}

impl View for GuessResult {
    type V = GuessResultView;

    open spec fn view(&self) -> GuessResultView {
        GuessResultView { guess: self.guess@, states: self.states@ }
    }
}

/// The glyph that stands for `state` in console output.
pub open spec fn glyph(state: LetterState) -> char {
    match state {
        LetterState::Correct => '\u{1F7E9}',
        LetterState::Present => '\u{1F7E8}',
        LetterState::Absent => '\u{1F7E5}',
    }
}

impl LetterState {
    /// The coloured square that stands for this state in console output:
    /// green for `Correct`, yellow for `Present`, red for `Absent`.
    pub fn to_string(&self) -> (c: char)
        ensures
            c == glyph(*self),
    {
        match self {
            LetterState::Correct => '\u{1F7E9}',
            LetterState::Present => '\u{1F7E8}',
            LetterState::Absent => '\u{1F7E5}',
        }
    }
}

impl GuessResult {
    /// There is one state for each character of the guess.
    pub open spec fn wf(&self) -> bool {
        self.states@.len() == self.guess@.len()
    }

    /// Evaluates `guess` against `answer`, letter by letter.
    pub fn evaluate_guess(guess: &str, answer: &str) -> (result: GuessResult)
        requires
            guess@.len() == answer@.len(),
        ensures
            result.wf(),
            result@.guess == guess@,
            result@.states == feedback(guess@, answer@),
            result@.states.len() == guess@.len(),
            guess@ == answer@ ==> forall|i: int|
                0 <= i < guess@.len() ==> result@.states[i] == LetterState::Correct,
            forall|i: int|
                0 <= i < guess@.len() ==> (result@.states[i] == LetterState::Correct
                    <==> guess@[i] == answer@[i]),
            forall|i: int|
                0 <= i < guess@.len() && result@.states[i] == LetterState::Absent
                    ==> guess@[i] != answer@[i],
    {
        let guess_chars = chars_of(guess);
        let answer_chars = chars_of(answer);
        let mut states: Vec<LetterState> = Vec::new();
        let mut i: usize = 0;
        while i < guess_chars.len()
            invariant
                guess_chars@ == guess@,
                answer_chars@ == answer@,
                guess@.len() == answer@.len(),
                i <= guess@.len(),
                states@ == feedback(guess@, answer@).take(i as int),
            decreases guess@.len() - i,
        {
            let state = evaluate_letter(guess_chars.as_slice(), answer_chars.as_slice(), i);
            states.push(state);
            i += 1;
        }
        proof {
            lemma_feedback_len(guess@, answer@);
            lemma_self_match(guess@);
            lemma_correct_iff_equal(guess@, answer@);
            lemma_absent_implies_unequal(guess@, answer@);
        }
        GuessResult { guess: guess.to_owned(), states }
    }

    /// The glyphs of the states, in order, for console output.
    pub fn to_string(&self) -> (s: String)
        ensures
            s@ == self@.states.map_values(|state: LetterState| glyph(state)),
    {
        let mut s = String::new();
        let mut i: usize = 0;
        while i < self.states.len()
            invariant
                i <= self.states@.len(),
                s@ == self.states@.take(i as int).map_values(|state: LetterState| glyph(state)),
            decreases self.states@.len() - i,
        {
            s.push(self.states[i].to_string());
            i += 1;
        }
        s
    }
}

/// The feedback has one state for each character of the guess.
pub proof fn lemma_feedback_len(guess: Seq<char>, answer: Seq<char>)
    ensures
        feedback(guess, answer).len() == guess.len(),
{
}

/// A word held against itself is correct at every position.
pub proof fn lemma_self_match(word: Seq<char>)
    ensures
        forall|i: int| 0 <= i < word.len() ==> feedback(word, word)[i] == LetterState::Correct,
{
}

/// A position is marked correct exactly where guess and answer hold the same
/// character.
pub proof fn lemma_correct_iff_equal(guess: Seq<char>, answer: Seq<char>)
    requires
        guess.len() == answer.len(),
    ensures
        forall|i: int|
            0 <= i < guess.len() ==> (feedback(guess, answer)[i] == LetterState::Correct
                <==> guess[i] == answer[i]),
{
}

/// Where a position is marked absent, guess and answer hold different
/// characters.
pub proof fn lemma_absent_implies_unequal(guess: Seq<char>, answer: Seq<char>)
    requires
        guess.len() == answer.len(),
    ensures
        forall|i: int|
            0 <= i < guess.len() && feedback(guess, answer)[i] == LetterState::Absent
                ==> guess[i] != answer[i],
{
}

} // verus!
