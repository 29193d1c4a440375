//! The quiz: questions with one right answer each, taken in order.

use vstd::prelude::*;
use vstd::string::StringExecFns;

verus! {

/// A run through a list of questions.
pub struct QuizManager {
    pub current_question_index: usize,
    pub score: u32,
    pub questions: Vec<QuizQuestion>,
}

/// One question: a prompt, the answers to pick from, which of them is right,
/// and what to say to a right and to a wrong pick.
pub struct QuizQuestion {
    pub prompt: String,
    pub options: Vec<String>,
    pub correct_index: usize,
    pub feedback_correct: String,
    pub feedback_incorrect: String,
}

/// The player's pick: the position of an answer, counted from zero.
pub struct SubmitAnswerEvent(pub usize);

/// What came of a pick.
pub enum QuizOutcome {
    /// The quiz was over already; nothing changed.
    Finished,
    /// The pick was right: a point, and on to the next question.
    Correct { feedback: String },
    /// The pick was wrong: the question stays.
    Incorrect { feedback: String },
}

impl Default for QuizManager {
    /// The quiz on where student data stays: one question, three answers,
    /// the second of them right.
    fn default() -> (quiz: Self)
        ensures
            quiz.current_question_index == 0,
            quiz.score == 0,
            quiz.questions@.len() == 1,
            quiz.questions@[0].correct_index == 1,
            quiz.questions@[0].options@.len() == 3,
            quiz.questions@[0].prompt@
                == "> TEACHER: Which AI architecture guarantees that student data never leaves the local classroom hardware?"@,
            quiz.questions@[0].options@[0]@ == "1. Cloud-based OpenAI APIs"@,
            quiz.questions@[0].options@[1]@
                == "2. Local-First Open Weights (e.g., Llama 3 via LM Studio)"@,
            quiz.questions@[0].options@[2]@ == "3. A shared Google Drive"@,
            quiz.questions@[0].feedback_correct@
                == "> SYSTEM: Correct. Local-First models process all data on the machine, bypassing FERPA risks."@,
            quiz.questions@[0].feedback_incorrect@
                == "> SYSTEM: Incorrect. Cloud APIs send data to external servers. We need a Local-First approach."@,
    {
        let mut options: Vec<String> = Vec::new();
        options.push(String::from_str("1. Cloud-based OpenAI APIs"));
        options.push(String::from_str("2. Local-First Open Weights (e.g., Llama 3 via LM Studio)"));
        options.push(String::from_str("3. A shared Google Drive"));
        let mut questions: Vec<QuizQuestion> = Vec::new();
        questions.push(
            QuizQuestion {
                prompt: String::from_str(
                    "> TEACHER: Which AI architecture guarantees that student data never leaves the local classroom hardware?",
                ),
                options,
                correct_index: 1,
                feedback_correct: String::from_str(
                    "> SYSTEM: Correct. Local-First models process all data on the machine, bypassing FERPA risks.",
                ),
                feedback_incorrect: String::from_str(
                    "> SYSTEM: Incorrect. Cloud APIs send data to external servers. We need a Local-First approach.",
                ),
            },
        );
        QuizManager { current_question_index: 0, score: 0, questions }
    }
}

/// The pick that the number keys make: key one picks the first answer, key
/// two the second, key three the third. Of several keys pressed at once the
/// lowest counts.
pub fn handle_quiz_input(one: bool, two: bool, three: bool) -> (event: Option<SubmitAnswerEvent>)
    ensures
        match event {
            Some(pick) => pick.0 == (if one {
                0usize
            } else if two {
                1usize
            } else {
                2usize
            }) && (one || two || three),
            None => !one && !two && !three,
        },
{
    if one {
        Some(SubmitAnswerEvent(0))
    } else if two {
        Some(SubmitAnswerEvent(1))
    } else if three {
        Some(SubmitAnswerEvent(2))
    } else {
        None
    }
}

impl QuizManager {
    /// Whether every question has been answered rightly.
    pub open spec fn is_over(&self) -> bool {
        self.current_question_index >= self.questions@.len()
    }

    /// The question that is open, while the quiz is not over.
    pub open spec fn open_question(&self) -> QuizQuestion {
        self.questions@[self.current_question_index as int]
    }

    /// Takes the player's pick for the open question. A right pick scores a
    /// point and opens the next question; a wrong pick changes nothing; so
    /// does any pick once the quiz is over. The outcome carries what to tell
    /// the player.
    pub fn evaluate_quiz_answer(&mut self, event: &SubmitAnswerEvent) -> (outcome: QuizOutcome)
        requires
            old(self).score < u32::MAX,
        ensures
            final(self).questions == old(self).questions,
            match outcome {
                QuizOutcome::Finished => old(self).is_over() && *final(self) == *old(self),
                QuizOutcome::Correct { feedback } => {
                    &&& !old(self).is_over()
                    &&& event.0 == old(self).open_question().correct_index
                    &&& feedback@ == old(self).open_question().feedback_correct@
                    &&& final(self).score == old(self).score + 1
                    &&& final(self).current_question_index == old(self).current_question_index + 1
                },
                QuizOutcome::Incorrect { feedback } => {
                    &&& !old(self).is_over()
                    &&& event.0 != old(self).open_question().correct_index
                    &&& feedback@ == old(self).open_question().feedback_incorrect@
                    &&& *final(self) == *old(self)
                },
            },
    {
        if self.current_question_index >= self.questions.len() {
            return QuizOutcome::Finished;
        }
        let question = &self.questions[self.current_question_index];
        if event.0 == question.correct_index {
            let feedback = question.feedback_correct.clone();
            self.score = self.score + 1;
            self.current_question_index = self.current_question_index + 1;
            QuizOutcome::Correct { feedback }
        } else {
            QuizOutcome::Incorrect { feedback: question.feedback_incorrect.clone() }
        }
    }
}

} // verus!
