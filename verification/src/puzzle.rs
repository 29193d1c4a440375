//! The terminal puzzle: the player builds a command from scrambled words by
//! picking them in the right order.

use crate::scoring::XpGainEvent;
use crate::syllabus::PhaseModel;
use crate::syllabus::QuestPhase;
use crate::text::append;
use crate::text::append_str;
use crate::text::contains;
use crate::text::contents;
use crate::text::from_chars;
use crate::text::includes;
use crate::text::join;
use crate::text::joined;
use crate::text::same_str;
use crate::text::to_chars;
use vstd::prelude::*;
use vstd::string::StringExecFns;

verus! {

/// The puzzle on the terminal.
pub struct PuzzleState {
    pub is_active: bool,
    /// The words to pick from, in the order in which they are shown.
    pub tokens: Vec<&'static str>,
    /// The command to build.
    pub correct_order: Vec<&'static str>,
    /// The positions of the words picked so far, in the order of picking.
    pub player_sequence: Vec<usize>,
    pub solved: bool,
}

/// What a key press did to the puzzle.
#[derive(Debug, Clone, Copy, PartialEq, Eq, Structural)]
pub enum PuzzleOutcome {
    /// Nothing: the puzzle is not running, no word was picked, or the word
    /// picked is not there or was picked before.
    Ignored,
    /// The player left the puzzle.
    Cancelled,
    /// A word was added to the command.
    Picked,
    /// The last word was added and the command is right.
    Solved,
    /// The last word was added and the command is wrong; the picks are gone.
    Wrong,
}

/// The experience that solving the puzzle is worth.
pub const PUZZLE_XP: u32 = 100;

/// The texts of a list of words.
pub open spec fn word_texts(words: Seq<&'static str>) -> Seq<Seq<char>> {
    words.map_values(|w: &'static str| w@)
}

/// The words at the positions `picks`, in that order.
pub open spec fn picked_words(tokens: Seq<Seq<char>>, picks: Seq<usize>) -> Seq<Seq<char>> {
    picks.map_values(|i: usize| tokens[i as int])
}

/// The word that the number keys pick: key one the first, key two the
/// second, key three the third. Of several keys pressed at once the highest
/// counts.
pub open spec fn key_pick(one: bool, two: bool, three: bool) -> Option<usize> {
    if three {
        Some(2usize)
    } else if two {
        Some(1usize)
    } else if one {
        Some(0usize)
    } else {
        None
    }
}

/// The word that the number keys pick.
pub fn pick_for_keys(one: bool, two: bool, three: bool) -> (pick: Option<usize>)
    ensures
        pick == key_pick(one, two, three),
{
    let mut selected: Option<usize> = None;
    if one {
        selected = Some(0);
    }
    if two {
        selected = Some(1);
    }
    if three {
        selected = Some(2);
    }
    selected
}

/// Whether a phase is a task at the terminal: a task whose description
/// names the `Terminal`.
pub open spec fn names_terminal(phase: PhaseModel) -> bool {
    phase matches PhaseModel::Task { description, .. } && contains(description, "Terminal"@)
}

/// Whether a phase is a task at the terminal.
pub fn is_terminal_task(phase: &QuestPhase) -> (b: bool)
    ensures
        b == names_terminal(phase@),
{
    match phase {
        QuestPhase::Task { description, .. } => {
            let d = to_chars(description.as_str());
            includes(d.as_slice(), "Terminal")
        },
        _ => false,
    }
}

impl Default for PuzzleState {
    /// The puzzle at rest: the words `llama3`, `run`, `ollama`, to be put
    /// into the order `ollama run llama3`.
    fn default() -> (puzzle: Self)
        ensures
            puzzle.wf(),
            !puzzle.is_active,
            !puzzle.solved,
            puzzle.player_sequence@.len() == 0,
            word_texts(puzzle.tokens@) == seq!["llama3"@, "run"@, "ollama"@],
            word_texts(puzzle.correct_order@) == seq!["ollama"@, "run"@, "llama3"@],
    {
        let mut tokens: Vec<&'static str> = Vec::new();
        tokens.push("llama3");
        tokens.push("run");
        tokens.push("ollama");
        let mut correct_order: Vec<&'static str> = Vec::new();
        correct_order.push("ollama");
        correct_order.push("run");
        correct_order.push("llama3");
        assert(word_texts(tokens@) =~= seq!["llama3"@, "run"@, "ollama"@]);
        assert(word_texts(correct_order@) =~= seq!["ollama"@, "run"@, "llama3"@]);
        PuzzleState {
            is_active: false,
            tokens,
            correct_order,
            player_sequence: Vec::new(),
            solved: false,
        }
    }
}

impl PuzzleState {
    /// Every pick is the position of a word, and no word is picked twice.
    pub open spec fn wf(&self) -> bool {
        &&& forall|k: int|
            0 <= k < self.player_sequence@.len() ==> (#[trigger] self.player_sequence@[k])
                < self.tokens@.len()
        &&& forall|j: int, k: int|
            0 <= j < k < self.player_sequence@.len() ==> self.player_sequence@[j]
                != self.player_sequence@[k]
    }

    /// The command built so far: the picked words in the order of picking.
    pub open spec fn command(&self) -> Seq<Seq<char>> {
        picked_words(word_texts(self.tokens@), self.player_sequence@)
    }

    /// Whether the word at position `index` has been picked.
    pub open spec fn has_picked(&self, index: usize) -> bool {
        self.player_sequence@.contains(index)
    }

    /// Whether the word at position `index` has been picked.
    pub fn is_used(&self, index: usize) -> (used: bool)
        ensures
            used == self.has_picked(index),
    {
        let mut k: usize = 0;
        while k < self.player_sequence.len()
            invariant
                k <= self.player_sequence.len(),
                forall|j: int| 0 <= j < k ==> self.player_sequence@[j] != index,
            decreases self.player_sequence.len() - k,
        {
            if self.player_sequence[k] == index {
                return true;
            }
            k += 1;
        }
        false
    }

    /// Starts the puzzle for a player who presses the key at the terminal
    /// during a task that names it. A puzzle that runs or is solved stays as
    /// it is. Tells whether the puzzle was started.
    pub fn activate_puzzle(&mut self, phase: &QuestPhase, near_terminal: bool) -> (started: bool)
        ensures
            started == (!old(self).is_active && !old(self).solved && names_terminal(phase@)
                && near_terminal),
            started ==> final(self).is_active && final(self).player_sequence@.len() == 0,
            !started ==> final(self).is_active == old(self).is_active
                && final(self).player_sequence == old(self).player_sequence,
            final(self).solved == old(self).solved,
            final(self).tokens == old(self).tokens,
            final(self).correct_order == old(self).correct_order,
            old(self).wf() ==> final(self).wf(),
    {
        if self.is_active || self.solved {
            return false;
        }
        if !is_terminal_task(phase) {
            return false;
        }
        if !near_terminal {
            return false;
        }
        self.is_active = true;
        self.player_sequence.clear();
        true
    }

    fn command_is_correct(&self) -> (ok: bool)
        requires
            self.wf(),
        ensures
            ok == (self.command() == word_texts(self.correct_order@)),
    {
        let n = self.player_sequence.len();
        if n != self.correct_order.len() {
            return false;
        }
        let mut k: usize = 0;
        while k < n
            invariant
                self.wf(),
                n == self.player_sequence.len(),
                n == self.correct_order.len(),
                k <= n,
                forall|j: int| 0 <= j < k ==> self.command()[j] == self.correct_order@[j]@,
            decreases n - k,
        {
            let i = self.player_sequence[k];
            if !same_str(self.tokens[i], self.correct_order[k]) {
                assert(self.command()[k as int] != word_texts(self.correct_order@)[k as int]);
                return false;
            }
            k += 1;
        }
        assert(self.command() =~= word_texts(self.correct_order@));
        true
    }

    /// Takes one key press: `selected` is the word picked, if any, and
    /// `escape` tells whether the player asked to leave.
    ///
    /// A puzzle that is not running, or is solved, ignores the keys. Leaving
    /// comes first and stops the puzzle. A pick counts if the word is there
    /// and was not picked before; it is added to the command. Once the
    /// command has as many words as the one to build, it is judged: right,
    /// and the puzzle is solved; wrong, and the picks are gone.
    pub fn handle_puzzle_input(&mut self, selected: Option<usize>, escape: bool) -> (outcome:
        PuzzleOutcome)
        requires
            old(self).wf(),
        ensures
            final(self).wf(),
            final(self).tokens == old(self).tokens,
            final(self).correct_order == old(self).correct_order,
            outcome == old(self).outcome_of(selected, escape),
            match outcome {
                PuzzleOutcome::Ignored => *final(self) == *old(self),
                PuzzleOutcome::Cancelled => {
                    &&& !final(self).is_active
                    &&& final(self).solved == old(self).solved
                    &&& final(self).player_sequence == old(self).player_sequence
                },
                PuzzleOutcome::Picked => {
                    &&& final(self).is_active
                    &&& !final(self).solved
                    &&& final(self).player_sequence@ == old(self).player_sequence@.push(
                        selected.unwrap(),
                    )
                },
                PuzzleOutcome::Solved => {
                    &&& final(self).is_active
                    &&& final(self).solved
                    &&& final(self).player_sequence@ == old(self).player_sequence@.push(
                        selected.unwrap(),
                    )
                },
                PuzzleOutcome::Wrong => {
                    &&& final(self).is_active
                    &&& !final(self).solved
                    &&& final(self).player_sequence@.len() == 0
                },
            },
    {
        if !self.is_active || self.solved {
            return PuzzleOutcome::Ignored;
        }
        if escape {
            self.is_active = false;
            return PuzzleOutcome::Cancelled;
        }
        match selected {
            Some(idx) => {
                if idx < self.tokens.len() && !self.is_used(idx) {
                    self.player_sequence.push(idx);
                    assert(self.wf()) by {
                        assert forall|j: int, k: int|
                            0 <= j < k < self.player_sequence@.len() implies self.player_sequence@[j]
                            != self.player_sequence@[k] by {
                            if k == self.player_sequence@.len() - 1 {
                                assert(old(self).player_sequence@[j] != idx);
                            }
                        }
                    }
                    if self.player_sequence.len() == self.correct_order.len() {
                        if self.command_is_correct() {
                            self.solved = true;
                            PuzzleOutcome::Solved
                        } else {
                            self.player_sequence.clear();
                            PuzzleOutcome::Wrong
                        }
                    } else {
                        PuzzleOutcome::Picked
                    }
                } else {
                    PuzzleOutcome::Ignored
                }
            },
            None => PuzzleOutcome::Ignored,
        }
    }

    /// What a key press comes to, told from the puzzle as it stands.
    pub open spec fn outcome_of(&self, selected: Option<usize>, escape: bool) -> PuzzleOutcome {
        if !self.is_active || self.solved {
            PuzzleOutcome::Ignored
        } else if escape {
            PuzzleOutcome::Cancelled
        } else if selected is None || selected.unwrap() >= self.tokens@.len() || self.has_picked(
            selected.unwrap(),
        ) {
            PuzzleOutcome::Ignored
        } else if self.player_sequence@.len() + 1 != self.correct_order@.len() {
            PuzzleOutcome::Picked
        } else if picked_words(
            word_texts(self.tokens@),
            self.player_sequence@.push(selected.unwrap()),
        ) == word_texts(self.correct_order@) {
            PuzzleOutcome::Solved
        } else {
            PuzzleOutcome::Wrong
        }
    }

    /// The command line as it is shown: the words picked so far behind the
    /// prompt, closed by a tick once the puzzle is solved and by a cursor
    /// until then.
    pub open spec fn display(&self) -> Seq<char> {
        if self.solved {
            "> $ "@ + joined(self.command(), " "@) + " \u{2713}"@
        } else if self.player_sequence@.len() == 0 {
            "> $ _"@
        } else {
            "> $ "@ + joined(self.command(), " "@) + " _"@
        }
    }

    /// The command line as it is shown.
    pub fn display_line(&self) -> (line: String)
        requires
            self.wf(),
        ensures
            line@ == self.display(),
    {
        let mut parts: Vec<Vec<char>> = Vec::new();
        let mut k: usize = 0;
        while k < self.player_sequence.len()
            invariant
                self.wf(),
                k <= self.player_sequence.len(),
                contents(parts@) == self.command().take(k as int),
            decreases self.player_sequence.len() - k,
        {
            let ghost before = contents(parts@);
            let word = to_chars(self.tokens[self.player_sequence[k]]);
            parts.push(word);
            assert(contents(parts@) =~= before.push(word@));
            assert(self.command().take(k + 1) =~= self.command().take(k as int).push(word@));
            k += 1;
        }
        assert(self.command().take(self.player_sequence.len() as int) =~= self.command());
        if self.solved {
            let mut out: Vec<char> = Vec::new();
            append_str(&mut out, "> $ ");
            let cmd = join(&parts, " ");
            append(&mut out, cmd.as_slice());
            append_str(&mut out, " \u{2713}");
            from_chars(out.as_slice())
        } else if parts.len() == 0 {
            String::from_str("> $ _")
        } else {
            let mut out: Vec<char> = Vec::new();
            append_str(&mut out, "> $ ");
            let cmd = join(&parts, " ");
            append(&mut out, cmd.as_slice());
            append_str(&mut out, " _");
            from_chars(out.as_slice())
        }
    }

    /// The line under the command: a warning while the last wrong command
    /// still `flashes`, the reward once the puzzle is solved, nothing
    /// otherwise.
    pub fn status_line(&self, flashes: bool) -> (line: &'static str)
        ensures
            line@ == if flashes {
                "\u{26a0} Wrong order! Try again..."@
            } else if self.solved {
                "\u{2705} COMPILED! +100 XP"@
            } else {
                ""@
            },
    {
        if flashes {
            "\u{26a0} Wrong order! Try again..."
        } else if self.solved {
            "\u{2705} COMPILED! +100 XP"
        } else {
            ""
        }
    }
}

/// The experience for solving the puzzle.
pub fn solved_reward() -> (event: XpGainEvent)
    ensures
        event.amount == PUZZLE_XP,
        event.reason@ == "Terminal Puzzle Solved"@,
{
    XpGainEvent { amount: PUZZLE_XP, reason: String::from_str("Terminal Puzzle Solved") }
}

} // verus!
