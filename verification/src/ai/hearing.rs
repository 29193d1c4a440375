//! Speech recognition, step by step: whether the filter bank has the right
//! size, with which tokens a transcript starts, and when it is over. The
//! model itself and its tokenizer live with the caller.

use crate::text::append_decimal;
use crate::text::append_str;
use crate::text::decimal;
use crate::text::from_chars;
use vstd::prelude::*;
use vstd::string::StringExecFns;

verus! {

/// The number of bands of the filter bank.
pub const MEL_BANDS: usize = 80;

/// The number of frequency bins of each band.
pub const MEL_BINS: usize = 201;

/// The bytes that one number of the filter bank takes on disk.
pub const BYTES_PER_FILTER: usize = 4;

/// The most tokens of a transcript.
pub const MAX_TRANSCRIPT_TOKENS: usize = 100;

/// The token that ends a transcript where the tokenizer does not know the
/// end mark.
pub const DEFAULT_END_OF_TEXT: u32 = 50257;

/// The mark whose token starts a transcript.
pub const START_MARK: &'static str = "<|startoftranscript|>";

/// The mark whose token names the language spoken.
pub const LANGUAGE_MARK: &'static str = "<|en|>";

/// The mark whose token asks for a transcript rather than a translation.
pub const TASK_MARK: &'static str = "<|transcribe|>";

/// The mark whose token asks for text without time stamps.
pub const NO_TIMESTAMPS_MARK: &'static str = "<|notimestamps|>";

/// The mark whose token ends a transcript.
pub const END_OF_TEXT_MARK: &'static str = "<|endoftext|>";

/// A transcript in progress.
pub struct Transcript {
    pub tokens: Vec<u32>,
    pub text: String,
    pub steps: usize,
    pub ended: bool,
}

/// The complaint about a filter bank of `got` numbers.
pub open spec fn size_complaint(got: nat) -> Seq<char> {
    "Mel filters file size incorrect. Expected "@ + decimal((MEL_BANDS * MEL_BINS) as nat)
        + ", got "@ + decimal(got)
}

/// The number of whole numbers that `bytes` bytes of a filter bank hold;
/// bytes that do not make up a whole number are passed over.
pub fn filter_count(bytes: usize) -> (count: usize)
    ensures
        count == bytes / BYTES_PER_FILTER,
{
    bytes / BYTES_PER_FILTER
}

/// Checks the size of a filter bank of `count` numbers: it has to hold
/// [`MEL_BINS`] numbers for each of [`MEL_BANDS`] bands.
pub fn check_filter_bank(count: usize) -> (checked: Result<(), String>)
    ensures
        match checked {
            Ok(_) => count == MEL_BANDS * MEL_BINS,
            Err(complaint) => count != MEL_BANDS * MEL_BINS && complaint@ == size_complaint(
                count as nat,
            ),
        },
{
    if count == MEL_BANDS * MEL_BINS {
        return Ok(());
    }
    let mut out: Vec<char> = Vec::new();
    append_str(&mut out, "Mel filters file size incorrect. Expected ");
    append_decimal(&mut out, (MEL_BANDS * MEL_BINS) as u64);
    append_str(&mut out, ", got ");
    append_decimal(&mut out, count as u64);
    Err(from_chars(out.as_slice()))
}

impl Transcript {
    /// Whether the transcript goes on: the end token was not picked, and
    /// fewer than [`MAX_TRANSCRIPT_TOKENS`] tokens were.
    pub open spec fn goes_on(&self) -> bool {
        !self.ended && self.steps < MAX_TRANSCRIPT_TOKENS
    }

    /// A transcript at its start: the token that starts a transcript, the
    /// token of the language and the token of the task.
    pub fn new(start: u32, language: u32, task: u32) -> (transcript: Self)
        ensures
            transcript.tokens@ == seq![start, language, task],
            transcript.text@.len() == 0,
            transcript.steps == 0,
            !transcript.ended,
    {
        let mut tokens: Vec<u32> = Vec::new();
        tokens.push(start);
        tokens.push(language);
        tokens.push(task);
        assert(tokens@ =~= seq![start, language, task]);
        Transcript { tokens, text: String::new(), steps: 0, ended: false }
    }

    /// Whether the model is to be asked for another token.
    pub fn wants_more(&self) -> (more: bool)
        ensures
            more == self.goes_on(),
    {
        !self.ended && self.steps < MAX_TRANSCRIPT_TOKENS
    }

    /// Takes the token that the model picked, with its text. The token
    /// joins the tokens and its text the transcript; the end token, as the
    /// tokenizer knows it, ends the transcript. A transcript that is over
    /// takes nothing.
    pub fn listen(&mut self, next_token: u32, decoded: &str, known_end: Option<u32>)
        ensures
            !old(self).goes_on() ==> *final(self) == *old(self),
            old(self).goes_on() ==> {
                &&& final(self).tokens@ == old(self).tokens@.push(next_token)
                &&& final(self).text@ == old(self).text@ + decoded@
                &&& final(self).steps == old(self).steps + 1
                &&& final(self).ended == (next_token == match known_end {
                    Some(t) => t,
                    None => DEFAULT_END_OF_TEXT,
                })
            },
    {
        if self.ended || self.steps >= MAX_TRANSCRIPT_TOKENS {
            return ;
        }
        self.tokens.push(next_token);
        self.text.append(decoded);
        self.steps = self.steps + 1;
        let end = match known_end {
            Some(t) => t,
            None => DEFAULT_END_OF_TEXT,
        };
        if next_token == end {
            self.ended = true;
        }
    }
}

} // verus!
