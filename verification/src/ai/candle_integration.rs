//! Text generation, step by step: which tokens the model sees at each step,
//! what becomes of the token it picks, and when the generation is over. The
//! model itself, its tokenizer and its sampler live with the caller.

use vstd::prelude::*;
use vstd::string::StringExecFns;

verus! {

/// The most tokens that the model sees at once.
pub const CONTEXT_LIMIT: usize = 4096;

/// The token that ends a reply where the tokenizer does not know the end
/// mark.
pub const DEFAULT_END_TOKEN: u32 = 32000;

/// The mark that ends a reply.
pub const END_MARK: &'static str = "<|end|>";

/// The seed of the sampler.
pub const SAMPLING_SEED: u64 = 299792458;

/// A generation in progress.
pub struct Generation {
    /// The prompt and every token picked so far.
    pub tokens: Vec<u32>,
    /// The text of the tokens picked so far.
    pub generated_text: String,
    /// The number of tokens picked so far.
    pub steps: usize,
    /// The most tokens to pick.
    pub max_tokens: usize,
    /// Whether the end token was picked.
    pub ended: bool,
}

/// The part of the tokens that the model sees.
pub struct Window {
    /// The position of the first token seen.
    pub start_pos: usize,
    /// The number of tokens seen.
    pub len: usize,
}

/// The number of tokens that the model sees of `n`: all of them, up to
/// [`CONTEXT_LIMIT`].
pub open spec fn context_size(n: nat) -> nat {
    if n > CONTEXT_LIMIT {
        CONTEXT_LIMIT as nat
    } else {
        n
    }
}

/// The token that ends a reply: the one the tokenizer gives for the end
/// mark, or [`DEFAULT_END_TOKEN`].
pub open spec fn end_token(known: Option<u32>) -> u32 {
    match known {
        Some(t) => t,
        None => DEFAULT_END_TOKEN,
    }
}

impl Generation {
    /// Whether the generation goes on: the end token was not picked, and
    /// fewer tokens were picked than allowed.
    pub open spec fn goes_on(&self) -> bool {
        !self.ended && self.steps < self.max_tokens
    }

    /// A generation at its start, from the tokens of the prompt.
    pub fn new(prompt_tokens: Vec<u32>, max_tokens: usize) -> (generation: Self)
        ensures
            generation.tokens == prompt_tokens,
            generation.generated_text@.len() == 0,
            generation.steps == 0,
            generation.max_tokens == max_tokens,
            !generation.ended,
    {
        Generation {
            tokens: prompt_tokens,
            generated_text: String::new(),
            steps: 0,
            max_tokens,
            ended: false,
        }
    }

    /// The tokens that the model sees at the next step: the last
    /// [`CONTEXT_LIMIT`] tokens, or all where there are fewer. `None` once
    /// the generation is over.
    pub fn window(&self) -> (window: Option<Window>)
        ensures
            match window {
                Some(w) => {
                    &&& self.goes_on()
                    &&& w.len == context_size(self.tokens@.len())
                    &&& w.start_pos + w.len == self.tokens@.len()
                },
                None => !self.goes_on(),
            },
    {
        if self.ended || self.steps >= self.max_tokens {
            return None;
        }
        let n = self.tokens.len();
        let len = if n > CONTEXT_LIMIT {
            CONTEXT_LIMIT
        } else {
            n
        };
        Some(Window { start_pos: n - len, len })
    }

    /// Takes the token that the sampler picked. The token joins the tokens;
    /// its text, where the tokenizer could decode it, joins the text; and
    /// the end token, as the tokenizer knows it, ends the generation. A
    /// generation that is over takes nothing.
    pub fn accept(&mut self, next_token: u32, decoded: Option<&str>, known_end: Option<u32>)
        ensures
            final(self).max_tokens == old(self).max_tokens,
            !old(self).goes_on() ==> *final(self) == *old(self),
            old(self).goes_on() ==> {
                &&& final(self).tokens@ == old(self).tokens@.push(next_token)
                &&& final(self).generated_text@ == old(self).generated_text@ + match decoded {
                    Some(piece) => piece@,
                    None => Seq::<char>::empty(),
                }
                &&& final(self).steps == old(self).steps + 1
                &&& final(self).ended == (next_token == end_token(known_end))
            },
    {
        if self.ended || self.steps >= self.max_tokens {
            return ;
        }
        self.tokens.push(next_token);
        match decoded {
            Some(piece) => {
                self.generated_text.append(piece);
            },
            None => {
                assert(self.generated_text@ + Seq::<char>::empty() =~= self.generated_text@);
            },
        }
        self.steps = self.steps + 1;
        let end = match known_end {
            Some(t) => t,
            None => DEFAULT_END_TOKEN,
        };
        if next_token == end {
            self.ended = true;
        }
    }

    /// The text generated.
    pub fn generate(self) -> (text: String)
        ensures
            text == self.generated_text,
    {
        self.generated_text
    }
}

} // verus!
