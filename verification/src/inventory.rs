//! The tools a player can earn, and the inventory that keeps them.

use crate::ai::memory::MemoryFragment;
use std::collections::HashMap;
use vstd::prelude::*;
use vstd::string::StringExecFns;

verus! {

/// A tool, or a hat, that the player can own.
#[derive(Debug, Clone, Copy, PartialEq, Eq, Hash, Structural)]
pub enum ToolId {
    OllamaCompass,
    LogicLens,
    FeedbackMirror,
    ThinkingCapPhi,
    ThinkingCapLlama,
    ThinkingCapMistral,
}

/// The lesson step from which no tool is earned by progress alone.
pub const NEVER_BY_STEP: usize = 99;

impl ToolId {
    /// The number under which the inventory files this tool.
    pub open spec fn spec_code(self) -> u8 {
        match self {
            ToolId::OllamaCompass => 0,
            ToolId::LogicLens => 1,
            ToolId::FeedbackMirror => 2,
            ToolId::ThinkingCapPhi => 3,
            ToolId::ThinkingCapLlama => 4,
            ToolId::ThinkingCapMistral => 5,
        }
    }

    /// The number under which the inventory files this tool. No two tools
    /// share one.
    #[verifier::when_used_as_spec(spec_code)]
    pub fn code(self) -> (c: u8)
        ensures
            c == self.spec_code(),
            forall|other: ToolId| other.spec_code() == c ==> other == self,
    {
        match self {
            ToolId::OllamaCompass => 0,
            ToolId::LogicLens => 1,
            ToolId::FeedbackMirror => 2,
            ToolId::ThinkingCapPhi => 3,
            ToolId::ThinkingCapLlama => 4,
            ToolId::ThinkingCapMistral => 5,
        }
    }

    /// The tool's name as the player reads it.
    pub open spec fn name_text(self) -> Seq<char> {
        match self {
            ToolId::OllamaCompass => "Ollama Compass"@,
            ToolId::LogicLens => "Logic Lens"@,
            ToolId::FeedbackMirror => "Feedback Mirror"@,
            ToolId::ThinkingCapPhi => "The Tiny Beret (Phi-3)"@,
            ToolId::ThinkingCapLlama => "The Llama Top Hat (Llama-3)"@,
            ToolId::ThinkingCapMistral => "The Mistral Fedora (Mistral)"@,
        }
    }

    /// The sign under which the tool is shown.
    pub open spec fn icon_text(self) -> Seq<char> {
        match self {
            ToolId::OllamaCompass => "\u{1f9ed}"@,
            ToolId::LogicLens => "\u{1f50d}"@,
            ToolId::FeedbackMirror => "\u{1fa9e}"@,
            ToolId::ThinkingCapPhi => "\u{1f9e2}"@,
            ToolId::ThinkingCapLlama => "\u{1f3a9}"@,
            ToolId::ThinkingCapMistral => "\u{1f575}\u{fe0f}"@,
        }
    }

    /// The tool's name as the player reads it.
    pub fn name(&self) -> (s: &'static str)
        ensures
            s@ == self.name_text(),
    {
        match self {
            ToolId::OllamaCompass => "Ollama Compass",
            ToolId::LogicLens => "Logic Lens",
            ToolId::FeedbackMirror => "Feedback Mirror",
            ToolId::ThinkingCapPhi => "The Tiny Beret (Phi-3)",
            ToolId::ThinkingCapLlama => "The Llama Top Hat (Llama-3)",
            ToolId::ThinkingCapMistral => "The Mistral Fedora (Mistral)",
        }
    }

    /// What the tool is for.
    pub fn description(&self) -> (s: &'static str)
        ensures
            s@ == match *self {
                ToolId::OllamaCompass => "Navigate the local AI landscape. Shows you're connected to your sovereign assistant."@,
                ToolId::LogicLens => "Translates teaching intent into game logic. The bridge between imagination and code."@,
                ToolId::FeedbackMirror => "Reflects student interactions back to you. The key to iterative design."@,
                ToolId::ThinkingCapPhi => "Fast, lightweight, and perfect for edge devices. A smart choice for quick thoughts."@,
                ToolId::ThinkingCapLlama => "Powerful and versatile. The standard for heavy lifting and complex reasoning."@,
                ToolId::ThinkingCapMistral => "Efficient and open. A balanced choice for the modern sovereign architect."@,
            },
    {
        match self {
            ToolId::OllamaCompass => "Navigate the local AI landscape. Shows you're connected to your sovereign assistant.",
            ToolId::LogicLens => "Translates teaching intent into game logic. The bridge between imagination and code.",
            ToolId::FeedbackMirror => "Reflects student interactions back to you. The key to iterative design.",
            ToolId::ThinkingCapPhi => "Fast, lightweight, and perfect for edge devices. A smart choice for quick thoughts.",
            ToolId::ThinkingCapLlama => "Powerful and versatile. The standard for heavy lifting and complex reasoning.",
            ToolId::ThinkingCapMistral => "Efficient and open. A balanced choice for the modern sovereign architect.",
        }
    }

    /// The sign under which the tool is shown.
    pub fn icon(&self) -> (s: &'static str)
        ensures
            s@ == self.icon_text(),
    {
        match self {
            ToolId::OllamaCompass => "\u{1f9ed}",
            ToolId::LogicLens => "\u{1f50d}",
            ToolId::FeedbackMirror => "\u{1fa9e}",
            ToolId::ThinkingCapPhi => "\u{1f9e2}",
            ToolId::ThinkingCapLlama => "\u{1f3a9}",
            ToolId::ThinkingCapMistral => "\u{1f575}\u{fe0f}",
        }
    }

    /// The lesson step at which the tool is earned; [`NEVER_BY_STEP`] for
    /// the hats, which are bought.
    pub fn unlock_step(&self) -> (step: usize)
        ensures
            step == match *self {
                ToolId::OllamaCompass => 3usize,
                ToolId::LogicLens => 6usize,
                ToolId::FeedbackMirror => 8usize,
                _ => NEVER_BY_STEP,
            },
    {
        match self {
            ToolId::OllamaCompass => 3,
            ToolId::LogicLens => 6,
            ToolId::FeedbackMirror => 8,
            _ => NEVER_BY_STEP,
        }
    }
}

/// What the player owns. Each tool on file is locked or unlocked; a tool
/// that is not on file counts as locked. The file is keyed by
/// [`ToolId::code`].
pub struct Inventory {
    pub tools: HashMap<u8, bool>,
    pub active_tool: Option<ToolId>,
    pub active_hat: Option<ToolId>,
    pub newly_acquired: Option<ToolId>,
}

/// The file of a new inventory: the three quest tools, each locked.
pub open spec fn initial_tools() -> Map<ToolId, bool> {
    Map::<ToolId, bool>::empty().insert(ToolId::OllamaCompass, false).insert(
        ToolId::LogicLens,
        false,
    ).insert(ToolId::FeedbackMirror, false)
}

/// What pressing the key of `tool` does to the tool in hand `active`, for a
/// player who may or may not own the tool: an owned tool is taken in hand,
/// or put away if it was in hand; a tool not owned changes nothing.
pub open spec fn toggled(active: Option<ToolId>, tool: ToolId, owned: bool) -> Option<ToolId> {
    if !owned {
        active
    } else if active == Some(tool) {
        None
    } else {
        Some(tool)
    }
}

impl Inventory {
    /// The tools on file, each with whether it is unlocked.
    pub open spec fn on_file(&self) -> Map<ToolId, bool> {
        Map::new(
            |t: ToolId| self.tools@.contains_key(t.spec_code()),
            |t: ToolId| self.tools@[t.spec_code()],
        )
    }

    /// Whether `tool` is on file and unlocked.
    pub open spec fn owns(&self, tool: ToolId) -> bool {
        self.on_file().contains_key(tool) && self.on_file()[tool]
    }

    /// A new inventory: the three quest tools on file and locked, nothing in
    /// hand, nothing to announce.
    pub fn new() -> (inv: Self)
        ensures
            inv.on_file() == initial_tools(),
            inv.active_tool is None,
            inv.active_hat is None,
            inv.newly_acquired is None,
    {
        let mut tools: HashMap<u8, bool> = HashMap::new();
        tools.insert(ToolId::OllamaCompass.code(), false);
        tools.insert(ToolId::LogicLens.code(), false);
        tools.insert(ToolId::FeedbackMirror.code(), false);
        let inv = Inventory { tools, active_tool: None, active_hat: None, newly_acquired: None };
        assert(inv.on_file() =~= initial_tools());
        inv
    }

    /// Whether `tool` is on file and unlocked.
    pub fn has_tool(&self, tool: ToolId) -> (owned: bool)
        ensures
            owned == self.owns(tool),
    {
        let code = tool.code();
        match self.tools.get(&code) {
            Some(unlocked) => *unlocked,
            None => false,
        }
    }

    /// Unlocks `tool` and marks it as newly acquired. A tool that is already
    /// unlocked changes nothing.
    pub fn unlock_tool(&mut self, tool: ToolId)
        ensures
            old(self).owns(tool) ==> *final(self) == *old(self),
            !old(self).owns(tool) ==> {
                &&& final(self).on_file() == old(self).on_file().insert(tool, true)
                &&& final(self).newly_acquired == Some(tool)
                &&& final(self).active_tool == old(self).active_tool
                &&& final(self).active_hat == old(self).active_hat
            },
    {
        if !self.has_tool(tool) {
            let code = tool.code();
            self.tools.insert(code, true);
            self.newly_acquired = Some(tool);
            assert(self.on_file() =~= old(self).on_file().insert(tool, true));
        }
    }

    /// Forgets which tool was newly acquired.
    pub fn clear_notification(&mut self)
        ensures
            final(self).newly_acquired is None,
            final(self).on_file() == old(self).on_file(),
            final(self).active_tool == old(self).active_tool,
            final(self).active_hat == old(self).active_hat,
    {
        self.newly_acquired = None;
    }

    /// Takes `tool` in hand, or puts it away if it was in hand; a tool that
    /// the player does not own changes nothing. Tells whether the tool is in
    /// hand afterwards.
    pub fn toggle_tool(&mut self, tool: ToolId) -> (in_hand: bool)
        ensures
            final(self).active_tool == toggled(old(self).active_tool, tool, old(self).owns(tool)),
            final(self).on_file() == old(self).on_file(),
            final(self).active_hat == old(self).active_hat,
            final(self).newly_acquired == old(self).newly_acquired,
            in_hand == (final(self).active_tool == Some(tool)),
    {
        if self.has_tool(tool) {
            let was_active = match self.active_tool {
                Some(t) => t == tool,
                None => false,
            };
            if was_active {
                self.active_tool = None;
                false
            } else {
                self.active_tool = Some(tool);
                true
            }
        } else {
            match self.active_tool {
                Some(t) => t == tool,
                None => false,
            }
        }
    }
}

/// What a slot of the inventory shows: the sign of the tool, and its name
/// once the tool is unlocked.
pub fn slot_label(tool: ToolId, unlocked: bool) -> (label: String)
    ensures
        label@ == tool.icon_text() + " "@ + if unlocked {
            tool.name_text()
        } else {
            "???"@
        },
{
    let mut label = String::from_str(tool.icon());
    label.append(" ");
    if unlocked {
        label.append(tool.name());
    } else {
        label.append("???");
    }
    label
}

/// The headline that announces a tool newly acquired.
pub fn acquisition_title(tool: ToolId) -> (title: String)
    ensures
        title@ == "\u{1f381} TOOL ACQUIRED! "@ + tool.icon_text(),
{
    String::from_str("\u{1f381} TOOL ACQUIRED! ").concat(tool.icon())
}

/// What the feedback mirror shows of the memories `recent`: a headline,
/// then one line for each memory with its source and its content, or a
/// line that says that there are none.
pub open spec fn mirror_text(recent: Seq<MemoryFragment>) -> Seq<char>
    decreases recent.len(),
{
    if recent.len() == 0 {
        "\u{1fa9e} FEEDBACK MIRROR (Recent Memories)\n"@
            + "\n(No memories found in sovereign store)"@
    } else if recent.len() == 1 {
        "\u{1fa9e} FEEDBACK MIRROR (Recent Memories)\n"@ + mirror_line(recent[0])
    } else {
        mirror_text(recent.drop_last()) + mirror_line(recent.last())
    }
}

/// The line of the feedback mirror for one memory.
pub open spec fn mirror_line(memory: MemoryFragment) -> Seq<char> {
    "\n\u{2022} ["@ + memory.source@ + "] "@ + memory.content@
}

/// What the feedback mirror shows while it is in hand: the memories
/// `recent`, as [`mirror_text`] lays them out. A mirror that is not in hand
/// shows nothing.
pub fn update_feedback_mirror(inventory: &Inventory, recent: &Vec<MemoryFragment>) -> (shown:
    Option<String>)
    ensures
        match shown {
            Some(text) => inventory.active_tool == Some(ToolId::FeedbackMirror) && text@
                == mirror_text(recent@),
            None => inventory.active_tool != Some(ToolId::FeedbackMirror),
        },
{
    let mirror_active = match inventory.active_tool {
        Some(tool) => tool == ToolId::FeedbackMirror,
        None => false,
    };
    if !mirror_active {
        return None;
    }
    let mut text = String::from_str("\u{1fa9e} FEEDBACK MIRROR (Recent Memories)\n");
    if recent.len() == 0 {
        text.append("\n(No memories found in sovereign store)");
        return Some(text);
    }
    let mut i: usize = 0;
    while i < recent.len()
        invariant
            0 < recent.len(),
            i <= recent.len(),
            i == 0 ==> text@ == "\u{1fa9e} FEEDBACK MIRROR (Recent Memories)\n"@,
            i > 0 ==> text@ == mirror_text(recent@.take(i as int)),
        decreases recent.len() - i,
    {
        assert(recent@.take(i + 1).drop_last() =~= recent@.take(i as int));
        assert(recent@.take(i + 1).last() == recent@[i as int]);
        text.append("\n\u{2022} [");
        text.append(recent[i].source.as_str());
        text.append("] ");
        text.append(recent[i].content.as_str());
        assert(text@ =~= mirror_text(recent@.take(i + 1)));
        i += 1;
    }
    assert(recent@.take(recent.len() as int) =~= recent@);
    Some(text)
}

} // verus!
