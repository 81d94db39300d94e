//! REPL configuration: enabled flag, prompt, toggle key, history file, commands.
use crate::command::CommandTable;
use crate::keymap::KeyCode;
use vstd::prelude::*;

verus! {

/// Configuration for the REPL plugin
pub struct ReplConfig {
    /// Whether to enable the REPL
    pub enabled: bool,
    /// The prompt string to display
    pub prompt: String,
    /// The key to toggle the REPL. If None, the REPL is always enabled.
    pub toggle_key: Option<KeyCode>,
    /// Registered console commands
    pub commands: CommandTable,
    /// Custom history file path (None: the default location).
    pub history_file: Option<String>,
}

impl ReplConfig {
    /// Enabled, prompt `"> "`, no toggle key, no commands, default history file.
    pub open spec fn is_default(&self) -> bool {
        &&& self.enabled
        &&& self.prompt@ == seq!['>', ' ']
        &&& self.toggle_key is None
        &&& self.commands.wf()
        &&& self.commands.view() == Map::<Seq<char>, usize>::empty()
        &&& self.history_file is None
    }

    /// Create a new REPL configuration with default settings
    pub fn new() -> (c: ReplConfig)
        ensures
            c.is_default(),
    {
        let prompt = String::from_str("> ");
        proof {
            reveal_strlit("> ");
            assert(prompt@ =~= seq!['>', ' ']);
        }
        ReplConfig {
            enabled: true,
            prompt,
            toggle_key: None,
            commands: CommandTable::new(),
            history_file: None,
        }
    }

    /// Set a custom prompt string
    pub fn with_prompt(self, prompt: String) -> (c: ReplConfig)
        ensures
            c.prompt@ == prompt@,
            c.enabled == self.enabled,
            c.toggle_key == self.toggle_key,
            c.commands == self.commands,
            c.history_file == self.history_file,
    {
        ReplConfig { prompt, ..self }
    }

    /// Set a custom history file path
    pub fn with_history_file(self, history_file: String) -> (c: ReplConfig)
        ensures
            c.history_file == Some(history_file),
            c.prompt == self.prompt,
            c.enabled == self.enabled,
            c.toggle_key == self.toggle_key,
            c.commands == self.commands,
    {
        ReplConfig { history_file: Some(history_file), ..self }
    }

    /// Disable the REPL
    pub fn disabled(self) -> (c: ReplConfig)
        ensures
            !c.enabled,
            c.prompt == self.prompt,
            c.toggle_key == self.toggle_key,
            c.commands == self.commands,
            c.history_file == self.history_file,
    {
        ReplConfig { enabled: false, ..self }
    }
}

impl Default for ReplConfig {
    fn default() -> (c: ReplConfig)
        ensures
            c.is_default(),
    {
        ReplConfig::new()
    }
}

pub fn enable_repl(config: &mut ReplConfig)
    ensures
        final(config).enabled,
        final(config).prompt == old(config).prompt,
        final(config).toggle_key == old(config).toggle_key,
        final(config).commands == old(config).commands,
        final(config).history_file == old(config).history_file,
{
    config.enabled = true;
}

pub fn disable_repl(config: &mut ReplConfig)
    ensures
        !final(config).enabled,
        final(config).prompt == old(config).prompt,
        final(config).toggle_key == old(config).toggle_key,
        final(config).commands == old(config).commands,
        final(config).history_file == old(config).history_file,
{
    config.enabled = false;
}

pub fn toggle_repl(config: &mut ReplConfig)
    ensures
        final(config).enabled == !old(config).enabled,
        final(config).prompt == old(config).prompt,
        final(config).toggle_key == old(config).toggle_key,
        final(config).commands == old(config).commands,
        final(config).history_file == old(config).history_file,
{
    if config.enabled {
        disable_repl(config);
    } else {
        enable_repl(config);
    }
}

} // verus!
