//! Which plugins make up the REPL, and which terminal plugins still need adding.
use vstd::prelude::*;

verus! {

/// The parts of the REPL that the plugin group installs.
#[derive(Clone, Copy, Debug, PartialEq, Eq, Structural)]
pub enum ReplPluginKind {
    /// The REPL core: state, events, system sets.
    Repl,
    /// Command parsing of submitted lines.
    Parser,
    /// Terminal key input.
    Input,
    /// The default keymap.
    InputKeymap,
    /// Scroll region and prompt printing.
    Print,
    /// The built-in commands.
    DefaultCommands,
}

/// Default REPL plugin group.
///
/// This is the turnkey setup most users want. It wires in the REPL core, input capture,
/// keymap, command parser, and the default commands.
#[derive(Clone, Copy, Debug, Default)]
pub struct ReplPlugins;

impl ReplPlugins {
    /// The plugins of the group, in the order they are added.
    pub fn build(self) -> (r: Vec<ReplPluginKind>)
        ensures
            r@ == seq![
                ReplPluginKind::Repl,
                ReplPluginKind::Parser,
                ReplPluginKind::Input,
                ReplPluginKind::InputKeymap,
                ReplPluginKind::Print,
                ReplPluginKind::DefaultCommands,
            ],
    {
        let mut v = Vec::new();
        v.push(ReplPluginKind::Repl);
        v.push(ReplPluginKind::Parser);
        v.push(ReplPluginKind::Input);
        v.push(ReplPluginKind::InputKeymap);
        v.push(ReplPluginKind::Print);
        v.push(ReplPluginKind::DefaultCommands);
        proof {
            assert(v@ =~= seq![
                ReplPluginKind::Repl,
                ReplPluginKind::Parser,
                ReplPluginKind::Input,
                ReplPluginKind::InputKeymap,
                ReplPluginKind::Print,
                ReplPluginKind::DefaultCommands,
            ]);
        }
        v
    }
}

/// The terminal plugins that the REPL relies on.
#[derive(Clone, Copy, Debug, PartialEq, Eq, Structural)]
pub enum RatatuiPluginKind {
    Event,
    Cleanup,
    Error,
    Translation,
}

/// Minimal terminal plugin group: the default terminal plugins without the
/// alternate screen; plugins already in the app are not added again.
#[derive(Clone, Copy, Debug, Default)]
pub struct StdoutRatatuiPlugin;

/// `k` when it is not yet added.
pub open spec fn if_missing(added: bool, k: RatatuiPluginKind) -> Seq<RatatuiPluginKind> {
    if added {
        Seq::empty()
    } else {
        seq![k]
    }
}

impl StdoutRatatuiPlugin {
    /// The plugins to add, in order, given which are already present.
    pub fn build(
        &self,
        event_added: bool,
        cleanup_added: bool,
        error_added: bool,
        translation_added: bool,
    ) -> (r: Vec<RatatuiPluginKind>)
        ensures
            r@ == if_missing(event_added, RatatuiPluginKind::Event) + if_missing(
                cleanup_added,
                RatatuiPluginKind::Cleanup,
            ) + if_missing(error_added, RatatuiPluginKind::Error) + if_missing(
                translation_added,
                RatatuiPluginKind::Translation,
            ),
    {
        let mut v: Vec<RatatuiPluginKind> = Vec::new();
        if !event_added {
            v.push(RatatuiPluginKind::Event);
        }
        let ghost a = v@;
        if !cleanup_added {
            v.push(RatatuiPluginKind::Cleanup);
        }
        let ghost b = v@;
        if !error_added {
            v.push(RatatuiPluginKind::Error);
        }
        let ghost c = v@;
        if !translation_added {
            v.push(RatatuiPluginKind::Translation);
        }
        proof {
            assert(a =~= if_missing(event_added, RatatuiPluginKind::Event));
            assert(b =~= a + if_missing(cleanup_added, RatatuiPluginKind::Cleanup));
            assert(c =~= b + if_missing(error_added, RatatuiPluginKind::Error));
            assert(v@ =~= c + if_missing(translation_added, RatatuiPluginKind::Translation));
        }
        v
    }
}

} // verus!
