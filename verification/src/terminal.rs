//! The terminal-mode state machine: the application owns the terminal in
//! Normal mode and hands it wholly to a foreground child in Interactive
//! mode, in strictly paired transitions.

use vstd::prelude::*;

verus! {

/// Who holds the physical terminal: the application (raw mode and alternate
/// screen active) or a foreground child it released the terminal to.
#[derive(Debug, Clone, Copy, PartialEq, Eq, Structural)]
pub enum TerminalMode {
    Normal,
    Interactive,
}

/// The ledger of the raw-mode/alternate-screen resource. Exactly one mode
/// holds at any time; transitions come only in acquire/restore pairs.
pub struct TerminalController {
    pub mode: TerminalMode,
}

impl TerminalController {
    /// A controller for a freshly set-up terminal, owned by the application.
    pub fn new() -> (c: TerminalController)
        ensures
            c.mode == TerminalMode::Normal,
    {
        TerminalController { mode: TerminalMode::Normal }
    }

    /// Releases the terminal to a foreground child: Normal to Interactive.
    /// Must never be called while a child already holds the terminal.
    pub fn acquire_interactive(&mut self)
        requires
            old(self).mode == TerminalMode::Normal,
        ensures
            final(self).mode == TerminalMode::Interactive,
    {
        self.mode = TerminalMode::Interactive;
    }

    /// Takes the terminal back from the child: Interactive to Normal.
    /// Must only follow a matching acquire.
    pub fn restore_ui(&mut self)
        requires
            old(self).mode == TerminalMode::Interactive,
        ensures
            final(self).mode == TerminalMode::Normal,
    {
        self.mode = TerminalMode::Normal;
    }
}

/// One step a fullscreen run asks the surrounding process to perform.
#[derive(Debug, PartialEq, Eq)]
pub enum Effect {
    /// Release raw mode and the alternate screen to the child.
    Acquire,
    /// Spawn the command with stdin/stdout/stderr inherited and wait for it.
    SpawnInherited(Vec<char>),
    /// Re-enable raw mode and re-enter the alternate screen.
    Restore,
}

/// The mathematical shape of an effect.
pub enum EffectSpec {
    Acquire,
    SpawnInherited(Seq<char>),
    Restore,
}

impl View for Effect {
    type V = EffectSpec;

    open spec fn view(&self) -> EffectSpec {
        match self {
            Effect::Acquire => EffectSpec::Acquire,
            Effect::SpawnInherited(c) => EffectSpec::SpawnInherited(c@),
            Effect::Restore => EffectSpec::Restore,
        }
    }
}

/// The views of a sequence of effects.
pub open spec fn effects_view(s: Seq<Effect>) -> Seq<EffectSpec> {
    s.map_values(|e: Effect| e@)
}

/// The terminal mode after performing the effects in order, starting from
/// the given mode.
pub open spec fn mode_after(effs: Seq<EffectSpec>, m: TerminalMode) -> TerminalMode
    decreases effs.len(),
{
    if effs.len() == 0 {
        m
    } else {
        let next = match effs[0] {
            EffectSpec::Acquire => TerminalMode::Interactive,
            EffectSpec::Restore => TerminalMode::Normal,
            EffectSpec::SpawnInherited(_) => m,
        };
        mode_after(effs.drop_first(), next)
    }
}

/// Whether the effects are legal from the given mode: the terminal is
/// acquired only while the application holds it, restored only while a child
/// holds it, and a child is spawned only inside an acquire/restore bracket.
pub open spec fn legal_from(effs: Seq<EffectSpec>, m: TerminalMode) -> bool
    decreases effs.len(),
{
    if effs.len() == 0 {
        true
    } else {
        match effs[0] {
            EffectSpec::Acquire => m == TerminalMode::Normal && legal_from(
                effs.drop_first(),
                TerminalMode::Interactive,
            ),
            EffectSpec::Restore => m == TerminalMode::Interactive && legal_from(
                effs.drop_first(),
                TerminalMode::Normal,
            ),
            EffectSpec::SpawnInherited(_) => m == TerminalMode::Interactive && legal_from(
                effs.drop_first(),
                m,
            ),
        }
    }
}

/// How many child processes the effects spawn.
pub open spec fn spawn_count(effs: Seq<EffectSpec>) -> nat
    decreases effs.len(),
{
    if effs.len() == 0 {
        0
    } else {
        (match effs[0] {
            EffectSpec::SpawnInherited(_) => 1 as nat,
            _ => 0 as nat,
        }) + spawn_count(effs.drop_first())
    }
}

/// The effects of one fullscreen run: release the terminal, run the child
/// with inherited stdio, take the terminal back.
pub open spec fn fullscreen_effects(cmd: Seq<char>) -> Seq<EffectSpec> {
    seq![
        EffectSpec::Acquire,
        EffectSpec::SpawnInherited(cmd),
        EffectSpec::Restore,
    ]
}

/// The steps the surrounding process must perform, in order, to run the
/// command fullscreen.
pub fn fullscreen_script(cmd: Vec<char>) -> (s: Vec<Effect>)
    ensures
        effects_view(s@) == fullscreen_effects(cmd@),
{
    let ghost cmd_view = cmd@;
    let mut s: Vec<Effect> = Vec::new();
    s.push(Effect::Acquire);
    s.push(Effect::SpawnInherited(cmd));
    s.push(Effect::Restore);
    proof {
        assert(effects_view(s@) =~= fullscreen_effects(cmd_view));
    }
    s
}

/// Law: a fullscreen bracket that starts with the application holding the
/// terminal is legal at every step, returns the terminal mode to exactly its
/// starting value, and spawns exactly one inherited-stdio child inside the
/// acquire/restore pair.
pub proof fn lemma_fullscreen_bracket(cmd: Seq<char>)
    ensures
        legal_from(fullscreen_effects(cmd), TerminalMode::Normal),
        mode_after(fullscreen_effects(cmd), TerminalMode::Normal) == TerminalMode::Normal,
        spawn_count(fullscreen_effects(cmd)) == 1,
{
    let effs = fullscreen_effects(cmd);
    let e1 = effs.drop_first();
    let e2 = e1.drop_first();
    let e3 = e2.drop_first();
    assert(e3 =~= Seq::<EffectSpec>::empty());
    assert(effs[0] == EffectSpec::Acquire);
    assert(e1[0] == EffectSpec::SpawnInherited(cmd));
    assert(e2[0] == EffectSpec::Restore);
    assert(mode_after(e3, TerminalMode::Normal) == TerminalMode::Normal);
    assert(mode_after(e2, TerminalMode::Interactive) == mode_after(e3, TerminalMode::Normal));
    assert(mode_after(e1, TerminalMode::Interactive) == mode_after(e2, TerminalMode::Interactive));
    assert(mode_after(effs, TerminalMode::Normal) == mode_after(e1, TerminalMode::Interactive));
    assert(legal_from(e3, TerminalMode::Normal));
    assert(legal_from(e2, TerminalMode::Interactive));
    assert(legal_from(e1, TerminalMode::Interactive));
    assert(legal_from(effs, TerminalMode::Normal));
    assert(spawn_count(e3) == 0);
    assert(spawn_count(e2) == 0);
    assert(spawn_count(e1) == 1);
}

} // verus!
