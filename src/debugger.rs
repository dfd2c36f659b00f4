use vstd::prelude::*;

verus! {

/// A command typed at the debugger.
#[derive(Clone, Copy, Debug, PartialEq, Eq, Structural)]
pub enum Command {
    /// Execute one instruction, then stay paused.
    Step,
    /// Run until paused or a breakpoint is reached.
    Continue,
    /// Stop running.
    Pause,
    /// Return the processor to its cold-start state.
    Reset,
    /// Pause whenever the PC reaches this address.
    Breakpoint(u16),
    /// Leave the debugger.
    Quit,
}

/// What the host should do next.
#[derive(Clone, Copy, Debug, PartialEq, Eq, Structural)]
pub enum Action {
    /// Execute one instruction.
    Step,
    /// Reset the processor.
    Reset,
    /// Execute nothing and wait for the next command.
    Idle,
    /// Stop.
    Quit,
}

/// The state of the debugger: whether it is paused, and its breakpoint.
#[derive(Clone, Copy, Debug, PartialEq, Eq, Structural)]
pub struct Debugger {
    pub paused: bool,
    pub breakpoint: Option<u16>,
}

impl Debugger {
    /// Paused, with no breakpoint.
    pub fn default() -> (r: Debugger)
        ensures
            r == (Debugger { paused: true, breakpoint: None }),
    {
        Debugger { paused: true, breakpoint: None }
    }

    /// Decides the next action from the command typed, if any, and the PC
    /// the next step would start from. Without a command a running debugger
    /// steps, unless the PC is at the breakpoint: then it pauses instead.
    /// Step and Continue execute one instruction even at the breakpoint, so
    /// that a paused program can leave it.
    pub fn next_action(&mut self, command: Option<Command>, pc: u16) -> (a: Action)
        ensures
            match command {
                Some(Command::Quit) => a == Action::Quit && *final(self) == *old(self),
                Some(Command::Reset) => a == Action::Reset && *final(self) == *old(self),
                Some(Command::Breakpoint(addr)) => a == Action::Idle && *final(self) == (
                Debugger { breakpoint: Some(addr), ..*old(self) }),
                Some(Command::Pause) => a == Action::Idle && *final(self) == (Debugger {
                    paused: true,
                    ..*old(self)
                }),
                Some(Command::Step) => a == Action::Step && *final(self) == (Debugger {
                    paused: true,
                    ..*old(self)
                }),
                Some(Command::Continue) => a == Action::Step && *final(self) == (Debugger {
                    paused: false,
                    ..*old(self)
                }),
                None => if old(self).paused {
                    a == Action::Idle && *final(self) == *old(self)
                } else if old(self).breakpoint == Some(pc) {
                    a == Action::Idle && *final(self) == (Debugger { paused: true, ..*old(self) })
                } else {
                    a == Action::Step && *final(self) == *old(self)
                },
            },
    {
        match command {
            Some(Command::Quit) => Action::Quit,
            Some(Command::Reset) => Action::Reset,
            Some(Command::Breakpoint(addr)) => {
                self.breakpoint = Some(addr);
                Action::Idle
            },
            Some(Command::Pause) => {
                self.paused = true;
                Action::Idle
            },
            Some(Command::Step) => {
                self.paused = true;
                Action::Step
            },
            Some(Command::Continue) => {
                self.paused = false;
                Action::Step
            },
            None => {
                if self.paused {
                    Action::Idle
                } else if self.breakpoint == Some(pc) {
                    self.paused = true;
                    Action::Idle
                } else {
                    Action::Step
                }
            },
        }
    }
}

} // verus!
