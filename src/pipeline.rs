//! The lifecycle of one message: tokenize, ask the before-hook, dispatch or
//! report an unknown command, and hand the handler's result to the after-hook.
use vstd::prelude::*;
use crate::registry::CommandRegistry;
use crate::text::lower;
use crate::tokenizer::{tokenize, tokens, Invocation, TokenizerConfig};

verus! {

/// Why a command failed.
#[derive(Clone, Copy, Debug, PartialEq, Eq, Structural)]
pub enum FailureKind {
    /// The message's guild is not in the cache.
    GuildNotCached,
    /// The invoking member could not be resolved in the guild.
    MemberUnresolved,
    /// The platform did not give the role.
    RoleNotAdded,
    /// The reply could not be sent.
    ReplyNotSent,
}

/// Outcome of running a command.
#[derive(Clone, Copy, Debug, PartialEq, Eq, Structural)]
pub enum CommandResult {
    Success,
    Failure(FailureKind),
}

/// Where the lifecycle of one message stands.
pub enum Stage {
    /// A command was found; the before-hook has been asked about it.
    Filtering { invocation: Invocation },
    /// The handler of command `command` is running.
    Dispatching { name: String, command: usize },
    /// Nothing more happens for this message.
    Finished,
}

/// What the caller reports back.
#[derive(Clone, Copy, Debug, PartialEq, Eq, Structural)]
pub enum Event {
    /// The before-hook answered: `true` lets the command run.
    BeforeReturned(bool),
    /// The handler finished with this result.
    HandlerReturned(CommandResult),
}

/// What the caller is to do next.
pub enum Action {
    /// Run the normal-message hook on the message.
    InvokeNormal,
    /// Ask the before-hook whether command `name` may run.
    InvokeBefore { name: String },
    /// Run the handler of command `command` with the argument tail `args`.
    RunHandler { command: usize, args: String },
    /// Run the unknown-command hook for `name`.
    InvokeUnknown { name: String },
    /// Run the after-hook for `name` with the handler's result.
    InvokeAfter { name: String, result: CommandResult },
    /// Nothing to do.
    Stop,
}

/// A stage with its strings seen as character sequences.
pub enum StageView {
    Filtering { name: Seq<char>, args: Seq<char> },
    Dispatching { name: Seq<char>, command: int },
    Finished,
}

/// An action with its strings seen as character sequences.
pub enum ActionView {
    InvokeNormal,
    InvokeBefore { name: Seq<char> },
    RunHandler { command: int, args: Seq<char> },
    InvokeUnknown { name: Seq<char> },
    InvokeAfter { name: Seq<char>, result: CommandResult },
    Stop,
}

impl View for Stage {
    type V = StageView;

    open spec fn view(&self) -> StageView {
        match self {
            Stage::Filtering { invocation } => StageView::Filtering {
                name: invocation.name@,
                args: invocation.args@,
            },
            Stage::Dispatching { name, command } => StageView::Dispatching {
                name: name@,
                command: *command as int,
            },
            Stage::Finished => StageView::Finished,
        }
    }
}

impl View for Action {
    type V = ActionView;

    open spec fn view(&self) -> ActionView {
        match self {
            Action::InvokeNormal => ActionView::InvokeNormal,
            Action::InvokeBefore { name } => ActionView::InvokeBefore { name: name@ },
            Action::RunHandler { command, args } => ActionView::RunHandler {
                command: *command as int,
                args: args@,
            },
            Action::InvokeUnknown { name } => ActionView::InvokeUnknown { name: name@ },
            Action::InvokeAfter { name, result } => ActionView::InvokeAfter {
                name: name@,
                result: *result,
            },
            Action::Stop => ActionView::Stop,
        }
    }
}

/// Stage and first action for a message with text `t`.
pub open spec fn start(config: TokenizerConfig, t: Seq<char>) -> (StageView, ActionView) {
    match tokens(config, t) {
        None => (StageView::Finished, ActionView::InvokeNormal),
        Some((name, args)) => (
            StageView::Filtering { name, args },
            ActionView::InvokeBefore { name },
        ),
    }
}

/// Next stage and action once event `e` arrives in stage `s`.
pub open spec fn next(reg: CommandRegistry, s: StageView, e: Event) -> (StageView, ActionView) {
    match (s, e) {
        (StageView::Filtering { name, args }, Event::BeforeReturned(allowed)) => {
            if !allowed {
                (StageView::Finished, ActionView::Stop)
            } else {
                match reg.resolve(lower(name)) {
                    Some(i) => (
                        StageView::Dispatching { name, command: i },
                        ActionView::RunHandler { command: i, args },
                    ),
                    None => (StageView::Finished, ActionView::InvokeUnknown { name }),
                }
            }
        },
        (StageView::Dispatching { name, command }, Event::HandlerReturned(result)) => (
            StageView::Finished,
            ActionView::InvokeAfter { name, result },
        ),
        (StageView::Finished, _) => (StageView::Finished, ActionView::Stop),
        _ => (s, ActionView::Stop),
    }
}

/// The actions taken, from stage `s`, as the events `events` arrive.
pub open spec fn run(reg: CommandRegistry, s: StageView, events: Seq<Event>) -> Seq<ActionView>
    decreases events.len(),
{
    if events.len() == 0 {
        Seq::empty()
    } else {
        let (s2, a) = next(reg, s, events[0]);
        seq![a] + run(reg, s2, events.drop_first())
    }
}

/// Every action taken for a message with text `t`, as the events `events` arrive.
pub open spec fn trace(
    config: TokenizerConfig,
    reg: CommandRegistry,
    t: Seq<char>,
    events: Seq<Event>,
) -> Seq<ActionView> {
    let (s, a) = start(config, t);
    seq![a] + run(reg, s, events)
}

/// Starts the lifecycle of a message with text `text`.
pub fn receive(config: &TokenizerConfig, text: &str) -> (r: (Stage, Action))
    ensures
        (r.0@, r.1@) == start(*config, text@),
{
    match tokenize(config, text) {
        None => (Stage::Finished, Action::InvokeNormal),
        Some(invocation) => {
            let name = invocation.name.clone();
            (Stage::Filtering { invocation }, Action::InvokeBefore { name })
        },
    }
}

/// Moves the lifecycle of a message on by one event.
pub fn step(reg: &CommandRegistry, stage: Stage, event: Event) -> (r: (Stage, Action))
    requires
        reg.wf(),
    ensures
        (r.0@, r.1@) == next(*reg, stage@, event),
{
    match stage {
        Stage::Filtering { invocation } => match event {
            Event::BeforeReturned(allowed) => {
                if !allowed {
                    (Stage::Finished, Action::Stop)
                } else {
                    match reg.lookup(invocation.name.as_str()) {
                        Some(i) => (
                            Stage::Dispatching { name: invocation.name, command: i },
                            Action::RunHandler { command: i, args: invocation.args },
                        ),
                        None => (Stage::Finished, Action::InvokeUnknown { name: invocation.name }),
                    }
                }
            },
            Event::HandlerReturned(_) => (Stage::Filtering { invocation }, Action::Stop),
        },
        Stage::Dispatching { name, command } => match event {
            Event::HandlerReturned(result) => (Stage::Finished, Action::InvokeAfter { name, result }),
            Event::BeforeReturned(_) => (Stage::Dispatching { name, command }, Action::Stop),
        },
        Stage::Finished => (Stage::Finished, Action::Stop),
    }
}

} // verus!
