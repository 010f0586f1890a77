//! Properties of the tokenizer and of the lifecycle of a message, proved over
//! the specifications of `tokenizer` and `pipeline`.
use vstd::prelude::*;
use crate::pipeline::{next, run, start, trace, ActionView, CommandResult, Event, StageView};
use crate::registry::CommandRegistry;
use crate::text::{is_space, lower, occurs_at};
use crate::tokenizer::{
    delim_len_from, delimiter_seqs, name_end, sep_len, skip_seps, skip_spaces, tokens,
    trim_end_at, TokenizerConfig,
};

verus! {

proof fn no_delimiter_here(s: Seq<char>, ds: Seq<Seq<char>>, i: int, j: int)
    requires
        0 <= j,
        forall|d: int, k: int| 0 <= d < ds.len() && ds[d].len() > 0 ==> !#[trigger] occurs_at(s, ds[d], k),
    ensures
        delim_len_from(s, ds, i, j) == 0,
    decreases ds.len() - j,
{
    if j < ds.len() {
        no_delimiter_here(s, ds, i, j + 1);
    }
}

proof fn name_runs_to_end(s: Seq<char>, ds: Seq<Seq<char>>, i: int)
    requires
        0 <= i <= s.len(),
        forall|k: int| i <= k < s.len() ==> #[trigger] sep_len(s, ds, k) == 0,
    ensures
        name_end(s, ds, i) == s.len(),
    decreases s.len() - i,
{
    if i < s.len() {
        name_runs_to_end(s, ds, i + 1);
    }
}

/// A message made of the prefix and a name holding no separator (no whitespace,
/// no delimiter) and no upper-case letter tokenizes to that name and an empty
/// argument tail.
pub proof fn bare_name_has_no_arguments(config: TokenizerConfig, name: Seq<char>)
    requires
        forall|i: int| 0 <= i < name.len() ==> !is_space(#[trigger] name[i]),
        forall|d: int, k: int|
            0 <= d < delimiter_seqs(config.delimiters@).len() && delimiter_seqs(
                config.delimiters@,
            )[d].len() > 0 ==> !#[trigger] occurs_at(name, delimiter_seqs(config.delimiters@)[d], k),
        lower(name) == name,
    ensures
        tokens(config, config.prefix@ + name) == Some((name, Seq::<char>::empty())),
{
    let p = config.prefix@;
    let ds = delimiter_seqs(config.delimiters@);
    let t = p + name;
    assert(t.subrange(0, p.len() as int) =~= p);
    let r = t.subrange(p.len() as int, t.len() as int);
    assert(r =~= name);
    assert forall|k: int| 0 <= k < name.len() implies #[trigger] sep_len(name, ds, k) == 0 by {
        no_delimiter_here(name, ds, k, 0);
    }
    name_runs_to_end(name, ds, 0);
    assert(skip_spaces(name, 0) == 0);
    assert(skip_seps(name, ds, name.len() as int) == name.len());
    assert(trim_end_at(name, name.len() as int, name.len() as int) == name.len());
    assert(name.subrange(0, name.len() as int) =~= name);
    assert(name.subrange(name.len() as int, name.len() as int) =~= Seq::<char>::empty());
}

/// Once a message is finished, every later event leads to no action.
pub proof fn finished_stays_silent(reg: CommandRegistry, events: Seq<Event>)
    ensures
        run(reg, StageView::Finished, events).len() == events.len(),
        forall|k: int|
            0 <= k < events.len() ==> #[trigger] run(reg, StageView::Finished, events)[k]
                == ActionView::Stop,
    decreases events.len(),
{
    if events.len() > 0 {
        finished_stays_silent(reg, events.drop_first());
        let rest = run(reg, StageView::Finished, events.drop_first());
        assert forall|k: int| 0 <= k < events.len() implies #[trigger] run(
            reg,
            StageView::Finished,
            events,
        )[k] == ActionView::Stop by {
            if k > 0 {
                assert(run(reg, StageView::Finished, events)[k] == rest[k - 1]);
            }
        }
    }
}

/// A message that does not start with the prefix is no command: the tokenizer
/// gives `None`, the normal-message hook runs, and nothing else happens.
pub proof fn plain_text_reaches_only_the_normal_hook(
    config: TokenizerConfig,
    reg: CommandRegistry,
    t: Seq<char>,
    events: Seq<Event>,
)
    requires
        !occurs_at(t, config.prefix@, 0),
    ensures
        tokens(config, t) is None,
        trace(config, reg, t, events).len() == events.len() + 1,
        trace(config, reg, t, events)[0] == ActionView::InvokeNormal,
        forall|k: int|
            1 <= k < trace(config, reg, t, events).len() ==> #[trigger] trace(
                config,
                reg,
                t,
                events,
            )[k] == ActionView::Stop,
{
    finished_stays_silent(reg, events);
    let tr = trace(config, reg, t, events);
    assert forall|k: int| 1 <= k < tr.len() implies #[trigger] tr[k] == ActionView::Stop by {
        assert(tr[k] == run(reg, StageView::Finished, events)[k - 1]);
    }
}

/// When the before-hook refuses a command, neither its handler nor the after-hook runs.
pub proof fn veto_stops_dispatch(
    config: TokenizerConfig,
    reg: CommandRegistry,
    t: Seq<char>,
    events: Seq<Event>,
)
    requires
        tokens(config, t) is Some,
        events.len() >= 1,
        events[0] == Event::BeforeReturned(false),
    ensures
        forall|k: int|
            0 <= k < trace(config, reg, t, events).len() ==> !(#[trigger] trace(
                config,
                reg,
                t,
                events,
            )[k] is RunHandler) && !(trace(config, reg, t, events)[k] is InvokeAfter),
{
    let rest = events.drop_first();
    finished_stays_silent(reg, rest);
    let tr = trace(config, reg, t, events);
    assert forall|k: int| 0 <= k < tr.len() implies !(#[trigger] tr[k] is RunHandler) && !(
    tr[k] is InvokeAfter) by {
        if k >= 2 {
            assert(tr[k] == run(reg, StageView::Finished, rest)[k - 2]);
        }
    }
}

/// A command whose name no registered command answers to reaches the
/// unknown-command hook exactly once, and never the handler or the after-hook.
pub proof fn unknown_command_reported_once(
    config: TokenizerConfig,
    reg: CommandRegistry,
    t: Seq<char>,
    events: Seq<Event>,
)
    requires
        tokens(config, t) is Some,
        reg.resolve(lower(tokens(config, t).unwrap().0)) is None,
        events.len() >= 1,
        events[0] == Event::BeforeReturned(true),
    ensures
        trace(config, reg, t, events)[1] == (ActionView::InvokeUnknown {
            name: tokens(config, t).unwrap().0,
        }),
        forall|k: int|
            0 <= k < trace(config, reg, t, events).len() && k != 1 ==> !(#[trigger] trace(
                config,
                reg,
                t,
                events,
            )[k] is InvokeUnknown),
        forall|k: int|
            0 <= k < trace(config, reg, t, events).len() ==> !(#[trigger] trace(
                config,
                reg,
                t,
                events,
            )[k] is InvokeAfter) && !(trace(config, reg, t, events)[k] is RunHandler),
{
    let rest = events.drop_first();
    finished_stays_silent(reg, rest);
    let tr = trace(config, reg, t, events);
    assert forall|k: int| 0 <= k < tr.len() implies (k != 1 ==> !(#[trigger] tr[k] is InvokeUnknown))
        && !(tr[k] is InvokeAfter) && !(tr[k] is RunHandler) by {
        if k >= 2 {
            assert(tr[k] == run(reg, StageView::Finished, rest)[k - 2]);
        }
    }
}

/// A command that resolves and is allowed runs its handler with its argument
/// tail, and the after-hook runs exactly once, with the result the handler returned.
pub proof fn after_hook_reports_handler_result(
    config: TokenizerConfig,
    reg: CommandRegistry,
    t: Seq<char>,
    result: CommandResult,
    events: Seq<Event>,
)
    requires
        tokens(config, t) is Some,
        reg.resolve(lower(tokens(config, t).unwrap().0)) is Some,
        events.len() >= 2,
        events[0] == Event::BeforeReturned(true),
        events[1] == Event::HandlerReturned(result),
    ensures
        trace(config, reg, t, events)[1] == (ActionView::RunHandler {
            command: reg.resolve(lower(tokens(config, t).unwrap().0)).unwrap(),
            args: tokens(config, t).unwrap().1,
        }),
        trace(config, reg, t, events)[2] == (ActionView::InvokeAfter {
            name: tokens(config, t).unwrap().0,
            result,
        }),
        forall|k: int|
            0 <= k < trace(config, reg, t, events).len() && k != 2 ==> !(#[trigger] trace(
                config,
                reg,
                t,
                events,
            )[k] is InvokeAfter),
{
    let rest = events.drop_first();
    let rest2 = rest.drop_first();
    assert(rest[0] == events[1]);
    finished_stays_silent(reg, rest2);
    let tr = trace(config, reg, t, events);
    let (s1, a1) = next(reg, start(config, t).0, events[0]);
    assert(run(reg, s1, rest) == seq![next(reg, s1, rest[0]).1] + run(
        reg,
        StageView::Finished,
        rest2,
    ));
    assert forall|k: int| 0 <= k < tr.len() && k != 2 implies !(#[trigger] tr[k] is InvokeAfter) by {
        if k >= 3 {
            assert(tr[k] == run(reg, StageView::Finished, rest2)[k - 3]);
        }
    }
}

} // verus!
