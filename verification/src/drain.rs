//! Draining the worker's two output channels, one line at a time.
//!
//! Every line of either channel is forwarded to the log by the caller. Only
//! the lines of standard output are tested for a discovery line; standard
//! error has no protocol meaning. Where the worker announces a port more than
//! once, the last announcement stands.

use vstd::prelude::*;
use vstd::string::StringSliceAdditionalSpecFns;
use crate::discovery::{
    discovery_port, is_ordinary_line, lemma_port_line_is_discovered, parse_discovery_line,
    port_line,
};
use crate::registry::{NotReady, SidecarState};

verus! {

/// One of the worker's two output channels.
#[derive(Clone, Copy, Debug, PartialEq, Eq, Structural)]
pub enum Channel {
    /// Standard output, on which the port is announced.
    Stdout,
    /// Standard error, which is drained and never read for meaning.
    Stderr,
}

/// The port that a line of the given channel announces, if any.
pub open spec fn announced_port(channel: Channel, line: Seq<u8>) -> Option<u16> {
    match channel {
        Channel::Stdout => discovery_port(line),
        Channel::Stderr => None,
    }
}

/// The registry after a line of the given channel was drained into it.
pub open spec fn state_after_line(
    channel: Channel,
    state: SidecarState,
    line: Seq<u8>,
) -> SidecarState {
    match announced_port(channel, line) {
        Some(port) => SidecarState { port: Some(port) },
        None => state,
    }
}

/// The registry after the given lines were drained into it, the first of
/// them first. Each line comes with the channel it was read from.
pub open spec fn state_after_lines(
    state: SidecarState,
    lines: Seq<(Channel, Seq<u8>)>,
) -> SidecarState
    decreases lines.len(),
{
    if lines.len() == 0 {
        state
    } else {
        state_after_line(
            lines.last().0,
            state_after_lines(state, lines.drop_last()),
            lines.last().1,
        )
    }
}

/// Drains one line, given without its line ending, into the registry.
///
/// Returns the port that the line announced, for the caller to log. The
/// registry is written exactly when a port is returned.
pub fn drain_line(channel: Channel, state: &mut SidecarState, line: &str) -> (discovered: Option<
    u16,
>)
    ensures
        discovered == announced_port(channel, line.spec_bytes()),
        *final(state) == state_after_line(channel, *old(state), line.spec_bytes()),
{
    match channel {
        Channel::Stderr => None,
        Channel::Stdout => {
            let discovered = parse_discovery_line(line);
            if let Some(port) = discovered {
                state.set(port);
            }
            discovered
        },
    }
}

/// Whether none of the lines announces a port.
pub open spec fn announce_nothing(lines: Seq<(Channel, Seq<u8>)>) -> bool {
    forall|i: int| 0 <= i < lines.len() ==> announced_port(
        (#[trigger] lines[i]).0,
        lines[i].1,
    ) is None
}

/// After the line that announces a port is drained from standard output,
/// the registry reads as that port, whatever it held before.
pub proof fn lemma_announced_port_is_read(state: SidecarState, port: u16)
    ensures
        state_after_line(Channel::Stdout, state, port_line(port)).reading() == Ok::<u16, NotReady>(
            port,
        ),
{
    lemma_port_line_is_discovered(port);
}

/// A line of standard output that is no discovery line leaves the registry
/// as it was.
pub proof fn lemma_ordinary_line_keeps_registry(state: SidecarState, line: Seq<u8>)
    requires
        is_ordinary_line(line),
    ensures
        state_after_line(Channel::Stdout, state, line) == state,
{
}

/// A line of standard error leaves the registry as it was, whatever it says.
pub proof fn lemma_stderr_keeps_registry(state: SidecarState, line: Seq<u8>)
    ensures
        state_after_line(Channel::Stderr, state, line) == state,
{
}

/// Draining lines one after another is draining them all.
pub proof fn lemma_drain_in_two_parts(
    state: SidecarState,
    first: Seq<(Channel, Seq<u8>)>,
    second: Seq<(Channel, Seq<u8>)>,
)
    ensures
        state_after_lines(state, first + second) == state_after_lines(
            state_after_lines(state, first),
            second,
        ),
    decreases second.len(),
{
    if second.len() == 0 {
        assert(first + second =~= first);
    } else {
        lemma_drain_in_two_parts(state, first, second.drop_last());
        assert((first + second).drop_last() =~= first + second.drop_last());
        assert((first + second).last() == second.last());
    }
}

/// Lines that announce nothing leave the registry as it was. A worker that
/// never announces a port leaves it not ready for good.
pub proof fn lemma_quiet_lines_keep_registry(state: SidecarState, lines: Seq<(Channel, Seq<u8>)>)
    requires
        announce_nothing(lines),
    ensures
        state_after_lines(state, lines) == state,
    decreases lines.len(),
{
    if lines.len() > 0 {
        let front = lines.drop_last();
        assert forall|i: int| 0 <= i < front.len() implies announced_port(
            (#[trigger] front[i]).0,
            front[i].1,
        ) is None by {
            assert(front[i] == lines[i]);
        }
        lemma_quiet_lines_keep_registry(state, front);
        assert(announced_port(lines[lines.len() - 1].0, lines[lines.len() - 1].1) is None);
    }
}

/// Draining never empties the registry: a port, once recorded, is replaced
/// by a later port at most.
pub proof fn lemma_recorded_port_stays(state: SidecarState, lines: Seq<(Channel, Seq<u8>)>)
    requires
        state.port is Some,
    ensures
        state_after_lines(state, lines).port is Some,
    decreases lines.len(),
{
    if lines.len() > 0 {
        lemma_recorded_port_stays(state, lines.drop_last());
    }
}

/// Once the announcement of a port is drained from standard output, the
/// registry reads as that port after any number of further lines on either
/// channel that announce nothing, and whatever was drained before.
pub proof fn lemma_port_outlasts_quiet_lines(
    state: SidecarState,
    before: Seq<(Channel, Seq<u8>)>,
    port: u16,
    after: Seq<(Channel, Seq<u8>)>,
)
    requires
        announce_nothing(after),
    ensures
        state_after_lines(
            state,
            before.push((Channel::Stdout, port_line(port))) + after,
        ).reading() == Ok::<u16, NotReady>(port),
{
    let upto = before.push((Channel::Stdout, port_line(port)));
    lemma_drain_in_two_parts(state, upto, after);
    lemma_quiet_lines_keep_registry(state_after_lines(state, upto), after);
    assert(upto.drop_last() =~= before);
    lemma_announced_port_is_read(state_after_lines(state, before), port);
}

} // verus!
