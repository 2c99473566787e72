//! The commands that go to the audio server, and the dispatcher that builds
//! the mutating ones from what the user asks for.
//!
//! A command is a value. Carrying it to the server is the caller's part: one
//! round trip for each command, with no retry. The dispatcher neither waits
//! for an effect nor looks at the snapshot: the next refresh shows what came
//! of a command.

use crate::model::{Snapshot, SnapshotView};
use crate::text::{decimal, decimal_string};
use vstd::prelude::*;
use vstd::string::StringExecFns;

verus! {

/// A read-only question to the audio server.
#[derive(Clone, Copy, Debug, PartialEq, Eq, Structural)]
pub enum Query {
    /// The name of the default sink, as plain text.
    DefaultSink,
    /// The list of sinks.
    Sinks,
    /// The list of streams.
    SinkInputs,
}

/// Why a round trip to the audio server gave no answer.
#[derive(Clone, Copy, Debug, PartialEq, Eq, Structural)]
pub enum TransportError {
    /// The tool that talks to the server is missing or cannot be run.
    Unavailable,
    /// The round trip was made and failed, or ran out of time.
    Failed,
}

/// How one run of the tool that talks to the audio server ended.
#[derive(Clone, Copy, Debug, PartialEq, Eq, Structural)]
pub enum Completion {
    /// The tool is missing or could not be started.
    NotStarted,
    /// The tool did not end within the time allowed.
    TimedOut,
    /// The tool ended, with success or with a failure code.
    Exited { success: bool },
}

impl Completion {
    /// The failure that a run stands for, if it is one.
    pub open spec fn error(self) -> Option<TransportError> {
        match self {
            Completion::NotStarted => Some(TransportError::Unavailable),
            Completion::TimedOut => Some(TransportError::Failed),
            Completion::Exited { success } => if success {
                None
            } else {
                Some(TransportError::Failed)
            },
        }
    }
}

/// The answer to a query: the output of a run that ended with success, and
/// the failure for every other run, whatever it printed.
pub fn query_outcome(completion: Completion, output: Vec<u8>) -> (r: Result<
    Vec<u8>,
    TransportError,
>)
    ensures
        r == (match completion.error() {
            Some(e) => Err::<Vec<u8>, TransportError>(e),
            None => Ok(output),
        }),
{
    match completion {
        Completion::NotStarted => Err(TransportError::Unavailable),
        Completion::TimedOut => Err(TransportError::Failed),
        Completion::Exited { success } => if success {
            Ok(output)
        } else {
            Err(TransportError::Failed)
        },
    }
}

/// The result of a command that changes the server: done where the run ended
/// with success, and the failure for every other run. A failure says that
/// the change did not reach the server; nothing is tried again.
pub fn mutation_outcome(completion: Completion) -> (r: Result<(), TransportError>)
    ensures
        r == (match completion.error() {
            Some(e) => Err::<(), TransportError>(e),
            None => Ok(()),
        }),
{
    match completion {
        Completion::NotStarted => Err(TransportError::Unavailable),
        Completion::TimedOut => Err(TransportError::Failed),
        Completion::Exited { success } => if success {
            Ok(())
        } else {
            Err(TransportError::Failed)
        },
    }
}

/// The lowest volume that can be asked for, in percent.
pub const MIN_VOLUME_PERCENT: i64 = 0;

/// The highest volume that can be asked for, in percent.
pub const MAX_VOLUME_PERCENT: i64 = 150;

/// The sink that a stream is moved to: by its identifier or by its name.
#[derive(Debug, PartialEq, Eq)]
pub enum SinkTarget {
    Id(i64),
    Name(String),
}

/// What a [`SinkTarget`] holds.
pub enum SinkTargetView {
    Id(i64),
    Name(Seq<char>),
}

impl View for SinkTarget {
    type V = SinkTargetView;

    open spec fn view(&self) -> SinkTargetView {
        match *self {
            SinkTarget::Id(id) => SinkTargetView::Id(id),
            SinkTarget::Name(name) => SinkTargetView::Name(name@),
        }
    }
}

/// A change asked of the audio server.
#[derive(Debug, PartialEq, Eq)]
pub enum Mutation {
    /// Make the sink of this name the default one.
    SetDefaultSink { name: String },
    /// Set the volume of a stream, in percent.
    SetVolume { stream_id: i64, percent: u8 },
    /// Mute or unmute a stream.
    SetMute { stream_id: i64, muted: bool },
    /// Play a stream on another sink.
    MoveStream { stream_id: i64, target: SinkTarget },
}

/// What a [`Mutation`] holds.
pub enum MutationView {
    SetDefaultSink { name: Seq<char> },
    SetVolume { stream_id: i64, percent: u8 },
    SetMute { stream_id: i64, muted: bool },
    MoveStream { stream_id: i64, target: SinkTargetView },
}

impl View for Mutation {
    type V = MutationView;

    open spec fn view(&self) -> MutationView {
        match *self {
            Mutation::SetDefaultSink { name } => MutationView::SetDefaultSink { name: name@ },
            Mutation::SetVolume { stream_id, percent } => MutationView::SetVolume {
                stream_id,
                percent,
            },
            Mutation::SetMute { stream_id, muted } => MutationView::SetMute { stream_id, muted },
            Mutation::MoveStream { stream_id, target } => MutationView::MoveStream {
                stream_id,
                target: target@,
            },
        }
    }
}

impl MutationView {
    /// Whether the command refers to something that a snapshot does not
    /// hold: a stream or a sink by an identifier, or a sink by a name, that
    /// is not there.
    pub open spec fn stale_in(self, snapshot: SnapshotView) -> bool {
        match self {
            MutationView::SetDefaultSink { name } => !snapshot.has_sink_named(name),
            MutationView::SetVolume { stream_id, .. } => !snapshot.has_stream(stream_id),
            MutationView::SetMute { stream_id, .. } => !snapshot.has_stream(stream_id),
            MutationView::MoveStream { stream_id, target } => !snapshot.has_stream(stream_id)
                || match target {
                SinkTargetView::Id(id) => !snapshot.has_sink(id),
                SinkTargetView::Name(name) => !snapshot.has_sink_named(name),
            },
        }
    }
}

impl Mutation {
    /// Whether the command refers to something that the snapshot does not
    /// hold. No command is held back on this account: the test is for the
    /// snapshot of the refresh after the command, to tell why a change did
    /// not show.
    pub fn is_stale_in(&self, snapshot: &Snapshot) -> (r: bool)
        ensures
            r == self@.stale_in(snapshot@),
    {
        match self {
            Mutation::SetDefaultSink { name } => !snapshot.has_sink_named(name),
            Mutation::SetVolume { stream_id, .. } => !snapshot.has_stream(*stream_id),
            Mutation::SetMute { stream_id, .. } => !snapshot.has_stream(*stream_id),
            Mutation::MoveStream { stream_id, target } => !snapshot.has_stream(*stream_id)
                || match target {
                SinkTarget::Id(id) => !snapshot.has_sink(*id),
                SinkTarget::Name(name) => !snapshot.has_sink_named(name),
            },
        }
    }
}

/// The percentage within the range of volumes that is nearest to `percent`.
pub open spec fn clamp_percent(percent: int) -> int {
    if percent < MIN_VOLUME_PERCENT {
        MIN_VOLUME_PERCENT as int
    } else if percent > MAX_VOLUME_PERCENT {
        MAX_VOLUME_PERCENT as int
    } else {
        percent
    }
}

/// Sets the volume of a stream. A percentage outside the range of volumes is
/// brought to its nearest end, never refused.
pub fn set_volume(stream_id: i64, percent: i64) -> (r: Mutation)
    ensures
        r@ == (MutationView::SetVolume {
            stream_id,
            percent: clamp_percent(percent as int) as u8,
        }),
        r matches Mutation::SetVolume { percent: p, .. } && MIN_VOLUME_PERCENT <= p
            <= MAX_VOLUME_PERCENT,
{
    let clamped: u8 = if percent < MIN_VOLUME_PERCENT {
        0
    } else if percent > MAX_VOLUME_PERCENT {
        150
    } else {
        percent as u8
    };
    Mutation::SetVolume { stream_id, percent: clamped }
}

/// Sets the mute state of a stream to the state given, whatever it is now.
pub fn set_mute(stream_id: i64, muted: bool) -> (r: Mutation)
    ensures
        r@ == (MutationView::SetMute { stream_id, muted }),
{
    Mutation::SetMute { stream_id, muted }
}

/// Moves a stream to the sink `target`, named by its identifier or by its
/// name. The target is taken as it is given: whether any snapshot still
/// holds that sink is not looked at.
pub fn move_stream(stream_id: i64, target: SinkTarget) -> (r: Mutation)
    ensures
        r@ == (MutationView::MoveStream { stream_id, target: target@ }),
{
    Mutation::MoveStream { stream_id, target }
}

/// Makes the sink of the given name the default one. A sink is named by its
/// stable name, never by its identifier.
pub fn set_default_sink(sink_name: &str) -> (r: Mutation)
    ensures
        r@ == (MutationView::SetDefaultSink { name: sink_name@ }),
{
    Mutation::SetDefaultSink { name: sink_name.to_owned() }
}

/// The words of a query on the command line of `pactl`, after the name of
/// the program.
pub open spec fn query_words(query: Query) -> Seq<Seq<char>> {
    match query {
        Query::DefaultSink => seq!["get-default-sink"@],
        Query::Sinks => seq!["-f"@, "json"@, "list"@, "sinks"@],
        Query::SinkInputs => seq!["-f"@, "json"@, "list"@, "sink-inputs"@],
    }
}

/// The word for a mute state: `1` for muted, `0` for not muted.
pub open spec fn mute_word(muted: bool) -> Seq<char> {
    if muted {
        "1"@
    } else {
        "0"@
    }
}

/// The word for the sink that a stream is moved to: the identifier in
/// decimal, or the name.
pub open spec fn target_word(target: SinkTargetView) -> Seq<char> {
    match target {
        SinkTargetView::Id(id) => decimal(id as int),
        SinkTargetView::Name(name) => name,
    }
}

/// The words of a command on the command line of `pactl`, after the name of
/// the program: the sub-command, then what it acts on, then the new value.
/// Identifiers stand in decimal, and a volume as its percentage in decimal
/// with a percent sign behind it.
pub open spec fn mutation_words(mutation: MutationView) -> Seq<Seq<char>> {
    match mutation {
        MutationView::SetDefaultSink { name } => seq!["set-default-sink"@, name],
        MutationView::SetVolume { stream_id, percent } => seq![
            "set-sink-input-volume"@,
            decimal(stream_id as int),
            decimal(percent as int) + "%"@,
        ],
        MutationView::SetMute { stream_id, muted } => seq![
            "set-sink-input-mute"@,
            decimal(stream_id as int),
            mute_word(muted),
        ],
        MutationView::MoveStream { stream_id, target } => seq![
            "move-sink-input"@,
            decimal(stream_id as int),
            target_word(target),
        ],
    }
}

/// What a list of words holds, in order.
pub open spec fn words_view(words: Seq<String>) -> Seq<Seq<char>> {
    words.map_values(|word: String| word@)
}

impl Query {
    /// The words of the query on the command line.
    pub fn words(self) -> (r: Vec<String>)
        ensures
            words_view(r@) == query_words(self),
    {
        let mut words: Vec<String> = Vec::new();
        match self {
            Query::DefaultSink => {
                words.push("get-default-sink".to_owned());
            },
            Query::Sinks => {
                words.push("-f".to_owned());
                words.push("json".to_owned());
                words.push("list".to_owned());
                words.push("sinks".to_owned());
            },
            Query::SinkInputs => {
                words.push("-f".to_owned());
                words.push("json".to_owned());
                words.push("list".to_owned());
                words.push("sink-inputs".to_owned());
            },
        }
        assert(words_view(words@) =~= query_words(self));
        words
    }
}

impl Mutation {
    /// The words of the command on the command line.
    pub fn words(&self) -> (r: Vec<String>)
        ensures
            words_view(r@) == mutation_words(self@),
    {
        let mut words: Vec<String> = Vec::new();
        match self {
            Mutation::SetDefaultSink { name } => {
                words.push("set-default-sink".to_owned());
                words.push(name.clone());
            },
            Mutation::SetVolume { stream_id, percent } => {
                let mut volume = decimal_string(*percent as i64);
                volume.append("%");
                words.push("set-sink-input-volume".to_owned());
                words.push(decimal_string(*stream_id));
                words.push(volume);
            },
            Mutation::SetMute { stream_id, muted } => {
                words.push("set-sink-input-mute".to_owned());
                words.push(decimal_string(*stream_id));
                words.push(
                    if *muted {
                        "1".to_owned()
                    } else {
                        "0".to_owned()
                    },
                );
            },
            Mutation::MoveStream { stream_id, target } => {
                words.push("move-sink-input".to_owned());
                words.push(decimal_string(*stream_id));
                words.push(
                    match target {
                        SinkTarget::Id(id) => decimal_string(*id),
                        SinkTarget::Name(name) => name.clone(),
                    },
                );
            },
        }
        assert(words_view(words@) =~= mutation_words(self@));
        words
    }
}

/// Clamping brings every percentage into the range of volumes, leaves one
/// that is in the range as it is, and takes one below or above the range to
/// the nearest end.
pub proof fn lemma_clamp_percent(percent: int)
    ensures
        MIN_VOLUME_PERCENT <= clamp_percent(percent) <= MAX_VOLUME_PERCENT,
        MIN_VOLUME_PERCENT <= percent <= MAX_VOLUME_PERCENT ==> clamp_percent(percent) == percent,
        percent < MIN_VOLUME_PERCENT ==> clamp_percent(percent) == MIN_VOLUME_PERCENT,
        percent > MAX_VOLUME_PERCENT ==> clamp_percent(percent) == MAX_VOLUME_PERCENT,
        clamp_percent(clamp_percent(percent)) == clamp_percent(percent),
{
}

/// A move is issued for the target given, and the snapshot has no say in
/// it: where the target sink is gone from a snapshot, the command to move
/// there is stale in that snapshot, and it is still the command that was
/// built.
pub proof fn lemma_move_to_missing_sink_is_stale(
    snapshot: SnapshotView,
    stream_id: i64,
    sink_id: i64,
    sink_name: Seq<char>,
)
    ensures
        !snapshot.has_sink(sink_id) ==> (MutationView::MoveStream {
            stream_id,
            target: SinkTargetView::Id(sink_id),
        }).stale_in(snapshot),
        !snapshot.has_sink_named(sink_name) ==> (MutationView::MoveStream {
            stream_id,
            target: SinkTargetView::Name(sink_name),
        }).stale_in(snapshot),
{
}

} // verus!
