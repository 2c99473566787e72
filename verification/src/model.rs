//! The entities that the audio server reports, and the snapshot that pairs
//! them at one instant.

use vstd::prelude::*;

verus! {

/// An audio output device.
#[derive(Debug, PartialEq, Eq)]
pub struct Sink {
    /// Identifier that the server assigned; `-1` where none could be read.
    pub id: i64,
    /// Stable machine name, by which a default sink is chosen.
    pub name: String,
    /// Label for people.
    pub description: String,
}

/// What a [`Sink`] holds.
pub struct SinkView {
    pub id: i64,
    pub name: Seq<char>,
    pub description: Seq<char>,
}

impl View for Sink {
    type V = SinkView;

    open spec fn view(&self) -> SinkView {
        SinkView { id: self.id, name: self.name@, description: self.description@ }
    }
}

impl Clone for Sink {
    fn clone(&self) -> (r: Self)
        ensures
            r == *self,
    {
        Sink { id: self.id, name: self.name.clone(), description: self.description.clone() }
    }
}

impl Sink {
    /// Whether two sinks hold the same.
    pub fn same_as(&self, other: &Sink) -> (r: bool)
        ensures
            r == (self@ == other@),
    {
        let same = self.id == other.id && self.name == other.name && self.description
            == other.description;
        assert(self@ == other@ ==> self.name@ == other.name@ && self.description@
            == other.description@);
        same
    }
}

/// The percentage that one channel reports, exactly as the server gave it.
#[derive(Clone, Copy, Debug, PartialEq, Eq, Structural)]
pub enum Reading {
    /// A whole number within `i64`.
    Whole(i64),
    /// A whole number above `i64`.
    Large(u64),
    /// A floating-point number, by the bits of its binary64 form.
    Binary64(u64),
}

/// The volume of a stream: what is needed for the mean of its channels'
/// percentages, kept exactly. The whole percentages within `i64`, which are
/// the rule, are kept as their sum and their number. Every other percentage
/// is kept as it is, in the order of the channels. A stream without any
/// reading is silent. 100 percent is unity gain.
#[derive(Debug, PartialEq, Eq)]
pub struct Volume {
    /// Sum of the whole percentages.
    pub total: i128,
    /// Number of the whole percentages.
    pub channels: usize,
    /// The percentages that are no whole number within `i64`.
    pub other: Vec<Reading>,
}

/// What a [`Volume`] holds.
pub struct VolumeView {
    pub total: int,
    pub channels: nat,
    pub other: Seq<Reading>,
}

impl View for Volume {
    type V = VolumeView;

    open spec fn view(&self) -> VolumeView {
        VolumeView {
            total: self.total as int,
            channels: self.channels as nat,
            other: self.other@,
        }
    }
}

impl VolumeView {
    /// The volume of a stream that reports no channel.
    pub open spec fn silent() -> VolumeView {
        VolumeView { total: 0, channels: 0, other: Seq::empty() }
    }

    /// The volume with one more channel, which reads `reading`.
    pub open spec fn with(self, reading: Reading) -> VolumeView {
        match reading {
            Reading::Whole(percent) => VolumeView {
                total: self.total + percent,
                channels: self.channels + 1,
                other: self.other,
            },
            _ => VolumeView { other: self.other.push(reading), ..self },
        }
    }

    /// The number of channels that report a percentage.
    pub open spec fn readings(self) -> nat {
        self.channels + self.other.len()
    }

    /// Whether every percentage is a whole number within `i64` and their mean
    /// is exactly `percent`. The mean of no reading is zero.
    pub open spec fn mean_is(self, percent: int) -> bool {
        &&& self.other.len() == 0
        &&& if self.channels == 0 {
            percent == 0
        } else {
            self.total == percent * self.channels
        }
    }
}

/// A copy of a list of readings.
pub fn copy_readings(readings: &Vec<Reading>) -> (r: Vec<Reading>)
    ensures
        r@ == readings@,
{
    let mut out: Vec<Reading> = Vec::new();
    let mut i: usize = 0;
    while i < readings.len()
        invariant
            i <= readings.len(),
            out@ == readings@.take(i as int),
        decreases readings.len() - i,
    {
        out.push(readings[i]);
        i += 1;
    }
    out
}

/// Whether two lists of readings hold the same, in the same order.
pub fn same_readings(a: &Vec<Reading>, b: &Vec<Reading>) -> (r: bool)
    ensures
        r == (a@ == b@),
{
    if a.len() != b.len() {
        return false;
    }
    let mut i: usize = 0;
    while i < a.len()
        invariant
            i <= a.len(),
            a.len() == b.len(),
            forall|k: int| 0 <= k < i ==> a@[k] == b@[k],
        decreases a.len() - i,
    {
        if a[i] != b[i] {
            return false;
        }
        i += 1;
    }
    assert(a@ =~= b@);
    true
}

impl Volume {
    /// The sum lies within as many times the range of an `i64` as it has
    /// terms, and the list of the other percentages holds no whole number
    /// within `i64`.
    pub open spec fn wf(self) -> bool {
        &&& i64::MIN * self.channels <= self.total <= i64::MAX * self.channels
        &&& forall|k: int| 0 <= k < self.other@.len() ==> !(#[trigger] self.other@[k] is Whole)
    }

    /// The volume of a stream that reports no channel.
    pub fn silent() -> (r: Volume)
        ensures
            r@ == VolumeView::silent(),
            r.wf(),
    {
        let r = Volume { total: 0, channels: 0, other: Vec::new() };
        assert(r@.other =~= Seq::empty());
        r
    }

    /// The volume with one more channel, which reads `reading`.
    pub fn with_reading(self, reading: Reading) -> (r: Volume)
        requires
            self.wf(),
            self.channels < usize::MAX,
        ensures
            r@ == self@.with(reading),
            r.wf(),
    {
        let mut volume = self;
        match reading {
            Reading::Whole(percent) => {
                volume.total = volume.total + percent as i128;
                volume.channels = volume.channels + 1;
            },
            _ => {
                volume.other.push(reading);
            },
        }
        volume
    }

    /// Whether two volumes hold the same.
    pub fn same_as(&self, other: &Volume) -> (r: bool)
        ensures
            r == (self@ == other@),
    {
        self.total == other.total && self.channels == other.channels && same_readings(
            &self.other,
            &other.other,
        )
    }
}

impl Clone for Volume {
    fn clone(&self) -> (r: Self)
        ensures
            r@ == self@,
            r.wf() == self.wf(),
    {
        Volume { total: self.total, channels: self.channels, other: copy_readings(&self.other) }
    }
}

/// One application's playback stream.
#[derive(Debug, PartialEq, Eq)]
pub struct SinkInput {
    /// Identifier that the server assigned; `-1` where none could be read.
    pub id: i64,
    /// The sink that plays this stream. It may name a sink that the snapshot
    /// does not hold.
    pub sink_id: i64,
    pub app_name: String,
    pub media_name: String,
    pub volume: Volume,
    pub muted: bool,
}

/// What a [`SinkInput`] holds.
pub struct SinkInputView {
    pub id: i64,
    pub sink_id: i64,
    pub app_name: Seq<char>,
    pub media_name: Seq<char>,
    pub volume: VolumeView,
    pub muted: bool,
}

impl View for SinkInput {
    type V = SinkInputView;

    open spec fn view(&self) -> SinkInputView {
        SinkInputView {
            id: self.id,
            sink_id: self.sink_id,
            app_name: self.app_name@,
            media_name: self.media_name@,
            volume: self.volume@,
            muted: self.muted,
        }
    }
}

impl Clone for SinkInput {
    fn clone(&self) -> (r: Self)
        ensures
            r@ == self@,
            r.volume.wf() == self.volume.wf(),
    {
        SinkInput {
            id: self.id,
            sink_id: self.sink_id,
            app_name: self.app_name.clone(),
            media_name: self.media_name.clone(),
            volume: self.volume.clone(),
            muted: self.muted,
        }
    }
}

impl SinkInput {
    /// Whether two streams hold the same.
    pub fn same_as(&self, other: &SinkInput) -> (r: bool)
        ensures
            r == (self@ == other@),
    {
        let same = self.id == other.id && self.sink_id == other.sink_id && self.app_name
            == other.app_name && self.media_name == other.media_name && self.volume.same_as(
            &other.volume,
        ) && self.muted == other.muted;
        assert(self@ == other@ ==> self.app_name@ == other.app_name@ && self.media_name@
            == other.media_name@ && self.volume@ == other.volume@);
        same
    }
}

/// What a sequence of sinks holds, in order.
pub open spec fn sinks_view(sinks: Seq<Sink>) -> Seq<SinkView> {
    sinks.map_values(|s: Sink| s@)
}

/// What a sequence of streams holds, in order.
pub open spec fn sink_inputs_view(inputs: Seq<SinkInput>) -> Seq<SinkInputView> {
    inputs.map_values(|s: SinkInput| s@)
}

/// What an optional name holds.
pub open spec fn name_view(name: Option<String>) -> Option<Seq<char>> {
    match name {
        Some(s) => Some(s@),
        None => None,
    }
}

/// The state of the audio server at one instant: the name of the default
/// sink, the sinks and the streams, each list in the order of the server's
/// report.
#[derive(Debug, PartialEq, Eq)]
pub struct Snapshot {
    pub default_sink_name: Option<String>,
    pub sinks: Vec<Sink>,
    pub sink_inputs: Vec<SinkInput>,
}

/// What a [`Snapshot`] holds.
pub struct SnapshotView {
    pub default_sink_name: Option<Seq<char>>,
    pub sinks: Seq<SinkView>,
    pub sink_inputs: Seq<SinkInputView>,
}

impl View for Snapshot {
    type V = SnapshotView;

    open spec fn view(&self) -> SnapshotView {
        SnapshotView {
            default_sink_name: name_view(self.default_sink_name),
            sinks: sinks_view(self.sinks@),
            sink_inputs: sink_inputs_view(self.sink_inputs@),
        }
    }
}

impl SnapshotView {
    /// Whether the snapshot holds a sink with this identifier.
    pub open spec fn has_sink(self, id: i64) -> bool {
        exists|i: int| 0 <= i < self.sinks.len() && (#[trigger] self.sinks[i]).id == id
    }

    /// Whether the snapshot holds a sink with this name.
    pub open spec fn has_sink_named(self, name: Seq<char>) -> bool {
        exists|i: int| 0 <= i < self.sinks.len() && (#[trigger] self.sinks[i]).name == name
    }

    /// Whether the snapshot holds a stream with this identifier.
    pub open spec fn has_stream(self, id: i64) -> bool {
        exists|i: int| 0 <= i < self.sink_inputs.len() && (#[trigger] self.sink_inputs[i]).id == id
    }

    /// The snapshot that holds nothing.
    pub open spec fn empty() -> SnapshotView {
        SnapshotView { default_sink_name: None, sinks: Seq::empty(), sink_inputs: Seq::empty() }
    }
}

/// A copy of an optional name.
pub fn copy_name(name: &Option<String>) -> (r: Option<String>)
    ensures
        r == *name,
{
    match name {
        Some(s) => Some(s.clone()),
        None => None,
    }
}

/// A copy of a list of sinks.
pub fn copy_sinks(sinks: &Vec<Sink>) -> (r: Vec<Sink>)
    ensures
        r@ == sinks@,
{
    let mut out: Vec<Sink> = Vec::new();
    let mut i: usize = 0;
    while i < sinks.len()
        invariant
            i <= sinks.len(),
            out@ == sinks@.take(i as int),
        decreases sinks.len() - i,
    {
        out.push(sinks[i].clone());
        i += 1;
    }
    out
}

/// A copy of a list of streams.
pub fn copy_sink_inputs(inputs: &Vec<SinkInput>) -> (r: Vec<SinkInput>)
    ensures
        sink_inputs_view(r@) == sink_inputs_view(inputs@),
{
    let mut out: Vec<SinkInput> = Vec::new();
    let mut i: usize = 0;
    while i < inputs.len()
        invariant
            i <= inputs.len(),
            out@.len() == i,
            forall|k: int| 0 <= k < i ==> (#[trigger] out@[k])@ == inputs@[k]@,
        decreases inputs.len() - i,
    {
        out.push(inputs[i].clone());
        i += 1;
    }
    assert(sink_inputs_view(out@) =~= sink_inputs_view(inputs@));
    out
}

/// Whether two optional names hold the same.
pub fn same_name(a: &Option<String>, b: &Option<String>) -> (r: bool)
    ensures
        r == (name_view(*a) == name_view(*b)),
{
    match a {
        Some(x) => match b {
            Some(y) => *x == *y,
            None => false,
        },
        None => b.is_none(),
    }
}

/// Whether two lists of sinks hold the same, in the same order.
pub fn same_sinks(a: &Vec<Sink>, b: &Vec<Sink>) -> (r: bool)
    ensures
        r == (sinks_view(a@) == sinks_view(b@)),
{
    if a.len() != b.len() {
        assert(sinks_view(a@).len() != sinks_view(b@).len());
        return false;
    }
    let mut i: usize = 0;
    while i < a.len()
        invariant
            i <= a.len(),
            a.len() == b.len(),
            forall|k: int| 0 <= k < i ==> (#[trigger] a@[k])@ == b@[k]@,
        decreases a.len() - i,
    {
        if !a[i].same_as(&b[i]) {
            assert(sinks_view(a@)[i as int] != sinks_view(b@)[i as int]);
            return false;
        }
        i += 1;
    }
    assert(sinks_view(a@) =~= sinks_view(b@));
    true
}

/// Whether two lists of streams hold the same, in the same order.
pub fn same_sink_inputs(a: &Vec<SinkInput>, b: &Vec<SinkInput>) -> (r: bool)
    ensures
        r == (sink_inputs_view(a@) == sink_inputs_view(b@)),
{
    if a.len() != b.len() {
        assert(sink_inputs_view(a@).len() != sink_inputs_view(b@).len());
        return false;
    }
    let mut i: usize = 0;
    while i < a.len()
        invariant
            i <= a.len(),
            a.len() == b.len(),
            forall|k: int| 0 <= k < i ==> (#[trigger] a@[k])@ == b@[k]@,
        decreases a.len() - i,
    {
        if !a[i].same_as(&b[i]) {
            assert(sink_inputs_view(a@)[i as int] != sink_inputs_view(b@)[i as int]);
            return false;
        }
        i += 1;
    }
    assert(sink_inputs_view(a@) =~= sink_inputs_view(b@));
    true
}

impl Snapshot {
    /// Whether two snapshots hold the same: the change detection between the
    /// snapshot before a commit and the one after it.
    pub fn same_as(&self, other: &Snapshot) -> (r: bool)
        ensures
            r == (self@ == other@),
    {
        same_name(&self.default_sink_name, &other.default_sink_name) && same_sinks(
            &self.sinks,
            &other.sinks,
        ) && same_sink_inputs(&self.sink_inputs, &other.sink_inputs)
    }

    /// Whether the snapshot holds a sink with this identifier.
    pub fn has_sink(&self, id: i64) -> (r: bool)
        ensures
            r == self@.has_sink(id),
    {
        let mut i: usize = 0;
        while i < self.sinks.len()
            invariant
                i <= self.sinks.len(),
                forall|k: int| 0 <= k < i ==> (#[trigger] self@.sinks[k]).id != id,
            decreases self.sinks.len() - i,
        {
            if self.sinks[i].id == id {
                assert(self@.sinks[i as int].id == id);
                return true;
            }
            i += 1;
        }
        false
    }

    /// Whether the snapshot holds a sink with this name.
    pub fn has_sink_named(&self, name: &String) -> (r: bool)
        ensures
            r == self@.has_sink_named(name@),
    {
        let mut i: usize = 0;
        while i < self.sinks.len()
            invariant
                i <= self.sinks.len(),
                forall|k: int| 0 <= k < i ==> (#[trigger] self@.sinks[k]).name != name@,
            decreases self.sinks.len() - i,
        {
            if self.sinks[i].name == *name {
                assert(self@.sinks[i as int].name == name@);
                return true;
            }
            i += 1;
        }
        false
    }

    /// Whether the snapshot holds a stream with this identifier.
    pub fn has_stream(&self, id: i64) -> (r: bool)
        ensures
            r == self@.has_stream(id),
    {
        let mut i: usize = 0;
        while i < self.sink_inputs.len()
            invariant
                i <= self.sink_inputs.len(),
                forall|k: int| 0 <= k < i ==> (#[trigger] self@.sink_inputs[k]).id != id,
            decreases self.sink_inputs.len() - i,
        {
            if self.sink_inputs[i].id == id {
                assert(self@.sink_inputs[i as int].id == id);
                return true;
            }
            i += 1;
        }
        false
    }

    /// The snapshot that holds nothing: the state before the first refresh.
    pub fn empty() -> (r: Snapshot)
        ensures
            r@ == SnapshotView::empty(),
            r.default_sink_name is None,
            r.sinks@.len() == 0,
            r.sink_inputs@.len() == 0,
    {
        let r = Snapshot { default_sink_name: None, sinks: Vec::new(), sink_inputs: Vec::new() };
        assert(r@.sinks =~= Seq::empty());
        assert(r@.sink_inputs =~= Seq::empty());
        r
    }
}

impl Clone for Snapshot {
    fn clone(&self) -> (r: Self)
        ensures
            r@ == self@,
    {
        Snapshot {
            default_sink_name: copy_name(&self.default_sink_name),
            sinks: copy_sinks(&self.sinks),
            sink_inputs: copy_sink_inputs(&self.sink_inputs),
        }
    }
}

} // verus!
