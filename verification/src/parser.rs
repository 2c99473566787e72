//! From the audio server's raw answers to entities.
//!
//! Parsing is total: an answer that is no JSON document, a list that is
//! missing, a field that is absent or of the wrong shape each give their
//! default, and one bad record leaves the records around it untouched. What
//! was defaulted is reported beside the result, never as a failure.

use crate::json::{
    binary64_bits, contents, decode, flag_member, get, integer_member, json_of, json_text,
    list_member, member, read_flag, read_integer, read_list, read_text, text_member, Json, Numeral,
};
use crate::model::{
    name_view, sink_inputs_view, sinks_view, Reading, Sink, SinkInput, SinkInputView, SinkView,
    Volume, VolumeView,
};
use crate::text::{decode_lossy, trim, trimmed, utf8_lossy};
use serde_json::Value;
use vstd::prelude::*;

verus! {

/// A parsed value, and whether any part of it is a default that stands in for
/// something absent or ill-shaped.
#[derive(Debug, PartialEq, Eq)]
pub struct Parsed<T> {
    pub value: T,
    pub degraded: bool,
}

/// The default for an identifier that cannot be read.
pub const UNKNOWN_ID: i64 = -1;

/// An integer, or the default identifier in its place.
pub open spec fn id_or_unknown(id: Option<i64>) -> i64 {
    match id {
        Some(n) => n,
        None => UNKNOWN_ID,
    }
}

/// A text, or `default` in its place.
pub open spec fn text_or(text: Option<Seq<char>>, default: Seq<char>) -> Seq<char> {
    match text {
        Some(s) => s,
        None => default,
    }
}

/// A flag, or `false` in its place.
pub open spec fn flag_or_false(flag: Option<bool>) -> bool {
    match flag {
        Some(b) => b,
        None => false,
    }
}

/// The string member `key` of the object member `outer` of a record.
pub open spec fn nested_text(record: Json, outer: Seq<char>, key: Seq<char>) -> Option<Seq<char>> {
    match member(record, outer) {
        Some(inner) => text_member(inner, key),
        None => None,
    }
}

/// A number as a reading: a whole number within `i64` as such, and every
/// other number in the form in which it is held.
pub open spec fn reading_of(number: Numeral) -> Reading {
    match number {
        Numeral::Unsigned(n) => if n <= i64::MAX {
            Reading::Whole(n as i64)
        } else {
            Reading::Large(n)
        },
        Numeral::Negative(n) => Reading::Whole(n),
        Numeral::Binary64(bits) => Reading::Binary64(bits),
    }
}

/// The percentage that one channel reports: the member `percent`, where it
/// is a number.
pub open spec fn reading(channel: Json) -> Option<Reading> {
    match member(channel, "percent"@) {
        Some(Json::Number(number)) => Some(reading_of(number)),
        _ => None,
    }
}

/// The volume over a list of channels: every percentage that is a number
/// enters with its value. Channels without one are passed over.
pub open spec fn volume_of(channels: Seq<Json>) -> VolumeView
    decreases channels.len(),
{
    if channels.len() == 0 {
        VolumeView::silent()
    } else {
        let rest = volume_of(channels.drop_last());
        match reading(channels.last()) {
            Some(r) => rest.with(r),
            None => rest,
        }
    }
}

/// The channels of a stream record: the array `values` of its member
/// `volume`.
pub open spec fn channels_of(record: Json) -> Option<Seq<Json>> {
    match member(record, "volume"@) {
        Some(volume) => list_member(volume, "values"@),
        None => None,
    }
}

/// The volume of a stream record; silent where it has no channel list.
pub open spec fn stream_volume(record: Json) -> VolumeView {
    match channels_of(record) {
        Some(channels) => volume_of(channels),
        None => VolumeView::silent(),
    }
}

/// The sink that a record describes, with the default for each field that it
/// lacks.
pub open spec fn sink_of(record: Json) -> SinkView {
    SinkView {
        id: id_or_unknown(integer_member(record, "index"@)),
        name: text_or(text_member(record, "name"@), ""@),
        description: text_or(text_member(record, "description"@), ""@),
    }
}

/// Whether a sink record holds every field in its proper shape.
pub open spec fn sink_complete(record: Json) -> bool {
    &&& integer_member(record, "index"@) is Some
    &&& text_member(record, "name"@) is Some
    &&& text_member(record, "description"@) is Some
}

/// The stream that a record describes, with the default for each field that
/// it lacks.
pub open spec fn sink_input_of(record: Json) -> SinkInputView {
    SinkInputView {
        id: id_or_unknown(integer_member(record, "index"@)),
        sink_id: id_or_unknown(integer_member(record, "sink"@)),
        app_name: text_or(nested_text(record, "properties"@, "application.name"@), "?"@),
        media_name: text_or(nested_text(record, "properties"@, "media.name"@), ""@),
        volume: stream_volume(record),
        muted: flag_or_false(flag_member(record, "mute"@)),
    }
}

/// Whether a stream record holds every field in its proper shape, and at
/// least one channel that reports a percentage.
pub open spec fn sink_input_complete(record: Json) -> bool {
    &&& integer_member(record, "index"@) is Some
    &&& integer_member(record, "sink"@) is Some
    &&& nested_text(record, "properties"@, "application.name"@) is Some
    &&& nested_text(record, "properties"@, "media.name"@) is Some
    &&& stream_volume(record).readings() > 0
    &&& flag_member(record, "mute"@) is Some
}

/// The records of a document: the array under `key` of its top-level object.
pub open spec fn records(doc: Option<Json>, key: Seq<char>) -> Option<Seq<Json>> {
    match doc {
        Some(j) => list_member(j, key),
        None => None,
    }
}

/// The sinks that a document lists, one for each record and in their order;
/// none where there is no document or no list.
pub open spec fn sinks_of(doc: Option<Json>) -> Seq<SinkView> {
    match records(doc, "sinks"@) {
        Some(items) => items.map_values(|record: Json| sink_of(record)),
        None => Seq::empty(),
    }
}

/// Whether the sinks of a document hold a default anywhere.
pub open spec fn sinks_degraded(doc: Option<Json>) -> bool {
    match records(doc, "sinks"@) {
        Some(items) => exists|i: int| 0 <= i < items.len() && !sink_complete(#[trigger] items[i]),
        None => true,
    }
}

/// The streams that a document lists, one for each record and in their
/// order; none where there is no document or no list.
pub open spec fn sink_inputs_of(doc: Option<Json>) -> Seq<SinkInputView> {
    match records(doc, "sink_inputs"@) {
        Some(items) => items.map_values(|record: Json| sink_input_of(record)),
        None => Seq::empty(),
    }
}

/// Whether the streams of a document hold a default anywhere.
pub open spec fn sink_inputs_degraded(doc: Option<Json>) -> bool {
    match records(doc, "sink_inputs"@) {
        Some(items) => exists|i: int|
            0 <= i < items.len() && !sink_input_complete(#[trigger] items[i]),
        None => true,
    }
}

/// The name of the default sink in the server's plain-text answer: the text
/// without the white space around it, and none where nothing is left.
pub open spec fn default_sink_name_of(raw: Seq<u8>) -> Option<Seq<char>> {
    let name = trimmed(utf8_lossy(raw));
    if name.len() == 0 {
        None
    } else {
        Some(name)
    }
}

/// A text as an owned string, or `default` in its place.
fn owned_or(text: Option<&str>, default: &str) -> (r: String)
    ensures
        r@ == (match text {
            Some(s) => s@,
            None => default@,
        }),
{
    match text {
        Some(s) => s.to_owned(),
        None => default.to_owned(),
    }
}

/// Reads a string member of the object member `outer` of a record.
fn read_nested_text<'a>(record: &'a Value, outer: &str, key: &str) -> (r: Option<&'a str>)
    ensures
        r matches Some(s) ==> nested_text(json_of(*record), outer@, key@) == Some(s@),
        r is None ==> nested_text(json_of(*record), outer@, key@) is None,
{
    match get(record, outer) {
        Some(inner) => read_text(inner, key),
        None => None,
    }
}

/// Reads the percentage that one channel reports.
pub fn read_percent(channel: &Value) -> (r: Option<Reading>)
    ensures
        r == reading(json_of(*channel)),
{
    match get(channel, "percent") {
        Some(percent) => match percent.as_i64() {
            Some(n) => Some(Reading::Whole(n)),
            None => match percent.as_u64() {
                Some(n) => Some(Reading::Large(n)),
                None => match binary64_bits(percent) {
                    Some(bits) => Some(Reading::Binary64(bits)),
                    None => None,
                },
            },
        },
        None => None,
    }
}

/// Gathers the percentages of the channels that report one.
pub fn volume_from_channels(channels: &Vec<Value>) -> (r: Volume)
    ensures
        r@ == volume_of(contents(channels@)),
        r.wf(),
{
    let ghost all = contents(channels@);
    let mut volume = Volume::silent();
    let mut i: usize = 0;
    while i < channels.len()
        invariant
            i <= channels.len(),
            all == contents(channels@),
            volume.wf(),
            volume.channels <= i,
            volume@ == volume_of(all.take(i as int)),
        decreases channels.len() - i,
    {
        assert(all.take(i + 1).drop_last() =~= all.take(i as int));
        assert(all.take(i + 1).last() == json_of(channels@[i as int]));
        match read_percent(&channels[i]) {
            Some(percent) => {
                volume = volume.with_reading(percent);
            },
            None => {},
        }
        i += 1;
    }
    assert(all.take(i as int) =~= all);
    volume
}

/// Reads the volume of a stream record.
pub fn volume_from_json(record: &Value) -> (r: Volume)
    ensures
        r@ == stream_volume(json_of(*record)),
        r.wf(),
{
    let channels = match get(record, "volume") {
        Some(volume) => read_list(volume, "values"),
        None => None,
    };
    match channels {
        Some(items) => volume_from_channels(items),
        None => Volume::silent(),
    }
}

/// Reads one sink record. Never fails: a field that cannot be read takes its
/// default, and the result says so.
pub fn sink_from_json(record: &Value) -> (r: Parsed<Sink>)
    ensures
        r.value@ == sink_of(json_of(*record)),
        r.degraded == !sink_complete(json_of(*record)),
{
    let id = read_integer(record, "index");
    let name = read_text(record, "name");
    let description = read_text(record, "description");
    let complete = id.is_some() && name.is_some() && description.is_some();
    let sink = Sink {
        id: match id {
            Some(n) => n,
            None => UNKNOWN_ID,
        },
        name: owned_or(name, ""),
        description: owned_or(description, ""),
    };
    Parsed { value: sink, degraded: !complete }
}

/// Reads one stream record. Never fails: a field that cannot be read takes
/// its default, and the result says so.
pub fn sink_input_from_json(record: &Value) -> (r: Parsed<SinkInput>)
    ensures
        r.value@ == sink_input_of(json_of(*record)),
        r.value.volume.wf(),
        r.degraded == !sink_input_complete(json_of(*record)),
{
    let id = read_integer(record, "index");
    let sink_id = read_integer(record, "sink");
    let app_name = read_nested_text(record, "properties", "application.name");
    let media_name = read_nested_text(record, "properties", "media.name");
    let volume = volume_from_json(record);
    let muted = read_flag(record, "mute");
    let complete = id.is_some() && sink_id.is_some() && app_name.is_some() && media_name.is_some()
        && (volume.channels > 0 || volume.other.len() > 0) && muted.is_some();
    let input = SinkInput {
        id: match id {
            Some(n) => n,
            None => UNKNOWN_ID,
        },
        sink_id: match sink_id {
            Some(n) => n,
            None => UNKNOWN_ID,
        },
        app_name: owned_or(app_name, "?"),
        media_name: owned_or(media_name, ""),
        volume,
        muted: match muted {
            Some(b) => b,
            None => false,
        },
    };
    Parsed { value: input, degraded: !complete }
}

/// Reads the sinks of a decoded answer, in the order of the report.
pub fn sinks_from_json(doc: &Value) -> (r: Parsed<Vec<Sink>>)
    ensures
        sinks_view(r.value@) == sinks_of(Some(json_of(*doc))),
        r.degraded == sinks_degraded(Some(json_of(*doc))),
{
    let mut out: Vec<Sink> = Vec::new();
    match read_list(doc, "sinks") {
        Some(items) => {
            let ghost all = contents(items@);
            let mut degraded = false;
            let mut i: usize = 0;
            while i < items.len()
                invariant
                    i <= items.len(),
                    all == contents(items@),
                    out@.len() == i,
                    forall|k: int| 0 <= k < i ==> (#[trigger] out@[k])@ == sink_of(all[k]),
                    degraded ==> exists|k: int| 0 <= k < i && !sink_complete(#[trigger] all[k]),
                    !degraded ==> forall|k: int| 0 <= k < i ==> sink_complete(#[trigger] all[k]),
                decreases items.len() - i,
            {
                let parsed = sink_from_json(&items[i]);
                assert(all[i as int] == json_of(items@[i as int]));
                out.push(parsed.value);
                degraded = degraded || parsed.degraded;
                i += 1;
            }
            assert(sinks_view(out@) =~= all.map_values(|record: Json| sink_of(record)));
            Parsed { value: out, degraded }
        },
        None => {
            assert(sinks_view(out@) =~= Seq::empty());
            Parsed { value: out, degraded: true }
        },
    }
}

/// Reads the streams of a decoded answer, in the order of the report.
pub fn sink_inputs_from_json(doc: &Value) -> (r: Parsed<Vec<SinkInput>>)
    ensures
        sink_inputs_view(r.value@) == sink_inputs_of(Some(json_of(*doc))),
        r.degraded == sink_inputs_degraded(Some(json_of(*doc))),
        forall|k: int| 0 <= k < r.value@.len() ==> (#[trigger] r.value@[k]).volume.wf(),
{
    let mut out: Vec<SinkInput> = Vec::new();
    match read_list(doc, "sink_inputs") {
        Some(items) => {
            let ghost all = contents(items@);
            let mut degraded = false;
            let mut i: usize = 0;
            while i < items.len()
                invariant
                    i <= items.len(),
                    all == contents(items@),
                    out@.len() == i,
                    forall|k: int|
                        0 <= k < i ==> (#[trigger] out@[k])@ == sink_input_of(all[k])
                            && out@[k].volume.wf(),
                    degraded ==> exists|k: int|
                        0 <= k < i && !sink_input_complete(#[trigger] all[k]),
                    !degraded ==> forall|k: int|
                        0 <= k < i ==> sink_input_complete(#[trigger] all[k]),
                decreases items.len() - i,
            {
                let parsed = sink_input_from_json(&items[i]);
                assert(all[i as int] == json_of(items@[i as int]));
                out.push(parsed.value);
                degraded = degraded || parsed.degraded;
                i += 1;
            }
            assert(sink_inputs_view(out@) =~= all.map_values(
                |record: Json| sink_input_of(record),
            ));
            Parsed { value: out, degraded }
        },
        None => {
            assert(sink_inputs_view(out@) =~= Seq::empty());
            Parsed { value: out, degraded: true }
        },
    }
}

/// Parses the answer to the query for the default sink: the name, or none
/// where the answer is blank.
pub fn parse_default_sink_name(raw: &[u8]) -> (r: Option<String>)
    ensures
        name_view(r) == default_sink_name_of(raw@),
{
    let text = decode_lossy(raw);
    let name = trim(text.as_str());
    if name.is_empty() {
        None
    } else {
        Some(name.to_owned())
    }
}

/// Parses the answer to the query for the sinks.
pub fn parse_sinks(raw: &[u8]) -> (r: Parsed<Vec<Sink>>)
    ensures
        sinks_view(r.value@) == sinks_of(json_text(raw@)),
        r.degraded == sinks_degraded(json_text(raw@)),
{
    match decode(raw) {
        Some(doc) => sinks_from_json(&doc),
        None => {
            let out: Vec<Sink> = Vec::new();
            assert(sinks_view(out@) =~= Seq::empty());
            Parsed { value: out, degraded: true }
        },
    }
}

/// Parses the answer to the query for the streams.
pub fn parse_sink_inputs(raw: &[u8]) -> (r: Parsed<Vec<SinkInput>>)
    ensures
        sink_inputs_view(r.value@) == sink_inputs_of(json_text(raw@)),
        r.degraded == sink_inputs_degraded(json_text(raw@)),
        forall|k: int| 0 <= k < r.value@.len() ==> (#[trigger] r.value@[k]).volume.wf(),
{
    match decode(raw) {
        Some(doc) => sink_inputs_from_json(&doc),
        None => {
            let out: Vec<SinkInput> = Vec::new();
            assert(sink_inputs_view(out@) =~= Seq::empty());
            Parsed { value: out, degraded: true }
        },
    }
}

/// Parsing goes record by record: the result has one entity for each record
/// of the list, in the order of the list, and each entity depends on its own
/// record alone. A record that is ill-shaped, whatever it holds, neither ends
/// the parse nor changes an entity beside it.
pub proof fn lemma_records_parse_independently(doc: Json, sinks: Seq<Json>, streams: Seq<Json>)
    requires
        list_member(doc, "sinks"@) == Some(sinks),
        list_member(doc, "sink_inputs"@) == Some(streams),
    ensures
        sinks_of(Some(doc)).len() == sinks.len(),
        forall|i: int| 0 <= i < sinks.len() ==> sinks_of(Some(doc))[i] == sink_of(sinks[i]),
        sink_inputs_of(Some(doc)).len() == streams.len(),
        forall|i: int|
            0 <= i < streams.len() ==> sink_inputs_of(Some(doc))[i] == sink_input_of(streams[i]),
{
}

/// An answer that is no JSON document, and a document without the list, give
/// no entity and are reported as degraded.
pub proof fn lemma_missing_list_is_empty(doc: Option<Json>)
    requires
        records(doc, "sinks"@) is None,
        records(doc, "sink_inputs"@) is None,
    ensures
        sinks_of(doc) == Seq::<SinkView>::empty(),
        sinks_degraded(doc),
        sink_inputs_of(doc) == Seq::<SinkInputView>::empty(),
        sink_inputs_degraded(doc),
{
}

/// Each field of a sink that is absent or of the wrong shape takes its
/// default: `-1` for the identifier, the empty text for a name. A record with
/// such a field is not complete.
pub proof fn lemma_sink_defaults(record: Json)
    ensures
        integer_member(record, "index"@) is None ==> sink_of(record).id == -1,
        text_member(record, "name"@) is None ==> sink_of(record).name == ""@,
        text_member(record, "description"@) is None ==> sink_of(record).description == ""@,
        integer_member(record, "index"@) is None || text_member(record, "name"@) is None
            || text_member(record, "description"@) is None ==> !sink_complete(record),
{
}

/// Each field of a stream that is absent or of the wrong shape takes its
/// default: `-1` for an identifier, `?` for the application's name, the
/// empty text for the media name, silence for the volume, and not muted. A
/// record with such a field is not complete.
pub proof fn lemma_sink_input_defaults(record: Json)
    ensures
        integer_member(record, "index"@) is None ==> sink_input_of(record).id == -1,
        integer_member(record, "sink"@) is None ==> sink_input_of(record).sink_id == -1,
        nested_text(record, "properties"@, "application.name"@) is None ==> sink_input_of(
            record,
        ).app_name == "?"@,
        nested_text(record, "properties"@, "media.name"@) is None ==> sink_input_of(
            record,
        ).media_name == ""@,
        channels_of(record) is None ==> sink_input_of(record).volume == VolumeView::silent(),
        flag_member(record, "mute"@) is None ==> !sink_input_of(record).muted,
        integer_member(record, "index"@) is None || integer_member(record, "sink"@) is None
            || nested_text(record, "properties"@, "application.name"@) is None || nested_text(
            record,
            "properties"@,
            "media.name"@,
        ) is None || channels_of(record) is None || flag_member(record, "mute"@) is None
            ==> !sink_input_complete(record),
{
}

/// A record that is no object at all has no member, so it parses to the
/// entity made of defaults.
pub proof fn lemma_non_object_is_all_defaults(record: Json)
    requires
        !(record is Object),
    ensures
        sink_of(record) == (SinkView { id: UNKNOWN_ID, name: ""@, description: ""@ }),
        sink_input_of(record) == (SinkInputView {
            id: UNKNOWN_ID,
            sink_id: UNKNOWN_ID,
            app_name: "?"@,
            media_name: ""@,
            volume: VolumeView::silent(),
            muted: false,
        }),
{
}

/// Every channel whose percentage is a number enters the volume with its
/// value, whatever the form of the number: a whole number within `i64` adds
/// to the sum and to the number of terms, and every other number is kept as
/// it is. A channel whose percentage is no number changes nothing.
pub proof fn lemma_volume_counts_readings(channels: Seq<Json>, channel: Json)
    ensures
        reading(channel) matches Some(r) ==> volume_of(channels.push(channel)) == volume_of(
            channels,
        ).with(r),
        reading(channel) is None ==> volume_of(channels.push(channel)) == volume_of(channels),
        volume_of(channels.push(channel)).readings() == volume_of(channels).readings() + (if reading(
            channel,
        ) is Some {
            1nat
        } else {
            0nat
        }),
        member(channel, "percent"@) matches Some(Json::Number(_)) <==> reading(channel) is Some,
        volume_of(Seq::<Json>::empty()) == VolumeView::silent(),
{
    assert(channels.push(channel).drop_last() =~= channels);
}

/// Two channels that read the whole numbers `p` and `q` give the mean of `p`
/// and `q`: where their sum is even, the mean is exactly half of it.
pub proof fn lemma_mean_of_two_channels(a: Json, b: Json, p: i64, q: i64, mean: int)
    requires
        reading(a) == Some(Reading::Whole(p)),
        reading(b) == Some(Reading::Whole(q)),
        p + q == 2 * mean,
    ensures
        volume_of(seq![a, b]) == (VolumeView { total: p + q, channels: 2, other: Seq::empty() }),
        volume_of(seq![a, b]).mean_is(mean),
{
    lemma_volume_counts_readings(Seq::empty(), a);
    lemma_volume_counts_readings(seq![a], b);
    assert(Seq::<Json>::empty().push(a) =~= seq![a]);
    assert(seq![a].push(b) =~= seq![a, b]);
}

/// A percentage held as floating point is not passed over: beside a channel
/// that reads the whole number `q`, a channel that reads the float with the
/// bits `bits` makes two readings, the float kept by its bits.
pub proof fn lemma_float_reading_is_kept(a: Json, b: Json, bits: u64, q: i64)
    requires
        member(a, "percent"@) == Some(Json::Number(Numeral::Binary64(bits))),
        reading(b) == Some(Reading::Whole(q)),
    ensures
        volume_of(seq![a, b]) == (VolumeView {
            total: q as int,
            channels: 1,
            other: seq![Reading::Binary64(bits)],
        }),
        volume_of(seq![a, b]).readings() == 2,
{
    lemma_volume_counts_readings(Seq::empty(), a);
    lemma_volume_counts_readings(seq![a], b);
    assert(Seq::<Json>::empty().push(a) =~= seq![a]);
    assert(seq![a].push(b) =~= seq![a, b]);
    assert(Seq::<Reading>::empty().push(Reading::Binary64(bits)) =~= seq![Reading::Binary64(bits)]);
}

} // verus!
