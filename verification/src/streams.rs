//! Stream engine and stream registry.
//!
//! A stream binds a registered device to a negotiated configuration and a
//! bounded channel of sample buffers. The registry maps each stream's
//! generated id to its control state; control operations (write, pause,
//! resume, close, query-active) act through that mapping. Buffers are
//! sequences of raw 32-bit sample words; the embedding converts them to and
//! from its own sample type at the boundary.

use vstd::prelude::*;
use vstd::hash_map::StringHashMap;

use crate::channel::clone_sender;
use crate::channel::new_bounded_channel;
use crate::channel::try_recv_buffer;
use crate::channel::try_send_buffer;
use crate::devices::DeviceRegistry;
use crate::types::AudioError;
use crate::types::StreamConfig;

verus! {

/// Capacity of the bounded channel attached to every stream: the engine's
/// sole flow-control valve.
pub const CHANNEL_CAPACITY: usize = 32;

/// The control state of one stream, as the contracts see it.
pub struct StreamState {
    pub is_input: bool,
    pub active: bool,
}

/// The channel endpoint a stream's registry entry keeps. A capture stream's
/// sender lives in the real-time callback, so its entry keeps none; a
/// playback stream's entry keeps the sender that `write_to_stream` feeds.
enum StreamChannel {
    Capture,
    Playback(crossbeam_channel::Sender<Vec<u32>>),
}

/// One registered stream: its direction-bound channel endpoint and its
/// active flag.
struct StreamEntry {
    active: bool,
    channel: StreamChannel,
}

impl StreamEntry {
    spec fn state(&self) -> StreamState {
        StreamState {
            is_input: self.channel matches StreamChannel::Capture,
            active: self.active,
        }
    }
}

/// Process-wide mapping from stream id to the stream's control state.
pub struct StreamRegistry {
    streams: StringHashMap<StreamEntry>,
}

impl View for StreamRegistry {
    type V = Map<Seq<char>, StreamState>;

    closed spec fn view(&self) -> Map<Seq<char>, StreamState> {
        self.streams@.map_values(|e: StreamEntry| e.state())
    }
}

impl StreamRegistry {
    /// Creates an empty registry.
    pub fn new() -> (registry: Self)
        ensures
            registry@ == Map::<Seq<char>, StreamState>::empty(),
    {
        let registry = StreamRegistry { streams: StringHashMap::new() };
        proof {
            assert(registry@ =~= Map::<Seq<char>, StreamState>::empty());
        }
        registry
    }

    /// Registers a stream under its id.
    fn insert_entry(&mut self, id: String, entry: StreamEntry)
        ensures
            final(self)@ == old(self)@.insert(id@, entry.state()),
    {
        let ghost pre = self.streams@;
        self.streams.insert(id, entry);
        proof {
            assert(self.streams@.map_values(|e: StreamEntry| e.state()) =~= pre.map_values(
                |e: StreamEntry| e.state(),
            ).insert(id@, entry.state()));
        }
    }
}

/// A rebuilt registry entry with the same direction and channel but the
/// given active flag.
fn set_entry_active(entry: &StreamEntry, active: bool) -> (updated: StreamEntry)
    ensures
        updated.state() == (StreamState { is_input: entry.state().is_input, active }),
{
    match &entry.channel {
        StreamChannel::Capture => StreamEntry { active, channel: StreamChannel::Capture },
        StreamChannel::Playback(tx) => StreamEntry {
            active,
            channel: StreamChannel::Playback(clone_sender(tx)),
        },
    }
}

/// Copies a sample buffer.
fn copy_buffer(src: &Vec<u32>) -> (out: Vec<u32>)
    ensures
        out@ == src@,
{
    let mut out: Vec<u32> = Vec::new();
    let mut i: usize = 0;
    while i < src.len()
        invariant
            i <= src.len(),
            out@ == src@.take(i as int),
        decreases src.len() - i,
    {
        out.push(src[i]);
        proof {
            assert(src@.take(i + 1) =~= src@.take(i as int).push(src@[i as int]));
        }
        i = i + 1;
    }
    proof {
        assert(src@.take(src@.len() as int) =~= src@);
    }
    out
}

/// The value type the real-time capture callback holds: exactly the sending
/// endpoint of the stream's bounded channel.
pub struct AudioCallback {
    channel_tx: Option<crossbeam_channel::Sender<Vec<u32>>>,
}

impl AudioCallback {
    /// Whether the callback holds a sending endpoint at all.
    pub closed spec fn has_sender(&self) -> bool {
        self.channel_tx is Some
    }

    /// One hardware-driven capture delivery: copies the input buffer and
    /// attempts a non-blocking send. A full channel drops the buffer
    /// silently; this path never blocks and never fails loudly. Returns
    /// whether the buffer was accepted, as a diagnostic.
    pub fn on_input(&self, data: &Vec<u32>) -> (delivered: bool)
        ensures
            delivered ==> self.has_sender(),
    {
        match &self.channel_tx {
            Some(tx) => {
                let copy = copy_buffer(data);
                try_send_buffer(tx, copy)
            },
            None => false,
        }
    }
}

/// What a new stream hands back to its creator: the hardware-facing channel
/// endpoint, bound to the stream's direction.
pub enum StreamEndpoint {
    /// The callback value for the real-time capture thread and the receiver
    /// the forwarding task drains.
    Capture(AudioCallback, crossbeam_channel::Receiver<Vec<u32>>),
    /// The receiver the real-time playback thread drains.
    Playback(crossbeam_channel::Receiver<Vec<u32>>),
}

/// A freshly created stream: its generated id, the configuration the
/// hardware stream is to be built with, and the hardware-facing endpoint.
pub struct CreatedStream {
    pub stream_id: String,
    pub config: StreamConfig,
    pub endpoint: StreamEndpoint,
}

/// Relies on uuid::Uuid::new_v4 and its hyphenated Display form: a fresh
/// random identifier rendered as 36 characters. The value is random, so
/// nothing beyond its length is stated.
#[verifier::external_body]
fn new_stream_id() -> (id: String)
    ensures
        id@.len() == 36,
{
    uuid::Uuid::new_v4().to_string()
}

/// The registry after a creation registers a fresh id.
pub open spec fn create_effect(
    m: Map<Seq<char>, StreamState>,
    id: Seq<char>,
    is_input: bool,
) -> Map<Seq<char>, StreamState> {
    m.insert(id, StreamState { is_input, active: true })
}

/// Registers a stream under a given id: the verified step of creation that
/// the generated id is handed to, deciding the outcome for each value of
/// it. An id already held by a live stream is refused with `ProviderError`
/// — registering it would silently overwrite that stream — and the registry
/// is left unchanged; any other id is registered active, with the bounded
/// channel allocated and the hardware-facing endpoint bound to the
/// direction.
pub fn register_stream(
    streams: &mut StreamRegistry,
    stream_id: String,
    is_input: bool,
    config: StreamConfig,
) -> (result: Result<CreatedStream, AudioError>)
    ensures
        old(streams)@.contains_key(stream_id@) ==> (result matches Err(AudioError::ProviderError)
            && final(streams)@ == old(streams)@),
        !old(streams)@.contains_key(stream_id@) ==> (result matches Ok(created) && {
            &&& created.stream_id@ == stream_id@
            &&& final(streams)@ == create_effect(old(streams)@, stream_id@, is_input)
            &&& created.config == config
            &&& is_input <==> created.endpoint matches StreamEndpoint::Capture(_, _)
        }),
{
    if streams.streams.contains_key(stream_id.as_str()) {
        return Err(AudioError::ProviderError);
    }
    proof {
        assert(!streams@.contains_key(stream_id@));
    }
    let registered_id = stream_id.clone();
    let (tx, rx) = new_bounded_channel(CHANNEL_CAPACITY);
    if is_input {
        let callback = AudioCallback { channel_tx: Some(tx) };
        streams.insert_entry(
            registered_id,
            StreamEntry { active: true, channel: StreamChannel::Capture },
        );
        Ok(
            CreatedStream {
                stream_id,
                config,
                endpoint: StreamEndpoint::Capture(callback, rx),
            },
        )
    } else {
        streams.insert_entry(
            registered_id,
            StreamEntry { active: true, channel: StreamChannel::Playback(tx) },
        );
        Ok(CreatedStream { stream_id, config, endpoint: StreamEndpoint::Playback(rx) })
    }
}

/// Creates a stream on a registered device: generates a fresh stream id and
/// hands it to `register_stream`, whose contract fixes the outcome for each
/// id; the error branch here is reachable only when the generated id
/// already names a live stream. The returned configuration is what the
/// provider builds the hardware stream from — the provider is its final
/// validator; a device id absent from the registry fails with
/// `DeviceNotFound`.
pub fn create_stream(
    streams: &mut StreamRegistry,
    devices: &DeviceRegistry,
    device_id: &str,
    is_input: bool,
    config: StreamConfig,
) -> (result: Result<CreatedStream, AudioError>)
    ensures
        !devices@.contains_key(device_id@) ==> (result matches Err(AudioError::DeviceNotFound)
            && final(streams)@ == old(streams)@),
        devices@.contains_key(device_id@) ==> ((result matches Ok(created) && {
            &&& !old(streams)@.contains_key(created.stream_id@)
            &&& final(streams)@ == create_effect(old(streams)@, created.stream_id@, is_input)
            &&& created.config == config
            &&& is_input <==> created.endpoint matches StreamEndpoint::Capture(_, _)
        }) || (result matches Err(AudioError::ProviderError) && final(streams)@ == old(
        streams,
        )@)),
        result matches Err(AudioError::ProviderError) ==> exists|id: Seq<char>|
            old(streams)@.contains_key(id) && id.len() == 36,
{
    let ghost pre = streams@;
    if crate::devices::get_device(devices, device_id).is_none() {
        return Err(AudioError::DeviceNotFound);
    }
    let stream_id = new_stream_id();
    let ghost generated = stream_id@;
    let result = register_stream(streams, stream_id, is_input, config);
    proof {
        if pre.contains_key(generated) {
            assert(exists|id: Seq<char>| pre.contains_key(id) && id.len() == 36) by {
                assert(pre.contains_key(generated) && generated.len() == 36);
            }
        }
    }
    result
}

/// Queues a buffer on a playback stream. The checks run in this order: an
/// empty buffer, an unknown id, a capture-direction stream, a paused
/// stream; then the buffer is copied and sent without blocking, and a full
/// channel surfaces as `BackpressureExceeded` — the caller-visible signal to
/// slow down, asymmetric with the silent drop inside the real-time callback.
pub fn write_to_stream(streams: &StreamRegistry, stream_id: &str, buffer: &Vec<u32>) -> (result:
    Result<(), AudioError>)
    ensures
        buffer@.len() == 0 ==> result matches Err(AudioError::InvalidBuffer),
        buffer@.len() > 0 && !streams@.contains_key(stream_id@) ==> result matches Err(
            AudioError::StreamNotFound,
        ),
        buffer@.len() > 0 && streams@.contains_key(stream_id@)
            && streams@[stream_id@].is_input ==> result matches Err(AudioError::WrongDirection),
        buffer@.len() > 0 && streams@.contains_key(stream_id@) && !streams@[stream_id@].is_input
            && !streams@[stream_id@].active ==> result matches Err(AudioError::StreamInactive),
        buffer@.len() > 0 && streams@.contains_key(stream_id@) && !streams@[stream_id@].is_input
            && streams@[stream_id@].active ==> ((result matches Ok(_)) || (result matches Err(
            AudioError::BackpressureExceeded,
        ))),
{
    if buffer.len() == 0 {
        return Err(AudioError::InvalidBuffer);
    }
    match streams.streams.get(stream_id) {
        None => Err(AudioError::StreamNotFound),
        Some(entry) => {
            proof {
                assert(streams@[stream_id@] == entry.state());
            }
            match &entry.channel {
                StreamChannel::Capture => Err(AudioError::WrongDirection),
                StreamChannel::Playback(tx) => {
                    if !entry.active {
                        Err(AudioError::StreamInactive)
                    } else {
                        let copy = copy_buffer(buffer);
                        if try_send_buffer(tx, copy) {
                            Ok(())
                        } else {
                            Err(AudioError::BackpressureExceeded)
                        }
                    }
                },
            }
        },
    }
}

/// The registry after a pause takes effect on a registered stream.
pub open spec fn pause_effect(m: Map<Seq<char>, StreamState>, id: Seq<char>) -> Map<
    Seq<char>,
    StreamState,
>
    recommends
        m.contains_key(id),
{
    m.insert(id, StreamState { is_input: m[id].is_input, active: false })
}

/// The registry after a resume takes effect on a registered stream.
pub open spec fn resume_effect(m: Map<Seq<char>, StreamState>, id: Seq<char>) -> Map<
    Seq<char>,
    StreamState,
>
    recommends
        m.contains_key(id),
{
    m.insert(id, StreamState { is_input: m[id].is_input, active: true })
}

/// The registry after a close: the id is gone whether or not it was there.
pub open spec fn close_effect(m: Map<Seq<char>, StreamState>, id: Seq<char>) -> Map<
    Seq<char>,
    StreamState,
> {
    m.remove(id)
}

/// Whether a registry reports a stream as active; an unknown id reads as
/// inactive rather than as an error.
pub open spec fn spec_stream_active(m: Map<Seq<char>, StreamState>, id: Seq<char>) -> bool {
    m.contains_key(id) && m[id].active
}

/// Marks a registered stream paused; pausing a paused stream is a no-op.
/// The embedding attempts the hardware pause around this call and swallows
/// its failures: pause is a best-effort control, unlike `write_to_stream`.
pub fn pause_stream(streams: &mut StreamRegistry, stream_id: &str) -> (result: Result<
    (),
    AudioError,
>)
    ensures
        !old(streams)@.contains_key(stream_id@) ==> (result matches Err(AudioError::StreamNotFound)
            && final(streams)@ == old(streams)@),
        old(streams)@.contains_key(stream_id@) ==> ((result matches Ok(_)) && final(streams)@
            == pause_effect(old(streams)@, stream_id@)),
{
    let updated = match streams.streams.get(stream_id) {
        None => {
            return Err(AudioError::StreamNotFound);
        },
        Some(entry) => {
            proof {
                assert(streams@[stream_id@] == entry.state());
            }
            set_entry_active(entry, false)
        },
    };
    streams.insert_entry(stream_id.to_owned(), updated);
    Ok(())
}

/// Marks a registered stream active again; resuming an active stream is a
/// no-op. Best-effort like pause.
pub fn resume_stream(streams: &mut StreamRegistry, stream_id: &str) -> (result: Result<
    (),
    AudioError,
>)
    ensures
        !old(streams)@.contains_key(stream_id@) ==> (result matches Err(AudioError::StreamNotFound)
            && final(streams)@ == old(streams)@),
        old(streams)@.contains_key(stream_id@) ==> ((result matches Ok(_)) && final(streams)@
            == resume_effect(old(streams)@, stream_id@)),
{
    let updated = match streams.streams.get(stream_id) {
        None => {
            return Err(AudioError::StreamNotFound);
        },
        Some(entry) => {
            proof {
                assert(streams@[stream_id@] == entry.state());
            }
            set_entry_active(entry, true)
        },
    };
    streams.insert_entry(stream_id.to_owned(), updated);
    Ok(())
}

/// Removes a stream unconditionally; closing an unknown id is not an error.
/// Dropping the entry drops the last registry-held channel endpoint, which
/// lets the forwarding task and the hardware side observe closure.
pub fn close_stream(streams: &mut StreamRegistry, stream_id: &str)
    ensures
        final(streams)@ == close_effect(old(streams)@, stream_id@),
{
    let ghost pre = streams.streams@;
    streams.streams.remove(stream_id);
    proof {
        assert(streams.streams@.map_values(|e: StreamEntry| e.state()) =~= pre.map_values(
            |e: StreamEntry| e.state(),
        ).remove(stream_id@));
    }
}

/// Reports the active flag of a stream, or false for an unknown id.
pub fn is_stream_active(streams: &StreamRegistry, stream_id: &str) -> (active: bool)
    ensures
        active == spec_stream_active(streams@, stream_id@),
{
    match streams.streams.get(stream_id) {
        None => {
            proof {
                assert(!streams@.contains_key(stream_id@));
            }
            false
        },
        Some(entry) => {
            proof {
                assert(streams@[stream_id@] == entry.state());
            }
            entry.active
        },
    }
}

/// Every slot of an output buffer holds the corresponding delivered sample,
/// and silence once the delivered samples are exhausted — nothing else, in
/// particular no stale memory.
pub open spec fn padded_with_silence(out: Seq<u32>, delivered: Seq<u32>) -> bool {
    forall|i: int|
        0 <= i < out.len() ==> out[i] == (if i < delivered.len() {
            delivered[i]
        } else {
            0u32
        })
}

/// Fills a playback output buffer from what the channel delivered: the
/// received buffer's samples first, then silence; with nothing received the
/// whole buffer is silence, never stale memory. The buffer keeps its length.
pub fn fill_output(out: &mut Vec<u32>, received: Option<Vec<u32>>)
    ensures
        final(out)@.len() == old(out)@.len(),
        received matches Some(buffer) ==> padded_with_silence(final(out)@, buffer@),
        received is None ==> padded_with_silence(final(out)@, Seq::<u32>::empty()),
{
    match received {
        Some(buffer) => {
            let n = if buffer.len() < out.len() {
                buffer.len()
            } else {
                out.len()
            };
            let mut i: usize = 0;
            while i < n
                invariant
                    n <= buffer.len(),
                    n <= out.len(),
                    i <= n,
                    out@.len() == old(out)@.len(),
                    forall|k: int| 0 <= k < i ==> out@[k] == buffer@[k],
                decreases n - i,
            {
                out[i] = buffer[i];
                i = i + 1;
            }
            let mut j: usize = n;
            while j < out.len()
                invariant
                    n <= out.len(),
                    n <= buffer.len() || n == out.len(),
                    n <= j <= out.len(),
                    out@.len() == old(out)@.len(),
                    forall|k: int| 0 <= k < n ==> out@[k] == buffer@[k],
                    forall|k: int| n <= k < j ==> out@[k] == 0u32,
                decreases out.len() - j,
            {
                out[j] = 0;
                j = j + 1;
            }
            proof {
                assert(n == buffer@.len() || n == out@.len());
            }
        },
        None => {
            let mut i: usize = 0;
            while i < out.len()
                invariant
                    i <= out.len(),
                    out@.len() == old(out)@.len(),
                    forall|k: int| 0 <= k < i ==> out@[k] == 0u32,
                decreases out.len() - i,
            {
                out[i] = 0;
                i = i + 1;
            }
        },
    }
}

/// One hardware-driven playback callback: a non-blocking receive attempt,
/// then `fill_output` with whatever arrived. Never blocks; the buffer keeps
/// its length and leaves holding some delivered buffer's samples padded
/// with silence. Returns whether a buffer arrived — the silence-fallback
/// diagnostic — and with nothing arrived the whole buffer is silence, never
/// what it held before.
pub fn playback_callback(rx: &crossbeam_channel::Receiver<Vec<u32>>, out: &mut Vec<u32>) -> (delivered: bool)
    ensures
        final(out)@.len() == old(out)@.len(),
        exists|b: Seq<u32>| padded_with_silence(final(out)@, b),
        !delivered ==> padded_with_silence(final(out)@, Seq::<u32>::empty()),
{
    let received = try_recv_buffer(rx);
    let delivered = received.is_some();
    let ghost b = match &received {
        Some(buffer) => buffer@,
        None => Seq::<u32>::empty(),
    };
    fill_output(out, received);
    proof {
        assert(exists|b0: Seq<u32>| padded_with_silence(out@, b0)) by {
            assert(padded_with_silence(out@, b));
        }
    }
    delivered
}

/// A stream is reported active immediately after creation registers it, and
/// inactive immediately after close removes it — the unknown-id reading,
/// not an error.
pub proof fn lemma_create_close_activity(
    m: Map<Seq<char>, StreamState>,
    id: Seq<char>,
    is_input: bool,
)
    ensures
        spec_stream_active(create_effect(m, id, is_input), id),
        !spec_stream_active(close_effect(m, id), id),
{
}

/// Pausing twice leaves the same paused registry as pausing once, and the
/// stream reads inactive; resuming twice likewise leaves it active.
pub proof fn lemma_pause_resume_idempotent(m: Map<Seq<char>, StreamState>, id: Seq<char>)
    requires
        m.contains_key(id),
    ensures
        pause_effect(pause_effect(m, id), id) == pause_effect(m, id),
        resume_effect(resume_effect(m, id), id) == resume_effect(m, id),
        !spec_stream_active(pause_effect(m, id), id),
        spec_stream_active(resume_effect(m, id), id),
{
    assert(pause_effect(pause_effect(m, id), id) =~= pause_effect(m, id));
    assert(resume_effect(resume_effect(m, id), id) =~= resume_effect(m, id));
}

/// Closing twice leaves the same registry as closing once.
pub proof fn lemma_close_idempotent(m: Map<Seq<char>, StreamState>, id: Seq<char>)
    ensures
        close_effect(close_effect(m, id), id) == close_effect(m, id),
{
    assert(close_effect(close_effect(m, id), id) =~= close_effect(m, id));
}

} // verus!
