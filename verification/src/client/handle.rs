//! The client's handle on an open session, and the messages it sends.
use vstd::prelude::*;
use std::sync::Arc;
use base64::Engine;
use crate::client::builder::GeminiLiveClientBuilder;
use crate::error::GeminiError;
use crate::text::{decimal_string, decimal_value, is_decimal_digit};
use crate::encoding::{base64_decoded, base64_standard_text};
use crate::types::{
    ActivityEnd, ActivityStart, BidiGenerateContentClientContent,
    BidiGenerateContentRealtimeInput, Blob, ClientMessagePayload, Content, Part, Role,
};

verus! {

#[verifier::external_type_specification]
#[verifier::external_body]
#[verifier::reject_recursive_types(T)]
pub struct ExOneshotSender<T>(tokio::sync::oneshot::Sender<T>);

#[verifier::external_type_specification]
#[verifier::external_body]
#[verifier::reject_recursive_types(T)]
pub struct ExMpscSender<T>(tokio::sync::mpsc::Sender<T>);

/// `tokio::sync::oneshot::Sender::send(())`: hands the shutdown signal to the
/// connection task. Whether the task still listens is not known here, so
/// nothing is stated of the result.
#[verifier::external_body]
fn send_shutdown_signal(tx: tokio::sync::oneshot::Sender<()>) -> bool {
    tx.send(()).is_ok()
}

/// `tokio::sync::mpsc::Sender::clone`: another handle on the same channel, the
/// same sender as far as the library can tell.
#[verifier::external_body]
fn clone_sender<T>(s: &tokio::sync::mpsc::Sender<T>) -> (r: tokio::sync::mpsc::Sender<T>)
    ensures
        r == *s,
{
    s.clone()
}

/// `Arc::clone`: another pointer to the same allocation, hence to the same value.
#[verifier::external_body]
fn clone_arc<T>(a: &Arc<T>) -> (r: Arc<T>)
    ensures
        r == *a,
{
    Arc::clone(a)
}

/// A connected client.
///
/// It holds the signal that stops the connection task, the channel through
/// which messages reach that task, and the application state. Closing the
/// client gives up both; a closed client sends nothing.
pub struct GeminiLiveClient<S: Clone + Send + Sync + 'static> {
    shutdown_tx: Option<tokio::sync::oneshot::Sender<()>>,
    outgoing_sender: Option<tokio::sync::mpsc::Sender<ClientMessagePayload>>,
    state: Arc<S>,
}

impl<S: Clone + Send + Sync + 'static> GeminiLiveClient<S> {
    /// Whether the client can still hand messages to the connection task.
    pub closed spec fn can_send(&self) -> bool {
        self.outgoing_sender is Some
    }

    /// The sender on the channel to the connection task, while the client is open.
    pub closed spec fn message_channel(&self) -> Option<
        tokio::sync::mpsc::Sender<ClientMessagePayload>,
    > {
        self.outgoing_sender
    }

    /// The client can send exactly while it holds its message channel.
    pub proof fn lemma_can_send_holds_channel(&self)
        ensures
            self.can_send() == (self.message_channel() is Some),
    {
    }

    /// Whether the client still holds the signal that stops the connection task.
    pub closed spec fn holds_shutdown_signal(&self) -> bool {
        self.shutdown_tx is Some
    }

    /// The application state shared with the handlers.
    pub closed spec fn shared_state(&self) -> S {
        *self.state
    }

    /// A client over an open connection task.
    pub fn from_channels(
        shutdown_tx: tokio::sync::oneshot::Sender<()>,
        outgoing_sender: tokio::sync::mpsc::Sender<ClientMessagePayload>,
        state: Arc<S>,
    ) -> (r: Self)
        ensures
            r.can_send(),
            r.message_channel() == Some(outgoing_sender),
            r.holds_shutdown_signal(),
            r.shared_state() == *state,
    {
        GeminiLiveClient {
            shutdown_tx: Some(shutdown_tx),
            outgoing_sender: Some(outgoing_sender),
            state,
        }
    }

    /// Closes the client: signals the connection task to close the WebSocket,
    /// if it has not been signalled before, and gives up the message channel.
    pub fn close(&mut self) -> (r: Result<(), GeminiError>)
        ensures
            r is Ok,
            !final(self).can_send(),
            final(self).message_channel() is None,
            !final(self).holds_shutdown_signal(),
            final(self).shared_state() == old(self).shared_state(),
    {
        if let Some(tx) = self.shutdown_tx.take() {
            let _delivered = send_shutdown_signal(tx);
        }
        self.outgoing_sender = None;
        Ok(())
    }

    /// Another handle on the channel to the connection task, while the client is open.
    pub fn get_outgoing_mpsc_sender_clone(&self) -> (r: Option<
        tokio::sync::mpsc::Sender<ClientMessagePayload>,
    >)
        ensures
            r is Some == self.can_send(),
            r == self.message_channel(),
    {
        match &self.outgoing_sender {
            Some(s) => Some(clone_sender(s)),
            None => None,
        }
    }

    /// A builder for a client with the given state.
    pub fn builder_with_state(api_key: String, model: String, state: S) -> (r:
        GeminiLiveClientBuilder<S>)
        ensures
            r.api_key == api_key,
            r.state == state,
            r.initial_setup == crate::client::builder::setup_for_model(model),
    {
        GeminiLiveClientBuilder::new_with_state(api_key, model, state)
    }

    /// The channel on which to send a message: refused with `NotReady` once the
    /// client is closed.
    pub fn sender_for_message(&self) -> (r: Result<
        tokio::sync::mpsc::Sender<ClientMessagePayload>,
        GeminiError,
    >)
        ensures
            r is Ok == self.can_send(),
            r matches Ok(t) ==> self.message_channel() == Some(t),
            r matches Err(e) ==> e is NotReady,
    {
        match &self.outgoing_sender {
            Some(s) => Ok(clone_sender(s)),
            None => Err(GeminiError::NotReady),
        }
    }

    /// The outcome of handing a message to the channel: `SendError` when the
    /// connection task is gone.
    pub fn delivery_result(delivered: bool) -> (r: Result<(), GeminiError>)
        ensures
            r is Ok == delivered,
            r matches Err(e) ==> e is SendError,
    {
        if delivered {
            Ok(())
        } else {
            Err(GeminiError::SendError)
        }
    }

    /// The application state shared with the handlers.
    pub fn state(&self) -> (r: Arc<S>)
        ensures
            *r == self.shared_state(),
    {
        clone_arc(&self.state)
    }
}

/// A user turn of text: one content of one text part, authored by the user.
pub open spec fn is_text_turn(p: ClientMessagePayload, text: String, end_of_turn: bool) -> bool {
    &&& p matches ClientMessagePayload::ClientContent(c)
    &&& c.turn_complete == Some(end_of_turn)
    &&& c.turns is Some
    &&& c.turns->0@.len() == 1
    &&& c.turns->0@[0].role == Some(Role::User)
    &&& c.turns->0@[0].parts@.len() == 1
    &&& c.turns->0@[0].parts@[0] == (Part {
        text: Some(text),
        inline_data: None,
        function_call: None,
        function_response: None,
        executable_code: None,
    })
}

/// The message that sends `text` as a user turn, ending the turn if `end_of_turn`.
pub fn text_turn_payload(text: String, end_of_turn: bool) -> (r: ClientMessagePayload)
    ensures
        is_text_turn(r, text, end_of_turn),
{
    let part = Part {
        text: Some(text),
        inline_data: None,
        function_call: None,
        function_response: None,
        executable_code: None,
    };
    let mut parts: Vec<Part> = Vec::new();
    parts.push(part);
    let mut turns: Vec<Content> = Vec::new();
    turns.push(Content { parts, role: Some(Role::User) });
    ClientMessagePayload::ClientContent(
        BidiGenerateContentClientContent { turns: Some(turns), turn_complete: Some(end_of_turn) },
    )
}

/// Real-time input with nothing set.
pub open spec fn empty_realtime_input() -> BidiGenerateContentRealtimeInput {
    BidiGenerateContentRealtimeInput {
        audio: None,
        video: None,
        text: None,
        activity_start: None,
        activity_end: None,
        audio_stream_end: None,
    }
}

/// The message that sends `text` as real-time input.
pub fn realtime_text_payload(text: String) -> (r: ClientMessagePayload)
    ensures
        r == ClientMessagePayload::RealtimeInput(
            BidiGenerateContentRealtimeInput { text: Some(text), ..empty_realtime_input() },
        ),
{
    ClientMessagePayload::RealtimeInput(
        BidiGenerateContentRealtimeInput {
            audio: None,
            video: None,
            text: Some(text),
            activity_start: None,
            activity_end: None,
            audio_stream_end: None,
        },
    )
}

/// The message that marks the start of user activity.
pub fn activity_start_payload() -> (r: ClientMessagePayload)
    ensures
        r == ClientMessagePayload::RealtimeInput(
            BidiGenerateContentRealtimeInput {
                activity_start: Some(ActivityStart {  }),
                ..empty_realtime_input()
            },
        ),
{
    ClientMessagePayload::RealtimeInput(
        BidiGenerateContentRealtimeInput {
            audio: None,
            video: None,
            text: None,
            activity_start: Some(ActivityStart {  }),
            activity_end: None,
            audio_stream_end: None,
        },
    )
}

/// The message that marks the end of user activity.
pub fn activity_end_payload() -> (r: ClientMessagePayload)
    ensures
        r == ClientMessagePayload::RealtimeInput(
            BidiGenerateContentRealtimeInput {
                activity_end: Some(ActivityEnd {  }),
                ..empty_realtime_input()
            },
        ),
{
    ClientMessagePayload::RealtimeInput(
        BidiGenerateContentRealtimeInput {
            audio: None,
            video: None,
            text: None,
            activity_start: None,
            activity_end: Some(ActivityEnd {  }),
            audio_stream_end: None,
        },
    )
}

/// The message that marks the end of the audio stream.
pub fn audio_stream_end_payload() -> (r: ClientMessagePayload)
    ensures
        r == ClientMessagePayload::RealtimeInput(
            BidiGenerateContentRealtimeInput { audio_stream_end: Some(true), ..empty_realtime_input() },
        ),
{
    ClientMessagePayload::RealtimeInput(
        BidiGenerateContentRealtimeInput {
            audio: None,
            video: None,
            text: None,
            activity_start: None,
            activity_end: None,
            audio_stream_end: Some(true),
        },
    )
}

/// The two bytes of a 16-bit sample, least significant first.
pub open spec fn sample_bytes(x: i16) -> Seq<u8> {
    let u = x as u16;
    seq![(u % 256) as u8, (u / 256) as u8]
}

/// Samples as 16-bit little-endian PCM bytes: each sample's two bytes, in order.
pub open spec fn pcm16_le_bytes(samples: Seq<i16>) -> Seq<u8>
    decreases samples.len(),
{
    if samples.len() == 0 {
        Seq::empty()
    } else {
        pcm16_le_bytes(samples.drop_last()) + sample_bytes(samples.last())
    }
}

/// Every sample becomes exactly two bytes.
pub proof fn lemma_pcm16_len(samples: Seq<i16>)
    ensures
        pcm16_le_bytes(samples).len() == 2 * samples.len(),
    decreases samples.len(),
{
    if samples.len() > 0 {
        lemma_pcm16_len(samples.drop_last());
    }
}

/// The sample whose two bytes, least significant first, are `lo` and `hi`.
pub open spec fn sample_of(lo: u8, hi: u8) -> i16 {
    (lo as u16 + (hi as u16) * 256) as u16 as i16
}

/// The 16-bit samples of little-endian PCM bytes (a trailing odd byte is no sample).
pub open spec fn pcm16_le_samples(bytes: Seq<u8>) -> Seq<i16>
    decreases bytes.len(),
{
    if bytes.len() < 2 {
        Seq::empty()
    } else {
        seq![sample_of(bytes[0], bytes[1])] + pcm16_le_samples(bytes.skip(2))
    }
}

/// Reading the PCM bytes of samples back gives the samples.
pub proof fn lemma_pcm16_round_trip(samples: Seq<i16>)
    ensures
        pcm16_le_samples(pcm16_le_bytes(samples)) == samples,
    decreases samples.len(),
{
    if samples.len() > 0 {
        let x = samples[0];
        assert((((x as u16) % 256) as u8 as u16 + (((x as u16) / 256) as u8 as u16) * 256) as u16
            as i16 == x) by (bit_vector);
        lemma_pcm16_front(samples);
        lemma_pcm16_round_trip(samples.drop_first());
        let rest = pcm16_le_bytes(samples.drop_first());
        let b = pcm16_le_bytes(samples);
        assert(b == sample_bytes(x) + rest);
        assert(b.len() >= 2);
        assert(b[0] == ((x as u16) % 256) as u8);
        assert(b[1] == ((x as u16) / 256) as u8);
        assert(sample_of(b[0], b[1]) == x);
        assert(b.skip(2) =~= rest);
        assert(pcm16_le_samples(b) == seq![x] + pcm16_le_samples(rest));
        assert(samples =~= seq![x] + samples.drop_first());
    }
}

/// The PCM bytes of samples are the first sample's two bytes followed by the
/// bytes of the rest.
proof fn lemma_pcm16_front(samples: Seq<i16>)
    requires
        samples.len() > 0,
    ensures
        pcm16_le_bytes(samples) == sample_bytes(samples[0]) + pcm16_le_bytes(samples.drop_first()),
    decreases samples.len(),
{
    if samples.len() == 1 {
        assert(samples.drop_last() =~= Seq::<i16>::empty());
        assert(samples.drop_first() =~= Seq::<i16>::empty());
        assert(pcm16_le_bytes(samples.drop_last()) == Seq::<u8>::empty());
        assert(samples.last() == samples[0]);
        assert(pcm16_le_bytes(samples) =~= sample_bytes(samples[0]));
        assert(pcm16_le_bytes(samples.drop_first()) == Seq::<u8>::empty());
        assert(sample_bytes(samples[0]) + Seq::<u8>::empty() =~= sample_bytes(samples[0]));
    } else {
        lemma_pcm16_front(samples.drop_last());
        assert(samples.drop_last().drop_first() =~= samples.drop_first().drop_last());
        assert(samples.drop_first().last() == samples.last());
        assert(pcm16_le_bytes(samples) =~= sample_bytes(samples[0]) + pcm16_le_bytes(
            samples.drop_first(),
        ));
    }
}

/// The audio of a chunk message is recovered exactly: decoding its base64 data
/// and reading the bytes as 16-bit little-endian samples gives the samples sent.
pub proof fn lemma_audio_chunk_decodes(samples: Seq<i16>)
    ensures
        pcm16_le_samples(base64_decoded(base64_standard_text(pcm16_le_bytes(samples))))
            == samples,
{
    crate::encoding::lemma_base64_round_trip(pcm16_le_bytes(samples));
    lemma_pcm16_round_trip(samples);
}

/// The samples as 16-bit little-endian PCM bytes.
pub fn pcm16_le(samples: &[i16]) -> (r: Vec<u8>)
    requires
        samples@.len() <= usize::MAX / 2,
    ensures
        r@ == pcm16_le_bytes(samples@),
{
    let mut bytes: Vec<u8> = Vec::new();
    let mut i: usize = 0;
    assert(samples@.take(0) =~= Seq::<i16>::empty());
    while i < samples.len()
        invariant
            i <= samples@.len(),
            bytes@ == pcm16_le_bytes(samples@.take(i as int)),
        decreases samples.len() - i,
    {
        let u: u16 = samples[i] as u16;
        let lo: u8 = (u & 0xff) as u8;
        let hi: u8 = (u >> 8) as u8;
        assert(lo == (u % 256) as u8 && hi == (u / 256) as u8) by (bit_vector)
            requires
                lo == (u & 0xff) as u8,
                hi == (u >> 8) as u8,
        ;
        bytes.push(lo);
        bytes.push(hi);
        assert(samples@.take(i + 1).drop_last() =~= samples@.take(i as int));
        assert(bytes@ =~= pcm16_le_bytes(samples@.take(i as int)) + sample_bytes(samples@[i as int]));
        i = i + 1;
    }
    assert(samples@.take(samples.len() as int) =~= samples@);
    bytes
}

/// `base64::engine::general_purpose::STANDARD.encode(bytes)`: the standard
/// base64 text of the bytes, padded. The encoder panics when the length of its
/// output overflows `usize`; `requires` rules that out.
#[verifier::external_body]
fn base64_standard(bytes: &[u8]) -> (r: String)
    requires
        (bytes@.len() / 3) * 4 + 4 <= usize::MAX,
    ensures
        r@ == base64_standard_text(bytes@),
{
    base64::engine::general_purpose::STANDARD.encode(bytes)
}

/// The media type of 16-bit PCM audio at a sample rate.
pub open spec fn pcm_mime_type(sample_rate: u32) -> Seq<char> {
    "audio/pcm;rate="@ + crate::text::decimal_text(sample_rate as nat)
}

/// The media type names the rate it was given: it is `audio/pcm;rate=`
/// followed by decimal digits, and those digits read back as the rate, so two
/// different rates never share a media type.
pub proof fn lemma_pcm_mime_type_names_rate(sample_rate: u32, other_rate: u32)
    ensures
        pcm_mime_type(sample_rate).len() > 15,
        pcm_mime_type(sample_rate).take(15) == "audio/pcm;rate="@,
        forall|i: int|
            15 <= i < pcm_mime_type(sample_rate).len() ==> is_decimal_digit(
                #[trigger] pcm_mime_type(sample_rate)[i],
            ),
        decimal_value(pcm_mime_type(sample_rate).skip(15)) == sample_rate,
        pcm_mime_type(sample_rate) == pcm_mime_type(other_rate) ==> sample_rate == other_rate,
{
    reveal_strlit("audio/pcm;rate=");
    let t = pcm_mime_type(sample_rate);
    crate::text::lemma_decimal_text_reads_back(sample_rate as nat);
    crate::text::lemma_decimal_text_reads_back(other_rate as nat);
    assert(t.take(15) =~= "audio/pcm;rate="@);
    assert(t.skip(15) =~= crate::text::decimal_text(sample_rate as nat));
    assert forall|i: int| 15 <= i < t.len() implies is_decimal_digit(#[trigger] t[i]) by {
        assert(t[i] == crate::text::decimal_text(sample_rate as nat)[i - 15]);
    }
    if t == pcm_mime_type(other_rate) {
        assert(pcm_mime_type(other_rate).skip(15) =~= crate::text::decimal_text(other_rate as nat));
    }
}

/// The message that sends a chunk of 16-bit PCM audio: the samples as
/// little-endian bytes in base64, tagged with their sample rate. An empty chunk
/// sends nothing. The channel count is not part of the message.
pub fn audio_chunk_payload(audio_samples: &[i16], sample_rate: u32, channels: u16) -> (r: Option<
    ClientMessagePayload,
>)
    requires
        audio_samples@.len() <= isize::MAX / 2,
    ensures
        r is None == (audio_samples@.len() == 0),
        r matches Some(p) ==> {
            &&& p matches ClientMessagePayload::RealtimeInput(input)
            &&& input.audio matches Some(blob)
            &&& blob.mime_type@ == pcm_mime_type(sample_rate)
            &&& blob.mime_type@.take(15) == "audio/pcm;rate="@
            &&& decimal_value(blob.mime_type@.skip(15)) == sample_rate
            &&& blob.data@ == base64_standard_text(pcm16_le_bytes(audio_samples@))
            &&& input == (BidiGenerateContentRealtimeInput {
                audio: input.audio,
                ..empty_realtime_input()
            })
        },
{
    if audio_samples.len() == 0 {
        return None;
    }
    let bytes = pcm16_le(audio_samples);
    proof {
        lemma_pcm16_len(audio_samples@);
    }
    let data = base64_standard(bytes.as_slice());
    let mut mime_type = String::from_str("audio/pcm;rate=");
    let rate = decimal_string(sample_rate);
    mime_type.append(rate.as_str());
    proof {
        lemma_pcm_mime_type_names_rate(sample_rate, sample_rate);
    }
    Some(
        ClientMessagePayload::RealtimeInput(
            BidiGenerateContentRealtimeInput {
                audio: Some(Blob { mime_type, data }),
                video: None,
                text: None,
                activity_start: None,
                activity_end: None,
                audio_stream_end: None,
            },
        ),
    )
}

} // verus!
