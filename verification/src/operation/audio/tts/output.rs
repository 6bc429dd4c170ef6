//! The answer of speech synthesis, and what can be done with the audio.

use crate::body::{not_json, unreadable, wrong_shape};
use crate::error::DashScopeError;
use crate::json::{JsonValue, parse_value, parsed, value_get, value_is_object, value_model};
use crate::operation::common::{Usage, UsageView};
use crate::wire::{read_member, read_opt_text, read_req_i64, read_req_text, text_view};
use vstd::prelude::*;

verus! {

/// Synthesised audio: a piece of it in base64 while it is streamed, and the
/// address of the whole at the end.
#[derive(Debug, Clone, PartialEq, Eq)]
pub struct Audio {
    pub id: String,
    /// The address of the whole audio, good for a day.
    pub url: Option<String>,
    /// When the address expires.
    pub expires_at: i64,
    /// A piece of the audio in base64.
    pub data: String,
}

/// The content of an [`Audio`].
pub struct AudioView {
    pub id: Seq<char>,
    pub url: Option<Seq<char>>,
    pub expires_at: i64,
    pub data: Seq<char>,
}

impl View for Audio {
    type V = AudioView;

    open spec fn view(&self) -> AudioView {
        AudioView {
            id: self.id@,
            url: text_view(self.url),
            expires_at: self.expires_at,
            data: self.data@,
        }
    }
}

impl AudioView {
    /// The audio that a wire value holds, if it has the shape of one.
    pub open spec fn from_json(j: JsonValue) -> Option<AudioView> {
        let id = j.req_text("id"@);
        let url = j.opt_text("url"@);
        let expires_at = j.req_i64("expires_at"@);
        let data = j.req_text("data"@);
        if j is Object
            && id is Some
            && url is Some
            && expires_at is Some
            && data is Some {
            Some(
                AudioView {
                    id: id->0,
                    url: url->0,
                    expires_at: expires_at->0,
                    data: data->0,
                },
            )
        } else {
            None
        }
    }

    /// The required member `key`, read as an audio.
    pub open spec fn required(j: JsonValue, key: Seq<char>) -> Option<AudioView> {
        match j.field(key) {
            Some(c) => AudioView::from_json(c),
            None => None,
        }
    }

    /// The optional member `key`, read as an audio; the outer `None` is a mismatch.
    pub open spec fn optional(j: JsonValue, key: Seq<char>) -> Option<Option<AudioView>> {
        match j.member(key) {
            None => Some(None),
            Some(c) => match AudioView::from_json(c) {
                Some(x) => Some(Some(x)),
                None => None,
            },
        }
    }
}

impl Audio {
    /// Reads an audio out of a wire value.
    pub fn from_value(v: &serde_json::Value) -> (r: Option<Audio>)
        ensures
            match r {
                Some(t) => AudioView::from_json(value_model(*v)) == Some(t@),
                None => AudioView::from_json(value_model(*v)) is None,
            },
    {
        if !value_is_object(v) {
            return None;
        }
        let id = match read_req_text(v, "id") {
            Some(x) => x,
            None => return None,
        };
        let url = match read_opt_text(v, "url") {
            Ok(x) => x,
            Err(_) => return None,
        };
        let expires_at = match read_req_i64(v, "expires_at") {
            Some(x) => x,
            None => return None,
        };
        let data = match read_req_text(v, "data") {
            Some(x) => x,
            None => return None,
        };
        Some(Audio { id, url, expires_at, data })
    }

    /// Reads the required member `key` as an audio.
    pub fn read_required(v: &serde_json::Value, key: &str) -> (r: Option<Audio>)
        ensures
            match r {
                Some(t) => AudioView::required(value_model(*v), key@) == Some(t@),
                None => AudioView::required(value_model(*v), key@) is None,
            },
    {
        match value_get(v, key) {
            Some(c) => Audio::from_value(c),
            None => None,
        }
    }

    /// Reads the optional member `key` as an audio; `Err` is a mismatch.
    pub fn read_optional(v: &serde_json::Value, key: &str) -> (r: Result<Option<Audio>, ()>)
        ensures
            match r {
                Ok(o) => AudioView::optional(value_model(*v), key@) == Some(
                    match o {
                        Some(t) => Some(t@),
                        None => None,
                    },
                ),
                Err(_) => AudioView::optional(value_model(*v), key@) is None,
            },
    {
        match read_member(v, key) {
            None => Ok(None),
            Some(c) => match Audio::from_value(c) {
                Some(t) => Ok(Some(t)),
                None => Err(()),
            },
        }
    }
}

/// What synthesis has produced.
#[derive(Debug, Clone, PartialEq, Eq)]
pub struct Output {
    /// Absent while synthesis goes on; `stop` at its end.
    pub finish_reason: Option<String>,
    pub audio: Audio,
}

/// The content of an [`Output`].
pub struct OutputView {
    pub finish_reason: Option<Seq<char>>,
    pub audio: AudioView,
}

impl View for Output {
    type V = OutputView;

    open spec fn view(&self) -> OutputView {
        OutputView {
            finish_reason: text_view(self.finish_reason),
            audio: self.audio@,
        }
    }
}

impl OutputView {
    /// The output that a wire value holds, if it has the shape of one.
    pub open spec fn from_json(j: JsonValue) -> Option<OutputView> {
        let finish_reason = j.opt_text("finish_reason"@);
        let audio = AudioView::required(j, "audio"@);
        if j is Object
            && finish_reason is Some
            && audio is Some {
            Some(
                OutputView {
                    finish_reason: finish_reason->0,
                    audio: audio->0,
                },
            )
        } else {
            None
        }
    }

    /// The required member `key`, read as an output.
    pub open spec fn required(j: JsonValue, key: Seq<char>) -> Option<OutputView> {
        match j.field(key) {
            Some(c) => OutputView::from_json(c),
            None => None,
        }
    }

    /// The optional member `key`, read as an output; the outer `None` is a mismatch.
    pub open spec fn optional(j: JsonValue, key: Seq<char>) -> Option<Option<OutputView>> {
        match j.member(key) {
            None => Some(None),
            Some(c) => match OutputView::from_json(c) {
                Some(x) => Some(Some(x)),
                None => None,
            },
        }
    }
}

impl Output {
    /// Reads an output out of a wire value.
    pub fn from_value(v: &serde_json::Value) -> (r: Option<Output>)
        ensures
            match r {
                Some(t) => OutputView::from_json(value_model(*v)) == Some(t@),
                None => OutputView::from_json(value_model(*v)) is None,
            },
    {
        if !value_is_object(v) {
            return None;
        }
        let finish_reason = match read_opt_text(v, "finish_reason") {
            Ok(x) => x,
            Err(_) => return None,
        };
        let audio = match Audio::read_required(v, "audio") {
            Some(x) => x,
            None => return None,
        };
        Some(Output { finish_reason, audio })
    }

    /// Reads the required member `key` as an output.
    pub fn read_required(v: &serde_json::Value, key: &str) -> (r: Option<Output>)
        ensures
            match r {
                Some(t) => OutputView::required(value_model(*v), key@) == Some(t@),
                None => OutputView::required(value_model(*v), key@) is None,
            },
    {
        match value_get(v, key) {
            Some(c) => Output::from_value(c),
            None => None,
        }
    }

    /// Reads the optional member `key` as an output; `Err` is a mismatch.
    pub fn read_optional(v: &serde_json::Value, key: &str) -> (r: Result<Option<Output>, ()>)
        ensures
            match r {
                Ok(o) => OutputView::optional(value_model(*v), key@) == Some(
                    match o {
                        Some(t) => Some(t@),
                        None => None,
                    },
                ),
                Err(_) => OutputView::optional(value_model(*v), key@) is None,
            },
    {
        match read_member(v, key) {
            None => Ok(None),
            Some(c) => match Output::from_value(c) {
                Some(t) => Ok(Some(t)),
                None => Err(()),
            },
        }
    }
}

/// The answer of speech synthesis.
#[derive(Debug, Clone, PartialEq, Eq)]
pub struct TextToSpeechOutput {
    pub request_id: String,
    pub output: Output,
    pub usage: Option<Usage>,
}

/// The content of a [`TextToSpeechOutput`].
pub struct TextToSpeechOutputView {
    pub request_id: Seq<char>,
    pub output: OutputView,
    pub usage: Option<UsageView>,
}

impl View for TextToSpeechOutput {
    type V = TextToSpeechOutputView;

    open spec fn view(&self) -> TextToSpeechOutputView {
        TextToSpeechOutputView {
            request_id: self.request_id@,
            output: self.output@,
            usage: match self.usage {
                Some(x) => Some(x@),
                None => None,
            },
        }
    }
}

impl TextToSpeechOutputView {
    /// The answer that a wire value holds, if it has the shape of one.
    pub open spec fn from_json(j: JsonValue) -> Option<TextToSpeechOutputView> {
        let request_id = j.req_text("request_id"@);
        let output = OutputView::required(j, "output"@);
        let usage = UsageView::optional(j, "usage"@);
        if j is Object
            && request_id is Some
            && output is Some
            && usage is Some {
            Some(
                TextToSpeechOutputView {
                    request_id: request_id->0,
                    output: output->0,
                    usage: usage->0,
                },
            )
        } else {
            None
        }
    }
}

impl TextToSpeechOutput {
    /// Reads an answer out of a wire value.
    pub fn from_value(v: &serde_json::Value) -> (r: Option<TextToSpeechOutput>)
        ensures
            match r {
                Some(t) => TextToSpeechOutputView::from_json(value_model(*v)) == Some(t@),
                None => TextToSpeechOutputView::from_json(value_model(*v)) is None,
            },
    {
        if !value_is_object(v) {
            return None;
        }
        let request_id = match read_req_text(v, "request_id") {
            Some(x) => x,
            None => return None,
        };
        let output = match Output::read_required(v, "output") {
            Some(x) => x,
            None => return None,
        };
        let usage = match Usage::read_optional(v, "usage") {
            Ok(x) => x,
            Err(_) => return None,
        };
        Some(TextToSpeechOutput { request_id, output, usage })
    }

    /// Reads an answer from the text of a body. A text that is no JSON
    /// document, or a document in another shape, is a deserialization error
    /// that keeps the text.
    pub fn decode(text: &str) -> (r: Result<TextToSpeechOutput, DashScopeError>)
        ensures
            match r {
                Ok(t) => parsed(text@) is Ok && TextToSpeechOutputView::from_json(parsed(text@)->Ok_0) == Some(
                    t@,
                ),
                Err(e) => (parsed(text@) is Err || TextToSpeechOutputView::from_json(parsed(text@)->Ok_0) is None)
                    && e@ == unreadable(text@),
            },
    {
        match parse_value(text) {
            Ok(v) => match TextToSpeechOutput::from_value(&v) {
                Some(t) => Ok(t),
                None => Err(wrong_shape(text)),
            },
            Err(e) => Err(not_json(&e, text)),
        }
    }
}

#[verifier::external_type_specification]
#[verifier::external_body]
pub struct ExDecodeError(base64::DecodeError);

/// The bytes that a text stands for in standard base64, if it stands for any.
pub uninterp spec fn base64_decoded(text: Seq<char>) -> Option<Seq<u8>>;

/// `Engine::decode` of `base64::prelude::BASE64_STANDARD` on a text. The
/// outcome depends on the text alone; nothing is claimed about which texts
/// decode.
#[verifier::external_body]
pub(crate) fn decode_base64(text: &str) -> (r: Result<Vec<u8>, base64::DecodeError>)
    ensures
        match r {
            Ok(bytes) => base64_decoded(text@) == Some(bytes@),
            Err(_) => base64_decoded(text@) is None,
        },
{
    base64::Engine::decode(&base64::prelude::BASE64_STANDARD, text)
}

/// What can go wrong with audio that was received.
#[derive(Debug, Clone, PartialEq, Eq)]
pub enum AudioOutputError {
    /// The audio could not be fetched; the text says why.
    DownloadError(String),
    /// The audio could not be stored; the text says why.
    SaveError(String),
    /// There is no address to fetch the audio from.
    NullUrl,
    /// The data is not audio in the form expected.
    DataDecodeError,
}

impl Audio {
    /// The piece of audio in base64, as it came.
    pub fn get_audio_data(&self) -> (r: String)
        ensures
            r@ == self@.data,
    {
        self.data.clone()
    }

    /// Whether synthesis has ended: the address of the whole audio is there.
    pub fn is_finished(&self) -> (r: bool)
        ensures
            r == (self@.url is Some),
    {
        self.url.is_some()
    }

    /// The piece of audio as bytes. They are raw samples, not a playable file.
    pub fn to_vec(&self) -> (r: Result<Vec<u8>, AudioOutputError>)
        ensures
            match r {
                Ok(bytes) => base64_decoded(self@.data) == Some(bytes@),
                Err(e) => base64_decoded(self@.data) is None && e == AudioOutputError::DataDecodeError,
            },
    {
        match decode_base64(self.data.as_str()) {
            Ok(bytes) => Ok(bytes),
            Err(_) => Err(AudioOutputError::DataDecodeError),
        }
    }

    /// The piece of audio as bytes.
    pub fn bytes(&self) -> (r: Result<Vec<u8>, AudioOutputError>)
        ensures
            match r {
                Ok(bytes) => base64_decoded(self@.data) == Some(bytes@),
                Err(e) => base64_decoded(self@.data) is None && e == AudioOutputError::DataDecodeError,
            },
    {
        self.to_vec()
    }

    /// The address to fetch the whole audio from; while synthesis goes on
    /// there is none.
    pub fn download_url(&self) -> (r: Result<&str, AudioOutputError>)
        ensures
            match r {
                Ok(url) => self@.url == Some(url@),
                Err(e) => self@.url is None && e == AudioOutputError::NullUrl,
            },
    {
        match &self.url {
            Some(url) => Ok(url.as_str()),
            None => Err(AudioOutputError::NullUrl),
        }
    }
}

impl TextToSpeechOutput {
    /// Whether synthesis has ended.
    pub fn is_finished(&self) -> (r: bool)
        ensures
            r == (self@.output.audio.url is Some),
    {
        self.output.audio.is_finished()
    }

    /// The address to fetch the whole audio from.
    pub fn download_url(&self) -> (r: Result<&str, AudioOutputError>)
        ensures
            match r {
                Ok(url) => self@.output.audio.url == Some(url@),
                Err(e) => self@.output.audio.url is None && e == AudioOutputError::NullUrl,
            },
    {
        self.output.audio.download_url()
    }
}

/// Raw audio as samples.
#[derive(Debug, Clone, PartialEq, Eq)]
pub enum PcmSamples {
    /// Samples of 16 bits.
    Signed16(Vec<i16>),
    /// Samples of 8 bits.
    Signed8(Vec<i8>),
}

/// The sample of 16 bits that two bytes stand for, the low byte first.
pub open spec fn sample16(low: u8, high: u8) -> i16 {
    let unsigned = low as int + 256 * (high as int);
    if unsigned >= 32768 {
        (unsigned - 65536) as i16
    } else {
        unsigned as i16
    }
}

/// The sample of 8 bits that a byte stands for.
pub open spec fn sample8(byte: u8) -> i8 {
    if byte >= 128 {
        (byte as int - 256) as i8
    } else {
        byte as i8
    }
}

/// The samples of 16 bits in a run of bytes: one for each full pair; a
/// byte that is left over at the end is dropped.
pub open spec fn samples16(bytes: Seq<u8>) -> Seq<i16> {
    Seq::new((bytes.len() / 2) as nat, |i: int| sample16(bytes[2 * i], bytes[2 * i + 1]))
}

/// The samples of 8 bits in a run of bytes: one for each byte.
pub open spec fn samples8(bytes: Seq<u8>) -> Seq<i8> {
    Seq::new(bytes.len(), |i: int| sample8(bytes[i]))
}

/// Reads raw audio as samples of the given width. Only 16 and 8 bits are
/// known; any other width is a decode error.
pub fn pcm_samples(bytes: &Vec<u8>, bits_per_sample: u16) -> (r: Result<PcmSamples, AudioOutputError>)
    ensures
        match r {
            Ok(PcmSamples::Signed16(s)) => bits_per_sample == 16 && s@ == samples16(bytes@),
            Ok(PcmSamples::Signed8(s)) => bits_per_sample == 8 && s@ == samples8(bytes@),
            Err(e) => bits_per_sample != 16 && bits_per_sample != 8 && e
                == AudioOutputError::DataDecodeError,
        },
{
    if bits_per_sample == 16 {
        let mut samples: Vec<i16> = Vec::new();
        let n = bytes.len();
        let pairs = n / 2;
        let mut i: usize = 0;
        while i < pairs
            invariant
                i <= pairs,
                n == bytes@.len(),
                pairs == n / 2,
                samples@.len() == i,
                forall|k: int|
                    0 <= k < i ==> #[trigger] samples@[k] == sample16(
                        bytes@[2 * k],
                        bytes@[2 * k + 1],
                    ),
            decreases pairs - i,
        {
            assert(2 * i + 1 < n);
            let low = bytes[2 * i];
            let high = bytes[2 * i + 1];
            let unsigned: u32 = low as u32 + 256 * (high as u32);
            let sample: i16 = if unsigned >= 32768 {
                (unsigned as i32 - 65536) as i16
            } else {
                unsigned as i16
            };
            samples.push(sample);
            i += 1;
        }
        proof {
            assert(samples@ =~= samples16(bytes@));
        }
        Ok(PcmSamples::Signed16(samples))
    } else if bits_per_sample == 8 {
        let mut samples: Vec<i8> = Vec::new();
        let mut i: usize = 0;
        while i < bytes.len()
            invariant
                i <= bytes.len(),
                samples@.len() == i,
                forall|k: int| 0 <= k < i ==> #[trigger] samples@[k] == sample8(bytes@[k]),
            decreases bytes.len() - i,
        {
            let byte = bytes[i];
            let sample: i8 = if byte >= 128 {
                (byte as i16 - 256) as i8
            } else {
                byte as i8
            };
            samples.push(sample);
            i += 1;
        }
        proof {
            assert(samples@ =~= samples8(bytes@));
        }
        Ok(PcmSamples::Signed8(samples))
    } else {
        Err(AudioOutputError::DataDecodeError)
    }
}

impl Audio {
    /// The piece of audio as samples of the given width.
    pub fn to_samples(&self, bits_per_sample: u16) -> (r: Result<PcmSamples, AudioOutputError>)
        ensures
            match r {
                Ok(PcmSamples::Signed16(s)) => bits_per_sample == 16 && base64_decoded(self@.data)
                    is Some && s@ == samples16(base64_decoded(self@.data)->0),
                Ok(PcmSamples::Signed8(s)) => bits_per_sample == 8 && base64_decoded(self@.data)
                    is Some && s@ == samples8(base64_decoded(self@.data)->0),
                Err(e) => (base64_decoded(self@.data) is None || (bits_per_sample != 16
                    && bits_per_sample != 8)) && e == AudioOutputError::DataDecodeError,
            },
    {
        match self.to_vec() {
            Ok(bytes) => pcm_samples(&bytes, bits_per_sample),
            Err(e) => Err(e),
        }
    }
}

} // verus!
