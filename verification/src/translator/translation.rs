//! The course of a translation session, as two state machines: the audio
//! side, which opens the session and sends the audio, and the event side,
//! which turns the service's messages into the stream of events. Each step
//! takes what happened outside (a send that finished, audio that arrived, a
//! message) and tells what to do next; the caller performs it.
use vstd::prelude::*;

use super::audio::{final_chunk_len, wav_scan, AudioBuffer, WavHeaderReader, WavHeaderStep, WavScan, BUFFER_SIZE};
use super::client::{route_message, routes_as, Routing};
use super::config::{same_config, AudioDevice, Config};
use super::event::Event;
use crate::connector::{Message, RequestId};
use crate::error::Error;
use crate::text::str_eq;

verus! {

/// A message that the audio side sends to the service, for the request
/// `request_id`.
#[derive(Debug)]
pub enum Outgoing {
    /// The speech configuration: the translation's configuration and the
    /// audio device.
    SpeechConfig { request_id: RequestId, config: Config, device: AudioDevice },
    /// The speech context, from the translation's configuration.
    SpeechContext { request_id: RequestId, config: Config },
    /// The header of the audio: the WAV header, or none for other formats.
    AudioHeader { request_id: RequestId, header: Option<Vec<u8>> },
    /// A chunk of audio.
    Audio { request_id: RequestId, chunk: Vec<u8> },
    /// The end of the audio.
    AudioEnd { request_id: RequestId },
}

/// What happened on the audio side.
#[derive(Debug)]
pub enum AudioInput {
    /// The translation starts.
    Start,
    /// The last message sent went out, or failed with this error.
    Sent(Option<Error>),
    /// The next item of the audio stream: a chunk, or `None` at its end.
    Audio(Option<Vec<u8>>),
    /// The service ended a turn: the session now runs under a new request.
    Restart(RequestId),
}

/// What the audio side does next.
#[derive(Debug)]
pub enum AudioAction {
    /// Send this message, then report with `Sent`.
    Send(Outgoing),
    /// Read the next item of the audio stream, then report with `Audio`.
    ReadAudio,
    /// Wait for the next item of the audio stream or for a restart.
    Wait,
    /// The translation cannot start: give up with this error.
    Fail(Error),
    /// All audio was sent and its end announced: the audio is complete.
    Complete,
    /// Stop sending audio; the audio is not complete.
    Stop,
    /// The input does not fit the current phase; nothing changes.
    Ignored,
}

/// Where the audio side stands.
#[derive(Debug, Clone, Copy, PartialEq, Eq, Structural)]
pub enum Phase {
    /// Not started.
    Idle,
    /// Sending the speech configuration.
    SendingConfig,
    /// Sending the speech context.
    SendingContext,
    /// Reading the WAV header from the audio stream.
    ReadingHeader,
    /// Sending the audio header for the first time.
    SendingHeader,
    /// Forwarding audio as it arrives.
    Streaming,
    /// Sending a full chunk of audio.
    SendingChunk,
    /// Sending the audio header again, for a new request.
    SendingRestartHeader,
    /// The audio ended: sending what is left of it.
    Flushing,
    /// Announcing the end of the audio.
    SendingEnd,
    /// Finished.
    Done,
}

/// The audio side of a translation session.
pub struct AudioSession {
    request_id: RequestId,
    config: Config,
    device: AudioDevice,
    wav: bool,
    phase: Phase,
    reader: WavHeaderReader,
    header: Option<Vec<u8>>,
    buffer: AudioBuffer,
}

/// The bytes of an optional header.
pub open spec fn header_view(h: Option<Vec<u8>>) -> Option<Seq<u8>> {
    match h {
        Some(v) => Some(v@),
        None => None,
    }
}

fn copy_bytes(v: &Vec<u8>) -> (r: Vec<u8>)
    ensures
        r@ == v@,
{
    let r = v.clone();
    assert(r@ =~= v@);
    r
}

impl AudioSession {
    /// The request that the session runs under.
    pub closed spec fn id(&self) -> Seq<char> {
        self.request_id@
    }

    /// The configuration of the translation.
    pub closed spec fn config(&self) -> Config {
        self.config
    }

    /// The audio device that the audio comes from.
    pub closed spec fn device(&self) -> AudioDevice {
        self.device
    }

    /// Whether the audio is a WAV stream, whose header is read first.
    pub closed spec fn wav(&self) -> bool {
        self.wav
    }

    /// Where the session stands.
    pub closed spec fn phase(&self) -> Phase {
        self.phase
    }

    /// The bytes read so far while looking for the WAV header.
    pub closed spec fn reading(&self) -> Seq<u8> {
        self.reader@
    }

    /// The audio header, once known.
    pub closed spec fn header(&self) -> Option<Seq<u8>> {
        header_view(self.header)
    }

    /// The audio that waits to be sent.
    pub closed spec fn pending(&self) -> Seq<u8> {
        self.buffer@
    }

    /// A session for the request `request_id`, not started, that translates
    /// with `config` the audio of `device`.
    pub fn new(request_id: RequestId, wav: bool, config: Config, device: AudioDevice) -> (r: Self)
        ensures
            r.id() == request_id@,
            r.config() == config,
            r.device() == device,
            r.wav() == wav,
            r.phase() == Phase::Idle,
            r.reading() == Seq::<u8>::empty(),
            r.header() is None,
            r.pending() == Seq::<u8>::empty(),
    {
        AudioSession {
            request_id,
            config,
            device,
            wav,
            phase: Phase::Idle,
            reader: WavHeaderReader::new(),
            header: None,
            buffer: AudioBuffer::new(Vec::new()),
        }
    }

    fn send_header(&mut self, phase: Phase) -> (r: AudioAction)
        ensures
            final(self).id() == old(self).id(),
            final(self).wav() == old(self).wav(),
            final(self).config() == old(self).config(),
            final(self).device() == old(self).device(),
            final(self).reading() == old(self).reading(),
            final(self).header() == old(self).header(),
            final(self).pending() == old(self).pending(),
            final(self).phase() == phase,
            r matches AudioAction::Send(Outgoing::AudioHeader { request_id, header })
                && request_id@ == old(self).id() && header_view(header) == old(self).header(),
    {
        let header = match &self.header {
            Some(h) => Some(copy_bytes(h)),
            None => None,
        };
        self.phase = phase;
        AudioAction::Send(
            Outgoing::AudioHeader { request_id: self.request_id.clone(), header },
        )
    }

    fn send_next_full_chunk(&mut self) -> (r: AudioAction)
        ensures
            final(self).id() == old(self).id(),
            final(self).wav() == old(self).wav(),
            final(self).config() == old(self).config(),
            final(self).device() == old(self).device(),
            final(self).reading() == old(self).reading(),
            final(self).header() == old(self).header(),
            old(self).pending().len() >= BUFFER_SIZE ==> {
                &&& final(self).phase() == Phase::SendingChunk
                &&& final(self).pending() == old(self).pending().skip(BUFFER_SIZE as int)
                &&& r matches AudioAction::Send(Outgoing::Audio { request_id, chunk })
                    && request_id@ == old(self).id() && chunk@ == old(self).pending().take(
                    BUFFER_SIZE as int,
                )
            },
            old(self).pending().len() < BUFFER_SIZE ==> {
                &&& final(self).phase() == Phase::Streaming
                &&& final(self).pending() == old(self).pending()
                &&& r is Wait
            },
    {
        match self.buffer.next_full_chunk() {
            Some(chunk) => {
                self.phase = Phase::SendingChunk;
                AudioAction::Send(Outgoing::Audio { request_id: self.request_id.clone(), chunk })
            },
            None => {
                self.phase = Phase::Streaming;
                AudioAction::Wait
            },
        }
    }

    fn send_next_final_chunk(&mut self) -> (r: AudioAction)
        ensures
            final(self).id() == old(self).id(),
            final(self).wav() == old(self).wav(),
            final(self).config() == old(self).config(),
            final(self).device() == old(self).device(),
            final(self).reading() == old(self).reading(),
            final(self).header() == old(self).header(),
            old(self).pending().len() > 0 ==> {
                &&& final(self).phase() == Phase::Flushing
                &&& final(self).pending() == old(self).pending().skip(
                    final_chunk_len(old(self).pending()),
                )
                &&& r matches AudioAction::Send(Outgoing::Audio { request_id, chunk })
                    && request_id@ == old(self).id() && chunk@ == old(self).pending().take(
                    final_chunk_len(old(self).pending()),
                )
            },
            old(self).pending().len() == 0 ==> {
                &&& final(self).phase() == Phase::SendingEnd
                &&& final(self).pending() == old(self).pending()
                &&& r matches AudioAction::Send(Outgoing::AudioEnd { request_id })
                    && request_id@ == old(self).id()
            },
    {
        match self.buffer.next_final_chunk() {
            Some(chunk) => {
                self.phase = Phase::Flushing;
                AudioAction::Send(Outgoing::Audio { request_id: self.request_id.clone(), chunk })
            },
            None => {
                self.phase = Phase::SendingEnd;
                AudioAction::Send(Outgoing::AudioEnd { request_id: self.request_id.clone() })
            },
        }
    }

    /// Takes what happened and tells what to do next.
    ///
    /// The session opens by sending the speech configuration, then the
    /// speech context, then (for WAV, once its header is read from the
    /// audio) the audio header; a failure there ends the translation with
    /// the error. Then audio is sent in full chunks as it arrives; a failed
    /// send drops that chunk and waits for more audio. A restart sends the
    /// header again under the new request, and a failure there stops the
    /// audio. When the audio ends, what is left is sent in chunks and the
    /// end is announced, after which the audio is complete.
    pub fn step(&mut self, input: AudioInput) -> (r: AudioAction)
        ensures
            final(self).wav() == old(self).wav(),
            final(self).config() == old(self).config(),
            final(self).device() == old(self).device(),
            ({
                let s = *old(self);
                let t = *final(self);
                match (s.phase(), input) {
                    (Phase::Idle, AudioInput::Start) => {
                        &&& t.phase() == Phase::SendingConfig
                        &&& t.id() == s.id() && t.header() == s.header()
                        &&& t.reading() == s.reading() && t.pending() == s.pending()
                        &&& r matches AudioAction::Send(
                            Outgoing::SpeechConfig { request_id, config, device },
                        ) && request_id@ == s.id() && same_config(config, s.config()) && device
                            == s.device()
                    },
                    (Phase::SendingConfig, AudioInput::Sent(None)) => {
                        &&& t.phase() == Phase::SendingContext
                        &&& t.id() == s.id() && t.header() == s.header()
                        &&& t.reading() == s.reading() && t.pending() == s.pending()
                        &&& r matches AudioAction::Send(Outgoing::SpeechContext { request_id, config })
                            && request_id@ == s.id() && same_config(config, s.config())
                    },
                    (Phase::SendingContext, AudioInput::Sent(None)) => {
                        &&& t.id() == s.id() && t.header() == s.header()
                        &&& t.reading() == s.reading() && t.pending() == s.pending()
                        &&& s.wav() ==> t.phase() == Phase::ReadingHeader && r is ReadAudio
                        &&& !s.wav() ==> t.phase() == Phase::SendingHeader && (r matches AudioAction::Send(
                            Outgoing::AudioHeader { request_id, header },
                        ) && request_id@ == s.id() && header_view(header) == s.header())
                    },
                    (Phase::SendingConfig, AudioInput::Sent(Some(e)))
                    | (Phase::SendingContext, AudioInput::Sent(Some(e)))
                    | (Phase::SendingHeader, AudioInput::Sent(Some(e))) => {
                        t.phase() == Phase::Done && r == AudioAction::Fail(e)
                    },
                    (Phase::ReadingHeader, AudioInput::Audio(Some(c))) => {
                        let all = s.reading() + c@;
                        &&& t.id() == s.id()
                        &&& match wav_scan(all) {
                            WavScan::NeedMore => {
                                &&& t.phase() == Phase::ReadingHeader && r is ReadAudio
                                &&& t.reading() == all && t.header() == s.header()
                                &&& t.pending() == s.pending()
                            },
                            WavScan::Invalid => t.phase() == Phase::Done && (r matches AudioAction::Fail(
                                Error::ParseError(m),
                            ) && m@ == "Invalid wav header"@),
                            WavScan::HeaderEnd(n) => {
                                &&& t.phase() == Phase::SendingHeader
                                &&& t.header() == Some(all.take(n as int))
                                &&& t.pending() == all.skip(n as int)
                                &&& r matches AudioAction::Send(
                                    Outgoing::AudioHeader { request_id, header },
                                ) && request_id@ == s.id() && header_view(header) == Some(
                                    all.take(n as int),
                                )
                            },
                        }
                    },
                    (Phase::ReadingHeader, AudioInput::Audio(None)) => {
                        t.phase() == Phase::Done && (r matches AudioAction::Fail(Error::ParseError(m))
                            && m@ == "Reached end of stream without finding 'data' chunk"@)
                    },
                    (Phase::SendingHeader, AudioInput::Sent(None))
                    | (Phase::SendingRestartHeader, AudioInput::Sent(None)) => {
                        &&& t.phase() == Phase::Streaming && r is Wait
                        &&& t.id() == s.id() && t.header() == s.header()
                        &&& t.reading() == s.reading() && t.pending() == s.pending()
                    },
                    (Phase::Streaming, AudioInput::Restart(id)) => {
                        &&& t.phase() == Phase::SendingRestartHeader
                        &&& t.id() == id@ && t.header() == s.header()
                        &&& t.reading() == s.reading() && t.pending() == s.pending()
                        &&& r matches AudioAction::Send(Outgoing::AudioHeader { request_id, header })
                            && request_id@ == id@ && header_view(header) == s.header()
                    },
                    (Phase::SendingRestartHeader, AudioInput::Sent(Some(_))) => {
                        t.phase() == Phase::Done && r is Stop
                    },
                    (Phase::Streaming, AudioInput::Audio(Some(c))) => {
                        let all = s.pending() + c@;
                        &&& t.id() == s.id() && t.header() == s.header()
                        &&& t.reading() == s.reading()
                        &&& all.len() >= BUFFER_SIZE ==> {
                            &&& t.phase() == Phase::SendingChunk
                            &&& t.pending() == all.skip(BUFFER_SIZE as int)
                            &&& r matches AudioAction::Send(Outgoing::Audio { request_id, chunk })
                                && request_id@ == s.id() && chunk@ == all.take(BUFFER_SIZE as int)
                        }
                        &&& all.len() < BUFFER_SIZE ==> t.phase() == Phase::Streaming
                            && t.pending() == all && r is Wait
                    },
                    (Phase::SendingChunk, AudioInput::Sent(None)) => {
                        &&& t.id() == s.id() && t.header() == s.header()
                        &&& t.reading() == s.reading()
                        &&& s.pending().len() >= BUFFER_SIZE ==> {
                            &&& t.phase() == Phase::SendingChunk
                            &&& t.pending() == s.pending().skip(BUFFER_SIZE as int)
                            &&& r matches AudioAction::Send(Outgoing::Audio { request_id, chunk })
                                && request_id@ == s.id() && chunk@ == s.pending().take(
                                BUFFER_SIZE as int,
                            )
                        }
                        &&& s.pending().len() < BUFFER_SIZE ==> t.phase() == Phase::Streaming
                            && t.pending() == s.pending() && r is Wait
                    },
                    (Phase::SendingChunk, AudioInput::Sent(Some(_))) => {
                        &&& t.phase() == Phase::Streaming && r is Wait
                        &&& t.id() == s.id() && t.header() == s.header()
                        &&& t.reading() == s.reading() && t.pending() == s.pending()
                    },
                    (Phase::Streaming, AudioInput::Audio(None))
                    | (Phase::Flushing, AudioInput::Sent(None)) => {
                        &&& t.id() == s.id() && t.header() == s.header()
                        &&& t.reading() == s.reading()
                        &&& s.pending().len() > 0 ==> {
                            &&& t.phase() == Phase::Flushing
                            &&& t.pending() == s.pending().skip(final_chunk_len(s.pending()))
                            &&& r matches AudioAction::Send(Outgoing::Audio { request_id, chunk })
                                && request_id@ == s.id() && chunk@ == s.pending().take(
                                final_chunk_len(s.pending()),
                            )
                        }
                        &&& s.pending().len() == 0 ==> t.phase() == Phase::SendingEnd
                            && t.pending() == s.pending() && (r matches AudioAction::Send(
                            Outgoing::AudioEnd { request_id },
                        ) && request_id@ == s.id())
                    },
                    (Phase::Flushing, AudioInput::Sent(Some(_))) => {
                        &&& t.phase() == Phase::SendingEnd
                        &&& t.id() == s.id() && t.header() == s.header()
                        &&& t.reading() == s.reading() && t.pending() == s.pending()
                        &&& r matches AudioAction::Send(Outgoing::AudioEnd { request_id })
                            && request_id@ == s.id()
                    },
                    (Phase::SendingEnd, AudioInput::Sent(_)) => {
                        t.phase() == Phase::Done && r is Complete
                    },
                    _ => {
                        &&& t.phase() == s.phase() && r is Ignored
                        &&& t.id() == s.id() && t.header() == s.header()
                        &&& t.reading() == s.reading() && t.pending() == s.pending()
                    },
                }
            }),
    {
        match (self.phase, input) {
            (Phase::Idle, AudioInput::Start) => {
                self.phase = Phase::SendingConfig;
                AudioAction::Send(
                    Outgoing::SpeechConfig {
                        request_id: self.request_id.clone(),
                        config: self.config.duplicate(),
                        device: self.device.duplicate(),
                    },
                )
            },
            (Phase::SendingConfig, AudioInput::Sent(None)) => {
                self.phase = Phase::SendingContext;
                AudioAction::Send(
                    Outgoing::SpeechContext {
                        request_id: self.request_id.clone(),
                        config: self.config.duplicate(),
                    },
                )
            },
            (Phase::SendingContext, AudioInput::Sent(None)) => {
                if self.wav {
                    self.phase = Phase::ReadingHeader;
                    AudioAction::ReadAudio
                } else {
                    self.send_header(Phase::SendingHeader)
                }
            },
            (Phase::SendingConfig, AudioInput::Sent(Some(e)))
            | (Phase::SendingContext, AudioInput::Sent(Some(e)))
            | (Phase::SendingHeader, AudioInput::Sent(Some(e))) => {
                self.phase = Phase::Done;
                AudioAction::Fail(e)
            },
            (Phase::ReadingHeader, AudioInput::Audio(Some(c))) => {
                match self.reader.push(c) {
                    WavHeaderStep::NeedMore => AudioAction::ReadAudio,
                    WavHeaderStep::Failed(e) => {
                        self.phase = Phase::Done;
                        AudioAction::Fail(e)
                    },
                    WavHeaderStep::Found(header, rest) => {
                        self.header = Some(header);
                        self.buffer = AudioBuffer::new(rest);
                        self.send_header(Phase::SendingHeader)
                    },
                }
            },
            (Phase::ReadingHeader, AudioInput::Audio(None)) => {
                self.phase = Phase::Done;
                AudioAction::Fail(self.reader.finish())
            },
            (Phase::SendingHeader, AudioInput::Sent(None))
            | (Phase::SendingRestartHeader, AudioInput::Sent(None)) => {
                self.phase = Phase::Streaming;
                AudioAction::Wait
            },
            (Phase::Streaming, AudioInput::Restart(id)) => {
                self.request_id = id;
                self.send_header(Phase::SendingRestartHeader)
            },
            (Phase::SendingRestartHeader, AudioInput::Sent(Some(_))) => {
                self.phase = Phase::Done;
                AudioAction::Stop
            },
            (Phase::Streaming, AudioInput::Audio(Some(c))) => {
                self.buffer.extend(c);
                self.send_next_full_chunk()
            },
            (Phase::SendingChunk, AudioInput::Sent(None)) => self.send_next_full_chunk(),
            (Phase::SendingChunk, AudioInput::Sent(Some(_))) => {
                self.phase = Phase::Streaming;
                AudioAction::Wait
            },
            (Phase::Streaming, AudioInput::Audio(None))
            | (Phase::Flushing, AudioInput::Sent(None)) => self.send_next_final_chunk(),
            (Phase::Flushing, AudioInput::Sent(Some(_))) => {
                self.phase = Phase::SendingEnd;
                AudioAction::Send(Outgoing::AudioEnd { request_id: self.request_id.clone() })
            },
            (Phase::SendingEnd, AudioInput::Sent(_)) => {
                self.phase = Phase::Done;
                AudioAction::Complete
            },
            _ => AudioAction::Ignored,
        }
    }
}

/// What to do with a message from the connection.
#[derive(Debug)]
pub enum MessageStep {
    /// The message is not for the current request, or the stream has ended.
    Skip,
    /// The message is for the current request: route it.
    Route(Routing),
    /// The connection failed: deliver the error.
    Fail(Error),
}

/// An event that goes out on the event stream, and whether it ends a turn,
/// so that the audio side must restart under a new request.
#[derive(Debug)]
pub struct Delivered {
    pub event: Result<Event, Error>,
    pub restart: bool,
}

/// The event side of a translation session: the stream of events, which
/// ends after the first error.
pub struct EventStream {
    ended: bool,
}

impl EventStream {
    /// Whether the stream has ended.
    pub closed spec fn has_ended(&self) -> bool {
        self.ended
    }

    /// A stream that has not ended.
    pub fn new() -> (r: Self)
        ensures
            !r.has_ended(),
    {
        EventStream { ended: false }
    }

    /// Whether the stream has ended.
    pub fn ended(&self) -> (r: bool)
        ensures
            r == self.has_ended(),
    {
        self.ended
    }

    /// Takes a message from the connection while the session runs under
    /// `request_id`: messages of other requests are skipped, errors are
    /// delivered, and the session's own messages are routed.
    pub fn on_message(&self, message: Result<Message, Error>, request_id: &RequestId) -> (r:
        MessageStep)
        ensures
            self.has_ended() ==> r is Skip,
            !self.has_ended() ==> match message {
                Err(e) => r == MessageStep::Fail(e),
                Ok(m) => if m.id@ == request_id@ {
                    r matches MessageStep::Route(routing) && routes_as(m, request_id@, routing)
                } else {
                    r is Skip
                },
            },
    {
        if self.ended {
            return MessageStep::Skip;
        }
        match message {
            Err(e) => MessageStep::Fail(e),
            Ok(m) => {
                if str_eq(m.id.as_str(), request_id.as_str()) {
                    MessageStep::Route(route_message(m, request_id))
                } else {
                    MessageStep::Skip
                }
            },
        }
    }

    /// Puts an event on the stream: nothing once the stream has ended;
    /// otherwise the event, marked for a restart when it ends a turn. The
    /// stream ends after an error.
    pub fn deliver(&mut self, event: Result<Event, Error>) -> (r: Option<Delivered>)
        ensures
            old(self).has_ended() ==> r is None && final(self).has_ended(),
            !old(self).has_ended() ==> {
                &&& r matches Some(d) && d.event == event && d.restart == (event matches Ok(
                    Event::SessionEnded(_),
                ))
                &&& final(self).has_ended() == event is Err
            },
    {
        if self.ended {
            return None;
        }
        let restart = match &event {
            Ok(Event::SessionEnded(_)) => true,
            _ => false,
        };
        self.ended = event.is_err();
        Some(Delivered { event, restart })
    }
}

} // verus!
