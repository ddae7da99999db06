//! How the authenticated session routes each message the phone sends:
//! to the handshake or the post-discovery control handler on channel 0,
//! or to the channel it arrived on, each channel first accepting only its
//! open request and then only its own traffic; and what the head unit
//! answers on the control channel once service discovery is done.

use vstd::prelude::*;

use crate::error::{CliError, CliErrorView};
use crate::probe::{
    evaluate_key_binding_request, grant_audio_focus, spec_grant_audio_focus, AudioFocusRequest,
    AudioFocusState, KeyBindingStatus,
};
use crate::text::{decimal, spec_decimal};

verus! {

/// The channel the head unit advertises for video.
pub const VIDEO_CHANNEL_ID: u8 = 1;

/// The channel for touch and key input.
pub const INPUT_CHANNEL_ID: u8 = 2;

/// The channel for media audio.
pub const MEDIA_AUDIO_CHANNEL_ID: u8 = 3;

/// The channel for system sounds.
pub const SYSTEM_AUDIO_CHANNEL_ID: u8 = 4;

/// The channel for speech audio.
pub const SPEECH_AUDIO_CHANNEL_ID: u8 = 5;

/// The channel for sensor data.
pub const SENSORS_CHANNEL_ID: u8 = 6;

/// The channel for Bluetooth pairing.
pub const BLUETOOTH_CHANNEL_ID: u8 = 7;

/// The channel for the microphone.
pub const MICROPHONE_CHANNEL_ID: u8 = 8;

/// The channel for the radio.
pub const RADIO_CHANNEL_ID: u8 = 9;

/// The type a message is framed with.
#[derive(Debug, Clone, Copy, PartialEq, Eq, Structural)]
pub enum MessageKind {
    /// Channel-control traffic, such as an open request.
    Control,
    /// The channel's own traffic.
    Specific,
}

/// Where a message from the phone is handled.
#[derive(Debug, Clone, Copy, PartialEq, Eq, Structural)]
pub enum Route {
    /// Channel 0 during the handshake.
    Handshake,
    /// Channel 0 once service discovery has been received.
    PostDiscoveryControl,
    Video,
    MediaAudio,
    SystemAudio,
    SpeechAudio,
    Sensors,
    /// The input channel, once it is open.
    Input,
    /// The Bluetooth channel, once it is open.
    Bluetooth,
    /// Any other channel, which only ever opens.
    Simple(u8),
}

/// Where a message arriving on `channel_id` is handled.
pub open spec fn spec_route_message(
    channel_id: u8,
    discovery_received: bool,
    input_open: bool,
    bluetooth_open: bool,
) -> Route {
    if channel_id == 0 {
        if discovery_received {
            Route::PostDiscoveryControl
        } else {
            Route::Handshake
        }
    } else if channel_id == VIDEO_CHANNEL_ID {
        Route::Video
    } else if channel_id == MEDIA_AUDIO_CHANNEL_ID {
        Route::MediaAudio
    } else if channel_id == SYSTEM_AUDIO_CHANNEL_ID {
        Route::SystemAudio
    } else if channel_id == SPEECH_AUDIO_CHANNEL_ID {
        Route::SpeechAudio
    } else if channel_id == SENSORS_CHANNEL_ID {
        Route::Sensors
    } else if channel_id == INPUT_CHANNEL_ID && input_open {
        Route::Input
    } else if channel_id == BLUETOOTH_CHANNEL_ID && bluetooth_open {
        Route::Bluetooth
    } else {
        Route::Simple(channel_id)
    }
}

/// Where a message arriving on `channel_id` is handled.
pub fn route_message(
    channel_id: u8,
    discovery_received: bool,
    input_open: bool,
    bluetooth_open: bool,
) -> (r: Route)
    ensures
        r == spec_route_message(channel_id, discovery_received, input_open, bluetooth_open),
{
    if channel_id == 0 {
        if discovery_received {
            Route::PostDiscoveryControl
        } else {
            Route::Handshake
        }
    } else if channel_id == VIDEO_CHANNEL_ID {
        Route::Video
    } else if channel_id == MEDIA_AUDIO_CHANNEL_ID {
        Route::MediaAudio
    } else if channel_id == SYSTEM_AUDIO_CHANNEL_ID {
        Route::SystemAudio
    } else if channel_id == SPEECH_AUDIO_CHANNEL_ID {
        Route::SpeechAudio
    } else if channel_id == SENSORS_CHANNEL_ID {
        Route::Sensors
    } else if channel_id == INPUT_CHANNEL_ID && input_open {
        Route::Input
    } else if channel_id == BLUETOOTH_CHANNEL_ID && bluetooth_open {
        Route::Bluetooth
    } else {
        Route::Simple(channel_id)
    }
}

/// Where a channel stands: awaiting its open request, or open.
#[derive(Debug, Clone, Copy, PartialEq, Eq, Structural)]
pub enum ChannelPhase {
    AwaitingOpen,
    Open,
}

/// The channels with a handler of their own.
#[derive(Debug, Clone, Copy, PartialEq, Eq, Structural)]
pub enum DedicatedChannel {
    Video,
    MediaAudio,
    SystemAudio,
    SpeechAudio,
    Sensors,
}

/// A dedicated channel's name in messages.
pub open spec fn spec_channel_name(channel: DedicatedChannel) -> Seq<char> {
    match channel {
        DedicatedChannel::Video => "video"@,
        DedicatedChannel::MediaAudio => "media-audio"@,
        DedicatedChannel::SystemAudio => "system-audio"@,
        DedicatedChannel::SpeechAudio => "speech-audio"@,
        DedicatedChannel::Sensors => "sensors"@,
    }
}

fn channel_name(channel: DedicatedChannel) -> (r: &'static str)
    ensures
        r@ == spec_channel_name(channel),
{
    match channel {
        DedicatedChannel::Video => "video",
        DedicatedChannel::MediaAudio => "media-audio",
        DedicatedChannel::SystemAudio => "system-audio",
        DedicatedChannel::SpeechAudio => "speech-audio",
        DedicatedChannel::Sensors => "sensors",
    }
}

/// What a dedicated channel does with an accepted message.
#[derive(Debug, Clone, Copy, PartialEq, Eq, Structural)]
pub enum ChannelStep {
    /// Answer the open request; the channel is open from then on.
    Open,
    /// Hand the message to the open channel's own setup.
    Traffic,
}

/// What a dedicated channel makes of a message: nothing is accepted
/// before service discovery has armed it; an armed channel accepts only
/// its open request, a control message; an open one only its own
/// traffic.
pub open spec fn spec_check_dedicated_message(
    channel: DedicatedChannel,
    phase: Option<ChannelPhase>,
    kind: MessageKind,
) -> Result<ChannelStep, CliErrorView> {
    let name = spec_channel_name(channel);
    match phase {
        None => Err(
            CliErrorView::Protocol(
                name + " channel message before ServiceDiscoveryResponse was sent"@,
            ),
        ),
        Some(ChannelPhase::AwaitingOpen) => if kind == MessageKind::Control {
            Ok(ChannelStep::Open)
        } else {
            Err(CliErrorView::Protocol("expected ChannelOpenRequest on "@ + name + " channel"@))
        },
        Some(ChannelPhase::Open) => if kind == MessageKind::Specific {
            Ok(ChannelStep::Traffic)
        } else if channel == DedicatedChannel::Sensors {
            Err(CliErrorView::Protocol("unexpected message type on sensors channel after open"@))
        } else {
            Err(CliErrorView::Protocol("expected a "@ + name + "-channel media message"@))
        },
    }
}

/// A check's result as a view.
pub open spec fn step_view(r: Result<ChannelStep, CliError>) -> Result<ChannelStep, CliErrorView> {
    match r {
        Ok(s) => Ok(s),
        Err(e) => Err(e@),
    }
}

fn protocol_error(a: &str, b: &str, c: &str) -> (e: CliError)
    ensures
        e@ == CliErrorView::Protocol(a@ + b@ + c@),
{
    CliError::Protocol(String::from_str(a).concat(b).concat(c))
}

/// What a dedicated channel makes of a message.
pub fn check_dedicated_message(
    channel: DedicatedChannel,
    phase: Option<ChannelPhase>,
    kind: MessageKind,
) -> (r: Result<ChannelStep, CliError>)
    ensures
        step_view(r) == spec_check_dedicated_message(channel, phase, kind),
{
    let name = channel_name(channel);
    match phase {
        None => {
            let e = protocol_error(
                name,
                " channel message before ServiceDiscoveryResponse was sent",
                "",
            );
            proof {
                reveal_strlit("");
                assert(e@->Protocol_0 =~= name@
                    + " channel message before ServiceDiscoveryResponse was sent"@);
            }
            Err(e)
        },
        Some(ChannelPhase::AwaitingOpen) => if kind == MessageKind::Control {
            Ok(ChannelStep::Open)
        } else {
            Err(protocol_error("expected ChannelOpenRequest on ", name, " channel"))
        },
        Some(ChannelPhase::Open) => if kind == MessageKind::Specific {
            Ok(ChannelStep::Traffic)
        } else if channel == DedicatedChannel::Sensors {
            Err(
                CliError::Protocol(
                    String::from_str("unexpected message type on sensors channel after open"),
                ),
            )
        } else {
            Err(protocol_error("expected a ", name, "-channel media message"))
        },
    }
}

/// What one of the other channels makes of a message: it must be one the
/// head unit advertised, still awaiting its open request, and the message
/// must be that request.
pub open spec fn spec_check_simple_message(
    channel_id: u8,
    phase: Option<ChannelPhase>,
    kind: MessageKind,
) -> Result<(), CliErrorView> {
    let id = spec_decimal(channel_id as nat);
    match phase {
        None => Err(CliErrorView::Protocol("message on unadvertised channel "@ + id)),
        Some(ChannelPhase::Open) => Err(
            CliErrorView::Protocol("unexpected message on channel "@ + id + " after open"@),
        ),
        Some(ChannelPhase::AwaitingOpen) => if kind == MessageKind::Control {
            Ok(())
        } else {
            Err(CliErrorView::Protocol("expected ChannelOpenRequest on channel "@ + id))
        },
    }
}

/// A check's result as a view.
pub open spec fn unit_view(r: Result<(), CliError>) -> Result<(), CliErrorView> {
    match r {
        Ok(()) => Ok(()),
        Err(e) => Err(e@),
    }
}

/// What one of the other channels makes of a message.
pub fn check_simple_message(channel_id: u8, phase: Option<ChannelPhase>, kind: MessageKind) -> (r:
    Result<(), CliError>)
    ensures
        unit_view(r) == spec_check_simple_message(channel_id, phase, kind),
{
    let id = decimal(channel_id as u64);
    match phase {
        None => Err(
            CliError::Protocol(
                String::from_str("message on unadvertised channel ").concat(id.as_str()),
            ),
        ),
        Some(ChannelPhase::Open) => Err(
            protocol_error("unexpected message on channel ", id.as_str(), " after open"),
        ),
        Some(ChannelPhase::AwaitingOpen) => if kind == MessageKind::Control {
            Ok(())
        } else {
            Err(
                CliError::Protocol(
                    String::from_str("expected ChannelOpenRequest on channel ").concat(
                        id.as_str(),
                    ),
                ),
            )
        },
    }
}

/// The channels that only ever open.
pub open spec fn is_simple_channel(channel_id: u8) -> bool {
    channel_id == INPUT_CHANNEL_ID || channel_id == BLUETOOTH_CHANNEL_ID || channel_id
        == MICROPHONE_CHANNEL_ID || channel_id == RADIO_CHANNEL_ID
}

/// Where every channel of a session stands.
pub struct ChannelTable {
    video: Option<ChannelPhase>,
    media_audio: Option<ChannelPhase>,
    system_audio: Option<ChannelPhase>,
    speech_audio: Option<ChannelPhase>,
    sensors: Option<ChannelPhase>,
    input: Option<ChannelPhase>,
    bluetooth: Option<ChannelPhase>,
    microphone: Option<ChannelPhase>,
    radio: Option<ChannelPhase>,
}

/// The phase a table gives a dedicated channel.
pub closed spec fn spec_dedicated_phase(t: ChannelTable, channel: DedicatedChannel) -> Option<
    ChannelPhase,
> {
    match channel {
        DedicatedChannel::Video => t.video,
        DedicatedChannel::MediaAudio => t.media_audio,
        DedicatedChannel::SystemAudio => t.system_audio,
        DedicatedChannel::SpeechAudio => t.speech_audio,
        DedicatedChannel::Sensors => t.sensors,
    }
}

/// The phase a table gives one of the other channels.
pub closed spec fn spec_simple_phase(t: ChannelTable, channel_id: u8) -> Option<ChannelPhase> {
    if channel_id == INPUT_CHANNEL_ID {
        t.input
    } else if channel_id == BLUETOOTH_CHANNEL_ID {
        t.bluetooth
    } else if channel_id == MICROPHONE_CHANNEL_ID {
        t.microphone
    } else if channel_id == RADIO_CHANNEL_ID {
        t.radio
    } else {
        None
    }
}

impl ChannelTable {
    /// Before service discovery: no channel advertised.
    pub fn new() -> (t: ChannelTable)
        ensures
            forall|c: DedicatedChannel| spec_dedicated_phase(t, c) is None,
            forall|id: u8| spec_simple_phase(t, id) is None,
    {
        ChannelTable {
            video: None,
            media_audio: None,
            system_audio: None,
            speech_audio: None,
            sensors: None,
            input: None,
            bluetooth: None,
            microphone: None,
            radio: None,
        }
    }

    /// Once the service discovery response is sent: every advertised
    /// channel awaits its open request.
    pub fn arm_after_service_discovery(&mut self)
        ensures
            forall|c: DedicatedChannel|
                spec_dedicated_phase(*final(self), c) == Some(ChannelPhase::AwaitingOpen),
            forall|id: u8|
                spec_simple_phase(*final(self), id) == if is_simple_channel(id) {
                    Some(ChannelPhase::AwaitingOpen)
                } else {
                    None
                },
    {
        let armed = Some(ChannelPhase::AwaitingOpen);
        self.video = armed;
        self.media_audio = armed;
        self.system_audio = armed;
        self.speech_audio = armed;
        self.sensors = armed;
        self.input = armed;
        self.bluetooth = armed;
        self.microphone = armed;
        self.radio = armed;
    }

    /// Where a dedicated channel stands.
    pub fn dedicated_phase(&self, channel: DedicatedChannel) -> (r: Option<ChannelPhase>)
        ensures
            r == spec_dedicated_phase(*self, channel),
    {
        match channel {
            DedicatedChannel::Video => self.video,
            DedicatedChannel::MediaAudio => self.media_audio,
            DedicatedChannel::SystemAudio => self.system_audio,
            DedicatedChannel::SpeechAudio => self.speech_audio,
            DedicatedChannel::Sensors => self.sensors,
        }
    }

    /// Where one of the other channels stands.
    pub fn simple_phase(&self, channel_id: u8) -> (r: Option<ChannelPhase>)
        ensures
            r == spec_simple_phase(*self, channel_id),
    {
        if channel_id == INPUT_CHANNEL_ID {
            self.input
        } else if channel_id == BLUETOOTH_CHANNEL_ID {
            self.bluetooth
        } else if channel_id == MICROPHONE_CHANNEL_ID {
            self.microphone
        } else if channel_id == RADIO_CHANNEL_ID {
            self.radio
        } else {
            None
        }
    }

    /// Handles a message on a dedicated channel: checks it, and opens the
    /// channel when it was the open request. Nothing changes when the
    /// message is refused.
    pub fn accept_dedicated(&mut self, channel: DedicatedChannel, kind: MessageKind) -> (r: Result<
        ChannelStep,
        CliError,
    >)
        ensures
            step_view(r) == spec_check_dedicated_message(
                channel,
                spec_dedicated_phase(*old(self), channel),
                kind,
            ),
            forall|c: DedicatedChannel|
                spec_dedicated_phase(*final(self), c) == if c == channel && r matches Ok(
                    ChannelStep::Open,
                ) {
                    Some(ChannelPhase::Open)
                } else {
                    spec_dedicated_phase(*old(self), c)
                },
            forall|id: u8| spec_simple_phase(*final(self), id) == spec_simple_phase(*old(self), id),
    {
        let phase = self.dedicated_phase(channel);
        let r = check_dedicated_message(channel, phase, kind);
        if let Ok(ChannelStep::Open) = r {
            let open = Some(ChannelPhase::Open);
            match channel {
                DedicatedChannel::Video => self.video = open,
                DedicatedChannel::MediaAudio => self.media_audio = open,
                DedicatedChannel::SystemAudio => self.system_audio = open,
                DedicatedChannel::SpeechAudio => self.speech_audio = open,
                DedicatedChannel::Sensors => self.sensors = open,
            }
        }
        r
    }

    /// Handles a message on one of the other channels: checks it, and
    /// opens the channel when it was accepted.
    pub fn accept_simple(&mut self, channel_id: u8, kind: MessageKind) -> (r: Result<(), CliError>)
        ensures
            unit_view(r) == spec_check_simple_message(
                channel_id,
                spec_simple_phase(*old(self), channel_id),
                kind,
            ),
            forall|id: u8|
                spec_simple_phase(*final(self), id) == if id == channel_id && r is Ok {
                    Some(ChannelPhase::Open)
                } else {
                    spec_simple_phase(*old(self), id)
                },
            forall|c: DedicatedChannel|
                spec_dedicated_phase(*final(self), c) == spec_dedicated_phase(*old(self), c),
    {
        let phase = self.simple_phase(channel_id);
        let r = check_simple_message(channel_id, phase, kind);
        if r.is_ok() {
            let open = Some(ChannelPhase::Open);
            if channel_id == INPUT_CHANNEL_ID {
                self.input = open;
            } else if channel_id == BLUETOOTH_CHANNEL_ID {
                self.bluetooth = open;
            } else if channel_id == MICROPHONE_CHANNEL_ID {
                self.microphone = open;
            } else {
                self.radio = open;
            }
        }
        r
    }
}

/// Channel setup is complete once video is ready to play and the input
/// channel is open.
pub fn channel_setup_complete(video_ready: bool, input_open: bool) -> (r: bool)
    ensures
        r == (video_ready && input_open),
{
    video_ready && input_open
}

/// A control message the phone sends once service discovery is done.
#[derive(Debug, PartialEq, Eq)]
pub enum PostDiscoveryControl {
    AudioFocusRequest(AudioFocusRequest),
    /// The phone's answer to a ping, echoing its timestamp.
    PingResponse(i64),
    /// The phone's own ping, with its timestamp.
    PingRequest(i64),
    NavFocusRequest,
    VoiceSessionNotification,
    /// The phone ends the session, for the reason named.
    ByeByeRequest(String),
    /// Any other control message, by name.
    Other(String),
}

/// What the head unit does about a post-discovery control message.
#[derive(Debug, PartialEq, Eq)]
pub enum ControlReply {
    /// Answer with the audio focus granted.
    AudioFocusNotification(AudioFocusState),
    /// Note that a ping was answered; send nothing.
    RecordPong,
    /// Answer the phone's ping, echoing its timestamp.
    PingResponse(i64),
    /// Grant navigation focus to the projected display.
    NavFocusNotificationProjected,
    /// Log it; send nothing.
    Ignore,
    /// Acknowledge, then end the session for this reason.
    EndSession(String),
}

/// A [`PostDiscoveryControl`] with its texts as characters.
pub enum PostDiscoveryControlView {
    AudioFocusRequest(AudioFocusRequest),
    PingResponse(i64),
    PingRequest(i64),
    NavFocusRequest,
    VoiceSessionNotification,
    ByeByeRequest(Seq<char>),
    Other(Seq<char>),
}

impl View for PostDiscoveryControl {
    type V = PostDiscoveryControlView;

    open spec fn view(&self) -> PostDiscoveryControlView {
        match self {
            PostDiscoveryControl::AudioFocusRequest(r) => PostDiscoveryControlView::AudioFocusRequest(*r),
            PostDiscoveryControl::PingResponse(t) => PostDiscoveryControlView::PingResponse(*t),
            PostDiscoveryControl::PingRequest(t) => PostDiscoveryControlView::PingRequest(*t),
            PostDiscoveryControl::NavFocusRequest => PostDiscoveryControlView::NavFocusRequest,
            PostDiscoveryControl::VoiceSessionNotification =>
                PostDiscoveryControlView::VoiceSessionNotification,
            PostDiscoveryControl::ByeByeRequest(r) => PostDiscoveryControlView::ByeByeRequest(r@),
            PostDiscoveryControl::Other(n) => PostDiscoveryControlView::Other(n@),
        }
    }
}

/// A [`ControlReply`] with its texts as characters.
pub enum ControlReplyView {
    AudioFocusNotification(AudioFocusState),
    RecordPong,
    PingResponse(i64),
    NavFocusNotificationProjected,
    Ignore,
    EndSession(Seq<char>),
}

impl View for ControlReply {
    type V = ControlReplyView;

    open spec fn view(&self) -> ControlReplyView {
        match self {
            ControlReply::AudioFocusNotification(s) => ControlReplyView::AudioFocusNotification(*s),
            ControlReply::RecordPong => ControlReplyView::RecordPong,
            ControlReply::PingResponse(t) => ControlReplyView::PingResponse(*t),
            ControlReply::NavFocusNotificationProjected =>
                ControlReplyView::NavFocusNotificationProjected,
            ControlReply::Ignore => ControlReplyView::Ignore,
            ControlReply::EndSession(r) => ControlReplyView::EndSession(r@),
        }
    }
}

/// What the head unit does about a control message after service
/// discovery: only the channel's own messages are accepted; focus
/// requests are granted, pings answered or recorded, the phone's
/// session end acknowledged; anything unrecognised ends the session
/// with an error naming it.
pub open spec fn spec_post_discovery_reply(kind: MessageKind, message: PostDiscoveryControlView) -> Result<
    ControlReplyView,
    CliErrorView,
> {
    if kind != MessageKind::Specific {
        Err(CliErrorView::Protocol("unexpected control message type after service discovery"@))
    } else {
        match message {
            PostDiscoveryControlView::AudioFocusRequest(r) => Ok(
                ControlReplyView::AudioFocusNotification(spec_grant_audio_focus(r)),
            ),
            PostDiscoveryControlView::PingResponse(_) => Ok(ControlReplyView::RecordPong),
            PostDiscoveryControlView::PingRequest(t) => Ok(ControlReplyView::PingResponse(t)),
            PostDiscoveryControlView::NavFocusRequest => Ok(
                ControlReplyView::NavFocusNotificationProjected,
            ),
            PostDiscoveryControlView::VoiceSessionNotification => Ok(ControlReplyView::Ignore),
            PostDiscoveryControlView::ByeByeRequest(reason) => Ok(
                ControlReplyView::EndSession(reason),
            ),
            PostDiscoveryControlView::Other(name) => Err(
                CliErrorView::Protocol(
                    "unexpected control message "@ + name + " after service discovery"@,
                ),
            ),
        }
    }
}

/// What the head unit does about a control message after service
/// discovery.
pub fn post_discovery_reply(kind: MessageKind, message: PostDiscoveryControl) -> (r: Result<
    ControlReply,
    CliError,
>)
    ensures
        match r {
            Ok(reply) => spec_post_discovery_reply(kind, message@) == Ok::<
                ControlReplyView,
                CliErrorView,
            >(reply@),
            Err(e) => spec_post_discovery_reply(kind, message@) == Err::<
                ControlReplyView,
                CliErrorView,
            >(e@),
        },
{
    if kind != MessageKind::Specific {
        return Err(
            CliError::Protocol(
                String::from_str("unexpected control message type after service discovery"),
            ),
        );
    }
    match message {
        PostDiscoveryControl::AudioFocusRequest(r) => Ok(
            ControlReply::AudioFocusNotification(grant_audio_focus(r)),
        ),
        PostDiscoveryControl::PingResponse(_) => Ok(ControlReply::RecordPong),
        PostDiscoveryControl::PingRequest(t) => Ok(ControlReply::PingResponse(t)),
        PostDiscoveryControl::NavFocusRequest => Ok(ControlReply::NavFocusNotificationProjected),
        PostDiscoveryControl::VoiceSessionNotification => Ok(ControlReply::Ignore),
        PostDiscoveryControl::ByeByeRequest(reason) => Ok(ControlReply::EndSession(reason)),
        PostDiscoveryControl::Other(name) => Err(
            protocol_error("unexpected control message ", name.as_str(), " after service discovery"),
        ),
    }
}

/// The video codecs the head unit can decode.
#[derive(Debug, Clone, Copy, PartialEq, Eq, Structural)]
pub enum VideoCodec {
    H264,
    Hevc,
}

/// The codec of the video configuration the phone picked: the first one
/// advertised is H.264, the other H.265.
pub fn codec_for_configuration(configuration_index: u32) -> (r: VideoCodec)
    ensures
        r == if configuration_index == 0 {
            VideoCodec::H264
        } else {
            VideoCodec::Hevc
        },
{
    if configuration_index == 0 {
        VideoCodec::H264
    } else {
        VideoCodec::Hevc
    }
}

/// The software decoder used for a codec.
pub open spec fn spec_decoder_id(codec: VideoCodec) -> Seq<char> {
    match codec {
        VideoCodec::H264 => "gstreamer:avdec_h264"@,
        VideoCodec::Hevc => "gstreamer:avdec_h265"@,
    }
}

/// The software decoder used for a codec.
pub fn decoder_id(codec: VideoCodec) -> (r: &'static str)
    ensures
        r@ == spec_decoder_id(codec),
{
    match codec {
        VideoCodec::H264 => "gstreamer:avdec_h264",
        VideoCodec::Hevc => "gstreamer:avdec_h265",
    }
}

/// Where a video or audio output pipeline stands. Rendering is
/// independent of the protocol: a pipeline that cannot be had or fails
/// is logged and given up, never an error of the session.
#[derive(Debug, Clone, Copy, PartialEq, Eq, Structural)]
pub enum PipelinePhase {
    /// The media framework could not be initialised at all.
    Unavailable,
    /// Ready to be built when the channel starts.
    NotStarted,
    Running,
    /// Building, starting or feeding it failed; it is not tried again.
    Failed,
}

/// One channel's output pipeline, and whether its first frame's latency
/// has been reported.
#[derive(Debug, Clone, Copy, PartialEq, Eq, Structural)]
pub struct Playback {
    pub phase: PipelinePhase,
    pub first_frame_reported: bool,
}

impl Playback {
    /// A pipeline waiting for its channel to start, or unavailable for
    /// good when the media framework is.
    pub fn new(backend_available: bool) -> (p: Playback)
        ensures
            p.phase == if backend_available {
                PipelinePhase::NotStarted
            } else {
                PipelinePhase::Unavailable
            },
            !p.first_frame_reported,
    {
        Playback {
            phase: if backend_available {
                PipelinePhase::NotStarted
            } else {
                PipelinePhase::Unavailable
            },
            first_frame_reported: false,
        }
    }

    /// Whether the channel's start should build the pipeline: only the
    /// first time, and only when the framework is there.
    pub fn should_start(&self) -> (r: bool)
        ensures
            r == (self.phase == PipelinePhase::NotStarted),
    {
        self.phase == PipelinePhase::NotStarted
    }

    /// Records whether building and starting the pipeline worked.
    pub fn record_start(&mut self, started: bool)
        requires
            old(self).phase == PipelinePhase::NotStarted,
        ensures
            final(self).phase == if started {
                PipelinePhase::Running
            } else {
                PipelinePhase::Failed
            },
            final(self).first_frame_reported == old(self).first_frame_reported,
    {
        self.phase = if started {
            PipelinePhase::Running
        } else {
            PipelinePhase::Failed
        };
    }

    /// Whether received media is fed to the pipeline: only while it runs.
    pub fn should_push(&self) -> (r: bool)
        ensures
            r == (self.phase == PipelinePhase::Running),
    {
        self.phase == PipelinePhase::Running
    }

    /// Records how feeding the running pipeline went: whether the frame
    /// was taken, and (checked only then) whether the pipeline reported an
    /// error right after. Says whether the frame was the first one taken,
    /// whose latency is then reported; either failure gives the pipeline
    /// up.
    pub fn record_push(&mut self, pushed: bool, bus_error: bool) -> (report_latency: bool)
        requires
            old(self).phase == PipelinePhase::Running,
        ensures
            final(self).phase == if pushed && !bus_error {
                PipelinePhase::Running
            } else {
                PipelinePhase::Failed
            },
            report_latency == (pushed && !old(self).first_frame_reported),
            final(self).first_frame_reported == (old(self).first_frame_reported || pushed),
    {
        if !pushed {
            self.phase = PipelinePhase::Failed;
            return false;
        }
        let first = !self.first_frame_reported;
        self.first_frame_reported = true;
        if bus_error {
            self.phase = PipelinePhase::Failed;
        }
        first
    }
}

/// The sensors the phone asks about.
#[derive(Debug, Clone, Copy, PartialEq, Eq, Structural)]
pub enum SensorType {
    DrivingStatusData,
    NightMode,
    /// Any other sensor, by its wire value.
    Unknown(i32),
}

/// A message on the open sensors channel.
#[derive(Debug, PartialEq, Eq)]
pub enum SensorMessage {
    SensorRequest(SensorType),
    /// Any other sensor message, by name.
    Other(String),
}

/// The data the head unit reports for a sensor right after acknowledging
/// the request.
#[derive(Debug, Clone, Copy, PartialEq, Eq, Structural)]
pub enum SensorBatch {
    /// Driving status: unrestricted.
    DrivingStatusUnrestricted,
    /// Night mode: off.
    NightModeOff,
}

/// A sensor reply's result as a view.
pub open spec fn sensor_view(r: Result<Option<SensorBatch>, CliError>) -> Result<
    Option<SensorBatch>,
    CliErrorView,
> {
    match r {
        Ok(b) => Ok(b),
        Err(e) => Err(e@),
    }
}

/// What the head unit does about a message on the open sensors channel:
/// a request is acknowledged, followed by data for the driving status
/// (unrestricted) and night mode (off), and by nothing for any other
/// sensor; any other message ends the session.
pub open spec fn spec_sensor_reply(message: SensorMessage) -> Result<Option<SensorBatch>, CliErrorView> {
    match message {
        SensorMessage::SensorRequest(SensorType::DrivingStatusData) => Ok(
            Some(SensorBatch::DrivingStatusUnrestricted),
        ),
        SensorMessage::SensorRequest(SensorType::NightMode) => Ok(Some(SensorBatch::NightModeOff)),
        SensorMessage::SensorRequest(SensorType::Unknown(_)) => Ok(None),
        SensorMessage::Other(name) => Err(
            CliErrorView::Protocol("unexpected sensor message "@ + name@ + " after open"@),
        ),
    }
}

/// What the head unit does about a message on the open sensors channel:
/// `Ok` means the request is acknowledged, then the batch (if any) sent.
pub fn sensor_reply(message: &SensorMessage) -> (r: Result<Option<SensorBatch>, CliError>)
    ensures
        sensor_view(r) == spec_sensor_reply(*message),
{
    match message {
        SensorMessage::SensorRequest(SensorType::DrivingStatusData) => Ok(
            Some(SensorBatch::DrivingStatusUnrestricted),
        ),
        SensorMessage::SensorRequest(SensorType::NightMode) => Ok(Some(SensorBatch::NightModeOff)),
        SensorMessage::SensorRequest(SensorType::Unknown(_)) => Ok(None),
        SensorMessage::Other(name) => Err(
            protocol_error("unexpected sensor message ", name.as_str(), " after open"),
        ),
    }
}

/// A message on the open input channel.
#[derive(Debug, PartialEq, Eq)]
pub enum InputMessage {
    KeyBindingRequest,
    /// Any other input message, by name.
    Other(String),
}

/// What the head unit does about a message on the open input channel:
/// only the channel's own messages are accepted; a key-binding request is
/// answered with the status the head unit always gives; anything else
/// ends the session.
pub open spec fn spec_input_reply(kind: MessageKind, message: InputMessage) -> Result<
    KeyBindingStatus,
    CliErrorView,
> {
    if kind != MessageKind::Specific {
        Err(CliErrorView::Protocol("unexpected message type on input channel after open"@))
    } else {
        match message {
            InputMessage::KeyBindingRequest => Ok(KeyBindingStatus::Success),
            InputMessage::Other(name) => Err(
                CliErrorView::Protocol("unexpected input message "@ + name@ + " after open"@),
            ),
        }
    }
}

/// What the head unit does about a message on the open input channel.
pub fn input_reply(kind: MessageKind, message: &InputMessage) -> (r: Result<
    KeyBindingStatus,
    CliError,
>)
    ensures
        match r {
            Ok(status) => spec_input_reply(kind, *message) == Ok::<KeyBindingStatus, CliErrorView>(
                status,
            ),
            Err(e) => spec_input_reply(kind, *message) == Err::<KeyBindingStatus, CliErrorView>(
                e@,
            ),
        },
{
    if kind != MessageKind::Specific {
        return Err(
            CliError::Protocol(
                String::from_str("unexpected message type on input channel after open"),
            ),
        );
    }
    match message {
        InputMessage::KeyBindingRequest => Ok(evaluate_key_binding_request()),
        InputMessage::Other(name) => Err(
            protocol_error("unexpected input message ", name.as_str(), " after open"),
        ),
    }
}

/// A message on the open Bluetooth channel.
#[derive(Debug, PartialEq, Eq)]
pub enum BluetoothMessage {
    PairingRequest,
    /// Any other Bluetooth message, by name.
    Other(String),
}

/// What the head unit does about a message on the open Bluetooth channel:
/// only the channel's own messages are accepted; a pairing request is
/// answered by declining it (`Ok`); anything else ends the session.
pub open spec fn spec_bluetooth_reply(kind: MessageKind, message: BluetoothMessage) -> Result<
    (),
    CliErrorView,
> {
    if kind != MessageKind::Specific {
        Err(CliErrorView::Protocol("unexpected message type on bluetooth channel after open"@))
    } else {
        match message {
            BluetoothMessage::PairingRequest => Ok(()),
            BluetoothMessage::Other(name) => Err(
                CliErrorView::Protocol("unexpected bluetooth message "@ + name@ + " after open"@),
            ),
        }
    }
}

/// What the head unit does about a message on the open Bluetooth channel.
pub fn bluetooth_reply(kind: MessageKind, message: &BluetoothMessage) -> (r: Result<(), CliError>)
    ensures
        unit_view(r) == spec_bluetooth_reply(kind, *message),
{
    if kind != MessageKind::Specific {
        return Err(
            CliError::Protocol(
                String::from_str("unexpected message type on bluetooth channel after open"),
            ),
        );
    }
    match message {
        BluetoothMessage::PairingRequest => Ok(()),
        BluetoothMessage::Other(name) => Err(
            protocol_error("unexpected bluetooth message ", name.as_str(), " after open"),
        ),
    }
}


/// The channel whose traffic a route handles: channel 0 for the
/// handshake and post-discovery control, and each channel's own handler
/// for the rest.
pub open spec fn route_channel(route: Route) -> int {
    match route {
        Route::Handshake => 0,
        Route::PostDiscoveryControl => 0,
        Route::Video => VIDEO_CHANNEL_ID as int,
        Route::MediaAudio => MEDIA_AUDIO_CHANNEL_ID as int,
        Route::SystemAudio => SYSTEM_AUDIO_CHANNEL_ID as int,
        Route::SpeechAudio => SPEECH_AUDIO_CHANNEL_ID as int,
        Route::Sensors => SENSORS_CHANNEL_ID as int,
        Route::Input => INPUT_CHANNEL_ID as int,
        Route::Bluetooth => BLUETOOTH_CHANNEL_ID as int,
        Route::Simple(id) => id as int,
    }
}

/// Every message goes to the handler of the channel it arrived on, so two
/// channels never share a handler; channel 0 goes to the handshake until
/// service discovery is received and to post-discovery control after;
/// the input and Bluetooth channels reach their own handlers only once
/// open; and the generic handler never takes channel 0 or a channel with
/// a handler of its own.
pub proof fn lemma_routes_follow_channels(
    channel_id: u8,
    discovery_received: bool,
    input_open: bool,
    bluetooth_open: bool,
)
    ensures
        ({
            let r = spec_route_message(channel_id, discovery_received, input_open, bluetooth_open);
            &&& route_channel(r) == channel_id as int
            &&& channel_id == 0 ==> (r == Route::Handshake) == !discovery_received
            &&& (r == Route::Input) == (channel_id == INPUT_CHANNEL_ID && input_open)
            &&& (r == Route::Bluetooth) == (channel_id == BLUETOOTH_CHANNEL_ID && bluetooth_open)
            &&& r is Simple ==> channel_id != 0 && channel_id != VIDEO_CHANNEL_ID && channel_id
                != MEDIA_AUDIO_CHANNEL_ID && channel_id != SYSTEM_AUDIO_CHANNEL_ID && channel_id
                != SPEECH_AUDIO_CHANNEL_ID && channel_id != SENSORS_CHANNEL_ID
        }),
{
}

} // verus!
