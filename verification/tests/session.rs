use aa_headunit_diagnostics::error::CliError;
use aa_headunit_diagnostics::probe::{AudioFocusRequest, AudioFocusState, KeyBindingStatus};
use aa_headunit_diagnostics::session::{
    channel_setup_complete, codec_for_configuration, decoder_id, post_discovery_reply,
    route_message, ChannelPhase, ChannelStep, ChannelTable, ControlReply, DedicatedChannel,
    MessageKind, PipelinePhase, Playback, PostDiscoveryControl, Route, VideoCodec,
    bluetooth_reply, input_reply, sensor_reply, BluetoothMessage, InputMessage, SensorBatch,
    SensorMessage, SensorType,
};

#[test]
fn messages_are_routed_by_channel() {
    assert_eq!(route_message(0, false, false, false), Route::Handshake);
    assert_eq!(route_message(0, true, false, false), Route::PostDiscoveryControl);
    assert_eq!(route_message(1, true, false, false), Route::Video);
    assert_eq!(route_message(6, true, false, false), Route::Sensors);
    assert_eq!(route_message(2, true, false, false), Route::Simple(2));
    assert_eq!(route_message(2, true, true, false), Route::Input);
    assert_eq!(route_message(7, true, false, true), Route::Bluetooth);
    assert_eq!(route_message(42, true, true, true), Route::Simple(42));
}

#[test]
fn no_channel_accepts_anything_before_service_discovery() {
    let mut table = ChannelTable::new();
    assert_eq!(
        table.accept_dedicated(DedicatedChannel::MediaAudio, MessageKind::Control),
        Err(CliError::Protocol(
            "media-audio channel message before ServiceDiscoveryResponse was sent".into()
        ))
    );
    assert_eq!(
        table.accept_simple(8, MessageKind::Control),
        Err(CliError::Protocol("message on unadvertised channel 8".into()))
    );
}

#[test]
fn an_armed_channel_opens_once_then_takes_only_its_traffic() {
    let mut table = ChannelTable::new();
    table.arm_after_service_discovery();
    assert_eq!(
        table.accept_dedicated(DedicatedChannel::Video, MessageKind::Specific),
        Err(CliError::Protocol("expected ChannelOpenRequest on video channel".into()))
    );
    assert_eq!(table.accept_dedicated(DedicatedChannel::Video, MessageKind::Control), Ok(ChannelStep::Open));
    assert_eq!(table.dedicated_phase(DedicatedChannel::Video), Some(ChannelPhase::Open));
    assert_eq!(table.dedicated_phase(DedicatedChannel::Sensors), Some(ChannelPhase::AwaitingOpen));
    assert_eq!(
        table.accept_dedicated(DedicatedChannel::Video, MessageKind::Control),
        Err(CliError::Protocol("expected a video-channel media message".into()))
    );
    assert_eq!(table.accept_dedicated(DedicatedChannel::Video, MessageKind::Specific), Ok(ChannelStep::Traffic));
    table.accept_dedicated(DedicatedChannel::Sensors, MessageKind::Control).unwrap();
    assert_eq!(
        table.accept_dedicated(DedicatedChannel::Sensors, MessageKind::Control),
        Err(CliError::Protocol("unexpected message type on sensors channel after open".into()))
    );
}

#[test]
fn the_other_channels_only_open() {
    let mut table = ChannelTable::new();
    table.arm_after_service_discovery();
    assert_eq!(
        table.accept_simple(9, MessageKind::Specific),
        Err(CliError::Protocol("expected ChannelOpenRequest on channel 9".into()))
    );
    assert_eq!(table.accept_simple(2, MessageKind::Control), Ok(()));
    assert_eq!(table.simple_phase(2), Some(ChannelPhase::Open));
    assert_eq!(
        table.accept_simple(2, MessageKind::Control),
        Err(CliError::Protocol("unexpected message on channel 2 after open".into()))
    );
    assert_eq!(table.simple_phase(12), None);
    assert!(channel_setup_complete(true, true));
    assert!(!channel_setup_complete(true, false));
}

#[test]
fn control_replies_after_service_discovery() {
    assert_eq!(
        post_discovery_reply(
            MessageKind::Specific,
            PostDiscoveryControl::AudioFocusRequest(AudioFocusRequest::GainTransient)
        ),
        Ok(ControlReply::AudioFocusNotification(AudioFocusState::GainTransient))
    );
    assert_eq!(
        post_discovery_reply(MessageKind::Specific, PostDiscoveryControl::PingRequest(1234)),
        Ok(ControlReply::PingResponse(1234))
    );
    assert_eq!(
        post_discovery_reply(MessageKind::Specific, PostDiscoveryControl::PingResponse(1)),
        Ok(ControlReply::RecordPong)
    );
    assert_eq!(
        post_discovery_reply(MessageKind::Specific, PostDiscoveryControl::ByeByeRequest("Quit".into())),
        Ok(ControlReply::EndSession("Quit".into()))
    );
    assert_eq!(
        post_discovery_reply(MessageKind::Specific, PostDiscoveryControl::Other("Unknown(42)".into())),
        Err(CliError::Protocol("unexpected control message Unknown(42) after service discovery".into()))
    );
    assert_eq!(
        post_discovery_reply(MessageKind::Control, PostDiscoveryControl::NavFocusRequest),
        Err(CliError::Protocol("unexpected control message type after service discovery".into()))
    );
}

#[test]
fn video_codec_and_decoder() {
    assert_eq!(codec_for_configuration(0), VideoCodec::H264);
    assert_eq!(codec_for_configuration(1), VideoCodec::Hevc);
    assert_eq!(decoder_id(VideoCodec::Hevc), "gstreamer:avdec_h265");
}

#[test]
fn playback_pipeline_lifecycle() {
    let unavailable = Playback::new(false);
    assert!(!unavailable.should_start());
    assert!(!unavailable.should_push());

    let mut playback = Playback::new(true);
    assert!(playback.should_start());
    playback.record_start(true);
    assert!(!playback.should_start());
    assert!(playback.should_push());
    assert!(playback.record_push(true, false));
    assert!(!playback.record_push(true, false));
    assert!(!playback.record_push(true, true));
    assert_eq!(playback.phase, PipelinePhase::Failed);
    assert!(!playback.should_push());
    assert!(!playback.should_start());
}

#[test]
fn sensor_input_and_bluetooth_replies() {
    assert_eq!(
        sensor_reply(&SensorMessage::SensorRequest(SensorType::DrivingStatusData)),
        Ok(Some(SensorBatch::DrivingStatusUnrestricted))
    );
    assert_eq!(
        sensor_reply(&SensorMessage::SensorRequest(SensorType::NightMode)),
        Ok(Some(SensorBatch::NightModeOff))
    );
    assert_eq!(sensor_reply(&SensorMessage::SensorRequest(SensorType::Unknown(13))), Ok(None));
    assert_eq!(
        sensor_reply(&SensorMessage::Other("SensorBatch".into())),
        Err(CliError::Protocol("unexpected sensor message SensorBatch after open".into()))
    );
    assert_eq!(
        input_reply(MessageKind::Specific, &InputMessage::KeyBindingRequest),
        Ok(KeyBindingStatus::Success)
    );
    assert_eq!(
        input_reply(MessageKind::Control, &InputMessage::KeyBindingRequest),
        Err(CliError::Protocol("unexpected message type on input channel after open".into()))
    );
    assert_eq!(bluetooth_reply(MessageKind::Specific, &BluetoothMessage::PairingRequest), Ok(()));
    assert_eq!(
        bluetooth_reply(MessageKind::Specific, &BluetoothMessage::Other("AuthenticationData".into())),
        Err(CliError::Protocol("unexpected bluetooth message AuthenticationData after open".into()))
    );
}
