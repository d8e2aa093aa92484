use media_sender::errors::{SenderError, UpstreamError};
use media_sender::sender::RTCRtpSender;
use media_sender::stream::{RTCRtpEncodingParameters, RTCRtpSendParameters, StreamInfo};
use media_sender::track::{
    MediaKind, PacketWriter, TrackLocal, TrackLocalContext, TransformChain,
};
use std::cell::RefCell;
use std::rc::Rc;

type Log = Rc<RefCell<Vec<&'static str>>>;

struct MockTrack {
    kind: MediaKind,
    log: Log,
    fail_unbind: bool,
}

impl TrackLocal for MockTrack {
    fn identity_spec(&self) -> u64 {
        unreachable!()
    }

    fn kind_spec(&self) -> MediaKind {
        unreachable!()
    }

    fn kind(&self) -> MediaKind {
        self.kind
    }

    fn unbind(&mut self, _context: &TrackLocalContext) -> Result<(), UpstreamError> {
        self.log.borrow_mut().push("track_unbind");
        if self.fail_unbind {
            Err(UpstreamError { message: "unbind refused".to_string() })
        } else {
            Ok(())
        }
    }
}

struct MockWriter {
    log: Log,
}

impl PacketWriter for MockWriter {
    fn write(&mut self, packet: &[u8]) -> Result<usize, UpstreamError> {
        Ok(packet.len())
    }

    fn close(&mut self) -> Result<(), UpstreamError> {
        self.log.borrow_mut().push("writer_close");
        Ok(())
    }
}

struct MockChain {
    log: Log,
}

impl TransformChain<MockWriter, u32> for MockChain {
    fn bind_local_stream(&mut self, _stream: &StreamInfo, _writer: &MockWriter) -> u32 {
        self.log.borrow_mut().push("chain_bind");
        7
    }

    fn unbind_local_stream(&mut self, _stream: &StreamInfo) {
        self.log.borrow_mut().push("chain_unbind");
    }
}

type Sender = RTCRtpSender<MockTrack, MockWriter, MockChain, u32>;

fn new_sender(log: &Log) -> Sender {
    RTCRtpSender::new(
        "sender-1".to_string(),
        0x1234_5678,
        111,
        MockWriter { log: log.clone() },
        MockChain { log: log.clone() },
    )
}

fn new_track(log: &Log, kind: MediaKind) -> MockTrack {
    MockTrack { kind, log: log.clone(), fail_unbind: false }
}

fn params(ssrc: u32) -> RTCRtpSendParameters {
    RTCRtpSendParameters {
        encodings: vec![RTCRtpEncodingParameters { ssrc, payload_type: 111 }],
    }
}

#[test]
fn fresh_sender_has_clean_state() {
    let log: Log = Log::default();
    let sender = new_sender(&log);
    assert!(sender.track().is_none());
    assert!(!sender.has_sent());
    assert!(!sender.is_negotiated());
    let p = sender.get_parameters();
    assert_eq!(p.encodings.len(), 1);
    assert_eq!(p.encodings[0].ssrc, 0x1234_5678);
    assert_eq!(p.encodings[0].payload_type, 111);
}

#[test]
fn negotiated_flag_is_sticky() {
    let log: Log = Log::default();
    let mut sender = new_sender(&log);
    assert!(!sender.is_negotiated());
    sender.set_negotiated();
    assert!(sender.is_negotiated());
}

#[test]
fn double_send_yields_one_success_and_one_already_sent() {
    let log: Log = Log::default();
    let mut sender = new_sender(&log);
    let first = sender.send(&params(9001));
    let second = sender.send(&params(9001));
    assert_eq!(first, Ok(()));
    assert_eq!(second, Err(SenderError::AlreadySent));
    assert!(sender.has_sent());
    assert_eq!(log.borrow().as_slice(), ["chain_bind"]);
    assert_eq!(sender.stream_info.ssrc, 9001);
    assert_eq!(sender.stream_info.id, "sender-1");
    assert_eq!(sender.context.id, "sender-1");
    assert_eq!(sender.bound_writer, Some(7));
}

#[test]
fn send_with_bound_track_fails_unsupported() {
    let log: Log = Log::default();
    let mut sender = new_sender(&log);
    sender
        .replace_track(Some(new_track(&log, MediaKind::Audio)))
        .unwrap();
    let r = sender.send(&params(9001));
    assert_eq!(r, Err(SenderError::UnsupportedCodec));
    assert!(!sender.has_sent());
}

#[test]
fn repeated_stop_tears_down_exactly_once() {
    let log: Log = Log::default();
    let mut sender = new_sender(&log);
    sender.send(&params(9001)).unwrap();
    assert_eq!(sender.stop(), Ok(()));
    assert_eq!(sender.stop(), Ok(()));
    assert_eq!(sender.stop(), Ok(()));
    assert_eq!(
        log.borrow().as_slice(),
        ["chain_bind", "chain_unbind", "writer_close"]
    );
}

#[test]
fn stop_unbinds_stream_before_closing_writer() {
    let log: Log = Log::default();
    let mut sender = new_sender(&log);
    sender.send(&params(9001)).unwrap();
    sender.sent = true;
    sender.track = Some(new_track(&log, MediaKind::Audio));
    sender.stop().unwrap();
    assert_eq!(
        log.borrow().as_slice(),
        ["chain_bind", "track_unbind", "chain_unbind", "writer_close"]
    );
    assert!(sender.track().is_none());
}

#[test]
fn stop_before_send_is_success_without_teardown() {
    let log: Log = Log::default();
    let mut sender = new_sender(&log);
    assert_eq!(sender.stop(), Ok(()));
    assert_eq!(sender.stop(), Ok(()));
    assert!(log.borrow().is_empty());
}

#[test]
fn replace_none_before_send_succeeds_and_clears_track() {
    let log: Log = Log::default();
    let mut sender = new_sender(&log);
    assert_eq!(sender.replace_track(None), Ok(()));
    assert!(sender.track().is_none());
    sender
        .replace_track(Some(new_track(&log, MediaKind::Video)))
        .unwrap();
    assert!(sender.track().is_some());
    assert_eq!(sender.replace_track(None), Ok(()));
    assert!(sender.track().is_none());
    assert!(log.borrow().is_empty());
}

#[test]
fn mismatched_kind_fails_against_resolvable_transceiver() {
    let log: Log = Log::default();
    let mut sender = new_sender(&log);
    sender.set_rtp_transceiver(Some(MediaKind::Audio));
    let r = sender.replace_track(Some(new_track(&log, MediaKind::Video)));
    assert_eq!(r, Err(SenderError::NegotiationMismatch));
    assert!(sender.track().is_none());
}

#[test]
fn matching_kind_succeeds_against_resolvable_transceiver() {
    let log: Log = Log::default();
    let mut sender = new_sender(&log);
    sender.set_rtp_transceiver(Some(MediaKind::Audio));
    let r = sender.replace_track(Some(new_track(&log, MediaKind::Audio)));
    assert_eq!(r, Ok(()));
    assert!(sender.track().is_some());
}

#[test]
fn unresolvable_transceiver_skips_kind_validation() {
    let log: Log = Log::default();
    let mut sender = new_sender(&log);
    sender.set_rtp_transceiver(None);
    let r = sender.replace_track(Some(new_track(&log, MediaKind::Video)));
    assert_eq!(r, Ok(()));
    assert!(sender.track().is_some());
}

#[test]
fn replace_after_send_unbinds_previous_track() {
    let log: Log = Log::default();
    let mut sender = new_sender(&log);
    sender.sent = true;
    sender.track = Some(new_track(&log, MediaKind::Audio));
    assert_eq!(sender.replace_track(None), Ok(()));
    assert_eq!(log.borrow().as_slice(), ["track_unbind"]);
    assert!(sender.track().is_none());
}

#[test]
fn replace_after_send_keeps_previous_track() {
    let log: Log = Log::default();
    let mut sender = new_sender(&log);
    sender.sent = true;
    sender.track = Some(new_track(&log, MediaKind::Audio));
    let r = sender.replace_track(Some(new_track(&log, MediaKind::Video)));
    assert_eq!(r, Ok(()));
    assert_eq!(log.borrow().as_slice(), ["track_unbind"]);
    let surviving = sender.track().as_ref().unwrap();
    assert_eq!(surviving.kind, MediaKind::Audio);
}

#[test]
fn replace_after_send_does_not_bind_new_track() {
    let log: Log = Log::default();
    let mut sender = new_sender(&log);
    sender.send(&params(9001)).unwrap();
    let r = sender.replace_track(Some(new_track(&log, MediaKind::Audio)));
    assert_eq!(r, Ok(()));
    assert!(sender.track().is_none());
}

#[test]
fn unbind_failure_propagates_verbatim() {
    let log: Log = Log::default();
    let mut sender = new_sender(&log);
    sender.sent = true;
    sender.track = Some(MockTrack {
        kind: MediaKind::Audio,
        log: log.clone(),
        fail_unbind: true,
    });
    let r = sender.replace_track(None);
    assert_eq!(
        r,
        Err(SenderError::Upstream(UpstreamError {
            message: "unbind refused".to_string()
        }))
    );
    assert!(sender.track().is_some());
    assert_eq!(log.borrow().as_slice(), ["track_unbind"]);
}
