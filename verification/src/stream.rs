//! The immutable descriptor of one outgoing stream, built once at send time
//! from negotiated parameters and replaced wholesale, never partially
//! mutated.

use vstd::prelude::*;

verus! {

/// Synchronization source identifier of one media stream.
pub type SSRC = u32;

/// Payload type of a negotiated codec.
pub type PayloadType = u8;

/// Capability of a negotiated codec.
#[derive(Debug, Clone, PartialEq, Eq)]
pub struct RTCRtpCodecCapability {
    /// MIME type, such as `audio/opus`.
    pub mime_type: String,
    /// Clock rate in Hertz.
    pub clock_rate: u32,
    /// Number of audio channels.
    pub channels: u16,
    /// The `a=fmtp` line of the codec, if any.
    pub sdp_fmtp_line: String,
}

/// A negotiated codec: its capability and its payload type.
#[derive(Debug, Clone, PartialEq, Eq)]
pub struct RTCRtpCodecParameters {
    /// Capability of the codec.
    pub capability: RTCRtpCodecCapability,
    /// Payload type the codec was negotiated under.
    pub payload_type: PayloadType,
}

impl Default for RTCRtpCodecParameters {
    /// The placeholder codec used while no codec has been negotiated.
    fn default() -> (r: Self)
        ensures
            r.capability.mime_type@ == Seq::<char>::empty(),
            r.capability.clock_rate == 0,
            r.capability.channels == 0,
            r.capability.sdp_fmtp_line@ == Seq::<char>::empty(),
            r.payload_type == 0,
    {
        RTCRtpCodecParameters {
            capability: RTCRtpCodecCapability {
                mime_type: String::new(),
                clock_rate: 0,
                channels: 0,
                sdp_fmtp_line: String::new(),
            },
            payload_type: 0,
        }
    }
}

/// One extension negotiated for a stream's packet headers.
#[derive(Debug, Clone, PartialEq, Eq)]
pub struct RTCRtpHeaderExtensionParameters {
    /// URI naming the extension.
    pub uri: String,
    /// Numeric identifier the extension was negotiated under.
    pub id: u16,
}

/// Immutable description of one outgoing stream: its identity, negotiated
/// codec, and extension list.
#[derive(Debug, Clone, PartialEq, Eq)]
pub struct StreamInfo {
    /// Identifier of the stream; the owning sender's id.
    pub id: String,
    /// Synchronization source of the stream.
    pub ssrc: SSRC,
    /// Payload type of the stream's codec.
    pub payload_type: PayloadType,
    /// MIME type of the stream's codec.
    pub mime_type: String,
    /// Clock rate of the stream's codec.
    pub clock_rate: u32,
    /// Number of audio channels of the stream's codec.
    pub channels: u16,
    /// The `a=fmtp` line of the stream's codec.
    pub sdp_fmtp_line: String,
    /// Extensions negotiated for the stream's packet headers.
    pub rtp_header_extensions: Vec<RTCRtpHeaderExtensionParameters>,
}

impl StreamInfo {
    /// A descriptor with every field empty, held before the first send.
    pub fn empty() -> (r: Self)
        ensures
            r.id@ == Seq::<char>::empty(),
            r.ssrc == 0,
            r.payload_type == 0,
            r.mime_type@ == Seq::<char>::empty(),
            r.clock_rate == 0,
            r.channels == 0,
            r.sdp_fmtp_line@ == Seq::<char>::empty(),
            r.rtp_header_extensions@.len() == 0,
    {
        StreamInfo {
            id: String::new(),
            ssrc: 0,
            payload_type: 0,
            mime_type: String::new(),
            clock_rate: 0,
            channels: 0,
            sdp_fmtp_line: String::new(),
            rtp_header_extensions: Vec::new(),
        }
    }
}

/// Pure construction of a stream descriptor from negotiated parameters.
pub fn create_stream_info(
    id: String,
    ssrc: SSRC,
    payload_type: PayloadType,
    capability: RTCRtpCodecCapability,
    rtp_header_extensions: Vec<RTCRtpHeaderExtensionParameters>,
) -> (r: StreamInfo)
    ensures
        r.id@ == id@,
        r.ssrc == ssrc,
        r.payload_type == payload_type,
        r.mime_type@ == capability.mime_type@,
        r.clock_rate == capability.clock_rate,
        r.channels == capability.channels,
        r.sdp_fmtp_line@ == capability.sdp_fmtp_line@,
        r.rtp_header_extensions@ == rtp_header_extensions@,
{
    StreamInfo {
        id,
        ssrc,
        payload_type,
        mime_type: capability.mime_type,
        clock_rate: capability.clock_rate,
        channels: capability.channels,
        sdp_fmtp_line: capability.sdp_fmtp_line,
        rtp_header_extensions,
    }
}

/// Parameters controlling how media is encoded and transmitted on one
/// sender's encoding.
#[derive(Debug, Clone, Copy, PartialEq, Eq, Structural)]
pub struct RTCRtpEncodingParameters {
    /// Synchronization source of the encoding.
    pub ssrc: SSRC,
    /// Payload type of the encoding.
    pub payload_type: PayloadType,
}

/// Parameters a send attempt is controlled by.
#[derive(Debug, Clone, PartialEq, Eq)]
pub struct RTCRtpSendParameters {
    /// The encodings of the sender, one entry per stream.
    pub encodings: Vec<RTCRtpEncodingParameters>,
}

} // verus!
