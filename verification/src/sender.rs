//! The media sender: a state machine that owns the current track, the
//! stream descriptor, the one-shot send and monotonic stop flags, and the
//! transform-bound writer handle.  All operations are serialised through
//! the owning value, so each contract describes one atomic step.

use crate::errors::SenderError;
use crate::stream::{
    create_stream_info, PayloadType, RTCRtpCodecParameters, RTCRtpSendParameters,
    RTCRtpEncodingParameters, StreamInfo, SSRC,
};
use crate::track::{MediaKind, PacketWriter, TrackLocal, TrackLocalContext, TransformChain};
use vstd::prelude::*;

verus! {

/// The lifecycle flags of a sender, the state the send and stop protocols
/// step through.
#[derive(Debug, Clone, Copy, PartialEq, Eq, Structural)]
pub struct SenderFlags {
    /// Whether the one-shot send signal has been consumed.
    pub sent: bool,
    /// Whether the sender has been stopped.
    pub stopped: bool,
    /// Whether a track is currently installed.
    pub has_track: bool,
}

/// Whether a send attempt is accepted in the given state: the one-shot
/// signal is still available and a codec can be resolved.  Codec
/// resolution is minimal: only a sender with no pre-bound track has a
/// (placeholder) codec, so a bound track makes the attempt fail.
pub open spec fn send_accepted(f: SenderFlags) -> bool {
    !f.sent && !f.has_track
}

/// The verdict of a send attempt in the given state.
pub open spec fn send_verdict(f: SenderFlags) -> Result<(), SenderError> {
    if f.sent {
        Err(SenderError::AlreadySent)
    } else if f.has_track {
        Err(SenderError::UnsupportedCodec)
    } else {
        Ok(())
    }
}

/// The flags a send attempt leaves behind: an accepted send consumes the
/// one-shot signal, a rejected one changes nothing.
pub open spec fn flags_after_send(f: SenderFlags) -> SenderFlags {
    if send_accepted(f) {
        SenderFlags { sent: true, ..f }
    } else {
        f
    }
}

/// Whether a stop call performs teardown in the given state: only the
/// first stop of a sender that has sent releases any resources.
pub open spec fn stop_performs_teardown(f: SenderFlags) -> bool {
    !f.stopped && f.sent
}

/// Whether a stop call is guaranteed to succeed without touching any
/// upstream collaborator.
pub open spec fn stop_succeeds_immediately(f: SenderFlags) -> bool {
    f.stopped || !f.sent
}

/// Exactly one of two serialised send attempts on a fresh sender with no
/// pre-bound track succeeds: the first consumes the one-shot signal, so
/// the second is rejected as already sent.  In every state, two attempts
/// never both succeed.
pub proof fn lemma_send_exactly_once(f: SenderFlags)
    ensures
        !(send_verdict(f) is Ok && send_verdict(flags_after_send(f)) is Ok),
        !f.sent && !f.has_track ==> send_verdict(f) is Ok && send_verdict(
            flags_after_send(f),
        ) == Err::<(), SenderError>(SenderError::AlreadySent),
{
}

/// Repeated stops tear down at most once.  Every state a completed stop
/// leaves behind has the stopped flag set; a stop in any such state
/// performs no teardown and succeeds immediately.
pub proof fn lemma_stop_teardown_once(f: SenderFlags)
    requires
        f.stopped,
    ensures
        !stop_performs_teardown(f),
        stop_succeeds_immediately(f),
{
}

/// A sender: binds a local track to one negotiated outgoing stream and
/// enforces the one-shot send / idempotent stop protocol.
///
/// `T` is the track, `W` the encrypted packet writer the stream
/// ultimately writes to, `C` the transform chain that binds around `W`,
/// and `H` the write-capable handle the chain produces.
pub struct RTCRtpSender<T, W, C, H> {
    /// The current track, if any.
    pub track: Option<T>,
    /// The encrypted writer of the sender's stream.
    pub srtp_stream: W,
    /// The transform chain the stream is wired through.
    pub interceptor: C,
    /// The write-capable handle the chain produced at send time.
    pub bound_writer: Option<H>,
    /// Descriptor of the outgoing stream, replaced wholesale at send time.
    pub stream_info: StreamInfo,
    /// Binding context handed to the track on unbind.
    pub context: TrackLocalContext,
    /// Payload type negotiated for the sender.
    pub payload_type: PayloadType,
    /// Synchronization source negotiated for the sender.
    pub ssrc: SSRC,
    /// Whether the orchestrator has marked the sender negotiated.
    pub negotiated: bool,
    /// Identifier of the sender.
    pub id: String,
    /// The kind the associated transceiver negotiated, when that weak
    /// association still resolves; `None` skips kind validation.
    pub transceiver_kind: Option<MediaKind>,
    /// Whether the one-shot send signal has been consumed.
    pub sent: bool,
    /// Whether the sender has been stopped.
    pub stopped: bool,
}

impl<T: TrackLocal, W: PacketWriter, C: TransformChain<W, H>, H> RTCRtpSender<T, W, C, H> {
    /// The lifecycle flags of this sender.
    pub open spec fn flags(&self) -> SenderFlags {
        SenderFlags { sent: self.sent, stopped: self.stopped, has_track: self.track is Some }
    }

    /// Everything but the track itself is the same in the two states.
    pub open spec fn same_but_track(pre: Self, post: Self) -> bool {
        &&& post.srtp_stream == pre.srtp_stream
        &&& post.interceptor == pre.interceptor
        &&& post.bound_writer == pre.bound_writer
        &&& post.stream_info == pre.stream_info
        &&& post.context == pre.context
        &&& post.payload_type == pre.payload_type
        &&& post.ssrc == pre.ssrc
        &&& post.negotiated == pre.negotiated
        &&& post.id == pre.id
        &&& post.transceiver_kind == pre.transceiver_kind
        &&& post.sent == pre.sent
        &&& post.stopped == pre.stopped
    }

    /// Creates a sender with fixed identity, no track, and neither flag
    /// set.
    pub fn new(id: String, ssrc: SSRC, payload_type: PayloadType, writer: W, chain: C) -> (s:
        Self)
        ensures
            s.track is None,
            s.bound_writer is None,
            s.stream_info.id@ == Seq::<char>::empty(),
            s.context.id@ == Seq::<char>::empty(),
            s.payload_type == payload_type,
            s.ssrc == ssrc,
            !s.negotiated,
            s.id@ == id@,
            s.transceiver_kind is None,
            !s.sent,
            !s.stopped,
    {
        RTCRtpSender {
            track: None,
            srtp_stream: writer,
            interceptor: chain,
            bound_writer: None,
            stream_info: StreamInfo::empty(),
            context: TrackLocalContext { id: String::new() },
            payload_type,
            ssrc,
            negotiated: false,
            id,
            transceiver_kind: None,
            sent: false,
            stopped: false,
        }
    }

    /// Whether the orchestrator has marked the sender negotiated.
    pub fn is_negotiated(&self) -> (b: bool)
        ensures
            b == self.negotiated,
    {
        self.negotiated
    }

    /// Marks the sender negotiated.
    pub fn set_negotiated(&mut self)
        ensures
            *final(self) == (Self { negotiated: true, ..*old(self) }),
    {
        self.negotiated = true;
    }

    /// Installs the kind the associated transceiver negotiated, or `None`
    /// when the association no longer resolves.
    pub fn set_rtp_transceiver(&mut self, transceiver_kind: Option<MediaKind>)
        ensures
            *final(self) == (Self { transceiver_kind, ..*old(self) }),
    {
        self.transceiver_kind = transceiver_kind;
    }

    /// Describes the current configuration for the encoding and
    /// transmission of media on the sender's track: a single encoding
    /// entry carrying the negotiated SSRC and payload type.
    pub fn get_parameters(&self) -> (p: RTCRtpSendParameters)
        ensures
            p.encodings@.len() == 1,
            p.encodings@[0].ssrc == self.ssrc,
            p.encodings@[0].payload_type == self.payload_type,
    {
        let mut encodings: Vec<RTCRtpEncodingParameters> = Vec::new();
        encodings.push(RTCRtpEncodingParameters { ssrc: self.ssrc, payload_type: self.payload_type });
        RTCRtpSendParameters { encodings }
    }

    /// The current track, or none.
    pub fn track(&self) -> (t: &Option<T>)
        ensures
            t == &self.track,
    {
        &self.track
    }

    /// Whether data has ever been sent for this instance.
    pub fn has_sent(&self) -> (b: bool)
        ensures
            b == self.sent,
    {
        self.sent
    }

    /// Replaces the track currently used as the sender's source.
    ///
    /// When the new track is present and the transceiver association still
    /// resolves, a differing kind is rejected; an unresolved association
    /// skips validation.  Once sending has started, the previous track is
    /// unbound first and its failure propagated verbatim.  The new track
    /// is installed only while sending has not started, or when it is
    /// none; a sender that already sent keeps its (unbound) old track when
    /// handed a new one.
    pub fn replace_track(&mut self, track: Option<T>) -> (r: Result<(), SenderError>)
        ensures
            // The kind check decides first, and alone produces this error.
            (r == Err::<(), SenderError>(SenderError::NegotiationMismatch)) <==> (track
                matches Some(t) && old(self).transceiver_kind matches Some(k)
                && t.kind_spec() != k),
            r == Err::<(), SenderError>(SenderError::NegotiationMismatch) ==> *final(self)
                == *old(self),
            // Before any send the new track is installed unconditionally.
            !(track matches Some(t) && old(self).transceiver_kind matches Some(k)
                && t.kind_spec() != k) && !old(self).sent ==> r is Ok && *final(self)
                == (Self { track, ..*old(self) }),
            // After a send with no current track there is nothing to
            // unbind, and nothing changes.
            !(track matches Some(t) && old(self).transceiver_kind matches Some(k)
                && t.kind_spec() != k) && old(self).sent && old(self).track is None ==> r is Ok
                && *final(self) == *old(self),
            // After a send with a current track, the unbind decides.
            old(self).sent && old(self).track is Some ==> Self::same_but_track(
                *old(self),
                *final(self),
            ),
            r is Ok && old(self).sent && old(self).track is Some && track is None
                ==> final(self).track is None,
            r is Ok && old(self).sent && old(self).track is Some && track is Some
                ==> final(self).track is Some,
            // Whenever a track survives a call made after a send, it is
            // the previously installed one — never the argument.
            old(self).sent && old(self).track is Some && final(self).track is Some
                ==> (final(self).track->0).identity_spec()
                    == (old(self).track->0).identity_spec()
                && (final(self).track->0).kind_spec() == (old(self).track->0).kind_spec(),
            r matches Err(e) ==> (e == SenderError::NegotiationMismatch || (old(self).sent
                && old(self).track is Some && (e matches SenderError::Upstream(_))
                && final(self).track is Some)),
    {
        if let Some(t) = &track {
            if let Some(k) = self.transceiver_kind {
                if t.kind() != k {
                    return Err(SenderError::NegotiationMismatch);
                }
            }
        }
        if self.sent {
            if let Some(current) = &mut self.track {
                match current.unbind(&self.context) {
                    Ok(()) => {},
                    Err(e) => {
                        return Err(SenderError::Upstream(e));
                    },
                }
            }
        }
        if !self.sent || track.is_none() {
            self.track = track;
            return Ok(());
        }
        Ok(())
    }

    /// Attempts to set the parameters controlling the sending of media.
    ///
    /// The one-shot signal is consumed exactly once: a second attempt is
    /// rejected as already sent.  A stream descriptor is built from the
    /// sender's id, the first encoding's SSRC and the resolved codec, the
    /// transform chain is bound around the encrypted writer, and the
    /// binding context and descriptor are replaced.  Codec resolution is
    /// minimal: a sender with a pre-bound track has no negotiated codec
    /// and the attempt fails as unsupported.
    pub fn send(&mut self, parameters: &RTCRtpSendParameters) -> (r: Result<(), SenderError>)
        requires
            old(self).sent || parameters.encodings@.len() >= 1,
        ensures
            r == send_verdict(old(self).flags()),
            final(self).flags() == flags_after_send(old(self).flags()),
            !send_accepted(old(self).flags()) ==> *final(self) == *old(self),
            send_accepted(old(self).flags()) ==> {
                &&& final(self).sent
                &&& final(self).track is None
                &&& final(self).bound_writer is Some
                &&& final(self).context.id@ == old(self).id@
                &&& final(self).stream_info.id@ == old(self).id@
                &&& final(self).stream_info.ssrc == parameters.encodings@[0].ssrc
                &&& final(self).stream_info.payload_type == 0
                &&& final(self).stream_info.mime_type@ == Seq::<char>::empty()
                &&& final(self).stream_info.clock_rate == 0
                &&& final(self).stream_info.channels == 0
                &&& final(self).stream_info.sdp_fmtp_line@ == Seq::<char>::empty()
                &&& final(self).stream_info.rtp_header_extensions@.len() == 0
                &&& final(self).srtp_stream == old(self).srtp_stream
                &&& final(self).payload_type == old(self).payload_type
                &&& final(self).ssrc == old(self).ssrc
                &&& final(self).negotiated == old(self).negotiated
                &&& final(self).id@ == old(self).id@
                &&& final(self).transceiver_kind == old(self).transceiver_kind
                &&& final(self).stopped == old(self).stopped
            },
    {
        if self.sent {
            return Err(SenderError::AlreadySent);
        }
        let context = TrackLocalContext { id: self.id.clone() };
        if self.track.is_some() {
            return Err(SenderError::UnsupportedCodec);
        }
        let codec = RTCRtpCodecParameters::default();
        let payload_type = codec.payload_type;
        let capability = codec.capability;
        let stream_info = create_stream_info(
            self.id.clone(),
            parameters.encodings[0].ssrc,
            payload_type,
            capability,
            Vec::new(),
        );
        let handle = self.interceptor.bind_local_stream(&stream_info, &self.srtp_stream);
        self.bound_writer = Some(handle);
        self.context = context;
        self.stream_info = stream_info;
        self.sent = true;
        Ok(())
    }

    /// Irreversibly stops the sender.
    ///
    /// The first call sets the monotonic stopped flag; later calls are
    /// no-ops returning success.  A sender that never sent holds no
    /// binding to release and also succeeds immediately.  Otherwise the
    /// current track is released, the stream is unbound from the transform
    /// chain, and the encrypted writer is closed — in that order, so no
    /// transform observes writes to a closed sink; the first failure is
    /// propagated.
    pub fn stop(&mut self) -> (r: Result<(), SenderError>)
        ensures
            final(self).stopped,
            final(self).sent == old(self).sent,
            old(self).stopped ==> r is Ok && *final(self) == *old(self),
            !old(self).stopped && !old(self).sent ==> r is Ok && *final(self) == (Self {
                stopped: true,
                ..*old(self)
            }),
            stop_succeeds_immediately(old(self).flags()) ==> r is Ok,
            // Teardown releases the track and touches the chain and the
            // writer, but replaces no descriptor or identity.
            !old(self).stopped && old(self).sent ==> {
                &&& final(self).stream_info == old(self).stream_info
                &&& final(self).bound_writer == old(self).bound_writer
                &&& final(self).context == old(self).context
                &&& final(self).payload_type == old(self).payload_type
                &&& final(self).ssrc == old(self).ssrc
                &&& final(self).negotiated == old(self).negotiated
                &&& final(self).id == old(self).id
                &&& final(self).transceiver_kind == old(self).transceiver_kind
            },
            r is Ok && stop_performs_teardown(old(self).flags()) ==> final(self).track is None,
            r matches Err(e) ==> stop_performs_teardown(old(self).flags()) && (e
                matches SenderError::Upstream(_)),
    {
        if self.stopped {
            return Ok(());
        }
        self.stopped = true;
        if !self.sent {
            return Ok(());
        }
        match self.replace_track(None) {
            Ok(()) => {},
            Err(e) => {
                return Err(e);
            },
        }
        self.interceptor.unbind_local_stream(&self.stream_info);
        match self.srtp_stream.close() {
            Ok(()) => Ok(()),
            Err(e) => Err(SenderError::Upstream(e)),
        }
    }
}

} // verus!
