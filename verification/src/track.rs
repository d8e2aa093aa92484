//! The capabilities the sender consumes: a bindable local track, the
//! transform chain, and the encrypted packet writer.  Implementations live
//! with the caller; the sender only relies on what is declared here.

use crate::errors::UpstreamError;
use crate::stream::StreamInfo;
use vstd::prelude::*;

verus! {

/// The kind of media a track produces.
#[derive(Debug, Clone, Copy, PartialEq, Eq, Structural)]
pub enum MediaKind {
    /// An audio track.
    Audio,
    /// A video track.
    Video,
}

/// Identity value handed to a track on bind and unbind; it correlates
/// track-side writer calls back to the owning sender.
#[derive(Debug, Clone, PartialEq, Eq)]
pub struct TrackLocalContext {
    /// Identifier of the owning sender.
    pub id: String,
}

/// A locally produced media source bindable to a sender.
pub trait TrackLocal {
    /// A stable identity of the track, at specification level; operations
    /// on a track value never turn it into a different track.
    spec fn identity_spec(&self) -> u64;

    /// The kind of media this track produces, at specification level.
    spec fn kind_spec(&self) -> MediaKind;

    /// The kind of media this track produces.
    fn kind(&self) -> (k: MediaKind)
        ensures
            k == self.kind_spec();

    /// Releases whatever the track holds for the given binding; a failure
    /// is reported to the caller.  The value stays the same track, of the
    /// same kind.
    fn unbind(&mut self, context: &TrackLocalContext) -> (r: Result<(), UpstreamError>)
        ensures
            final(self).identity_spec() == old(self).identity_spec(),
            final(self).kind_spec() == old(self).kind_spec();
}

/// Ordered pipeline of transforms; it binds around an encrypted writer per
/// stream, producing a write-capable handle.
pub trait TransformChain<W, H> {
    /// Wraps `writer` with the chain for the stream `stream` describes and
    /// hands back the write-capable handle.
    fn bind_local_stream(&mut self, stream: &StreamInfo, writer: &W) -> H;

    /// Releases what the chain holds for the stream `stream` describes.
    fn unbind_local_stream(&mut self, stream: &StreamInfo);
}

/// Write/close sink for the outgoing packets of one stream.
pub trait PacketWriter {
    /// Writes one outgoing packet and reports how many bytes went out.
    fn write(&mut self, packet: &[u8]) -> Result<usize, UpstreamError>;

    /// Closes the sink; no packet may be written afterwards.
    fn close(&mut self) -> Result<(), UpstreamError>;
}

} // verus!
