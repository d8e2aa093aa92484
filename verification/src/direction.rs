//! Direction of a transceiver, with its total string and numeric mappings.

use vstd::prelude::*;
use vstd::string::StrSliceExecFns;

verus! {

/// Direction of the media flowing through a transceiver.
#[derive(Debug, Copy, Clone, PartialEq, Eq, Structural)]
pub enum RTCRtpTransceiverDirection {
    /// No recognised direction was negotiated.
    Unspecified,
    /// The sender offers to send and the receiver offers to receive.
    Sendrecv,
    /// Only the sender offers to send.
    Sendonly,
    /// Only the receiver offers to receive.
    Recvonly,
    /// Neither side offers to send or receive.
    Inactive,
}

/// The display form of a direction; unknown directions show a fixed placeholder.
pub open spec fn direction_str(d: RTCRtpTransceiverDirection) -> Seq<char> {
    match d {
        RTCRtpTransceiverDirection::Sendrecv => "sendrecv"@,
        RTCRtpTransceiverDirection::Sendonly => "sendonly"@,
        RTCRtpTransceiverDirection::Recvonly => "recvonly"@,
        RTCRtpTransceiverDirection::Inactive => "inactive"@,
        RTCRtpTransceiverDirection::Unspecified => "Unspecified"@,
    }
}

/// The direction a raw string names; any unrecognised string maps to
/// `Unspecified` rather than failing.
pub open spec fn direction_of_str(s: Seq<char>) -> RTCRtpTransceiverDirection {
    if s == "sendrecv"@ {
        RTCRtpTransceiverDirection::Sendrecv
    } else if s == "sendonly"@ {
        RTCRtpTransceiverDirection::Sendonly
    } else if s == "recvonly"@ {
        RTCRtpTransceiverDirection::Recvonly
    } else if s == "inactive"@ {
        RTCRtpTransceiverDirection::Inactive
    } else {
        RTCRtpTransceiverDirection::Unspecified
    }
}

/// The direction a numeric code names; any unrecognised code maps to
/// `Unspecified`.
pub open spec fn direction_of_u8(v: u8) -> RTCRtpTransceiverDirection {
    if v == 1 {
        RTCRtpTransceiverDirection::Sendrecv
    } else if v == 2 {
        RTCRtpTransceiverDirection::Sendonly
    } else if v == 3 {
        RTCRtpTransceiverDirection::Recvonly
    } else if v == 4 {
        RTCRtpTransceiverDirection::Inactive
    } else {
        RTCRtpTransceiverDirection::Unspecified
    }
}

/// Character-by-character string equality.
fn str_eq(a: &str, b: &str) -> (r: bool)
    ensures
        r == (a@ == b@),
{
    let alen = a.unicode_len();
    let blen = b.unicode_len();
    if alen != blen {
        return false;
    }
    let mut i: usize = 0;
    while i < alen
        invariant
            i <= alen,
            alen == a@.len(),
            alen == b@.len(),
            forall|j: int| 0 <= j < i ==> a@[j] == b@[j],
        decreases alen - i,
    {
        if a.get_char(i) != b.get_char(i) {
            return false;
        }
        i += 1;
    }
    proof {
        assert(a@ =~= b@);
    }
    true
}

impl RTCRtpTransceiverDirection {
    /// Parses a raw string naming a direction.
    pub fn from_str(raw: &str) -> (d: Self)
        ensures
            d == direction_of_str(raw@),
    {
        if str_eq(raw, "sendrecv") {
            RTCRtpTransceiverDirection::Sendrecv
        } else if str_eq(raw, "sendonly") {
            RTCRtpTransceiverDirection::Sendonly
        } else if str_eq(raw, "recvonly") {
            RTCRtpTransceiverDirection::Recvonly
        } else if str_eq(raw, "inactive") {
            RTCRtpTransceiverDirection::Inactive
        } else {
            RTCRtpTransceiverDirection::Unspecified
        }
    }

    /// Parses a numeric direction code.
    pub fn from_u8(v: u8) -> (d: Self)
        ensures
            d == direction_of_u8(v),
    {
        if v == 1 {
            RTCRtpTransceiverDirection::Sendrecv
        } else if v == 2 {
            RTCRtpTransceiverDirection::Sendonly
        } else if v == 3 {
            RTCRtpTransceiverDirection::Recvonly
        } else if v == 4 {
            RTCRtpTransceiverDirection::Inactive
        } else {
            RTCRtpTransceiverDirection::Unspecified
        }
    }

    /// The display form of this direction.
    pub fn as_str(&self) -> (s: &'static str)
        ensures
            s@ == direction_str(*self),
    {
        match *self {
            RTCRtpTransceiverDirection::Sendrecv => "sendrecv",
            RTCRtpTransceiverDirection::Sendonly => "sendonly",
            RTCRtpTransceiverDirection::Recvonly => "recvonly",
            RTCRtpTransceiverDirection::Inactive => "inactive",
            RTCRtpTransceiverDirection::Unspecified => "Unspecified",
        }
    }
}

/// Rendering a direction and parsing the rendered form gives the direction
/// back, for every direction: the four negotiated directions map to their
/// own names, and the placeholder shown for `Unspecified` is not a
/// recognised name, so it parses back to `Unspecified` as well.
pub proof fn lemma_direction_string_round_trip(d: RTCRtpTransceiverDirection)
    ensures
        direction_of_str(direction_str(d)) == d,
{
    reveal_strlit("sendrecv");
    reveal_strlit("sendonly");
    reveal_strlit("recvonly");
    reveal_strlit("inactive");
    reveal_strlit("Unspecified");
    assert("sendonly"@[4] != "sendrecv"@[4]);
    assert("recvonly"@[0] != "sendrecv"@[0]);
    assert("inactive"@[0] != "sendrecv"@[0]);
    assert("recvonly"@[0] != "sendonly"@[0]);
    assert("inactive"@[0] != "sendonly"@[0]);
    assert("inactive"@[0] != "recvonly"@[0]);
    assert("Unspecified"@[0] != "sendrecv"@[0]);
    assert("Unspecified"@[0] != "sendonly"@[0]);
    assert("Unspecified"@[0] != "recvonly"@[0]);
    assert("Unspecified"@[0] != "inactive"@[0]);
}

} // verus!
