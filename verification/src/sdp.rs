//! Session descriptions, as far as the engine looks into them.

use vstd::prelude::*;

verus! {

/// Whether the WebRTC engine's parser accepts a text as a session description
/// for an offer.
pub uninterp spec fn offer_well_formed(sdp: Seq<char>) -> bool;

/// Whether `RTCSessionDescription::offer` of the `webrtc` crate accepts the
/// text.
///
/// Trusted: the result is a function of the text alone, named
/// `offer_well_formed`. The constructor parses the text and keeps no state.
#[verifier::external_body]
pub(crate) fn parses_as_offer(sdp: &str) -> (ok: bool)
    ensures
        ok == offer_well_formed(sdp@),
{
    webrtc::peer_connection::sdp::session_description::RTCSessionDescription::offer(
        sdp.to_owned(),
    ).is_ok()
}

} // verus!
