//! The two AVTransport control payloads. `SetAVTransportURI` carries the
//! video URI and the attribute-escaped metadata document; `Play` is a fixed
//! payload. Both address transport instance 0.

use vstd::prelude::*;
use crate::descriptor::{MediaDescriptor, MediaDescriptorView};
use crate::escape::{escape_attr, escape_attribute};
use crate::metadata::metadata_of;

verus! {

/// The `SetAVTransportURI` body: instance 0, the video URI as it stands, and
/// the metadata document escaped as an attribute value (empty without a
/// subtitle).
pub open spec fn transport_payload_of(d: MediaDescriptorView) -> Seq<char> {
    "<InstanceID>0</InstanceID><CurrentURI>"@ + d.video_uri
        + "</CurrentURI><CurrentURIMetaData>"@ + escape_attr(metadata_of(d))
        + "</CurrentURIMetaData>"@
}

/// The fixed `Play` body: instance 0 at speed 1, nothing else.
pub open spec fn play_payload_text() -> Seq<char> {
    "<InstanceID>0</InstanceID><Speed>1</Speed>"@
}

impl MediaDescriptor {
    /// Renders the metadata document already escaped for embedding as an XML
    /// attribute value inside the outer control payload.
    pub fn build_metadata_escaped(&self) -> (r: String)
        ensures
            r@ == escape_attr(metadata_of(self@)),
    {
        let raw = self.build_metadata();
        escape_attribute(raw.as_str())
    }

    /// Composes the `SetAVTransportURI` control payload for this descriptor.
    pub fn build_transport_payload(&self) -> (r: String)
        ensures
            r@ == transport_payload_of(self@),
    {
        let escaped = self.build_metadata_escaped();
        let mut out = String::new();
        out.append("<InstanceID>0</InstanceID><CurrentURI>");
        out.append(self.video_uri.as_str());
        out.append("</CurrentURI><CurrentURIMetaData>");
        out.append(escaped.as_str());
        out.append("</CurrentURIMetaData>");
        out
    }
}

/// The metadata travels intact inside the outer payload: the embedded
/// attribute value holds no raw `<`, `>`, `"`, `'` or line break, so it
/// cannot break the outer document's well-formedness, and parsing it back as
/// an attribute value yields exactly the metadata document.
pub proof fn lemma_payload_metadata_recoverable(d: MediaDescriptorView)
    ensures
        crate::escape::unescape_attr(escape_attr(metadata_of(d))) == metadata_of(d),
        forall|i: int|
            0 <= i < escape_attr(metadata_of(d)).len() ==> {
                let c = #[trigger] escape_attr(metadata_of(d))[i];
                c != '<' && c != '>' && c != '"' && c != '\'' && c != '\n' && c != '\r'
            },
{
    crate::escape::lemma_escape_attr_round_trip(metadata_of(d));
    crate::escape::lemma_escape_attr_safe(metadata_of(d));
}

/// Composes the fixed `Play` control payload.
pub fn build_play_payload() -> (r: String)
    ensures
        r@ == play_payload_text(),
{
    let mut out = String::new();
    out.append("<InstanceID>0</InstanceID><Speed>1</Speed>");
    out
}

} // verus!
