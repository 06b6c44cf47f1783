//! The metadata builder: renders the DIDL-Lite document that describes the
//! video resource and, when a subtitle is present, its five subtitle entries.
//! Without a subtitle the metadata is the empty string — no item element at
//! all.
//!
//! The document is modelled as a fixed sequence of slots: each slot is either
//! a fixed literal of the vocabulary or one of the four values taken from the
//! descriptor. The built string is exactly the concatenation of the slot
//! texts, which pins down how often and where each descriptor value occurs.

use vstd::prelude::*;
use crate::descriptor::{MediaDescriptor, MediaDescriptorView};

verus! {

/// One slot of the metadata document: a fixed literal (named by its index) or
/// one of the descriptor's values.
pub enum Slot {
    Lit(u32),
    VideoUri,
    VideoSubtype,
    SubtitleUri,
    SubtitleSubtype,
}

/// The fixed literals of the document, in document order. Index 1 opens the
/// single item element and index 11 closes it.
pub open spec fn lit_text(i: u32) -> Seq<char> {
    if i == 0 {
        "<DIDL-Lite xmlns=\"urn:schemas-upnp-org:metadata-1-0/DIDL-Lite/\" xmlns:dc=\"http://purl.org/dc/elements/1.1/\" xmlns:upnp=\"urn:schemas-upnp-org:metadata-1-0/upnp/\" xmlns:dlna=\"urn:schemas-dlna-org:metadata-1-0/\" xmlns:sec=\"http://www.sec.co.kr/\" xmlns:xbmc=\"urn:schemas-xbmc-org:metadata-1-0/\">"@
    } else if i == 1 {
        "<item id=\"0\" parentID=\"-1\" restricted=\"1\">"@
    } else if i == 2 {
        "<res protocolInfo=\"http-get:*:video/"@
    } else if i == 3 {
        ":\" xmlns:pv=\"http://www.pv.com/pvns/\" pv:subtitleFileUri=\""@
    } else if i == 4 {
        "\" pv:subtitleFileType=\""@
    } else if i == 5 {
        "\">"@
    } else if i == 6 {
        "</res><res protocolInfo=\"http-get:*:text/srt:*\">"@
    } else if i == 7 {
        "</res><res protocolInfo=\"http-get:*:smi/caption:*\">"@
    } else if i == 8 {
        "</res><sec:CaptionInfoEx sec:type=\""@
    } else if i == 9 {
        "</sec:CaptionInfoEx><sec:CaptionInfo sec:type=\""@
    } else if i == 10 {
        "</sec:CaptionInfo><upnp:class>object.item.videoItem.movie</upnp:class>"@
    } else if i == 11 {
        "</item>"@
    } else {
        "</DIDL-Lite>"@
    }
}

/// The text a slot contributes, given the descriptor's four values.
pub open spec fn slot_text(
    sl: Slot,
    v_uri: Seq<char>,
    v_sub: Seq<char>,
    s_uri: Seq<char>,
    s_sub: Seq<char>,
) -> Seq<char> {
    match sl {
        Slot::Lit(i) => lit_text(i),
        Slot::VideoUri => v_uri,
        Slot::VideoSubtype => v_sub,
        Slot::SubtitleUri => s_uri,
        Slot::SubtitleSubtype => s_sub,
    }
}

/// The document's slots, in order: one item element holding the video
/// resource (with the vendor subtitle attribute pair), the two alternate
/// subtitle resources, the extended and the primary caption-info entries and
/// the fixed class.
pub open spec fn slots() -> Seq<Slot> {
    seq![
        Slot::Lit(0),
        Slot::Lit(1),
        Slot::Lit(2),
        Slot::VideoSubtype,
        Slot::Lit(3),
        Slot::SubtitleUri,
        Slot::Lit(4),
        Slot::SubtitleSubtype,
        Slot::Lit(5),
        Slot::VideoUri,
        Slot::Lit(6),
        Slot::SubtitleUri,
        Slot::Lit(7),
        Slot::SubtitleUri,
        Slot::Lit(8),
        Slot::SubtitleSubtype,
        Slot::Lit(5),
        Slot::SubtitleUri,
        Slot::Lit(9),
        Slot::SubtitleSubtype,
        Slot::Lit(5),
        Slot::SubtitleUri,
        Slot::Lit(10),
        Slot::Lit(11),
        Slot::Lit(12),
    ]
}

/// The metadata document for a descriptor whose subtitle is present, as one
/// concatenation in document order.
pub open spec fn subtitle_metadata(
    v_uri: Seq<char>,
    v_sub: Seq<char>,
    s_uri: Seq<char>,
    s_sub: Seq<char>,
) -> Seq<char> {
    lit_text(0) + lit_text(1) + lit_text(2) + v_sub + lit_text(3) + s_uri + lit_text(4) + s_sub
        + lit_text(5) + v_uri + lit_text(6) + s_uri + lit_text(7) + s_uri + lit_text(8) + s_sub
        + lit_text(5) + s_uri + lit_text(9) + s_sub + lit_text(5) + s_uri + lit_text(10)
        + lit_text(11) + lit_text(12)
}

/// What the metadata builder returns: empty without a subtitle, the one-item
/// document with one.
pub open spec fn metadata_of(d: MediaDescriptorView) -> Seq<char> {
    match d.subtitle {
        None => Seq::empty(),
        Some(st) => subtitle_metadata(d.video_uri, d.video_subtype, st.uri, st.subtype),
    }
}

/// The concatenation is exactly the slot sequence flattened: the document has
/// the shape `slots()` says it has.
pub proof fn lemma_subtitle_metadata_is_slots(
    v_uri: Seq<char>,
    v_sub: Seq<char>,
    s_uri: Seq<char>,
    s_sub: Seq<char>,
)
    ensures
        subtitle_metadata(v_uri, v_sub, s_uri, s_sub) == slots().flat_map(
            |sl: Slot| slot_text(sl, v_uri, v_sub, s_uri, s_sub),
        ),
{
    let f = |sl: Slot| slot_text(sl, v_uri, v_sub, s_uri, s_sub);
    let s0 = Seq::<Slot>::empty();
    assert(s0.flat_map(f) =~= Seq::<char>::empty());
    let s1 = s0.push(Slot::Lit(0));
    s0.lemma_flat_map_push(f, Slot::Lit(0));
    assert(s1.flat_map(f) =~= lit_text(0));
    let s2 = s1.push(Slot::Lit(1));
    s1.lemma_flat_map_push(f, Slot::Lit(1));
    let s3 = s2.push(Slot::Lit(2));
    s2.lemma_flat_map_push(f, Slot::Lit(2));
    let s4 = s3.push(Slot::VideoSubtype);
    s3.lemma_flat_map_push(f, Slot::VideoSubtype);
    let s5 = s4.push(Slot::Lit(3));
    s4.lemma_flat_map_push(f, Slot::Lit(3));
    let s6 = s5.push(Slot::SubtitleUri);
    s5.lemma_flat_map_push(f, Slot::SubtitleUri);
    let s7 = s6.push(Slot::Lit(4));
    s6.lemma_flat_map_push(f, Slot::Lit(4));
    let s8 = s7.push(Slot::SubtitleSubtype);
    s7.lemma_flat_map_push(f, Slot::SubtitleSubtype);
    let s9 = s8.push(Slot::Lit(5));
    s8.lemma_flat_map_push(f, Slot::Lit(5));
    let s10 = s9.push(Slot::VideoUri);
    s9.lemma_flat_map_push(f, Slot::VideoUri);
    let s11 = s10.push(Slot::Lit(6));
    s10.lemma_flat_map_push(f, Slot::Lit(6));
    let s12 = s11.push(Slot::SubtitleUri);
    s11.lemma_flat_map_push(f, Slot::SubtitleUri);
    let s13 = s12.push(Slot::Lit(7));
    s12.lemma_flat_map_push(f, Slot::Lit(7));
    let s14 = s13.push(Slot::SubtitleUri);
    s13.lemma_flat_map_push(f, Slot::SubtitleUri);
    let s15 = s14.push(Slot::Lit(8));
    s14.lemma_flat_map_push(f, Slot::Lit(8));
    let s16 = s15.push(Slot::SubtitleSubtype);
    s15.lemma_flat_map_push(f, Slot::SubtitleSubtype);
    let s17 = s16.push(Slot::Lit(5));
    s16.lemma_flat_map_push(f, Slot::Lit(5));
    let s18 = s17.push(Slot::SubtitleUri);
    s17.lemma_flat_map_push(f, Slot::SubtitleUri);
    let s19 = s18.push(Slot::Lit(9));
    s18.lemma_flat_map_push(f, Slot::Lit(9));
    let s20 = s19.push(Slot::SubtitleSubtype);
    s19.lemma_flat_map_push(f, Slot::SubtitleSubtype);
    let s21 = s20.push(Slot::Lit(5));
    s20.lemma_flat_map_push(f, Slot::Lit(5));
    let s22 = s21.push(Slot::SubtitleUri);
    s21.lemma_flat_map_push(f, Slot::SubtitleUri);
    let s23 = s22.push(Slot::Lit(10));
    s22.lemma_flat_map_push(f, Slot::Lit(10));
    let s24 = s23.push(Slot::Lit(11));
    s23.lemma_flat_map_push(f, Slot::Lit(11));
    let s25 = s24.push(Slot::Lit(12));
    s24.lemma_flat_map_push(f, Slot::Lit(12));
    assert(slots() =~= s25);
    assert(subtitle_metadata(v_uri, v_sub, s_uri, s_sub) == s25.flat_map(f));
}

/// Without a subtitle the metadata is the empty string: no item element at
/// all.
pub proof fn lemma_metadata_without_subtitle(d: MediaDescriptorView)
    requires
        d.subtitle is None,
    ensures
        metadata_of(d) == Seq::<char>::empty(),
{
}

/// With a subtitle, the metadata is one item element whose shape the slot
/// sequence gives exactly: the item-open literal stands in exactly one slot
/// and the item-close literal in exactly one slot; the subtitle URI stands in
/// exactly the five subtitle slots, all with the same value; and the video
/// resource's protocolInfo carries exactly the descriptor's video subtype
/// between the fixed prefix and suffix literals.
pub proof fn lemma_metadata_with_subtitle(d: MediaDescriptorView)
    requires
        d.subtitle is Some,
    ensures
        ({
            let st = d.subtitle->Some_0;
            let f = |sl: Slot| slot_text(sl, d.video_uri, d.video_subtype, st.uri, st.subtype);
            &&& metadata_of(d) == slots().flat_map(f)
            &&& slots().len() == 25
            &&& forall|k: int|
                0 <= k < 25 ==> ((#[trigger] slots()[k] == Slot::SubtitleUri) <==> (k == 5 || k
                    == 11 || k == 13 || k == 17 || k == 21))
            &&& forall|k: int| 0 <= k < 25 ==> ((#[trigger] slots()[k] == Slot::Lit(1)) <==> k == 1)
            &&& forall|k: int|
                0 <= k < 25 ==> ((#[trigger] slots()[k] == Slot::Lit(11)) <==> k == 23)
            &&& lit_text(1) == "<item id=\"0\" parentID=\"-1\" restricted=\"1\">"@
            &&& lit_text(11) == "</item>"@
            &&& slots()[2] == Slot::Lit(2)
            &&& slots()[3] == Slot::VideoSubtype
            &&& slots()[4] == Slot::Lit(3)
            &&& lit_text(2) == "<res protocolInfo=\"http-get:*:video/"@
            &&& f(Slot::VideoSubtype) == d.video_subtype
            &&& f(Slot::SubtitleUri) == st.uri
        }),
{
    let st = d.subtitle->Some_0;
    lemma_subtitle_metadata_is_slots(d.video_uri, d.video_subtype, st.uri, st.subtype);
}

impl MediaDescriptor {
    /// Renders the metadata document for this descriptor: the empty string
    /// without a subtitle, the one-item DIDL-Lite document with one.
    pub fn build_metadata(&self) -> (r: String)
        ensures
            r@ == metadata_of(self@),
    {
        match &self.subtitle {
            None => String::new(),
            Some(st) => {
                let mut out = String::new();
                out.append(
                    "<DIDL-Lite xmlns=\"urn:schemas-upnp-org:metadata-1-0/DIDL-Lite/\" xmlns:dc=\"http://purl.org/dc/elements/1.1/\" xmlns:upnp=\"urn:schemas-upnp-org:metadata-1-0/upnp/\" xmlns:dlna=\"urn:schemas-dlna-org:metadata-1-0/\" xmlns:sec=\"http://www.sec.co.kr/\" xmlns:xbmc=\"urn:schemas-xbmc-org:metadata-1-0/\">",
                );
                out.append("<item id=\"0\" parentID=\"-1\" restricted=\"1\">");
                out.append("<res protocolInfo=\"http-get:*:video/");
                out.append(self.video_subtype.as_str());
                out.append(":\" xmlns:pv=\"http://www.pv.com/pvns/\" pv:subtitleFileUri=\"");
                out.append(st.uri.as_str());
                out.append("\" pv:subtitleFileType=\"");
                out.append(st.subtype.as_str());
                out.append("\">");
                out.append(self.video_uri.as_str());
                out.append("</res><res protocolInfo=\"http-get:*:text/srt:*\">");
                out.append(st.uri.as_str());
                out.append("</res><res protocolInfo=\"http-get:*:smi/caption:*\">");
                out.append(st.uri.as_str());
                out.append("</res><sec:CaptionInfoEx sec:type=\"");
                out.append(st.subtype.as_str());
                out.append("\">");
                out.append(st.uri.as_str());
                out.append("</sec:CaptionInfoEx><sec:CaptionInfo sec:type=\"");
                out.append(st.subtype.as_str());
                out.append("\">");
                out.append(st.uri.as_str());
                out.append("</sec:CaptionInfo><upnp:class>object.item.videoItem.movie</upnp:class>");
                out.append("</item>");
                out.append("</DIDL-Lite>");
                out
            },
        }
    }
}

} // verus!
