use cast_core::descriptor::{MediaDescriptor, SubtitleInfo};
use cast_core::payload::build_play_payload;

fn sample_descriptor() -> MediaDescriptor {
    MediaDescriptor::new(
        String::from("http://h/v.mp4"),
        String::from("mp4"),
        Some(SubtitleInfo::new(String::from("http://h/s.srt"), Some(String::from("srt")))),
    )
}

#[test]
fn metadata_without_subtitle_is_empty() {
    let d = MediaDescriptor::new(String::from("http://h/v.mp4"), String::from("mp4"), None);
    assert_eq!(d.build_metadata(), "");
    assert_eq!(d.build_metadata_escaped(), "");
}

#[test]
fn metadata_with_subtitle_names_video_subtype_and_uri_five_times() {
    let m = sample_descriptor().build_metadata();
    assert!(m.contains("protocolInfo=\"http-get:*:video/mp4:\""));
    assert_eq!(m.matches("http://h/s.srt").count(), 5);
}

#[test]
fn metadata_with_subtitle_holds_exactly_one_item_element() {
    let m = sample_descriptor().build_metadata();
    assert_eq!(m.matches("<item ").count(), 1);
    assert_eq!(m.matches("</item>").count(), 1);
    assert_eq!(m.matches("<DIDL-Lite ").count(), 1);
    assert_eq!(m.matches("</DIDL-Lite>").count(), 1);
}

#[test]
fn metadata_exact_document() {
    let m = sample_descriptor().build_metadata();
    let expected = String::new()
        + "<DIDL-Lite xmlns=\"urn:schemas-upnp-org:metadata-1-0/DIDL-Lite/\""
        + " xmlns:dc=\"http://purl.org/dc/elements/1.1/\""
        + " xmlns:upnp=\"urn:schemas-upnp-org:metadata-1-0/upnp/\""
        + " xmlns:dlna=\"urn:schemas-dlna-org:metadata-1-0/\""
        + " xmlns:sec=\"http://www.sec.co.kr/\""
        + " xmlns:xbmc=\"urn:schemas-xbmc-org:metadata-1-0/\">"
        + "<item id=\"0\" parentID=\"-1\" restricted=\"1\">"
        + "<res protocolInfo=\"http-get:*:video/mp4:\""
        + " xmlns:pv=\"http://www.pv.com/pvns/\""
        + " pv:subtitleFileUri=\"http://h/s.srt\" pv:subtitleFileType=\"srt\">"
        + "http://h/v.mp4</res>"
        + "<res protocolInfo=\"http-get:*:text/srt:*\">http://h/s.srt</res>"
        + "<res protocolInfo=\"http-get:*:smi/caption:*\">http://h/s.srt</res>"
        + "<sec:CaptionInfoEx sec:type=\"srt\">http://h/s.srt</sec:CaptionInfoEx>"
        + "<sec:CaptionInfo sec:type=\"srt\">http://h/s.srt</sec:CaptionInfo>"
        + "<upnp:class>object.item.videoItem.movie</upnp:class>"
        + "</item></DIDL-Lite>";
    assert_eq!(m, expected);
}

#[test]
fn subtitle_subtype_defaults_to_unknown() {
    let st = SubtitleInfo::new(String::from("http://h/s.srt"), None);
    assert_eq!(st.subtype, "unknown");
    let st2 = SubtitleInfo::new(String::from("http://h/s.srt"), Some(String::from("srt")));
    assert_eq!(st2.subtype, "srt");
}

/// Reads an attribute value back the way an XML parser would: each entity
/// becomes its character. Safe on escaped text, where `&` only starts
/// entities; `&amp;` is resolved last so the others cannot be re-matched.
fn unescape_attribute(s: &str) -> String {
    s.replace("&lt;", "<")
        .replace("&gt;", ">")
        .replace("&quot;", "\"")
        .replace("&apos;", "'")
        .replace("&#xA;", "\n")
        .replace("&#xD;", "\r")
        .replace("&amp;", "&")
}

#[test]
fn escaped_metadata_holds_no_raw_specials_and_round_trips() {
    let d = MediaDescriptor::new(
        String::from("http://h/v.mp4"),
        String::from("mp4"),
        Some(SubtitleInfo::new(
            String::from("http://h/s.srt?a=1&b=\"x\" <odd> 'y'\n\r"),
            Some(String::from("srt")),
        )),
    );
    let raw = d.build_metadata();
    let escaped = d.build_metadata_escaped();
    assert_ne!(raw, escaped);
    assert!(!escaped.contains('<'));
    assert!(!escaped.contains('>'));
    assert!(!escaped.contains('"'));
    assert!(!escaped.contains('\''));
    assert!(!escaped.contains('\n'));
    assert!(!escaped.contains('\r'));
    assert!(escaped.starts_with("&lt;DIDL-Lite"));
    assert_eq!(unescape_attribute(&escaped), raw);
}

#[test]
fn transport_payload_embeds_video_uri_and_escaped_metadata() {
    let d = sample_descriptor();
    let p = d.build_transport_payload();
    assert!(p.starts_with("<InstanceID>0</InstanceID><CurrentURI>http://h/v.mp4</CurrentURI>"));
    assert!(p.contains("<CurrentURIMetaData>&lt;DIDL-Lite"));
    assert!(p.ends_with("</CurrentURIMetaData>"));
    assert!(!p.ends_with("<CurrentURIMetaData></CurrentURIMetaData>"));
}

#[test]
fn transport_payload_without_subtitle_has_empty_metadata() {
    let d = MediaDescriptor::new(String::from("http://h/v.mp4"), String::from("mp4"), None);
    let p = d.build_transport_payload();
    assert_eq!(
        p,
        "<InstanceID>0</InstanceID><CurrentURI>http://h/v.mp4</CurrentURI>\
         <CurrentURIMetaData></CurrentURIMetaData>"
    );
}

#[test]
fn play_payload_is_fixed() {
    assert_eq!(build_play_payload(), "<InstanceID>0</InstanceID><Speed>1</Speed>");
}
