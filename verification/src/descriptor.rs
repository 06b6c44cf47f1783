//! The media descriptor: a playable video and an optional subtitle sidecar,
//! each with a network-reachable URI and a content subtype.

use vstd::prelude::*;

verus! {

/// Abstract value of a subtitle sidecar: its URI and its content subtype.
pub struct SubtitleView {
    pub uri: Seq<char>,
    pub subtype: Seq<char>,
}

/// Abstract value of a media descriptor.
pub struct MediaDescriptorView {
    pub video_uri: Seq<char>,
    pub video_subtype: Seq<char>,
    pub subtitle: Option<SubtitleView>,
}

impl MediaDescriptorView {
    /// A descriptor is well formed when a present subtitle has a non-empty URI.
    pub open spec fn wf(self) -> bool {
        match self.subtitle {
            Some(st) => st.uri.len() > 0,
            None => true,
        }
    }
}

/// A subtitle sidecar served next to the video.
pub struct SubtitleInfo {
    pub uri: String,
    pub subtype: String,
}

/// Identifies a playable video and an optional subtitle sidecar. Immutable
/// for the duration of one playback session.
pub struct MediaDescriptor {
    pub video_uri: String,
    pub video_subtype: String,
    pub subtitle: Option<SubtitleInfo>,
}

impl View for SubtitleInfo {
    type V = SubtitleView;

    open spec fn view(&self) -> SubtitleView {
        SubtitleView { uri: self.uri@, subtype: self.subtype@ }
    }
}

impl View for MediaDescriptor {
    type V = MediaDescriptorView;

    open spec fn view(&self) -> MediaDescriptorView {
        MediaDescriptorView {
            video_uri: self.video_uri@,
            video_subtype: self.video_subtype@,
            subtitle: match self.subtitle {
                Some(ref st) => Some(st@),
                None => None,
            },
        }
    }
}

impl SubtitleInfo {
    /// Builds the subtitle entry; a subtype that could not be determined
    /// defaults to the sentinel `unknown`.
    pub fn new(uri: String, subtype: Option<String>) -> (r: SubtitleInfo)
        ensures
            r.uri@ == uri@,
            subtype is Some ==> r.subtype@ == subtype->Some_0@,
            subtype is None ==> r.subtype@ == "unknown"@,
    {
        let st: String = match subtype {
            Some(t) => t,
            None => String::from_str("unknown"),
        };
        SubtitleInfo { uri, subtype: st }
    }
}

impl MediaDescriptor {
    /// Binds a video and an optional subtitle into one descriptor.
    pub fn new(video_uri: String, video_subtype: String, subtitle: Option<SubtitleInfo>) -> (r:
        MediaDescriptor)
        requires
            match subtitle {
                Some(st) => st.uri@.len() > 0,
                None => true,
            },
        ensures
            r@.wf(),
            r@.video_uri == video_uri@,
            r@.video_subtype == video_subtype@,
            subtitle is None ==> r@.subtitle is None,
            subtitle is Some ==> r@.subtitle == Some(subtitle->Some_0@),
    {
        MediaDescriptor { video_uri, video_subtype, subtitle }
    }
}

} // verus!
