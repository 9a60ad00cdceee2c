//! What the extractor reports of a source: its items and, for each, the
//! streams it can be fetched in.
//!
//! The records hold plain values only. Each has a view, its mathematical
//! model: texts as sequences of characters, sizes as integers, lists as
//! sequences of views.

use vstd::prelude::*;
use vstd::string::*;

verus! {

/// One file of a stream.
#[derive(Debug, PartialEq)]
pub struct Parts {
    pub url: String,
    pub size: i64,
    pub ext: String,
}

/// The model of a [`Parts`].
pub struct PartsView {
    pub url: Seq<char>,
    pub size: int,
    pub ext: Seq<char>,
}

impl View for Parts {
    type V = PartsView;

    open spec fn view(&self) -> PartsView {
        PartsView { url: self.url@, size: self.size as int, ext: self.ext@ }
    }
}

impl Clone for Parts {
    fn clone(&self) -> (copy: Self)
        ensures
            copy@ == self@,
    {
        Parts { url: self.url.clone(), size: self.size, ext: self.ext.clone() }
    }
}

impl Default for Parts {
    fn default() -> (parts: Self)
        ensures
            parts@ == (PartsView { url: Seq::empty(), size: 0, ext: Seq::empty() }),
    {
        Parts { url: String::new(), size: 0, ext: String::new() }
    }
}

/// The comment track of an item.
#[derive(Debug, PartialEq)]
pub struct Danmaku {
    pub url: String,
    pub size: i64,
    pub ext: String,
}

/// The model of a [`Danmaku`].
pub struct DanmakuView {
    pub url: Seq<char>,
    pub size: int,
    pub ext: Seq<char>,
}

impl View for Danmaku {
    type V = DanmakuView;

    open spec fn view(&self) -> DanmakuView {
        DanmakuView { url: self.url@, size: self.size as int, ext: self.ext@ }
    }
}

impl Clone for Danmaku {
    fn clone(&self) -> (copy: Self)
        ensures
            copy@ == self@,
    {
        Danmaku { url: self.url.clone(), size: self.size, ext: self.ext.clone() }
    }
}

impl Default for Danmaku {
    fn default() -> (danmaku: Self)
        ensures
            danmaku@ == (DanmakuView { url: Seq::empty(), size: 0, ext: Seq::empty() }),
    {
        Danmaku { url: String::new(), size: 0, ext: String::new() }
    }
}

/// Comment track and subtitles of an item. The subtitle report is kept as
/// the JSON text it arrived in: nothing here reads it.
#[derive(Debug, PartialEq)]
pub struct Caption {
    pub danmaku: Danmaku,
    pub subtitle: String,
}

/// The model of a [`Caption`].
pub struct CaptionView {
    pub danmaku: DanmakuView,
    pub subtitle: Seq<char>,
}

impl View for Caption {
    type V = CaptionView;

    open spec fn view(&self) -> CaptionView {
        CaptionView { danmaku: self.danmaku@, subtitle: self.subtitle@ }
    }
}

impl Clone for Caption {
    fn clone(&self) -> (copy: Self)
        ensures
            copy@ == self@,
    {
        Caption { danmaku: self.danmaku.clone(), subtitle: self.subtitle.clone() }
    }
}

impl Default for Caption {
    fn default() -> (caption: Self)
        ensures
            caption@ == (CaptionView {
                danmaku: DanmakuView { url: Seq::empty(), size: 0, ext: Seq::empty() },
                subtitle: Seq::empty(),
            }),
    {
        Caption { danmaku: Danmaku::default(), subtitle: String::new() }
    }
}

/// One quality of an item, as it can be fetched.
#[derive(Debug, PartialEq)]
pub struct StreamInfo {
    /// What the fetcher is told to fetch.
    pub id: String,
    /// What the user is shown.
    pub quality: String,
    pub parts: Vec<Parts>,
    /// Bytes of the whole stream.
    pub size: i64,
    pub ext: String,
    pub need_mux: bool,
}

/// The model of a [`StreamInfo`].
pub struct StreamInfoView {
    pub id: Seq<char>,
    pub quality: Seq<char>,
    pub parts: Seq<PartsView>,
    pub size: int,
    pub ext: Seq<char>,
    pub need_mux: bool,
}

impl View for StreamInfo {
    type V = StreamInfoView;

    open spec fn view(&self) -> StreamInfoView {
        StreamInfoView {
            id: self.id@,
            quality: self.quality@,
            parts: self.parts@.map_values(|p: Parts| p@),
            size: self.size as int,
            ext: self.ext@,
            need_mux: self.need_mux,
        }
    }
}

/// The line that offers a stream for choice: `id: <id> | quality: <quality>`.
pub open spec fn stream_label(id: Seq<char>, quality: Seq<char>) -> Seq<char> {
    "id: "@ + id + " | quality: "@ + quality
}

impl StreamInfo {
    /// The line under which this stream is offered for choice.
    pub fn label(&self) -> (line: String)
        ensures
            line@ == stream_label(self.id@, self.quality@),
    {
        let mut line = String::from_str("id: ");
        line.append(self.id.as_str());
        line.append(" | quality: ");
        line.append(self.quality.as_str());
        assert(line@ =~= stream_label(self.id@, self.quality@));
        line
    }
}

impl Clone for StreamInfo {
    fn clone(&self) -> (copy: Self)
        ensures
            copy@ == self@,
    {
        let mut parts: Vec<Parts> = Vec::new();
        let mut i: usize = 0;
        while i < self.parts.len()
            invariant
                i <= self.parts.len(),
                parts.len() == i,
                forall|j: int| 0 <= j < i ==> parts[j]@ == self.parts[j]@,
            decreases self.parts.len() - i,
        {
            parts.push(self.parts[i].clone());
            i += 1;
        }
        let copy = StreamInfo {
            id: self.id.clone(),
            quality: self.quality.clone(),
            parts,
            size: self.size,
            ext: self.ext.clone(),
            need_mux: self.need_mux,
        };
        assert(copy@.parts =~= self@.parts);
        copy
    }
}

impl Default for StreamInfo {
    fn default() -> (stream: Self)
        ensures
            stream@ == (StreamInfoView {
                id: Seq::empty(),
                quality: Seq::empty(),
                parts: Seq::empty(),
                size: 0,
                ext: Seq::empty(),
                need_mux: false,
            }),
    {
        let stream = StreamInfo {
            id: String::new(),
            quality: String::new(),
            parts: Vec::new(),
            size: 0,
            ext: String::new(),
            need_mux: false,
        };
        assert(stream@.parts =~= Seq::empty());
        stream
    }
}

/// One item of a source, with the streams it is offered in, in the order in
/// which they are offered for choice. The error report is kept as the JSON
/// text it arrived in: nothing here reads it.
#[derive(Debug, PartialEq)]
pub struct UrlInfo {
    pub url: String,
    pub site: String,
    pub title: String,
    pub type_field: String,
    pub streams: Vec<StreamInfo>,
    pub caption: Caption,
    pub err: String,
}

/// The model of a [`UrlInfo`].
pub struct UrlInfoView {
    pub url: Seq<char>,
    pub site: Seq<char>,
    pub title: Seq<char>,
    pub type_field: Seq<char>,
    pub streams: Seq<StreamInfoView>,
    pub caption: CaptionView,
    pub err: Seq<char>,
}

impl View for UrlInfo {
    type V = UrlInfoView;

    open spec fn view(&self) -> UrlInfoView {
        UrlInfoView {
            url: self.url@,
            site: self.site@,
            title: self.title@,
            type_field: self.type_field@,
            streams: self.streams@.map_values(|s: StreamInfo| s@),
            caption: self.caption@,
            err: self.err@,
        }
    }
}

impl Clone for UrlInfo {
    fn clone(&self) -> (copy: Self)
        ensures
            copy@ == self@,
    {
        let mut streams: Vec<StreamInfo> = Vec::new();
        let mut i: usize = 0;
        while i < self.streams.len()
            invariant
                i <= self.streams.len(),
                streams.len() == i,
                forall|j: int| 0 <= j < i ==> streams[j]@ == self.streams[j]@,
            decreases self.streams.len() - i,
        {
            streams.push(self.streams[i].clone());
            i += 1;
        }
        let copy = UrlInfo {
            url: self.url.clone(),
            site: self.site.clone(),
            title: self.title.clone(),
            type_field: self.type_field.clone(),
            streams,
            caption: self.caption.clone(),
            err: self.err.clone(),
        };
        assert(copy@.streams =~= self@.streams);
        copy
    }
}

impl Default for UrlInfo {
    fn default() -> (info: Self)
        ensures
            info@ == (UrlInfoView {
                url: Seq::empty(),
                site: Seq::empty(),
                title: Seq::empty(),
                type_field: Seq::empty(),
                streams: Seq::empty(),
                caption: CaptionView {
                    danmaku: DanmakuView { url: Seq::empty(), size: 0, ext: Seq::empty() },
                    subtitle: Seq::empty(),
                },
                err: Seq::empty(),
            }),
    {
        let info = UrlInfo {
            url: String::new(),
            site: String::new(),
            title: String::new(),
            type_field: String::new(),
            streams: Vec::new(),
            caption: Caption::default(),
            err: String::new(),
        };
        assert(info@.streams =~= Seq::empty());
        info
    }
}

} // verus!
