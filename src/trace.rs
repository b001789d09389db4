use vstd::prelude::*;

use crate::protocol::{
    Content, ContentSource, ContentSourceData, ContentSourceDataVary, ContentSourceResult,
    ContentSourceResultView, ContentView,
};
use crate::source_map::{lookup, spec_trace, TracedPositionView};
use crate::stack_frame::{field, frame_of_pairs, parse_stack_frame, query_pairs, StackFrame, StackFrameView};

verus! {

#[verifier::external_type_specification]
#[verifier::external_body]
pub struct ExUrlParseError(url::ParseError);

/// The path component that url gives for an absolute url, `None` where it
/// refuses the text as one.
pub uninterp spec fn url_path_of(url: Seq<char>) -> Option<Seq<char>>;

/// Relies on url::Url::parse, to read an absolute url, and on url::Url::path,
/// for its percent-encoded path component.
#[verifier::external_body]
fn url_path(url: &str) -> (r: Result<String, url::ParseError>)
    ensures
        match r {
            Ok(p) => url_path_of(url@) == Some(p@),
            Err(_) => url_path_of(url@) is None,
        },
{
    match url::Url::parse(url) {
        Ok(u) => Ok(u.path().to_string()),
        Err(e) => Err(e),
    }
}

/// The label of the tracer, by which a `NeedData` result names it.
pub const TRACER_LABEL: &'static str = "next source map trace content source";

/// Whether `i` is the position of the first `?` in `s`.
pub open spec fn first_question_mark(s: Seq<char>, i: int) -> bool {
    0 <= i < s.len() && s[i] == '?' && forall|j: int| 0 <= j < i ==> s[j] != '?'
}

/// What follows the first `?` of a url, `None` where it has none.
pub open spec fn query_of(url: Seq<char>) -> Option<Seq<char>> {
    if exists|i: int| first_question_mark(url, i) {
        let i = choose|i: int| first_question_mark(url, i);
        Some(url.subrange(i + 1, url.len() as int))
    } else {
        None
    }
}

/// A path with its leading `/` taken off, `None` where it has none or where
/// nothing is left after it.
pub open spec fn strip_slash(p: Seq<char>) -> Option<Seq<char>> {
    if p.len() > 1 && p[0] == '/' {
        Some(p.subrange(1, p.len() as int))
    } else {
        None
    }
}

/// The path of the asset that a frame's file url points at.
pub open spec fn spec_asset_path(frame: StackFrameView) -> Option<Seq<char>> {
    match url_path_of(frame.file) {
        Some(p) => strip_slash(p),
        None => None,
    }
}

/// The frame that a request url describes.
pub open spec fn spec_frame_of_url(url: Seq<char>) -> Option<StackFrameView> {
    match query_of(url) {
        Some(q) => match query_pairs(q) {
            Some(pairs) => frame_of_pairs(pairs),
            None => None,
        },
        None => None,
    }
}

/// Where a request url leads: the frame's position, the frame and the path of
/// the asset to trace it in; `None` where any step fails.
pub open spec fn spec_route(url: Seq<char>) -> Option<(u64, u64, StackFrameView, Seq<char>)> {
    match spec_frame_of_url(url) {
        Some(frame) => match frame.pos() {
            Some((line, column)) => match spec_asset_path(frame) {
                Some(path) => Some((line, column, frame, path)),
                None => None,
            },
            None => None,
        },
        None => None,
    }
}

/// What tracing makes of the asset source's result: the traced position
/// where the asset is static content that can generate a source map, else
/// `NotFound`.
pub open spec fn spec_traced_result(
    asset: ContentSourceResultView,
    line: u64,
    column: u64,
    reported_name: Option<Seq<char>>,
) -> ContentSourceResultView {
    match asset {
        ContentSourceResultView::Static(ContentView::Asset { source_map: Some(tokens), .. }) => {
            ContentSourceResultView::Static(
                ContentView::Traced(spec_trace(tokens, line, column, reported_name)),
            )
        },
        _ => ContentSourceResultView::NotFound,
    }
}

/// Traces the stack frames of the error overlay to their original source
/// positions, through the source maps of the assets that `asset_source`
/// serves.
pub struct NextSourceMapTraceContentSource<S: ContentSource> {
    pub asset_source: S,
}

/// The index of the first `?` in a string.
fn find_question_mark(s: &str) -> (r: Option<usize>)
    ensures
        match r {
            Some(i) => first_question_mark(s@, i as int),
            None => forall|i: int| 0 <= i < s@.len() ==> s@[i] != '?',
        },
{
    let n = s.unicode_len();
    let mut i: usize = 0;
    while i < n
        invariant
            n == s@.len(),
            i <= n,
            forall|j: int| 0 <= j < i ==> s@[j] != '?',
        decreases n - i,
    {
        if s.get_char(i) == '?' {
            return Some(i);
        }
        i = i + 1;
    }
    None
}

/// What follows the first `?` of a url.
pub fn query_part(url: &str) -> (r: Option<&str>)
    ensures
        match r {
            Some(q) => query_of(url@) == Some(q@),
            None => query_of(url@) is None,
        },
{
    let n = url.unicode_len();
    match find_question_mark(url) {
        Some(i) => {
            proof {
                let k = choose|k: int| first_question_mark(url@, k);
                if k < i {
                    assert(url@[k] != '?');
                } else if k > i {
                    assert(url@[i as int] != '?');
                }
            }
            Some(url.substring_char(i + 1, n))
        },
        None => {
            proof {
                if exists|k: int| first_question_mark(url@, k) {
                    let k = choose|k: int| first_question_mark(url@, k);
                    assert(url@[k] != '?');
                }
            }
            None
        },
    }
}

/// The asset path that a url path names: the path without its leading `/`;
/// `None` where it has no leading `/` or is `/` alone.
pub fn asset_path_of_url_path(p: &str) -> (r: Option<String>)
    ensures
        match r {
            Some(a) => strip_slash(p@) == Some(a@),
            None => strip_slash(p@) is None,
        },
{
    let n = p.unicode_len();
    if n > 1 && p.get_char(0) == '/' {
        Some(p.substring_char(1, n).to_owned())
    } else {
        None
    }
}

/// The path of the asset that a frame's file url points at: the url's path
/// without its leading `/`.
pub fn frame_asset_path(frame: &StackFrame) -> (r: Option<String>)
    ensures
        match r {
            Some(p) => spec_asset_path(frame@) == Some(p@),
            None => spec_asset_path(frame@) is None,
        },
{
    match url_path(frame.file.as_str()) {
        Ok(path) => asset_path_of_url_path(path.as_str()),
        Err(_) => None,
    }
}

/// The frame and asset path that a request url leads to.
pub fn route(url: &str) -> (r: Option<(u64, u64, StackFrame, String)>)
    ensures
        match r {
            Some((line, column, frame, path)) => spec_route(url@) == Some(
                (line, column, frame@, path@),
            ),
            None => spec_route(url@) is None,
        },
{
    let query = match query_part(url) {
        Some(q) => q,
        None => return None,
    };
    let frame = match parse_stack_frame(query) {
        Some(f) => f,
        None => return None,
    };
    let (line, column) = match frame.get_pos() {
        Some(pos) => pos,
        None => return None,
    };
    let path = match frame_asset_path(&frame) {
        Some(p) => p,
        None => return None,
    };
    Some((line, column, frame, path))
}

impl<S: ContentSource> NextSourceMapTraceContentSource<S> {
    /// A tracer over the assets that `asset_source` serves.
    pub fn new(asset_source: S) -> (r: Self)
        ensures
            r.asset_source == asset_source,
    {
        NextSourceMapTraceContentSource { asset_source }
    }

    /// The label of this kind of source.
    pub fn ty(&self) -> (r: String)
        ensures
            r@ == TRACER_LABEL@,
    {
        TRACER_LABEL.to_owned()
    }

    /// What this source does.
    pub fn details(&self) -> (r: String)
        ensures
            r@ == "supports tracing an error stack frame to its original source location"@,
    {
        "supports tracing an error stack frame to its original source location".to_owned()
    }

    /// The labels of the sources below this one: none, as the asset source
    /// is not shown as a child.
    pub fn children(&self) -> (r: Vec<String>)
        ensures
            r@.len() == 0,
    {
        Vec::new()
    }
}

impl<S: ContentSource> ContentSource for NextSourceMapTraceContentSource<S> {
    /// Without the raw url, the source asks for it and for nothing else. With
    /// it, the frame that its query describes is traced through the source map
    /// of the asset that the frame's file points at; every failure on the way
    /// is `NotFound`.
    open spec fn spec_get(&self, path: Seq<char>, data: ContentSourceData) -> ContentSourceResultView {
        match data.url {
            None => ContentSourceResultView::NeedData {
                source: TRACER_LABEL@,
                path,
                vary: ContentSourceDataVary { url: true, ..ContentSourceDataVary::spec_none() },
            },
            Some(url) => match spec_route(url@) {
                None => ContentSourceResultView::NotFound,
                Some((line, column, frame, asset_path)) => spec_traced_result(
                    self.asset_source.spec_get(asset_path, ContentSourceData::spec_empty()),
                    line,
                    column,
                    frame.name,
                ),
            },
        }
    }

    fn get(&self, path: &str, data: &ContentSourceData) -> (r: ContentSourceResult) {
        let url = match &data.url {
            None => {
                return ContentSourceResult::NeedData {
                    source: self.ty(),
                    path: path.to_owned(),
                    vary: ContentSourceDataVary::url_only(),
                };
            },
            Some(u) => u,
        };
        let (line, column, frame, asset_path) = match route(url.as_str()) {
            Some(r) => r,
            None => return ContentSourceResult::NotFound,
        };
        let asset = self.asset_source.get(asset_path.as_str(), &ContentSourceData::empty());
        let content = match &asset {
            ContentSourceResult::Static(c) => c,
            _ => return ContentSourceResult::NotFound,
        };
        let map = match content.source_map() {
            Some(m) => m,
            None => return ContentSourceResult::NotFound,
        };
        let traced = map.trace(line, column, frame.name);
        ContentSourceResult::Static(Content::Traced(traced))
    }
}

/// Without the raw url the tracer asks for the url facet and for no other,
/// whatever the path.
pub proof fn lemma_needs_url_only<S: ContentSource>(
    source: NextSourceMapTraceContentSource<S>,
    path: Seq<char>,
    data: ContentSourceData,
)
    requires
        data.url is None,
    ensures
        source.spec_get(path, data) == (ContentSourceResultView::NeedData {
            source: "next source map trace content source"@,
            path,
            vary: ContentSourceDataVary {
                method: false,
                url: true,
                query: false,
                headers: false,
                body: false,
            },
        }),
{
}

/// Once the url is there the tracer never negotiates again: its result is
/// `NotFound` or static content.
pub proof fn lemma_url_settles<S: ContentSource>(
    source: NextSourceMapTraceContentSource<S>,
    path: Seq<char>,
    data: ContentSourceData,
)
    requires
        data.url is Some,
    ensures
        !(source.spec_get(path, data) is NeedData),
{
}

/// A query that lacks `lineNumber` or `column` gives `NotFound`.
pub proof fn lemma_missing_position_not_found<S: ContentSource>(
    source: NextSourceMapTraceContentSource<S>,
    path: Seq<char>,
    data: ContentSourceData,
    query: Seq<char>,
)
    requires
        data.url matches Some(url) && query_of(url@) == Some(query),
        query_pairs(query) matches Some(pairs) ==> field(pairs, "lineNumber"@) is None || field(
            pairs,
            "column"@,
        ) is None,
    ensures
        source.spec_get(path, data) == ContentSourceResultView::NotFound,
{
}

/// Where the asset source gives anything but static content that can
/// generate a source map (content without that capability, `NeedData` or
/// `NotFound`), the tracer gives `NotFound`.
pub proof fn lemma_capability_gating<S: ContentSource>(
    source: NextSourceMapTraceContentSource<S>,
    path: Seq<char>,
    data: ContentSourceData,
    line: u64,
    column: u64,
    frame: StackFrameView,
    asset_path: Seq<char>,
)
    requires
        data.url matches Some(url) && spec_route(url@) == Some((line, column, frame, asset_path)),
        !(source.asset_source.spec_get(asset_path, ContentSourceData::spec_empty()) matches
            ContentSourceResultView::Static(ContentView::Asset { source_map: Some(_), .. })),
    ensures
        source.spec_get(path, data) == ContentSourceResultView::NotFound,
{
}

/// Where the map records no symbol name at the frame's position, the trace is
/// still static content with the original file, line and column; its name is
/// absent and only the reported method name is kept.
pub proof fn lemma_unnamed_token_still_traced<S: ContentSource>(
    source: NextSourceMapTraceContentSource<S>,
    path: Seq<char>,
    data: ContentSourceData,
    line: u64,
    column: u64,
    frame: StackFrameView,
    asset_path: Seq<char>,
    body: Seq<char>,
    tokens: Seq<crate::source_map::Token>,
    i: int,
)
    requires
        data.url matches Some(url) && spec_route(url@) == Some((line, column, frame, asset_path)),
        source.asset_source.spec_get(asset_path, ContentSourceData::spec_empty())
            == ContentSourceResultView::Static(
            ContentView::Asset { body, source_map: Some(tokens) },
        ),
        lookup(tokens, line, column) == Some(i),
        tokens[i].name is None,
    ensures
        source.spec_get(path, data) == ContentSourceResultView::Static(
            ContentView::Traced(
                Some(
                    TracedPositionView {
                        file: tokens[i].original_file@,
                        line: tokens[i].original_line,
                        column: tokens[i].original_column,
                        name: None,
                        reported_name: frame.name,
                    },
                ),
            ),
        ),
{
}

} // verus!
