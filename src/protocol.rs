use vstd::prelude::*;

use crate::source_map::{traced_view, SourceMap, Token, TracedPosition, TracedPositionView};
use crate::text::str_eq;

verus! {

/// The facets of a request that a content source may read. Each may be
/// absent; a source that needs one asks for it first.
#[derive(Debug)]
pub struct ContentSourceData {
    pub method: Option<String>,
    pub url: Option<String>,
    pub query: Option<Vec<(String, String)>>,
    pub headers: Option<Vec<(String, String)>>,
    pub body: Option<Vec<u8>>,
}

/// Which facets of the request a content source needs.
#[derive(Debug, Clone, Copy, PartialEq, Eq, Structural)]
pub struct ContentSourceDataVary {
    pub method: bool,
    pub url: bool,
    pub query: bool,
    pub headers: bool,
    pub body: bool,
}

/// Content that a source resolved.
#[derive(Debug, PartialEq, Eq)]
pub enum Content {
    /// An asset's text, with the source map that it can generate, if any.
    Asset { body: String, source_map: Option<SourceMap> },
    /// The original position of a traced stack frame, `None` where the map
    /// has no mapping at the frame's position.
    Traced(Option<TracedPosition>),
}

/// The outcome of one resolution call.
#[derive(Debug, PartialEq, Eq)]
pub enum ContentSourceResult {
    /// The source labelled `source` needs the facets in `vary` to resolve
    /// `path`; call it again with them.
    NeedData { source: String, path: String, vary: ContentSourceDataVary },
    NotFound,
    Static(Content),
}

pub enum ContentView {
    Asset { body: Seq<char>, source_map: Option<Seq<Token>> },
    Traced(Option<TracedPositionView>),
}

pub enum ContentSourceResultView {
    NeedData { source: Seq<char>, path: Seq<char>, vary: ContentSourceDataVary },
    NotFound,
    Static(ContentView),
}

impl ContentSourceData {
    pub open spec fn spec_empty() -> ContentSourceData {
        ContentSourceData { method: None, url: None, query: None, headers: None, body: None }
    }

    /// A request context in which every facet is absent.
    pub fn empty() -> (r: ContentSourceData)
        ensures
            r == Self::spec_empty(),
    {
        ContentSourceData { method: None, url: None, query: None, headers: None, body: None }
    }

    /// A request context that holds the raw url alone.
    pub fn with_url(url: String) -> (r: ContentSourceData)
        ensures
            r == (ContentSourceData { url: Some(url), ..Self::spec_empty() }),
    {
        ContentSourceData { method: None, url: Some(url), query: None, headers: None, body: None }
    }
}

impl ContentSourceDataVary {
    pub open spec fn spec_none() -> ContentSourceDataVary {
        ContentSourceDataVary { method: false, url: false, query: false, headers: false, body: false }
    }

    /// A descriptor that needs no facet.
    pub fn none() -> (r: ContentSourceDataVary)
        ensures
            r == Self::spec_none(),
    {
        ContentSourceDataVary { method: false, url: false, query: false, headers: false, body: false }
    }

    /// A descriptor that needs the raw url and nothing else.
    pub fn url_only() -> (r: ContentSourceDataVary)
        ensures
            r == (ContentSourceDataVary { url: true, ..Self::spec_none() }),
    {
        ContentSourceDataVary { method: false, url: true, query: false, headers: false, body: false }
    }
}

impl View for Content {
    type V = ContentView;

    open spec fn view(&self) -> ContentView {
        match self {
            Content::Asset { body, source_map } => ContentView::Asset {
                body: body@,
                source_map: match source_map {
                    Some(m) => Some(m@),
                    None => None,
                },
            },
            Content::Traced(t) => ContentView::Traced(traced_view(*t)),
        }
    }
}

impl View for ContentSourceResult {
    type V = ContentSourceResultView;

    open spec fn view(&self) -> ContentSourceResultView {
        match self {
            ContentSourceResult::NeedData { source, path, vary } => ContentSourceResultView::NeedData {
                source: source@,
                path: path@,
                vary: *vary,
            },
            ContentSourceResult::NotFound => ContentSourceResultView::NotFound,
            ContentSourceResult::Static(c) => ContentSourceResultView::Static(c@),
        }
    }
}

fn clone_traced(t: &Option<TracedPosition>) -> (r: Option<TracedPosition>)
    ensures
        traced_view(r) == traced_view(*t),
{
    match t {
        None => None,
        Some(p) => Some(
            TracedPosition {
                file: p.file.clone(),
                line: p.line,
                column: p.column,
                name: crate::source_map::clone_name(&p.name),
                reported_name: crate::source_map::clone_name(&p.reported_name),
            },
        ),
    }
}

impl Content {
    /// The capability to generate a source map, where the content has it.
    pub fn source_map(&self) -> (r: Option<&SourceMap>)
        ensures
            match self@ {
                ContentView::Asset { source_map: Some(tokens), .. } => r matches Some(m) && m@
                    == tokens,
                _ => r is None,
            },
    {
        match self {
            Content::Asset { source_map: Some(m), .. } => Some(m),
            _ => None,
        }
    }

    /// A copy of the content.
    pub fn duplicate(&self) -> (r: Content)
        ensures
            r@ == self@,
    {
        match self {
            Content::Asset { body, source_map } => Content::Asset {
                body: body.clone(),
                source_map: match source_map {
                    Some(m) => Some(m.duplicate()),
                    None => None,
                },
            },
            Content::Traced(t) => Content::Traced(clone_traced(t)),
        }
    }
}

impl ContentSourceResult {
    /// A copy of the result.
    pub fn duplicate(&self) -> (r: ContentSourceResult)
        ensures
            r@ == self@,
    {
        match self {
            ContentSourceResult::NeedData { source, path, vary } => ContentSourceResult::NeedData {
                source: source.clone(),
                path: path.clone(),
                vary: *vary,
            },
            ContentSourceResult::NotFound => ContentSourceResult::NotFound,
            ContentSourceResult::Static(c) => ContentSourceResult::Static(c.duplicate()),
        }
    }
}

/// A resolver from a path and a request context to content.
///
/// Resolution is a function of its inputs: `spec_get` names it, and `get`
/// returns it.
pub trait ContentSource {
    spec fn spec_get(&self, path: Seq<char>, data: ContentSourceData) -> ContentSourceResultView;

    fn get(&self, path: &str, data: &ContentSourceData) -> (r: ContentSourceResult)
        ensures
            r@ == self.spec_get(path@, *data),
    ;
}

/// Two calls of a content source with the same path and context give the same
/// result, whichever of them runs first or whether they run at once.
pub proof fn lemma_get_deterministic<S: ContentSource>(
    source: &S,
    path: Seq<char>,
    data: ContentSourceData,
    first: ContentSourceResult,
    second: ContentSourceResult,
)
    requires
        first@ == source.spec_get(path, data),
        second@ == source.spec_get(path, data),
    ensures
        first@ == second@,
{
}

/// A content source that serves a fixed result for each of a set of paths,
/// whatever the request context; the first entry for a path wins.
pub struct AssetMap {
    pub entries: Vec<(String, ContentSourceResult)>,
}

/// The result that a list of entries gives for a path.
pub open spec fn entry_result(entries: Seq<(String, ContentSourceResult)>, path: Seq<char>) -> ContentSourceResultView
    decreases entries.len(),
{
    if entries.len() == 0 {
        ContentSourceResultView::NotFound
    } else if entries[0].0@ == path {
        entries[0].1@
    } else {
        entry_result(entries.drop_first(), path)
    }
}

impl AssetMap {
    /// A map that serves nothing.
    pub fn new() -> (r: AssetMap)
        ensures
            r.entries@.len() == 0,
    {
        AssetMap { entries: Vec::new() }
    }

    /// Adds an entry after the existing ones.
    pub fn insert(&mut self, path: String, result: ContentSourceResult)
        ensures
            final(self).entries@ == old(self).entries@.push((path, result)),
    {
        self.entries.push((path, result));
    }
}

impl ContentSource for AssetMap {
    open spec fn spec_get(&self, path: Seq<char>, data: ContentSourceData) -> ContentSourceResultView {
        entry_result(self.entries@, path)
    }

    fn get(&self, path: &str, data: &ContentSourceData) -> (r: ContentSourceResult) {
        let mut i: usize = 0;
        assert(self.entries@.subrange(0, self.entries@.len() as int) =~= self.entries@);
        while i < self.entries.len()
            invariant
                i <= self.entries@.len(),
                entry_result(self.entries@, path@) == entry_result(
                    self.entries@.subrange(i as int, self.entries@.len() as int),
                    path@,
                ),
            decreases self.entries@.len() - i,
        {
            let rest = Ghost(self.entries@.subrange(i as int, self.entries@.len() as int));
            assert(rest@[0] == self.entries@[i as int]);
            if str_eq(self.entries[i].0.as_str(), path) {
                return self.entries[i].1.duplicate();
            }
            assert(rest@.drop_first() =~= self.entries@.subrange(i + 1, self.entries@.len() as int));
            i = i + 1;
        }
        ContentSourceResult::NotFound
    }
}

} // verus!
