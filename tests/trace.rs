use next_core::protocol::{
    AssetMap, Content, ContentSource, ContentSourceData, ContentSourceDataVary,
    ContentSourceResult,
};
use next_core::source_map::{SourceMap, Token, TracedPosition};
use next_core::stack_frame::{parse_stack_frame, parse_u64, stack_frame_from_pairs, StackFrame};
use next_core::trace::{asset_path_of_url_path, frame_asset_path, query_part, route, NextSourceMapTraceContentSource};

const TRACE_URL: &str =
    "/trace?file=http%3A%2F%2Flocalhost%3A3000%2Fapp.js&lineNumber=10&column=4&methodName=handler";

fn token(gl: u64, gc: u64, file: &str, ol: u64, oc: u64, name: Option<&str>) -> Token {
    Token {
        generated_line: gl,
        generated_column: gc,
        original_file: file.to_string(),
        original_line: ol,
        original_column: oc,
        name: name.map(|n| n.to_string()),
    }
}

fn asset_with_map(tokens: Vec<Token>) -> ContentSourceResult {
    ContentSourceResult::Static(Content::Asset {
        body: "console.log(1)".to_string(),
        source_map: Some(SourceMap { tokens }),
    })
}

fn tracer_over(path: &str, result: ContentSourceResult) -> NextSourceMapTraceContentSource<AssetMap> {
    let mut assets = AssetMap::new();
    assets.insert(path.to_string(), result);
    NextSourceMapTraceContentSource::new(assets)
}

fn app_tracer(name: Option<&str>) -> NextSourceMapTraceContentSource<AssetMap> {
    tracer_over(
        "app.js",
        asset_with_map(vec![
            token(10, 0, "src/app.ts", 1, 0, None),
            token(10, 4, "src/app.ts", 3, 2, name),
            token(10, 9, "src/app.ts", 7, 7, Some("other")),
        ]),
    )
}

fn url_data(url: &str) -> ContentSourceData {
    ContentSourceData::with_url(url.to_string())
}

#[test]
fn end_to_end_trace_to_original_position() {
    let tracer = app_tracer(Some("handler"));
    let r = tracer.get("trace", &url_data(TRACE_URL));
    assert_eq!(
        r,
        ContentSourceResult::Static(Content::Traced(Some(TracedPosition {
            file: "src/app.ts".to_string(),
            line: 3,
            column: 2,
            name: Some("handler".to_string()),
            reported_name: Some("handler".to_string()),
        })))
    );
}

#[test]
fn trace_without_symbol_name_falls_back() {
    let tracer = app_tracer(None);
    let r = tracer.get("trace", &url_data(TRACE_URL));
    assert_eq!(
        r,
        ContentSourceResult::Static(Content::Traced(Some(TracedPosition {
            file: "src/app.ts".to_string(),
            line: 3,
            column: 2,
            name: None,
            reported_name: Some("handler".to_string()),
        })))
    );
}

#[test]
fn trace_between_tokens_uses_the_preceding_one() {
    let tracer = app_tracer(Some("handler"));
    let url = "/trace?file=http%3A%2F%2Flocalhost%3A3000%2Fapp.js&lineNumber=10&column=12";
    match tracer.get("trace", &url_data(url)) {
        ContentSourceResult::Static(Content::Traced(Some(p))) => {
            assert_eq!(p.line, 7);
            assert_eq!(p.column, 7);
            assert_eq!(p.name, Some("other".to_string()));
            assert_eq!(p.reported_name, None);
        }
        other => panic!("unexpected result {:?}", other),
    }
}

#[test]
fn trace_on_unmapped_line_is_static_without_position() {
    let tracer = app_tracer(Some("handler"));
    let url = "/trace?file=http%3A%2F%2Flocalhost%3A3000%2Fapp.js&lineNumber=11&column=4";
    assert_eq!(
        tracer.get("trace", &url_data(url)),
        ContentSourceResult::Static(Content::Traced(None))
    );
}

#[test]
fn missing_url_needs_url_only() {
    let tracer = app_tracer(Some("handler"));
    for path in ["", "trace", "a/b/c.js"] {
        let r = tracer.get(path, &ContentSourceData::empty());
        assert_eq!(
            r,
            ContentSourceResult::NeedData {
                source: "next source map trace content source".to_string(),
                path: path.to_string(),
                vary: ContentSourceDataVary {
                    method: false,
                    url: true,
                    query: false,
                    headers: false,
                    body: false,
                },
            }
        );
    }
}

#[test]
fn missing_position_is_not_found() {
    let tracer = app_tracer(Some("handler"));
    let data = url_data("/trace?file=http://localhost:3000/_next/a.js");
    assert_eq!(tracer.get("trace", &data), ContentSourceResult::NotFound);
    let data = url_data("/trace?file=http%3A%2F%2Flocalhost%3A3000%2Fapp.js&lineNumber=10");
    assert_eq!(tracer.get("trace", &data), ContentSourceResult::NotFound);
    let data = url_data("/trace?file=http%3A%2F%2Flocalhost%3A3000%2Fapp.js&column=4");
    assert_eq!(tracer.get("trace", &data), ContentSourceResult::NotFound);
}

#[test]
fn malformed_requests_are_not_found() {
    let tracer = app_tracer(Some("handler"));
    for url in [
        "/trace",
        "/trace?lineNumber=10&column=4",
        "/trace?file=app.js&lineNumber=10&column=4",
        "/trace?file=http%3A%2F%2Flocalhost%3A3000%2Fapp.js&lineNumber=ten&column=4",
        "/trace?file=mailto%3Ajs&lineNumber=10&column=4",
        "/trace?file=http%3A%2F%2Flocalhost%3A3000%2Fmissing.js&lineNumber=10&column=4",
    ] {
        assert_eq!(tracer.get("trace", &url_data(url)), ContentSourceResult::NotFound, "{}", url);
    }
}

#[test]
fn capability_gating() {
    let no_map = ContentSourceResult::Static(Content::Asset {
        body: "x".to_string(),
        source_map: None,
    });
    let need = ContentSourceResult::NeedData {
        source: "inner".to_string(),
        path: "app.js".to_string(),
        vary: ContentSourceDataVary::url_only(),
    };
    let traced = ContentSourceResult::Static(Content::Traced(None));
    for inner in [no_map, need, ContentSourceResult::NotFound, traced] {
        let tracer = tracer_over("app.js", inner);
        assert_eq!(tracer.get("trace", &url_data(TRACE_URL)), ContentSourceResult::NotFound);
    }
}

#[test]
fn identical_calls_give_identical_results() {
    let tracer = app_tracer(Some("handler"));
    let first = tracer.get("trace", &url_data(TRACE_URL));
    for _ in 0..8 {
        assert_eq!(tracer.get("trace", &url_data(TRACE_URL)), first);
    }
    let empty = tracer.get("trace", &ContentSourceData::empty());
    assert_eq!(tracer.get("trace", &ContentSourceData::empty()), empty);
}

#[test]
fn url_extraction_strips_leading_slash() {
    let url = "/x?file=http%3A%2F%2Flocalhost%3A3000%2F_next%2Ffoo%2Fbar.js%3Flinenumber%3D5&lineNumber=1&column=2";
    let (line, column, frame, path) = route(url).unwrap();
    assert_eq!(path, "_next/foo/bar.js");
    assert_eq!((line, column), (1, 2));
    assert_eq!(frame.file, "http://localhost:3000/_next/foo/bar.js?linenumber=5");
}

#[test]
fn frame_asset_path_of_urls() {
    let frame = |file: &str| StackFrame {
        file: file.to_string(),
        line: Some(1),
        column: Some(1),
        name: None,
    };
    assert_eq!(
        frame_asset_path(&frame("http://localhost:3000/_next/foo/bar.js?linenumber=5")),
        Some("_next/foo/bar.js".to_string())
    );
    assert_eq!(frame_asset_path(&frame("http://localhost:3000")), None);
    assert_eq!(frame_asset_path(&frame("http://localhost:3000/")), None);
    assert_eq!(frame_asset_path(&frame("not a url")), None);
    assert_eq!(frame_asset_path(&frame("mailto:someone")), None);
}

#[test]
fn query_part_after_first_question_mark() {
    assert_eq!(query_part("/a?b=1?c"), Some("b=1?c"));
    assert_eq!(query_part("/a?"), Some(""));
    assert_eq!(query_part("/a"), None);
}

#[test]
fn parse_stack_frame_decodes_fields() {
    let frame = parse_stack_frame("file=http%3A%2F%2Fh%2Fa.js&lineNumber=3&column=9&methodName=run&other=1").unwrap();
    assert_eq!(
        frame,
        StackFrame {
            file: "http://h/a.js".to_string(),
            line: Some(3),
            column: Some(9),
            name: Some("run".to_string()),
        }
    );
    assert_eq!(frame.get_pos(), Some((3, 9)));
    let frame = parse_stack_frame("file=a.js&column=9").unwrap();
    assert_eq!(frame.get_pos(), None);
    assert_eq!(parse_stack_frame("lineNumber=3&column=9"), None);
    assert_eq!(parse_stack_frame("file=a.js&column=x"), None);
}

#[test]
fn stack_frame_from_pairs_picks_known_keys() {
    let pairs = vec![
        ("column".to_string(), Some("2".to_string())),
        ("file".to_string(), Some("f".to_string())),
        ("zzz".to_string(), Some("y".to_string())),
        ("args".to_string(), None),
    ];
    assert_eq!(
        stack_frame_from_pairs(&pairs),
        Some(StackFrame { file: "f".to_string(), line: None, column: Some(2), name: None })
    );
    assert_eq!(stack_frame_from_pairs(&vec![]), None);
}

#[test]
fn parse_u64_values() {
    assert_eq!(parse_u64("0"), Some(0));
    assert_eq!(parse_u64("0042"), Some(42));
    assert_eq!(parse_u64("18446744073709551615"), Some(u64::MAX));
    assert_eq!(parse_u64("18446744073709551616"), None);
    assert_eq!(parse_u64(""), None);
    assert_eq!(parse_u64("1a"), None);
    assert_eq!(parse_u64("-1"), None);
    assert_eq!(parse_u64("+5"), Some(5));
    assert_eq!(parse_u64("+"), None);
    assert_eq!(parse_u64("++5"), None);
}

#[test]
fn lookup_token_picks_greatest_covering_column() {
    let map = SourceMap {
        tokens: vec![
            token(1, 5, "a", 1, 1, None),
            token(2, 0, "b", 2, 2, None),
            token(2, 3, "c", 3, 3, None),
            token(2, 3, "d", 4, 4, None),
            token(2, 8, "e", 5, 5, None),
        ],
    };
    assert_eq!(map.lookup_token(2, 5), Some(3));
    assert_eq!(map.lookup_token(2, 2), Some(1));
    assert_eq!(map.lookup_token(2, 100), Some(4));
    assert_eq!(map.lookup_token(1, 4), None);
    assert_eq!(map.lookup_token(3, 0), None);
    let traced = map.trace(2, 5, Some("f".to_string())).unwrap();
    assert_eq!(traced.file, "d");
    assert_eq!(traced.reported_name, Some("f".to_string()));
}

#[test]
fn duplicates_are_equal() {
    let r = asset_with_map(vec![token(1, 2, "a", 3, 4, Some("n"))]);
    assert_eq!(r.duplicate(), r);
    let t = ContentSourceResult::NeedData {
        source: "s".to_string(),
        path: "p".to_string(),
        vary: ContentSourceDataVary::none(),
    };
    assert_eq!(t.duplicate(), t);
}

#[test]
fn asset_map_first_entry_wins() {
    let mut assets = AssetMap::new();
    assets.insert("a".to_string(), ContentSourceResult::Static(Content::Traced(None)));
    assets.insert("a".to_string(), ContentSourceResult::NotFound);
    let data = ContentSourceData::empty();
    assert_eq!(assets.get("a", &data), ContentSourceResult::Static(Content::Traced(None)));
    assert_eq!(assets.get("b", &data), ContentSourceResult::NotFound);
}

#[test]
fn introspection() {
    let tracer = app_tracer(None);
    assert_eq!(tracer.ty(), "next source map trace content source");
    assert_eq!(
        tracer.details(),
        "supports tracing an error stack frame to its original source location"
    );
    assert!(tracer.children().is_empty());
}

#[test]
fn asset_path_of_url_paths() {
    assert_eq!(asset_path_of_url_path("/a/b.js"), Some("a/b.js".to_string()));
    assert_eq!(asset_path_of_url_path("/"), None);
    assert_eq!(asset_path_of_url_path(""), None);
    assert_eq!(asset_path_of_url_path("a.js"), None);
}

#[test]
fn root_url_path_is_not_found() {
    let tracer = tracer_over("", asset_with_map(vec![token(10, 4, "src/app.ts", 3, 2, None)]));
    let url = "/trace?file=http%3A%2F%2Flocalhost%3A3000%2F&lineNumber=10&column=4";
    assert_eq!(tracer.get("trace", &url_data(url)), ContentSourceResult::NotFound);
}

#[test]
fn unknown_bracketed_keys_are_ignored() {
    let tracer = app_tracer(Some("handler"));
    let url = "/trace?x[a]=1&file=http%3A%2F%2Flocalhost%3A3000%2Fapp.js&lineNumber=10&column=4";
    match tracer.get("trace", &url_data(url)) {
        ContentSourceResult::Static(Content::Traced(Some(p))) => assert_eq!(p.line, 3),
        other => panic!("unexpected result {:?}", other),
    }
}

#[test]
fn name_key_stands_in_for_method_name() {
    let frame = parse_stack_frame("file=f&name=n").unwrap();
    assert_eq!(frame.name, Some("n".to_string()));
    let frame = parse_stack_frame("file=f&name=n&methodName=m").unwrap();
    assert_eq!(frame.name, Some("m".to_string()));
}

#[test]
fn display_name_falls_back_on_reported_name() {
    let mut t = TracedPosition {
        file: "f".to_string(),
        line: 1,
        column: 1,
        name: Some("mapped".to_string()),
        reported_name: Some("reported".to_string()),
    };
    assert_eq!(t.display_name(), Some("mapped".to_string()));
    t.name = None;
    assert_eq!(t.display_name(), Some("reported".to_string()));
    t.reported_name = None;
    assert_eq!(t.display_name(), None);
}

#[test]
fn nested_keys_after_the_first_are_ignored() {
    let tracer = app_tracer(Some("handler"));
    let url = "/trace?file=http%3A%2F%2Flocalhost%3A3000%2Fapp.js&lineNumber=10&column=4&arguments[0]=x&meta[a][b]=y";
    match tracer.get("trace", &url_data(url)) {
        ContentSourceResult::Static(Content::Traced(Some(p))) => assert_eq!((p.line, p.column), (3, 2)),
        other => panic!("unexpected result {:?}", other),
    }
    let frame = parse_stack_frame("file=f&arguments[0]=x&arguments[1]=y&lineNumber=2").unwrap();
    assert_eq!(frame.line, Some(2));
}

#[test]
fn known_key_with_nested_value_is_refused() {
    assert_eq!(parse_stack_frame("file=f&lineNumber[a]=2"), None);
    assert_eq!(parse_stack_frame("file[a]=f"), None);
}

#[test]
fn empty_values_are_absent() {
    let frame = parse_stack_frame("file=f&methodName=&lineNumber=&column=3").unwrap();
    assert_eq!(frame.name, None);
    assert_eq!(frame.line, None);
    assert_eq!(frame.column, Some(3));
    let frame = parse_stack_frame("file=f&methodName=&name=n").unwrap();
    assert_eq!(frame.name, Some("n".to_string()));
}

#[test]
fn zero_position_is_not_found() {
    assert_eq!(parse_stack_frame("file=f&lineNumber=0&column=3"), None);
    let tracer = app_tracer(Some("handler"));
    let url = "/trace?file=http%3A%2F%2Flocalhost%3A3000%2Fapp.js&lineNumber=10&column=0";
    assert_eq!(tracer.get("trace", &url_data(url)), ContentSourceResult::NotFound);
    let url = "/trace?file=http%3A%2F%2Flocalhost%3A3000%2Fapp.js&lineNumber=%2B10&column=4";
    assert!(matches!(
        tracer.get("trace", &url_data(url)),
        ContentSourceResult::Static(Content::Traced(Some(_)))
    ));
}
