use assistant2::codebase::{
    cut_excerpts, cut_excerpts_with_ids, range_fits, search_request, AssistantContext, CodebaseContext, CodebaseExcerpt,
    ElementId, LoadedResult,
};
use assistant2::completion::CompletionMessage;
use assistant2::context::{Effect, FileContext, ViewContext};

fn named(name: &str) -> ElementId {
    ElementId::Name(name.to_string())
}

fn excerpt(name: &str, path: &str, text: &str, score: &str) -> CodebaseExcerpt {
    CodebaseExcerpt::with_element_id(
        named(name),
        path.to_string(),
        text,
        0,
        text.len(),
        score.to_string(),
    )
}

fn result(path: &str, start: usize, end: usize, text: Result<&str, &str>) -> LoadedResult {
    LoadedResult {
        path: path.to_string(),
        start,
        end,
        score: 0.5f32.to_string(),
        text: text.map(|text| text.to_string()).map_err(|error| error.to_string()),
    }
}

#[test]
fn query_is_searched_for_sixteen_results() {
    let request = search_request(Ok("where".to_string())).unwrap();
    assert_eq!(request.query, "where");
    assert_eq!(request.limit, 16);
    assert_eq!(search_request(Err("no query".to_string())), Err("no query".to_string()));
}

#[test]
fn excerpt_is_cut_by_bytes() {
    let cut = CodebaseExcerpt::with_element_id(
        named("x"),
        "a.rs".to_string(),
        "h\u{e9}llo",
        1,
        4,
        "1".to_string(),
    );
    assert_eq!(cut.text, "\u{e9}l");
    assert_eq!(cut.path, "a.rs");
    assert_eq!(cut.score, "1");
    assert!(!cut.expanded);
}

#[test]
fn stale_range_is_cut_to_the_text() {
    let cut = |start, end| {
        CodebaseExcerpt::with_element_id(
            named("x"),
            "a.rs".to_string(),
            "abc",
            start,
            end,
            "1".to_string(),
        )
        .text
    };
    assert_eq!(cut(1, 99), "bc");
    assert_eq!(cut(50, 99), "");
    assert_eq!(cut(50, 60), "");
    assert_eq!(cut(3, 3), "");
}

#[test]
fn range_must_hold_whole_characters() {
    assert!(range_fits("h\u{e9}llo", 1, 3));
    assert!(!range_fits("h\u{e9}llo", 2, 3));
    assert!(!range_fits("h\u{e9}llo", 1, 2));
    assert!(!range_fits("abc", 2, 1));
    assert!(range_fits("abc", 9, 5));
}

#[test]
fn excerpts_get_different_ids() {
    let excerpts = cut_excerpts(vec![
        result("a.rs", 0, 2, Ok("abc")),
        result("b.rs", 0, 2, Err("gone")),
        result("c.rs", 1, 3, Ok("xyz")),
    ]);
    assert_eq!(excerpts.len(), 2);
    assert_eq!(excerpts[0].path, "a.rs");
    assert_eq!(excerpts[0].text, "ab");
    assert_eq!(excerpts[1].path, "c.rs");
    assert_eq!(excerpts[1].text, "yz");
    assert_eq!(excerpts[1].score, "0.5");
    assert_ne!(excerpts[0].element_id, excerpts[1].element_id);
    for excerpt in &excerpts {
        match &excerpt.element_id {
            ElementId::Name(name) => {
                assert_eq!(name.len(), 21);
                assert!(name
                    .chars()
                    .all(|c| c.is_ascii_alphanumeric() || c == '_' || c == '-'));
            }
            ElementId::Integer(_) => panic!("the id is a number"),
        }
    }
}

#[test]
fn each_excerpt_gets_the_id_at_its_place() {
    let results = vec![
        result("a.rs", 1, 2, Ok("abc")),
        result("b.rs", 0, 1, Err("gone")),
        result("c.rs", 0, 9, Ok("xyz")),
    ];
    let excerpts = cut_excerpts_with_ids(results, &vec![named("first"), named("second")]);
    assert_eq!(excerpts.len(), 2);
    assert_eq!(excerpts[0].element_id, named("first"));
    assert_eq!(excerpts[0].path, "a.rs");
    assert_eq!(excerpts[0].text, "b");
    assert!(!excerpts[0].expanded);
    assert_eq!(excerpts[1].element_id, named("second"));
    assert_eq!(excerpts[1].path, "c.rs");
    assert_eq!(excerpts[1].text, "xyz");
}

#[test]
fn populate_reports_success() {
    let mut cx = ViewContext::new(None, None);
    let mut context = CodebaseContext::new();
    assert_eq!(context, CodebaseContext::Pending);
    assert!(context.populate(Ok(vec![excerpt("x", "a.rs", "a", "1")]), &mut cx));
    assert_eq!(context, CodebaseContext::Done(Ok(vec![excerpt("x", "a.rs", "a", "1")])));
    assert!(!context.populate(Err("no index".to_string()), &mut cx));
    assert_eq!(context, CodebaseContext::Done(Err("no index".to_string())));
    assert_eq!(cx.effects, vec![Effect::Notify, Effect::Notify]);
}

#[test]
fn toggling_twice_restores_the_excerpt() {
    let mut cx = ViewContext::new(None, None);
    let found = || {
        CodebaseContext::Done(Ok(vec![
            excerpt("x", "a.rs", "a", "1"),
            excerpt("y", "b.rs", "b", "2"),
            excerpt("y", "c.rs", "c", "3"),
        ]))
    };
    let mut context = found();
    context.toggle_expanded(named("y"), &mut cx);
    match &context {
        CodebaseContext::Done(Ok(excerpts)) => {
            assert!(!excerpts[0].expanded);
            assert!(excerpts[1].expanded);
            assert!(!excerpts[2].expanded);
        }
        _ => panic!("the excerpts are gone"),
    }
    assert_eq!(context.completion_messages(), found().completion_messages());
    context.toggle_expanded(named("y"), &mut cx);
    assert_eq!(context, found());
    assert_eq!(cx.effects, vec![Effect::Notify, Effect::Notify]);
}

#[test]
fn toggling_an_unknown_excerpt_changes_nothing() {
    let mut cx = ViewContext::new(None, None);
    let mut context = CodebaseContext::Done(Ok(vec![excerpt("x", "a.rs", "a", "1")]));
    context.toggle_expanded(named("z"), &mut cx);
    context.toggle_expanded(ElementId::Integer(0), &mut cx);
    assert_eq!(context, CodebaseContext::Done(Ok(vec![excerpt("x", "a.rs", "a", "1")])));
    let mut pending = CodebaseContext::new();
    pending.toggle_expanded(named("x"), &mut cx);
    assert_eq!(pending, CodebaseContext::Pending);
    assert!(cx.effects.is_empty());
}

#[test]
fn excerpts_share_one_system_message() {
    let context = AssistantContext::Codebase(CodebaseContext::Done(Ok(vec![
        excerpt("x", "a.rs", "fn a() {}\n", "0.75"),
        excerpt("y", "b.rs", "b", "2"),
    ])));
    let body = "Semantic search results for user query:\n\
                Excerpt from a.rs, score 0.75:\n~~~\nfn a() {}\n~~~\n\
                Excerpt from b.rs, score 2:\n~~~\nb\n~~~\n";
    assert_eq!(
        context.completion_messages(),
        vec![CompletionMessage::System { content: body.to_string() }]
    );
}

#[test]
fn closing_fence_has_its_own_line() {
    let told = |text: &str| {
        let context = CodebaseContext::Done(Ok(vec![excerpt("x", "a.rs", text, "1")]));
        match context.completion_messages().remove(0) {
            CompletionMessage::System { content } => content,
            _ => panic!("the message is not a system message"),
        }
    };
    let head = "Semantic search results for user query:\nExcerpt from a.rs, score 1:\n";
    assert_eq!(told("b"), format!("{head}~~~\nb\n~~~\n"));
    assert_eq!(told("b\n"), format!("{head}~~~\nb\n~~~\n"));
    assert_eq!(told("b\n\n"), format!("{head}~~~\nb\n\n~~~\n"));
    assert_eq!(told("\u{2728}"), format!("{head}~~~\n\u{2728}\n~~~\n"));
    assert_eq!(told(""), format!("{head}~~~\n\n~~~\n"));
}

#[test]
fn file_is_told_in_one_system_message() {
    let told = |text: &str| {
        let file = FileContext { path: "src/a.rs".to_string(), text: text.to_string() };
        AssistantContext::File(file).completion_messages()
    };
    let message = |content: &str| vec![CompletionMessage::System { content: content.to_string() }];
    assert_eq!(
        told("fn a() {}\n"),
        message("Current file src/a.rs:\n~~~\nfn a() {}\n~~~\n")
    );
    assert_eq!(told("fn a() {}"), message("Current file src/a.rs:\n~~~\nfn a() {}\n~~~\n"));
}

#[test]
fn context_without_excerpts_says_nothing() {
    assert!(CodebaseContext::new().completion_messages().is_empty());
    assert!(CodebaseContext::Done(Ok(Vec::new())).completion_messages().is_empty());
    let failed = CodebaseContext::Done(Err("no index".to_string()));
    assert!(failed.completion_messages().is_empty());
}
