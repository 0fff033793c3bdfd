use slumber_template::chain::{
    content_type_from_extension, decide_trigger, needs_send, prompt_label, resolve_response, TriggerDecision,
};
use slumber_template::context::{
    Chain, ChainData, ChainInput, ChainRequestTrigger, ChainSource, Collection, ContentType,
    Profile, RequestRecord, Response, SelectFailure, TemplateContext,
};
use slumber_template::error::{ChainError, EnvVarError, TemplateError, TriggeredRequestError};
use slumber_template::render::{TemplateChunk, RECURSION_LIMIT};
use slumber_template::template::{Span, Template, TemplateInputChunk, TemplateKey, TemplateSource};

fn span(start: usize, end: usize) -> Span {
    Span { start, end }
}

/// `{{name}}` as a template of one field key.
fn field_key(name: &str) -> Template {
    let text = format!("{{{{{}}}}}", name);
    let n = name.chars().count();
    Template::new(
        text,
        vec![TemplateInputChunk::Key(TemplateKey::Field(span(2, 2 + n)))],
    )
    .unwrap()
}

/// `{{chains.id}}` as a template of one chain key.
fn chain_key(id: &str) -> Template {
    let text = format!("{{{{chains.{}}}}}", id);
    let n = id.chars().count();
    Template::new(
        text,
        vec![TemplateInputChunk::Key(TemplateKey::Chain(span(9, 9 + n)))],
    )
    .unwrap()
}

fn profile(id: &str, fields: Vec<(&str, Template)>) -> Profile {
    Profile {
        id: id.to_string(),
        name: None,
        data: fields.into_iter().map(|(k, t)| (k.to_string(), t)).collect(),
    }
}

fn context() -> TemplateContext {
    TemplateContext {
        collection: Collection { profiles: vec![], chains: vec![], recipes: vec![] },
        selected_profile: None,
        overrides: vec![],
        http_engine: false,
        now: 0,
        env: vec![],
        chain_inputs: vec![],
    }
}

fn with_profile(fields: Vec<(&str, Template)>) -> TemplateContext {
    let mut ctx = context();
    ctx.collection.profiles = vec![profile("dev", fields)];
    ctx.selected_profile = Some("dev".to_string());
    ctx
}

fn chain(id: &str, source: ChainSource) -> Chain {
    Chain { id: id.to_string(), source, sensitive: false, selector: None, content_type: None }
}

fn input(id: &str, data: ChainData) -> ChainInput {
    ChainInput {
        chain_id: id.to_string(),
        data,
        selected: Err(SelectFailure::Parse { cause: "unused".to_string() }),
    }
}

fn chain_error(r: Result<String, TemplateError>) -> (String, ChainError) {
    match r {
        Err(TemplateError::Chain { chain_id, error }) => (chain_id, error),
        other => panic!("expected a chain error, got {:?}", other),
    }
}

#[test]
fn empty_template_renders_empty() {
    let t = Template::raw(String::new());
    assert_eq!(t.chunks.len(), 0);
    assert_eq!(t.render(&context()).unwrap(), "");
}

#[test]
fn raw_template_renders_its_source() {
    let t = Template::new(
        "abc def".to_string(),
        vec![TemplateInputChunk::Raw(span(0, 3)), TemplateInputChunk::Raw(span(3, 7))],
    )
    .unwrap();
    assert_eq!(t.render(&context()).unwrap(), "abc def");
    let t = Template::raw("héllo".to_string());
    assert_eq!(t.render(&with_profile(vec![])).unwrap(), "héllo");
}

#[test]
fn new_rejects_span_outside_source() {
    assert!(Template::new("ab".to_string(), vec![TemplateInputChunk::Raw(span(0, 3))]).is_none());
    assert!(Template::new("ab".to_string(), vec![TemplateInputChunk::Raw(span(2, 1))]).is_none());
    assert!(Template::new("ab".to_string(), vec![TemplateInputChunk::Raw(span(0, 2))]).is_some());
    let overlapping = vec![TemplateInputChunk::Raw(span(0, 2)), TemplateInputChunk::Raw(span(1, 2))];
    assert!(Template::new("ab".to_string(), overlapping).is_none());
}

#[test]
fn single_key_with_empty_override_renders_empty() {
    let mut ctx = context();
    ctx.overrides = vec![("name".to_string(), String::new())];
    assert_eq!(field_key("name").render(&ctx).unwrap(), "");
}

#[test]
fn override_matches_key_text_with_prefix() {
    let mut ctx = context();
    ctx.overrides = vec![("chains.token".to_string(), "xyz".to_string())];
    assert_eq!(chain_key("token").render(&ctx).unwrap(), "xyz");
    let chunks = chain_key("token").render_chunks(&ctx);
    assert!(matches!(&chunks[0], TemplateChunk::Rendered { value, sensitive: false } if value == "xyz"));
}

#[test]
fn overrides_make_the_rest_of_the_context_irrelevant() {
    let t = Template::new(
        "a {{x}} {{env.Y}}".to_string(),
        vec![
            TemplateInputChunk::Raw(span(0, 2)),
            TemplateInputChunk::Key(TemplateKey::Field(span(4, 5))),
            TemplateInputChunk::Raw(span(7, 8)),
            TemplateInputChunk::Key(TemplateKey::Environment(span(14, 15))),
        ],
    )
    .unwrap();
    let mut a = context();
    a.overrides = vec![("x".to_string(), "1".to_string()), ("env.Y".to_string(), "2".to_string())];
    let mut b = with_profile(vec![("x", Template::raw("other".to_string()))]);
    b.overrides = a.overrides.clone();
    b.env = vec![("Y".to_string(), Some("env value".to_string()))];
    assert_eq!(t.render(&a).unwrap(), "a 1 2");
    assert_eq!(t.render(&b).unwrap(), "a 1 2");
}

#[test]
fn field_renders_recursively() {
    let ctx = with_profile(vec![
        ("name", field_key("greeting")),
        ("greeting", Template::raw("Hi".to_string())),
    ]);
    let t = field_key("name");
    assert_eq!(t.render(&ctx).unwrap(), "Hi");
    let mut count: u64 = 0;
    assert_eq!(t.render_stitched(&ctx, &mut count).unwrap(), "Hi");
    assert_eq!(count, 2);
}

#[test]
fn hello_world() {
    let ctx = with_profile(vec![("name", Template::raw("World".to_string()))]);
    let t = Template::new(
        "Hello {{name}}".to_string(),
        vec![
            TemplateInputChunk::Raw(span(0, 6)),
            TemplateInputChunk::Key(TemplateKey::Field(span(8, 12))),
        ],
    )
    .unwrap();
    assert_eq!(t.render(&ctx).unwrap(), "Hello World");
}

#[test]
fn no_selected_profile_fails() {
    let mut ctx = with_profile(vec![]);
    ctx.selected_profile = None;
    assert!(matches!(field_key("user").render(&ctx), Err(TemplateError::NoProfileSelected)));
}

#[test]
fn unknown_profile_and_field_fail() {
    let mut ctx = with_profile(vec![]);
    assert!(matches!(
        field_key("user").render(&ctx),
        Err(TemplateError::FieldUnknown { field }) if field == "user"
    ));
    ctx.selected_profile = Some("staging".to_string());
    assert!(matches!(
        field_key("user").render(&ctx),
        Err(TemplateError::ProfileUnknown { profile_id }) if profile_id == "staging"
    ));
}

#[test]
fn nested_error_carries_inner_template() {
    let ctx = with_profile(vec![("a", field_key("missing"))]);
    match field_key("a").render(&ctx) {
        Err(TemplateError::Nested { template, error }) => {
            assert_eq!(template, "{{missing}}");
            assert!(matches!(*error, TemplateError::FieldUnknown { field } if field == "missing"));
        }
        other => panic!("unexpected {:?}", other),
    }
}

#[test]
fn self_reference_stops_at_recursion_limit() {
    let ctx = with_profile(vec![("loop", field_key("loop"))]);
    let mut error = field_key("loop").render(&ctx).unwrap_err();
    let mut depth = 0;
    while let TemplateError::Nested { error: inner, .. } = error {
        error = *inner;
        depth += 1;
    }
    assert!(matches!(error, TemplateError::RecursionLimit));
    assert_eq!(depth, RECURSION_LIMIT as usize);
}

#[test]
fn field_at_limit_still_raises_counter() {
    let ctx = with_profile(vec![("a", Template::raw("A".to_string()))]);
    let t = Template::new(
        "{{a}}{{a}}".to_string(),
        vec![
            TemplateInputChunk::Key(TemplateKey::Field(span(2, 3))),
            TemplateInputChunk::Key(TemplateKey::Field(span(7, 8))),
        ],
    )
    .unwrap();
    let mut count: u64 = 0;
    assert_eq!(t.render_stitched(&ctx, &mut count).unwrap(), "AA");
    assert_eq!(count, 2);
    let chunks = t.render_chunks(&ctx);
    assert!(matches!(&chunks[1], TemplateChunk::Rendered { value, .. } if value == "A"));
}

#[test]
fn counter_at_limit_fails_before_rendering() {
    let mut count = RECURSION_LIMIT;
    let r = Template::raw("x".to_string()).render_stitched(&context(), &mut count);
    assert!(matches!(r, Err(TemplateError::RecursionLimit)));
    assert_eq!(count, RECURSION_LIMIT);
}

#[test]
fn render_chunks_keeps_count_and_order() {
    let mut ctx = with_profile(vec![("b", Template::raw("B".to_string()))]);
    ctx.env = vec![("E".to_string(), Some("e".to_string()))];
    let t = Template::new(
        "{{b}}-{{env.E}}{{c}}".to_string(),
        vec![
            TemplateInputChunk::Key(TemplateKey::Field(span(2, 3))),
            TemplateInputChunk::Raw(span(5, 6)),
            TemplateInputChunk::Key(TemplateKey::Environment(span(12, 13))),
            TemplateInputChunk::Key(TemplateKey::Field(span(17, 18))),
        ],
    )
    .unwrap();
    let chunks = t.render_chunks(&ctx);
    assert_eq!(chunks.len(), 4);
    assert!(matches!(&chunks[0], TemplateChunk::Rendered { value, .. } if value == "B"));
    assert!(matches!(&chunks[1], TemplateChunk::Raw(s) if *s == span(5, 6)));
    assert!(matches!(&chunks[2], TemplateChunk::Rendered { value, .. } if value == "e"));
    assert!(matches!(&chunks[3], TemplateChunk::Error(TemplateError::FieldUnknown { .. })));
    assert!(matches!(t.render(&ctx), Err(TemplateError::FieldUnknown { field }) if field == "c"));
}

#[test]
fn rendering_twice_gives_equal_strings() {
    let mut ctx = with_profile(vec![("name", Template::raw("World".to_string()))]);
    ctx.env = vec![("HOME".to_string(), Some("/root".to_string()))];
    let t = field_key("name");
    assert_eq!(t.render(&ctx).unwrap(), t.render(&ctx).unwrap());
}

#[test]
fn environment_variable() {
    let t = Template::new(
        "{{env.HOME}}".to_string(),
        vec![TemplateInputChunk::Key(TemplateKey::Environment(span(6, 10)))],
    )
    .unwrap();
    let mut ctx = context();
    ctx.env = vec![("HOME".to_string(), Some("/root".to_string()))];
    assert_eq!(t.render(&ctx).unwrap(), "/root");
    ctx.env = vec![];
    assert!(matches!(
        t.render(&ctx),
        Err(TemplateError::EnvironmentVariable { variable, error: EnvVarError::NotPresent })
            if variable == "HOME"
    ));
    ctx.env = vec![("HOME".to_string(), None)];
    assert!(matches!(
        t.render(&ctx),
        Err(TemplateError::EnvironmentVariable { variable, error: EnvVarError::NotUnicode })
            if variable == "HOME"
    ));
}

#[test]
fn file_chain_renders_contents() {
    let mut ctx = context();
    let mut c = chain("token", ChainSource::File { path: "token.txt".to_string() });
    c.sensitive = true;
    ctx.collection.chains = vec![c];
    ctx.chain_inputs =
        vec![input("token", ChainData::Output { result: Ok(b"abc\n".to_vec()) })];
    let chunks = chain_key("token").render_chunks(&ctx);
    assert!(matches!(
        &chunks[0],
        TemplateChunk::Rendered { value, sensitive: true } if value == "abc\n"
    ));
    assert_eq!(chain_key("token").render(&ctx).unwrap(), "abc\n");
}

#[test]
fn file_chain_failure_names_path() {
    let mut ctx = context();
    ctx.collection.chains = vec![chain("f", ChainSource::File { path: "x.txt".to_string() })];
    ctx.chain_inputs = vec![input("f", ChainData::Output { result: Err("not found".to_string()) })];
    let (id, e) = chain_error(chain_key("f").render(&ctx));
    assert_eq!(id, "f");
    assert_eq!(e, ChainError::File { path: "x.txt".to_string(), cause: "not found".to_string() });
}

#[test]
fn request_chain_without_engine_is_not_allowed() {
    let mut ctx = context();
    ctx.collection.recipes = vec!["r".to_string()];
    ctx.collection.chains = vec![chain(
        "ip",
        ChainSource::Request { recipe: "r".to_string(), trigger: ChainRequestTrigger::Always },
    )];
    ctx.chain_inputs = vec![input(
        "ip",
        ChainData::Request {
            history: Ok(None),
            fresh: Err(TriggeredRequestError::Send { cause: "unused".to_string() }),
        },
    )];
    let (id, e) = chain_error(chain_key("ip").render(&ctx));
    assert_eq!(id, "ip");
    assert_eq!(
        e,
        ChainError::Trigger { recipe_id: "r".to_string(), error: TriggeredRequestError::NotAllowed }
    );
}

fn request_context(trigger: ChainRequestTrigger, history: Option<RequestRecord>) -> TemplateContext {
    let mut ctx = context();
    ctx.http_engine = true;
    ctx.now = 1_000;
    ctx.collection.recipes = vec!["r".to_string()];
    ctx.collection.chains =
        vec![chain("c", ChainSource::Request { recipe: "r".to_string(), trigger })];
    ctx.chain_inputs = vec![input(
        "c",
        ChainData::Request {
            history: Ok(history),
            fresh: Ok(Response { body: b"fresh".to_vec(), content_type: None }),
        },
    )];
    ctx
}

fn record(end_time: i64) -> RequestRecord {
    RequestRecord { end_time, response: Response { body: b"old".to_vec(), content_type: None } }
}

#[test]
fn build_failure_wins_over_missing_engine() {
    let mut ctx = request_context(ChainRequestTrigger::Always, None);
    ctx.http_engine = false;
    ctx.chain_inputs[0].data = ChainData::Request {
        history: Ok(None),
        fresh: Err(TriggeredRequestError::Build { cause: "bad url".to_string() }),
    };
    assert_eq!(
        chain_error(chain_key("c").render(&ctx)).1,
        ChainError::Trigger {
            recipe_id: "r".to_string(),
            error: TriggeredRequestError::Build { cause: "bad url".to_string() }
        }
    );
    ctx.chain_inputs[0].data = ChainData::Request {
        history: Ok(None),
        fresh: Ok(Response { body: b"x".to_vec(), content_type: None }),
    };
    assert_eq!(
        chain_error(chain_key("c").render(&ctx)).1,
        ChainError::Trigger { recipe_id: "r".to_string(), error: TriggeredRequestError::NotAllowed }
    );
    ctx.http_engine = true;
    ctx.chain_inputs[0].data = ChainData::Request {
        history: Ok(None),
        fresh: Err(TriggeredRequestError::Send { cause: "timeout".to_string() }),
    };
    assert_eq!(
        chain_error(chain_key("c").render(&ctx)).1,
        ChainError::Trigger {
            recipe_id: "r".to_string(),
            error: TriggeredRequestError::Send { cause: "timeout".to_string() }
        }
    );
}

#[test]
fn chains_read_follows_fields_and_skips_overrides() {
    let mut ctx = with_profile(vec![("a", chain_key("inner"))]);
    let t = Template::new(
        "{{chains.x}}{{a}}{{chains.y}}".to_string(),
        vec![
            TemplateInputChunk::Key(TemplateKey::Chain(span(9, 10))),
            TemplateInputChunk::Key(TemplateKey::Field(span(14, 15))),
            TemplateInputChunk::Key(TemplateKey::Chain(span(26, 27))),
        ],
    )
    .unwrap();
    assert_eq!(t.chains_read(&ctx), vec!["x".to_string(), "inner".to_string(), "y".to_string()]);
    ctx.overrides = vec![("a".to_string(), "v".to_string()), ("chains.y".to_string(), "w".to_string())];
    assert_eq!(t.chains_read(&ctx), vec!["x".to_string()]);
    ctx.overrides.push(("chains.x".to_string(), "z".to_string()));
    assert!(t.chains_read(&ctx).is_empty());
}

#[test]
fn trigger_table() {
    let t = chain_key("c");
    let r = |trigger, history| t.render(&request_context(trigger, history));
    assert_eq!(r(ChainRequestTrigger::Never, Some(record(0))).unwrap(), "old");
    assert_eq!(
        chain_error(r(ChainRequestTrigger::Never, None)).1,
        ChainError::NoResponse
    );
    assert_eq!(r(ChainRequestTrigger::NoHistory, Some(record(0))).unwrap(), "old");
    assert_eq!(r(ChainRequestTrigger::NoHistory, None).unwrap(), "fresh");
    assert_eq!(r(ChainRequestTrigger::Expire(500), Some(record(500))).unwrap(), "old");
    assert_eq!(r(ChainRequestTrigger::Expire(499), Some(record(500))).unwrap(), "fresh");
    assert_eq!(r(ChainRequestTrigger::Expire(500), None).unwrap(), "fresh");
    assert_eq!(r(ChainRequestTrigger::Always, Some(record(999))).unwrap(), "fresh");
}

#[test]
fn fresh_expire_and_never_agree() {
    let t = chain_key("c");
    let a = t.render(&request_context(ChainRequestTrigger::Expire(600), Some(record(500)))).unwrap();
    let b = t.render(&request_context(ChainRequestTrigger::Never, Some(record(500)))).unwrap();
    assert_eq!(a, b);
    assert_eq!(decide_trigger(ChainRequestTrigger::Expire(600), Some(500), 1_000), TriggerDecision::Reuse);
    assert_eq!(decide_trigger(ChainRequestTrigger::Never, Some(500), 1_000), TriggerDecision::Reuse);
}

#[test]
fn decide_trigger_extremes_do_not_overflow() {
    assert_eq!(
        decide_trigger(ChainRequestTrigger::Expire(i64::MAX), Some(i64::MAX), i64::MIN),
        TriggerDecision::Reuse
    );
    assert_eq!(
        decide_trigger(ChainRequestTrigger::Expire(i64::MIN), Some(i64::MIN), i64::MAX),
        TriggerDecision::Send
    );
}

#[test]
fn database_failure_and_unknown_recipe() {
    let mut ctx = request_context(ChainRequestTrigger::Never, None);
    ctx.chain_inputs[0].data = ChainData::Request {
        history: Err("locked".to_string()),
        fresh: Ok(Response { body: vec![], content_type: None }),
    };
    assert_eq!(
        chain_error(chain_key("c").render(&ctx)).1,
        ChainError::Database { cause: "locked".to_string() }
    );
    ctx.collection.recipes = vec![];
    assert_eq!(
        chain_error(chain_key("c").render(&ctx)).1,
        ChainError::RecipeUnknown { recipe_id: "r".to_string() }
    );
}

#[test]
fn always_trigger_ignores_broken_history() {
    let mut ctx = request_context(ChainRequestTrigger::Always, None);
    ctx.chain_inputs[0].data = ChainData::Request {
        history: Err("locked".to_string()),
        fresh: Ok(Response { body: b"ok".to_vec(), content_type: None }),
    };
    assert_eq!(chain_key("c").render(&ctx).unwrap(), "ok");
}

#[test]
fn send_failure_is_attributed_to_recipe() {
    let history: Result<Option<RequestRecord>, String> = Ok(None);
    let fresh: Result<Response, TriggeredRequestError> =
        Err(TriggeredRequestError::Build { cause: "bad url".to_string() });
    let r = resolve_response(&"r".to_string(), ChainRequestTrigger::NoHistory, &history, &fresh, true, 0);
    assert_eq!(
        r.unwrap_err(),
        ChainError::Trigger {
            recipe_id: "r".to_string(),
            error: TriggeredRequestError::Build { cause: "bad url".to_string() }
        }
    );
}

#[test]
fn unknown_chain_fails() {
    let (id, e) = chain_error(chain_key("nope").render(&context()));
    assert_eq!(id, "nope");
    assert_eq!(e, ChainError::ChainUnknown);
}

#[test]
fn chain_without_outside_data_has_no_response() {
    let mut ctx = context();
    ctx.collection.chains = vec![chain("f", ChainSource::File { path: "a".to_string() })];
    assert_eq!(chain_error(chain_key("f").render(&ctx)).1, ChainError::NoResponse);
}

#[test]
fn command_with_empty_argv_fails() {
    let mut ctx = context();
    ctx.collection.chains = vec![chain("cmd", ChainSource::Command { command: vec![] })];
    ctx.chain_inputs = vec![input("cmd", ChainData::Output { result: Ok(b"x".to_vec()) })];
    assert_eq!(chain_error(chain_key("cmd").render(&ctx)).1, ChainError::CommandMissing);
}

#[test]
fn command_output_and_failure() {
    let mut ctx = context();
    let argv = vec!["echo".to_string(), "hi".to_string()];
    ctx.collection.chains = vec![chain("cmd", ChainSource::Command { command: argv.clone() })];
    ctx.chain_inputs = vec![input("cmd", ChainData::Output { result: Ok(b"hi\n".to_vec()) })];
    assert_eq!(chain_key("cmd").render(&ctx).unwrap(), "hi\n");
    ctx.chain_inputs = vec![input("cmd", ChainData::Output { result: Err("no such file".to_string()) })];
    assert_eq!(
        chain_error(chain_key("cmd").render(&ctx)).1,
        ChainError::Command { command: argv, cause: "no such file".to_string() }
    );
}

#[test]
fn prompt_dropped_without_reply_fails() {
    let mut ctx = context();
    ctx.collection.chains = vec![chain("pw", ChainSource::Prompt { message: None })];
    ctx.chain_inputs = vec![input("pw", ChainData::Reply { reply: None })];
    assert_eq!(chain_error(chain_key("pw").render(&ctx)).1, ChainError::PromptNoResponse);
    ctx.chain_inputs = vec![input("pw", ChainData::Reply { reply: Some("hunter2".to_string()) })];
    assert_eq!(chain_key("pw").render(&ctx).unwrap(), "hunter2");
}

#[test]
fn prompt_label_defaults_to_chain_id() {
    assert_eq!(prompt_label(&"pw".to_string(), &None), "pw");
    assert_eq!(prompt_label(&"pw".to_string(), &Some("Password".to_string())), "Password");
}

#[test]
fn invalid_utf8_fails() {
    let mut ctx = context();
    ctx.collection.chains = vec![chain("f", ChainSource::File { path: "b.bin".to_string() })];
    ctx.chain_inputs = vec![input("f", ChainData::Output { result: Ok(vec![0x66, 0xff]) })];
    match chain_error(chain_key("f").render(&ctx)).1 {
        ChainError::InvalidUtf8 { cause } => assert!(!cause.is_empty()),
        other => panic!("unexpected {:?}", other),
    }
    ctx.chain_inputs = vec![input("f", ChainData::Output { result: Ok("é".as_bytes().to_vec()) })];
    assert_eq!(chain_key("f").render(&ctx).unwrap(), "é");
}

#[test]
fn selector_needs_content_type() {
    let mut ctx = context();
    let mut c = chain("f", ChainSource::File { path: "data.txt".to_string() });
    c.selector = Some("$.a".to_string());
    ctx.collection.chains = vec![c];
    ctx.chain_inputs = vec![ChainInput {
        chain_id: "f".to_string(),
        data: ChainData::Output { result: Ok(b"{\"a\": 1}".to_vec()) },
        selected: Ok("1".to_string()),
    }];
    assert_eq!(chain_error(chain_key("f").render(&ctx)).1, ChainError::UnknownContentType);
    ctx.collection.chains[0].content_type = Some(ContentType::Json);
    assert_eq!(chain_key("f").render(&ctx).unwrap(), "1");
    ctx.chain_inputs[0].selected = Err(SelectFailure::Parse { cause: "expected value".to_string() });
    assert_eq!(
        chain_error(chain_key("f").render(&ctx)).1,
        ChainError::ParseResponse { cause: "expected value".to_string() }
    );
    ctx.chain_inputs[0].selected = Err(SelectFailure::Query { cause: "no match".to_string() });
    assert_eq!(
        chain_error(chain_key("f").render(&ctx)).1,
        ChainError::Selector { cause: "no match".to_string() }
    );
}

#[test]
fn selector_uses_detected_content_type() {
    let mut ctx = context();
    let mut c = chain("f", ChainSource::File { path: "dir/data.json".to_string() });
    c.selector = Some("$.a".to_string());
    ctx.collection.chains = vec![c];
    ctx.chain_inputs = vec![ChainInput {
        chain_id: "f".to_string(),
        data: ChainData::Output { result: Ok(b"{\"a\": 1}".to_vec()) },
        selected: Ok("1".to_string()),
    }];
    assert_eq!(chain_key("f").render(&ctx).unwrap(), "1");
}

#[test]
fn extension_content_types() {
    assert_eq!(content_type_from_extension(&"a.json".to_string()), Some(ContentType::Json));
    assert_eq!(content_type_from_extension(&"x/y/a.json".to_string()), Some(ContentType::Json));
    assert_eq!(content_type_from_extension(&".json".to_string()), None);
    assert_eq!(content_type_from_extension(&"x/.json".to_string()), None);
    assert_eq!(content_type_from_extension(&"a.txt".to_string()), None);
}

#[test]
fn render_opt_passes_none_through() {
    assert_eq!(Template::render_opt(&None, &context()).unwrap(), None);
    let t = Some(Template::raw("x".to_string()));
    assert_eq!(Template::render_opt(&t, &context()).unwrap(), Some("x".to_string()));
}

#[test]
fn into_source_takes_identifier() {
    let t = chain_key("tok");
    let k = match t.chunks[0] {
        TemplateInputChunk::Key(k) => k,
        _ => unreachable!(),
    };
    assert_eq!(k.into_source(&t), TemplateSource::Chain { chain_id: "tok".to_string() });
    assert_eq!(t.key_text_of(k), "chains.tok");
}

#[test]
fn needs_send_follows_trigger_table() {
    let none: Result<Option<RequestRecord>, String> = Ok(None);
    let young: Result<Option<RequestRecord>, String> = Ok(Some(record(900)));
    let broken: Result<Option<RequestRecord>, String> = Err("locked".to_string());
    assert!(needs_send(ChainRequestTrigger::Always, &broken, 1_000));
    assert!(!needs_send(ChainRequestTrigger::Never, &none, 1_000));
    assert!(needs_send(ChainRequestTrigger::NoHistory, &none, 1_000));
    assert!(!needs_send(ChainRequestTrigger::Expire(100), &young, 1_000));
    assert!(needs_send(ChainRequestTrigger::Expire(99), &young, 1_000));
    assert!(!needs_send(ChainRequestTrigger::NoHistory, &broken, 1_000));
}
