use agent_pipeline::error::{ErrorKind, RunError, Stage};
use agent_pipeline::pipeline::{run_agent_item, Agent, ItemRun, Reply, Request};
use agent_pipeline::value::Value;

fn text(s: &str) -> Value {
    Value::Text(s.to_string())
}

fn object(members: Vec<(&str, Value)>) -> Value {
    Value::Object(members.into_iter().map(|(k, v)| (k.to_string(), v)).collect())
}

fn member<'a>(value: &'a Value, key: &str) -> Option<&'a Value> {
    match value {
        Value::Object(members) => members.iter().find(|(k, _)| k == key).map(|(_, v)| v),
        _ => None,
    }
}

fn agent(pre: Option<&str>, inst: &str, post: Option<&str>) -> Agent {
    Agent {
        file_path: "agents/sample.md".to_string(),
        model: "test-model".to_string(),
        data_script: pre.map(|s| s.to_string()),
        inst: inst.to_string(),
        output_script: post.map(|s| s.to_string()),
    }
}

/// Writes a value as the renderer of these tests prints it.
fn show(value: &Value) -> String {
    match value {
        Value::Null => "null".to_string(),
        Value::Bool(b) => format!("{b}"),
        Value::Number(n) => n.clone(),
        Value::Text(t) => t.clone(),
        Value::Array(_) => "[..]".to_string(),
        Value::Object(_) => "{..}".to_string(),
    }
}

/// The stub renderer: replaces `{{data}}` by the value of `data` in the scope.
fn render(template: &str, scope: &Value) -> Result<String, String> {
    match member(scope, "data") {
        Some(data) => Ok(template.replace("{{data}}", &show(data))),
        None => Err("missing variable: data".to_string()),
    }
}

/// Records every request that a run makes, in order.
struct Log {
    requests: Vec<&'static str>,
}

fn drive(
    agent: &Agent,
    item: Value,
    evaluate: &mut dyn FnMut(&str, Value) -> Result<Value, String>,
    infer: &mut dyn FnMut(&str, &str) -> Result<Option<String>, String>,
    log: &mut Log,
) -> (ItemRun, Result<Value, RunError>) {
    let (mut run, mut request) = run_agent_item(agent, ItemRun::Pending { item }, Reply::Start);
    loop {
        let reply = match request {
            Request::Evaluate { script, scope } => {
                log.requests.push("evaluate");
                Reply::Evaluated(evaluate(&script, scope))
            }
            Request::Render { template, scope } => {
                log.requests.push("render");
                Reply::Rendered(render(&template, &scope))
            }
            Request::Infer { model, directive } => {
                log.requests.push("infer");
                Reply::Inferred(infer(&model, &directive))
            }
            Request::Finish(result) => return (run, result),
        };
        let out = run_agent_item(agent, run, reply);
        run = out.0;
        request = out.1;
    }
}

fn echo(_model: &str, directive: &str) -> Result<Option<String>, String> {
    Ok(Some(directive.to_string()))
}

fn no_script(_script: &str, _scope: Value) -> Result<Value, String> {
    panic!("no script is to be evaluated")
}

#[test]
fn echo_agent_without_scripts_renders_null_data() {
    let agent = agent(None, "echo {{data}}", None);
    let item = object(vec![("item", object(vec![("name", text("x"))]))]);
    let mut log = Log { requests: vec![] };
    let (run, result) = drive(&agent, item, &mut no_script, &mut echo, &mut log);
    assert_eq!(result, Ok(text("echo null")));
    assert_eq!(run, ItemRun::Succeeded);
    assert_eq!(log.requests, vec!["render", "infer"]);
}

#[test]
fn post_script_sees_item_and_inference_text() {
    let agent = agent(None, "summarise", Some("#{ai_output: ai_output, name: item.name}"));
    let item = object(vec![("name", text("report.txt"))]);
    let mut post = |script: &str, scope: Value| -> Result<Value, String> {
        assert_eq!(script, "#{ai_output: ai_output, name: item.name}");
        let ai_output = member(&scope, "ai_output").unwrap().clone();
        let name = member(member(&scope, "item").unwrap(), "name").unwrap().clone();
        Ok(object(vec![("ai_output", ai_output), ("name", name)]))
    };
    let mut done = |_: &str, _: &str| -> Result<Option<String>, String> { Ok(Some("DONE".to_string())) };
    let mut log = Log { requests: vec![] };
    let (run, result) = drive(&agent, item, &mut post, &mut done, &mut log);
    assert_eq!(
        result,
        Ok(object(vec![("ai_output", text("DONE")), ("name", text("report.txt"))]))
    );
    assert_eq!(run, ItemRun::Succeeded);
    assert_eq!(log.requests, vec!["render", "infer", "evaluate"]);
}

#[test]
fn first_request_of_a_run_with_pre_script_has_only_the_item() {
    let agent = agent(Some("pre"), "t", None);
    let item = object(vec![("name", text("a"))]);
    let (run, request) = run_agent_item(&agent, ItemRun::Pending { item: item.clone() }, Reply::Start);
    assert_eq!(run, ItemRun::Pre { item: item.clone() });
    assert_eq!(
        request,
        Request::Evaluate { script: "pre".to_string(), scope: object(vec![("item", item)]) }
    );
}

#[test]
fn render_scope_has_only_the_data() {
    let agent = agent(Some("pre"), "tmpl {{data}}", None);
    let item = text("it");
    let (run, request) = run_agent_item(
        &agent,
        ItemRun::Pre { item: item.clone() },
        Reply::Evaluated(Ok(Value::Number("42".to_string()))),
    );
    assert_eq!(run, ItemRun::Render { item, data: Value::Number("42".to_string()) });
    assert_eq!(
        request,
        Request::Render {
            template: "tmpl {{data}}".to_string(),
            scope: object(vec![("data", Value::Number("42".to_string()))]),
        }
    );
}

#[test]
fn inference_request_carries_model_and_directive() {
    let agent = agent(None, "t", None);
    let (run, request) = run_agent_item(
        &agent,
        ItemRun::Render { item: Value::Null, data: Value::Bool(true) },
        Reply::Rendered(Ok("do it".to_string())),
    );
    assert_eq!(run, ItemRun::Infer { item: Value::Null, data: Value::Bool(true) });
    assert_eq!(
        request,
        Request::Infer { model: "test-model".to_string(), directive: "do it".to_string() }
    );
}

#[test]
fn post_scope_has_item_data_and_text_in_order() {
    let agent = agent(Some("pre"), "t", Some("post"));
    let item = object(vec![("k", Value::Array(vec![Value::Null, Value::Bool(false)]))]);
    let (run, request) = run_agent_item(
        &agent,
        ItemRun::Infer { item: item.clone(), data: text("d") },
        Reply::Inferred(Ok(Some("answer".to_string()))),
    );
    assert_eq!(run, ItemRun::Post);
    assert_eq!(
        request,
        Request::Evaluate {
            script: "post".to_string(),
            scope: object(vec![("item", item), ("data", text("d")), ("ai_output", text("answer"))]),
        }
    );
}

#[test]
fn response_without_text_counts_as_empty_text() {
    let agent = agent(None, "t", None);
    let (run, request) = run_agent_item(
        &agent,
        ItemRun::Infer { item: Value::Null, data: Value::Null },
        Reply::Inferred(Ok(None)),
    );
    assert_eq!(run, ItemRun::Succeeded);
    assert_eq!(request, Request::Finish(Ok(text(""))));
}

#[test]
fn pre_script_failure_is_tagged_pre() {
    let agent = agent(Some("pre"), "t", Some("post"));
    let mut failing = |_: &str, _: Value| -> Result<Value, String> { Err("boom".to_string()) };
    let mut log = Log { requests: vec![] };
    let (run, result) = drive(&agent, Value::Null, &mut failing, &mut echo, &mut log);
    let error = result.unwrap_err();
    assert_eq!(error, RunError { kind: ErrorKind::ScriptEval(Stage::Pre), cause: "boom".to_string() });
    assert_eq!(error.stage(), Some(Stage::Pre));
    assert_eq!(run, ItemRun::Failed(error));
    assert_eq!(log.requests, vec!["evaluate"]);
}

#[test]
fn post_script_failure_is_tagged_post() {
    let agent = agent(None, "t", Some("post"));
    let mut failing = |_: &str, _: Value| -> Result<Value, String> { Err("late".to_string()) };
    let mut log = Log { requests: vec![] };
    let (run, result) = drive(&agent, Value::Null, &mut failing, &mut echo, &mut log);
    assert_eq!(
        result,
        Err(RunError { kind: ErrorKind::ScriptEval(Stage::Post), cause: "late".to_string() })
    );
    assert_eq!(
        run,
        ItemRun::Failed(RunError { kind: ErrorKind::ScriptEval(Stage::Post), cause: "late".to_string() })
    );
    assert_eq!(log.requests, vec!["render", "infer", "evaluate"]);
}

#[test]
fn template_failure_ends_the_run_before_inference() {
    let agent = agent(None, "t", None);
    let (run, request) = run_agent_item(
        &agent,
        ItemRun::Render { item: Value::Null, data: Value::Null },
        Reply::Rendered(Err("bad template".to_string())),
    );
    let expected = RunError { kind: ErrorKind::Template, cause: "bad template".to_string() };
    assert_eq!(run, ItemRun::Failed(expected.clone()));
    assert_eq!(expected.stage(), Some(Stage::Render));
    assert_eq!(request, Request::Finish(Err(expected)));
}

#[test]
fn inference_failure_ends_the_run_before_post_script() {
    let agent = agent(None, "t", Some("post"));
    let mut down = |_: &str, _: &str| -> Result<Option<String>, String> { Err("offline".to_string()) };
    let mut log = Log { requests: vec![] };
    let (run, result) = drive(&agent, Value::Null, &mut no_script, &mut down, &mut log);
    let error = result.unwrap_err();
    assert_eq!(error, RunError { kind: ErrorKind::Inference, cause: "offline".to_string() });
    assert_eq!(error.stage(), Some(Stage::Infer));
    assert_eq!(run, ItemRun::Failed(error));
    assert_eq!(log.requests, vec!["render", "infer"]);
}

#[test]
fn reply_for_another_stage_is_an_execution_fault() {
    let agent = agent(None, "t", None);
    let (run, request) = run_agent_item(
        &agent,
        ItemRun::Render { item: Value::Null, data: Value::Null },
        Reply::Inferred(Ok(None)),
    );
    assert!(matches!(run, ItemRun::Failed(_)));
    match request {
        Request::Finish(Err(error)) => {
            assert_eq!(error.kind, ErrorKind::ExecutionFault);
            assert_eq!(error.cause, "the reply does not answer the request that the run made");
            assert_eq!(error.stage(), None);
        }
        other => panic!("unexpected request: {other:?}"),
    }
    let (run, request) = run_agent_item(&agent, ItemRun::Succeeded, Reply::Start);
    assert!(matches!(run, ItemRun::Failed(_)));
    assert!(matches!(request, Request::Finish(Err(_))));
}

#[test]
fn same_item_and_agent_give_the_same_result_again() {
    let agent = agent(Some("pre"), "say {{data}}", Some("post"));
    let item = object(vec![("name", text("n")), ("size", Value::Number("3".to_string()))]);
    let mut script = |script: &str, scope: Value| -> Result<Value, String> {
        if script == "pre" {
            Ok(member(member(&scope, "item").unwrap(), "name").unwrap().clone())
        } else {
            Ok(Value::Array(vec![scope, text(script)]))
        }
    };
    let mut log = Log { requests: vec![] };
    let first = drive(&agent, item.clone(), &mut script, &mut echo, &mut log);
    let second = drive(&agent, item.clone(), &mut script, &mut echo, &mut log);
    assert_eq!(first, second);
    let scope = object(vec![("item", item), ("data", text("n")), ("ai_output", text("say n"))]);
    assert_eq!(first.1, Ok(Value::Array(vec![scope, text("post")])));
    assert_eq!(log.requests.len(), 8);
}

#[test]
fn changing_a_scope_handed_out_changes_no_run() {
    let agent = agent(Some("pre"), "t", Some("post"));
    let item_a = object(vec![("name", text("a"))]);
    let item_b = object(vec![("name", text("b"))]);
    let (run_a, request_a) = run_agent_item(&agent, ItemRun::Pending { item: item_a.clone() }, Reply::Start);
    let (run_b, request_b) = run_agent_item(&agent, ItemRun::Pending { item: item_b.clone() }, Reply::Start);
    // The script of run A overwrites everything it was given.
    let mut scope_a = match request_a {
        Request::Evaluate { scope, .. } => scope,
        other => panic!("unexpected request: {other:?}"),
    };
    if let Value::Object(members) = &mut scope_a {
        members[0].1 = text("overwritten");
        members.push(("extra".to_string(), Value::Null));
    }
    assert_eq!(request_b, Request::Evaluate { script: "pre".to_string(), scope: object(vec![("item", item_b.clone())]) });
    assert_eq!(run_a, ItemRun::Pre { item: item_a.clone() });
    assert_eq!(run_b, ItemRun::Pre { item: item_b });
    // Run A goes on with its own item untouched.
    let (run_a, _) = run_agent_item(&agent, run_a, Reply::Evaluated(Ok(scope_a)));
    let (run_a, _) = run_agent_item(&agent, run_a, Reply::Rendered(Ok("go".to_string())));
    let (_, request) = run_agent_item(&agent, run_a, Reply::Inferred(Ok(Some("out".to_string()))));
    match request {
        Request::Evaluate { scope, .. } => assert_eq!(member(&scope, "item"), Some(&item_a)),
        other => panic!("unexpected request: {other:?}"),
    }
}

#[test]
fn deep_copy_of_a_value_is_equal_and_independent() {
    let first = object(vec![
        ("list", Value::Array(vec![Value::Null, Value::Bool(true), Value::Number("1.5".to_string())])),
        ("inner", object(vec![("t", text("x"))])),
    ]);
    let mut copy = first.clone();
    assert_eq!(copy, first);
    if let Value::Object(members) = &mut copy {
        members.pop();
    }
    assert_ne!(copy, first);
    assert_eq!(text("x").as_text(), Some(&"x".to_string()));
    assert_eq!(Value::Null.as_text(), None);
}
