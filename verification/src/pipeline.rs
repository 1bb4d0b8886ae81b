//! The four stages of one run, as a step function.
//!
//! A run never calls the script evaluator, the template renderer or the
//! inference client itself. It hands out a [`Request`], the caller has the
//! work done and comes back with the [`Reply`].

use crate::error::{ErrorKind, Failure, RunError, Stage};
use crate::value::{Tree, Value};
use vstd::prelude::*;
use vstd::string::*;

verus! {

/// The read-only bundle that drives a run.
#[derive(Debug, PartialEq, Eq)]
pub struct Agent {
    /// Where the agent was loaded from; used for reporting only.
    pub file_path: String,
    /// The identifier of the inference model.
    pub model: String,
    /// The pre-process script, if any.
    pub data_script: Option<String>,
    /// The instruction template.
    pub inst: String,
    /// The post-process script, if any.
    pub output_script: Option<String>,
}

/// What a run reads of its agent.
pub struct AgentView {
    pub model: Seq<char>,
    pub pre: Option<Seq<char>>,
    pub template: Seq<char>,
    pub post: Option<Seq<char>>,
}

pub open spec fn text_of(s: Option<String>) -> Option<Seq<char>> {
    match s {
        Some(t) => Some(t@),
        None => None,
    }
}

impl View for Agent {
    type V = AgentView;

    open spec fn view(&self) -> AgentView {
        AgentView {
            model: self.model@,
            pre: text_of(self.data_script),
            template: self.inst@,
            post: text_of(self.output_script),
        }
    }
}

/// Where a run stands.
#[derive(Debug, PartialEq, Eq)]
pub enum ItemRun {
    /// Not started yet.
    Pending { item: Value },
    /// Waiting for the pre-process script.
    Pre { item: Value },
    /// Waiting for the rendered instruction.
    Render { item: Value, data: Value },
    /// Waiting for the inference call.
    Infer { item: Value, data: Value },
    /// Waiting for the post-process script.
    Post,
    Succeeded,
    /// Ended in this failure, which says in which stage and why.
    Failed(RunError),
}

pub enum ItemRunView {
    Pending { item: Tree },
    Pre { item: Tree },
    Render { item: Tree, data: Tree },
    Infer { item: Tree, data: Tree },
    Post,
    Succeeded,
    Failed(Failure),
}

impl View for ItemRun {
    type V = ItemRunView;

    open spec fn view(&self) -> ItemRunView {
        match self {
            ItemRun::Pending { item } => ItemRunView::Pending { item: item@ },
            ItemRun::Pre { item } => ItemRunView::Pre { item: item@ },
            ItemRun::Render { item, data } => ItemRunView::Render { item: item@, data: data@ },
            ItemRun::Infer { item, data } => ItemRunView::Infer { item: item@, data: data@ },
            ItemRun::Post => ItemRunView::Post,
            ItemRun::Succeeded => ItemRunView::Succeeded,
            ItemRun::Failed(error) => ItemRunView::Failed(error@),
        }
    }
}

/// What a run asks its caller to do next.
#[derive(Debug, PartialEq, Eq)]
pub enum Request {
    /// Evaluate `script` against `scope`.
    Evaluate { script: String, scope: Value },
    /// Render `template` against `scope`.
    Render { template: String, scope: Value },
    /// Send `directive` to the model `model` as the only, system-level directive.
    Infer { model: String, directive: String },
    /// The run is over, with this result.
    Finish(Result<Value, RunError>),
}

pub enum RequestView {
    Evaluate { script: Seq<char>, scope: Tree },
    Render { template: Seq<char>, scope: Tree },
    Infer { model: Seq<char>, directive: Seq<char> },
    Finish(Result<Tree, Failure>),
}

impl View for Request {
    type V = RequestView;

    open spec fn view(&self) -> RequestView {
        match self {
            Request::Evaluate { script, scope } => RequestView::Evaluate {
                script: script@,
                scope: scope@,
            },
            Request::Render { template, scope } => RequestView::Render {
                template: template@,
                scope: scope@,
            },
            Request::Infer { model, directive } => RequestView::Infer {
                model: model@,
                directive: directive@,
            },
            Request::Finish(Ok(value)) => RequestView::Finish(Ok(value@)),
            Request::Finish(Err(error)) => RequestView::Finish(Err(error@)),
        }
    }
}

/// What the caller comes back with. An `Err` holds the description of the
/// collaborator's failure.
#[derive(Debug, PartialEq, Eq)]
pub enum Reply {
    /// Nothing yet: the run is to begin.
    Start,
    /// The value that a script returned.
    Evaluated(Result<Value, String>),
    /// The rendered instruction.
    Rendered(Result<String, String>),
    /// The text of the model's response, `None` where it carried no text.
    Inferred(Result<Option<String>, String>),
}

pub enum ReplyView {
    Start,
    Evaluated(Result<Tree, Seq<char>>),
    Rendered(Result<Seq<char>, Seq<char>>),
    Inferred(Result<Option<Seq<char>>, Seq<char>>),
}

impl View for Reply {
    type V = ReplyView;

    open spec fn view(&self) -> ReplyView {
        match self {
            Reply::Start => ReplyView::Start,
            Reply::Evaluated(Ok(value)) => ReplyView::Evaluated(Ok(value@)),
            Reply::Evaluated(Err(cause)) => ReplyView::Evaluated(Err(cause@)),
            Reply::Rendered(Ok(text)) => ReplyView::Rendered(Ok(text@)),
            Reply::Rendered(Err(cause)) => ReplyView::Rendered(Err(cause@)),
            Reply::Inferred(Ok(text)) => ReplyView::Inferred(Ok(text_of(*text))),
            Reply::Inferred(Err(cause)) => ReplyView::Inferred(Err(cause@)),
        }
    }
}

/// The scope of the pre-process script: `item` and nothing else.
pub open spec fn pre_scope(item: Tree) -> Tree {
    Tree::Object(seq![("item"@, item)])
}

/// The scope of the instruction template: `data` and nothing else.
pub open spec fn render_scope(data: Tree) -> Tree {
    Tree::Object(seq![("data"@, data)])
}

/// The scope of the post-process script: `item`, `data` and the text that the
/// model answered with.
pub open spec fn post_scope(item: Tree, data: Tree, text: Seq<char>) -> Tree {
    Tree::Object(seq![("item"@, item), ("data"@, data), ("ai_output"@, Tree::Text(text))])
}

/// The cause given where a reply does not answer the request that was made.
pub open spec fn unexpected_reply() -> Seq<char> {
    "the reply does not answer the request that the run made"@
}

pub open spec fn failed(kind: ErrorKind, cause: Seq<char>) -> (ItemRunView, RequestView) {
    (
        ItemRunView::Failed(Failure { kind, cause }),
        RequestView::Finish(Err(Failure { kind, cause })),
    )
}

/// The request for the rendered instruction, once `data` is known.
pub open spec fn ask_render(agent: AgentView, item: Tree, data: Tree) -> (
    ItemRunView,
    RequestView,
) {
    (
        ItemRunView::Render { item, data },
        RequestView::Render { template: agent.template, scope: render_scope(data) },
    )
}

/// What follows the inference call: the post-process script where the agent
/// has one, else the end of the run with the text as its result.
pub open spec fn after_inference(agent: AgentView, item: Tree, data: Tree, text: Seq<char>) -> (
    ItemRunView,
    RequestView,
) {
    match agent.post {
        Some(script) => (
            ItemRunView::Post,
            RequestView::Evaluate { script, scope: post_scope(item, data, text) },
        ),
        None => (ItemRunView::Succeeded, RequestView::Finish(Ok(Tree::Text(text)))),
    }
}

/// One step of a run: the state after `reply`, and the next request.
pub open spec fn step(agent: AgentView, run: ItemRunView, reply: ReplyView) -> (
    ItemRunView,
    RequestView,
) {
    match (run, reply) {
        (ItemRunView::Pending { item }, ReplyView::Start) => match agent.pre {
            Some(script) => (
                ItemRunView::Pre { item },
                RequestView::Evaluate { script, scope: pre_scope(item) },
            ),
            None => ask_render(agent, item, Tree::Null),
        },
        (ItemRunView::Pre { item }, ReplyView::Evaluated(Ok(data))) => ask_render(
            agent,
            item,
            data,
        ),
        (ItemRunView::Pre { item }, ReplyView::Evaluated(Err(cause))) => failed(
            ErrorKind::ScriptEval(Stage::Pre),
            cause,
        ),
        (ItemRunView::Render { item, data }, ReplyView::Rendered(Ok(directive))) => (
            ItemRunView::Infer { item, data },
            RequestView::Infer { model: agent.model, directive },
        ),
        (ItemRunView::Render { item, data }, ReplyView::Rendered(Err(cause))) => failed(
            ErrorKind::Template,
            cause,
        ),
        (ItemRunView::Infer { item, data }, ReplyView::Inferred(Ok(text))) => after_inference(
            agent,
            item,
            data,
            match text {
                Some(t) => t,
                None => Seq::empty(),
            },
        ),
        (ItemRunView::Infer { item, data }, ReplyView::Inferred(Err(cause))) => failed(
            ErrorKind::Inference,
            cause,
        ),
        (ItemRunView::Post, ReplyView::Evaluated(Ok(value))) => (
            ItemRunView::Succeeded,
            RequestView::Finish(Ok(value)),
        ),
        (ItemRunView::Post, ReplyView::Evaluated(Err(cause))) => failed(
            ErrorKind::ScriptEval(Stage::Post),
            cause,
        ),
        _ => failed(ErrorKind::ExecutionFault, unexpected_reply()),
    }
}

/// An object with the one member `key`.
fn single_member(key: &str, value: Value) -> (r: Value)
    ensures
        r@ == Tree::Object(seq![(key@, value@)]),
{
    let mut members: Vec<(String, Value)> = Vec::new();
    members.push((String::from_str(key), value));
    let r = Value::Object(members);
    proof {
        assert(r@->Object_0 =~= seq![(key@, value@)]);
    }
    r
}

/// The end of a run in a failure of kind `kind`.
fn fail(kind: ErrorKind, cause: String) -> (out: (ItemRun, Request))
    ensures
        (out.0@, out.1@) == failed(kind, cause@),
{
    let error = RunError::new(kind, cause);
    (ItemRun::Failed(error.clone()), Request::Finish(Err(error)))
}

/// The run once `data` is known: it asks for the instruction.
fn request_render(agent: &Agent, item: Value, data: Value) -> (out: (ItemRun, Request))
    ensures
        (out.0@, out.1@) == ask_render(agent@, item@, data@),
{
    let scope = single_member("data", data.clone());
    (ItemRun::Render { item, data }, Request::Render { template: agent.inst.clone(), scope })
}

/// The run once the model has answered with `text`.
fn conclude(agent: &Agent, item: Value, data: Value, text: String) -> (out: (ItemRun, Request))
    ensures
        (out.0@, out.1@) == after_inference(agent@, item@, data@, text@),
{
    match &agent.output_script {
        Some(script) => {
            let mut members: Vec<(String, Value)> = Vec::new();
            members.push((String::from_str("item"), item));
            members.push((String::from_str("data"), data));
            members.push((String::from_str("ai_output"), Value::Text(text)));
            let scope = Value::Object(members);
            proof {
                assert(members@[2].1@ == Tree::Text(text@));
                assert(scope@->Object_0 =~= post_scope(item@, data@, text@)->Object_0);
            }
            (ItemRun::Post, Request::Evaluate { script: script.clone(), scope })
        },
        None => (ItemRun::Succeeded, Request::Finish(Ok(Value::Text(text)))),
    }
}

/// Takes one run one step further: given where the run stands and the reply
/// to its last request, returns where it stands now and what it asks for
/// next. A run begins as `ItemRun::Pending` with `Reply::Start` and is over
/// when the request is `Request::Finish`.
///
/// A failure reported by a collaborator ends the run with the error of that
/// stage. A reply that does not answer the request made ends it with an
/// execution fault.
pub fn run_agent_item(agent: &Agent, run: ItemRun, reply: Reply) -> (out: (ItemRun, Request))
    ensures
        (out.0@, out.1@) == step(agent@, run@, reply@),
{
    match (run, reply) {
        (ItemRun::Pending { item }, Reply::Start) => match &agent.data_script {
            Some(script) => {
                let scope = single_member("item", item.clone());
                (ItemRun::Pre { item }, Request::Evaluate { script: script.clone(), scope })
            },
            None => request_render(agent, item, Value::Null),
        },
        (ItemRun::Pre { item }, Reply::Evaluated(Ok(data))) => request_render(agent, item, data),
        (ItemRun::Pre { item }, Reply::Evaluated(Err(cause))) => fail(
            ErrorKind::ScriptEval(Stage::Pre),
            cause,
        ),
        (ItemRun::Render { item, data }, Reply::Rendered(Ok(directive))) => (
            ItemRun::Infer { item, data },
            Request::Infer { model: agent.model.clone(), directive },
        ),
        (ItemRun::Render { item, data }, Reply::Rendered(Err(cause))) => fail(
            ErrorKind::Template,
            cause,
        ),
        (ItemRun::Infer { item, data }, Reply::Inferred(Ok(text))) => {
            let text = match text {
                Some(t) => t,
                None => String::new(),
            };
            conclude(agent, item, data, text)
        },
        (ItemRun::Infer { item, data }, Reply::Inferred(Err(cause))) => fail(
            ErrorKind::Inference,
            cause,
        ),
        (ItemRun::Post, Reply::Evaluated(Ok(value))) => (
            ItemRun::Succeeded,
            Request::Finish(Ok(value)),
        ),
        (ItemRun::Post, Reply::Evaluated(Err(cause))) => fail(
            ErrorKind::ScriptEval(Stage::Post),
            cause,
        ),
        _ => fail(
            ErrorKind::ExecutionFault,
            String::from_str("the reply does not answer the request that the run made"),
        ),
    }
}

/// Collaborators that answer the same request in the same way every time:
/// the script evaluator, the template renderer and the inference client as
/// mathematical functions.
pub struct Collaborators {
    pub evaluate: spec_fn(Seq<char>, Tree) -> Result<Tree, Seq<char>>,
    pub render: spec_fn(Seq<char>, Tree) -> Result<Seq<char>, Seq<char>>,
    pub infer: spec_fn(Seq<char>, Seq<char>) -> Result<Option<Seq<char>>, Seq<char>>,
}

/// The reply that such collaborators give to a request.
pub open spec fn answer(c: Collaborators, request: RequestView) -> ReplyView {
    match request {
        RequestView::Evaluate { script, scope } => ReplyView::Evaluated((c.evaluate)(script, scope)),
        RequestView::Render { template, scope } => ReplyView::Rendered((c.render)(template, scope)),
        RequestView::Infer { model, directive } => ReplyView::Inferred((c.infer)(model, directive)),
        RequestView::Finish(_) => ReplyView::Start,
    }
}

/// The four stages in one piece: what a run of `item` under `agent` results
/// in when the collaborators are `c`.
pub open spec fn pipeline_result(agent: AgentView, item: Tree, c: Collaborators) -> Result<
    Tree,
    Failure,
> {
    let pre = match agent.pre {
        Some(script) => (c.evaluate)(script, pre_scope(item)),
        None => Ok(Tree::Null),
    };
    match pre {
        Err(cause) => Err(Failure { kind: ErrorKind::ScriptEval(Stage::Pre), cause }),
        Ok(data) => match (c.render)(agent.template, render_scope(data)) {
            Err(cause) => Err(Failure { kind: ErrorKind::Template, cause }),
            Ok(directive) => match (c.infer)(agent.model, directive) {
                Err(cause) => Err(Failure { kind: ErrorKind::Inference, cause }),
                Ok(answered) => {
                    let text = match answered {
                        Some(t) => t,
                        None => Seq::empty(),
                    };
                    match agent.post {
                        None => Ok(Tree::Text(text)),
                        Some(script) => match (c.evaluate)(script, post_scope(item, data, text)) {
                            Ok(value) => Ok(value),
                            Err(cause) => Err(
                                Failure { kind: ErrorKind::ScriptEval(Stage::Post), cause },
                            ),
                        },
                    }
                },
            },
        },
    }
}

/// The result of stepping a run, each request answered by `c`, until it
/// finishes; `None` if it has not finished after `calls` requests.
pub open spec fn outcome(
    agent: AgentView,
    run: ItemRunView,
    reply: ReplyView,
    c: Collaborators,
    calls: nat,
) -> Option<Result<Tree, Failure>>
    decreases calls,
{
    let (next, request) = step(agent, run, reply);
    match request {
        RequestView::Finish(result) => Some(result),
        _ => if calls == 0 {
            None
        } else {
            outcome(agent, next, answer(c, request), c, (calls - 1) as nat)
        },
    }
}

/// Stepping a fresh run to its end makes at most four requests and yields
/// exactly the result of the four stages. The result is thus a function of
/// the agent, the item and the collaborators alone: running the same item
/// again under the same agent, with collaborators that answer alike, gives
/// the same result, and nothing of another run enters into it.
pub proof fn lemma_run_computes_pipeline(agent: AgentView, item: Tree, c: Collaborators)
    ensures
        outcome(agent, ItemRunView::Pending { item }, ReplyView::Start, c, 4) == Some(
            pipeline_result(agent, item, c),
        ),
{
    reveal_with_fuel(outcome, 5);
}

/// Whatever the pre-process script returned and whatever happened to the
/// scopes handed out before, the post-process script is given the item that
/// the run began with, the data of this run and the text of this run's
/// inference call.
pub proof fn lemma_post_scope_is_the_runs_own(
    agent: AgentView,
    item: Tree,
    data: Tree,
    directive: Seq<char>,
    text: Option<Seq<char>>,
)
    requires
        agent.post is Some,
    ensures
        ({
            let rendering = step(agent, ItemRunView::Pre { item }, ReplyView::Evaluated(Ok(data))).0;
            let inferring = step(agent, rendering, ReplyView::Rendered(Ok(directive))).0;
            step(agent, inferring, ReplyView::Inferred(Ok(text))).1 == RequestView::Evaluate {
                script: agent.post->0,
                scope: post_scope(
                    item,
                    data,
                    match text {
                        Some(t) => t,
                        None => Seq::empty(),
                    },
                ),
            }
        }),
{
}

/// A run hands out `Finish` exactly when it has reached a terminal state, and
/// a value exactly when it has succeeded.
pub proof fn lemma_finish_is_terminal(agent: AgentView, run: ItemRunView, reply: ReplyView)
    ensures
        step(agent, run, reply).1 is Finish <==> (step(agent, run, reply).0 is Succeeded || step(
            agent,
            run,
            reply,
        ).0 is Failed),
        step(agent, run, reply).1 matches RequestView::Finish(Ok(_)) <==> step(
            agent,
            run,
            reply,
        ).0 is Succeeded,
{
}

} // verus!
