//! The health check: the query that it sends, and what it makes of the answer.

use vstd::prelude::*;
use vstd::string::*;
use crate::field::text_option_view;
use crate::json_text::{
    json_option_view, json_parsed, json_pointed, json_pointer, json_text, json_to_string, parse_json,
};
use crate::telemetry::{env_get, env_value, env_view};
use crate::text::{concat2, concat3};
use crate::value::{
    json_get, json_member_views, lemma_json_object_view, lookup, JsonValue, JsonView,
};

verus! {

pub const EXO_HEALTHZ_QUERY: &'static str = "EXO_HEALTHZ_QUERY";

pub const EXO_HEALTHZ_VARIABLES: &'static str = "EXO_HEALTHZ_VARIABLES";

pub const EXO_HEALTHZ_RESPONSE_JSON_POINTER: &'static str = "EXO_HEALTHZ_RESPONSE_JSON_POINTER";

pub const DEFAULT_HEALTHZ_QUERY: &'static str = "{ __typename }";

/// The position of the first `}` at or after `from`, or the length of the
/// text where there is none.
pub open spec fn name_end(raw: Seq<char>, from: int) -> int
    decreases raw.len() - from,
{
    if from < 0 || from >= raw.len() {
        raw.len() as int
    } else if raw[from] == '}' {
        from
    } else {
        name_end(raw, from + 1)
    }
}

/// The end of a name lies at or after its start and within the text.
pub proof fn lemma_name_end(raw: Seq<char>, from: int)
    requires
        0 <= from <= raw.len(),
    ensures
        from <= name_end(raw, from) <= raw.len(),
        name_end(raw, from) < raw.len() ==> raw[name_end(raw, from)] == '}',
        forall|k: int| from <= k < name_end(raw, from) ==> raw[k] != '}',
    decreases raw.len() - from,
{
    if from < raw.len() && raw[from] != '}' {
        lemma_name_end(raw, from + 1);
    }
}

pub open spec fn empty_placeholder() -> Seq<char> {
    "Invalid EXO_HEALTHZ_VARIABLES placeholder: empty name"@
}

pub open spec fn missing_variable(name: Seq<char>) -> Seq<char> {
    "Missing env var "@ + name + " referenced by EXO_HEALTHZ_VARIABLES"@
}

/// The text from position `from` on with every placeholder `${NAME}`
/// replaced by the value of the variable `NAME`. A placeholder that is not
/// closed takes the rest of the text as its name. A placeholder without a
/// name, or one whose variable is not set, is an error.
pub open spec fn expanded(raw: Seq<char>, env: Seq<(Seq<char>, Seq<char>)>, from: int) -> Result<
    Seq<char>,
    Seq<char>,
>
    decreases raw.len() - from,
{
    if from < 0 || from >= raw.len() {
        Ok(Seq::empty())
    } else if raw[from] == '$' && from + 1 < raw.len() && raw[from + 1] == '{' {
        let end = name_end(raw, from + 2);
        let name = raw.subrange(from + 2, end);
        if end < from + 2 || end > raw.len() {
            Ok(Seq::empty())
        } else if name.len() == 0 {
            Err(empty_placeholder())
        } else {
            match env_value(env, name) {
                None => Err(missing_variable(name)),
                Some(value) => if end + 1 <= raw.len() {
                    match expanded(raw, env, end + 1) {
                        Ok(rest) => Ok(value + rest),
                        Err(e) => Err(e),
                    }
                } else {
                    Ok(value)
                },
            }
        }
    } else {
        match expanded(raw, env, from + 1) {
            Ok(rest) => Ok(seq![raw[from]] + rest),
            Err(e) => Err(e),
        }
    }
}

/// The view of the outcome of a function that gives a text or a message.
pub open spec fn text_result_view(r: Result<String, String>) -> Result<Seq<char>, Seq<char>> {
    match r {
        Ok(t) => Ok(t@),
        Err(e) => Err(e@),
    }
}

/// What remains to be expanded from `from` on, after what is in `done`.
pub open spec fn continued(
    raw: Seq<char>,
    env: Seq<(Seq<char>, Seq<char>)>,
    from: int,
    done: Seq<char>,
) -> Result<Seq<char>, Seq<char>> {
    match expanded(raw, env, from) {
        Ok(rest) => Ok(done + rest),
        Err(e) => Err(e),
    }
}

/// Replaces every placeholder `${NAME}` in a text by the value of the
/// variable `NAME` of the environment.
pub fn expand_env_placeholders(raw: &str, env: &Vec<(String, String)>) -> (r: Result<String, String>)
    ensures
        text_result_view(r) == expanded(raw@, env_view(env@), 0),
{
    let n = raw.unicode_len();
    let mut output = String::new();
    let mut i: usize = 0;
    proof {
        assert(Seq::<char>::empty() + expanded(raw@, env_view(env@), 0)->Ok_0 =~= expanded(
            raw@,
            env_view(env@),
            0,
        )->Ok_0);
    }
    while i < n
        invariant
            i <= n,
            n == raw@.len(),
            continued(raw@, env_view(env@), i as int, output@) == expanded(raw@, env_view(env@), 0),
        decreases n - i,
    {
        let ch = raw.get_char(i);
        let ghost before = output@;
        if ch == '$' && i + 1 < n && raw.get_char(i + 1) == '{' {
            let mut end: usize = i + 2;
            while end < n && raw.get_char(end) != '}'
                invariant
                    i + 2 <= end <= n,
                    n == raw@.len(),
                    name_end(raw@, end as int) == name_end(raw@, i + 2),
                decreases n - end,
            {
                end += 1;
            }
            proof {
                lemma_name_end(raw@, end as int);
            }
            let name = raw.substring_char(i + 2, end);
            if name.unicode_len() == 0 {
                return Err("Invalid EXO_HEALTHZ_VARIABLES placeholder: empty name".to_owned());
            }
            let value = match env_get(env, name) {
                Some(v) => v,
                None => {
                    return Err(
                        concat3("Missing env var ", name, " referenced by EXO_HEALTHZ_VARIABLES"),
                    );
                },
            };
            output.append(value.as_str());
            i = if end < n {
                proof {
                    let rest = expanded(raw@, env_view(env@), end + 1);
                    if rest is Ok {
                        assert(before + (value@ + rest->Ok_0) =~= (before + value@) + rest->Ok_0);
                    }
                }
                end + 1
            } else {
                proof {
                    assert(expanded(raw@, env_view(env@), n as int) == Ok::<Seq<char>, Seq<char>>(
                        Seq::empty(),
                    ));
                    assert((before + value@) + Seq::<char>::empty() =~= before + value@);
                }
                n
            };
        } else {
            output.append(raw.substring_char(i, i + 1));
            proof {
                let rest = expanded(raw@, env_view(env@), i + 1);
                assert(raw@.subrange(i as int, i + 1) =~= seq![raw@[i as int]]);
                if rest is Ok {
                    assert(before + (seq![raw@[i as int]] + rest->Ok_0) =~= (before + seq![
                        raw@[i as int],
                    ]) + rest->Ok_0);
                }
            }
            i += 1;
        }
    }
    proof {
        assert(output@ + Seq::<char>::empty() =~= output@);
    }
    Ok(output)
}

/// What the health check sends and what it asks of the answer.
#[derive(Debug, PartialEq, Eq)]
pub struct HealthCheckPlan {
    pub query: String,
    pub variables: Option<JsonValue>,
    /// Where in the answer `true` must stand, as a JSON Pointer.
    pub response_pointer: Option<String>,
}

/// The view of a [`HealthCheckPlan`].
pub struct HealthCheckPlanView {
    pub query: Seq<char>,
    pub variables: Option<JsonView>,
    pub response_pointer: Option<Seq<char>>,
}

impl View for HealthCheckPlan {
    type V = HealthCheckPlanView;

    open spec fn view(&self) -> HealthCheckPlanView {
        HealthCheckPlanView {
            query: self.query@,
            variables: json_option_view(self.variables),
            response_pointer: text_option_view(self.response_pointer),
        }
    }
}

/// The check that is made where the configured one cannot be: the default
/// query, without variables, with nothing asked of the answer.
pub open spec fn default_plan() -> HealthCheckPlanView {
    HealthCheckPlanView { query: DEFAULT_HEALTHZ_QUERY@, variables: None, response_pointer: None }
}

/// The check that the environment asks for, given what the variables read
/// as once their placeholders are replaced, where they are set and the
/// replacing worked. The query, the variables and the pointer are set each
/// on its own: the query is the configured one or else the default one, and
/// the pointer is the configured one, with variables that are JSON and
/// without variables alike. Only where variables are set and cannot be used,
/// because a placeholder names nothing or the text is no JSON, the default
/// check is made instead.
pub open spec fn planned_check(
    env: Seq<(Seq<char>, Seq<char>)>,
    variables: Option<Result<Option<JsonView>, Seq<char>>>,
) -> HealthCheckPlanView {
    match variables {
        Some(Ok(Some(value))) => HealthCheckPlanView {
            query: match env_value(env, EXO_HEALTHZ_QUERY@) {
                Some(q) => q,
                None => DEFAULT_HEALTHZ_QUERY@,
            },
            variables: Some(value),
            response_pointer: env_value(env, EXO_HEALTHZ_RESPONSE_JSON_POINTER@),
        },
        Some(_) => default_plan(),
        None => HealthCheckPlanView {
            query: match env_value(env, EXO_HEALTHZ_QUERY@) {
                Some(q) => q,
                None => DEFAULT_HEALTHZ_QUERY@,
            },
            variables: None,
            response_pointer: env_value(env, EXO_HEALTHZ_RESPONSE_JSON_POINTER@),
        },
    }
}

/// What the variables of the health check read as: nothing where they are
/// not set; else the message of a failed replacing, or the JSON that the
/// text with its placeholders replaced reads as, if it reads as any.
pub open spec fn read_variables(env: Seq<(Seq<char>, Seq<char>)>) -> Option<
    Result<Option<JsonView>, Seq<char>>,
> {
    match env_value(env, EXO_HEALTHZ_VARIABLES@) {
        None => None,
        Some(raw) => Some(
            match expanded(raw, env, 0) {
                Ok(text) => Ok(json_parsed(text)),
                Err(e) => Err(e),
            },
        ),
    }
}

/// A copy of an optional string.
fn cloned(value: Option<&String>) -> (r: Option<String>)
    ensures
        text_option_view(r) == match value {
            Some(v) => Some(v@),
            None => None,
        },
{
    match value {
        Some(v) => Some(v.clone()),
        None => None,
    }
}

/// Decides what the health check sends, given what its variables read as.
pub fn plan_with_variables(
    env: &Vec<(String, String)>,
    variables: Option<Result<Option<JsonValue>, String>>,
) -> (r: HealthCheckPlan)
    ensures
        r@ == planned_check(
            env_view(env@),
            match variables {
                Some(Ok(v)) => Some(Ok(json_option_view(v))),
                Some(Err(e)) => Some(Err(e@)),
                None => None,
            },
        ),
{
    let default_query = DEFAULT_HEALTHZ_QUERY.to_owned();
    match variables {
        Some(Ok(Some(value))) => HealthCheckPlan {
            query: match env_get(env, EXO_HEALTHZ_QUERY) {
                Some(q) => q.clone(),
                None => default_query,
            },
            variables: Some(value),
            response_pointer: cloned(env_get(env, EXO_HEALTHZ_RESPONSE_JSON_POINTER)),
        },
        Some(_) => HealthCheckPlan { query: default_query, variables: None, response_pointer: None },
        None => HealthCheckPlan {
            query: match env_get(env, EXO_HEALTHZ_QUERY) {
                Some(q) => q.clone(),
                None => default_query,
            },
            variables: None,
            response_pointer: cloned(env_get(env, EXO_HEALTHZ_RESPONSE_JSON_POINTER)),
        },
    }
}

/// Decides what the health check sends: the configured query, variables and
/// pointer, or the default check where the variables are set and unfit.
pub fn handle_healthz(env: &Vec<(String, String)>) -> (r: HealthCheckPlan)
    ensures
        r@ == planned_check(env_view(env@), read_variables(env_view(env@))),
{
    let variables = match env_get(env, EXO_HEALTHZ_VARIABLES) {
        Some(raw) => Some(
            match expand_env_placeholders(raw.as_str(), env) {
                Ok(text) => Ok(parse_json(text.as_str())),
                Err(e) => Err(e),
            },
        ),
        None => None,
    };
    plan_with_variables(env, variables)
}

/// Where no variables are set, the check sends the configured query, or the
/// default one where none is configured, and asks of the answer what the
/// configured pointer says.
pub proof fn lemma_plan_without_variables(env: Seq<(Seq<char>, Seq<char>)>)
    requires
        env_value(env, EXO_HEALTHZ_VARIABLES@) is None,
    ensures
        planned_check(env, read_variables(env)).variables is None,
        planned_check(env, read_variables(env)).response_pointer == env_value(
            env,
            EXO_HEALTHZ_RESPONSE_JSON_POINTER@,
        ),
        planned_check(env, read_variables(env)).query == (match env_value(env, EXO_HEALTHZ_QUERY@) {
            Some(q) => q,
            None => DEFAULT_HEALTHZ_QUERY@,
        }),
{
}

/// The body of the request of the health check: the query, and the
/// variables where there are any.
pub open spec fn request_body(plan: HealthCheckPlanView) -> JsonView {
    match plan.variables {
        Some(v) => JsonView::Object(
            seq![("query"@, JsonView::String(plan.query)), ("variables"@, v)],
        ),
        None => JsonView::Object(seq![("query"@, JsonView::String(plan.query))]),
    }
}

/// Makes the body of the request of the health check.
pub fn health_request_body(plan: &HealthCheckPlan) -> (r: JsonValue)
    ensures
        r@ == request_body(plan@),
{
    let mut members: Vec<(String, JsonValue)> = Vec::new();
    members.push(("query".to_owned(), JsonValue::String(plan.query.clone())));
    match &plan.variables {
        Some(v) => {
            members.push(("variables".to_owned(), v.duplicate()));
            proof {
                assert(json_member_views(members@) =~= seq![
                    ("query"@, JsonView::String(plan.query@)),
                    ("variables"@, v@),
                ]);
            }
        },
        None => {
            proof {
                assert(json_member_views(members@) =~= seq![
                    ("query"@, JsonView::String(plan.query@)),
                ]);
            }
        },
    }
    proof {
        lemma_json_object_view(members);
    }
    JsonValue::Object(members)
}

/// The answer of the endpoint to the health check.
#[derive(Debug, PartialEq, Eq)]
pub struct HealthResponse {
    /// Whether the status is one of success.
    pub success: bool,
    /// The status as it is displayed.
    pub status: String,
    /// The body as JSON, or why it could not be read.
    pub body: Result<JsonValue, String>,
}

/// The report of a pointer that found something other than `true`, given
/// the text of what it found.
pub open spec fn pointer_not_true(pointer: Seq<char>, found_text: Seq<char>) -> Seq<char> {
    ("Health check JSON pointer "@ + pointer + " did not evaluate to true (got "@) + found_text
        + ")"@
}

/// Reports a pointer that found something other than `true`, given the
/// text of what it found.
pub fn pointer_not_true_message(pointer: &str, found_text: &str) -> (r: String)
    ensures
        r@ == pointer_not_true(pointer@, found_text@),
{
    concat3(
        concat3("Health check JSON pointer ", pointer, " did not evaluate to true (got ").as_str(),
        found_text,
        ")",
    )
}

/// Reports a pointer that found nothing.
pub fn pointer_not_found_message(pointer: &str) -> (r: String)
    ensures
        r@ == pointer_not_found(pointer@),
{
    concat3("Health check JSON pointer ", pointer, " not found in response")
}

/// The report of a pointer that found nothing.
pub open spec fn pointer_not_found(pointer: Seq<char>) -> Seq<char> {
    "Health check JSON pointer "@ + pointer + " not found in response"@
}

/// The outcome for what a pointer found in the answer: healthy only where it
/// found `true`.
pub open spec fn pointer_outcome(pointer: Seq<char>, found: Option<JsonView>) -> Result<(), Seq<char>> {
    match found {
        Some(JsonView::Bool(true)) => Ok(()),
        Some(other) => Err(pointer_not_true(pointer, json_text(other))),
        None => Err(pointer_not_found(pointer)),
    }
}

/// The view of an outcome of the health check.
pub open spec fn outcome_view(r: Result<(), String>) -> Result<(), Seq<char>> {
    match r {
        Ok(_) => Ok(()),
        Err(e) => Err(e@),
    }
}

/// Gives the outcome for what a pointer found in the answer.
pub fn check_pointed(pointer: &str, found: Option<JsonValue>) -> (r: Result<(), String>)
    ensures
        outcome_view(r) == pointer_outcome(
            pointer@,
            json_option_view(found),
        ),
{
    match found {
        Some(JsonValue::Bool(true)) => Ok(()),
        Some(other) => Err(pointer_not_true_message(pointer, json_to_string(&other).as_str())),
        None => Err(pointer_not_found_message(pointer)),
    }
}

/// The views of a response's body.
pub open spec fn body_view(body: Result<JsonValue, String>) -> Result<JsonView, Seq<char>> {
    match body {
        Ok(v) => Ok(v@),
        Err(e) => Err(e@),
    }
}

/// The member `errors` of an answer, where the answer is an object that has one.
pub open spec fn errors_member(body: JsonView) -> Option<JsonView> {
    match body {
        JsonView::Object(members) => lookup(members, "errors"@),
        _ => None,
    }
}

/// The outcome of the health check on an answer: healthy where the endpoint
/// answered with success, the answer is JSON without a member `errors`, and
/// `true` stands where the pointer points, if one is given.
pub open spec fn health_outcome(
    response: Option<(bool, Seq<char>, Result<JsonView, Seq<char>>)>,
    pointer: Option<Seq<char>>,
) -> Result<(), Seq<char>> {
    match response {
        None => Err("GraphQL endpoint returned no response"@),
        Some((false, status, _)) => Err(
            "Unexpected status "@ + status + " from GraphQL endpoint"@,
        ),
        Some((true, _, Err(e))) => Err("Invalid GraphQL response body: "@ + e),
        Some((true, _, Ok(body))) => if errors_member(body) is Some {
            Err("GraphQL response contains errors"@)
        } else {
            match pointer {
                Some(p) => pointer_outcome(p, json_pointed(body, p)),
                None => Ok(()),
            }
        },
    }
}

/// The view of an optional response.
pub open spec fn response_view(response: Option<HealthResponse>) -> Option<
    (bool, Seq<char>, Result<JsonView, Seq<char>>),
> {
    match response {
        Some(r) => Some((r.success, r.status@, body_view(r.body))),
        None => None,
    }
}

/// Gives the outcome of the health check on the answer of the endpoint.
pub fn execute_graphql_health_check(response: &Option<HealthResponse>, response_pointer: Option<&str>) -> (r:
    Result<(), String>)
    ensures
        outcome_view(r) == health_outcome(
            response_view(*response),
            match response_pointer {
                Some(p) => Some(p@),
                None => None,
            },
        ),
{
    match response {
        Some(response) => {
            if response.success {
                let response_json = match &response.body {
                    Ok(v) => v,
                    Err(err) => {
                        return Err(concat2("Invalid GraphQL response body: ", err.as_str()));
                    },
                };
                let has_errors = match response_json {
                    JsonValue::Object(members) => {
                        proof {
                            lemma_json_object_view(*members);
                        }
                        json_get(members, "errors").is_some()
                    },
                    _ => false,
                };
                if has_errors {
                    return Err("GraphQL response contains errors".to_owned());
                }
                match response_pointer {
                    Some(pointer) => check_pointed(pointer, json_pointer(response_json, pointer)),
                    None => Ok(()),
                }
            } else {
                Err(concat3("Unexpected status ", response.status.as_str(), " from GraphQL endpoint"))
            }
        },
        None => Err("GraphQL endpoint returned no response".to_owned()),
    }
}

/// The answer of the health endpoint to an outcome: status 200 and
/// `{"status":"ok"}` for a healthy system, else status 503 and the message.
pub open spec fn healthz_answer(outcome: Result<(), Seq<char>>) -> (u16, JsonView) {
    match outcome {
        Ok(_) => (200, JsonView::Object(seq![("status"@, JsonView::String("ok"@))])),
        Err(message) => (
            503,
            JsonView::Object(
                seq![
                    ("status"@, JsonView::String("error"@)),
                    ("message"@, JsonView::String(message)),
                ],
            ),
        ),
    }
}

/// Makes the answer of the health endpoint from the outcome.
pub fn healthz_response(outcome: &Result<(), String>) -> (r: (u16, JsonValue))
    ensures
        (r.0, r.1@) == healthz_answer(outcome_view(*outcome)),
{
    let mut members: Vec<(String, JsonValue)> = Vec::new();
    match outcome {
        Ok(_) => {
            members.push(("status".to_owned(), JsonValue::String("ok".to_owned())));
            proof {
                lemma_json_object_view(members);
                assert(json_member_views(members@) =~= seq![("status"@, JsonView::String("ok"@))]);
            }
            (200, JsonValue::Object(members))
        },
        Err(err) => {
            members.push(("status".to_owned(), JsonValue::String("error".to_owned())));
            members.push(("message".to_owned(), JsonValue::String(err.clone())));
            proof {
                lemma_json_object_view(members);
                assert(json_member_views(members@) =~= seq![
                    ("status"@, JsonView::String("error"@)),
                    ("message"@, JsonView::String(err@)),
                ]);
            }
            (503, JsonValue::Object(members))
        },
    }
}

} // verus!
