use exograph_core::access::AccessPredicateExpression;
use exograph_core::column_path::ColumnId;
use exograph_core::health::{
    check_pointed, execute_graphql_health_check, expand_env_placeholders, handle_healthz,
    health_request_body, healthz_response, plan_with_variables, pointer_not_found_message,
    pointer_not_true_message, HealthCheckPlan, HealthResponse,
};
use exograph_core::jwt::{trim_trailing_slashes, Oidc};
use exograph_core::launcher::{
    generate_random_string, name_from_samples, EphemeralDatabase, EphemeralDatabaseLaunchPreference,
    EphemeralDatabaseLauncher, EphemeralDatabaseServer, EphemeralDatabaseSetupError, LaunchAction,
    LaunchEvent, LaunchState,
};
use exograph_core::reference_input::{
    entity_allows_reference_input, expanded_reference_types, MutationField, MutationType,
    ReferenceInputTypeBuilder, ResolvedCompositeType, ResolvedField, SystemContextBuilding,
};
use exograph_core::schema::{
    Access, EntityRepresentation, EntityType, FieldType, PostgresField, PostgresRelation, TypeIndex,
};
use exograph_core::telemetry::{
    enabled, env_get, get_env_value, init, non_empty, options_from_env, Sentry, SentryOptions,
};
use exograph_core::computed_fields::{json_insert_absent, json_upsert};
use exograph_core::value::{const_get, json_get, ConstValue, JsonValue, Number};

fn env(values: Vec<(&str, &str)>) -> Vec<(String, String)> {
    values.into_iter().map(|(k, v)| (k.to_string(), v.to_string())).collect()
}

fn json(text: &str) -> JsonValue {
    JsonValue::parse(text).unwrap()
}

#[test]
fn json_text_is_read_and_written() {
    assert_eq!(
        JsonValue::parse(" { \"b\" : [1, -2, 1.5, true, null, \"x\"], \"a\": {} } "),
        Some(JsonValue::Object(vec![
            ("a".to_string(), JsonValue::Object(vec![])),
            (
                "b".to_string(),
                JsonValue::Array(vec![
                    JsonValue::Number(Number::PosInt(1)),
                    JsonValue::Number(Number::NegInt(-2)),
                    JsonValue::Number(Number::Float("1.5".to_string())),
                    JsonValue::Bool(true),
                    JsonValue::Null,
                    JsonValue::String("x".to_string()),
                ])
            ),
        ]))
    );
    assert_eq!(JsonValue::parse("{\"a\":"), None);
    assert_eq!(JsonValue::parse(""), None);
    assert_eq!(JsonValue::parse("18446744073709551615"), Some(JsonValue::Number(Number::PosInt(u64::MAX))));
    let value = JsonValue::Object(vec![
        ("z".to_string(), JsonValue::String("q\"uote".to_string())),
        (
            "a".to_string(),
            JsonValue::Array(vec![
                JsonValue::Number(Number::Float("2.5e3".to_string())),
                JsonValue::Number(Number::NegInt(-1)),
                JsonValue::Number(Number::Float("not a number".to_string())),
            ]),
        ),
    ]);
    assert_eq!(value.to_text(), "{\"a\":[2500.0,-1,null],\"z\":\"q\\\"uote\"}");
    assert_eq!(JsonValue::Null.to_text(), "null");
    assert_eq!(json("{\"k\":[]}").duplicate(), json("{\"k\":[]}"));
}

#[test]
fn json_pointer_finds_values() {
    let data = json("{\"x\":{\"y\":[\"z\",\"zz\"]},\"a/b\":1,\"m~n\":2}");
    assert_eq!(data.pointer("/x/y/1"), Some(JsonValue::String("zz".to_string())));
    assert_eq!(data.pointer("/a/b/c"), None);
    assert_eq!(data.pointer("/a~1b"), Some(JsonValue::Number(Number::PosInt(1))));
    assert_eq!(data.pointer("/m~0n"), Some(JsonValue::Number(Number::PosInt(2))));
    assert_eq!(data.pointer(""), Some(data.duplicate()));
    assert_eq!(data.pointer("x"), None);
    assert_eq!(data.pointer("/x/y/01"), None);
    assert_eq!(data.pointer("/x/y/2"), None);
}

#[test]
fn of_members_with_one_key_the_last_counts() {
    let one = || JsonValue::Number(Number::PosInt(1));
    let two = || JsonValue::Number(Number::PosInt(2));
    let three = || JsonValue::Number(Number::PosInt(3));
    let members = vec![("a".to_string(), one()), ("b".to_string(), two()), ("a".to_string(), three())];
    let twice = JsonValue::Object(members.clone_members());
    assert!(!twice.has_distinct_keys());
    assert_eq!(json_get(&members, "a"), Some(&three()));
    assert_eq!(json_get(&members, "b"), Some(&two()));
    assert_eq!(json_get(&members, "c"), None);
    // Looking up, pointing and writing agree on the member that counts.
    assert_eq!(twice.pointer("/a"), Some(three()));
    assert_eq!(twice.to_text(), "{\"a\":3,\"b\":2}");
    let read = json("{\"a\":1,\"b\":2,\"a\":3}");
    assert!(read.has_distinct_keys());
    assert_eq!(
        read,
        JsonValue::Object(vec![("a".to_string(), three()), ("b".to_string(), two())])
    );
    assert!(!JsonValue::Array(vec![one(), twice]).has_distinct_keys());
    assert!(JsonValue::Array(vec![one(), read]).has_distinct_keys());
    assert!(json("[{\"a\":{\"a\":1}},{\"a\":2}]").has_distinct_keys());
    // Setting a key replaces the member that counts.
    let mut set = members.clone_members();
    json_upsert(&mut set, "a", two());
    assert_eq!(
        set,
        vec![("a".to_string(), one()), ("b".to_string(), two()), ("a".to_string(), two())]
    );
    json_insert_absent(&mut set, "a", three());
    json_insert_absent(&mut set, "c", three());
    assert_eq!(set.len(), 4);
    assert_eq!(json_get(&set, "a"), Some(&two()));
    assert_eq!(json_get(&set, "c"), Some(&three()));
    let fields = vec![
        ("a".to_string(), ConstValue::Boolean(false)),
        ("a".to_string(), ConstValue::Boolean(true)),
    ];
    assert_eq!(const_get(&fields, "a"), Some(&ConstValue::Boolean(true)));
}

trait CloneMembers {
    fn clone_members(&self) -> Vec<(String, JsonValue)>;
}

impl CloneMembers for Vec<(String, JsonValue)> {
    fn clone_members(&self) -> Vec<(String, JsonValue)> {
        self.iter().map(|(k, v)| (k.clone(), v.duplicate())).collect()
    }
}

#[test]
fn placeholders_are_replaced_from_the_environment() {
    let env = env(vec![("USER_ID", "42"), ("NAME", "Ada"), ("EMPTY", "")]);
    assert_eq!(
        expand_env_placeholders("{\"id\": ${USER_ID}, \"name\": \"${NAME}\"}", &env),
        Ok("{\"id\": 42, \"name\": \"Ada\"}".to_string())
    );
    assert_eq!(expand_env_placeholders("no placeholders $ { } $x", &env), Ok("no placeholders $ { } $x".to_string()));
    assert_eq!(expand_env_placeholders("", &env), Ok(String::new()));
    assert_eq!(expand_env_placeholders("${NAME}${USER_ID}${EMPTY}!", &env), Ok("Ada42!".to_string()));
    assert_eq!(expand_env_placeholders("a${NAME", &env), Ok("aAda".to_string()));
    assert_eq!(expand_env_placeholders("é${NAME}ü", &env), Ok("éAdaü".to_string()));
    assert_eq!(
        expand_env_placeholders("x${}y", &env),
        Err("Invalid EXO_HEALTHZ_VARIABLES placeholder: empty name".to_string())
    );
    assert_eq!(
        expand_env_placeholders("x${", &env),
        Err("Invalid EXO_HEALTHZ_VARIABLES placeholder: empty name".to_string())
    );
    assert_eq!(
        expand_env_placeholders("${NAME} ${WHO} ${}", &env),
        Err("Missing env var WHO referenced by EXO_HEALTHZ_VARIABLES".to_string())
    );
    assert_eq!(
        expand_env_placeholders("${${NAME}}", &env),
        Err("Missing env var ${NAME referenced by EXO_HEALTHZ_VARIABLES".to_string())
    );
}

fn default_plan() -> HealthCheckPlan {
    HealthCheckPlan { query: "{ __typename }".to_string(), variables: None, response_pointer: None }
}

#[test]
fn health_check_falls_back_to_the_default_query() {
    assert_eq!(handle_healthz(&env(vec![])), default_plan());
    let configured = env(vec![
        ("EXO_HEALTHZ_QUERY", "query($id: Int) { ping(id: $id) { ok } }"),
        ("EXO_HEALTHZ_VARIABLES", "{\"id\": ${PING_ID}}"),
        ("EXO_HEALTHZ_RESPONSE_JSON_POINTER", "/data/ping/ok"),
        ("PING_ID", "7"),
    ]);
    assert_eq!(
        handle_healthz(&configured),
        HealthCheckPlan {
            query: "query($id: Int) { ping(id: $id) { ok } }".to_string(),
            variables: Some(json("{\"id\":7}")),
            response_pointer: Some("/data/ping/ok".to_string()),
        }
    );
    let missing_variable = env(vec![
        ("EXO_HEALTHZ_QUERY", "{ ping { ok } }"),
        ("EXO_HEALTHZ_VARIABLES", "{\"id\": ${PING_ID}}"),
        ("EXO_HEALTHZ_RESPONSE_JSON_POINTER", "/data/ping/ok"),
    ]);
    assert_eq!(handle_healthz(&missing_variable), default_plan());
    let not_json = env(vec![
        ("EXO_HEALTHZ_QUERY", "{ ping { ok } }"),
        ("EXO_HEALTHZ_VARIABLES", "{id: 7"),
        ("EXO_HEALTHZ_RESPONSE_JSON_POINTER", "/data/ping/ok"),
    ]);
    assert_eq!(handle_healthz(&not_json), default_plan());
    let no_variables = env(vec![
        ("EXO_HEALTHZ_QUERY", "{ ping { ok } }"),
        ("EXO_HEALTHZ_RESPONSE_JSON_POINTER", "/data/ping/ok"),
    ]);
    assert_eq!(
        handle_healthz(&no_variables),
        HealthCheckPlan {
            query: "{ ping { ok } }".to_string(),
            variables: None,
            response_pointer: Some("/data/ping/ok".to_string()),
        }
    );
    let query_only = env(vec![("EXO_HEALTHZ_QUERY", "{ ping { ok } }")]);
    assert_eq!(
        handle_healthz(&query_only),
        HealthCheckPlan { query: "{ ping { ok } }".to_string(), ..default_plan() }
    );
    assert_eq!(
        plan_with_variables(&configured, None),
        HealthCheckPlan {
            query: "query($id: Int) { ping(id: $id) { ok } }".to_string(),
            variables: None,
            response_pointer: Some("/data/ping/ok".to_string()),
        }
    );
    let pointer_only = env(vec![("EXO_HEALTHZ_RESPONSE_JSON_POINTER", "/data/__typename")]);
    assert_eq!(
        handle_healthz(&pointer_only),
        HealthCheckPlan { response_pointer: Some("/data/__typename".to_string()), ..default_plan() }
    );
    let variables_only = env(vec![("EXO_HEALTHZ_VARIABLES", "{}")]);
    assert_eq!(
        handle_healthz(&variables_only),
        HealthCheckPlan { variables: Some(json("{}")), ..default_plan() }
    );
    assert_eq!(
        plan_with_variables(&configured, Some(Err("boom".to_string()))),
        default_plan()
    );
    assert_eq!(plan_with_variables(&configured, Some(Ok(None))), default_plan());
}

#[test]
fn health_request_carries_query_and_variables() {
    let plan = HealthCheckPlan { variables: Some(json("{\"id\":7}")), ..default_plan() };
    assert_eq!(
        health_request_body(&plan),
        JsonValue::Object(vec![
            ("query".to_string(), JsonValue::String("{ __typename }".to_string())),
            ("variables".to_string(), json("{\"id\":7}")),
        ])
    );
    assert_eq!(health_request_body(&default_plan()).to_text(), "{\"query\":\"{ __typename }\"}");
}

fn response(success: bool, status: &str, body: &str) -> Option<HealthResponse> {
    Some(HealthResponse {
        success,
        status: status.to_string(),
        body: JsonValue::parse(body).ok_or("expected value at line 1 column 1".to_string()),
    })
}

#[test]
fn health_check_with_pointer() {
    let plan = handle_healthz(&env(vec![
        ("EXO_HEALTHZ_QUERY", "{ ping { ok } }"),
        ("EXO_HEALTHZ_RESPONSE_JSON_POINTER", "/data/ping/ok"),
    ]));
    assert_eq!(plan.query, "{ ping { ok } }");
    assert_eq!(plan.variables, None);
    assert_eq!(
        health_request_body(&plan).to_text(),
        "{\"query\":\"{ ping { ok } }\"}"
    );
    let pointer = plan.response_pointer.as_deref();
    assert_eq!(pointer, Some("/data/ping/ok"));
    let healthy = response(true, "200 OK", "{\"data\":{\"ping\":{\"ok\":true}}}");
    assert_eq!(execute_graphql_health_check(&healthy, pointer), Ok(()));
    assert_eq!(healthz_response(&Ok(())).0, 200);
    assert_eq!(healthz_response(&Ok(())).1.to_text(), "{\"status\":\"ok\"}");
    let unhealthy = response(true, "200 OK", "{\"data\":{\"ping\":{\"ok\":false}}}");
    let outcome = execute_graphql_health_check(&unhealthy, pointer);
    assert_eq!(
        outcome,
        Err("Health check JSON pointer /data/ping/ok did not evaluate to true (got false)".to_string())
    );
    let (status, body) = healthz_response(&outcome);
    assert_eq!(status, 503);
    assert_eq!(
        body,
        JsonValue::Object(vec![
            ("status".to_string(), JsonValue::String("error".to_string())),
            (
                "message".to_string(),
                JsonValue::String(
                    "Health check JSON pointer /data/ping/ok did not evaluate to true (got false)"
                        .to_string()
                )
            ),
        ])
    );
    let elsewhere = response(true, "200 OK", "{\"data\":{\"pong\":{\"ok\":true}}}");
    assert_eq!(
        execute_graphql_health_check(&elsewhere, pointer),
        Err("Health check JSON pointer /data/ping/ok not found in response".to_string())
    );
    let wordy = response(true, "200 OK", "{\"data\":{\"ping\":{\"ok\":{\"b\":[1],\"a\":\"yes\"}}}}");
    assert_eq!(
        execute_graphql_health_check(&wordy, pointer),
        Err("Health check JSON pointer /data/ping/ok did not evaluate to true (got {\"a\":\"yes\",\"b\":[1]})".to_string())
    );
    assert_eq!(execute_graphql_health_check(&unhealthy, None), Ok(()));
    assert_eq!(check_pointed("/p", Some(JsonValue::Bool(true))), Ok(()));
    assert_eq!(
        pointer_not_true_message("/data/ping/ok", "false"),
        "Health check JSON pointer /data/ping/ok did not evaluate to true (got false)"
    );
    assert_eq!(
        pointer_not_found_message("/data/ping/ok"),
        "Health check JSON pointer /data/ping/ok not found in response"
    );
    assert_eq!(
        check_pointed("/p", Some(JsonValue::Null)),
        Err("Health check JSON pointer /p did not evaluate to true (got null)".to_string())
    );
}

#[test]
fn health_check_reports_failures_of_the_endpoint() {
    assert_eq!(
        execute_graphql_health_check(&None, None),
        Err("GraphQL endpoint returned no response".to_string())
    );
    assert_eq!(
        execute_graphql_health_check(&response(false, "500 Internal Server Error", "{}"), None),
        Err("Unexpected status 500 Internal Server Error from GraphQL endpoint".to_string())
    );
    assert_eq!(
        execute_graphql_health_check(&response(true, "200 OK", "<html>"), None),
        Err("Invalid GraphQL response body: expected value at line 1 column 1".to_string())
    );
    assert_eq!(
        execute_graphql_health_check(
            &response(true, "200 OK", "{\"errors\":[],\"data\":{\"ok\":true}}"),
            Some("/data/ok")
        ),
        Err("GraphQL response contains errors".to_string())
    );
    assert_eq!(execute_graphql_health_check(&response(true, "200 OK", "[]"), None), Ok(()));
}

#[test]
fn settings_are_trimmed_and_empty_ones_dropped() {
    let env = env(vec![("A", "  value\t\n"), ("B", "   "), ("C", ""), ("D", "x"), ("A", "second")]);
    assert_eq!(get_env_value(&env, "A"), Some("value".to_string()));
    assert_eq!(get_env_value(&env, "B"), None);
    assert_eq!(get_env_value(&env, "C"), None);
    assert_eq!(get_env_value(&env, "D"), Some("x".to_string()));
    assert_eq!(get_env_value(&env, "E"), None);
    assert_eq!(env_get(&env, "A"), Some(&"  value\t\n".to_string()));
    assert_eq!(non_empty(Some(String::new())), None);
    assert_eq!(non_empty(Some(" ".to_string())), Some(" ".to_string()));
}

#[test]
fn sentry_is_set_up_once() {
    let mut sentry = Sentry::new();
    assert!(!enabled(&sentry));
    init(&mut sentry, &env(vec![("SENTRY_ENVIRONMENT", "prod")]));
    assert!(!enabled(&sentry));
    let first = env(vec![
        ("SENTRY_DSN", " https://key@sentry.example/1 "),
        ("EXO_SENTRY_DSN", "   "),
        ("EXO_ENV", "staging"),
        ("SENTRY_RELEASE", "1.0"),
        ("EXO_SENTRY_RELEASE", "2.0"),
        ("SENTRY_SAMPLE_RATE", "0.5"),
    ]);
    assert_eq!(
        options_from_env(&first),
        Some(SentryOptions {
            dsn: "https://key@sentry.example/1".to_string(),
            environment: Some("staging".to_string()),
            release: Some("2.0".to_string()),
            sample_rate: Some("0.5".to_string()),
            traces_sample_rate: None,
        })
    );
    init(&mut sentry, &first);
    assert!(enabled(&sentry));
    let before = format!("{:?}", sentry);
    init(&mut sentry, &env(vec![("EXO_SENTRY_DSN", "https://other@sentry.example/2")]));
    assert!(enabled(&sentry));
    assert_eq!(format!("{:?}", sentry), before);
    assert_eq!(options_from_env(&env(vec![("EXO_SENTRY_ENVIRONMENT", "x")])), None);
}

fn launch(
    launcher: &EphemeralDatabaseLauncher,
    mut answer: impl FnMut(&LaunchAction) -> LaunchEvent,
) -> (Vec<LaunchAction>, LaunchAction) {
    let mut asked = vec![];
    let (mut state, mut action) = launcher.create_server(LaunchState::Initial, LaunchEvent::Begin);
    loop {
        match action {
            LaunchAction::Use | LaunchAction::Fail(_) => {
                assert_eq!(state, LaunchState::Finished);
                return (asked, action);
            }
            _ => {}
        }
        let event = answer(&action);
        asked.push(action);
        let next = launcher.create_server(state, event);
        state = next.0;
        action = next.1;
        assert!(asked.len() < 10);
    }
}

fn failing(message: &str) -> LaunchAction {
    LaunchAction::Fail(EphemeralDatabaseSetupError::Generic(message.to_string()))
}

fn launcher(preference: EphemeralDatabaseLaunchPreference) -> EphemeralDatabaseLauncher {
    EphemeralDatabaseLauncher { preference }
}

#[test]
fn launcher_reads_its_preference() {
    assert_eq!(
        EphemeralDatabaseLauncher::from_env(None).preference,
        EphemeralDatabaseLaunchPreference::PreferLocal
    );
    assert_eq!(
        EphemeralDatabaseLauncher::from_env(Some("prefer-local")).preference,
        EphemeralDatabaseLaunchPreference::PreferLocal
    );
    assert_eq!(
        EphemeralDatabaseLauncher::from_env(Some("prefer-docker")).preference,
        EphemeralDatabaseLaunchPreference::PreferDocker
    );
    assert_eq!(
        EphemeralDatabaseLauncher::from_env(Some("local-only")).preference,
        EphemeralDatabaseLaunchPreference::LocalOnly
    );
    assert_eq!(
        EphemeralDatabaseLauncher::from_env(Some("docker-only")).preference,
        EphemeralDatabaseLaunchPreference::DockerOnly
    );
    assert_eq!(
        EphemeralDatabaseLauncher::from_env(Some("Docker-Only")).preference,
        EphemeralDatabaseLaunchPreference::PreferLocal
    );
}

#[test]
fn prefer_local_uses_local_then_docker() {
    let prefer_local = launcher(EphemeralDatabaseLaunchPreference::PreferLocal);
    let all_fine = |action: &LaunchAction| match action {
        LaunchAction::ProbePgvector => LaunchEvent::Pgvector(Ok(true)),
        LaunchAction::CheckLocal | LaunchAction::CheckDocker => LaunchEvent::Available(true),
        _ => LaunchEvent::Started(Ok(())),
    };
    assert_eq!(
        launch(&prefer_local, all_fine),
        (
            vec![LaunchAction::ProbePgvector, LaunchAction::CheckLocal, LaunchAction::StartLocal],
            LaunchAction::Use
        )
    );
    let no_pgvector = |action: &LaunchAction| match action {
        LaunchAction::ProbePgvector => LaunchEvent::Pgvector(Ok(false)),
        LaunchAction::CheckDocker => LaunchEvent::Available(true),
        LaunchAction::StartDocker => LaunchEvent::Started(Ok(())),
        other => panic!("unexpected {:?}", other),
    };
    assert_eq!(
        launch(&prefer_local, no_pgvector),
        (
            vec![LaunchAction::ProbePgvector, LaunchAction::CheckDocker, LaunchAction::StartDocker],
            LaunchAction::Use
        )
    );
    let nothing_works = |action: &LaunchAction| match action {
        LaunchAction::ProbePgvector => LaunchEvent::Pgvector(Ok(true)),
        LaunchAction::CheckLocal => LaunchEvent::Available(true),
        LaunchAction::StartLocal => LaunchEvent::Started(Err("port in use".to_string())),
        LaunchAction::CheckDocker => LaunchEvent::Available(false),
        other => panic!("unexpected {:?}", other),
    };
    assert_eq!(
        launch(&prefer_local, nothing_works).1,
        failing(
            "Failed to launch local PostgreSQL instance: port in use. Additionally, failed to launch Docker PostgreSQL: Docker PostgreSQL is not available"
        )
    );
    let probe_fails = |action: &LaunchAction| match action {
        LaunchAction::ProbePgvector => LaunchEvent::Pgvector(Err("no pg_config".to_string())),
        LaunchAction::CheckDocker => LaunchEvent::Available(true),
        LaunchAction::StartDocker => LaunchEvent::Started(Err("daemon down".to_string())),
        other => panic!("unexpected {:?}", other),
    };
    assert_eq!(
        launch(&prefer_local, probe_fails).1,
        failing(
            "Failed to verify pgvector support: no pg_config. Additionally, failed to launch Docker PostgreSQL: daemon down"
        )
    );
    let local_missing = |action: &LaunchAction| match action {
        LaunchAction::ProbePgvector => LaunchEvent::Pgvector(Ok(true)),
        LaunchAction::CheckLocal => LaunchEvent::Available(false),
        LaunchAction::CheckDocker => LaunchEvent::Available(false),
        other => panic!("unexpected {:?}", other),
    };
    assert_eq!(
        launch(&prefer_local, local_missing).1,
        failing(
            "Failed to launch local PostgreSQL instance: Local PostgreSQL is not available. Additionally, failed to launch Docker PostgreSQL: Docker PostgreSQL is not available"
        )
    );
}

#[test]
fn prefer_docker_falls_back_to_local() {
    let prefer_docker = launcher(EphemeralDatabaseLaunchPreference::PreferDocker);
    let docker_down = |action: &LaunchAction| match action {
        LaunchAction::CheckDocker => LaunchEvent::Available(false),
        LaunchAction::ProbePgvector => LaunchEvent::Pgvector(Ok(true)),
        LaunchAction::CheckLocal => LaunchEvent::Available(true),
        LaunchAction::StartLocal => LaunchEvent::Started(Ok(())),
        other => panic!("unexpected {:?}", other),
    };
    assert_eq!(
        launch(&prefer_docker, docker_down),
        (
            vec![
                LaunchAction::CheckDocker,
                LaunchAction::ProbePgvector,
                LaunchAction::CheckLocal,
                LaunchAction::StartLocal
            ],
            LaunchAction::Use
        )
    );
    let no_pgvector = |action: &LaunchAction| match action {
        LaunchAction::CheckDocker => LaunchEvent::Available(true),
        LaunchAction::StartDocker => LaunchEvent::Started(Err("daemon down".to_string())),
        LaunchAction::ProbePgvector => LaunchEvent::Pgvector(Ok(false)),
        other => panic!("unexpected {:?}", other),
    };
    assert_eq!(
        launch(&prefer_docker, no_pgvector).1,
        failing(
            "Local PostgreSQL installation does not include the pgvector extension. Install the extension or set EXO_SQL_EPHEMERAL_DATABASE_LAUNCH_PREFERENCE=docker-only."
        )
    );
    let local_fails = |action: &LaunchAction| match action {
        LaunchAction::CheckDocker => LaunchEvent::Available(false),
        LaunchAction::ProbePgvector => LaunchEvent::Pgvector(Ok(true)),
        LaunchAction::CheckLocal => LaunchEvent::Available(true),
        LaunchAction::StartLocal => LaunchEvent::Started(Err("port in use".to_string())),
        other => panic!("unexpected {:?}", other),
    };
    assert_eq!(launch(&prefer_docker, local_fails).1, failing("port in use"));
    let docker_fine = |action: &LaunchAction| match action {
        LaunchAction::CheckDocker => LaunchEvent::Available(true),
        LaunchAction::StartDocker => LaunchEvent::Started(Ok(())),
        other => panic!("unexpected {:?}", other),
    };
    assert_eq!(
        launch(&prefer_docker, docker_fine),
        (vec![LaunchAction::CheckDocker, LaunchAction::StartDocker], LaunchAction::Use)
    );
}

#[test]
fn demands_do_not_fall_back() {
    let local_only = launcher(EphemeralDatabaseLaunchPreference::LocalOnly);
    let probe_fails = |action: &LaunchAction| match action {
        LaunchAction::ProbePgvector => LaunchEvent::Pgvector(Err("no pg_config".to_string())),
        other => panic!("unexpected {:?}", other),
    };
    assert_eq!(
        launch(&local_only, probe_fails),
        (
            vec![LaunchAction::ProbePgvector],
            failing("Failed to verify pgvector support for local PostgreSQL installation: no pg_config")
        )
    );
    let unavailable = |action: &LaunchAction| match action {
        LaunchAction::ProbePgvector => LaunchEvent::Pgvector(Ok(true)),
        LaunchAction::CheckLocal => LaunchEvent::Available(false),
        other => panic!("unexpected {:?}", other),
    };
    assert_eq!(launch(&local_only, unavailable).1, failing("Local PostgreSQL is not available"));
    let docker_only = launcher(EphemeralDatabaseLaunchPreference::DockerOnly);
    let docker_down = |action: &LaunchAction| match action {
        LaunchAction::CheckDocker => LaunchEvent::Available(false),
        other => panic!("unexpected {:?}", other),
    };
    assert_eq!(
        launch(&docker_only, docker_down),
        (vec![LaunchAction::CheckDocker], failing("Docker PostgreSQL is not available"))
    );
    let start_fails = |action: &LaunchAction| match action {
        LaunchAction::CheckDocker => LaunchEvent::Available(true),
        LaunchAction::StartDocker => LaunchEvent::Started(Err("daemon down".to_string())),
        other => panic!("unexpected {:?}", other),
    };
    assert_eq!(launch(&docker_only, start_fails).1, failing("daemon down"));
    assert_eq!(
        docker_only.create_server(LaunchState::Finished, LaunchEvent::Begin),
        (LaunchState::Finished, failing("Unexpected event for the state of the launch"))
    );
    assert_eq!(
        docker_only.create_server(LaunchState::Initial, LaunchEvent::Available(true)),
        (LaunchState::Finished, failing("Unexpected event for the state of the launch"))
    );
    assert_eq!(EphemeralDatabaseSetupError::Generic("m".to_string()).message(), "m");
    assert_eq!(
        docker_only.create_docker_server(
            LaunchState::CheckingDocker { local_error: None },
            LaunchEvent::Available(true)
        ),
        (LaunchState::StartingDocker { local_error: None }, LaunchAction::StartDocker)
    );
    assert_eq!(
        local_only.create_local_server(LaunchState::CheckingLocal, LaunchEvent::Available(true)),
        (LaunchState::StartingLocal, LaunchAction::StartLocal)
    );
    assert_eq!(
        local_only.create_local_server(LaunchState::StartingLocal, LaunchEvent::Begin),
        (LaunchState::Finished, failing("Unexpected event for the state of the launch"))
    );
}

struct MemoryDatabase(String);

impl EphemeralDatabase for MemoryDatabase {
    fn url(&self) -> String {
        format!("postgres://localhost/{}", self.0)
    }
}

struct MemoryServer;

impl EphemeralDatabaseServer for MemoryServer {
    type Database = MemoryDatabase;

    fn create_database(&self, name: &str) -> Result<MemoryDatabase, EphemeralDatabaseSetupError> {
        Ok(MemoryDatabase(name.to_string()))
    }

    fn cleanup(&self) {}
}

#[test]
fn random_names_are_lower_case_letters_and_digits() {
    let mut seen = vec![];
    for _ in 0..40 {
        let name = generate_random_string();
        assert_eq!(name.chars().count(), 15);
        assert!(name.chars().all(|c| c.is_ascii_lowercase() || c.is_ascii_digit()), "{name}");
        seen.push(name);
    }
    assert!(seen.iter().any(|name| *name != seen[0]));
    assert_eq!(name_from_samples(&b"AbZz09".to_vec()), "abzz09");
    assert_eq!(name_from_samples(&vec![]), "");
    let database = MemoryServer.create_database(&generate_random_string()).unwrap();
    assert_eq!(database.url().len(), "postgres://localhost/".len() + 15);
    MemoryServer.cleanup();
}

#[test]
fn issuers_come_in_both_forms_once() {
    let oidc = Oidc::new(
        "https://issuer.example.com//",
        Some(vec!["audience".to_string()]),
        &vec![
            "  https://alias.example.com/ ".to_string(),
            "".to_string(),
            " / ".to_string(),
            "https://issuer.example.com".to_string(),
            "https://other.example.com".to_string(),
        ],
    );
    assert_eq!(oidc.base_url, "https://issuer.example.com");
    assert_eq!(
        oidc.issuers,
        vec![
            "https://issuer.example.com".to_string(),
            "https://issuer.example.com/".to_string(),
            "https://alias.example.com".to_string(),
            "https://alias.example.com/".to_string(),
            "https://other.example.com".to_string(),
            "https://other.example.com/".to_string(),
        ]
    );
    assert_eq!(oidc.allowed_audiences, Some(vec!["audience".to_string()]));
    assert_eq!(Oidc::new("", None, &vec![]).issuers, vec!["".to_string(), "/".to_string()]);
    assert_eq!(trim_trailing_slashes("a/b///"), "a/b");
    assert_eq!(trim_trailing_slashes("///"), "");
    assert_eq!(trim_trailing_slashes("a/b"), "a/b");
}

fn access(creation_precheck: usize, update_precheck: usize, update_database: usize) -> Access {
    Access { read: 0, creation_precheck, update_precheck, update_database }
}

fn pk_entity(name: &str, access: Access, representation: EntityRepresentation) -> EntityType {
    let field = |name: &str, relation: PostgresRelation| PostgresField {
        name: name.to_string(),
        typ: FieldType::Plain(TypeIndex::Primitive("Int".to_string())),
        relation,
        access: Access { read: 0, creation_precheck: 0, update_precheck: 0, update_database: 0 },
        readonly: name == "tenant",
    };
    EntityType {
        name: name.to_string(),
        table_id: 0,
        fields: vec![
            field("id", PostgresRelation::Scalar { column_id: ColumnId { table_id: 0, column_index: 0 }, is_pk: true }),
            field("title", PostgresRelation::Scalar { column_id: ColumnId { table_id: 0, column_index: 1 }, is_pk: false }),
            field("tenant", PostgresRelation::ManyToOne { foreign_entity_id: 1, relation_id: 3, is_pk: true }),
            field("owner", PostgresRelation::ManyToOne { foreign_entity_id: 1, relation_id: 4, is_pk: false }),
        ],
        agg_fields: vec![],
        vector_distance_fields: vec![],
        representation,
        access,
    }
}

fn placeholder(name: &str) -> MutationType {
    MutationType { name: name.to_string(), fields: vec![], entity_id: 99 }
}

fn building() -> SystemContextBuilding {
    let mut keyless = pk_entity("Log", access(0, 0, 0), EntityRepresentation::Managed);
    keyless.fields.truncate(2);
    keyless.fields.remove(0);
    SystemContextBuilding {
        entity_types: vec![
            pk_entity("Todo", access(0, 0, 0), EntityRepresentation::Managed),
            pk_entity("Tenant", access(1, 1, 1), EntityRepresentation::Managed),
            pk_entity("Blob", access(0, 0, 0), EntityRepresentation::Json),
            pk_entity("Audit", access(1, 1, 0), EntityRepresentation::Managed),
            keyless,
        ],
        database_access_expressions: vec![
            AccessPredicateExpression::BooleanLiteral(true),
            AccessPredicateExpression::BooleanLiteral(false),
        ],
        precheck_access_expressions: vec![
            AccessPredicateExpression::BooleanLiteral(true),
            AccessPredicateExpression::BooleanLiteral(false),
        ],
        mutation_types: vec![
            placeholder("TodoCreationInput"),
            placeholder("TenantReferenceInput"),
            placeholder("TodoReferenceInput"),
            placeholder("BlobReferenceInput"),
            placeholder("AuditReferenceInput"),
            placeholder("LogReferenceInput"),
        ],
    }
}

fn reference_type(name: &str, entity_id: usize) -> MutationType {
    let field = |name: &str, foreign_entity_id: Option<usize>| MutationField {
        name: name.to_string(),
        access: Access { read: 0, creation_precheck: 0, update_precheck: 0, update_database: 0 },
        readonly: name == "tenant",
        foreign_entity_id,
    };
    MutationType {
        name: format!("{name}ReferenceInput"),
        fields: vec![field("id", None), field("tenant", Some(1))],
        entity_id,
    }
}

#[test]
fn reference_input_is_skipped_when_all_access_is_false() {
    let building = building();
    assert!(entity_allows_reference_input(&building.entity_types[0], &building));
    assert!(!entity_allows_reference_input(&building.entity_types[1], &building));
    assert!(entity_allows_reference_input(&building.entity_types[3], &building));
    assert_eq!(
        expanded_reference_types(&building.entity_types[0], &building),
        Some((2, reference_type("Todo", 0)))
    );
    assert_eq!(expanded_reference_types(&building.entity_types[1], &building), None);
    assert_eq!(expanded_reference_types(&building.entity_types[4], &building), None);
    assert_eq!(
        expanded_reference_types(&building.entity_types[3], &building),
        Some((4, reference_type("Audit", 3)))
    );
}

#[test]
fn reference_input_types_are_filled_in_place() {
    let mut building = building();
    ReferenceInputTypeBuilder.build_expanded(&mut building);
    assert_eq!(
        building.mutation_types,
        vec![
            placeholder("TodoCreationInput"),
            placeholder("TenantReferenceInput"),
            reference_type("Todo", 0),
            placeholder("BlobReferenceInput"),
            reference_type("Audit", 3),
            placeholder("LogReferenceInput"),
        ]
    );
    assert_eq!(building.entity_types.len(), 5);
}

#[test]
fn reference_type_names_need_a_key_and_some_access() {
    let composite = |creation_allowed: bool, update_allowed: bool, keys: Vec<bool>| ResolvedCompositeType {
        name: "Todo".to_string(),
        fields: keys
            .into_iter()
            .map(|is_pk| ResolvedField { name: "f".to_string(), is_pk })
            .collect(),
        creation_allowed,
        update_allowed,
        representation: EntityRepresentation::Managed,
    };
    let builder = ReferenceInputTypeBuilder;
    assert_eq!(
        builder.type_names(&composite(true, false, vec![false, true])),
        vec!["TodoReferenceInput".to_string()]
    );
    assert_eq!(
        builder.type_names(&composite(false, true, vec![true])),
        vec!["TodoReferenceInput".to_string()]
    );
    assert_eq!(builder.type_names(&composite(false, false, vec![true])), Vec::<String>::new());
    assert_eq!(builder.type_names(&composite(true, true, vec![false])), Vec::<String>::new());
    assert_eq!(builder.type_names(&composite(true, true, vec![])), Vec::<String>::new());
    assert!(builder.needs_mutation_type(&composite(true, true, vec![])));
    assert!(!builder.needs_mutation_type(&ResolvedCompositeType {
        representation: EntityRepresentation::Json,
        ..composite(true, true, vec![])
    }));
}
