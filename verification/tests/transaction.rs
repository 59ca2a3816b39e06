use exograph_core::column_path::{ColumnId, PhysicalColumnPath};
use exograph_core::error::{DatabaseError, PostgresExecutionError};
use exograph_core::pool::{
    pre_recycle, use_tls, HostKind, PoolConfig, PoolSettings, PoolStatus, RecycleDecision,
};
use exograph_core::predicate::{AbstractPredicate, ColumnPath, CompareOp, SqlParam};
use exograph_core::retry::{
    backoff_cap, backoff_from_jitter, decide, decide_with_jitter, failure, is_retryable_db_error,
    parse_number, retry_backoff_ms, should_retry, RetryConfig, RetryDecision,
};
use exograph_core::transaction::{
    operation_is_read_only, step_result, ConcreteTransactionStep, Database,
    DynamicTransactionStep, PhysicalColumn, PhysicalTable, SQLOperation, Select,
    TemplateFilterOperation, TemplateSQLOperation, TemplateTransactionStep, TemplateValue,
    TransactionContext, TransactionScript, TransactionStep, TransactionStepId, Write, WriteKind,
};
use exograph_core::value::{ConstValue, Number};
use tokio_postgres::error::SqlState;

fn num(n: u64) -> ConstValue {
    ConstValue::Number(Number::PosInt(n))
}

fn text(s: &str) -> ConstValue {
    ConstValue::String(s.to_string())
}

fn select_all(table_id: usize) -> Select {
    Select {
        table_id,
        columns: vec![ColumnId { table_id, column_index: 0 }],
        predicate: AbstractPredicate::True,
        order_by: None,
        offset: None,
        limit: None,
        top_level_selection: true,
    }
}

fn insert(table_id: usize, value: ConstValue) -> Write {
    Write {
        kind: WriteKind::Insert,
        table_id,
        assignments: vec![(ColumnId { table_id, column_index: 1 }, value)],
        predicate: AbstractPredicate::True,
    }
}

fn default_config() -> RetryConfig {
    RetryConfig::from_env(None, None, None)
}

type Dynamic = fn(&TransactionContext) -> ConcreteTransactionStep;

#[test]
fn retry_defaults_and_settings() {
    assert_eq!(
        default_config(),
        RetryConfig { max_retries: 2, base_backoff_ms: 50, max_backoff_ms: 500 }
    );
    assert_eq!(
        RetryConfig::from_env(Some("5"), Some("10"), Some("+1000")),
        RetryConfig { max_retries: 5, base_backoff_ms: 10, max_backoff_ms: 1000 }
    );
    assert_eq!(
        RetryConfig::from_env(Some("many"), Some(""), Some("-3")),
        RetryConfig { max_retries: 2, base_backoff_ms: 50, max_backoff_ms: 500 }
    );
    assert_eq!(
        RetryConfig::from_env(Some("4294967296"), Some("18446744073709551615"), Some(" 7")),
        RetryConfig { max_retries: 2, base_backoff_ms: 18446744073709551615, max_backoff_ms: 500 }
    );
}

#[test]
fn numbers_parse_as_the_standard_library_does() {
    for text in ["0", "7", "+7", "007", "4294967295", "4294967296", "", "+", "-1", "1 ", "1_0", "٣"] {
        assert_eq!(parse_number(text, u32::MAX as u64), text.parse::<u32>().ok().map(|v| v as u64));
        assert_eq!(parse_number(text, u64::MAX), text.parse::<u64>().ok());
    }
    assert_eq!(parse_number("18446744073709551615", u64::MAX), Some(u64::MAX));
    assert_eq!(parse_number("18446744073709551616", u64::MAX), None);
    assert_eq!(parse_number("99999999999999999999999", u64::MAX), None);
}

#[test]
fn backoff_cap_doubles_up_to_the_maximum() {
    assert_eq!(backoff_cap(0, 50, 500), 50);
    assert_eq!(backoff_cap(1, 50, 500), 50);
    assert_eq!(backoff_cap(2, 50, 500), 100);
    assert_eq!(backoff_cap(3, 50, 500), 200);
    assert_eq!(backoff_cap(4, 50, 500), 400);
    assert_eq!(backoff_cap(5, 50, 500), 500);
    assert_eq!(backoff_cap(200, 50, 500), 500);
    assert_eq!(backoff_cap(u32::MAX, 1, u64::MAX), u64::MAX);
    assert_eq!(backoff_cap(65, 1, u64::MAX), u64::MAX);
    assert_eq!(backoff_cap(64, 1, u64::MAX), 1u64 << 63);
    assert_eq!(backoff_cap(3, 0, 500), 0);
    assert_eq!(backoff_cap(3, 700, 500), 500);
    assert_eq!(backoff_cap(1, 500, 500), 500);
}

#[test]
fn backoff_is_half_the_cap_plus_jitter() {
    assert_eq!(backoff_from_jitter(1, 50, 500, 0), 25);
    assert_eq!(backoff_from_jitter(1, 50, 500, 25), 50);
    assert_eq!(backoff_from_jitter(3, 50, 500, 17), 117);
    assert_eq!(backoff_from_jitter(9, 50, 500, 250), 500);
    assert_eq!(backoff_from_jitter(2, 0, 500, 0), 0);
}

#[test]
fn drawn_backoff_stays_within_bounds() {
    for attempt in 0..12u32 {
        for _ in 0..50 {
            let cap = backoff_cap(attempt, 50, 500);
            let wait = retry_backoff_ms(attempt, 50, 500);
            assert!(cap / 2 <= wait && wait <= cap, "attempt {attempt}: {wait} not in [{}, {cap}]", cap / 2);
        }
    }
    let waits: Vec<u64> = (0..200).map(|_| retry_backoff_ms(4, 50, 500)).collect();
    assert!(waits.iter().any(|w| *w != waits[0]));
}

#[test]
fn transient_codes_are_those_of_the_driver() {
    for state in [
        SqlState::ADMIN_SHUTDOWN,
        SqlState::CRASH_SHUTDOWN,
        SqlState::CANNOT_CONNECT_NOW,
        SqlState::CONNECTION_FAILURE,
        SqlState::CONNECTION_DOES_NOT_EXIST,
    ] {
        assert!(is_retryable_db_error(Some(state.code())), "{}", state.code());
    }
    for state in [
        SqlState::UNIQUE_VIOLATION,
        SqlState::SYNTAX_ERROR,
        SqlState::CONNECTION_EXCEPTION,
        SqlState::QUERY_CANCELED,
        SqlState::T_R_SERIALIZATION_FAILURE,
    ] {
        assert!(!is_retryable_db_error(Some(state.code())), "{}", state.code());
    }
    assert_eq!(SqlState::CANNOT_CONNECT_NOW.code(), "57P03");
    assert!(!is_retryable_db_error(None));
    assert!(!is_retryable_db_error(Some("")));
}

#[test]
fn transient_read_is_retried_and_write_is_not() {
    let config = default_config();
    let read = SQLOperation::Select(select_all(0));
    let write = SQLOperation::Write(insert(0, num(1)));
    assert!(operation_is_read_only(&read));
    assert!(!operation_is_read_only(&write));
    match decide(&config, operation_is_read_only(&read), 0, Some("57P03")) {
        RetryDecision::Retry { attempt, backoff_ms } => {
            assert_eq!(attempt, 1);
            assert!((25..=50).contains(&backoff_ms));
        }
        RetryDecision::GiveUp => panic!("a transient failure of a read is retried"),
    }
    assert_eq!(
        decide(&config, operation_is_read_only(&write), 0, Some("57P03")),
        RetryDecision::GiveUp
    );
    assert_eq!(
        decide_with_jitter(&config, true, 0, Some("57P03"), 13),
        RetryDecision::Retry { attempt: 1, backoff_ms: 38 }
    );
    assert_eq!(
        decide_with_jitter(&config, true, 1, Some("08006"), 50),
        RetryDecision::Retry { attempt: 2, backoff_ms: 100 }
    );
    assert_eq!(decide_with_jitter(&config, true, 2, Some("57P03"), 0), RetryDecision::GiveUp);
    assert_eq!(decide_with_jitter(&config, true, 0, Some("23505"), 0), RetryDecision::GiveUp);
    assert_eq!(decide_with_jitter(&config, true, 0, None, 0), RetryDecision::GiveUp);
    assert_eq!(decide_with_jitter(&config, false, 0, Some("57P03"), 0), RetryDecision::GiveUp);
    let never = RetryConfig { max_retries: 0, ..config };
    assert!(!should_retry(&never, true, 0, Some("57P03")));
    assert!(should_retry(&config, true, 1, Some("57P01")));
    assert_eq!(
        failure(Some("57P03")),
        DatabaseError::Delegate {
            sqlstate: Some("57P03".to_string()),
            context: "Database operation failed".to_string()
        }
    );
}

#[test]
fn steps_are_named_by_their_position() {
    let mut script: TransactionScript<Dynamic> = TransactionScript::new();
    assert!(!script.needs_transaction());
    assert_eq!(script.len(), 0);
    let first = script.add_step(TransactionStep::Concrete(Box::new(ConcreteTransactionStep::new(
        SQLOperation::Write(insert(0, text("a"))),
    ))));
    assert_eq!(first, TransactionStepId(0));
    assert!(!script.needs_transaction());
    let second = script.add_step(TransactionStep::Precheck(select_all(0)));
    assert_eq!(second, TransactionStepId(1));
    assert!(script.needs_transaction());
    let third = script.add_step(TransactionStep::Filter(TemplateFilterOperation {
        prev_step_id: first,
        table_id: 0,
        predicate: AbstractPredicate::True,
    }));
    assert_eq!(third, TransactionStepId(2));
    let steps = script.into_steps();
    assert_eq!(steps.len(), 3);
    assert!(matches!(steps[0], TransactionStep::Concrete(_)));
    assert!(matches!(steps[1], TransactionStep::Precheck(_)));
    assert!(matches!(steps[2], TransactionStep::Filter(_)));
}

#[test]
fn context_keeps_results_by_step() {
    let mut context = TransactionContext::new();
    assert_eq!(context.step_count(), 0);
    assert_eq!(context.record(vec![vec![num(1), text("a")], vec![num(2), text("b")]]), TransactionStepId(0));
    assert_eq!(context.record(vec![]), TransactionStepId(1));
    assert_eq!(context.step_count(), 2);
    assert_eq!(context.row_count(TransactionStepId(0)), 2);
    assert_eq!(context.row_count(TransactionStepId(1)), 0);
    assert_eq!(context.column_count(TransactionStepId(0), 1), 2);
    assert_eq!(context.resolve_value(TransactionStepId(0), 1, 0), num(2));
    assert_eq!(context.resolve_value(TransactionStepId(0), 0, 1), text("a"));
    assert_eq!(context.into_last(), Ok(vec![]));
    assert_eq!(TransactionContext::new().into_last(), Err(DatabaseError::Transaction(String::new())));
}

fn people() -> Database {
    Database {
        tables: vec![PhysicalTable {
            name: "people".to_string(),
            columns: vec![
                PhysicalColumn { name: "id".to_string(), pg_type: "INT4".to_string(), is_pk: true },
                PhysicalColumn { name: "name".to_string(), pg_type: "TEXT".to_string(), is_pk: false },
                PhysicalColumn { name: "region".to_string(), pg_type: "TEXT".to_string(), is_pk: true },
            ],
        }],
        relations: vec![],
    }
}

#[test]
fn key_columns_are_found_in_order() {
    let database = people();
    assert_eq!(
        database.get_pk_column_ids(0),
        vec![ColumnId { table_id: 0, column_index: 0 }, ColumnId { table_id: 0, column_index: 2 }]
    );
    assert_eq!(database.get_pk_column_types(0), vec!["INT4".to_string(), "TEXT".to_string()]);
}

#[test]
fn filter_selects_keys_among_earlier_rows() {
    let database = people();
    let mut context = TransactionContext::new();
    let inserted = context.record(vec![vec![num(1), text("eu")], vec![num(2), text("us")]]);
    let base = AbstractPredicate::Compare(
        CompareOp::Eq,
        ColumnPath::Physical(PhysicalColumnPath::leaf(ColumnId { table_id: 0, column_index: 1 })),
        ColumnPath::Param(SqlParam::Value(text("Ada"))),
    );
    let filter = TemplateFilterOperation {
        prev_step_id: inserted,
        table_id: 0,
        predicate: base.duplicate(),
    };
    assert!(filter.is_resolvable(&context, &database));
    let step = filter.resolve(&context, &database);
    let key = |column_index: usize, values: Vec<ConstValue>, pg_type: &str| {
        AbstractPredicate::Compare(
            CompareOp::EqAny,
            ColumnPath::Physical(PhysicalColumnPath::leaf(ColumnId { table_id: 0, column_index })),
            ColumnPath::Param(SqlParam::Array { values, pg_type: pg_type.to_string() }),
        )
    };
    assert_eq!(
        step.operation,
        SQLOperation::Select(Select {
            table_id: 0,
            columns: vec![
                ColumnId { table_id: 0, column_index: 0 },
                ColumnId { table_id: 0, column_index: 2 }
            ],
            predicate: AbstractPredicate::And(
                Box::new(AbstractPredicate::And(
                    Box::new(base),
                    Box::new(key(0, vec![num(1), num(2)], "INT4")),
                )),
                Box::new(key(2, vec![text("eu"), text("us")], "TEXT")),
            ),
            order_by: None,
            offset: None,
            limit: None,
            top_level_selection: false,
        })
    );
    let short = TemplateFilterOperation {
        prev_step_id: TransactionStepId(1),
        table_id: 0,
        predicate: AbstractPredicate::True,
    };
    assert!(!short.is_resolvable(&context, &database));
    context.record(vec![vec![num(1)]]);
    assert!(!short.is_resolvable(&context, &database));
    let elsewhere = TemplateFilterOperation {
        prev_step_id: inserted,
        table_id: 3,
        predicate: AbstractPredicate::True,
    };
    assert!(!elsewhere.is_resolvable(&context, &database));
}

#[test]
fn template_makes_one_statement_for_each_earlier_row() {
    let mut context = TransactionContext::new();
    let parents = context.record(vec![vec![num(10)], vec![num(11)], vec![num(12)]]);
    let template = TemplateTransactionStep {
        operation: TemplateSQLOperation {
            kind: WriteKind::Update,
            table_id: 1,
            assignments: vec![
                (ColumnId { table_id: 1, column_index: 1 }, TemplateValue::Concrete(text("x"))),
                (
                    ColumnId { table_id: 1, column_index: 2 },
                    TemplateValue::StepColumn { step_id: parents, col: 0 },
                ),
            ],
            predicate: AbstractPredicate::True,
        },
        prev_step_id: parents,
    };
    assert!(template.is_resolvable(&context));
    let steps = template.resolve(&context);
    assert_eq!(steps.len(), 3);
    for (row, step) in steps.iter().enumerate() {
        assert_eq!(
            step.operation,
            SQLOperation::Write(Write {
                kind: WriteKind::Update,
                table_id: 1,
                assignments: vec![
                    (ColumnId { table_id: 1, column_index: 1 }, text("x")),
                    (ColumnId { table_id: 1, column_index: 2 }, num(10 + row as u64)),
                ],
                predicate: AbstractPredicate::True,
            })
        );
    }
    let out_of_row = TemplateTransactionStep {
        operation: TemplateSQLOperation {
            kind: WriteKind::Update,
            table_id: 1,
            assignments: vec![(
                ColumnId { table_id: 1, column_index: 2 },
                TemplateValue::StepColumn { step_id: parents, col: 1 },
            )],
            predicate: AbstractPredicate::True,
        },
        prev_step_id: parents,
    };
    assert!(!out_of_row.is_resolvable(&context));
    let too_early = TemplateTransactionStep {
        operation: TemplateSQLOperation {
            kind: WriteKind::Delete,
            table_id: 1,
            assignments: vec![],
            predicate: AbstractPredicate::True,
        },
        prev_step_id: TransactionStepId(4),
    };
    assert!(!too_early.is_resolvable(&context));
}

fn count_rows(context: &TransactionContext) -> ConcreteTransactionStep {
    ConcreteTransactionStep::new(SQLOperation::Write(insert(
        9,
        num(context.row_count(TransactionStepId(0)) as u64),
    )))
}

#[test]
fn steps_plan_their_statements() {
    let database = people();
    let mut context = TransactionContext::new();
    context.record(vec![vec![num(1), text("eu")]]);
    let concrete: TransactionStep<Dynamic> = TransactionStep::Concrete(Box::new(
        ConcreteTransactionStep::new(SQLOperation::Select(select_all(0))),
    ));
    let plan = concrete.plan(&database, &context);
    assert!(!plan.precheck);
    assert_eq!(plan.operations, vec![ConcreteTransactionStep::new(SQLOperation::Select(select_all(0)))]);

    let precheck: TransactionStep<Dynamic> = TransactionStep::Precheck(select_all(0));
    let plan = precheck.plan(&database, &context);
    assert!(plan.precheck);
    assert_eq!(plan.operations, vec![ConcreteTransactionStep::new(SQLOperation::Select(select_all(0)))]);

    let dynamic: TransactionStep<Dynamic> =
        TransactionStep::Dynamic(DynamicTransactionStep { function: count_rows });
    let plan = dynamic.plan(&database, &context);
    assert!(!plan.precheck);
    assert_eq!(
        plan.operations,
        vec![ConcreteTransactionStep::new(SQLOperation::Write(insert(9, num(1))))]
    );

    let step = DynamicTransactionStep {
        function: |context: &TransactionContext| {
            ConcreteTransactionStep::new(SQLOperation::Write(insert(
                2,
                context.resolve_value(TransactionStepId(0), 0, 1),
            )))
        },
    };
    assert_eq!(
        step.resolve(&context),
        ConcreteTransactionStep::new(SQLOperation::Write(insert(2, text("eu"))))
    );

    let filter: TransactionStep<Dynamic> = TransactionStep::Filter(TemplateFilterOperation {
        prev_step_id: TransactionStepId(0),
        table_id: 0,
        predicate: AbstractPredicate::True,
    });
    let plan = filter.plan(&database, &context);
    assert_eq!(plan.operations.len(), 1);
    assert!(operation_is_read_only(&plan.operations[0].operation));

    let template: TransactionStep<Dynamic> = TransactionStep::Template(TemplateTransactionStep {
        operation: TemplateSQLOperation {
            kind: WriteKind::Delete,
            table_id: 1,
            assignments: vec![],
            predicate: AbstractPredicate::True,
        },
        prev_step_id: TransactionStepId(0),
    });
    assert_eq!(template.plan(&database, &context).operations.len(), 1);
}

#[test]
fn precheck_wants_exactly_one_row() {
    assert_eq!(step_result(true, vec![vec![num(1)]]), Ok(vec![vec![num(1)]]));
    assert_eq!(
        step_result(true, vec![]),
        Err(DatabaseError::Precheck("Expected 1 row, got 0".to_string()))
    );
    assert_eq!(
        step_result(true, vec![vec![], vec![], vec![]]),
        Err(DatabaseError::Precheck("Expected 1 row, got 3".to_string()))
    );
    let many: Vec<Vec<ConstValue>> = (0..120).map(|_| vec![]).collect();
    assert_eq!(
        step_result(true, many),
        Err(DatabaseError::Precheck("Expected 1 row, got 120".to_string()))
    );
    assert_eq!(step_result(false, vec![]), Ok(vec![]));
    assert_eq!(step_result(false, vec![vec![], vec![]]), Ok(vec![vec![], vec![]]));
    assert_eq!(
        PostgresExecutionError::from_database(DatabaseError::Precheck("Expected 1 row, got 0".to_string())),
        PostgresExecutionError::Authorization
    );
    assert_eq!(
        PostgresExecutionError::from_database(failure(None)),
        PostgresExecutionError::Postgres(failure(None))
    );
}

#[test]
fn pool_config_builders_set_one_value_each() {
    assert_eq!(PoolConfig::new(), PoolConfig::default());
    assert_eq!(
        PoolConfig::new(),
        PoolConfig {
            max_size: None,
            wait_timeout_secs: None,
            create_timeout_secs: None,
            recycle_timeout_secs: None,
            max_lifetime_secs: None,
        }
    );
    let config = PoolConfig::new()
        .with_max_size(3)
        .with_wait_timeout(4)
        .with_create_timeout(5)
        .with_recycle_timeout(6)
        .with_max_lifetime(7);
    assert_eq!(
        config,
        PoolConfig {
            max_size: Some(3),
            wait_timeout_secs: Some(4),
            create_timeout_secs: Some(5),
            recycle_timeout_secs: Some(6),
            max_lifetime_secs: Some(7),
        }
    );
    assert_eq!(PoolConfig::new().with_max_size(3).with_max_size(8).max_size, Some(8));
    assert_eq!(PoolConfig::sized(Some(2)), PoolConfig::new().with_max_size(2));
    assert_eq!(PoolConfig::sized(None), PoolConfig::new());
}

#[test]
fn pool_settings_fill_in_defaults() {
    assert_eq!(
        PoolConfig::new().settings(),
        PoolSettings {
            max_size: 10,
            wait_timeout_secs: 30,
            create_timeout_secs: 10,
            recycle_timeout_secs: 5,
            max_lifetime_secs: 900,
        }
    );
    assert_eq!(
        PoolConfig::new().with_max_lifetime(60).with_wait_timeout(1).settings(),
        PoolSettings {
            max_size: 10,
            wait_timeout_secs: 1,
            create_timeout_secs: 10,
            recycle_timeout_secs: 5,
            max_lifetime_secs: 60,
        }
    );
}

#[test]
fn old_connections_are_rejected() {
    assert_eq!(pre_recycle(899, 999_999_999, 900), RecycleDecision::Keep);
    assert_eq!(pre_recycle(900, 0, 900), RecycleDecision::Keep);
    assert_eq!(pre_recycle(900, 1, 900), RecycleDecision::Reject);
    assert_eq!(pre_recycle(901, 0, 900), RecycleDecision::Reject);
    assert_eq!(pre_recycle(0, 0, 0), RecycleDecision::Keep);
}

#[test]
fn tls_needs_a_tcp_host() {
    assert!(use_tls(true, &vec![HostKind::Unix, HostKind::Tcp]));
    assert!(!use_tls(true, &vec![HostKind::Unix]));
    assert!(!use_tls(true, &vec![]));
    assert!(!use_tls(false, &vec![HostKind::Tcp]));
}

#[test]
fn pool_status_is_consistent() {
    let status = PoolStatus::new(10, 4, 3, 0).unwrap();
    assert_eq!(status.max_size(), 10);
    assert_eq!(status.size(), 4);
    assert_eq!(status.available(), 3);
    assert_eq!(status.waiting(), 0);
    assert_eq!(status.in_use(), 1);
    assert!(status.available() <= status.size() && status.size() <= status.max_size());
    assert!(PoolStatus::new(10, 10, 0, 7).is_some());
    assert!(PoolStatus::new(0, 0, 0, 0).is_some());
    assert_eq!(PoolStatus::new(10, 4, 5, 0), None);
    assert_eq!(PoolStatus::new(10, 11, 5, 0), None);
}

fn run_script(
    script: TransactionScript<Dynamic>,
    database: &Database,
    mut answer: impl FnMut(&SQLOperation) -> Result<Vec<Vec<ConstValue>>, DatabaseError>,
) -> (Vec<SQLOperation>, Result<Vec<Vec<ConstValue>>, DatabaseError>) {
    let mut run = exograph_core::script_run::ScriptExecution::new(script);
    let mut sent = vec![];
    let mut action = run.advance(database, None);
    loop {
        match action {
            exograph_core::script_run::ScriptAction::Done(outcome) => {
                assert_eq!(
                    match run.advance(database, None) {
                        exograph_core::script_run::ScriptAction::Done(again) => again,
                        _ => panic!("a run that has ended stays ended"),
                    },
                    Err(DatabaseError::Transaction("The script has ended".to_string()))
                );
                return (sent, outcome);
            }
            exograph_core::script_run::ScriptAction::Run(step) => {
                let outcome = answer(&step.operation);
                sent.push(step.operation);
                action = run.advance(database, Some(outcome));
            }
        }
        assert!(sent.len() < 20);
    }
}

fn update_by(parent: TransactionStepId) -> TransactionStep<Dynamic> {
    TransactionStep::Template(TemplateTransactionStep {
        operation: TemplateSQLOperation {
            kind: WriteKind::Update,
            table_id: 0,
            assignments: vec![(
                ColumnId { table_id: 0, column_index: 1 },
                TemplateValue::StepColumn { step_id: parent, col: 0 },
            )],
            predicate: AbstractPredicate::True,
        },
        prev_step_id: parent,
    })
}

fn update_to(n: u64) -> SQLOperation {
    SQLOperation::Write(Write {
        kind: WriteKind::Update,
        table_id: 0,
        assignments: vec![(ColumnId { table_id: 0, column_index: 1 }, num(n))],
        predicate: AbstractPredicate::True,
    })
}

#[test]
fn script_runs_its_steps_in_order() {
    let database = people();
    let mut script: TransactionScript<Dynamic> = TransactionScript::new();
    let first = script.add_step(TransactionStep::Concrete(Box::new(ConcreteTransactionStep::new(
        SQLOperation::Write(insert(0, text("a"))),
    ))));
    script.add_step(update_by(first));
    script.add_step(TransactionStep::Dynamic(DynamicTransactionStep { function: count_rows }));
    script.add_step(TransactionStep::Precheck(select_all(0)));
    script.add_step(TransactionStep::Filter(TemplateFilterOperation {
        prev_step_id: first,
        table_id: 0,
        predicate: AbstractPredicate::True,
    }));
    let mut calls = 0;
    let (sent, outcome) = run_script(script, &database, |_| {
        calls += 1;
        Ok(match calls {
            1 => vec![vec![num(10), text("eu")], vec![num(11), text("us")]],
            2 => vec![vec![text("dropped")]],
            3 => vec![vec![text("kept")]],
            4 => vec![],
            5 => vec![vec![num(1)]],
            _ => vec![vec![num(10), text("eu")]],
        })
    });
    assert_eq!(outcome, Ok(vec![vec![num(10), text("eu")]]));
    assert_eq!(sent.len(), 6);
    assert_eq!(sent[0], SQLOperation::Write(insert(0, text("a"))));
    assert_eq!(sent[1], update_to(10));
    assert_eq!(sent[2], update_to(11));
    assert_eq!(sent[3], SQLOperation::Write(insert(9, num(2))));
    assert_eq!(sent[4], SQLOperation::Select(select_all(0)));
    assert!(operation_is_read_only(&sent[5]));
}

#[test]
fn script_stops_at_the_first_failure() {
    let database = people();
    let script = || {
        let mut script: TransactionScript<Dynamic> = TransactionScript::new();
        let first = script.add_step(TransactionStep::Precheck(select_all(0)));
        script.add_step(update_by(first));
        script.add_step(TransactionStep::Precheck(select_all(1)));
        script
    };
    let (sent, outcome) = run_script(script(), &database, |_| Ok(vec![]));
    assert_eq!(sent.len(), 1);
    assert_eq!(outcome, Err(DatabaseError::Precheck("Expected 1 row, got 0".to_string())));
    let (sent, outcome) = run_script(script(), &database, |_| Err(failure(Some("23505"))));
    assert_eq!(sent.len(), 1);
    assert_eq!(outcome, Err(failure(Some("23505"))));
    let mut calls = 0;
    let (sent, outcome) = run_script(script(), &database, |_| {
        calls += 1;
        if calls == 2 {
            Err(failure(None))
        } else {
            Ok(vec![vec![num(7)]])
        }
    });
    assert_eq!(sent, vec![SQLOperation::Select(select_all(0)), update_to(7)]);
    assert_eq!(outcome, Err(failure(None)));
}

#[test]
fn template_over_no_rows_is_skipped() {
    let database = people();
    let mut script: TransactionScript<Dynamic> = TransactionScript::new();
    let first = script.add_step(TransactionStep::Concrete(Box::new(ConcreteTransactionStep::new(
        SQLOperation::Select(select_all(0)),
    ))));
    script.add_step(update_by(first));
    let (sent, outcome) = run_script(script, &database, |_| Ok(vec![]));
    assert_eq!(sent, vec![SQLOperation::Select(select_all(0))]);
    assert_eq!(outcome, Ok(vec![]));

    let empty: TransactionScript<Dynamic> = TransactionScript::new();
    let (sent, outcome) = run_script(empty, &database, |_| Ok(vec![]));
    assert!(sent.is_empty());
    assert_eq!(outcome, Err(DatabaseError::Transaction(String::new())));

    let mut dangling: TransactionScript<Dynamic> = TransactionScript::new();
    dangling.add_step(update_by(TransactionStepId(3)));
    let (sent, outcome) = run_script(dangling, &database, |_| Ok(vec![]));
    assert!(sent.is_empty());
    assert_eq!(
        outcome,
        Err(DatabaseError::Transaction("A step refers to a result that is not there".to_string()))
    );
}

#[test]
fn run_refuses_outcomes_out_of_turn() {
    let database = people();
    let mut script: TransactionScript<Dynamic> = TransactionScript::new();
    script.add_step(TransactionStep::Precheck(select_all(0)));
    let mut run = exograph_core::script_run::ScriptExecution::new(script);
    let misuse = Err(DatabaseError::Transaction(
        "The run was given an outcome that it did not await, or none that it awaited".to_string(),
    ));
    match run.advance(&database, Some(Ok(vec![]))) {
        exograph_core::script_run::ScriptAction::Done(outcome) => assert_eq!(outcome, misuse),
        _ => panic!("no outcome is awaited at the start"),
    }
    let mut script: TransactionScript<Dynamic> = TransactionScript::new();
    script.add_step(TransactionStep::Precheck(select_all(0)));
    let mut run = exograph_core::script_run::ScriptExecution::new(script);
    assert!(matches!(
        run.advance(&database, None),
        exograph_core::script_run::ScriptAction::Run(_)
    ));
    match run.advance(&database, None) {
        exograph_core::script_run::ScriptAction::Done(outcome) => assert_eq!(outcome, misuse),
        _ => panic!("an outcome is awaited"),
    }
}
