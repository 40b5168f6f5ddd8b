use md2pdf::config::{ConfigError, EnvVars};
use md2pdf::queue::{
    get_job_queue_config, job_publish_error, status_publish_error, subscribe_error, QueueRole, QueueSetup,
    SetupAction, SetupEvent, SetupStage, AMQP_PORT, JOB_QUEUE_CONSUMER_TAG, STATUS_QUEUE_CONSUMER_TAG,
};
use md2pdf::id::Uuid;
use md2pdf::result;

fn full_env() -> EnvVars {
    let mut env = EnvVars::new();
    for (k, v) in [
        ("RABBITMQ_HOST", "rabbit"),
        ("RABBITMQ_USERNAME", "user"),
        ("RABBITMQ_PASSWORD", "secret"),
        ("QUEUE_JOBS", "jobs"),
        ("QUEUE_JOBS_DURABLE", "true"),
        ("QUEUE_JOBS_ROUTING_KEY", "job-key"),
        ("EXCHANGE_NAME", "md2pdf"),
        ("QUEUE_STATUS", "status"),
        ("QUEUE_STATUS_DURABLE", "false"),
        ("QUEUE_STATUS_ROUTING_KEY", "status-key"),
    ] {
        env.push(k.to_string(), v.to_string());
    }
    env
}

#[test]
fn config_reads_every_setting() {
    let (c, q) = get_job_queue_config(&full_env()).unwrap();
    assert_eq!(c.host, "rabbit");
    assert_eq!(c.username, "user");
    assert_eq!(c.password, "secret");
    assert_eq!(q.jobs.name, "jobs");
    assert!(q.jobs.durable);
    assert_eq!(q.jobs.routing_key, "job-key");
    assert_eq!(q.jobs.exchange, "md2pdf");
    assert_eq!(q.status.name, "status");
    assert!(!q.status.durable);
    assert_eq!(q.status.routing_key, "status-key");
    // Both queues share the exchange.
    assert_eq!(q.status.exchange, q.jobs.exchange);
}

#[test]
fn config_first_variable_wins() {
    let mut env = full_env();
    env.push("RABBITMQ_HOST".to_string(), "other".to_string());
    let (c, _) = get_job_queue_config(&env).unwrap();
    assert_eq!(c.host, "rabbit");
}

#[test]
fn config_missing_variable() {
    let mut env = EnvVars::new();
    env.push("RABBITMQ_HOST".to_string(), "h".to_string());
    let e = get_job_queue_config(&env).unwrap_err();
    assert_eq!(e, ConfigError::MissingVar { name: "RABBITMQ_USERNAME".to_string() });
    assert_eq!(e.to_string(), "RABBITMQ_USERNAME must be set!");
}

#[test]
fn config_malformed_boolean() {
    let mut env = EnvVars::new();
    for (k, v) in [
        ("RABBITMQ_HOST", "h"),
        ("RABBITMQ_USERNAME", "u"),
        ("RABBITMQ_PASSWORD", "p"),
        ("QUEUE_JOBS", "jobs"),
        ("QUEUE_JOBS_DURABLE", "yes"),
    ] {
        env.push(k.to_string(), v.to_string());
    }
    let e = get_job_queue_config(&env).unwrap_err();
    assert_eq!(e, ConfigError::InvalidBool { name: "QUEUE_JOBS_DURABLE".to_string(), value: "yes".to_string() });
    assert_eq!(e.to_string(), "QUEUE_JOBS_DURABLE must be true or false!");
}

fn describe(a: &SetupAction) -> String {
    match a {
        SetupAction::OpenConnection { host, port, username, password } => {
            format!("open {host}:{port} {username}/{password}")
        }
        SetupAction::RegisterConnectionCallback => "connection-callback".to_string(),
        SetupAction::OpenChannel => "channel".to_string(),
        SetupAction::RegisterChannelCallback => "channel-callback".to_string(),
        SetupAction::DeclareQueue { name, durable } => format!("queue {name} {durable}"),
        SetupAction::DeclareExchange { name, kind } => format!("exchange {name} {kind}"),
        SetupAction::BindQueue { queue, exchange, routing_key } => format!("bind {queue} {exchange} {routing_key}"),
        SetupAction::Finish => "finish".to_string(),
        SetupAction::Abort { message } => format!("abort {message}"),
    }
}

#[test]
fn setup_succeeds_in_order() {
    let (c, q) = get_job_queue_config(&full_env()).unwrap();
    let mut setup = QueueSetup::new(c, q);
    let mut seen = Vec::new();
    while !setup.is_over() {
        seen.push(describe(&setup.action()));
        setup.advance(SetupEvent::Done);
    }
    seen.push(describe(&setup.action()));
    assert_eq!(
        seen,
        vec![
            "open rabbit:5672 user/secret",
            "connection-callback",
            "channel",
            "channel-callback",
            "queue jobs true",
            "exchange md2pdf direct",
            "bind jobs md2pdf job-key",
            "queue status false",
            "exchange md2pdf direct",
            "bind status md2pdf status-key",
            "finish",
        ]
    );
    assert_eq!(AMQP_PORT, 5672);
    assert_eq!(setup.stage, SetupStage::Finished);
    // An ended set-up stays as it is.
    setup.advance(SetupEvent::Failed);
    assert_eq!(setup.stage, SetupStage::Finished);
}

fn run_until(fail_at: usize, event: SetupEvent) -> String {
    let (c, q) = get_job_queue_config(&full_env()).unwrap();
    let mut setup = QueueSetup::new(c, q);
    for _ in 0..fail_at {
        setup.advance(SetupEvent::Done);
    }
    setup.advance(event);
    assert!(setup.is_over());
    describe(&setup.action())
}

#[test]
fn setup_failures_abort_with_their_message() {
    assert_eq!(run_until(0, SetupEvent::Failed), "abort Could not create a connection to rabbitmq");
    assert_eq!(
        run_until(1, SetupEvent::Failed),
        "abort Could not register a default callback on the connection."
    );
    assert_eq!(run_until(2, SetupEvent::Failed), "abort Could not create a channel.");
    assert_eq!(run_until(3, SetupEvent::Failed), "abort Could not register a default callback on the channel.");
    assert_eq!(run_until(4, SetupEvent::Failed), "abort Could not create a 'jobs' queue [durable: true].");
    assert_eq!(run_until(4, SetupEvent::NoQueueInfo), "abort called `Option::unwrap()` on a `None` value");
    assert_eq!(run_until(5, SetupEvent::Failed), "abort Could not declare direct exchange 'md2pdf'.");
    assert_eq!(run_until(6, SetupEvent::Failed), "abort Could not bind queue 'jobs' to exchange 'md2pdf'.");
    assert_eq!(run_until(7, SetupEvent::Failed), "abort Could not create a 'status' queue [durable: false].");
    assert_eq!(run_until(9, SetupEvent::Failed), "abort Could not bind queue 'status' to exchange 'md2pdf'.");
}

#[test]
fn no_queue_info_elsewhere_counts_as_done() {
    let (c, q) = get_job_queue_config(&full_env()).unwrap();
    let mut setup = QueueSetup::new(c, q);
    setup.advance(SetupEvent::NoQueueInfo);
    assert_eq!(setup.stage, SetupStage::RegisterConnectionCallback);
}

#[test]
fn publish_plans_and_errors() {
    let (_, q) = get_job_queue_config(&full_env()).unwrap();
    let p = q.jobs.publish_plan();
    assert_eq!(p.exchange, "md2pdf");
    assert_eq!(p.routing_key, "job-key");
    assert_eq!(p.content_encoding, "utf-8");
    assert_eq!(p.content_type, "application/json");
    assert!(p.persistent);

    let id = Uuid::from_u128(0x67e55044_10b1_426f_9247_bb680e5fe0c8);
    let e = job_publish_error(&id, "closed".to_string());
    assert_eq!(e.to_string(), "Queue Error: Could not publish job id '67e55044-10b1-426f-9247-bb680e5fe0c8'.");
    match e {
        result::Error::Queue { source, .. } => assert_eq!(source, "closed"),
        _ => panic!("not a queue error"),
    }
    let e = status_publish_error(&id, "x".to_string());
    assert_eq!(
        e.to_string(),
        "Queue Error: Could not publish status message job id '67e55044-10b1-426f-9247-bb680e5fe0c8'."
    );
    assert_eq!(subscribe_error("x".to_string()).to_string(), "Queue Error: Subscribe failed.");
}

#[test]
fn consumer_tags() {
    let (_, q) = get_job_queue_config(&full_env()).unwrap();
    let p = QueueRole::Jobs.subscribe_plan(&q);
    assert_eq!(p.queue, "jobs");
    assert_eq!(p.consumer_tag, JOB_QUEUE_CONSUMER_TAG);
    assert!(p.manual_ack);
    let p = QueueRole::Status.subscribe_plan(&q);
    assert_eq!(p.queue, "status");
    assert_eq!(p.consumer_tag, "status-consumer");
    assert_eq!(QueueRole::Jobs.subscribe_tag(), "job-consumer");
    // Unsubscribing cancels the status queue's consumer tag for either queue.
    assert_eq!(QueueRole::Jobs.unsubscribe_tag(), STATUS_QUEUE_CONSUMER_TAG);
    assert_eq!(QueueRole::Status.unsubscribe_tag(), STATUS_QUEUE_CONSUMER_TAG);
}

#[test]
fn result_error_texts() {
    assert_eq!(result::Error::IO { source: "x".to_string() }.to_string(), "IO");
    assert_eq!(
        result::Error::DB { message: "m".to_string(), source: "s".to_string() }.to_string(),
        "Database Error: m"
    );
    assert_eq!(
        result::Error::Generic { message: "g".to_string(), source: None }.to_string(),
        "Generic Error: g"
    );
}
