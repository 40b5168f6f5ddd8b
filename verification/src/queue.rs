//! Configuration of the message queues and the decisions taken while they are
//! set up, published to and subscribed to.

use vstd::prelude::*;
use crate::config::{lookup, parse_bool, parse_bool_text, ConfigError, EnvVars};
use crate::id::{hyphenated, Uuid};
use crate::text::{bool_str, bool_text, concat3, concat5};
use crate::result;

verus! {

/// How to reach the message broker.
#[derive(Clone, Debug)]
pub struct Credentials {
    pub host: String,
    pub password: String,
    pub username: String,
}

/// One queue: its name, whether it survives a broker restart, and the
/// exchange and routing key that feed it.
#[derive(Clone, Debug)]
pub struct QueueConfig {
    pub name: String,
    pub durable: bool,
    pub routing_key: String,
    pub exchange: String,
}

/// The two queues of the service.
#[derive(Clone, Debug)]
pub struct QueuesConfig {
    pub jobs: QueueConfig,
    pub status: QueueConfig,
}

/// The settings read, in the order they are read: the name of the variable
/// and whether it holds a boolean.
pub open spec fn queue_settings() -> Seq<(Seq<char>, bool)> {
    seq![
        ("RABBITMQ_HOST"@, false),
        ("RABBITMQ_USERNAME"@, false),
        ("RABBITMQ_PASSWORD"@, false),
        ("QUEUE_JOBS"@, false),
        ("QUEUE_JOBS_DURABLE"@, true),
        ("QUEUE_JOBS_ROUTING_KEY"@, false),
        ("EXCHANGE_NAME"@, false),
        ("QUEUE_STATUS"@, false),
        ("QUEUE_STATUS_DURABLE"@, true),
        ("QUEUE_STATUS_ROUTING_KEY"@, false),
        ("EXCHANGE_NAME"@, false),
    ]
}

/// The setting is present, and well formed if it is a boolean.
pub open spec fn setting_ok(vars: Seq<(String, String)>, s: (Seq<char>, bool)) -> bool {
    lookup(vars, s.0) matches Some(v) && (s.1 ==> parse_bool(v) is Some)
}

/// The value of a present setting.
pub open spec fn setting(vars: Seq<(String, String)>, name: Seq<char>) -> Seq<char> {
    lookup(vars, name).unwrap()
}

/// The value of a present boolean setting.
pub open spec fn bool_setting(vars: Seq<(String, String)>, name: Seq<char>) -> bool {
    parse_bool(setting(vars, name)).unwrap()
}

/// The name and kind of the `k`-th setting read.
fn setting_at(k: usize) -> (r: (&'static str, bool))
    requires
        k < 11,
    ensures
        r.0@ == queue_settings()[k as int].0,
        r.1 == queue_settings()[k as int].1,
{
    match k {
        0 => ("RABBITMQ_HOST", false),
        1 => ("RABBITMQ_USERNAME", false),
        2 => ("RABBITMQ_PASSWORD", false),
        3 => ("QUEUE_JOBS", false),
        4 => ("QUEUE_JOBS_DURABLE", true),
        5 => ("QUEUE_JOBS_ROUTING_KEY", false),
        6 => ("EXCHANGE_NAME", false),
        7 => ("QUEUE_STATUS", false),
        8 => ("QUEUE_STATUS_DURABLE", true),
        9 => ("QUEUE_STATUS_ROUTING_KEY", false),
        _ => ("EXCHANGE_NAME", false),
    }
}

/// Reads the broker credentials and the two queue configurations from the
/// environment. Both queues use the exchange `EXCHANGE_NAME`. The settings are
/// read in the order of `queue_settings()`; the first one that is missing, or
/// is a boolean that is neither `true` nor `false`, is the error.
pub fn get_job_queue_config(env: &EnvVars) -> (r: Result<(Credentials, QueuesConfig), ConfigError>)
    ensures
        r is Ok <==> (forall|k: int| 0 <= k < 11 ==> setting_ok(env.vars@, #[trigger] queue_settings()[k])),
        r matches Err(e) ==> exists|k: int|
            0 <= k < 11 && (forall|j: int| 0 <= j < k ==> setting_ok(env.vars@, #[trigger] queue_settings()[j]))
                && !setting_ok(env.vars@, #[trigger] queue_settings()[k])
                && e.describes(env.vars@, queue_settings()[k].0, queue_settings()[k].1),
        r matches Ok((c, q)) ==> {
            let v = env.vars@;
            &&& c.host@ == setting(v, "RABBITMQ_HOST"@)
            &&& c.username@ == setting(v, "RABBITMQ_USERNAME"@)
            &&& c.password@ == setting(v, "RABBITMQ_PASSWORD"@)
            &&& q.jobs.name@ == setting(v, "QUEUE_JOBS"@)
            &&& q.jobs.durable == bool_setting(v, "QUEUE_JOBS_DURABLE"@)
            &&& q.jobs.routing_key@ == setting(v, "QUEUE_JOBS_ROUTING_KEY"@)
            &&& q.jobs.exchange@ == setting(v, "EXCHANGE_NAME"@)
            &&& q.status.name@ == setting(v, "QUEUE_STATUS"@)
            &&& q.status.durable == bool_setting(v, "QUEUE_STATUS_DURABLE"@)
            &&& q.status.routing_key@ == setting(v, "QUEUE_STATUS_ROUTING_KEY"@)
            &&& q.status.exchange@ == setting(v, "EXCHANGE_NAME"@)
        },
        r matches Ok((c, q)) ==> q.jobs.exchange@ == q.status.exchange@,
{
    let ghost vars = env.vars@;
    let mut values: Vec<String> = Vec::new();
    let mut k: usize = 0;
    while k < 11
        invariant
            vars == env.vars@,
            k <= 11,
            values@.len() == k,
            forall|j: int| 0 <= j < k ==> setting_ok(vars, #[trigger] queue_settings()[j]),
            forall|j: int| 0 <= j < k ==> #[trigger] values@[j]@ == setting(vars, queue_settings()[j].0),
        decreases 11 - k,
    {
        let (name, is_bool) = setting_at(k);
        match env.get(name) {
            None => {
                let e = ConfigError::MissingVar { name: String::from_str(name) };
                assert(!setting_ok(vars, queue_settings()[k as int]));
                return Err(e);
            },
            Some(v) => {
                if is_bool && parse_bool_text(v.as_str()).is_none() {
                    let e = ConfigError::InvalidBool { name: String::from_str(name), value: v };
                    assert(!setting_ok(vars, queue_settings()[k as int]));
                    return Err(e);
                }
                values.push(v);
            },
        }
        k = k + 1;
    }
    let jobs_durable = parse_bool_text(values[4].as_str());
    let status_durable = parse_bool_text(values[8].as_str());
    proof {
        assert(setting_ok(vars, queue_settings()[4]));
        assert(setting_ok(vars, queue_settings()[8]));
        assert(values@[4]@ == setting(vars, queue_settings()[4].0));
        assert(values@[8]@ == setting(vars, queue_settings()[8].0));
    }
    let credentials = Credentials {
        host: values[0].clone(),
        username: values[1].clone(),
        password: values[2].clone(),
    };
    let jobs = QueueConfig {
        name: values[3].clone(),
        durable: jobs_durable.unwrap(),
        routing_key: values[5].clone(),
        exchange: values[6].clone(),
    };
    let status = QueueConfig {
        name: values[7].clone(),
        durable: status_durable.unwrap(),
        routing_key: values[9].clone(),
        exchange: values[10].clone(),
    };
    proof {
        assert(values@[0]@ == setting(vars, queue_settings()[0].0));
        assert(values@[1]@ == setting(vars, queue_settings()[1].0));
        assert(values@[2]@ == setting(vars, queue_settings()[2].0));
        assert(values@[3]@ == setting(vars, queue_settings()[3].0));
        assert(values@[5]@ == setting(vars, queue_settings()[5].0));
        assert(values@[6]@ == setting(vars, queue_settings()[6].0));
        assert(values@[7]@ == setting(vars, queue_settings()[7].0));
        assert(values@[9]@ == setting(vars, queue_settings()[9].0));
        assert(values@[10]@ == setting(vars, queue_settings()[10].0));
    }
    Ok((credentials, QueuesConfig { jobs, status }))
}

/// The port of the message broker.
pub const AMQP_PORT: u16 = 5672;

/// Which of the two queues.
#[derive(Copy, Clone, Debug, PartialEq, Eq)]
pub enum QueueRole {
    Jobs,
    Status,
}

impl QueuesConfig {
    /// The configuration of the queue in the given role.
    pub open spec fn spec_of(&self, role: QueueRole) -> QueueConfig {
        match role {
            QueueRole::Jobs => self.jobs,
            QueueRole::Status => self.status,
        }
    }

    /// The configuration of the queue in the given role.
    pub fn of(&self, role: QueueRole) -> (c: &QueueConfig)
        ensures
            *c == self.spec_of(role),
    {
        match role {
            QueueRole::Jobs => &self.jobs,
            QueueRole::Status => &self.status,
        }
    }
}

/// Which step of the set-up failed.
#[derive(Copy, Clone, Debug, PartialEq, Eq)]
pub enum AbortReason {
    Connection,
    ConnectionCallback,
    Channel,
    ChannelCallback,
    /// Declaring the queue was refused.
    Queue(QueueRole),
    /// Declaring the queue gave no information back.
    QueueReply(QueueRole),
    Exchange(QueueRole),
    Binding(QueueRole),
}

/// Where the set-up of the queues stands: the step to do next, or the end.
#[derive(Copy, Clone, Debug, PartialEq, Eq)]
pub enum SetupStage {
    OpenConnection,
    RegisterConnectionCallback,
    OpenChannel,
    RegisterChannelCallback,
    DeclareQueue(QueueRole),
    DeclareExchange(QueueRole),
    BindQueue(QueueRole),
    Finished,
    Aborted(AbortReason),
}

/// How the last step went.
#[derive(Copy, Clone, Debug, PartialEq, Eq)]
pub enum SetupEvent {
    /// The step succeeded.
    Done,
    /// The step failed.
    Failed,
    /// The queue declaration succeeded but reported nothing about the queue.
    NoQueueInfo,
}

/// What the caller must do next.
#[derive(Debug)]
pub enum SetupAction {
    OpenConnection { host: String, port: u16, username: String, password: String },
    RegisterConnectionCallback,
    OpenChannel,
    RegisterChannelCallback,
    /// Declare the queue: a durable, client-named one if `durable`, else a
    /// transient, auto-deleted one.
    DeclareQueue { name: String, durable: bool },
    DeclareExchange { name: String, kind: String },
    BindQueue { queue: String, exchange: String, routing_key: String },
    /// Both queues are ready.
    Finish,
    /// Stop the service with this message.
    Abort { message: String },
}

/// Whether the set-up has ended, well or not.
pub open spec fn is_terminal(stage: SetupStage) -> bool {
    stage is Finished || stage is Aborted
}

/// The step after `stage` when it succeeds.
pub open spec fn success_next(stage: SetupStage) -> SetupStage {
    match stage {
        SetupStage::OpenConnection => SetupStage::RegisterConnectionCallback,
        SetupStage::RegisterConnectionCallback => SetupStage::OpenChannel,
        SetupStage::OpenChannel => SetupStage::RegisterChannelCallback,
        SetupStage::RegisterChannelCallback => SetupStage::DeclareQueue(QueueRole::Jobs),
        SetupStage::DeclareQueue(r) => SetupStage::DeclareExchange(r),
        SetupStage::DeclareExchange(r) => SetupStage::BindQueue(r),
        SetupStage::BindQueue(QueueRole::Jobs) => SetupStage::DeclareQueue(QueueRole::Status),
        SetupStage::BindQueue(QueueRole::Status) => SetupStage::Finished,
        _ => stage,
    }
}

/// Why `stage` is aborted when it fails.
pub open spec fn failure_reason(stage: SetupStage) -> AbortReason {
    match stage {
        SetupStage::OpenConnection => AbortReason::Connection,
        SetupStage::RegisterConnectionCallback => AbortReason::ConnectionCallback,
        SetupStage::OpenChannel => AbortReason::Channel,
        SetupStage::RegisterChannelCallback => AbortReason::ChannelCallback,
        SetupStage::DeclareQueue(r) => AbortReason::Queue(r),
        SetupStage::DeclareExchange(r) => AbortReason::Exchange(r),
        _ => AbortReason::Binding(match stage {
            SetupStage::BindQueue(r) => r,
            _ => QueueRole::Jobs,
        }),
    }
}

/// The stage after `stage` once the step has ended with `event`. Ended
/// set-ups stay as they are; a failed step aborts; a queue declaration that
/// reports nothing aborts too; any other step that reports nothing counts as
/// done.
pub open spec fn next_stage(stage: SetupStage, event: SetupEvent) -> SetupStage {
    if is_terminal(stage) {
        stage
    } else {
        match event {
            SetupEvent::Done => success_next(stage),
            SetupEvent::Failed => SetupStage::Aborted(failure_reason(stage)),
            SetupEvent::NoQueueInfo => match stage {
                SetupStage::DeclareQueue(r) => SetupStage::Aborted(AbortReason::QueueReply(r)),
                _ => success_next(stage),
            },
        }
    }
}

/// The message the service stops with for an aborted set-up.
pub open spec fn abort_text(configs: QueuesConfig, reason: AbortReason) -> Seq<char> {
    match reason {
        AbortReason::Connection => "Could not create a connection to rabbitmq"@,
        AbortReason::ConnectionCallback => "Could not register a default callback on the connection."@,
        AbortReason::Channel => "Could not create a channel."@,
        AbortReason::ChannelCallback => "Could not register a default callback on the channel."@,
        AbortReason::Queue(r) => "Could not create a '"@ + configs.spec_of(r).name@ + "' queue [durable: "@
            + bool_text(configs.spec_of(r).durable) + "]."@,
        AbortReason::QueueReply(_) => "called `Option::unwrap()` on a `None` value"@,
        AbortReason::Exchange(r) => "Could not declare direct exchange '"@ + configs.spec_of(r).exchange@ + "'."@,
        AbortReason::Binding(r) => "Could not bind queue '"@ + configs.spec_of(r).name@ + "' to exchange '"@
            + configs.spec_of(r).exchange@ + "'."@,
    }
}

/// The action `a` is the one to take at `stage`.
pub open spec fn action_for(credentials: Credentials, configs: QueuesConfig, stage: SetupStage, a: SetupAction) -> bool {
    match stage {
        SetupStage::OpenConnection => a matches SetupAction::OpenConnection { host, port, username, password }
            && host@ == credentials.host@ && port == AMQP_PORT && username@ == credentials.username@
            && password@ == credentials.password@,
        SetupStage::RegisterConnectionCallback => a is RegisterConnectionCallback,
        SetupStage::OpenChannel => a is OpenChannel,
        SetupStage::RegisterChannelCallback => a is RegisterChannelCallback,
        SetupStage::DeclareQueue(r) => a matches SetupAction::DeclareQueue { name, durable }
            && name@ == configs.spec_of(r).name@ && durable == configs.spec_of(r).durable,
        SetupStage::DeclareExchange(r) => a matches SetupAction::DeclareExchange { name, kind }
            && name@ == configs.spec_of(r).exchange@ && kind@ == "direct"@,
        SetupStage::BindQueue(r) => a matches SetupAction::BindQueue { queue, exchange, routing_key }
            && queue@ == configs.spec_of(r).name@ && exchange@ == configs.spec_of(r).exchange@
            && routing_key@ == configs.spec_of(r).routing_key@,
        SetupStage::Finished => a is Finish,
        SetupStage::Aborted(reason) => a matches SetupAction::Abort { message }
            && message@ == abort_text(configs, reason),
    }
}

/// The set-up of the broker connection, the channel and the two queues,
/// step by step: the caller performs `action()`, then reports how it went to
/// `advance`.
pub struct QueueSetup {
    pub credentials: Credentials,
    pub configs: QueuesConfig,
    pub stage: SetupStage,
}

/// The message for an aborted set-up.
fn abort_message(configs: &QueuesConfig, reason: AbortReason) -> (m: String)
    ensures
        m@ == abort_text(*configs, reason),
{
    match reason {
        AbortReason::Connection => String::from_str("Could not create a connection to rabbitmq"),
        AbortReason::ConnectionCallback => String::from_str(
            "Could not register a default callback on the connection.",
        ),
        AbortReason::Channel => String::from_str("Could not create a channel."),
        AbortReason::ChannelCallback => String::from_str(
            "Could not register a default callback on the channel.",
        ),
        AbortReason::Queue(r) => {
            let c = configs.of(r);
            concat5("Could not create a '", c.name.as_str(), "' queue [durable: ", bool_str(c.durable), "].")
        },
        AbortReason::QueueReply(_) => String::from_str("called `Option::unwrap()` on a `None` value"),
        AbortReason::Exchange(r) => {
            let c = configs.of(r);
            concat3("Could not declare direct exchange '", c.exchange.as_str(), "'.")
        },
        AbortReason::Binding(r) => {
            let c = configs.of(r);
            concat5("Could not bind queue '", c.name.as_str(), "' to exchange '", c.exchange.as_str(), "'.")
        },
    }
}

impl QueueSetup {
    /// A set-up that starts by opening the connection.
    pub fn new(credentials: Credentials, configs: QueuesConfig) -> (s: QueueSetup)
        ensures
            s.credentials == credentials,
            s.configs == configs,
            s.stage == SetupStage::OpenConnection,
    {
        QueueSetup { credentials, configs, stage: SetupStage::OpenConnection }
    }

    /// What to do at the current stage.
    pub fn action(&self) -> (a: SetupAction)
        ensures
            action_for(self.credentials, self.configs, self.stage, a),
            self.stage matches SetupStage::DeclareQueue(r) ==> (a matches SetupAction::DeclareQueue {
                name,
                durable,
            } && name@ == self.configs.spec_of(r).name@ && durable == self.configs.spec_of(r).durable),
    {
        match self.stage {
            SetupStage::OpenConnection => SetupAction::OpenConnection {
                host: self.credentials.host.clone(),
                port: AMQP_PORT,
                username: self.credentials.username.clone(),
                password: self.credentials.password.clone(),
            },
            SetupStage::RegisterConnectionCallback => SetupAction::RegisterConnectionCallback,
            SetupStage::OpenChannel => SetupAction::OpenChannel,
            SetupStage::RegisterChannelCallback => SetupAction::RegisterChannelCallback,
            SetupStage::DeclareQueue(r) => {
                let c = self.configs.of(r);
                SetupAction::DeclareQueue { name: c.name.clone(), durable: c.durable }
            },
            SetupStage::DeclareExchange(r) => {
                let c = self.configs.of(r);
                SetupAction::DeclareExchange { name: c.exchange.clone(), kind: String::from_str("direct") }
            },
            SetupStage::BindQueue(r) => {
                let c = self.configs.of(r);
                SetupAction::BindQueue {
                    queue: c.name.clone(),
                    exchange: c.exchange.clone(),
                    routing_key: c.routing_key.clone(),
                }
            },
            SetupStage::Finished => SetupAction::Finish,
            SetupStage::Aborted(reason) => SetupAction::Abort { message: abort_message(&self.configs, reason) },
        }
    }

    /// Moves on after the current step ended with `event`.
    pub fn advance(&mut self, event: SetupEvent)
        ensures
            final(self).credentials == old(self).credentials,
            final(self).configs == old(self).configs,
            final(self).stage == next_stage(old(self).stage, event),
    {
        let stage = self.stage;
        let next = match stage {
            SetupStage::Finished | SetupStage::Aborted(_) => stage,
            _ => match event {
                SetupEvent::Done => Self::after_success(stage),
                SetupEvent::Failed => SetupStage::Aborted(Self::reason_for(stage)),
                SetupEvent::NoQueueInfo => match stage {
                    SetupStage::DeclareQueue(r) => SetupStage::Aborted(AbortReason::QueueReply(r)),
                    _ => Self::after_success(stage),
                },
            },
        };
        self.stage = next;
    }

    fn after_success(stage: SetupStage) -> (s: SetupStage)
        ensures
            s == success_next(stage),
    {
        match stage {
            SetupStage::OpenConnection => SetupStage::RegisterConnectionCallback,
            SetupStage::RegisterConnectionCallback => SetupStage::OpenChannel,
            SetupStage::OpenChannel => SetupStage::RegisterChannelCallback,
            SetupStage::RegisterChannelCallback => SetupStage::DeclareQueue(QueueRole::Jobs),
            SetupStage::DeclareQueue(r) => SetupStage::DeclareExchange(r),
            SetupStage::DeclareExchange(r) => SetupStage::BindQueue(r),
            SetupStage::BindQueue(QueueRole::Jobs) => SetupStage::DeclareQueue(QueueRole::Status),
            SetupStage::BindQueue(QueueRole::Status) => SetupStage::Finished,
            _ => stage,
        }
    }

    fn reason_for(stage: SetupStage) -> (r: AbortReason)
        ensures
            r == failure_reason(stage),
    {
        match stage {
            SetupStage::OpenConnection => AbortReason::Connection,
            SetupStage::RegisterConnectionCallback => AbortReason::ConnectionCallback,
            SetupStage::OpenChannel => AbortReason::Channel,
            SetupStage::RegisterChannelCallback => AbortReason::ChannelCallback,
            SetupStage::DeclareQueue(r) => AbortReason::Queue(r),
            SetupStage::DeclareExchange(r) => AbortReason::Exchange(r),
            SetupStage::BindQueue(r) => AbortReason::Binding(r),
            _ => AbortReason::Binding(QueueRole::Jobs),
        }
    }

    /// Whether the set-up has ended, well or not.
    pub fn is_over(&self) -> (b: bool)
        ensures
            b == is_terminal(self.stage),
    {
        match self.stage {
            SetupStage::Finished | SetupStage::Aborted(_) => true,
            _ => false,
        }
    }
}

/// The stage reached from `stage` after `n` steps that all succeed.
pub open spec fn run_ok(stage: SetupStage, n: nat) -> SetupStage
    decreases n,
{
    if n == 0 {
        stage
    } else {
        next_stage(run_ok(stage, (n - 1) as nat), SetupEvent::Done)
    }
}

/// The order of a set-up in which every step succeeds.
pub open spec fn success_order() -> Seq<SetupStage> {
    seq![
        SetupStage::OpenConnection,
        SetupStage::RegisterConnectionCallback,
        SetupStage::OpenChannel,
        SetupStage::RegisterChannelCallback,
        SetupStage::DeclareQueue(QueueRole::Jobs),
        SetupStage::DeclareExchange(QueueRole::Jobs),
        SetupStage::BindQueue(QueueRole::Jobs),
        SetupStage::DeclareQueue(QueueRole::Status),
        SetupStage::DeclareExchange(QueueRole::Status),
        SetupStage::BindQueue(QueueRole::Status),
        SetupStage::Finished,
    ]
}

/// When every step succeeds, the set-up opens the connection, registers its
/// callback, opens the channel, registers its callback, then for the jobs
/// queue and after it the status queue declares the queue, declares its
/// direct exchange and binds the two; after these ten steps it is finished,
/// and it stays finished.
pub proof fn setup_succeeds_in_order(n: nat)
    ensures
        n <= 10 ==> run_ok(SetupStage::OpenConnection, n) == success_order()[n as int],
        n >= 10 ==> run_ok(SetupStage::OpenConnection, n) == SetupStage::Finished,
    decreases n,
{
    if n > 0 {
        setup_succeeds_in_order((n - 1) as nat);
    }
}

/// An ended set-up stays as it is, whatever is reported.
pub proof fn ended_setup_stays(stage: SetupStage, event: SetupEvent)
    requires
        is_terminal(stage),
    ensures
        next_stage(stage, event) == stage,
{
}

/// A failed step aborts a running set-up, naming that step.
pub proof fn failed_step_aborts(stage: SetupStage)
    requires
        !is_terminal(stage),
    ensures
        next_stage(stage, SetupEvent::Failed) == SetupStage::Aborted(failure_reason(stage)),
        is_terminal(next_stage(stage, SetupEvent::Failed)),
{
}


/// How a message is published on a queue.
#[derive(Debug)]
pub struct PublishPlan {
    pub exchange: String,
    pub routing_key: String,
    pub content_encoding: String,
    pub content_type: String,
    /// Whether the broker keeps the message across restarts.
    pub persistent: bool,
}

impl QueueConfig {
    /// Messages go to the queue's exchange under its routing key, as
    /// persistent UTF-8 JSON.
    pub fn publish_plan(&self) -> (p: PublishPlan)
        ensures
            p.exchange@ == self.exchange@,
            p.routing_key@ == self.routing_key@,
            p.content_encoding@ == "utf-8"@,
            p.content_type@ == "application/json"@,
            p.persistent,
    {
        PublishPlan {
            exchange: self.exchange.clone(),
            routing_key: self.routing_key.clone(),
            content_encoding: String::from_str("utf-8"),
            content_type: String::from_str("application/json"),
            persistent: true,
        }
    }
}

/// The error for a job message that the broker did not take: a queue error
/// with the message `Could not publish job id '<id>'.` and the broker's error
/// text `source`.
pub fn job_publish_error(id: &Uuid, source: String) -> (e: result::Error)
    ensures
        e matches result::Error::Queue { message, source: s }
            && message@ == "Could not publish job id '"@ + hyphenated(id.value) + "'."@
            && s@ == source@,
{
    let text = id.to_string();
    let message = concat3("Could not publish job id '", text.as_str(), "'.");
    result::Error::Queue { message, source }
}

/// The error for a status message that the broker did not take: a queue
/// error with the message `Could not publish status message job id '<id>'.`.
pub fn status_publish_error(job_id: &Uuid, source: String) -> (e: result::Error)
    ensures
        e matches result::Error::Queue { message, source: s }
            && message@ == "Could not publish status message job id '"@ + hyphenated(job_id.value) + "'."@
            && s@ == source@,
{
    let text = job_id.to_string();
    let message = concat3("Could not publish status message job id '", text.as_str(), "'.");
    result::Error::Queue { message, source }
}

/// The error for a subscription that the broker refused.
pub fn subscribe_error(source: String) -> (e: result::Error)
    ensures
        e matches result::Error::Queue { message, source: s } && message@ == "Subscribe failed."@ && s@
            == source@,
{
    result::Error::Queue { message: String::from_str("Subscribe failed."), source }
}

/// The consumer tag of the jobs queue.
pub const JOB_QUEUE_CONSUMER_TAG: &'static str = "job-consumer";

/// The consumer tag of the status queue.
pub const STATUS_QUEUE_CONSUMER_TAG: &'static str = "status-consumer";

/// How a consumer is attached to a queue.
#[derive(Debug)]
pub struct ConsumePlan {
    pub queue: String,
    pub consumer_tag: String,
    /// Whether deliveries must be acknowledged by the consumer.
    pub manual_ack: bool,
}

/// A consumer on `queue` under `consumer_tag`, acknowledging by hand.
pub fn consume_plan(queue: &str, consumer_tag: &str) -> (p: ConsumePlan)
    ensures
        p.queue@ == queue@,
        p.consumer_tag@ == consumer_tag@,
        p.manual_ack,
{
    ConsumePlan { queue: String::from_str(queue), consumer_tag: String::from_str(consumer_tag), manual_ack: true }
}

impl QueueRole {
    /// The tag under which a consumer subscribes to the queue.
    pub fn subscribe_tag(self) -> (t: &'static str)
        ensures
            t == (match self {
                QueueRole::Jobs => JOB_QUEUE_CONSUMER_TAG,
                QueueRole::Status => STATUS_QUEUE_CONSUMER_TAG,
            }),
    {
        match self {
            QueueRole::Jobs => JOB_QUEUE_CONSUMER_TAG,
            QueueRole::Status => STATUS_QUEUE_CONSUMER_TAG,
        }
    }

    /// The tag whose consumer is cancelled on unsubscribing: the status
    /// queue's tag, for either queue.
    pub fn unsubscribe_tag(self) -> (t: &'static str)
        ensures
            t == STATUS_QUEUE_CONSUMER_TAG,
    {
        STATUS_QUEUE_CONSUMER_TAG
    }

    /// The plan for subscribing a consumer to the queue of this role.
    pub fn subscribe_plan(self, configs: &QueuesConfig) -> (p: ConsumePlan)
        ensures
            p.queue@ == configs.spec_of(self).name@,
            p.consumer_tag@ == (match self {
                QueueRole::Jobs => JOB_QUEUE_CONSUMER_TAG,
                QueueRole::Status => STATUS_QUEUE_CONSUMER_TAG,
            })@,
            p.manual_ack,
    {
        consume_plan(configs.of(self).name.as_str(), self.subscribe_tag())
    }
}

/// Every broker call of the set-up is made with the settings it is given:
/// the connection with the credentials on the broker port; for either queue,
/// a queue of its configured name that is durable exactly when it is
/// configured durable, a direct exchange of its configured exchange, and a
/// binding of the two under its configured routing key.
pub proof fn setup_calls_follow_the_configuration(
    credentials: Credentials,
    configs: QueuesConfig,
    stage: SetupStage,
    a: SetupAction,
)
    requires
        action_for(credentials, configs, stage, a),
    ensures
        stage is OpenConnection ==> (a matches SetupAction::OpenConnection { host, port, username, password }
            && host@ == credentials.host@ && port == 5672 && username@ == credentials.username@ && password@
            == credentials.password@),
        stage matches SetupStage::DeclareQueue(r) ==> (a matches SetupAction::DeclareQueue { name, durable }
            && name@ == configs.spec_of(r).name@ && durable == configs.spec_of(r).durable),
        stage matches SetupStage::DeclareExchange(r) ==> (a matches SetupAction::DeclareExchange { name, kind }
            && name@ == configs.spec_of(r).exchange@ && kind@ == "direct"@),
        stage matches SetupStage::BindQueue(r) ==> (a matches SetupAction::BindQueue {
            queue,
            exchange,
            routing_key,
        } && queue@ == configs.spec_of(r).name@ && exchange@ == configs.spec_of(r).exchange@ && routing_key@
            == configs.spec_of(r).routing_key@),
{
}

/// With the configuration read from `vars`, the jobs queue is declared
/// durable exactly when `QUEUE_JOBS_DURABLE` is `true`, and the status queue
/// exactly when `QUEUE_STATUS_DURABLE` is; either is otherwise declared
/// transient.
pub proof fn declared_durability_follows_the_environment(
    vars: Seq<(String, String)>,
    credentials: Credentials,
    configs: QueuesConfig,
    r: QueueRole,
    a: SetupAction,
)
    requires
        parse_bool(setting(vars, "QUEUE_JOBS_DURABLE"@)) is Some,
        parse_bool(setting(vars, "QUEUE_STATUS_DURABLE"@)) is Some,
        configs.jobs.durable == bool_setting(vars, "QUEUE_JOBS_DURABLE"@),
        configs.status.durable == bool_setting(vars, "QUEUE_STATUS_DURABLE"@),
        action_for(credentials, configs, SetupStage::DeclareQueue(r), a),
    ensures
        a matches SetupAction::DeclareQueue { durable, .. } && durable == (match r {
            QueueRole::Jobs => setting(vars, "QUEUE_JOBS_DURABLE"@) == "true"@,
            QueueRole::Status => setting(vars, "QUEUE_STATUS_DURABLE"@) == "true"@,
        }),
{
}

} // verus!
