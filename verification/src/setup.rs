//! Starting the application: the order of the start-up steps, what each step
//! is given, and how a failing step ends the start-up; and the clean-up
//! statement.

use vstd::prelude::*;

use crate::handlers::{insert_cql, spec_insert_cql};
use crate::profile::{default_profile, spec_profile, LoadBalancing, ProfileSettings};

verus! {

/// The nodes the session is first told about.
pub open spec fn spec_known_nodes() -> Seq<Seq<char>> {
    seq!["127.0.0.2:9042"@, "127.0.0.3:9042"@, "127.0.0.4:9042"@]
}

/// The statement that creates the keyspace if it is missing.
pub open spec fn spec_keyspace_cql() -> Seq<char> {
    "CREATE KEYSPACE IF NOT EXISTS demo WITH replication = {'class': 'SimpleStrategy', 'replication_factor': 1} AND tablets = {'enabled': false};"@
}

/// The statement that creates the items table if it is missing.
pub open spec fn spec_table_cql() -> Seq<char> {
    "CREATE TABLE IF NOT EXISTS demo.items (id uuid PRIMARY KEY, name text, value bigint);"@
}

/// Where the start-up stands.
#[derive(Debug, Clone, Copy, PartialEq, Eq, Structural)]
pub enum InitStage {
    LoadingTls,
    BuildingSession,
    CreatingKeyspace,
    CreatingTable,
    PreparingInsert,
    Ready,
    Failed,
}

/// What the caller is to do next.
#[derive(Debug)]
pub enum InitAction {
    /// Load the TLS root certificates.
    LoadTls,
    /// Connect a session to these nodes, over TLS or not, with this default
    /// profile.
    BuildSession { known_nodes: Vec<String>, use_tls: bool, profile: ProfileSettings },
    /// Run this statement.
    Run(String),
    /// Prepare this statement.
    Prepare(String),
    /// Start-up is complete.
    Finish,
    /// Start-up failed: report the cause, under this context when there is one.
    Abort { context: Option<String>, cause: String },
    /// Nothing more to do.
    Stop,
}

/// A start-up action taken by value.
pub enum InitActionView {
    LoadTls,
    BuildSession { known_nodes: Seq<Seq<char>>, use_tls: bool, profile: ProfileSettings },
    Run(Seq<char>),
    Prepare(Seq<char>),
    Finish,
    Abort { context: Option<Seq<char>>, cause: Seq<char> },
    Stop,
}

impl View for InitAction {
    type V = InitActionView;

    open spec fn view(&self) -> InitActionView {
        match self {
            InitAction::LoadTls => InitActionView::LoadTls,
            InitAction::BuildSession { known_nodes, use_tls, profile } =>
                InitActionView::BuildSession {
                known_nodes: known_nodes@.map_values(|s: String| s@),
                use_tls: *use_tls,
                profile: *profile,
            },
            InitAction::Run(s) => InitActionView::Run(s@),
            InitAction::Prepare(s) => InitActionView::Prepare(s@),
            InitAction::Finish => InitActionView::Finish,
            InitAction::Abort { context, cause } => InitActionView::Abort {
                context: match context {
                    Some(c) => Some(c@),
                    None => None,
                },
                cause: cause@,
            },
            InitAction::Stop => InitActionView::Stop,
        }
    }
}

/// The start-up step that follows a stage's outcome. The outcome of loading
/// TLS tells whether a TLS configuration was found; other steps only succeed
/// or fail. A failed TLS load is reported under `loading TLS config`, a failed
/// connection under `failed to build session`, other failures as they are.
pub open spec fn spec_init_next(stage: InitStage, outcome: Result<bool, Seq<char>>) -> (
    InitStage,
    InitActionView,
) {
    match stage {
        InitStage::LoadingTls => match outcome {
            Ok(tls) => (
                InitStage::BuildingSession,
                InitActionView::BuildSession {
                    known_nodes: spec_known_nodes(),
                    use_tls: tls,
                    profile: spec_profile(LoadBalancing::Default),
                },
            ),
            Err(m) => (
                InitStage::Failed,
                InitActionView::Abort { context: Some("loading TLS config"@), cause: m },
            ),
        },
        InitStage::BuildingSession => match outcome {
            Ok(_) => (InitStage::CreatingKeyspace, InitActionView::Run(spec_keyspace_cql())),
            Err(m) => (
                InitStage::Failed,
                InitActionView::Abort { context: Some("failed to build session"@), cause: m },
            ),
        },
        InitStage::CreatingKeyspace => match outcome {
            Ok(_) => (InitStage::CreatingTable, InitActionView::Run(spec_table_cql())),
            Err(m) => (InitStage::Failed, InitActionView::Abort { context: None, cause: m }),
        },
        InitStage::CreatingTable => match outcome {
            Ok(_) => (InitStage::PreparingInsert, InitActionView::Prepare(spec_insert_cql())),
            Err(m) => (InitStage::Failed, InitActionView::Abort { context: None, cause: m }),
        },
        InitStage::PreparingInsert => match outcome {
            Ok(_) => (InitStage::Ready, InitActionView::Finish),
            Err(m) => (InitStage::Failed, InitActionView::Abort { context: None, cause: m }),
        },
        InitStage::Ready => (InitStage::Ready, InitActionView::Stop),
        InitStage::Failed => (InitStage::Failed, InitActionView::Stop),
    }
}

/// The first start-up step: load the TLS configuration.
pub fn init_begin() -> (r: (InitStage, InitAction))
    ensures
        r.0 == InitStage::LoadingTls,
        r.1@ == InitActionView::LoadTls,
{
    (InitStage::LoadingTls, InitAction::LoadTls)
}

fn known_nodes() -> (r: Vec<String>)
    ensures
        r@.map_values(|s: String| s@) == spec_known_nodes(),
{
    let mut v: Vec<String> = Vec::new();
    v.push("127.0.0.2:9042".to_owned());
    v.push("127.0.0.3:9042".to_owned());
    v.push("127.0.0.4:9042".to_owned());
    assert(v@.map_values(|s: String| s@) =~= spec_known_nodes());
    v
}

/// Takes the outcome of the current start-up step and says what comes next.
pub fn init_next(stage: InitStage, outcome: Result<bool, String>) -> (r: (InitStage, InitAction))
    ensures
        (r.0, r.1@) == spec_init_next(
            stage,
            match outcome {
                Ok(b) => Ok(b),
                Err(m) => Err(m@),
            },
        ),
{
    match stage {
        InitStage::LoadingTls => match outcome {
            Ok(tls) => (
                InitStage::BuildingSession,
                InitAction::BuildSession {
                    known_nodes: known_nodes(),
                    use_tls: tls,
                    profile: default_profile(),
                },
            ),
            Err(m) => (
                InitStage::Failed,
                InitAction::Abort { context: Some("loading TLS config".to_owned()), cause: m },
            ),
        },
        InitStage::BuildingSession => match outcome {
            Ok(_) => (InitStage::CreatingKeyspace, InitAction::Run(keyspace_cql())),
            Err(m) => (
                InitStage::Failed,
                InitAction::Abort { context: Some("failed to build session".to_owned()), cause: m },
            ),
        },
        InitStage::CreatingKeyspace => match outcome {
            Ok(_) => (InitStage::CreatingTable, InitAction::Run(table_cql())),
            Err(m) => (InitStage::Failed, InitAction::Abort { context: None, cause: m }),
        },
        InitStage::CreatingTable => match outcome {
            Ok(_) => (InitStage::PreparingInsert, InitAction::Prepare(insert_cql())),
            Err(m) => (InitStage::Failed, InitAction::Abort { context: None, cause: m }),
        },
        InitStage::PreparingInsert => match outcome {
            Ok(_) => (InitStage::Ready, InitAction::Finish),
            Err(m) => (InitStage::Failed, InitAction::Abort { context: None, cause: m }),
        },
        InitStage::Ready => (InitStage::Ready, InitAction::Stop),
        InitStage::Failed => (InitStage::Failed, InitAction::Stop),
    }
}

fn keyspace_cql() -> (r: String)
    ensures
        r@ == spec_keyspace_cql(),
{
    "CREATE KEYSPACE IF NOT EXISTS demo WITH replication = {'class': 'SimpleStrategy', 'replication_factor': 1} AND tablets = {'enabled': false};".to_owned()
}

fn table_cql() -> (r: String)
    ensures
        r@ == spec_table_cql(),
{
    "CREATE TABLE IF NOT EXISTS demo.items (id uuid PRIMARY KEY, name text, value bigint);".to_owned()
}

/// The statement that removes the demo keyspace when cleaning up.
pub fn cleanup_cql() -> (r: String)
    ensures
        r@ == "DROP KEYSPACE IF EXISTS demo;"@,
{
    "DROP KEYSPACE IF EXISTS demo;".to_owned()
}

/// The actions that start-up takes from `stage` when its steps have these
/// outcomes, in order; it stops at the first step that fails, or once ready.
pub open spec fn init_trace(stage: InitStage, outcomes: Seq<Result<bool, Seq<char>>>) -> Seq<
    InitActionView,
>
    decreases outcomes.len(),
{
    if outcomes.len() == 0 || stage == InitStage::Ready || stage == InitStage::Failed {
        Seq::empty()
    } else {
        let (next, action) = spec_init_next(stage, outcomes[0]);
        seq![action] + init_trace(next, outcomes.drop_first())
    }
}

/// When every step succeeds, start-up connects (over TLS exactly when a TLS
/// configuration was loaded, with the default profile, to the three known
/// nodes), creates the keyspace, then the table, prepares the insert and
/// finishes.
pub proof fn lemma_init_success_order(tls: bool, s1: bool, s2: bool, s3: bool, s4: bool)
    ensures
        init_trace(
            InitStage::LoadingTls,
            seq![Ok(tls), Ok(s1), Ok(s2), Ok(s3), Ok(s4)],
        ) == seq![
            InitActionView::BuildSession {
                known_nodes: spec_known_nodes(),
                use_tls: tls,
                profile: spec_profile(LoadBalancing::Default),
            },
            InitActionView::Run(spec_keyspace_cql()),
            InitActionView::Run(spec_table_cql()),
            InitActionView::Prepare(spec_insert_cql()),
            InitActionView::Finish,
        ],
{
    let o: Seq<Result<bool, Seq<char>>> = seq![Ok(tls), Ok(s1), Ok(s2), Ok(s3), Ok(s4)];
    reveal_with_fuel(init_trace, 6);
    let o1 = o.drop_first();
    let o2 = o1.drop_first();
    let o3 = o2.drop_first();
    let o4 = o3.drop_first();
    let o5 = o4.drop_first();
    assert(o1 =~= seq![Ok(s1), Ok(s2), Ok(s3), Ok(s4)]);
    assert(o2 =~= seq![Ok(s2), Ok(s3), Ok(s4)]);
    assert(o3 =~= seq![Ok(s3), Ok(s4)]);
    assert(o4 =~= seq![Ok(s4)]);
    assert(o5 =~= Seq::<Result<bool, Seq<char>>>::empty());
    assert(init_trace(InitStage::LoadingTls, o) =~= seq![
        InitActionView::BuildSession {
            known_nodes: spec_known_nodes(),
            use_tls: tls,
            profile: spec_profile(LoadBalancing::Default),
        },
        InitActionView::Run(spec_keyspace_cql()),
        InitActionView::Run(spec_table_cql()),
        InitActionView::Prepare(spec_insert_cql()),
        InitActionView::Finish,
    ]);
}

/// A failing step ends start-up: the step's failure is the last action, and
/// whatever outcomes follow, nothing else is done.
pub proof fn lemma_init_failure_is_final(
    stage: InitStage,
    cause: Seq<char>,
    rest: Seq<Result<bool, Seq<char>>>,
)
    requires
        stage != InitStage::Ready,
        stage != InitStage::Failed,
    ensures
        init_trace(stage, seq![Err(cause)] + rest).len() == 1,
        init_trace(stage, seq![Err(cause)] + rest)[0] is Abort,
        spec_init_next(stage, Err(cause)).0 == InitStage::Failed,
{
    let o = seq![Err(cause)] + rest;
    assert(o[0] == Err::<bool, Seq<char>>(cause));
    reveal_with_fuel(init_trace, 2);
}

} // verus!
