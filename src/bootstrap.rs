use vstd::prelude::*;

use crate::chain::{chain_shortname, ChainType};

verus! {

/// One of the two credential files kept in a node's home directory.
#[derive(Debug, Clone, Copy, PartialEq, Eq, Structural)]
pub enum SecretKind {
    /// Secret of the node REST API and the owner API.
    NodeApi,
    /// Secret of the foreign API.
    ForeignApi,
}

/// What is already on disk under a chain's home directory.
#[derive(Debug, Clone, Copy, PartialEq, Eq, Structural)]
pub struct BootstrapProbe {
    pub home_exists: bool,
    pub node_api_secret_exists: bool,
    pub foreign_api_secret_exists: bool,
    pub config_exists: bool,
}

/// One filesystem action needed before a node can start.
#[derive(Debug, Clone, Copy, PartialEq, Eq, Structural)]
pub enum BootstrapStep {
    /// Create the home directory and its parents.
    CreateHome,
    /// Generate a fresh secret and write it.
    InitSecret(SecretKind),
    /// Validate an existing secret; a bad one is fatal.
    CheckSecret(SecretKind),
    /// Write the chain's default configuration, with paths under the home directory.
    WriteDefaultConfig,
    /// Read and parse the configuration file; a parse failure is fatal.
    LoadConfig,
}

pub open spec fn home_path(chain: ChainType) -> Seq<Seq<char>> {
    seq![
        seq!['.', 'g', 'r', 'i', 'n'],
        chain_shortname(chain),
        seq!['g', 'r', 'i', 'n', '_', 'n', 'o', 'd', 'e'],
        seq!['d', 'e', 'f', 'a', 'u', 'l', 't'],
    ]
}

pub open spec fn secret_name(kind: SecretKind) -> Seq<char> {
    match kind {
        SecretKind::NodeApi => seq!['.', 'a', 'p', 'i', '_', 's', 'e', 'c', 'r', 'e', 't'],
        SecretKind::ForeignApi => seq![
            '.', 'f', 'o', 'r', 'e', 'i', 'g', 'n', '_', 'a', 'p', 'i', '_', 's', 'e', 'c', 'r', 'e', 't'
        ],
    }
}

pub open spec fn config_name() -> Seq<char> {
    seq!['g', 'r', 'i', 'n', '-', 's', 'e', 'r', 'v', 'e', 'r', '.', 't', 'o', 'm', 'l']
}

/// The components of a chain's home directory, relative to the user's home.
pub fn resolve_home(chain: ChainType) -> (r: Vec<String>)
    ensures
        r.deep_view() == home_path(chain),
{
    let top = "grin_node";
    let leaf = "default";
    let root = ".grin";
    proof {
        reveal_strlit("grin_node");
        reveal_strlit("default");
        reveal_strlit(".grin");
    }
    let mut r: Vec<String> = Vec::new();
    r.push(root.to_owned());
    r.push(chain.shortname());
    r.push(top.to_owned());
    r.push(leaf.to_owned());
    assert(r.deep_view() =~~= home_path(chain));
    r
}

/// File name of a secret inside the home directory.
pub fn secret_file_name(kind: SecretKind) -> (r: String)
    ensures
        r@ == secret_name(kind),
{
    proof {
        reveal_strlit(".api_secret");
        reveal_strlit(".foreign_api_secret");
    }
    match kind {
        SecretKind::NodeApi => ".api_secret".to_owned(),
        SecretKind::ForeignApi => ".foreign_api_secret".to_owned(),
    }
}

/// File name of the server configuration inside the home directory.
pub fn config_file_name() -> (r: String)
    ensures
        r@ == config_name(),
{
    proof {
        reveal_strlit("grin-server.toml");
    }
    "grin-server.toml".to_owned()
}

/// The directory of the application's own settings, relative to the user's home.
pub fn config_dir() -> (r: Vec<String>)
    ensures
        r.deep_view() == seq![
            seq!['.', 'g', 'r', 'i', 'n', '-', 'g', 'u', 'i'],
            seq!['g', 'u', 'i'],
        ],
{
    proof {
        reveal_strlit(".grin-gui");
        reveal_strlit("gui");
    }
    let mut r: Vec<String> = Vec::new();
    r.push(".grin-gui".to_owned());
    r.push("gui".to_owned());
    assert(r.deep_view() =~~= seq![
        seq!['.', 'g', 'r', 'i', 'n', '-', 'g', 'u', 'i'],
        seq!['g', 'u', 'i'],
    ]);
    r
}

/// Path components of a secret file, relative to the user's home.
pub fn secret_file_path(chain: ChainType, kind: SecretKind) -> (r: Vec<String>)
    ensures
        r.deep_view() == home_path(chain).push(secret_name(kind)),
{
    let mut r = resolve_home(chain);
    r.push(secret_file_name(kind));
    assert(r.deep_view() =~~= home_path(chain).push(secret_name(kind)));
    r
}

/// Path components of the configuration file, relative to the user's home.
pub fn config_file_path(chain: ChainType) -> (r: Vec<String>)
    ensures
        r.deep_view() == home_path(chain).push(config_name()),
{
    let mut r = resolve_home(chain);
    r.push(config_file_name());
    assert(r.deep_view() =~~= home_path(chain).push(config_name()));
    r
}

pub open spec fn secret_step(kind: SecretKind, exists: bool) -> BootstrapStep {
    if exists {
        BootstrapStep::CheckSecret(kind)
    } else {
        BootstrapStep::InitSecret(kind)
    }
}

/// The actions that bring a home directory to a startable state: create it
/// if missing, create or validate each secret, write the default
/// configuration if missing, then load the configuration.
pub open spec fn bootstrap_steps(p: BootstrapProbe) -> Seq<BootstrapStep> {
    let home = if p.home_exists {
        Seq::empty()
    } else {
        seq![BootstrapStep::CreateHome]
    };
    let config = if p.config_exists {
        seq![BootstrapStep::LoadConfig]
    } else {
        seq![BootstrapStep::WriteDefaultConfig, BootstrapStep::LoadConfig]
    };
    home + seq![
        secret_step(SecretKind::NodeApi, p.node_api_secret_exists),
        secret_step(SecretKind::ForeignApi, p.foreign_api_secret_exists),
    ] + config
}

/// What is on disk once a step has been carried out.
pub open spec fn apply_step(p: BootstrapProbe, s: BootstrapStep) -> BootstrapProbe {
    match s {
        BootstrapStep::CreateHome => BootstrapProbe { home_exists: true, ..p },
        BootstrapStep::InitSecret(SecretKind::NodeApi) => BootstrapProbe {
            home_exists: true,
            node_api_secret_exists: true,
            ..p
        },
        BootstrapStep::InitSecret(SecretKind::ForeignApi) => BootstrapProbe {
            home_exists: true,
            foreign_api_secret_exists: true,
            ..p
        },
        BootstrapStep::WriteDefaultConfig => BootstrapProbe {
            home_exists: true,
            config_exists: true,
            ..p
        },
        _ => p,
    }
}

pub open spec fn apply_steps(p: BootstrapProbe, steps: Seq<BootstrapStep>) -> BootstrapProbe
    decreases steps.len(),
{
    if steps.len() == 0 {
        p
    } else {
        apply_steps(apply_step(p, steps[0]), steps.drop_first())
    }
}

pub open spec fn writes_to_disk(s: BootstrapStep) -> bool {
    match s {
        BootstrapStep::CreateHome => true,
        BootstrapStep::InitSecret(_) => true,
        BootstrapStep::WriteDefaultConfig => true,
        _ => false,
    }
}

fn secret_plan_step(kind: SecretKind, exists: bool) -> (r: BootstrapStep)
    ensures
        r == secret_step(kind, exists),
{
    if exists {
        BootstrapStep::CheckSecret(kind)
    } else {
        BootstrapStep::InitSecret(kind)
    }
}

impl BootstrapProbe {
    /// The state of an empty home: nothing exists yet.
    pub fn fresh() -> (r: BootstrapProbe)
        ensures
            !r.home_exists,
            !r.node_api_secret_exists,
            !r.foreign_api_secret_exists,
            !r.config_exists,
    {
        BootstrapProbe {
            home_exists: false,
            node_api_secret_exists: false,
            foreign_api_secret_exists: false,
            config_exists: false,
        }
    }

    /// The actions to take, in order, before a node can start.
    pub fn plan(&self) -> (r: Vec<BootstrapStep>)
        ensures
            r@ == bootstrap_steps(*self),
    {
        let mut r: Vec<BootstrapStep> = Vec::new();
        if !self.home_exists {
            r.push(BootstrapStep::CreateHome);
        }
        r.push(secret_plan_step(SecretKind::NodeApi, self.node_api_secret_exists));
        r.push(secret_plan_step(SecretKind::ForeignApi, self.foreign_api_secret_exists));
        if !self.config_exists {
            r.push(BootstrapStep::WriteDefaultConfig);
        }
        r.push(BootstrapStep::LoadConfig);
        assert(r@ =~= bootstrap_steps(*self));
        r
    }

    /// What is on disk once one step has been carried out.
    pub fn apply(&self, s: BootstrapStep) -> (r: BootstrapProbe)
        ensures
            r == apply_step(*self, s),
    {
        match s {
            BootstrapStep::CreateHome => BootstrapProbe { home_exists: true, ..*self },
            BootstrapStep::InitSecret(SecretKind::NodeApi) => BootstrapProbe {
                home_exists: true,
                node_api_secret_exists: true,
                ..*self
            },
            BootstrapStep::InitSecret(SecretKind::ForeignApi) => BootstrapProbe {
                home_exists: true,
                foreign_api_secret_exists: true,
                ..*self
            },
            BootstrapStep::WriteDefaultConfig => BootstrapProbe {
                home_exists: true,
                config_exists: true,
                ..*self
            },
            _ => *self,
        }
    }

    /// What is on disk once all the steps have been carried out, in order.
    pub fn after(&self, steps: &Vec<BootstrapStep>) -> (r: BootstrapProbe)
        ensures
            r == apply_steps(*self, steps@),
    {
        let mut cur = *self;
        let mut i: usize = 0;
        assert(steps@.subrange(0, steps@.len() as int) =~= steps@);
        while i < steps.len()
            invariant
                i <= steps@.len(),
                apply_steps(cur, steps@.subrange(i as int, steps@.len() as int)) == apply_steps(
                    *self,
                    steps@,
                ),
            decreases steps@.len() - i,
        {
            let ghost rest = steps@.subrange(i as int, steps@.len() as int);
            assert(rest.drop_first() =~= steps@.subrange(i + 1, steps@.len() as int));
            cur = cur.apply(steps[i]);
            i = i + 1;
        }
        assert(steps@.subrange(i as int, steps@.len() as int) =~= Seq::<BootstrapStep>::empty());
        cur
    }
}

/// Resolving a home directory is idempotent: its path depends on the chain
/// alone (see `resolve_home`), and once a first bootstrap has been carried
/// out the directory exists, so a second one never tries to create it again.
pub proof fn lemma_resolve_home_idempotent(p: BootstrapProbe)
    ensures
        apply_steps(p, bootstrap_steps(p)).home_exists,
        !bootstrap_steps(apply_steps(p, bootstrap_steps(p))).contains(BootstrapStep::CreateHome),
{
    lemma_bootstrap_settles(p);
    let q = apply_steps(p, bootstrap_steps(p));
    let s = bootstrap_steps(q);
    assert(s[0] != BootstrapStep::CreateHome);
    assert(s[1] != BootstrapStep::CreateHome);
    assert(s[2] != BootstrapStep::CreateHome);
}

/// Once a bootstrap has been carried out, every file it needs is on disk.
pub proof fn lemma_bootstrap_settles(p: BootstrapProbe)
    ensures
        apply_steps(p, bootstrap_steps(p)) == (BootstrapProbe {
            home_exists: true,
            node_api_secret_exists: true,
            foreign_api_secret_exists: true,
            config_exists: true,
        }),
{
    reveal_with_fuel(apply_steps, 6);
}

/// Loading twice in a row is stable: after a first bootstrap, a second one on
/// the same home writes nothing and only validates the secrets and loads the
/// configuration file that the first one left, so it loads the same
/// configuration.
pub proof fn lemma_second_bootstrap_only_loads(p: BootstrapProbe)
    ensures
        bootstrap_steps(apply_steps(p, bootstrap_steps(p))) == seq![
            BootstrapStep::CheckSecret(SecretKind::NodeApi),
            BootstrapStep::CheckSecret(SecretKind::ForeignApi),
            BootstrapStep::LoadConfig,
        ],
        forall|i: int|
            0 <= i < bootstrap_steps(apply_steps(p, bootstrap_steps(p))).len() ==> !writes_to_disk(
                #[trigger] bootstrap_steps(apply_steps(p, bootstrap_steps(p)))[i],
            ),
{
    lemma_bootstrap_settles(p);
    let s = bootstrap_steps(apply_steps(p, bootstrap_steps(p)));
    assert(s =~= seq![
        BootstrapStep::CheckSecret(SecretKind::NodeApi),
        BootstrapStep::CheckSecret(SecretKind::ForeignApi),
        BootstrapStep::LoadConfig,
    ]);
}

} // verus!
