use crate::environment::Env;
use std::path::PathBuf;
use vstd::prelude::*;

verus! {

/// Declares std's `PathBuf` so that a configuration can hold a path; nothing
/// is assumed of its contents, which are carried through unread.
#[verifier::external_type_specification]
#[verifier::external_body]
pub struct ExPathBuf(PathBuf);

/// The configuration of one test run: the target environment and the
/// endpoint overrides and flags that the operator supplied.
#[derive(Clone, Debug, PartialEq, Eq)]
pub struct ClusterTestOpt {
    pub env: Env,
    /// Address of the faucet service.
    pub faucet_address: Option<String>,
    /// Address of the full node to test against.
    pub fullnode_address: Option<String>,
    /// Epoch length in milliseconds.
    pub epoch_duration_ms: Option<u64>,
    /// URL for the indexer RPC server
    pub indexer_address: Option<String>,
    /// Use new version of indexer or not
    pub use_indexer_v2: bool,
    /// URL for the Indexer Postgres DB
    pub pg_address: Option<String>,
    /// Use the indexer's experimental query methods; to go once the indexer
    /// migration is complete.
    pub use_indexer_experimental_methods: bool,
    /// Where the configuration of a locally launched network lives.
    pub config_dir: Option<PathBuf>,
    /// URL for the GraphQL server
    pub graphql_address: Option<String>,
}

impl ClusterTestOpt {
    /// The configuration made of exactly these values, field by field.
    pub open spec fn from_parts(
        env: Env,
        faucet_address: Option<String>,
        fullnode_address: Option<String>,
        epoch_duration_ms: Option<u64>,
        indexer_address: Option<String>,
        use_indexer_v2: bool,
        pg_address: Option<String>,
        use_indexer_experimental_methods: bool,
        config_dir: Option<PathBuf>,
        graphql_address: Option<String>,
    ) -> ClusterTestOpt {
        ClusterTestOpt {
            env,
            faucet_address,
            fullnode_address,
            epoch_duration_ms,
            indexer_address,
            use_indexer_v2,
            pg_address,
            use_indexer_experimental_methods,
            config_dir,
            graphql_address,
        }
    }

    /// Every override is absent and every flag is off. The pattern names each
    /// field, so a field added to the type must be accounted for here.
    pub open spec fn has_no_overrides(self) -> bool {
        let ClusterTestOpt {
            env: _,
            faucet_address,
            fullnode_address,
            epoch_duration_ms,
            indexer_address,
            use_indexer_v2,
            pg_address,
            use_indexer_experimental_methods,
            config_dir,
            graphql_address,
        } = self;
        &&& faucet_address is None
        &&& fullnode_address is None
        &&& epoch_duration_ms is None
        &&& indexer_address is None
        &&& !use_indexer_v2
        &&& pg_address is None
        &&& !use_indexer_experimental_methods
        &&& config_dir is None
        &&& graphql_address is None
    }

    /// Builds a configuration from the operator's values, each kept as given;
    /// what was not supplied stays absent.
    pub fn new(
        env: Env,
        faucet_address: Option<String>,
        fullnode_address: Option<String>,
        epoch_duration_ms: Option<u64>,
        indexer_address: Option<String>,
        use_indexer_v2: bool,
        pg_address: Option<String>,
        use_indexer_experimental_methods: bool,
        config_dir: Option<PathBuf>,
        graphql_address: Option<String>,
    ) -> (r: Self)
        ensures
            r == Self::from_parts(
                env,
                faucet_address,
                fullnode_address,
                epoch_duration_ms,
                indexer_address,
                use_indexer_v2,
                pg_address,
                use_indexer_experimental_methods,
                config_dir,
                graphql_address,
            ),
    {
        ClusterTestOpt {
            env,
            faucet_address,
            fullnode_address,
            epoch_duration_ms,
            indexer_address,
            use_indexer_v2,
            pg_address,
            use_indexer_experimental_methods,
            config_dir,
            graphql_address,
        }
    }

    /// The configuration of a run against a network launched in-process,
    /// with no overrides.
    pub fn new_local() -> (r: Self)
        ensures
            r.env == Env::NewLocal,
            r.has_no_overrides(),
    {
        Self {
            env: Env::NewLocal,
            faucet_address: None,
            fullnode_address: None,
            epoch_duration_ms: None,
            indexer_address: None,
            pg_address: None,
            use_indexer_experimental_methods: false,
            config_dir: None,
            graphql_address: None,
            use_indexer_v2: false,
        }
    }
}

/// Given only an environment, for any environment, the configuration has no
/// override and both flags off.
pub proof fn lemma_env_only_has_no_overrides(env: Env)
    ensures
        ({
            let c = ClusterTestOpt::from_parts(
                env,
                None,
                None,
                None,
                None,
                false,
                None,
                false,
                None,
                None,
            );
            c.env == env && c.has_no_overrides()
        }),
{
}

/// Each supplied value reads back unchanged from the field it was given for.
pub proof fn lemma_values_read_back(
    env: Env,
    faucet_address: Option<String>,
    fullnode_address: Option<String>,
    epoch_duration_ms: Option<u64>,
    indexer_address: Option<String>,
    use_indexer_v2: bool,
    pg_address: Option<String>,
    use_indexer_experimental_methods: bool,
    config_dir: Option<PathBuf>,
    graphql_address: Option<String>,
)
    ensures
        ({
            let c = ClusterTestOpt::from_parts(
                env,
                faucet_address,
                fullnode_address,
                epoch_duration_ms,
                indexer_address,
                use_indexer_v2,
                pg_address,
                use_indexer_experimental_methods,
                config_dir,
                graphql_address,
            );
            &&& c.env == env
            &&& c.faucet_address == faucet_address
            &&& c.fullnode_address == fullnode_address
            &&& c.epoch_duration_ms == epoch_duration_ms
            &&& c.indexer_address == indexer_address
            &&& c.use_indexer_v2 == use_indexer_v2
            &&& c.pg_address == pg_address
            &&& c.use_indexer_experimental_methods == use_indexer_experimental_methods
            &&& c.config_dir == config_dir
            &&& c.graphql_address == graphql_address
        }),
{
}

/// Rebuilding a configuration from its own fields gives it back: nothing is
/// defaulted over a value that is there.
pub proof fn lemma_rebuild_from_fields(c: ClusterTestOpt)
    ensures
        ClusterTestOpt::from_parts(
            c.env,
            c.faucet_address,
            c.fullnode_address,
            c.epoch_duration_ms,
            c.indexer_address,
            c.use_indexer_v2,
            c.pg_address,
            c.use_indexer_experimental_methods,
            c.config_dir,
            c.graphql_address,
        ) == c,
{
}

/// Two configurations without overrides are equal when their environments
/// are; in particular the local-run configuration is the one built from
/// `NewLocal` alone.
pub proof fn lemma_no_overrides_unique(a: ClusterTestOpt, b: ClusterTestOpt)
    requires
        a.has_no_overrides(),
        b.has_no_overrides(),
        a.env == b.env,
    ensures
        a == b,
{
}

} // verus!
