use std::path::PathBuf;
use sui_cluster_test::{ClusterTestOpt, Env};

const ALL_ENVS: [Env; 7] = [
    Env::Devnet,
    Env::Staging,
    Env::Ci,
    Env::CiNomad,
    Env::Testnet,
    Env::CustomRemote,
    Env::NewLocal,
];

fn env_only(env: Env) -> ClusterTestOpt {
    ClusterTestOpt::new(env, None, None, None, None, false, None, false, None, None)
}

fn assert_no_overrides(c: &ClusterTestOpt) {
    assert_eq!(c.faucet_address, None);
    assert_eq!(c.fullnode_address, None);
    assert_eq!(c.epoch_duration_ms, None);
    assert_eq!(c.indexer_address, None);
    assert!(!c.use_indexer_v2);
    assert_eq!(c.pg_address, None);
    assert!(!c.use_indexer_experimental_methods);
    assert_eq!(c.config_dir, None);
    assert_eq!(c.graphql_address, None);
}

#[test]
fn env_only_config_has_no_overrides() {
    for env in ALL_ENVS {
        let c = env_only(env);
        assert_eq!(c.env, env);
        assert_no_overrides(&c);
    }
}

#[test]
fn new_local_is_canonical() {
    let c = ClusterTestOpt::new_local();
    assert_eq!(c.env, Env::NewLocal);
    assert_no_overrides(&c);
}

#[test]
fn new_local_equals_new_local_env_without_flags() {
    assert_eq!(env_only(Env::NewLocal), ClusterTestOpt::new_local());
}

#[test]
fn supplied_values_read_back_unchanged() {
    let c = ClusterTestOpt::new(
        Env::CiNomad,
        Some("http://faucet:5003".to_string()),
        Some(" 10.0.0.5:9000 ".to_string()),
        Some(u64::MAX),
        Some("".to_string()),
        true,
        Some("postgres://user@db/indexer".to_string()),
        true,
        Some(PathBuf::from("/tmp/cluster")),
        Some("http://gql:8000/graphql".to_string()),
    );
    assert_eq!(c.env, Env::CiNomad);
    assert_eq!(c.faucet_address.as_deref(), Some("http://faucet:5003"));
    assert_eq!(c.fullnode_address.as_deref(), Some(" 10.0.0.5:9000 "));
    assert_eq!(c.epoch_duration_ms, Some(u64::MAX));
    assert_eq!(c.indexer_address.as_deref(), Some(""));
    assert!(c.use_indexer_v2);
    assert_eq!(c.pg_address.as_deref(), Some("postgres://user@db/indexer"));
    assert!(c.use_indexer_experimental_methods);
    assert_eq!(c.config_dir, Some(PathBuf::from("/tmp/cluster")));
    assert_eq!(c.graphql_address.as_deref(), Some("http://gql:8000/graphql"));
}

#[test]
fn zero_epoch_duration_is_kept_apart_from_absent() {
    let c = ClusterTestOpt::new(Env::NewLocal, None, None, Some(0), None, false, None, false, None, None);
    assert_eq!(c.epoch_duration_ms, Some(0));
    assert_ne!(c, ClusterTestOpt::new_local());
}

#[test]
fn custom_remote_with_fullnode_and_indexer_v2() {
    let c = ClusterTestOpt::new(
        Env::CustomRemote,
        None,
        Some("10.0.0.5:9000".to_string()),
        None,
        None,
        true,
        None,
        false,
        None,
        None,
    );
    assert_eq!(c.env, Env::CustomRemote);
    assert_eq!(c.fullnode_address.as_deref(), Some("10.0.0.5:9000"));
    assert!(c.use_indexer_v2);
    assert_eq!(c.faucet_address, None);
    assert_eq!(c.epoch_duration_ms, None);
    assert_eq!(c.indexer_address, None);
    assert_eq!(c.pg_address, None);
    assert!(!c.use_indexer_experimental_methods);
    assert_eq!(c.config_dir, None);
    assert_eq!(c.graphql_address, None);
}

#[test]
fn env_names_parse() {
    assert_eq!(Env::from_name("devnet"), Some(Env::Devnet));
    assert_eq!(Env::from_name("staging"), Some(Env::Staging));
    assert_eq!(Env::from_name("ci"), Some(Env::Ci));
    assert_eq!(Env::from_name("ci-nomad"), Some(Env::CiNomad));
    assert_eq!(Env::from_name("testnet"), Some(Env::Testnet));
    assert_eq!(Env::from_name("custom-remote"), Some(Env::CustomRemote));
    assert_eq!(Env::from_name("new-local"), Some(Env::NewLocal));
}

#[test]
fn env_name_round_trip() {
    for env in ALL_ENVS {
        assert_eq!(Env::from_name(env.name()), Some(env));
    }
    assert_eq!(Env::CiNomad.name(), "ci-nomad");
    assert_eq!(Env::CustomRemote.name(), "custom-remote");
}

#[test]
fn unknown_env_name_rejected() {
    assert_eq!(Env::from_name("mainnet"), None);
    assert_eq!(Env::from_name(""), None);
    assert_eq!(Env::from_name("Devnet"), None);
    assert_eq!(Env::from_name("ci-"), None);
    assert_eq!(Env::from_name("cinomad"), None);
    assert_eq!(Env::from_name("new-local "), None);
    assert_eq!(Env::from_name("new-locał"), None);
}
