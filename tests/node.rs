use grin_gui_core::bootstrap::{
    config_file_path, resolve_home, secret_file_path, BootstrapProbe, BootstrapStep, SecretKind,
};
use grin_gui_core::chain::ChainType;
use grin_gui_core::controller::{Controller, ControllerAction, ControllerMessage};
use grin_gui_core::policy::{NodeRuntimePolicy, NodeSettings};
use grin_gui_core::supervisor::{
    BootstrapError, BootstrapFailure, NodeError, NodeInterface, Phase,
};

fn settings() -> NodeSettings {
    NodeSettings { accept_fee_base: 500_000, future_time_limit: 300 }
}

fn supervisor() -> NodeInterface<u32, &'static str> {
    let mut ni = NodeInterface::new();
    ni.set_ui_sender(7u32);
    ni
}

#[test]
fn shortnames_of_chains() {
    assert_eq!("auto", ChainType::AutomatedTesting.shortname());
    assert_eq!("user", ChainType::UserTesting.shortname());
    assert_eq!("test", ChainType::Testnet.shortname());
    assert_eq!("main", ChainType::Mainnet.shortname());
}

#[test]
fn home_and_file_paths() {
    assert_eq!(vec![".grin", "test", "grin_node", "default"], resolve_home(ChainType::Testnet));
    assert_eq!(
        vec![".grin", "main", "grin_node", "default", ".api_secret"],
        secret_file_path(ChainType::Mainnet, SecretKind::NodeApi)
    );
    assert_eq!(
        vec![".grin", "main", "grin_node", "default", ".foreign_api_secret"],
        secret_file_path(ChainType::Mainnet, SecretKind::ForeignApi)
    );
    assert_eq!(
        vec![".grin", "test", "grin_node", "default", "grin-server.toml"],
        config_file_path(ChainType::Testnet)
    );
}

#[test]
fn resolve_home_twice_is_stable() {
    for chain in [
        ChainType::AutomatedTesting,
        ChainType::UserTesting,
        ChainType::Testnet,
        ChainType::Mainnet,
    ] {
        let fresh = BootstrapProbe::fresh();
        let first = fresh.plan();
        assert_eq!(BootstrapStep::CreateHome, first[0]);
        let after = fresh.after(&first);
        assert!(!after.plan().contains(&BootstrapStep::CreateHome));
        assert_eq!(resolve_home(chain), resolve_home(chain));
    }
}

#[test]
fn second_load_reads_the_same_file() {
    let probe = BootstrapProbe {
        home_exists: true,
        node_api_secret_exists: true,
        foreign_api_secret_exists: false,
        config_exists: false,
    };
    let after = probe.after(&probe.plan());
    assert_eq!(
        vec![
            BootstrapStep::CheckSecret(SecretKind::NodeApi),
            BootstrapStep::CheckSecret(SecretKind::ForeignApi),
            BootstrapStep::LoadConfig,
        ],
        after.plan()
    );
}

#[test]
fn policy_depends_on_chain() {
    let main = NodeRuntimePolicy::for_chain(ChainType::Mainnet, &settings());
    assert!(!main.nrd_enabled);
    assert_eq!(500_000, main.accept_fee_base);
    assert_eq!(300, main.future_time_limit);
    let test = NodeRuntimePolicy::for_chain(ChainType::Testnet, &settings());
    assert!(test.nrd_enabled);
    assert_eq!(ChainType::Testnet, test.chain_type);
}

#[test]
fn fresh_testnet_start_stop_start() {
    let mut ni = supervisor();
    let plan = ni.start_server(ChainType::Testnet, BootstrapProbe::fresh()).unwrap();
    assert_eq!(
        vec![
            BootstrapStep::CreateHome,
            BootstrapStep::InitSecret(SecretKind::NodeApi),
            BootstrapStep::InitSecret(SecretKind::ForeignApi),
            BootstrapStep::WriteDefaultConfig,
            BootstrapStep::LoadConfig,
        ],
        plan
    );
    let on_disk = BootstrapProbe::fresh().after(&plan);
    let policy = ni.complete_start(settings(), "first");
    assert!(policy.nrd_enabled);
    assert!(ni.node_started());

    let order = ni.shutdown_server(true).unwrap();
    assert!(order.join);
    assert_eq!("first", order.handle);
    assert!(!ni.node_started());

    let plan = ni.start_server(ChainType::Testnet, on_disk).unwrap();
    assert!(!plan.contains(&BootstrapStep::WriteDefaultConfig));
    assert!(plan.contains(&BootstrapStep::LoadConfig));
    ni.complete_start(settings(), "second");
    assert!(ni.node_started());
    assert_eq!(Some(ChainType::Testnet), ni.chain_type);
}

#[test]
fn corrupt_config_leaves_supervisor_idle() {
    let mut ni = supervisor();
    let probe = BootstrapProbe {
        home_exists: true,
        node_api_secret_exists: true,
        foreign_api_secret_exists: true,
        config_exists: true,
    };
    ni.start_server(ChainType::Testnet, probe).unwrap();
    let err = ni.abort_start(BootstrapError {
        failure: BootstrapFailure::ConfigParse,
        reason: "expected `=`".to_owned(),
    });
    assert!(matches!(
        err,
        NodeError::Bootstrap(BootstrapError { failure: BootstrapFailure::ConfigParse, .. })
    ));
    assert!(matches!(ni.phase, Phase::Idle));
    assert!(!ni.node_started());
    assert_eq!(None, ni.chain_type);
    assert!(ni.shutdown_server(true).is_none());
}

#[test]
fn double_start_is_refused() {
    let mut ni = supervisor();
    ni.start_server(ChainType::Mainnet, BootstrapProbe::fresh()).unwrap();
    ni.complete_start(settings(), "only");
    let r = ni.start_server(ChainType::Testnet, BootstrapProbe::fresh());
    assert!(matches!(r, Err(NodeError::AlreadyActive)));
    match &ni.phase {
        Phase::Running(instance) => {
            assert_eq!("only", instance.handle);
            assert_eq!(ChainType::Mainnet, instance.chain_type);
        }
        _ => panic!("instance lost"),
    }
}

#[test]
fn start_needs_ui_sender() {
    let mut ni: NodeInterface<u32, &'static str> = NodeInterface::new();
    let r = ni.start_server(ChainType::Testnet, BootstrapProbe::fresh());
    assert!(matches!(r, Err(NodeError::NoUiSender)));
    assert!(matches!(ni.phase, Phase::Idle));
}

#[test]
fn stop_when_idle_is_a_no_op() {
    let mut ni = supervisor();
    assert!(ni.shutdown_server(false).is_none());
    assert!(ni.shutdown_server(true).is_none());
    assert!(matches!(ni.phase, Phase::Idle));
}

#[test]
fn restart_waits_then_starts() {
    let mut ni = supervisor();
    ni.start_server(ChainType::Mainnet, BootstrapProbe::fresh()).unwrap();
    ni.complete_start(settings(), "old");
    let (order, started) = ni.restart_server(ChainType::Testnet, BootstrapProbe::fresh());
    let order = order.unwrap();
    assert!(order.join);
    assert_eq!("old", order.handle);
    assert!(started.is_ok());
    assert!(matches!(ni.phase, Phase::Starting(ChainType::Testnet)));
}

#[test]
fn controller_pushes_once_per_interval() {
    let mut c = Controller::new(100, 1);
    assert_eq!(101, c.next_stat_update);
    assert_eq!(ControllerAction::Wait, c.step(100, None));
    assert_eq!(ControllerAction::PushStatus, c.step(101, None));
    assert_eq!(102, c.next_stat_update);
    assert_eq!(ControllerAction::Wait, c.step(101, None));
    assert_eq!(ControllerAction::PushStatus, c.step(105, None));
    assert_eq!(106, c.next_stat_update);
}

#[test]
fn controller_survives_undelivered_status() {
    let mut c = Controller::new(0, 1);
    assert_eq!(ControllerAction::PushStatus, c.step(1, None));
    c.record_push(false);
    c.record_push(false);
    assert_eq!(2, c.undelivered);
    assert_ne!(ControllerAction::StopNode, c.step(1, None));
    assert_eq!(ControllerAction::PushStatus, c.step(2, None));
    c.record_push(true);
    assert_eq!(2, c.undelivered);
}

#[test]
fn controller_stops_on_shutdown() {
    let mut c = Controller::new(0, 1);
    assert_eq!(ControllerAction::StopNode, c.step(5, Some(ControllerMessage::Shutdown)));
    assert_eq!(1, c.next_stat_update);
}

#[test]
fn controller_deadline_saturates() {
    let c = Controller::new(i64::MAX, 1);
    assert_eq!(i64::MAX, c.next_stat_update);
}

#[test]
fn full_and_closed_status_channel_do_not_stop_the_loop() {
    let (mut ui_tx, ui_rx) = futures::channel::mpsc::channel::<u64>(0);
    let mut c = Controller::new(0, 1);
    let mut delivered = Vec::new();
    for now in 1..=3 {
        if c.step(now, None) == ControllerAction::PushStatus {
            let ok = ui_tx.try_send(now as u64).is_ok();
            delivered.push(ok);
            c.record_push(ok);
        }
    }
    assert_eq!(vec![true, false, false], delivered);
    assert_eq!(2, c.undelivered);
    drop(ui_rx);
    assert_eq!(ControllerAction::PushStatus, c.step(4, None));
    let ok = ui_tx.try_send(4).is_ok();
    assert!(!ok);
    c.record_push(ok);
    assert_eq!(3, c.undelivered);
    assert_eq!(ControllerAction::Wait, c.step(4, None));
    assert_eq!(ControllerAction::StopNode, c.step(4, Some(ControllerMessage::Shutdown)));
}
