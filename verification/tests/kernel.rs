use std::time::Duration;

use nautilus_cache::config::CacheConfig;
use nautilus_cache::kernel::{
    ActionOutcome, BootStep, ClockKind, Environment, KernelAction, KernelBoot, KernelConfig,
    KernelError, LoggerFailure, NautilusKernel, Procedure,
};
use nautilus_cache::streaming::{RotationConfig, StreamingConfig};

fn config() -> KernelConfig {
    KernelConfig {
        environment: Environment::Sandbox,
        trader_id: "T-1".to_string(),
        load_state: true,
        save_state: false,
        use_tracing: true,
        instance_id: None,
        delay_post_stop: Duration::from_secs(5),
        cache: None,
        streaming: None,
    }
}

fn kernel() -> NautilusKernel {
    NautilusKernel::new(
        "node".to_string(),
        config(),
        "fresh".to_string(),
        Some("host".to_string()),
        Ok(()),
        7,
    )
    .unwrap()
}

/// Runs a procedure; `fails` names the action that fails, and the clock shows `now`.
fn drive(
    kernel: &mut NautilusKernel,
    mut procedure: Procedure,
    fails: Option<KernelAction>,
    running: bool,
    now: u64,
) -> (Vec<KernelAction>, Procedure) {
    let mut taken: Vec<KernelAction> = Vec::new();
    while let Some(action) = procedure.next_action() {
        taken.push(action);
        let outcome = match action {
            KernelAction::RecordStarted | KernelAction::RecordShutdown => ActionOutcome::Time(now),
            KernelAction::QueryTraderRunning => ActionOutcome::Running(running),
            action if Some(action) == fails => ActionOutcome::Failed("down".to_string()),
            _ => ActionOutcome::Done,
        };
        procedure.record(kernel, outcome);
    }
    (taken, procedure)
}

#[test]
fn a_new_kernel_has_not_been_started() {
    let k = kernel();
    assert_eq!(k.name(), "node");
    assert_eq!(k.instance_id(), "fresh");
    assert_eq!(k.machine_id(), "host");
    assert_eq!(k.trader_id(), "T-1");
    assert_eq!(k.environment(), Environment::Sandbox);
    assert_eq!(k.delay_post_stop(), Duration::from_secs(5));
    assert_eq!(k.ts_created(), 7);
    assert_eq!(k.ts_started(), None);
    assert_eq!(k.ts_shutdown(), None);
    assert!(k.load_state());
    assert!(!k.save_state());
}

#[test]
fn a_configured_instance_id_is_kept() {
    let mut config = config();
    config.instance_id = Some("given".to_string());
    let k = NautilusKernel::new(
        "node".to_string(),
        config,
        "fresh".to_string(),
        Some("host".to_string()),
        Ok(()),
        0,
    )
    .unwrap();
    assert_eq!(k.instance_id(), "given");
    assert_eq!(NautilusKernel::choose_instance_id(&k.config, "f".to_string()), "given");
    assert_eq!(NautilusKernel::choose_instance_id(&self::config(), "f".to_string()), "f");
}

#[test]
fn a_kernel_needs_a_host_name_and_logging() {
    let build = |host: Option<String>, logging| {
        NautilusKernel::new("node".to_string(), config(), "f".to_string(), host, logging, 0)
    };
    let failed = || Err(KernelError::Logging { cause: "no thread".to_string() });
    assert!(matches!(build(None, Ok(())), Err(KernelError::NoHostName)));
    assert!(matches!(build(None, failed()), Err(KernelError::NoHostName)));
    assert!(matches!(
        build(Some("host".to_string()), failed()),
        Err(KernelError::Logging { cause }) if cause == "no thread"
    ));
}

#[test]
fn the_machine_id_is_the_host_name() {
    assert_eq!(NautilusKernel::machine_id_from(Some("host".to_string())).unwrap(), "host");
    assert!(matches!(NautilusKernel::machine_id_from(None), Err(KernelError::NoHostName)));
    match (NautilusKernel::determine_machine_id(), sysinfo::System::host_name()) {
        (Ok(machine_id), Ok(host_name)) => assert_eq!(machine_id, host_name),
        (Err(e), Err(_)) => assert_eq!(e.message(), "Failed to determine hostname"),
        _ => panic!("machine ID and host name differ"),
    }
}

#[test]
fn kernel_error_messages() {
    let cause = || "cause".to_string();
    assert_eq!(KernelError::NoHostName.message(), "Failed to determine hostname");
    assert_eq!(
        KernelError::ForeignLogger { cause: cause() }.message(),
        "A non-Nautilus logger is already registered; cannot initialize Nautilus logging"
    );
    assert_eq!(KernelError::Logging { cause: cause() }.message(), "cause");
    assert_eq!(KernelError::Tracing { cause: cause() }.message(), "cause");
    assert_eq!(KernelError::Disconnect { cause: cause() }.message(), "cause");
}

#[test]
fn logging_recovers_only_from_an_earlier_logger() {
    let registered = || Err(LoggerFailure::AlreadyRegistered { cause: "set".to_string() });
    let other = || Err(LoggerFailure::Other { cause: "thread".to_string() });
    let guard = NautilusKernel::log_guard::<u8>;
    assert!(!NautilusKernel::needs_existing_guard(&Ok::<u8, LoggerFailure>(1)));
    assert!(NautilusKernel::needs_existing_guard::<u8>(&registered()));
    assert!(!NautilusKernel::needs_existing_guard::<u8>(&other()));
    assert_eq!(guard(Ok(1), None).unwrap(), 1);
    assert_eq!(guard(registered(), Some(2)).unwrap(), 2);
    assert!(matches!(
        guard(registered(), None),
        Err(KernelError::ForeignLogger { cause }) if cause == "set"
    ));
    assert!(matches!(
        guard(other(), Some(2)),
        Err(KernelError::Logging { cause }) if cause == "thread"
    ));
}

#[test]
fn tracing_comes_after_the_guard() {
    let good = || Ok::<u8, KernelError>(1);
    let bad = || Err::<u8, KernelError>(KernelError::Logging { cause: "no".to_string() });
    assert!(NautilusKernel::needs_tracing(&config(), &good(), false));
    assert!(!NautilusKernel::needs_tracing(&config(), &good(), true));
    assert!(!NautilusKernel::needs_tracing(&config(), &bad(), false));
    let mut silent = config();
    silent.use_tracing = false;
    assert!(!NautilusKernel::needs_tracing(&silent, &good(), false));
    assert_eq!(NautilusKernel::initialize_logging(good(), Ok(())).unwrap(), 1);
    assert!(matches!(
        NautilusKernel::initialize_logging(good(), Err("bridge".to_string())),
        Err(KernelError::Tracing { cause }) if cause == "bridge"
    ));
    assert!(matches!(
        NautilusKernel::initialize_logging(bad(), Ok(())),
        Err(KernelError::Logging { cause }) if cause == "no"
    ));
}

#[test]
fn the_clock_follows_the_environment() {
    assert_eq!(NautilusKernel::initialize_clock(Environment::Backtest, false), ClockKind::Test);
    assert_eq!(NautilusKernel::initialize_clock(Environment::Live, true), ClockKind::Live);
    assert_eq!(NautilusKernel::initialize_clock(Environment::Sandbox, true), ClockKind::Live);
}

#[test]
fn the_cache_is_configured_or_default() {
    let given = CacheConfig { bulk_read_batch_size: Some(3), ..Default::default() };
    assert_eq!(NautilusKernel::initialize_cache(Some(given)).bulk_read_batch_size, Some(3));
    assert_eq!(NautilusKernel::initialize_cache(None).bulk_read_batch_size, None);
}

#[test]
fn streaming_is_set_up_before_the_trader_is_created() {
    let plain = NautilusKernel::boot_steps(&config());
    assert_eq!(plain.len(), 16);
    assert!(!plain.contains(&BootStep::SetupStreaming));
    let mut streaming = config();
    streaming.streaming = Some(StreamingConfig {
        catalog_path: "c".to_string(),
        fs_protocol: "file".to_string(),
        flush_interval_ms: 1,
        rotation_config: RotationConfig::NoRotation,
    });
    let steps = NautilusKernel::boot_steps(&streaming);
    assert_eq!(steps.len(), 17);
    assert_eq!(steps[0], BootStep::DetermineMachineId);
    assert_eq!(steps[13..], [
        BootStep::RegisterExecHandlers,
        BootStep::SetupStreaming,
        BootStep::CreateTrader,
        BootStep::ReadClock,
    ]);
    let fatal: Vec<BootStep> = steps.into_iter().filter(|step| step.is_fatal()).collect();
    assert_eq!(fatal, vec![BootStep::DetermineMachineId, BootStep::InitializeLogging]);
}

/// Builds a kernel; the named step fails. Returns the steps taken, what is logged and the result.
fn boot(fails: Option<BootStep>) -> (Vec<BootStep>, Vec<String>, Result<(), String>) {
    let mut config = config();
    config.streaming = Some(StreamingConfig {
        catalog_path: "c".to_string(),
        fs_protocol: "file".to_string(),
        flush_interval_ms: 1,
        rotation_config: RotationConfig::NoRotation,
    });
    let mut boot = KernelBoot::new(&config);
    let mut taken: Vec<BootStep> = Vec::new();
    let mut logged: Vec<String> = Vec::new();
    while let Some(step) = boot.next_step() {
        taken.push(step);
        let outcome = if Some(step) == fails { Err("down".to_string()) } else { Ok(()) };
        logged.extend(boot.record(outcome));
    }
    (taken, logged, boot.result())
}

#[test]
fn only_a_fatal_failure_ends_the_boot() {
    let (all, logged, result) = boot(None);
    assert_eq!(all.len(), 17);
    assert!(logged.is_empty());
    assert!(result.is_ok());
    let (taken, logged, result) = boot(Some(BootStep::SetupStreaming));
    assert_eq!(taken, all);
    assert_eq!(logged, vec!["down"]);
    assert!(result.is_ok());
    let (taken, logged, result) = boot(Some(BootStep::DetermineMachineId));
    assert_eq!(taken, all[..1]);
    assert!(logged.is_empty());
    assert_eq!(result, Err("down".to_string()));
    let (taken, _, result) = boot(Some(BootStep::InitializeLogging));
    assert_eq!(taken, all[..2]);
    assert_eq!(result, Err("down".to_string()));
}

#[test]
fn a_builder_holds_what_it_is_given() {
    let builder =
        NautilusKernel::builder("node".to_string(), "T-1".to_string(), Environment::Live);
    assert_eq!(builder.name, "node");
    assert_eq!(builder.trader_id, "T-1");
    assert_eq!(builder.environment, Environment::Live);
}

#[test]
fn start_records_the_time() {
    for fails in [None, Some(KernelAction::StartClients)] {
        let mut k = kernel();
        let procedure = k.start();
        let (taken, _) = drive(&mut k, procedure, fails, true, 100);
        assert_eq!(taken, vec![
            KernelAction::StartDataEngine,
            KernelAction::StartExecEngine,
            KernelAction::StartRiskEngine,
            KernelAction::InitializeTrader,
            KernelAction::StartClients,
            KernelAction::RecordStarted,
        ]);
        assert_eq!(k.ts_started(), Some(100));
        assert_eq!(k.ts_shutdown(), None);
    }
}

#[test]
fn start_ends_when_the_trader_cannot_be_initialized() {
    let mut k = kernel();
    let procedure = k.start();
    let (taken, _) = drive(&mut k, procedure, Some(KernelAction::InitializeTrader), true, 100);
    assert_eq!(taken.len(), 4);
    assert_eq!(k.ts_started(), None);
}

#[test]
fn shutdown_and_reset() {
    let mut k = kernel();
    let procedure = k.start();
    drive(&mut k, procedure, None, true, 100);
    let procedure = k.finalize_stop();
    let (taken, _) = drive(&mut k, procedure, Some(KernelAction::StopClients), true, 200);
    assert_eq!(taken, vec![
        KernelAction::StopClients,
        KernelAction::StopDataEngine,
        KernelAction::StopExecEngine,
        KernelAction::StopRiskEngine,
        KernelAction::CancelTimers,
        KernelAction::RecordShutdown,
    ]);
    assert_eq!((k.ts_started(), k.ts_shutdown()), (Some(100), Some(200)));
    let procedure = k.reset();
    let (taken, _) = drive(&mut k, procedure, Some(KernelAction::ResetTrader), true, 300);
    assert_eq!(taken[..4], [
        KernelAction::ResetTrader,
        KernelAction::ResetDataEngine,
        KernelAction::ResetExecEngine,
        KernelAction::ResetRiskEngine,
    ]);
    assert_eq!((k.ts_started(), k.ts_shutdown()), (None, None));
    assert_eq!(k.ts_created(), 7);
}

#[test]
fn only_a_running_trader_is_stopped() {
    let mut k = kernel();
    let procedure = k.stop_trader();
    let (taken, _) = drive(&mut k, procedure, None, false, 0);
    assert_eq!(taken, vec![KernelAction::QueryTraderRunning]);
    let procedure = k.stop_trader();
    let (taken, _) = drive(&mut k, procedure, None, true, 0);
    assert_eq!(taken, vec![KernelAction::QueryTraderRunning, KernelAction::StopTrader]);
    let procedure = k.start_trader();
    let (taken, _) = drive(&mut k, procedure, Some(KernelAction::StartTrader), true, 0);
    assert_eq!(taken, vec![KernelAction::StartTrader]);
}

#[test]
fn dispose_stops_the_engines_first() {
    let mut k = kernel();
    let procedure = k.dispose();
    let (taken, procedure) = drive(&mut k, procedure, Some(KernelAction::DisposeTrader), true, 0);
    assert_eq!(taken, vec![
        KernelAction::DisposeTrader,
        KernelAction::StopDataEngine,
        KernelAction::StopExecEngine,
        KernelAction::StopRiskEngine,
        KernelAction::DisposeDataEngine,
        KernelAction::DisposeExecEngine,
        KernelAction::DisposeRiskEngine,
    ]);
    assert!(procedure.result().is_ok());
}

#[test]
fn clients_are_connected_and_disconnected() {
    let mut k = kernel();
    let procedure = k.connect_clients();
    let (taken, procedure) = drive(&mut k, procedure, None, true, 0);
    assert_eq!(taken, vec![KernelAction::ConnectDataClients, KernelAction::ConnectExecClients]);
    assert!(procedure.result().is_ok());

    let procedure = k.disconnect_clients();
    let (taken, procedure) =
        drive(&mut k, procedure, Some(KernelAction::DisconnectDataClients), true, 0);
    assert_eq!(taken, vec![KernelAction::DisconnectDataClients]);
    assert_eq!(procedure.result().unwrap_err().message(), "down");

    let procedure = k.disconnect_clients();
    let (taken, procedure) =
        drive(&mut k, procedure, Some(KernelAction::DisconnectExecClients), true, 0);
    assert_eq!(taken.len(), 2);
    assert!(matches!(procedure.result(), Err(KernelError::Disconnect { .. })));

    let procedure = k.disconnect_clients();
    let (_, procedure) = drive(&mut k, procedure, None, true, 0);
    assert!(procedure.result().is_ok());
}

#[test]
fn client_errors_are_collected_in_order() {
    let k = kernel();
    assert_eq!(k.start_clients(vec![Ok(()), Err(1), Ok(()), Err(2)]), Err(vec![1, 2]));
    assert_eq!(k.stop_all_clients(vec![Err(3)]), Err(vec![3]));
    assert_eq!(k.start_clients::<u8>(vec![Ok(()), Ok(())]), Ok(()));
    assert_eq!(k.stop_all_clients::<u8>(Vec::new()), Ok(()));
}

#[test]
fn engines_are_connected_together() {
    let k = kernel();
    assert!(k.check_engines_connected(true, true));
    assert!(!k.check_engines_connected(true, false));
    assert!(!k.check_engines_connected(false, true));
    assert!(k.check_engines_disconnected(true, true));
    assert!(!k.check_engines_disconnected(false, true));
}
