use ue_cell_config::arguments::{
    DEFAULT_DOWNLOAD_BASE_ADDR, DEFAULT_LOG_BASE_DIR, DEFAULT_MILESIGHT_ADDRESS,
    DEFAULT_MILESIGHT_AUTH, DEFAULT_MILESIGHT_USER, DEFAULT_MODEL_INTERVAL_VALUE,
    DEFAULT_MODEL_SMOOTHING_VALUE, DEFAULT_NG_LOG_FILE,
};
use ue_cell_config::flatten::{FlattenedArguments, FlattenedCellApiConfig};
use ue_cell_config::{
    resolve, Arguments, CellApiConfig, ConfigError, DevicePublisherArgs, LogArgs, MilesightArgs,
    NgScopeArgs, RntiMatchingTrafficPatternType, Scenario,
};

fn empty_cli() -> Arguments {
    Arguments {
        scenario: None,
        cellapi: None,
        milesight: None,
        devicepublisher: None,
        ngscope: None,
        rntimatching: None,
        model: None,
        log: None,
        download: None,
        verbose: None,
    }
}

#[test]
fn default_table_holds_every_leaf() {
    let d = Arguments::default();
    assert_eq!(d.scenario, Some(Scenario::TrackUeAndEstimateTransportCapacity));
    assert_eq!(d.cellapi, Some(CellApiConfig::Milesight));
    assert_eq!(d.verbose, Some(true));
    let m = d.milesight.clone().unwrap();
    assert_eq!(m.milesight_address.as_deref(), Some("http://127.0.0.1:8080"));
    assert_eq!(m.milesight_user.as_deref(), Some("root"));
    assert_eq!(m.milesight_auth.as_deref(), Some("root-password"));
    let ng = d.ngscope.clone().unwrap();
    assert_eq!(ng.ng_log_file.as_deref(), Some(DEFAULT_NG_LOG_FILE));
    assert_eq!(ng.ng_log_dci_batch_size, Some(60000));
    let rnti = d.rntimatching.clone().unwrap();
    assert_eq!(rnti.matching_traffic_pattern, Some(vec![RntiMatchingTrafficPatternType::A]));
    let model = d.model.clone().unwrap();
    assert_eq!(model.model_send_metric_interval_value, Some(1.0f64.to_bits()));
    assert_eq!(f64::from_bits(DEFAULT_MODEL_SMOOTHING_VALUE), 1.0);
    assert_eq!(model.model_log_metric, Some(true));
    let download = d.download.clone().unwrap();
    let paths = download.download_paths.unwrap();
    assert_eq!(paths.len(), 22);
    assert_eq!(paths[0], "/10s/cubic");
    assert_eq!(paths[11], "/60s/cubic");
    assert_eq!(paths[21], "/60s/l2b/fair1/direct");
    assert_eq!(d.log.unwrap().log_base_dir.as_deref(), Some(DEFAULT_LOG_BASE_DIR));
}

#[test]
fn cli_value_wins_over_stored_value() {
    let mut cli = empty_cli();
    cli.scenario = Some(Scenario::PerformMeasurement);
    cli.milesight = Some(MilesightArgs {
        milesight_address: None,
        milesight_user: Some("admin".to_string()),
        milesight_auth: None,
    });
    cli.log = Some(LogArgs { log_base_dir: Some("/var/log/ue".to_string()) });
    let merged = cli.merge_config_file(Arguments::default()).unwrap();
    assert_eq!(merged.scenario, Some(Scenario::PerformMeasurement));
    let m = merged.milesight.unwrap();
    assert_eq!(m.milesight_user.as_deref(), Some("admin"));
    assert_eq!(m.milesight_address.as_deref(), Some(DEFAULT_MILESIGHT_ADDRESS));
    assert_eq!(m.milesight_auth.as_deref(), Some(DEFAULT_MILESIGHT_AUTH));
    assert_eq!(merged.log.unwrap().log_base_dir.as_deref(), Some("/var/log/ue"));
}

#[test]
fn omitted_leaf_takes_stored_value() {
    let mut stored = Arguments::default();
    stored.verbose = Some(false);
    stored.ngscope.as_mut().unwrap().ng_log_dci_batch_size = Some(500);
    let mut cli = empty_cli();
    cli.ngscope = Some(NgScopeArgs {
        ng_path: Some("/opt/ngscope".to_string()),
        ng_local_addr: None,
        ng_server_addr: None,
        ng_log_file: None,
        ng_start_process: Some(false),
        ng_log_dci: None,
        ng_log_dci_batch_size: None,
    });
    let merged = cli.merge_config_file(stored).unwrap();
    assert_eq!(merged.verbose, Some(false));
    let ng = merged.ngscope.unwrap();
    assert_eq!(ng.ng_path.as_deref(), Some("/opt/ngscope"));
    assert_eq!(ng.ng_start_process, Some(false));
    assert_eq!(ng.ng_log_dci_batch_size, Some(500));
    assert_eq!(ng.ng_log_dci, Some(true));
    assert_eq!(ng.ng_local_addr.as_deref(), Some("0.0.0.0:9191"));
}

#[test]
fn empty_cli_over_default_snapshot_is_default_table() {
    let r = resolve(empty_cli(), Some(Arguments::default())).unwrap();
    assert!(r.seed.is_none());
    assert_eq!(r.working, Arguments::default());
}

#[test]
fn partial_section_without_stored_section_fails() {
    let mut stored = Arguments::default();
    stored.devicepublisher = None;
    let mut cli = empty_cli();
    cli.devicepublisher = Some(DevicePublisherArgs {
        devpub_address: Some("10.0.0.1".to_string()),
        devpub_auth: None,
    });
    assert_eq!(cli.merge_config_file(stored).unwrap_err(), ConfigError::MissingStoredSection);
}

#[test]
fn absent_cli_section_adopts_stored_section() {
    let mut stored = Arguments::default();
    stored.devicepublisher = None;
    let merged = empty_cli().merge_config_file(stored).unwrap();
    assert!(merged.devicepublisher.is_none());
    assert_eq!(
        merged.download.unwrap().download_base_addr.as_deref(),
        Some(DEFAULT_DOWNLOAD_BASE_ADDR)
    );
}

#[test]
fn resolve_reports_missing_stored_section() {
    let mut stored = Arguments::default();
    stored.model = None;
    let mut cli = empty_cli();
    cli.model = Some(ue_cell_config::ModelArgs {
        model_send_metric_interval_value: Some(2.5f64.to_bits()),
        model_send_metric_interval_type: None,
        model_metric_smoothing_size_value: None,
        model_metric_smoothing_size_type: None,
        model_log_metric: None,
    });
    assert_eq!(resolve(cli, Some(stored)).err(), Some(ConfigError::MissingStoredSection));
}

#[test]
fn prior_store_track_cell_dci_only_scenario() {
    let mut cli = empty_cli();
    cli.scenario = Some(Scenario::TrackCellDciOnly);
    cli.cellapi = Some(CellApiConfig::Milesight);
    cli.verbose = Some(true);
    let r = resolve(cli, Some(Arguments::default())).unwrap();
    assert!(r.seed.is_none());
    let working = r.working;
    assert_eq!(working.scenario, Some(Scenario::TrackCellDciOnly));
    assert_eq!(working.cellapi, Some(CellApiConfig::Milesight));
    assert_eq!(working.verbose, Some(true));
    let d = Arguments::default();
    assert_eq!(working.milesight, d.milesight);
    assert_eq!(working.devicepublisher, d.devicepublisher);
    assert_eq!(working.ngscope, d.ngscope);
    assert_eq!(working.rntimatching, d.rntimatching);
    assert_eq!(working.model, d.model);
    assert_eq!(working.log, d.log);
    assert_eq!(working.download, d.download);
    let flat = FlattenedArguments::from_unflattened(working).unwrap();
    assert_eq!(flat.scenario, Scenario::TrackCellDciOnly);
    assert!(flat.verbose);
    match flat.cellapi {
        FlattenedCellApiConfig::Milesight(m) => {
            assert_eq!(m.milesight_address, DEFAULT_MILESIGHT_ADDRESS);
            assert_eq!(m.milesight_user, DEFAULT_MILESIGHT_USER);
            assert_eq!(m.milesight_auth, DEFAULT_MILESIGHT_AUTH);
        }
        FlattenedCellApiConfig::DevicePublisher(_) => panic!("expected the Milesight variant"),
    }
    assert_eq!(flat.model.model_send_metric_interval_value, DEFAULT_MODEL_INTERVAL_VALUE);
    assert_eq!(flat.ngscope.ng_log_file, DEFAULT_NG_LOG_FILE);
}

#[test]
fn first_run_seeds_store_and_keeps_cli_unmerged() {
    let mut cli = empty_cli();
    cli.scenario = Some(Scenario::PerformMeasurement);
    let r = resolve(cli.clone(), None).unwrap();
    assert_eq!(r.seed, Some(Arguments::default()));
    assert_eq!(r.working, cli);
    assert!(r.working.milesight.is_none());
    assert!(r.working.verbose.is_none());
    assert_eq!(
        FlattenedArguments::from_unflattened(r.working).err(),
        Some(ConfigError::IncompleteAfterMerge)
    );
}
