use ue_cell_config::arguments::DEFAULT_DEVPUB_ADDRESS;
use ue_cell_config::flatten::{
    FlattenedArguments, FlattenedCellApiConfig, FlattenedDownloadArgs, FlattenedLogArgs,
    FlattenedModelArgs, FlattenedNgScopeArgs, FlattenedRntiMatchingArgs,
};
use ue_cell_config::{
    Arguments, CellApiConfig, ConfigError, DevicePublisherArgs, DownloadArgs, DynamicValue, LogArgs,
    MilesightArgs, ModelArgs, NgScopeArgs, RntiMatchingArgs, RntiMatchingTrafficPatternType,
};

#[test]
fn unused_data_source_may_be_absent() {
    let mut args = Arguments::default();
    args.cellapi = Some(CellApiConfig::Milesight);
    args.devicepublisher = None;
    let flat = FlattenedArguments::from_unflattened(args).unwrap();
    assert!(matches!(flat.cellapi, FlattenedCellApiConfig::Milesight(_)));
}

#[test]
fn unused_data_source_may_be_partial() {
    let mut args = Arguments::default();
    args.cellapi = Some(CellApiConfig::DevicePublisher);
    args.milesight = Some(MilesightArgs {
        milesight_address: None,
        milesight_user: None,
        milesight_auth: None,
    });
    let flat = FlattenedArguments::from_unflattened(args).unwrap();
    match flat.cellapi {
        FlattenedCellApiConfig::DevicePublisher(d) => {
            assert_eq!(d.devpub_address, DEFAULT_DEVPUB_ADDRESS);
            assert_eq!(d.devpub_auth, "some_auth");
        }
        FlattenedCellApiConfig::Milesight(_) => panic!("expected the DevicePublisher variant"),
    }
}

#[test]
fn selected_data_source_must_be_complete() {
    let mut args = Arguments::default();
    args.cellapi = Some(CellApiConfig::DevicePublisher);
    args.devicepublisher = Some(DevicePublisherArgs {
        devpub_address: Some("10.0.0.2".to_string()),
        devpub_auth: None,
    });
    assert_eq!(
        FlattenedArguments::from_unflattened(args).err(),
        Some(ConfigError::IncompleteAfterMerge)
    );
}

#[test]
fn unresolved_logging_leaf_fails_flattening() {
    let mut args = Arguments::default();
    args.log = Some(LogArgs { log_base_dir: None });
    assert_eq!(
        FlattenedArguments::from_unflattened(args).err(),
        Some(ConfigError::IncompleteAfterMerge)
    );
}

#[test]
fn absent_download_section_fails_flattening() {
    let mut args = Arguments::default();
    args.download = None;
    assert_eq!(
        FlattenedArguments::from_unflattened(args).err(),
        Some(ConfigError::IncompleteAfterMerge)
    );
}

#[test]
fn missing_data_source_choice_fails_flattening() {
    let mut args = Arguments::default();
    args.cellapi = None;
    assert_eq!(
        FlattenedArguments::from_unflattened(args).err(),
        Some(ConfigError::IncompleteAfterMerge)
    );
}

#[test]
fn cell_api_config_selects_variant() {
    let milesight = MilesightArgs {
        milesight_address: Some("http://router".to_string()),
        milesight_user: Some("u".to_string()),
        milesight_auth: Some("a".to_string()),
    };
    let devpub = DevicePublisherArgs { devpub_address: None, devpub_auth: None };
    let flat =
        FlattenedCellApiConfig::from_unflattened(CellApiConfig::Milesight, milesight.clone(), devpub.clone())
            .unwrap();
    match flat {
        FlattenedCellApiConfig::Milesight(m) => {
            assert_eq!(m.milesight_address, "http://router");
            assert_eq!(m.milesight_user, "u");
            assert_eq!(m.milesight_auth, "a");
        }
        FlattenedCellApiConfig::DevicePublisher(_) => panic!("expected the Milesight variant"),
    }
    assert_eq!(
        FlattenedCellApiConfig::from_unflattened(CellApiConfig::DevicePublisher, milesight, devpub)
            .err(),
        Some(ConfigError::IncompleteAfterMerge)
    );
}

#[test]
fn ngscope_section_flattens_every_leaf() {
    let ng = NgScopeArgs {
        ng_path: Some("/bin/ngscope".to_string()),
        ng_local_addr: Some("0.0.0.0:1".to_string()),
        ng_server_addr: Some("0.0.0.0:2".to_string()),
        ng_log_file: Some("log.txt".to_string()),
        ng_start_process: Some(false),
        ng_log_dci: Some(true),
        ng_log_dci_batch_size: Some(7),
    };
    let flat = FlattenedNgScopeArgs::from_unflattened(ng.clone()).unwrap();
    assert_eq!(flat.ng_path, "/bin/ngscope");
    assert_eq!(flat.ng_server_addr, "0.0.0.0:2");
    assert_eq!(flat.ng_log_file, "log.txt");
    assert!(!flat.ng_start_process);
    assert_eq!(flat.ng_log_dci_batch_size, 7);
    let mut partial = ng;
    partial.ng_log_file = None;
    assert_eq!(
        FlattenedNgScopeArgs::from_unflattened(partial).err().unwrap(),
        ConfigError::IncompleteAfterMerge
    );
}

#[test]
fn rnti_section_flattens_every_leaf() {
    let rnti = RntiMatchingArgs {
        matching_local_addr: Some("0.0.0.0:9".to_string()),
        matching_traffic_pattern: Some(vec![
            RntiMatchingTrafficPatternType::B,
            RntiMatchingTrafficPatternType::C,
        ]),
        matching_traffic_destination: Some("1.2.3.4:5".to_string()),
        matching_log_traffic: Some(false),
    };
    let flat = FlattenedRntiMatchingArgs::from_unflattened(rnti.clone()).unwrap();
    assert_eq!(
        flat.matching_traffic_pattern,
        vec![RntiMatchingTrafficPatternType::B, RntiMatchingTrafficPatternType::C]
    );
    assert_eq!(flat.matching_traffic_destination, "1.2.3.4:5");
    let mut partial = rnti;
    partial.matching_traffic_pattern = None;
    assert!(FlattenedRntiMatchingArgs::from_unflattened(partial).is_err());
}

#[test]
fn model_section_flattens_every_leaf() {
    let model = ModelArgs {
        model_send_metric_interval_value: Some(2.5f64.to_bits()),
        model_send_metric_interval_type: Some(DynamicValue::FixedMs),
        model_metric_smoothing_size_value: Some(0.5f64.to_bits()),
        model_metric_smoothing_size_type: Some(DynamicValue::RttFactor),
        model_log_metric: Some(false),
    };
    let flat = FlattenedModelArgs::from_unflattened(model.clone()).unwrap();
    assert_eq!(f64::from_bits(flat.model_send_metric_interval_value), 2.5);
    assert_eq!(flat.model_send_metric_interval_type, DynamicValue::FixedMs);
    assert_eq!(f64::from_bits(flat.model_metric_smoothing_size_value), 0.5);
    assert!(!flat.model_log_metric);
    let mut partial = model;
    partial.model_log_metric = None;
    assert!(FlattenedModelArgs::from_unflattened(partial).is_err());
}

#[test]
fn log_and_download_sections_flatten() {
    let log = FlattenedLogArgs::from_unflattened(LogArgs { log_base_dir: Some("/tmp/l".to_string()) })
        .unwrap();
    assert_eq!(log.log_base_dir, "/tmp/l");
    assert!(FlattenedLogArgs::from_unflattened(LogArgs { log_base_dir: None }).is_err());
    let download = DownloadArgs {
        download_base_addr: Some("h:1".to_string()),
        download_paths: Some(vec![]),
    };
    let flat = FlattenedDownloadArgs::from_unflattened(download).unwrap();
    assert_eq!(flat.download_base_addr, "h:1");
    assert!(flat.download_paths.is_empty());
    let missing = DownloadArgs { download_base_addr: Some("h:1".to_string()), download_paths: None };
    assert!(FlattenedDownloadArgs::from_unflattened(missing).is_err());
}
