use vstd::prelude::*;

use crate::options::{
    CellApiConfig, ConfigError, DynamicValue, RntiMatchingTrafficPatternType, Scenario,
};
use crate::sections::{
    first_given, DevicePublisherArgs, DownloadArgs, LogArgs, MilesightArgs, ModelArgs, NgScopeArgs,
    RntiMatchingArgs,
};

verus! {

/// The name of one leaf field of the configuration.
pub ghost enum LeafField {
    Scenario,
    CellApi,
    Verbose,
    MilesightAddress,
    MilesightUser,
    MilesightAuth,
    DevpubAddress,
    DevpubAuth,
    NgPath,
    NgLocalAddr,
    NgServerAddr,
    NgLogFile,
    NgStartProcess,
    NgLogDci,
    NgLogDciBatchSize,
    MatchingLocalAddr,
    MatchingTrafficPattern,
    MatchingTrafficDestination,
    MatchingLogTraffic,
    ModelSendMetricIntervalValue,
    ModelSendMetricIntervalType,
    ModelMetricSmoothingSizeValue,
    ModelMetricSmoothingSizeType,
    ModelLogMetric,
    LogBaseDir,
    DownloadBaseAddr,
    DownloadPaths,
}

impl LeafField {
    /// The leaf belongs to a section that is flattened whatever the
    /// scenario: probe process, traffic matching, model, logging or
    /// downloads.
    pub open spec fn is_scenario_agnostic(self) -> bool {
        ||| self is NgPath
        ||| self is NgLocalAddr
        ||| self is NgServerAddr
        ||| self is NgLogFile
        ||| self is NgStartProcess
        ||| self is NgLogDci
        ||| self is NgLogDciBatchSize
        ||| self is MatchingLocalAddr
        ||| self is MatchingTrafficPattern
        ||| self is MatchingTrafficDestination
        ||| self is MatchingLogTraffic
        ||| self is ModelSendMetricIntervalValue
        ||| self is ModelSendMetricIntervalType
        ||| self is ModelMetricSmoothingSizeValue
        ||| self is ModelMetricSmoothingSizeType
        ||| self is ModelLogMetric
        ||| self is LogBaseDir
        ||| self is DownloadBaseAddr
        ||| self is DownloadPaths
    }
}

/// The value of a leaf field, with strings and lists taken by their views.
pub ghost enum LeafValue {
    Mode(Scenario),
    Source(CellApiConfig),
    Flag(bool),
    Number(u64),
    Text(Seq<char>),
    Interpretation(DynamicValue),
    Patterns(Seq<RntiMatchingTrafficPatternType>),
    Texts(Seq<Seq<char>>),
}

/// An optional mode value, as a leaf.
pub open spec fn mode_leaf(o: Option<Scenario>) -> Option<LeafValue> {
    match o {
        Some(v) => Some(LeafValue::Mode(v)),
        None => None,
    }
}

/// An optional source value, as a leaf.
pub open spec fn source_leaf(o: Option<CellApiConfig>) -> Option<LeafValue> {
    match o {
        Some(v) => Some(LeafValue::Source(v)),
        None => None,
    }
}

/// An optional flag value, as a leaf.
pub open spec fn flag_leaf(o: Option<bool>) -> Option<LeafValue> {
    match o {
        Some(v) => Some(LeafValue::Flag(v)),
        None => None,
    }
}

/// An optional number value, as a leaf.
pub open spec fn number_leaf(o: Option<u64>) -> Option<LeafValue> {
    match o {
        Some(v) => Some(LeafValue::Number(v)),
        None => None,
    }
}

/// An optional text value, as a leaf.
pub open spec fn text_leaf(o: Option<String>) -> Option<LeafValue> {
    match o {
        Some(v) => Some(LeafValue::Text(v@)),
        None => None,
    }
}

/// An optional interpretation value, as a leaf.
pub open spec fn interpretation_leaf(o: Option<DynamicValue>) -> Option<LeafValue> {
    match o {
        Some(v) => Some(LeafValue::Interpretation(v)),
        None => None,
    }
}

/// An optional patterns value, as a leaf.
pub open spec fn patterns_leaf(
    o: Option<Vec<RntiMatchingTrafficPatternType>>,
) -> Option<LeafValue> {
    match o {
        Some(v) => Some(LeafValue::Patterns(v@)),
        None => None,
    }
}

/// An optional texts value, as a leaf.
pub open spec fn texts_leaf(o: Option<Vec<String>>) -> Option<LeafValue> {
    match o {
        Some(v) => Some(LeafValue::Texts(v@.map_values(|s: String| s@))),
        None => None,
    }
}

pub const DEFAULT_SCENARIO: Scenario = Scenario::TrackUeAndEstimateTransportCapacity;
pub const DEFAULT_VERBOSE: bool = true;
pub const DEFAULT_CELL_API: CellApiConfig = CellApiConfig::Milesight;

pub const DEFAULT_MILESIGHT_ADDRESS: &'static str = "http://127.0.0.1:8080";
pub const DEFAULT_MILESIGHT_USER: &'static str = "root";
pub const DEFAULT_MILESIGHT_AUTH: &'static str = "root-password";

pub const DEFAULT_DEVPUB_ADDRESS: &'static str = "127.0.0.1";
pub const DEFAULT_DEVPUB_AUTH: &'static str = "some_auth";

pub const DEFAULT_NG_PATH: &'static str =
    "/dev_ws/dependencies/ng-scope/build_x86/ngscope/src/ngscope";
pub const DEFAULT_NG_LOCAL_ADDR: &'static str = "0.0.0.0:9191";
pub const DEFAULT_NG_SERVER_ADDR: &'static str = "0.0.0.0:6767";
pub const DEFAULT_NG_LOG_FILE: &'static str = "./.ng_scope_log.txt";
pub const DEFAULT_NG_START_PROCESS: bool = true;
pub const DEFAULT_NG_LOG_DCI: bool = true;
pub const DEFAULT_NG_LOG_DCI_BATCH_SIZE: u64 = 60000;

pub const DEFAULT_MATCHING_LOCAL_ADDR: &'static str = "0.0.0.0:9292";
pub const DEFAULT_MATCHING_TRAFFIC_PATTERN: RntiMatchingTrafficPatternType =
    RntiMatchingTrafficPatternType::A;
pub const DEFAULT_MATCHING_TRAFFIC_DEST: &'static str = "127.0.0.1:9494";
pub const DEFAULT_MATCHING_LOG_TRAFFIC: bool = true;

/// The binary64 value 1.0, as its IEEE 754 bit pattern.
pub const DEFAULT_MODEL_INTERVAL_VALUE: u64 = 0x3FF0_0000_0000_0000;
pub const DEFAULT_MODEL_INTERVAL_TYPE: DynamicValue = DynamicValue::RttFactor;
/// The binary64 value 1.0, as its IEEE 754 bit pattern.
pub const DEFAULT_MODEL_SMOOTHING_VALUE: u64 = 0x3FF0_0000_0000_0000;
pub const DEFAULT_MODEL_SMOOTHING_TYPE: DynamicValue = DynamicValue::RttFactor;
pub const DEFAULT_MODEL_LOG_METRIC: bool = true;

pub const DEFAULT_LOG_BASE_DIR: &'static str = "./.logs.ue/";
pub const DEFAULT_DOWNLOAD_BASE_ADDR: &'static str = "127.0.0.1:9393";

/// The default download paths.
pub open spec fn default_download_paths() -> Seq<Seq<char>> {
    seq![
        "/10s/cubic"@,
        "/10s/bbr"@,
        "/10s/reno"@,
        "/10s/l2b/fair0/init"@,
        "/10s/l2b/fair0/upper"@,
        "/10s/l2b/fair0/init_and_upper"@,
        "/10s/l2b/fair0/direct"@,
        "/10s/l2b/fair1/init"@,
        "/10s/l2b/fair1/upper"@,
        "/10s/l2b/fair1/init_and_upper"@,
        "/10s/l2b/fair1/direct"@,
        "/60s/cubic"@,
        "/60s/bbr"@,
        "/60s/reno"@,
        "/60s/l2b/fair0/init"@,
        "/60s/l2b/fair0/upper"@,
        "/60s/l2b/fair0/init_and_upper"@,
        "/60s/l2b/fair0/direct"@,
        "/60s/l2b/fair1/init"@,
        "/60s/l2b/fair1/upper"@,
        "/60s/l2b/fair1/init_and_upper"@,
        "/60s/l2b/fair1/direct"@,
    ]
}

/// The Default Table: the compiled-in value of every leaf.
/// An optional default value, as a leaf.
pub open spec fn default_leaf(k: LeafField) -> LeafValue {
    match k {
        LeafField::Scenario => LeafValue::Mode(DEFAULT_SCENARIO),
        LeafField::CellApi => LeafValue::Source(DEFAULT_CELL_API),
        LeafField::Verbose => LeafValue::Flag(DEFAULT_VERBOSE),
        LeafField::MilesightAddress => LeafValue::Text(DEFAULT_MILESIGHT_ADDRESS@),
        LeafField::MilesightUser => LeafValue::Text(DEFAULT_MILESIGHT_USER@),
        LeafField::MilesightAuth => LeafValue::Text(DEFAULT_MILESIGHT_AUTH@),
        LeafField::DevpubAddress => LeafValue::Text(DEFAULT_DEVPUB_ADDRESS@),
        LeafField::DevpubAuth => LeafValue::Text(DEFAULT_DEVPUB_AUTH@),
        LeafField::NgPath => LeafValue::Text(DEFAULT_NG_PATH@),
        LeafField::NgLocalAddr => LeafValue::Text(DEFAULT_NG_LOCAL_ADDR@),
        LeafField::NgServerAddr => LeafValue::Text(DEFAULT_NG_SERVER_ADDR@),
        LeafField::NgLogFile => LeafValue::Text(DEFAULT_NG_LOG_FILE@),
        LeafField::NgStartProcess => LeafValue::Flag(DEFAULT_NG_START_PROCESS),
        LeafField::NgLogDci => LeafValue::Flag(DEFAULT_NG_LOG_DCI),
        LeafField::NgLogDciBatchSize => LeafValue::Number(DEFAULT_NG_LOG_DCI_BATCH_SIZE),
        LeafField::MatchingLocalAddr => LeafValue::Text(DEFAULT_MATCHING_LOCAL_ADDR@),
        LeafField::MatchingTrafficPattern => {
            LeafValue::Patterns(seq![DEFAULT_MATCHING_TRAFFIC_PATTERN])
        },
        LeafField::MatchingTrafficDestination => LeafValue::Text(DEFAULT_MATCHING_TRAFFIC_DEST@),
        LeafField::MatchingLogTraffic => LeafValue::Flag(DEFAULT_MATCHING_LOG_TRAFFIC),
        LeafField::ModelSendMetricIntervalValue => LeafValue::Number(DEFAULT_MODEL_INTERVAL_VALUE),
        LeafField::ModelSendMetricIntervalType => {
            LeafValue::Interpretation(DEFAULT_MODEL_INTERVAL_TYPE)
        },
        LeafField::ModelMetricSmoothingSizeValue => {
            LeafValue::Number(DEFAULT_MODEL_SMOOTHING_VALUE)
        },
        LeafField::ModelMetricSmoothingSizeType => {
            LeafValue::Interpretation(DEFAULT_MODEL_SMOOTHING_TYPE)
        },
        LeafField::ModelLogMetric => LeafValue::Flag(DEFAULT_MODEL_LOG_METRIC),
        LeafField::LogBaseDir => LeafValue::Text(DEFAULT_LOG_BASE_DIR@),
        LeafField::DownloadBaseAddr => LeafValue::Text(DEFAULT_DOWNLOAD_BASE_ADDR@),
        LeafField::DownloadPaths => LeafValue::Texts(default_download_paths()),
    }
}

/// The configuration as given by one layer: the command line, or a stored
/// snapshot. Every leaf, and every section as a whole, may be unspecified.
#[derive(Debug, Clone, PartialEq)]
pub struct Arguments {
    /// The scenario to run.
    pub scenario: Option<Scenario>,
    /// Which API supplies cell data.
    pub cellapi: Option<CellApiConfig>,
    /// Settings of the Milesight data source.
    pub milesight: Option<MilesightArgs>,
    /// Settings of the DevicePublisher data source.
    pub devicepublisher: Option<DevicePublisherArgs>,
    /// Settings of the NG-Scope process.
    pub ngscope: Option<NgScopeArgs>,
    /// Settings of the RNTI matching traffic.
    pub rntimatching: Option<RntiMatchingArgs>,
    /// Settings of the capacity model.
    pub model: Option<ModelArgs>,
    /// Logging settings.
    pub log: Option<LogArgs>,
    /// Settings of the measurement downloads.
    pub download: Option<DownloadArgs>,
    /// Whether additional information is printed.
    pub verbose: Option<bool>,
}

/// What the first-run logic decided: the configuration to work with, and the
/// snapshot that must be written to the store before going on, if any.
#[derive(Debug)]
pub struct Resolution {
    /// The configuration for this run, still to be flattened.
    pub working: Arguments,
    /// The snapshot to write to the store, when the store must be seeded.
    pub seed: Option<Arguments>,
}

impl Arguments {
    /// The value of leaf `k`; `None` while it is unspecified.
    pub open spec fn leaf(self, k: LeafField) -> Option<LeafValue> {
        match k {
            LeafField::Scenario => mode_leaf(self.scenario),
            LeafField::CellApi => source_leaf(self.cellapi),
            LeafField::Verbose => flag_leaf(self.verbose),
            LeafField::MilesightAddress => match self.milesight {
                Some(s) => text_leaf(s.milesight_address),
                None => None,
            },
            LeafField::MilesightUser => match self.milesight {
                Some(s) => text_leaf(s.milesight_user),
                None => None,
            },
            LeafField::MilesightAuth => match self.milesight {
                Some(s) => text_leaf(s.milesight_auth),
                None => None,
            },
            LeafField::DevpubAddress => match self.devicepublisher {
                Some(s) => text_leaf(s.devpub_address),
                None => None,
            },
            LeafField::DevpubAuth => match self.devicepublisher {
                Some(s) => text_leaf(s.devpub_auth),
                None => None,
            },
            LeafField::NgPath => match self.ngscope {
                Some(s) => text_leaf(s.ng_path),
                None => None,
            },
            LeafField::NgLocalAddr => match self.ngscope {
                Some(s) => text_leaf(s.ng_local_addr),
                None => None,
            },
            LeafField::NgServerAddr => match self.ngscope {
                Some(s) => text_leaf(s.ng_server_addr),
                None => None,
            },
            LeafField::NgLogFile => match self.ngscope {
                Some(s) => text_leaf(s.ng_log_file),
                None => None,
            },
            LeafField::NgStartProcess => match self.ngscope {
                Some(s) => flag_leaf(s.ng_start_process),
                None => None,
            },
            LeafField::NgLogDci => match self.ngscope {
                Some(s) => flag_leaf(s.ng_log_dci),
                None => None,
            },
            LeafField::NgLogDciBatchSize => match self.ngscope {
                Some(s) => number_leaf(s.ng_log_dci_batch_size),
                None => None,
            },
            LeafField::MatchingLocalAddr => match self.rntimatching {
                Some(s) => text_leaf(s.matching_local_addr),
                None => None,
            },
            LeafField::MatchingTrafficPattern => match self.rntimatching {
                Some(s) => patterns_leaf(s.matching_traffic_pattern),
                None => None,
            },
            LeafField::MatchingTrafficDestination => match self.rntimatching {
                Some(s) => text_leaf(s.matching_traffic_destination),
                None => None,
            },
            LeafField::MatchingLogTraffic => match self.rntimatching {
                Some(s) => flag_leaf(s.matching_log_traffic),
                None => None,
            },
            LeafField::ModelSendMetricIntervalValue => match self.model {
                Some(s) => number_leaf(s.model_send_metric_interval_value),
                None => None,
            },
            LeafField::ModelSendMetricIntervalType => match self.model {
                Some(s) => interpretation_leaf(s.model_send_metric_interval_type),
                None => None,
            },
            LeafField::ModelMetricSmoothingSizeValue => match self.model {
                Some(s) => number_leaf(s.model_metric_smoothing_size_value),
                None => None,
            },
            LeafField::ModelMetricSmoothingSizeType => match self.model {
                Some(s) => interpretation_leaf(s.model_metric_smoothing_size_type),
                None => None,
            },
            LeafField::ModelLogMetric => match self.model {
                Some(s) => flag_leaf(s.model_log_metric),
                None => None,
            },
            LeafField::LogBaseDir => match self.log {
                Some(s) => text_leaf(s.log_base_dir),
                None => None,
            },
            LeafField::DownloadBaseAddr => match self.download {
                Some(s) => text_leaf(s.download_base_addr),
                None => None,
            },
            LeafField::DownloadPaths => match self.download {
                Some(s) => texts_leaf(s.download_paths),
                None => None,
            },
        }
    }

    /// Every leaf is specified.
    pub open spec fn is_complete(self) -> bool {
        forall|k: LeafField| #[trigger] self.leaf(k) is Some
    }

    /// Every leaf holds its value from the Default Table.
    pub open spec fn is_default_table(self) -> bool {
        forall|k: LeafField| #[trigger] self.leaf(k) == Some(default_leaf(k))
    }

    /// The configuration with no leaf and no section specified.
    pub open spec fn unspecified() -> Arguments {
        Arguments {
            scenario: None,
            cellapi: None,
            milesight: None,
            devicepublisher: None,
            ngscope: None,
            rntimatching: None,
            model: None,
            log: None,
            download: None,
            verbose: None,
        }
    }

    /// Each multi-field section that `self` gives is present in `stored`, so
    /// that it can be filled from there.
    pub open spec fn can_merge(self, stored: Arguments) -> bool {
        &&& self.milesight is Some ==> stored.milesight is Some
        &&& self.devicepublisher is Some ==> stored.devicepublisher is Some
        &&& self.ngscope is Some ==> stored.ngscope is Some
        &&& self.rntimatching is Some ==> stored.rntimatching is Some
        &&& self.model is Some ==> stored.model is Some
        &&& self.download is Some ==> stored.download is Some
    }

    /// `self` merged over `stored`: top-level scalars and the logging leaf
    /// come from `self` where given, else from `stored`; a multi-field section
    /// that `self` gives is filled leaf by leaf from `stored`'s, one that it
    /// omits is `stored`'s as it stands.
    pub open spec fn merged(self, stored: Arguments) -> Arguments {
        Arguments {
            scenario: first_given(self.scenario, stored.scenario),
            cellapi: first_given(self.cellapi, stored.cellapi),
            milesight: match self.milesight {
                Some(s) => Some(s.filled_from(stored.milesight->0)),
                None => stored.milesight,
            },
            devicepublisher: match self.devicepublisher {
                Some(s) => Some(s.filled_from(stored.devicepublisher->0)),
                None => stored.devicepublisher,
            },
            ngscope: match self.ngscope {
                Some(s) => Some(s.filled_from(stored.ngscope->0)),
                None => stored.ngscope,
            },
            rntimatching: match self.rntimatching {
                Some(s) => Some(s.filled_from(stored.rntimatching->0)),
                None => stored.rntimatching,
            },
            model: match self.model {
                Some(s) => Some(s.filled_from(stored.model->0)),
                None => stored.model,
            },
            log: match self.log {
                Some(s) => match stored.log {
                    Some(b) => Some(s.filled_from(b)),
                    None => Some(s),
                },
                None => stored.log,
            },
            download: match self.download {
                Some(s) => Some(s.filled_from(stored.download->0)),
                None => stored.download,
            },
            verbose: first_given(self.verbose, stored.verbose),
        }
    }

    /// Merges `self`, the command line, over the stored snapshot
    /// `config_file`, leaf by leaf. Fails where `self` gives part of a
    /// multi-field section that the snapshot lacks.
    pub fn merge_config_file(self, config_file: Arguments) -> (r: Result<Arguments, ConfigError>)
        ensures
            r is Ok <==> self.can_merge(config_file),
            r matches Ok(a) ==> a == self.merged(config_file),
            r matches Err(e) ==> e == ConfigError::MissingStoredSection,
    {
        let Arguments {
            scenario,
            cellapi,
            milesight,
            devicepublisher,
            ngscope,
            rntimatching,
            model,
            log,
            download,
            verbose,
        } = self;
        let Arguments {
            scenario: stored_scenario,
            cellapi: stored_cellapi,
            milesight: stored_milesight,
            devicepublisher: stored_devicepublisher,
            ngscope: stored_ngscope,
            rntimatching: stored_rntimatching,
            model: stored_model,
            log: stored_log,
            download: stored_download,
            verbose: stored_verbose,
        } = config_file;
        let milesight = match milesight {
            Some(mut section) => match stored_milesight {
                Some(stored) => {
                    section.fill_with_config_file(stored);
                    Some(section)
                },
                None => return Err(ConfigError::MissingStoredSection),
            },
            None => stored_milesight,
        };
        let devicepublisher = match devicepublisher {
            Some(mut section) => match stored_devicepublisher {
                Some(stored) => {
                    section.fill_with_config_file(stored);
                    Some(section)
                },
                None => return Err(ConfigError::MissingStoredSection),
            },
            None => stored_devicepublisher,
        };
        let ngscope = match ngscope {
            Some(mut section) => match stored_ngscope {
                Some(stored) => {
                    section.fill_with_config_file(stored);
                    Some(section)
                },
                None => return Err(ConfigError::MissingStoredSection),
            },
            None => stored_ngscope,
        };
        let rntimatching = match rntimatching {
            Some(mut section) => match stored_rntimatching {
                Some(stored) => {
                    section.fill_with_config_file(stored);
                    Some(section)
                },
                None => return Err(ConfigError::MissingStoredSection),
            },
            None => stored_rntimatching,
        };
        let model = match model {
            Some(mut section) => match stored_model {
                Some(stored) => {
                    section.fill_with_config_file(stored);
                    Some(section)
                },
                None => return Err(ConfigError::MissingStoredSection),
            },
            None => stored_model,
        };
        let download = match download {
            Some(mut section) => match stored_download {
                Some(stored) => {
                    section.fill_with_config_file(stored);
                    Some(section)
                },
                None => return Err(ConfigError::MissingStoredSection),
            },
            None => stored_download,
        };
        let log = match log {
            Some(mut section) => {
                if let Some(stored) = stored_log {
                    section.fill_with_config_file(stored);
                }
                Some(section)
            },
            None => stored_log,
        };
        Ok(Arguments {
            scenario: if scenario.is_some() { scenario } else { stored_scenario },
            cellapi: if cellapi.is_some() { cellapi } else { stored_cellapi },
            milesight,
            devicepublisher,
            ngscope,
            rntimatching,
            model,
            log,
            download,
            verbose: if verbose.is_some() { verbose } else { stored_verbose },
        })
    }
}

/// The default download paths, in order.
fn default_download_path_list() -> (r: Vec<String>)
    ensures
        r@.map_values(|s: String| s@) == default_download_paths(),
{
    let mut v: Vec<String> = Vec::new();
    v.push(String::from_str("/10s/cubic"));
    v.push(String::from_str("/10s/bbr"));
    v.push(String::from_str("/10s/reno"));
    v.push(String::from_str("/10s/l2b/fair0/init"));
    v.push(String::from_str("/10s/l2b/fair0/upper"));
    v.push(String::from_str("/10s/l2b/fair0/init_and_upper"));
    v.push(String::from_str("/10s/l2b/fair0/direct"));
    v.push(String::from_str("/10s/l2b/fair1/init"));
    v.push(String::from_str("/10s/l2b/fair1/upper"));
    v.push(String::from_str("/10s/l2b/fair1/init_and_upper"));
    v.push(String::from_str("/10s/l2b/fair1/direct"));
    v.push(String::from_str("/60s/cubic"));
    v.push(String::from_str("/60s/bbr"));
    v.push(String::from_str("/60s/reno"));
    v.push(String::from_str("/60s/l2b/fair0/init"));
    v.push(String::from_str("/60s/l2b/fair0/upper"));
    v.push(String::from_str("/60s/l2b/fair0/init_and_upper"));
    v.push(String::from_str("/60s/l2b/fair0/direct"));
    v.push(String::from_str("/60s/l2b/fair1/init"));
    v.push(String::from_str("/60s/l2b/fair1/upper"));
    v.push(String::from_str("/60s/l2b/fair1/init_and_upper"));
    v.push(String::from_str("/60s/l2b/fair1/direct"));
    assert(v@.map_values(|s: String| s@) =~= default_download_paths());
    v
}

impl Default for Arguments {
    /// The Default Table, with every leaf specified.
    fn default() -> (r: Arguments)
        ensures
            r.is_default_table(),
    {
        let r = Arguments {
            scenario: Some(DEFAULT_SCENARIO),
            verbose: Some(DEFAULT_VERBOSE),
            cellapi: Some(DEFAULT_CELL_API),
            milesight: Some(MilesightArgs {
                milesight_address: Some(String::from_str(DEFAULT_MILESIGHT_ADDRESS)),
                milesight_user: Some(String::from_str(DEFAULT_MILESIGHT_USER)),
                milesight_auth: Some(String::from_str(DEFAULT_MILESIGHT_AUTH)),
            }),
            devicepublisher: Some(DevicePublisherArgs {
                devpub_address: Some(String::from_str(DEFAULT_DEVPUB_ADDRESS)),
                devpub_auth: Some(String::from_str(DEFAULT_DEVPUB_AUTH)),
            }),
            ngscope: Some(NgScopeArgs {
                ng_path: Some(String::from_str(DEFAULT_NG_PATH)),
                ng_local_addr: Some(String::from_str(DEFAULT_NG_LOCAL_ADDR)),
                ng_server_addr: Some(String::from_str(DEFAULT_NG_SERVER_ADDR)),
                ng_log_file: Some(String::from_str(DEFAULT_NG_LOG_FILE)),
                ng_start_process: Some(DEFAULT_NG_START_PROCESS),
                ng_log_dci: Some(DEFAULT_NG_LOG_DCI),
                ng_log_dci_batch_size: Some(DEFAULT_NG_LOG_DCI_BATCH_SIZE),
            }),
            rntimatching: Some(RntiMatchingArgs {
                matching_local_addr: Some(String::from_str(DEFAULT_MATCHING_LOCAL_ADDR)),
                matching_traffic_pattern: Some(vec![DEFAULT_MATCHING_TRAFFIC_PATTERN]),
                matching_traffic_destination: Some(String::from_str(DEFAULT_MATCHING_TRAFFIC_DEST)),
                matching_log_traffic: Some(DEFAULT_MATCHING_LOG_TRAFFIC),
            }),
            model: Some(ModelArgs {
                model_send_metric_interval_value: Some(DEFAULT_MODEL_INTERVAL_VALUE),
                model_send_metric_interval_type: Some(DEFAULT_MODEL_INTERVAL_TYPE),
                model_metric_smoothing_size_value: Some(DEFAULT_MODEL_SMOOTHING_VALUE),
                model_metric_smoothing_size_type: Some(DEFAULT_MODEL_SMOOTHING_TYPE),
                model_log_metric: Some(DEFAULT_MODEL_LOG_METRIC),
            }),
            log: Some(LogArgs { log_base_dir: Some(String::from_str(DEFAULT_LOG_BASE_DIR)) }),
            download: Some(DownloadArgs {
                download_base_addr: Some(String::from_str(DEFAULT_DOWNLOAD_BASE_ADDR)),
                download_paths: Some(default_download_path_list()),
            }),
        };
        assert(r.leaf(LeafField::MatchingTrafficPattern) == Some(
            default_leaf(LeafField::MatchingTrafficPattern),
        )) by {
            assert(r.rntimatching->0.matching_traffic_pattern->0@ =~= seq![
                DEFAULT_MATCHING_TRAFFIC_PATTERN,
            ]);
        }
        r
    }
}

/// Decides the working configuration from the command line `cli` and the
/// result of loading the store. With a loaded snapshot, the command line is
/// merged over it. Without one (the store was missing or unreadable), the
/// Default Table is handed back to be written as a fresh snapshot, and the
/// command line is worked with as it stands, unmerged.
pub fn resolve(cli: Arguments, loaded: Option<Arguments>) -> (r: Result<Resolution, ConfigError>)
    ensures
        loaded is None ==> {
            &&& r is Ok
            &&& r->Ok_0.working == cli
            &&& r->Ok_0.seed is Some
            &&& r->Ok_0.seed->0.is_default_table()
        },
        loaded is Some ==> {
            &&& r is Ok <==> cli.can_merge(loaded->0)
            &&& r is Ok ==> r->Ok_0.working == cli.merged(loaded->0) && r->Ok_0.seed is None
            &&& r is Err ==> r->Err_0 == ConfigError::MissingStoredSection
        },
{
    match loaded {
        Some(stored) => match cli.merge_config_file(stored) {
            Ok(working) => Ok(Resolution { working, seed: None }),
            Err(e) => Err(e),
        },
        None => Ok(Resolution { working: cli, seed: Some(Arguments::default()) }),
    }
}

} // verus!
