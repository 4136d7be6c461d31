use vstd::prelude::*;

use crate::arguments::Arguments;
use crate::options::{
    CellApiConfig, ConfigError, DynamicValue, RntiMatchingTrafficPatternType, Scenario,
};
use crate::sections::{
    DevicePublisherArgs, DownloadArgs, LogArgs, MilesightArgs, ModelArgs, NgScopeArgs,
    RntiMatchingArgs,
};

verus! {

/// Settings of the Milesight data source, all given.
#[derive(Debug, Clone, PartialEq)]
pub struct FlattenedMilesightArgs {
    pub milesight_address: String,
    pub milesight_user: String,
    pub milesight_auth: String,
}

/// Settings of the DevicePublisher data source, all given.
#[derive(Debug, Clone, PartialEq)]
pub struct FlattenedDevicePublisherArgs {
    pub devpub_address: String,
    pub devpub_auth: String,
}

/// Settings of the NG-Scope process, all given.
#[derive(Debug, Clone, PartialEq)]
pub struct FlattenedNgScopeArgs {
    pub ng_path: String,
    pub ng_local_addr: String,
    pub ng_server_addr: String,
    pub ng_log_file: String,
    pub ng_start_process: bool,
    pub ng_log_dci: bool,
    pub ng_log_dci_batch_size: u64,
}

/// Settings of the RNTI matching traffic, all given.
#[derive(Debug, Clone, PartialEq)]
pub struct FlattenedRntiMatchingArgs {
    pub matching_local_addr: String,
    pub matching_traffic_pattern: Vec<RntiMatchingTrafficPatternType>,
    pub matching_traffic_destination: String,
    pub matching_log_traffic: bool,
}

/// Settings of the capacity model, all given. The two values are binary64
/// numbers held as their IEEE 754 bit patterns.
#[derive(Debug, Clone, PartialEq)]
pub struct FlattenedModelArgs {
    pub model_send_metric_interval_value: u64,
    pub model_send_metric_interval_type: DynamicValue,
    pub model_metric_smoothing_size_value: u64,
    pub model_metric_smoothing_size_type: DynamicValue,
    pub model_log_metric: bool,
}

/// Logging settings, all given.
#[derive(Debug, Clone, PartialEq)]
pub struct FlattenedLogArgs {
    pub log_base_dir: String,
}

/// Settings of the measurement downloads, all given.
#[derive(Debug, Clone, PartialEq)]
pub struct FlattenedDownloadArgs {
    pub download_base_addr: String,
    pub download_paths: Vec<String>,
}

impl FlattenedMilesightArgs {
    /// The section with every leaf of `args` taken out of its `Option`.
    pub open spec fn flat_of(args: MilesightArgs) -> Self {
        FlattenedMilesightArgs {
            milesight_address: args.milesight_address->0,
            milesight_user: args.milesight_user->0,
            milesight_auth: args.milesight_auth->0,
        }
    }

    /// Flattens the section; fails where a leaf is unspecified.
    pub(crate) fn from_section(
        milesight_args: MilesightArgs,
    ) -> (r: Result<FlattenedMilesightArgs, ConfigError>)
        ensures
            r is Ok <==> milesight_args.is_complete(),
            r matches Ok(f) ==> f == Self::flat_of(milesight_args),
            r matches Err(e) ==> e == ConfigError::IncompleteAfterMerge,
    {
        let MilesightArgs { milesight_address, milesight_user, milesight_auth } = milesight_args;
        match (milesight_address, milesight_user, milesight_auth) {
            (
                Some(milesight_address),
                Some(milesight_user),
                Some(milesight_auth),
            ) => Ok(FlattenedMilesightArgs {
                milesight_address,
                milesight_user,
                milesight_auth,
            }),
            _ => Err(ConfigError::IncompleteAfterMerge),
        }
    }
}

impl FlattenedDevicePublisherArgs {
    /// The section with every leaf of `args` taken out of its `Option`.
    pub open spec fn flat_of(args: DevicePublisherArgs) -> Self {
        FlattenedDevicePublisherArgs {
            devpub_address: args.devpub_address->0,
            devpub_auth: args.devpub_auth->0,
        }
    }

    /// Flattens the section; fails where a leaf is unspecified.
    pub(crate) fn from_section(
        devicepublisher_args: DevicePublisherArgs,
    ) -> (r: Result<FlattenedDevicePublisherArgs, ConfigError>)
        ensures
            r is Ok <==> devicepublisher_args.is_complete(),
            r matches Ok(f) ==> f == Self::flat_of(devicepublisher_args),
            r matches Err(e) ==> e == ConfigError::IncompleteAfterMerge,
    {
        let DevicePublisherArgs { devpub_address, devpub_auth } = devicepublisher_args;
        match (devpub_address, devpub_auth) {
            (
                Some(devpub_address),
                Some(devpub_auth),
            ) => Ok(FlattenedDevicePublisherArgs {
                devpub_address,
                devpub_auth,
            }),
            _ => Err(ConfigError::IncompleteAfterMerge),
        }
    }
}

impl FlattenedNgScopeArgs {
    /// The section with every leaf of `args` taken out of its `Option`.
    pub open spec fn flat_of(args: NgScopeArgs) -> Self {
        FlattenedNgScopeArgs {
            ng_path: args.ng_path->0,
            ng_local_addr: args.ng_local_addr->0,
            ng_server_addr: args.ng_server_addr->0,
            ng_log_file: args.ng_log_file->0,
            ng_start_process: args.ng_start_process->0,
            ng_log_dci: args.ng_log_dci->0,
            ng_log_dci_batch_size: args.ng_log_dci_batch_size->0,
        }
    }

    /// Flattens the section; fails where a leaf is unspecified.
    pub fn from_unflattened(ng_args: NgScopeArgs) -> (r: Result<FlattenedNgScopeArgs, ConfigError>)
        ensures
            r is Ok <==> ng_args.is_complete(),
            r matches Ok(f) ==> f == Self::flat_of(ng_args),
            r matches Err(e) ==> e == ConfigError::IncompleteAfterMerge,
    {
        let NgScopeArgs {
            ng_path,
            ng_local_addr,
            ng_server_addr,
            ng_log_file,
            ng_start_process,
            ng_log_dci,
            ng_log_dci_batch_size,
        } = ng_args;
        match (
            ng_path,
            ng_local_addr,
            ng_server_addr,
            ng_log_file,
            ng_start_process,
            ng_log_dci,
            ng_log_dci_batch_size,
        ) {
            (
                Some(ng_path),
                Some(ng_local_addr),
                Some(ng_server_addr),
                Some(ng_log_file),
                Some(ng_start_process),
                Some(ng_log_dci),
                Some(ng_log_dci_batch_size),
            ) => Ok(FlattenedNgScopeArgs {
                ng_path,
                ng_local_addr,
                ng_server_addr,
                ng_log_file,
                ng_start_process,
                ng_log_dci,
                ng_log_dci_batch_size,
            }),
            _ => Err(ConfigError::IncompleteAfterMerge),
        }
    }
}

impl FlattenedRntiMatchingArgs {
    /// The section with every leaf of `args` taken out of its `Option`.
    pub open spec fn flat_of(args: RntiMatchingArgs) -> Self {
        FlattenedRntiMatchingArgs {
            matching_local_addr: args.matching_local_addr->0,
            matching_traffic_pattern: args.matching_traffic_pattern->0,
            matching_traffic_destination: args.matching_traffic_destination->0,
            matching_log_traffic: args.matching_log_traffic->0,
        }
    }

    /// Flattens the section; fails where a leaf is unspecified.
    pub fn from_unflattened(
        rnti_args: RntiMatchingArgs,
    ) -> (r: Result<FlattenedRntiMatchingArgs, ConfigError>)
        ensures
            r is Ok <==> rnti_args.is_complete(),
            r matches Ok(f) ==> f == Self::flat_of(rnti_args),
            r matches Err(e) ==> e == ConfigError::IncompleteAfterMerge,
    {
        let RntiMatchingArgs {
            matching_local_addr,
            matching_traffic_pattern,
            matching_traffic_destination,
            matching_log_traffic,
        } = rnti_args;
        match (
            matching_local_addr,
            matching_traffic_pattern,
            matching_traffic_destination,
            matching_log_traffic,
        ) {
            (
                Some(matching_local_addr),
                Some(matching_traffic_pattern),
                Some(matching_traffic_destination),
                Some(matching_log_traffic),
            ) => Ok(FlattenedRntiMatchingArgs {
                matching_local_addr,
                matching_traffic_pattern,
                matching_traffic_destination,
                matching_log_traffic,
            }),
            _ => Err(ConfigError::IncompleteAfterMerge),
        }
    }
}

impl FlattenedModelArgs {
    /// The section with every leaf of `args` taken out of its `Option`.
    pub open spec fn flat_of(args: ModelArgs) -> Self {
        FlattenedModelArgs {
            model_send_metric_interval_value: args.model_send_metric_interval_value->0,
            model_send_metric_interval_type: args.model_send_metric_interval_type->0,
            model_metric_smoothing_size_value: args.model_metric_smoothing_size_value->0,
            model_metric_smoothing_size_type: args.model_metric_smoothing_size_type->0,
            model_log_metric: args.model_log_metric->0,
        }
    }

    /// Flattens the section; fails where a leaf is unspecified.
    pub fn from_unflattened(model_args: ModelArgs) -> (r: Result<FlattenedModelArgs, ConfigError>)
        ensures
            r is Ok <==> model_args.is_complete(),
            r matches Ok(f) ==> f == Self::flat_of(model_args),
            r matches Err(e) ==> e == ConfigError::IncompleteAfterMerge,
    {
        let ModelArgs {
            model_send_metric_interval_value,
            model_send_metric_interval_type,
            model_metric_smoothing_size_value,
            model_metric_smoothing_size_type,
            model_log_metric,
        } = model_args;
        match (
            model_send_metric_interval_value,
            model_send_metric_interval_type,
            model_metric_smoothing_size_value,
            model_metric_smoothing_size_type,
            model_log_metric,
        ) {
            (
                Some(model_send_metric_interval_value),
                Some(model_send_metric_interval_type),
                Some(model_metric_smoothing_size_value),
                Some(model_metric_smoothing_size_type),
                Some(model_log_metric),
            ) => Ok(FlattenedModelArgs {
                model_send_metric_interval_value,
                model_send_metric_interval_type,
                model_metric_smoothing_size_value,
                model_metric_smoothing_size_type,
                model_log_metric,
            }),
            _ => Err(ConfigError::IncompleteAfterMerge),
        }
    }
}

impl FlattenedLogArgs {
    /// The section with every leaf of `args` taken out of its `Option`.
    pub open spec fn flat_of(args: LogArgs) -> Self {
        FlattenedLogArgs {
            log_base_dir: args.log_base_dir->0,
        }
    }

    /// Flattens the section; fails where a leaf is unspecified.
    pub fn from_unflattened(log_args: LogArgs) -> (r: Result<FlattenedLogArgs, ConfigError>)
        ensures
            r is Ok <==> log_args.is_complete(),
            r matches Ok(f) ==> f == Self::flat_of(log_args),
            r matches Err(e) ==> e == ConfigError::IncompleteAfterMerge,
    {
        let LogArgs { log_base_dir } = log_args;
        match log_base_dir {
            Some(log_base_dir) => Ok(FlattenedLogArgs { log_base_dir }),
            None => Err(ConfigError::IncompleteAfterMerge),
        }
    }
}

impl FlattenedDownloadArgs {
    /// The section with every leaf of `args` taken out of its `Option`.
    pub open spec fn flat_of(args: DownloadArgs) -> Self {
        FlattenedDownloadArgs {
            download_base_addr: args.download_base_addr->0,
            download_paths: args.download_paths->0,
        }
    }

    /// Flattens the section; fails where a leaf is unspecified.
    pub fn from_unflattened(
        download_args: DownloadArgs,
    ) -> (r: Result<FlattenedDownloadArgs, ConfigError>)
        ensures
            r is Ok <==> download_args.is_complete(),
            r matches Ok(f) ==> f == Self::flat_of(download_args),
            r matches Err(e) ==> e == ConfigError::IncompleteAfterMerge,
    {
        let DownloadArgs { download_base_addr, download_paths } = download_args;
        match (download_base_addr, download_paths) {
            (
                Some(download_base_addr),
                Some(download_paths),
            ) => Ok(FlattenedDownloadArgs {
                download_base_addr,
                download_paths,
            }),
            _ => Err(ConfigError::IncompleteAfterMerge),
        }
    }
}

/// The data source in use, with only its own settings.
#[derive(Debug, Clone, PartialEq)]
pub enum FlattenedCellApiConfig {
    Milesight(FlattenedMilesightArgs),
    DevicePublisher(FlattenedDevicePublisherArgs),
}

impl FlattenedCellApiConfig {
    /// The section that `cell_api` selects is complete.
    pub open spec fn selected_is_complete(
        cell_api: CellApiConfig,
        milesight_args: MilesightArgs,
        devicepublisher_args: DevicePublisherArgs,
    ) -> bool {
        match cell_api {
            CellApiConfig::Milesight => milesight_args.is_complete(),
            CellApiConfig::DevicePublisher => devicepublisher_args.is_complete(),
        }
    }

    /// The variant that `cell_api` selects, built from its section alone.
    pub open spec fn flat_of(
        cell_api: CellApiConfig,
        milesight_args: MilesightArgs,
        devicepublisher_args: DevicePublisherArgs,
    ) -> Self {
        match cell_api {
            CellApiConfig::Milesight => FlattenedCellApiConfig::Milesight(
                FlattenedMilesightArgs::flat_of(milesight_args),
            ),
            CellApiConfig::DevicePublisher => FlattenedCellApiConfig::DevicePublisher(
                FlattenedDevicePublisherArgs::flat_of(devicepublisher_args),
            ),
        }
    }

    /// Builds the variant that `cell_api` selects; only that variant's
    /// section must be complete.
    pub fn from_unflattened(
        cell_api: CellApiConfig,
        milesight_args: MilesightArgs,
        devicepublisher_args: DevicePublisherArgs,
    ) -> (r: Result<FlattenedCellApiConfig, ConfigError>)
        ensures
            r is Ok <==> Self::selected_is_complete(cell_api, milesight_args, devicepublisher_args),
            r matches Ok(f) ==> f == Self::flat_of(cell_api, milesight_args, devicepublisher_args),
            r matches Err(e) ==> e == ConfigError::IncompleteAfterMerge,
    {
        match cell_api {
            CellApiConfig::Milesight => match FlattenedMilesightArgs::from_section(milesight_args) {
                Ok(f) => Ok(FlattenedCellApiConfig::Milesight(f)),
                Err(e) => Err(e),
            },
            CellApiConfig::DevicePublisher => match FlattenedDevicePublisherArgs::from_section(
                devicepublisher_args,
            ) {
                Ok(f) => Ok(FlattenedCellApiConfig::DevicePublisher(f)),
                Err(e) => Err(e),
            },
        }
    }
}

/// The configuration handed to the rest of the system: every field given,
/// and exactly one data source.
#[derive(Debug, Clone, PartialEq)]
pub struct FlattenedArguments {
    pub scenario: Scenario,
    pub verbose: bool,
    pub cellapi: FlattenedCellApiConfig,
    pub ngscope: FlattenedNgScopeArgs,
    pub rntimatching: FlattenedRntiMatchingArgs,
    pub model: FlattenedModelArgs,
    pub log: FlattenedLogArgs,
    pub download: FlattenedDownloadArgs,
}

/// The section is given and complete.
pub open spec fn section_complete<S>(section: Option<S>, complete: spec_fn(S) -> bool) -> bool {
    match section {
        Some(s) => complete(s),
        None => false,
    }
}

impl FlattenedArguments {
    /// The data-source section that flattening `args` reads is complete: the
    /// one that `args.cellapi` selects.
    pub open spec fn data_source_complete(args: Arguments) -> bool {
        match args.cellapi {
            Some(CellApiConfig::Milesight) => section_complete(
                args.milesight,
                |s: MilesightArgs| s.is_complete(),
            ),
            Some(CellApiConfig::DevicePublisher) => section_complete(
                args.devicepublisher,
                |s: DevicePublisherArgs| s.is_complete(),
            ),
            None => false,
        }
    }

    /// The sections that are flattened whatever the scenario are all
    /// complete.
    pub open spec fn agnostic_sections_complete(args: Arguments) -> bool {
        &&& section_complete(args.ngscope, |s: NgScopeArgs| s.is_complete())
        &&& section_complete(args.rntimatching, |s: RntiMatchingArgs| s.is_complete())
        &&& section_complete(args.model, |s: ModelArgs| s.is_complete())
        &&& section_complete(args.log, |s: LogArgs| s.is_complete())
        &&& section_complete(args.download, |s: DownloadArgs| s.is_complete())
    }

    /// Every leaf that flattening `args` needs is specified.
    pub open spec fn can_flatten(args: Arguments) -> bool {
        &&& args.scenario is Some
        &&& args.verbose is Some
        &&& Self::data_source_complete(args)
        &&& Self::agnostic_sections_complete(args)
    }

    /// The flattened form of `args`, where `can_flatten(args)`.
    pub open spec fn flat_of(args: Arguments) -> Self {
        FlattenedArguments {
            scenario: args.scenario->0,
            verbose: args.verbose->0,
            cellapi: match args.cellapi->0 {
                CellApiConfig::Milesight => FlattenedCellApiConfig::Milesight(
                    FlattenedMilesightArgs::flat_of(args.milesight->0),
                ),
                CellApiConfig::DevicePublisher => FlattenedCellApiConfig::DevicePublisher(
                    FlattenedDevicePublisherArgs::flat_of(args.devicepublisher->0),
                ),
            },
            ngscope: FlattenedNgScopeArgs::flat_of(args.ngscope->0),
            rntimatching: FlattenedRntiMatchingArgs::flat_of(args.rntimatching->0),
            model: FlattenedModelArgs::flat_of(args.model->0),
            log: FlattenedLogArgs::flat_of(args.log->0),
            download: FlattenedDownloadArgs::flat_of(args.download->0),
        }
    }

    /// Flattens a resolved configuration. Fails where a leaf of the selected
    /// data source, of a scenario-agnostic section, or a top-level scalar is
    /// still unspecified; the data source that is not selected is not read.
    pub fn from_unflattened(args: Arguments) -> (r: Result<FlattenedArguments, ConfigError>)
        ensures
            r is Ok <==> Self::can_flatten(args),
            r matches Ok(f) ==> f == Self::flat_of(args),
            r matches Err(e) ==> e == ConfigError::IncompleteAfterMerge,
    {
        let Arguments {
            scenario,
            cellapi,
            milesight,
            devicepublisher,
            ngscope,
            rntimatching,
            model,
            log,
            download,
            verbose,
        } = args;
        let scenario = match scenario {
            Some(v) => v,
            None => return Err(ConfigError::IncompleteAfterMerge),
        };
        let verbose = match verbose {
            Some(v) => v,
            None => return Err(ConfigError::IncompleteAfterMerge),
        };
        let cellapi = match cellapi {
            Some(CellApiConfig::Milesight) => match milesight {
                Some(s) => FlattenedCellApiConfig::Milesight(
                    FlattenedMilesightArgs::from_section(s)?,
                ),
                None => return Err(ConfigError::IncompleteAfterMerge),
            },
            Some(CellApiConfig::DevicePublisher) => match devicepublisher {
                Some(s) => FlattenedCellApiConfig::DevicePublisher(
                    FlattenedDevicePublisherArgs::from_section(s)?,
                ),
                None => return Err(ConfigError::IncompleteAfterMerge),
            },
            None => return Err(ConfigError::IncompleteAfterMerge),
        };
        let ngscope = match ngscope {
            Some(s) => FlattenedNgScopeArgs::from_unflattened(s)?,
            None => return Err(ConfigError::IncompleteAfterMerge),
        };
        let rntimatching = match rntimatching {
            Some(s) => FlattenedRntiMatchingArgs::from_unflattened(s)?,
            None => return Err(ConfigError::IncompleteAfterMerge),
        };
        let model = match model {
            Some(s) => FlattenedModelArgs::from_unflattened(s)?,
            None => return Err(ConfigError::IncompleteAfterMerge),
        };
        let log = match log {
            Some(s) => FlattenedLogArgs::from_unflattened(s)?,
            None => return Err(ConfigError::IncompleteAfterMerge),
        };
        let download = match download {
            Some(s) => FlattenedDownloadArgs::from_unflattened(s)?,
            None => return Err(ConfigError::IncompleteAfterMerge),
        };
        Ok(FlattenedArguments {
            scenario,
            verbose,
            cellapi,
            ngscope,
            rntimatching,
            model,
            log,
            download,
        })
    }
}

} // verus!
