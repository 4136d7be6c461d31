use vstd::prelude::*;

use crate::options::{DynamicValue, RntiMatchingTrafficPatternType};

verus! {

/// The value that wins when `preferred` is consulted before `fallback`:
/// `preferred` when it is given, `fallback` otherwise.
pub open spec fn first_given<T>(preferred: Option<T>, fallback: Option<T>) -> Option<T> {
    match preferred {
        Some(_) => preferred,
        None => fallback,
    }
}

/// Settings for fetching cell data from a Milesight router.
#[derive(Debug, Clone, PartialEq)]
pub struct MilesightArgs {
    /// URL to fetch data from.
    pub milesight_address: Option<String>,
    /// User name for the login.
    pub milesight_user: Option<String>,
    /// Base64-encoded authentication token.
    pub milesight_auth: Option<String>,
}

impl MilesightArgs {
    /// Every leaf of `self`, or of `base` where `self` leaves it unspecified.
    pub open spec fn filled_from(self, base: Self) -> Self {
        MilesightArgs {
            milesight_address: first_given(self.milesight_address, base.milesight_address),
            milesight_user: first_given(self.milesight_user, base.milesight_user),
            milesight_auth: first_given(self.milesight_auth, base.milesight_auth),
        }
    }

    /// No leaf is unspecified.
    pub open spec fn is_complete(self) -> bool {
        &&& self.milesight_address is Some
        &&& self.milesight_user is Some
        &&& self.milesight_auth is Some
    }

    /// Fills each unspecified leaf from the stored section.
    pub fn fill_with_config_file(&mut self, config_file: MilesightArgs)
        ensures
            *final(self) == old(self).filled_from(config_file),
    {
        if self.milesight_address.is_none() {
            self.milesight_address = config_file.milesight_address;
        }
        if self.milesight_user.is_none() {
            self.milesight_user = config_file.milesight_user;
        }
        if self.milesight_auth.is_none() {
            self.milesight_auth = config_file.milesight_auth;
        }
    }
}

/// Settings for fetching cell data from the DevicePublisher app.
#[derive(Debug, Clone, PartialEq)]
pub struct DevicePublisherArgs {
    /// Base address of DevicePublisher.
    pub devpub_address: Option<String>,
    /// Authentication token.
    pub devpub_auth: Option<String>,
}

impl DevicePublisherArgs {
    /// Every leaf of `self`, or of `base` where `self` leaves it unspecified.
    pub open spec fn filled_from(self, base: Self) -> Self {
        DevicePublisherArgs {
            devpub_address: first_given(self.devpub_address, base.devpub_address),
            devpub_auth: first_given(self.devpub_auth, base.devpub_auth),
        }
    }

    /// No leaf is unspecified.
    pub open spec fn is_complete(self) -> bool {
        &&& self.devpub_address is Some
        &&& self.devpub_auth is Some
    }

    /// Fills each unspecified leaf from the stored section.
    pub fn fill_with_config_file(&mut self, config_file: DevicePublisherArgs)
        ensures
            *final(self) == old(self).filled_from(config_file),
    {
        if self.devpub_address.is_none() {
            self.devpub_address = config_file.devpub_address;
        }
        if self.devpub_auth.is_none() {
            self.devpub_auth = config_file.devpub_auth;
        }
    }
}

/// Settings of the NG-Scope probe process.
#[derive(Debug, Clone, PartialEq)]
pub struct NgScopeArgs {
    /// Path to the NG-Scope executable.
    pub ng_path: Option<String>,
    /// Local address that talks to NG-Scope (addr:port).
    pub ng_local_addr: Option<String>,
    /// Address of NG-Scope's remote interface (addr:port).
    pub ng_server_addr: Option<String>,
    /// File that receives the process's stdout and stderr.
    pub ng_log_file: Option<String>,
    /// Whether the tracker starts its own NG-Scope instance.
    pub ng_start_process: Option<bool>,
    /// Whether DCI and general cell data are logged.
    pub ng_log_dci: Option<bool>,
    /// Number of DCIs in a single log file.
    pub ng_log_dci_batch_size: Option<u64>,
}

impl NgScopeArgs {
    /// Every leaf of `self`, or of `base` where `self` leaves it unspecified.
    pub open spec fn filled_from(self, base: Self) -> Self {
        NgScopeArgs {
            ng_path: first_given(self.ng_path, base.ng_path),
            ng_local_addr: first_given(self.ng_local_addr, base.ng_local_addr),
            ng_server_addr: first_given(self.ng_server_addr, base.ng_server_addr),
            ng_log_file: first_given(self.ng_log_file, base.ng_log_file),
            ng_start_process: first_given(self.ng_start_process, base.ng_start_process),
            ng_log_dci: first_given(self.ng_log_dci, base.ng_log_dci),
            ng_log_dci_batch_size: first_given(
                self.ng_log_dci_batch_size,
                base.ng_log_dci_batch_size,
            ),
        }
    }

    /// No leaf is unspecified.
    pub open spec fn is_complete(self) -> bool {
        &&& self.ng_path is Some
        &&& self.ng_local_addr is Some
        &&& self.ng_server_addr is Some
        &&& self.ng_log_file is Some
        &&& self.ng_start_process is Some
        &&& self.ng_log_dci is Some
        &&& self.ng_log_dci_batch_size is Some
    }

    /// Fills each unspecified leaf from the stored section.
    pub fn fill_with_config_file(&mut self, config_file: NgScopeArgs)
        ensures
            *final(self) == old(self).filled_from(config_file),
    {
        if self.ng_path.is_none() {
            self.ng_path = config_file.ng_path;
        }
        if self.ng_local_addr.is_none() {
            self.ng_local_addr = config_file.ng_local_addr;
        }
        if self.ng_server_addr.is_none() {
            self.ng_server_addr = config_file.ng_server_addr;
        }
        if self.ng_log_file.is_none() {
            self.ng_log_file = config_file.ng_log_file;
        }
        if self.ng_start_process.is_none() {
            self.ng_start_process = config_file.ng_start_process;
        }
        if self.ng_log_dci.is_none() {
            self.ng_log_dci = config_file.ng_log_dci;
        }
        if self.ng_log_dci_batch_size.is_none() {
            self.ng_log_dci_batch_size = config_file.ng_log_dci_batch_size;
        }
    }
}

/// Settings of the RNTI matching traffic.
#[derive(Debug, Clone, PartialEq)]
pub struct RntiMatchingArgs {
    /// Local address that generates the matching traffic (addr:port).
    pub matching_local_addr: Option<String>,
    /// Traffic patterns, sent one after another.
    pub matching_traffic_pattern: Option<Vec<RntiMatchingTrafficPatternType>>,
    /// Address that the traffic pattern is sent to.
    pub matching_traffic_destination: Option<String>,
    /// Whether the matching traffic and its features are logged.
    pub matching_log_traffic: Option<bool>,
}

impl RntiMatchingArgs {
    /// Every leaf of `self`, or of `base` where `self` leaves it unspecified.
    pub open spec fn filled_from(self, base: Self) -> Self {
        RntiMatchingArgs {
            matching_local_addr: first_given(self.matching_local_addr, base.matching_local_addr),
            matching_traffic_pattern: first_given(
                self.matching_traffic_pattern,
                base.matching_traffic_pattern,
            ),
            matching_traffic_destination: first_given(
                self.matching_traffic_destination,
                base.matching_traffic_destination,
            ),
            matching_log_traffic: first_given(self.matching_log_traffic, base.matching_log_traffic),
        }
    }

    /// No leaf is unspecified.
    pub open spec fn is_complete(self) -> bool {
        &&& self.matching_local_addr is Some
        &&& self.matching_traffic_pattern is Some
        &&& self.matching_traffic_destination is Some
        &&& self.matching_log_traffic is Some
    }

    /// Fills each unspecified leaf from the stored section.
    pub fn fill_with_config_file(&mut self, config_file: RntiMatchingArgs)
        ensures
            *final(self) == old(self).filled_from(config_file),
    {
        if self.matching_local_addr.is_none() {
            self.matching_local_addr = config_file.matching_local_addr;
        }
        if self.matching_traffic_pattern.is_none() {
            self.matching_traffic_pattern = config_file.matching_traffic_pattern;
        }
        if self.matching_traffic_destination.is_none() {
            self.matching_traffic_destination = config_file.matching_traffic_destination;
        }
        if self.matching_log_traffic.is_none() {
            self.matching_log_traffic = config_file.matching_log_traffic;
        }
    }
}

/// Settings of the capacity model. The two interval values are
/// binary64 floating-point numbers, held as their IEEE 754 bit patterns.
#[derive(Debug, Clone, PartialEq)]
pub struct ModelArgs {
    /// Interval at which the metric is computed and sent (bit pattern).
    pub model_send_metric_interval_value: Option<u64>,
    /// How the send interval is interpreted.
    pub model_send_metric_interval_type: Option<DynamicValue>,
    /// Amount of DCIs the metric is based on (bit pattern).
    pub model_metric_smoothing_size_value: Option<u64>,
    /// How the smoothing size is interpreted.
    pub model_metric_smoothing_size_type: Option<DynamicValue>,
    /// Whether the metric and its basis are logged.
    pub model_log_metric: Option<bool>,
}

impl ModelArgs {
    /// Every leaf of `self`, or of `base` where `self` leaves it unspecified.
    pub open spec fn filled_from(self, base: Self) -> Self {
        ModelArgs {
            model_send_metric_interval_value: first_given(
                self.model_send_metric_interval_value,
                base.model_send_metric_interval_value,
            ),
            model_send_metric_interval_type: first_given(
                self.model_send_metric_interval_type,
                base.model_send_metric_interval_type,
            ),
            model_metric_smoothing_size_value: first_given(
                self.model_metric_smoothing_size_value,
                base.model_metric_smoothing_size_value,
            ),
            model_metric_smoothing_size_type: first_given(
                self.model_metric_smoothing_size_type,
                base.model_metric_smoothing_size_type,
            ),
            model_log_metric: first_given(self.model_log_metric, base.model_log_metric),
        }
    }

    /// No leaf is unspecified.
    pub open spec fn is_complete(self) -> bool {
        &&& self.model_send_metric_interval_value is Some
        &&& self.model_send_metric_interval_type is Some
        &&& self.model_metric_smoothing_size_value is Some
        &&& self.model_metric_smoothing_size_type is Some
        &&& self.model_log_metric is Some
    }

    /// Fills each unspecified leaf from the stored section.
    pub fn fill_with_config_file(&mut self, config_file: ModelArgs)
        ensures
            *final(self) == old(self).filled_from(config_file),
    {
        if self.model_send_metric_interval_value.is_none() {
            self.model_send_metric_interval_value = config_file.model_send_metric_interval_value;
        }
        if self.model_send_metric_interval_type.is_none() {
            self.model_send_metric_interval_type = config_file.model_send_metric_interval_type;
        }
        if self.model_metric_smoothing_size_value.is_none() {
            self.model_metric_smoothing_size_value = config_file.model_metric_smoothing_size_value;
        }
        if self.model_metric_smoothing_size_type.is_none() {
            self.model_metric_smoothing_size_type = config_file.model_metric_smoothing_size_type;
        }
        if self.model_log_metric.is_none() {
            self.model_log_metric = config_file.model_log_metric;
        }
    }
}

/// Logging settings.
#[derive(Debug, Clone, PartialEq)]
pub struct LogArgs {
    /// Base directory for logs.
    pub log_base_dir: Option<String>,
}

impl LogArgs {
    /// Every leaf of `self`, or of `base` where `self` leaves it unspecified.
    pub open spec fn filled_from(self, base: Self) -> Self {
        LogArgs {
            log_base_dir: first_given(self.log_base_dir, base.log_base_dir),
        }
    }

    /// No leaf is unspecified.
    pub open spec fn is_complete(self) -> bool {
        &&& self.log_base_dir is Some
    }

    /// Fills each unspecified leaf from the stored section.
    pub fn fill_with_config_file(&mut self, config_file: LogArgs)
        ensures
            *final(self) == old(self).filled_from(config_file),
    {
        if self.log_base_dir.is_none() {
            self.log_base_dir = config_file.log_base_dir;
        }
    }
}

/// Settings of the measurement downloads.
#[derive(Debug, Clone, PartialEq)]
pub struct DownloadArgs {
    /// Base address of the target, host and port.
    pub download_base_addr: Option<String>,
    /// Paths requested on the base address.
    pub download_paths: Option<Vec<String>>,
}

impl DownloadArgs {
    /// Every leaf of `self`, or of `base` where `self` leaves it unspecified.
    pub open spec fn filled_from(self, base: Self) -> Self {
        DownloadArgs {
            download_base_addr: first_given(self.download_base_addr, base.download_base_addr),
            download_paths: first_given(self.download_paths, base.download_paths),
        }
    }

    /// No leaf is unspecified.
    pub open spec fn is_complete(self) -> bool {
        &&& self.download_base_addr is Some
        &&& self.download_paths is Some
    }

    /// Fills each unspecified leaf from the stored section.
    pub fn fill_with_config_file(&mut self, config_file: DownloadArgs)
        ensures
            *final(self) == old(self).filled_from(config_file),
    {
        if self.download_base_addr.is_none() {
            self.download_base_addr = config_file.download_base_addr;
        }
        if self.download_paths.is_none() {
            self.download_paths = config_file.download_paths;
        }
    }
}

} // verus!
