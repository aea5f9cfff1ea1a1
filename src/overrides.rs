//! Answers to configuration requests: override application, subscription
//! parsing and runtime configuration generation, built from the outcome of
//! each stage.
use vstd::prelude::*;
use vstd::string::StringExecFns;

verus! {

/// Format of an override.
#[derive(PartialEq, Eq, Structural, Clone, Copy)]
pub enum OverrideFormat {
    Yaml,
    Javascript,
}

/// One override, applied in list order.
pub struct OverrideConfig {
    pub id: String,
    pub name: String,
    pub format: OverrideFormat,
    pub content: String,
}

/// Request to parse a subscription and apply overrides to it.
pub struct ApplyOverridesRequest {
    pub base_config_content: String,
    pub overrides: Vec<OverrideConfig>,
}

/// Answer to `ApplyOverridesRequest`.
pub struct ApplyOverridesResponse {
    pub is_successful: bool,
    pub result_config: String,
    pub error_message: String,
    pub logs: Vec<String>,
}

/// How far an override application got.
pub enum OverrideOutcome {
    /// The override engine could not be set up.
    ProcessorFailed(String),
    /// The subscription could not be parsed.
    ParseFailed(String),
    /// An override failed.
    ApplyFailed(String),
    /// All overrides applied; the resulting configuration.
    Applied(String),
}

/// Message of an engine set-up failure.
pub open spec fn processor_failure_text(e: Seq<char>) -> Seq<char> {
    "初始化处理器失败："@ + e
}

/// Message of a subscription parse failure.
pub open spec fn parse_failure_text(e: Seq<char>) -> Seq<char> {
    "订阅解析失败："@ + e
}

impl ApplyOverridesRequest {
    /// Answer from the outcome of the stages.
    pub fn handle(&self, outcome: OverrideOutcome) -> (r: ApplyOverridesResponse)
        ensures
            match outcome {
                OverrideOutcome::Applied(c) => {
                    &&& r.is_successful
                    &&& r.result_config == c
                    &&& r.error_message@ == Seq::<char>::empty()
                    &&& r.logs@.len() == 1
                    &&& r.logs@[0]@ == "处理成功"@
                },
                OverrideOutcome::ProcessorFailed(e) => {
                    &&& !r.is_successful
                    &&& r.result_config@ == Seq::<char>::empty()
                    &&& r.error_message@ == processor_failure_text(e@)
                    &&& r.logs@.len() == 0
                },
                OverrideOutcome::ParseFailed(e) => {
                    &&& !r.is_successful
                    &&& r.result_config@ == Seq::<char>::empty()
                    &&& r.error_message@ == parse_failure_text(e@)
                    &&& r.logs@.len() == 0
                },
                OverrideOutcome::ApplyFailed(e) => {
                    &&& !r.is_successful
                    &&& r.result_config@ == Seq::<char>::empty()
                    &&& r.error_message == e
                    &&& r.logs@.len() == 0
                },
            },
    {
        proof {
            reveal_strlit("处理成功");
            reveal_strlit("初始化处理器失败：");
            reveal_strlit("订阅解析失败：");
        }
        match outcome {
            OverrideOutcome::Applied(c) => {
                let mut logs: Vec<String> = Vec::new();
                logs.push(String::from_str("处理成功"));
                ApplyOverridesResponse { is_successful: true, result_config: c, error_message: String::new(), logs }
            },
            OverrideOutcome::ProcessorFailed(e) => ApplyOverridesResponse {
                is_successful: false,
                result_config: String::new(),
                error_message: String::from_str("初始化处理器失败：").concat(e.as_str()),
                logs: Vec::new(),
            },
            OverrideOutcome::ParseFailed(e) => ApplyOverridesResponse {
                is_successful: false,
                result_config: String::new(),
                error_message: String::from_str("订阅解析失败：").concat(e.as_str()),
                logs: Vec::new(),
            },
            OverrideOutcome::ApplyFailed(e) => ApplyOverridesResponse {
                is_successful: false,
                result_config: String::new(),
                error_message: e,
                logs: Vec::new(),
            },
        }
    }
}

/// Request to parse raw subscription content into a configuration.
pub struct ParseSubscriptionRequest {
    pub request_id: String,
    pub content: String,
}

/// Answer to `ParseSubscriptionRequest`, echoing its identifier.
pub struct ParseSubscriptionResponse {
    pub request_id: String,
    pub is_successful: bool,
    pub parsed_config: String,
    pub error_message: String,
}

impl ParseSubscriptionRequest {
    /// Answer from the parser's outcome.
    pub fn handle(self, parsed: Result<String, String>) -> (r: ParseSubscriptionResponse)
        ensures
            r.request_id == self.request_id,
            match parsed {
                Ok(c) => r.is_successful && r.parsed_config == c && r.error_message@ == Seq::<char>::empty(),
                Err(e) => !r.is_successful && r.parsed_config@ == Seq::<char>::empty() && r.error_message == e,
            },
    {
        match parsed {
            Ok(c) => ParseSubscriptionResponse {
                request_id: self.request_id,
                is_successful: true,
                parsed_config: c,
                error_message: String::new(),
            },
            Err(e) => ParseSubscriptionResponse {
                request_id: self.request_id,
                is_successful: false,
                parsed_config: String::new(),
                error_message: e,
            },
        }
    }
}

/// Runtime parameters injected into the generated configuration.
pub struct RuntimeConfigParams {
    pub mixed_port: i32,
    pub is_ipv6_enabled: bool,
    pub is_allow_lan_enabled: bool,
    pub is_tcp_concurrent_enabled: bool,
    pub is_unified_delay_enabled: bool,
    pub outbound_mode: String,
    pub is_tun_enabled: bool,
    pub tun_stack: String,
    pub tun_device: String,
    pub is_tun_auto_route_enabled: bool,
    pub is_tun_auto_redirect_enabled: bool,
    pub is_tun_auto_detect_interface_enabled: bool,
    pub tun_dns_hijack: Vec<String>,
    pub is_tun_strict_route_enabled: bool,
    pub tun_route_exclude_address: Vec<String>,
    pub is_tun_icmp_forwarding_disabled: bool,
    pub tun_mtu: i32,
    pub geodata_loader: String,
    pub find_process_mode: String,
    pub clash_core_log_level: String,
    pub external_controller: Option<String>,
    pub external_controller_secret: Option<String>,
    pub is_keep_alive_enabled: bool,
    pub keep_alive_interval: Option<i32>,
    pub is_dns_override_enabled: bool,
    pub dns_override_content: Option<String>,
}

/// Request to build the runtime configuration.
pub struct GenerateRuntimeConfigRequest {
    pub base_config_content: String,
    pub overrides: Vec<OverrideConfig>,
    pub runtime_params: RuntimeConfigParams,
}

/// Answer to `GenerateRuntimeConfigRequest`.
pub struct GenerateRuntimeConfigResponse {
    pub success: bool,
    pub result_config: String,
    pub error_message: String,
}

impl GenerateRuntimeConfigRequest {
    /// Whether the base content is used as it is (no override to apply).
    pub fn skips_overrides(&self) -> (r: bool)
        ensures
            r == (self.overrides@.len() == 0),
    {
        self.overrides.len() == 0
    }

    /// Answer from the outcome of generation.
    pub fn handle(&self, generated: Result<String, String>) -> (r: GenerateRuntimeConfigResponse)
        ensures
            match generated {
                Ok(c) => r.success && r.result_config == c && r.error_message@ == Seq::<char>::empty(),
                Err(e) => !r.success && r.result_config@ == Seq::<char>::empty() && r.error_message == e,
            },
    {
        match generated {
            Ok(c) => GenerateRuntimeConfigResponse { success: true, result_config: c, error_message: String::new() },
            Err(e) => GenerateRuntimeConfigResponse { success: false, result_config: String::new(), error_message: e },
        }
    }
}

/// Request to start the proxy-core process.
pub struct StartClashProcess {
    pub executable_path: String,
    pub args: Vec<String>,
}

/// Request to stop the proxy-core process.
pub struct StopClashProcess;

/// Outcome of starting or stopping the proxy-core process.
pub struct ClashProcessResult {
    pub success: bool,
    pub error_message: Option<String>,
    pub pid: Option<u32>,
}

impl ClashProcessResult {
    /// Answer from the outcome of a start: the process id, or the failure.
    pub fn started(outcome: Result<u32, String>) -> (r: ClashProcessResult)
        ensures
            match outcome {
                Ok(p) => r.success && r.pid == Some(p) && r.error_message is None,
                Err(e) => !r.success && r.pid is None && r.error_message == Some(e),
            },
    {
        match outcome {
            Ok(p) => ClashProcessResult { success: true, error_message: None, pid: Some(p) },
            Err(e) => ClashProcessResult { success: false, error_message: Some(e), pid: None },
        }
    }
}

} // verus!
