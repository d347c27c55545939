//! The Windows tools offered to the model: their names, descriptions,
//! input schemas and safety tiers, and their registration. Running them is
//! the application's part.
use vstd::prelude::*;

use crate::json::{str_field, Json, JsonNumber};
use crate::shell::{shell_run_tier_for_input, spec_is_dangerous, SafetyTier, TargetOs};
use crate::text::owned;
use crate::tools::{object_schema, schema_is, ToolRouter, ToolSpec};

verus! {

/// The `win_network_info` tool.
#[derive(Debug, Clone, Copy)]
pub struct WinNetworkInfo;

impl WinNetworkInfo {
    /// What the registry holds for this tool: its name, description, tier
    /// and input schema.
    pub open spec fn describes(t: ToolSpec) -> bool {
        &&& t.name@ == "win_network_info"@
        &&& t.description@ == "Get current network configuration including IP addresses, DNS settings, and Wi-Fi info."@
        &&& t.tier == SafetyTier::ReadOnly
        &&& schema_is(t.input_schema, Seq::empty(), Seq::empty(), false)
    }

    pub fn spec(&self) -> (r: ToolSpec)
        ensures
            Self::describes(r),
    {
        ToolSpec {
            name: owned("win_network_info"),
            description: owned("Get current network configuration including IP addresses, DNS settings, and Wi-Fi info."),
            tier: SafetyTier::ReadOnly,
            input_schema: self.input_schema(),
        }
    }

    /// The tool's input: no properties.
    pub fn input_schema(&self) -> (r: Json)
        ensures
            schema_is(r, Seq::empty(), Seq::empty(), false),
    {
        let props: Vec<(String, Json)> = Vec::new();
        let required: Vec<String> = Vec::new();
        proof {
            assert(crate::tools::field_names(props@) =~= Seq::empty());
            assert(crate::playbook_runtime::views(required@) =~= Seq::empty());
        }
        object_schema(props, required, false)
    }
}

/// The `win_ping` tool.
#[derive(Debug, Clone, Copy)]
pub struct WinPing;

impl WinPing {
    /// What the registry holds for this tool: its name, description, tier
    /// and input schema.
    pub open spec fn describes(t: ToolSpec) -> bool {
        &&& t.name@ == "win_ping"@
        &&& t.description@ == "Ping a host to test network connectivity. Returns ping statistics."@
        &&& t.tier == SafetyTier::ReadOnly
        &&& schema_is(t.input_schema, seq!["count"@, "host"@], seq!["host"@], false)
    }

    pub fn spec(&self) -> (r: ToolSpec)
        ensures
            Self::describes(r),
    {
        ToolSpec {
            name: owned("win_ping"),
            description: owned("Ping a host to test network connectivity. Returns ping statistics."),
            tier: SafetyTier::ReadOnly,
            input_schema: self.input_schema(),
        }
    }

    /// The tool's input: `count`, `host`; required: `host`.
    pub fn input_schema(&self) -> (r: Json)
        ensures
            schema_is(r, seq!["count"@, "host"@], seq!["host"@], false),
    {
        let props: Vec<(String, Json)> = vec![
            (owned("count"), Json::Object(vec![(owned("default"), Json::Number(JsonNumber::PosInt(4))), (owned("description"), Json::Str(owned("Number of pings to send (default 4)"))), (owned("type"), Json::Str(owned("integer")))])),
            (owned("host"), Json::Object(vec![(owned("description"), Json::Str(owned("Hostname or IP address to ping"))), (owned("type"), Json::Str(owned("string")))])),
        ];
        let required: Vec<String> = vec![owned("host")];
        proof {
            assert(crate::tools::field_names(props@) =~= seq!["count"@, "host"@]);
            assert(crate::playbook_runtime::views(required@) =~= seq!["host"@]);
        }
        object_schema(props, required, false)
    }
}

/// The `win_dns_check` tool.
#[derive(Debug, Clone, Copy)]
pub struct WinDnsCheck;

impl WinDnsCheck {
    /// What the registry holds for this tool: its name, description, tier
    /// and input schema.
    pub open spec fn describes(t: ToolSpec) -> bool {
        &&& t.name@ == "win_dns_check"@
        &&& t.description@ == "Perform DNS lookup for a domain using nslookup and PowerShell Resolve-DnsName."@
        &&& t.tier == SafetyTier::ReadOnly
        &&& schema_is(t.input_schema, seq!["domain"@], seq!["domain"@], false)
    }

    pub fn spec(&self) -> (r: ToolSpec)
        ensures
            Self::describes(r),
    {
        ToolSpec {
            name: owned("win_dns_check"),
            description: owned("Perform DNS lookup for a domain using nslookup and PowerShell Resolve-DnsName."),
            tier: SafetyTier::ReadOnly,
            input_schema: self.input_schema(),
        }
    }

    /// The tool's input: `domain`; required: `domain`.
    pub fn input_schema(&self) -> (r: Json)
        ensures
            schema_is(r, seq!["domain"@], seq!["domain"@], false),
    {
        let props: Vec<(String, Json)> = vec![
            (owned("domain"), Json::Object(vec![(owned("description"), Json::Str(owned("Domain name to look up"))), (owned("type"), Json::Str(owned("string")))])),
        ];
        let required: Vec<String> = vec![owned("domain")];
        proof {
            assert(crate::tools::field_names(props@) =~= seq!["domain"@]);
            assert(crate::playbook_runtime::views(required@) =~= seq!["domain"@]);
        }
        object_schema(props, required, false)
    }
}

/// The `win_http_check` tool.
#[derive(Debug, Clone, Copy)]
pub struct WinHttpCheck;

impl WinHttpCheck {
    /// What the registry holds for this tool: its name, description, tier
    /// and input schema.
    pub open spec fn describes(t: ToolSpec) -> bool {
        &&& t.name@ == "win_http_check"@
        &&& t.description@ == "Test HTTP connectivity to a URL and report status code, redirect chain, and timing."@
        &&& t.tier == SafetyTier::ReadOnly
        &&& schema_is(t.input_schema, seq!["url"@], seq!["url"@], false)
    }

    pub fn spec(&self) -> (r: ToolSpec)
        ensures
            Self::describes(r),
    {
        ToolSpec {
            name: owned("win_http_check"),
            description: owned("Test HTTP connectivity to a URL and report status code, redirect chain, and timing."),
            tier: SafetyTier::ReadOnly,
            input_schema: self.input_schema(),
        }
    }

    /// The tool's input: `url`; required: `url`.
    pub fn input_schema(&self) -> (r: Json)
        ensures
            schema_is(r, seq!["url"@], seq!["url"@], false),
    {
        let props: Vec<(String, Json)> = vec![
            (owned("url"), Json::Object(vec![(owned("description"), Json::Str(owned("URL to test (e.g. https://example.com)"))), (owned("type"), Json::Str(owned("string")))])),
        ];
        let required: Vec<String> = vec![owned("url")];
        proof {
            assert(crate::tools::field_names(props@) =~= seq!["url"@]);
            assert(crate::playbook_runtime::views(required@) =~= seq!["url"@]);
        }
        object_schema(props, required, false)
    }
}

/// The `win_flush_dns` tool.
#[derive(Debug, Clone, Copy)]
pub struct WinFlushDns;

impl WinFlushDns {
    /// What the registry holds for this tool: its name, description, tier
    /// and input schema.
    pub open spec fn describes(t: ToolSpec) -> bool {
        &&& t.name@ == "win_flush_dns"@
        &&& t.description@ == "Flush the Windows DNS resolver cache. This is a safe action that clears cached DNS records."@
        &&& t.tier == SafetyTier::SafeAction
        &&& schema_is(t.input_schema, Seq::empty(), Seq::empty(), false)
    }

    pub fn spec(&self) -> (r: ToolSpec)
        ensures
            Self::describes(r),
    {
        ToolSpec {
            name: owned("win_flush_dns"),
            description: owned("Flush the Windows DNS resolver cache. This is a safe action that clears cached DNS records."),
            tier: SafetyTier::SafeAction,
            input_schema: self.input_schema(),
        }
    }

    /// The tool's input: no properties.
    pub fn input_schema(&self) -> (r: Json)
        ensures
            schema_is(r, Seq::empty(), Seq::empty(), false),
    {
        let props: Vec<(String, Json)> = Vec::new();
        let required: Vec<String> = Vec::new();
        proof {
            assert(crate::tools::field_names(props@) =~= Seq::empty());
            assert(crate::playbook_runtime::views(required@) =~= Seq::empty());
        }
        object_schema(props, required, false)
    }
}

/// The `win_printer_list` tool.
#[derive(Debug, Clone, Copy)]
pub struct WinPrinterList;

impl WinPrinterList {
    /// What the registry holds for this tool: its name, description, tier
    /// and input schema.
    pub open spec fn describes(t: ToolSpec) -> bool {
        &&& t.name@ == "win_printer_list"@
        &&& t.description@ == "List all configured printers and their status."@
        &&& t.tier == SafetyTier::ReadOnly
        &&& schema_is(t.input_schema, Seq::empty(), Seq::empty(), false)
    }

    pub fn spec(&self) -> (r: ToolSpec)
        ensures
            Self::describes(r),
    {
        ToolSpec {
            name: owned("win_printer_list"),
            description: owned("List all configured printers and their status."),
            tier: SafetyTier::ReadOnly,
            input_schema: self.input_schema(),
        }
    }

    /// The tool's input: no properties.
    pub fn input_schema(&self) -> (r: Json)
        ensures
            schema_is(r, Seq::empty(), Seq::empty(), false),
    {
        let props: Vec<(String, Json)> = Vec::new();
        let required: Vec<String> = Vec::new();
        proof {
            assert(crate::tools::field_names(props@) =~= Seq::empty());
            assert(crate::playbook_runtime::views(required@) =~= Seq::empty());
        }
        object_schema(props, required, false)
    }
}

/// The `win_print_queue` tool.
#[derive(Debug, Clone, Copy)]
pub struct WinPrintQueue;

impl WinPrintQueue {
    /// What the registry holds for this tool: its name, description, tier
    /// and input schema.
    pub open spec fn describes(t: ToolSpec) -> bool {
        &&& t.name@ == "win_print_queue"@
        &&& t.description@ == "Show all pending print jobs across all printers."@
        &&& t.tier == SafetyTier::ReadOnly
        &&& schema_is(t.input_schema, Seq::empty(), Seq::empty(), false)
    }

    pub fn spec(&self) -> (r: ToolSpec)
        ensures
            Self::describes(r),
    {
        ToolSpec {
            name: owned("win_print_queue"),
            description: owned("Show all pending print jobs across all printers."),
            tier: SafetyTier::ReadOnly,
            input_schema: self.input_schema(),
        }
    }

    /// The tool's input: no properties.
    pub fn input_schema(&self) -> (r: Json)
        ensures
            schema_is(r, Seq::empty(), Seq::empty(), false),
    {
        let props: Vec<(String, Json)> = Vec::new();
        let required: Vec<String> = Vec::new();
        proof {
            assert(crate::tools::field_names(props@) =~= Seq::empty());
            assert(crate::playbook_runtime::views(required@) =~= Seq::empty());
        }
        object_schema(props, required, false)
    }
}

/// The `win_cancel_print_jobs` tool.
#[derive(Debug, Clone, Copy)]
pub struct WinCancelPrintJobs;

impl WinCancelPrintJobs {
    /// What the registry holds for this tool: its name, description, tier
    /// and input schema.
    pub open spec fn describes(t: ToolSpec) -> bool {
        &&& t.name@ == "win_cancel_print_jobs"@
        &&& t.description@ == "Cancel all pending print jobs across all printers. Requires user approval."@
        &&& t.tier == SafetyTier::SafeAction
        &&& schema_is(t.input_schema, Seq::empty(), Seq::empty(), false)
    }

    pub fn spec(&self) -> (r: ToolSpec)
        ensures
            Self::describes(r),
    {
        ToolSpec {
            name: owned("win_cancel_print_jobs"),
            description: owned("Cancel all pending print jobs across all printers. Requires user approval."),
            tier: SafetyTier::SafeAction,
            input_schema: self.input_schema(),
        }
    }

    /// The tool's input: no properties.
    pub fn input_schema(&self) -> (r: Json)
        ensures
            schema_is(r, Seq::empty(), Seq::empty(), false),
    {
        let props: Vec<(String, Json)> = Vec::new();
        let required: Vec<String> = Vec::new();
        proof {
            assert(crate::tools::field_names(props@) =~= Seq::empty());
            assert(crate::playbook_runtime::views(required@) =~= Seq::empty());
        }
        object_schema(props, required, false)
    }
}

/// The `win_restart_spooler` tool.
#[derive(Debug, Clone, Copy)]
pub struct WinRestartSpooler;

impl WinRestartSpooler {
    /// What the registry holds for this tool: its name, description, tier
    /// and input schema.
    pub open spec fn describes(t: ToolSpec) -> bool {
        &&& t.name@ == "win_restart_spooler"@
        &&& t.description@ == "Restart the Windows Print Spooler service. This can fix stuck print queues."@
        &&& t.tier == SafetyTier::SafeAction
        &&& schema_is(t.input_schema, Seq::empty(), Seq::empty(), false)
    }

    pub fn spec(&self) -> (r: ToolSpec)
        ensures
            Self::describes(r),
    {
        ToolSpec {
            name: owned("win_restart_spooler"),
            description: owned("Restart the Windows Print Spooler service. This can fix stuck print queues."),
            tier: SafetyTier::SafeAction,
            input_schema: self.input_schema(),
        }
    }

    /// The tool's input: no properties.
    pub fn input_schema(&self) -> (r: Json)
        ensures
            schema_is(r, Seq::empty(), Seq::empty(), false),
    {
        let props: Vec<(String, Json)> = Vec::new();
        let required: Vec<String> = Vec::new();
        proof {
            assert(crate::tools::field_names(props@) =~= Seq::empty());
            assert(crate::playbook_runtime::views(required@) =~= Seq::empty());
        }
        object_schema(props, required, false)
    }
}

/// The `win_system_info` tool.
#[derive(Debug, Clone, Copy)]
pub struct WinSystemInfo;

impl WinSystemInfo {
    /// What the registry holds for this tool: its name, description, tier
    /// and input schema.
    pub open spec fn describes(t: ToolSpec) -> bool {
        &&& t.name@ == "win_system_info"@
        &&& t.description@ == "Get Windows version, CPU model, core count, and total memory."@
        &&& t.tier == SafetyTier::ReadOnly
        &&& schema_is(t.input_schema, Seq::empty(), Seq::empty(), true)
    }

    pub fn spec(&self) -> (r: ToolSpec)
        ensures
            Self::describes(r),
    {
        ToolSpec {
            name: owned("win_system_info"),
            description: owned("Get Windows version, CPU model, core count, and total memory."),
            tier: SafetyTier::ReadOnly,
            input_schema: self.input_schema(),
        }
    }

    /// The tool's input: no properties.
    pub fn input_schema(&self) -> (r: Json)
        ensures
            schema_is(r, Seq::empty(), Seq::empty(), true),
    {
        let props: Vec<(String, Json)> = Vec::new();
        let required: Vec<String> = Vec::new();
        proof {
            assert(crate::tools::field_names(props@) =~= Seq::empty());
            assert(crate::playbook_runtime::views(required@) =~= Seq::empty());
        }
        object_schema(props, required, true)
    }
}

/// The `win_process_list` tool.
#[derive(Debug, Clone, Copy)]
pub struct WinProcessList;

impl WinProcessList {
    /// What the registry holds for this tool: its name, description, tier
    /// and input schema.
    pub open spec fn describes(t: ToolSpec) -> bool {
        &&& t.name@ == "win_process_list"@
        &&& t.description@ == "List running processes sorted by CPU or memory usage."@
        &&& t.tier == SafetyTier::ReadOnly
        &&& schema_is(t.input_schema, seq!["sort_by"@], Seq::empty(), true)
    }

    pub fn spec(&self) -> (r: ToolSpec)
        ensures
            Self::describes(r),
    {
        ToolSpec {
            name: owned("win_process_list"),
            description: owned("List running processes sorted by CPU or memory usage."),
            tier: SafetyTier::ReadOnly,
            input_schema: self.input_schema(),
        }
    }

    /// The tool's input: `sort_by`.
    pub fn input_schema(&self) -> (r: Json)
        ensures
            schema_is(r, seq!["sort_by"@], Seq::empty(), true),
    {
        let props: Vec<(String, Json)> = vec![
            (owned("sort_by"), Json::Object(vec![(owned("default"), Json::Str(owned("cpu"))), (owned("description"), Json::Str(owned("Sort by 'cpu' or 'mem' (default: cpu)"))), (owned("enum"), Json::Array(vec![Json::Str(owned("cpu")), Json::Str(owned("mem"))])), (owned("type"), Json::Str(owned("string")))])),
        ];
        let required: Vec<String> = Vec::new();
        proof {
            assert(crate::tools::field_names(props@) =~= seq!["sort_by"@]);
            assert(crate::playbook_runtime::views(required@) =~= Seq::empty());
        }
        object_schema(props, required, true)
    }
}

/// The `win_disk_usage` tool.
#[derive(Debug, Clone, Copy)]
pub struct WinDiskUsage;

impl WinDiskUsage {
    /// What the registry holds for this tool: its name, description, tier
    /// and input schema.
    pub open spec fn describes(t: ToolSpec) -> bool {
        &&& t.name@ == "win_disk_usage"@
        &&& t.description@ == "Show disk usage for all volumes."@
        &&& t.tier == SafetyTier::ReadOnly
        &&& schema_is(t.input_schema, Seq::empty(), Seq::empty(), true)
    }

    pub fn spec(&self) -> (r: ToolSpec)
        ensures
            Self::describes(r),
    {
        ToolSpec {
            name: owned("win_disk_usage"),
            description: owned("Show disk usage for all volumes."),
            tier: SafetyTier::ReadOnly,
            input_schema: self.input_schema(),
        }
    }

    /// The tool's input: no properties.
    pub fn input_schema(&self) -> (r: Json)
        ensures
            schema_is(r, Seq::empty(), Seq::empty(), true),
    {
        let props: Vec<(String, Json)> = Vec::new();
        let required: Vec<String> = Vec::new();
        proof {
            assert(crate::tools::field_names(props@) =~= Seq::empty());
            assert(crate::playbook_runtime::views(required@) =~= Seq::empty());
        }
        object_schema(props, required, true)
    }
}

/// The `win_kill_process` tool.
#[derive(Debug, Clone, Copy)]
pub struct WinKillProcess;

impl WinKillProcess {
    /// What the registry holds for this tool: its name, description, tier
    /// and input schema.
    pub open spec fn describes(t: ToolSpec) -> bool {
        &&& t.name@ == "win_kill_process"@
        &&& t.description@ == "Kill a process by PID using taskkill. Requires user approval."@
        &&& t.tier == SafetyTier::SafeAction
        &&& schema_is(t.input_schema, seq!["pid"@], seq!["pid"@], true)
    }

    pub fn spec(&self) -> (r: ToolSpec)
        ensures
            Self::describes(r),
    {
        ToolSpec {
            name: owned("win_kill_process"),
            description: owned("Kill a process by PID using taskkill. Requires user approval."),
            tier: SafetyTier::SafeAction,
            input_schema: self.input_schema(),
        }
    }

    /// The tool's input: `pid`; required: `pid`.
    pub fn input_schema(&self) -> (r: Json)
        ensures
            schema_is(r, seq!["pid"@], seq!["pid"@], true),
    {
        let props: Vec<(String, Json)> = vec![
            (owned("pid"), Json::Object(vec![(owned("description"), Json::Str(owned("Process ID to kill"))), (owned("type"), Json::Str(owned("integer")))])),
        ];
        let required: Vec<String> = vec![owned("pid")];
        proof {
            assert(crate::tools::field_names(props@) =~= seq!["pid"@]);
            assert(crate::playbook_runtime::views(required@) =~= seq!["pid"@]);
        }
        object_schema(props, required, true)
    }
}

/// The `win_clear_caches` tool.
#[derive(Debug, Clone, Copy)]
pub struct WinClearCaches;

impl WinClearCaches {
    /// What the registry holds for this tool: its name, description, tier
    /// and input schema.
    pub open spec fn describes(t: ToolSpec) -> bool {
        &&& t.name@ == "win_clear_caches"@
        &&& t.description@ == "Clear temporary files from %TEMP% and C:\\Windows\\Temp to free disk space."@
        &&& t.tier == SafetyTier::SafeAction
        &&& schema_is(t.input_schema, Seq::empty(), Seq::empty(), true)
    }

    pub fn spec(&self) -> (r: ToolSpec)
        ensures
            Self::describes(r),
    {
        ToolSpec {
            name: owned("win_clear_caches"),
            description: owned("Clear temporary files from %TEMP% and C:\\Windows\\Temp to free disk space."),
            tier: SafetyTier::SafeAction,
            input_schema: self.input_schema(),
        }
    }

    /// The tool's input: no properties.
    pub fn input_schema(&self) -> (r: Json)
        ensures
            schema_is(r, Seq::empty(), Seq::empty(), true),
    {
        let props: Vec<(String, Json)> = Vec::new();
        let required: Vec<String> = Vec::new();
        proof {
            assert(crate::tools::field_names(props@) =~= Seq::empty());
            assert(crate::playbook_runtime::views(required@) =~= Seq::empty());
        }
        object_schema(props, required, true)
    }
}

/// The `win_app_list` tool.
#[derive(Debug, Clone, Copy)]
pub struct WinAppList;

impl WinAppList {
    /// What the registry holds for this tool: its name, description, tier
    /// and input schema.
    pub open spec fn describes(t: ToolSpec) -> bool {
        &&& t.name@ == "win_app_list"@
        &&& t.description@ == "List installed applications with their version numbers from the Windows registry."@
        &&& t.tier == SafetyTier::ReadOnly
        &&& schema_is(t.input_schema, Seq::empty(), Seq::empty(), false)
    }

    pub fn spec(&self) -> (r: ToolSpec)
        ensures
            Self::describes(r),
    {
        ToolSpec {
            name: owned("win_app_list"),
            description: owned("List installed applications with their version numbers from the Windows registry."),
            tier: SafetyTier::ReadOnly,
            input_schema: self.input_schema(),
        }
    }

    /// The tool's input: no properties.
    pub fn input_schema(&self) -> (r: Json)
        ensures
            schema_is(r, Seq::empty(), Seq::empty(), false),
    {
        let props: Vec<(String, Json)> = Vec::new();
        let required: Vec<String> = Vec::new();
        proof {
            assert(crate::tools::field_names(props@) =~= Seq::empty());
            assert(crate::playbook_runtime::views(required@) =~= Seq::empty());
        }
        object_schema(props, required, false)
    }
}

/// The `win_app_logs` tool.
#[derive(Debug, Clone, Copy)]
pub struct WinAppLogs;

impl WinAppLogs {
    /// What the registry holds for this tool: its name, description, tier
    /// and input schema.
    pub open spec fn describes(t: ToolSpec) -> bool {
        &&& t.name@ == "win_app_logs"@
        &&& t.description@ == "Show recent Windows Event Log entries for a specific application from the Application log."@
        &&& t.tier == SafetyTier::ReadOnly
        &&& schema_is(t.input_schema, seq!["app_name"@, "duration"@], seq!["app_name"@], false)
    }

    pub fn spec(&self) -> (r: ToolSpec)
        ensures
            Self::describes(r),
    {
        ToolSpec {
            name: owned("win_app_logs"),
            description: owned("Show recent Windows Event Log entries for a specific application from the Application log."),
            tier: SafetyTier::ReadOnly,
            input_schema: self.input_schema(),
        }
    }

    /// The tool's input: `app_name`, `duration`; required: `app_name`.
    pub fn input_schema(&self) -> (r: Json)
        ensures
            schema_is(r, seq!["app_name"@, "duration"@], seq!["app_name"@], false),
    {
        let props: Vec<(String, Json)> = vec![
            (owned("app_name"), Json::Object(vec![(owned("description"), Json::Str(owned("Application or source name to filter event logs for"))), (owned("type"), Json::Str(owned("string")))])),
            (owned("duration"), Json::Object(vec![(owned("default"), Json::Str(owned("1h"))), (owned("description"), Json::Str(owned("How far back to look, e.g. '1h', '30m', '1d'. Default: '1h'"))), (owned("type"), Json::Str(owned("string")))])),
        ];
        let required: Vec<String> = vec![owned("app_name")];
        proof {
            assert(crate::tools::field_names(props@) =~= seq!["app_name"@, "duration"@]);
            assert(crate::playbook_runtime::views(required@) =~= seq!["app_name"@]);
        }
        object_schema(props, required, false)
    }
}

/// The `win_app_data_ls` tool.
#[derive(Debug, Clone, Copy)]
pub struct WinAppDataLs;

impl WinAppDataLs {
    /// What the registry holds for this tool: its name, description, tier
    /// and input schema.
    pub open spec fn describes(t: ToolSpec) -> bool {
        &&& t.name@ == "win_app_data_ls"@
        &&& t.description@ == "List contents of an application's data directories in %APPDATA% and %LOCALAPPDATA%."@
        &&& t.tier == SafetyTier::ReadOnly
        &&& schema_is(t.input_schema, seq!["app_name"@], seq!["app_name"@], false)
    }

    pub fn spec(&self) -> (r: ToolSpec)
        ensures
            Self::describes(r),
    {
        ToolSpec {
            name: owned("win_app_data_ls"),
            description: owned("List contents of an application's data directories in %APPDATA% and %LOCALAPPDATA%."),
            tier: SafetyTier::ReadOnly,
            input_schema: self.input_schema(),
        }
    }

    /// The tool's input: `app_name`; required: `app_name`.
    pub fn input_schema(&self) -> (r: Json)
        ensures
            schema_is(r, seq!["app_name"@], seq!["app_name"@], false),
    {
        let props: Vec<(String, Json)> = vec![
            (owned("app_name"), Json::Object(vec![(owned("description"), Json::Str(owned("Application name (subdirectory of AppData)"))), (owned("type"), Json::Str(owned("string")))])),
        ];
        let required: Vec<String> = vec![owned("app_name")];
        proof {
            assert(crate::tools::field_names(props@) =~= seq!["app_name"@]);
            assert(crate::playbook_runtime::views(required@) =~= seq!["app_name"@]);
        }
        object_schema(props, required, false)
    }
}

/// The `win_clear_app_cache` tool.
#[derive(Debug, Clone, Copy)]
pub struct WinClearAppCache;

impl WinClearAppCache {
    /// What the registry holds for this tool: its name, description, tier
    /// and input schema.
    pub open spec fn describes(t: ToolSpec) -> bool {
        &&& t.name@ == "win_clear_app_cache"@
        &&& t.description@ == "Clear cache files for a specific application from %LOCALAPPDATA%. Requires user approval."@
        &&& t.tier == SafetyTier::SafeAction
        &&& schema_is(t.input_schema, seq!["app_name"@], seq!["app_name"@], false)
    }

    pub fn spec(&self) -> (r: ToolSpec)
        ensures
            Self::describes(r),
    {
        ToolSpec {
            name: owned("win_clear_app_cache"),
            description: owned("Clear cache files for a specific application from %LOCALAPPDATA%. Requires user approval."),
            tier: SafetyTier::SafeAction,
            input_schema: self.input_schema(),
        }
    }

    /// The tool's input: `app_name`; required: `app_name`.
    pub fn input_schema(&self) -> (r: Json)
        ensures
            schema_is(r, seq!["app_name"@], seq!["app_name"@], false),
    {
        let props: Vec<(String, Json)> = vec![
            (owned("app_name"), Json::Object(vec![(owned("description"), Json::Str(owned("Application name whose local cache to clear"))), (owned("type"), Json::Str(owned("string")))])),
        ];
        let required: Vec<String> = vec![owned("app_name")];
        proof {
            assert(crate::tools::field_names(props@) =~= seq!["app_name"@]);
            assert(crate::playbook_runtime::views(required@) =~= seq!["app_name"@]);
        }
        object_schema(props, required, false)
    }
}

/// The `win_move_file` tool.
#[derive(Debug, Clone, Copy)]
pub struct WinMoveFile;

impl WinMoveFile {
    /// What the registry holds for this tool: its name, description, tier
    /// and input schema.
    pub open spec fn describes(t: ToolSpec) -> bool {
        &&& t.name@ == "win_move_file"@
        &&& t.description@ == "Move or copy a file or directory using PowerShell."@
        &&& t.tier == SafetyTier::SafeAction
        &&& schema_is(t.input_schema, seq!["destination"@, "operation"@, "source"@], seq!["source"@, "destination"@], false)
    }

    pub fn spec(&self) -> (r: ToolSpec)
        ensures
            Self::describes(r),
    {
        ToolSpec {
            name: owned("win_move_file"),
            description: owned("Move or copy a file or directory using PowerShell."),
            tier: SafetyTier::SafeAction,
            input_schema: self.input_schema(),
        }
    }

    /// The tool's input: `destination`, `operation`, `source`; required: `source`, `destination`.
    pub fn input_schema(&self) -> (r: Json)
        ensures
            schema_is(r, seq!["destination"@, "operation"@, "source"@], seq!["source"@, "destination"@], false),
    {
        let props: Vec<(String, Json)> = vec![
            (owned("destination"), Json::Object(vec![(owned("description"), Json::Str(owned("Destination path"))), (owned("type"), Json::Str(owned("string")))])),
            (owned("operation"), Json::Object(vec![(owned("default"), Json::Str(owned("move"))), (owned("description"), Json::Str(owned("Operation: 'move' or 'copy'. Default: 'move'"))), (owned("enum"), Json::Array(vec![Json::Str(owned("move")), Json::Str(owned("copy"))])), (owned("type"), Json::Str(owned("string")))])),
            (owned("source"), Json::Object(vec![(owned("description"), Json::Str(owned("Source file or directory path"))), (owned("type"), Json::Str(owned("string")))])),
        ];
        let required: Vec<String> = vec![owned("source"), owned("destination")];
        proof {
            assert(crate::tools::field_names(props@) =~= seq!["destination"@, "operation"@, "source"@]);
            assert(crate::playbook_runtime::views(required@) =~= seq!["source"@, "destination"@]);
        }
        object_schema(props, required, false)
    }
}

/// The `win_system_summary` tool.
#[derive(Debug, Clone, Copy)]
pub struct WinSystemSummary;

impl WinSystemSummary {
    /// What the registry holds for this tool: its name, description, tier
    /// and input schema.
    pub open spec fn describes(t: ToolSpec) -> bool {
        &&& t.name@ == "win_system_summary"@
        &&& t.description@ == "One-shot system summary: OS version, hardware, disk space, network status, and uptime."@
        &&& t.tier == SafetyTier::ReadOnly
        &&& schema_is(t.input_schema, Seq::empty(), Seq::empty(), true)
    }

    pub fn spec(&self) -> (r: ToolSpec)
        ensures
            Self::describes(r),
    {
        ToolSpec {
            name: owned("win_system_summary"),
            description: owned("One-shot system summary: OS version, hardware, disk space, network status, and uptime."),
            tier: SafetyTier::ReadOnly,
            input_schema: self.input_schema(),
        }
    }

    /// The tool's input: no properties.
    pub fn input_schema(&self) -> (r: Json)
        ensures
            schema_is(r, Seq::empty(), Seq::empty(), true),
    {
        let props: Vec<(String, Json)> = Vec::new();
        let required: Vec<String> = Vec::new();
        proof {
            assert(crate::tools::field_names(props@) =~= Seq::empty());
            assert(crate::playbook_runtime::views(required@) =~= Seq::empty());
        }
        object_schema(props, required, true)
    }
}

/// The `win_read_file` tool.
#[derive(Debug, Clone, Copy)]
pub struct WinReadFile;

impl WinReadFile {
    /// What the registry holds for this tool: its name, description, tier
    /// and input schema.
    pub open spec fn describes(t: ToolSpec) -> bool {
        &&& t.name@ == "win_read_file"@
        &&& t.description@ == "Read the contents of a file. The path must be under a user-accessible location (C:\\Users\\*, C:\\ProgramData\\*, C:\\Windows\\Logs\\*, etc.). System-protected paths are rejected. Output is truncated at 500 lines."@
        &&& t.tier == SafetyTier::ReadOnly
        &&& schema_is(t.input_schema, seq!["path"@], seq!["path"@], true)
    }

    pub fn spec(&self) -> (r: ToolSpec)
        ensures
            Self::describes(r),
    {
        ToolSpec {
            name: owned("win_read_file"),
            description: owned("Read the contents of a file. The path must be under a user-accessible location (C:\\Users\\*, C:\\ProgramData\\*, C:\\Windows\\Logs\\*, etc.). System-protected paths are rejected. Output is truncated at 500 lines."),
            tier: SafetyTier::ReadOnly,
            input_schema: self.input_schema(),
        }
    }

    /// The tool's input: `path`; required: `path`.
    pub fn input_schema(&self) -> (r: Json)
        ensures
            schema_is(r, seq!["path"@], seq!["path"@], true),
    {
        let props: Vec<(String, Json)> = vec![
            (owned("path"), Json::Object(vec![(owned("description"), Json::Str(owned("Absolute path to the file to read"))), (owned("type"), Json::Str(owned("string")))])),
        ];
        let required: Vec<String> = vec![owned("path")];
        proof {
            assert(crate::tools::field_names(props@) =~= seq!["path"@]);
            assert(crate::playbook_runtime::views(required@) =~= seq!["path"@]);
        }
        object_schema(props, required, true)
    }
}

/// The `win_read_log` tool.
#[derive(Debug, Clone, Copy)]
pub struct WinReadLog;

impl WinReadLog {
    /// What the registry holds for this tool: its name, description, tier
    /// and input schema.
    pub open spec fn describes(t: ToolSpec) -> bool {
        &&& t.name@ == "win_read_log"@
        &&& t.description@ == "Read Windows Event Log entries by log name (Application, System, Security, etc.) and time range. Output is limited to the last 200 entries."@
        &&& t.tier == SafetyTier::ReadOnly
        &&& schema_is(t.input_schema, seq!["duration"@, "level"@, "log_name"@], seq!["log_name"@], true)
    }

    pub fn spec(&self) -> (r: ToolSpec)
        ensures
            Self::describes(r),
    {
        ToolSpec {
            name: owned("win_read_log"),
            description: owned("Read Windows Event Log entries by log name (Application, System, Security, etc.) and time range. Output is limited to the last 200 entries."),
            tier: SafetyTier::ReadOnly,
            input_schema: self.input_schema(),
        }
    }

    /// The tool's input: `duration`, `level`, `log_name`; required: `log_name`.
    pub fn input_schema(&self) -> (r: Json)
        ensures
            schema_is(r, seq!["duration"@, "level"@, "log_name"@], seq!["log_name"@], true),
    {
        let props: Vec<(String, Json)> = vec![
            (owned("duration"), Json::Object(vec![(owned("default"), Json::Str(owned("30m"))), (owned("description"), Json::Str(owned("How far back to look, e.g. '1h', '30m', '1d'. Default: '30m'"))), (owned("type"), Json::Str(owned("string")))])),
            (owned("level"), Json::Object(vec![(owned("default"), Json::Str(owned("All"))), (owned("description"), Json::Str(owned("Filter by level: 'Error', 'Warning', 'Information', or 'All'. Default: 'All'"))), (owned("type"), Json::Str(owned("string")))])),
            (owned("log_name"), Json::Object(vec![(owned("default"), Json::Str(owned("Application"))), (owned("description"), Json::Str(owned("Event log name: 'Application', 'System', or 'Security'"))), (owned("enum"), Json::Array(vec![Json::Str(owned("Application")), Json::Str(owned("System")), Json::Str(owned("Security"))])), (owned("type"), Json::Str(owned("string")))])),
        ];
        let required: Vec<String> = vec![owned("log_name")];
        proof {
            assert(crate::tools::field_names(props@) =~= seq!["duration"@, "level"@, "log_name"@]);
            assert(crate::playbook_runtime::views(required@) =~= seq!["log_name"@]);
        }
        object_schema(props, required, true)
    }
}

/// The `shell_run` tool.
#[derive(Debug, Clone, Copy)]
pub struct ShellRun;

impl ShellRun {
    /// What the registry holds for this tool: its name, description, tier
    /// and input schema.
    pub open spec fn describes(t: ToolSpec) -> bool {
        &&& t.name@ == "shell_run"@
        &&& t.description@ == "Execute a shell command via cmd.exe /c. Auto-approved for safe commands; dangerous commands (del, rd, format, Remove-Item, etc.) require user approval. Output is truncated at 10 000 chars; commands time out after 60 s."@
        &&& t.tier == SafetyTier::SafeAction
        &&& schema_is(t.input_schema, seq!["command"@, "reason"@], seq!["command"@, "reason"@], true)
    }

    pub fn spec(&self) -> (r: ToolSpec)
        ensures
            Self::describes(r),
    {
        ToolSpec {
            name: owned("shell_run"),
            description: owned("Execute a shell command via cmd.exe /c. Auto-approved for safe commands; dangerous commands (del, rd, format, Remove-Item, etc.) require user approval. Output is truncated at 10 000 chars; commands time out after 60 s."),
            tier: SafetyTier::SafeAction,
            input_schema: self.input_schema(),
        }
    }

    /// The tool's input: `command`, `reason`; required: `command`, `reason`.
    pub fn input_schema(&self) -> (r: Json)
        ensures
            schema_is(r, seq!["command"@, "reason"@], seq!["command"@, "reason"@], true),
    {
        let props: Vec<(String, Json)> = vec![
            (owned("command"), Json::Object(vec![(owned("description"), Json::Str(owned("The shell command to execute"))), (owned("type"), Json::Str(owned("string")))])),
            (owned("reason"), Json::Object(vec![(owned("description"), Json::Str(owned("Plain-language explanation of what this command does and why, written for a non-technical user. Example: 'Delete old log files to free up disk space'"))), (owned("type"), Json::Str(owned("string")))])),
        ];
        let required: Vec<String> = vec![owned("command"), owned("reason")];
        proof {
            assert(crate::tools::field_names(props@) =~= seq!["command"@, "reason"@]);
            assert(crate::playbook_runtime::views(required@) =~= seq!["command"@, "reason"@]);
        }
        object_schema(props, required, true)
    }

    /// A call needs approval when its command is dangerous; else it is a safe action.
    pub fn safety_tier_for_input(&self, input: &Json) -> (t: SafetyTier)
        ensures
            t == (match str_field(*input, "command"@) {
                Some(c) => if spec_is_dangerous(c, TargetOs::Windows) {
                    SafetyTier::NeedsApproval
                } else {
                    SafetyTier::SafeAction
                },
                None => SafetyTier::SafeAction,
            }),
    {
        shell_run_tier_for_input(input.str_field("command"), TargetOs::Windows)
    }
}

/// The `win_startup_programs` tool.
#[derive(Debug, Clone, Copy)]
pub struct WinStartupPrograms;

impl WinStartupPrograms {
    /// What the registry holds for this tool: its name, description, tier
    /// and input schema.
    pub open spec fn describes(t: ToolSpec) -> bool {
        &&& t.name@ == "win_startup_programs"@
        &&& t.description@ == "List programs that run at login/startup. Useful for diagnosing slow boot times."@
        &&& t.tier == SafetyTier::ReadOnly
        &&& schema_is(t.input_schema, Seq::empty(), Seq::empty(), true)
    }

    pub fn spec(&self) -> (r: ToolSpec)
        ensures
            Self::describes(r),
    {
        ToolSpec {
            name: owned("win_startup_programs"),
            description: owned("List programs that run at login/startup. Useful for diagnosing slow boot times."),
            tier: SafetyTier::ReadOnly,
            input_schema: self.input_schema(),
        }
    }

    /// The tool's input: no properties.
    pub fn input_schema(&self) -> (r: Json)
        ensures
            schema_is(r, Seq::empty(), Seq::empty(), true),
    {
        let props: Vec<(String, Json)> = Vec::new();
        let required: Vec<String> = Vec::new();
        proof {
            assert(crate::tools::field_names(props@) =~= Seq::empty());
            assert(crate::playbook_runtime::views(required@) =~= Seq::empty());
        }
        object_schema(props, required, true)
    }
}

/// The `win_service_list` tool.
#[derive(Debug, Clone, Copy)]
pub struct WinServiceList;

impl WinServiceList {
    /// What the registry holds for this tool: its name, description, tier
    /// and input schema.
    pub open spec fn describes(t: ToolSpec) -> bool {
        &&& t.name@ == "win_service_list"@
        &&& t.description@ == "List running Windows services."@
        &&& t.tier == SafetyTier::ReadOnly
        &&& schema_is(t.input_schema, Seq::empty(), Seq::empty(), true)
    }

    pub fn spec(&self) -> (r: ToolSpec)
        ensures
            Self::describes(r),
    {
        ToolSpec {
            name: owned("win_service_list"),
            description: owned("List running Windows services."),
            tier: SafetyTier::ReadOnly,
            input_schema: self.input_schema(),
        }
    }

    /// The tool's input: no properties.
    pub fn input_schema(&self) -> (r: Json)
        ensures
            schema_is(r, Seq::empty(), Seq::empty(), true),
    {
        let props: Vec<(String, Json)> = Vec::new();
        let required: Vec<String> = Vec::new();
        proof {
            assert(crate::tools::field_names(props@) =~= Seq::empty());
            assert(crate::playbook_runtime::views(required@) =~= Seq::empty());
        }
        object_schema(props, required, true)
    }
}

/// The `win_restart_service` tool.
#[derive(Debug, Clone, Copy)]
pub struct WinRestartService;

impl WinRestartService {
    /// What the registry holds for this tool: its name, description, tier
    /// and input schema.
    pub open spec fn describes(t: ToolSpec) -> bool {
        &&& t.name@ == "win_restart_service"@
        &&& t.description@ == "Restart a Windows service by name. Useful for fixing stuck services."@
        &&& t.tier == SafetyTier::SafeAction
        &&& schema_is(t.input_schema, seq!["service_name"@], seq!["service_name"@], true)
    }

    pub fn spec(&self) -> (r: ToolSpec)
        ensures
            Self::describes(r),
    {
        ToolSpec {
            name: owned("win_restart_service"),
            description: owned("Restart a Windows service by name. Useful for fixing stuck services."),
            tier: SafetyTier::SafeAction,
            input_schema: self.input_schema(),
        }
    }

    /// The tool's input: `service_name`; required: `service_name`.
    pub fn input_schema(&self) -> (r: Json)
        ensures
            schema_is(r, seq!["service_name"@], seq!["service_name"@], true),
    {
        let props: Vec<(String, Json)> = vec![
            (owned("service_name"), Json::Object(vec![(owned("description"), Json::Str(owned("The service name to restart (e.g. 'Spooler', 'wuauserv')"))), (owned("type"), Json::Str(owned("string")))])),
        ];
        let required: Vec<String> = vec![owned("service_name")];
        proof {
            assert(crate::tools::field_names(props@) =~= seq!["service_name"@]);
            assert(crate::playbook_runtime::views(required@) =~= seq!["service_name"@]);
        }
        object_schema(props, required, true)
    }
}

/// The names of the tools, in registration order.
pub open spec fn tool_names() -> Seq<Seq<char>> {
    seq![
        "win_network_info"@,
        "win_ping"@,
        "win_dns_check"@,
        "win_http_check"@,
        "win_flush_dns"@,
        "win_printer_list"@,
        "win_print_queue"@,
        "win_cancel_print_jobs"@,
        "win_restart_spooler"@,
        "win_system_info"@,
        "win_process_list"@,
        "win_disk_usage"@,
        "win_kill_process"@,
        "win_clear_caches"@,
        "win_app_list"@,
        "win_app_logs"@,
        "win_app_data_ls"@,
        "win_clear_app_cache"@,
        "win_move_file"@,
        "win_system_summary"@,
        "win_read_file"@,
        "win_read_log"@,
        "shell_run"@,
        "win_startup_programs"@,
        "win_service_list"@,
        "win_restart_service"@,
    ]
}

/// Register the tools, in the order of `tool_names`.
pub fn register_tools(router: &mut ToolRouter)
    ensures
        final(router).tools@.len() == old(router).tools@.len() + tool_names().len(),
        final(router).tools@.subrange(0, old(router).tools@.len() as int) == old(router).tools@,
        forall|i: int|
            0 <= i < tool_names().len() ==> (#[trigger] final(router).tools@[old(router).tools@.len()
                + i]).name@ == tool_names()[i],
        WinNetworkInfo::describes(final(router).tools@[old(router).tools@.len() + 0int]),
        WinPing::describes(final(router).tools@[old(router).tools@.len() + 1int]),
        WinDnsCheck::describes(final(router).tools@[old(router).tools@.len() + 2int]),
        WinHttpCheck::describes(final(router).tools@[old(router).tools@.len() + 3int]),
        WinFlushDns::describes(final(router).tools@[old(router).tools@.len() + 4int]),
        WinPrinterList::describes(final(router).tools@[old(router).tools@.len() + 5int]),
        WinPrintQueue::describes(final(router).tools@[old(router).tools@.len() + 6int]),
        WinCancelPrintJobs::describes(final(router).tools@[old(router).tools@.len() + 7int]),
        WinRestartSpooler::describes(final(router).tools@[old(router).tools@.len() + 8int]),
        WinSystemInfo::describes(final(router).tools@[old(router).tools@.len() + 9int]),
        WinProcessList::describes(final(router).tools@[old(router).tools@.len() + 10int]),
        WinDiskUsage::describes(final(router).tools@[old(router).tools@.len() + 11int]),
        WinKillProcess::describes(final(router).tools@[old(router).tools@.len() + 12int]),
        WinClearCaches::describes(final(router).tools@[old(router).tools@.len() + 13int]),
        WinAppList::describes(final(router).tools@[old(router).tools@.len() + 14int]),
        WinAppLogs::describes(final(router).tools@[old(router).tools@.len() + 15int]),
        WinAppDataLs::describes(final(router).tools@[old(router).tools@.len() + 16int]),
        WinClearAppCache::describes(final(router).tools@[old(router).tools@.len() + 17int]),
        WinMoveFile::describes(final(router).tools@[old(router).tools@.len() + 18int]),
        WinSystemSummary::describes(final(router).tools@[old(router).tools@.len() + 19int]),
        WinReadFile::describes(final(router).tools@[old(router).tools@.len() + 20int]),
        WinReadLog::describes(final(router).tools@[old(router).tools@.len() + 21int]),
        ShellRun::describes(final(router).tools@[old(router).tools@.len() + 22int]),
        WinStartupPrograms::describes(final(router).tools@[old(router).tools@.len() + 23int]),
        WinServiceList::describes(final(router).tools@[old(router).tools@.len() + 24int]),
        WinRestartService::describes(final(router).tools@[old(router).tools@.len() + 25int]),
{
    let ghost start = router.tools@;
    router.register(WinNetworkInfo.spec());
    router.register(WinPing.spec());
    router.register(WinDnsCheck.spec());
    router.register(WinHttpCheck.spec());
    router.register(WinFlushDns.spec());
    router.register(WinPrinterList.spec());
    router.register(WinPrintQueue.spec());
    router.register(WinCancelPrintJobs.spec());
    router.register(WinRestartSpooler.spec());
    router.register(WinSystemInfo.spec());
    router.register(WinProcessList.spec());
    router.register(WinDiskUsage.spec());
    router.register(WinKillProcess.spec());
    router.register(WinClearCaches.spec());
    router.register(WinAppList.spec());
    router.register(WinAppLogs.spec());
    router.register(WinAppDataLs.spec());
    router.register(WinClearAppCache.spec());
    router.register(WinMoveFile.spec());
    router.register(WinSystemSummary.spec());
    router.register(WinReadFile.spec());
    router.register(WinReadLog.spec());
    router.register(ShellRun.spec());
    router.register(WinStartupPrograms.spec());
    router.register(WinServiceList.spec());
    router.register(WinRestartService.spec());
    proof {
        let n = start.len() as int;
        assert(router.tools@.subrange(0, n) =~= start);
        assert(router.tools@[n + 0].name@ == tool_names()[0]);
        assert(WinNetworkInfo::describes(router.tools@[n + 0]));
        assert(router.tools@[n + 1].name@ == tool_names()[1]);
        assert(WinPing::describes(router.tools@[n + 1]));
        assert(router.tools@[n + 2].name@ == tool_names()[2]);
        assert(WinDnsCheck::describes(router.tools@[n + 2]));
        assert(router.tools@[n + 3].name@ == tool_names()[3]);
        assert(WinHttpCheck::describes(router.tools@[n + 3]));
        assert(router.tools@[n + 4].name@ == tool_names()[4]);
        assert(WinFlushDns::describes(router.tools@[n + 4]));
        assert(router.tools@[n + 5].name@ == tool_names()[5]);
        assert(WinPrinterList::describes(router.tools@[n + 5]));
        assert(router.tools@[n + 6].name@ == tool_names()[6]);
        assert(WinPrintQueue::describes(router.tools@[n + 6]));
        assert(router.tools@[n + 7].name@ == tool_names()[7]);
        assert(WinCancelPrintJobs::describes(router.tools@[n + 7]));
        assert(router.tools@[n + 8].name@ == tool_names()[8]);
        assert(WinRestartSpooler::describes(router.tools@[n + 8]));
        assert(router.tools@[n + 9].name@ == tool_names()[9]);
        assert(WinSystemInfo::describes(router.tools@[n + 9]));
        assert(router.tools@[n + 10].name@ == tool_names()[10]);
        assert(WinProcessList::describes(router.tools@[n + 10]));
        assert(router.tools@[n + 11].name@ == tool_names()[11]);
        assert(WinDiskUsage::describes(router.tools@[n + 11]));
        assert(router.tools@[n + 12].name@ == tool_names()[12]);
        assert(WinKillProcess::describes(router.tools@[n + 12]));
        assert(router.tools@[n + 13].name@ == tool_names()[13]);
        assert(WinClearCaches::describes(router.tools@[n + 13]));
        assert(router.tools@[n + 14].name@ == tool_names()[14]);
        assert(WinAppList::describes(router.tools@[n + 14]));
        assert(router.tools@[n + 15].name@ == tool_names()[15]);
        assert(WinAppLogs::describes(router.tools@[n + 15]));
        assert(router.tools@[n + 16].name@ == tool_names()[16]);
        assert(WinAppDataLs::describes(router.tools@[n + 16]));
        assert(router.tools@[n + 17].name@ == tool_names()[17]);
        assert(WinClearAppCache::describes(router.tools@[n + 17]));
        assert(router.tools@[n + 18].name@ == tool_names()[18]);
        assert(WinMoveFile::describes(router.tools@[n + 18]));
        assert(router.tools@[n + 19].name@ == tool_names()[19]);
        assert(WinSystemSummary::describes(router.tools@[n + 19]));
        assert(router.tools@[n + 20].name@ == tool_names()[20]);
        assert(WinReadFile::describes(router.tools@[n + 20]));
        assert(router.tools@[n + 21].name@ == tool_names()[21]);
        assert(WinReadLog::describes(router.tools@[n + 21]));
        assert(router.tools@[n + 22].name@ == tool_names()[22]);
        assert(ShellRun::describes(router.tools@[n + 22]));
        assert(router.tools@[n + 23].name@ == tool_names()[23]);
        assert(WinStartupPrograms::describes(router.tools@[n + 23]));
        assert(router.tools@[n + 24].name@ == tool_names()[24]);
        assert(WinServiceList::describes(router.tools@[n + 24]));
        assert(router.tools@[n + 25].name@ == tool_names()[25]);
        assert(WinRestartService::describes(router.tools@[n + 25]));
    }
}

} // verus!
